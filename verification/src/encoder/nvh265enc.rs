//! Settings of the H.265 hardware encoder.
use vstd::prelude::*;
use vstd::string::*;

verus! {

#[derive(Clone, Debug, PartialEq, Eq)]
pub struct NvH265Config {
    pub name: String,
}

impl NvH265Config {
    /// Every setting has the value it starts out with.
    pub open spec fn is_default(self) -> bool {
        &&& self.name@ == "nvh265enc"@
    }
}

impl Default for NvH265Config {
    fn default() -> (res: Self)
        ensures
            res.is_default(),
    {
        NvH265Config { name: String::from_str("nvh265enc") }
    }
}

} // verus!
