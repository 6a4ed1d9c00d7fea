//! Settings of the H.264 hardware encoder.
use vstd::prelude::*;
use vstd::string::*;

verus! {

#[derive(Clone, Debug, PartialEq, Eq)]
pub struct NvH264Config {
    pub name: String,
}

impl NvH264Config {
    /// Every setting has the value it starts out with.
    pub open spec fn is_default(self) -> bool {
        &&& self.name@ == "nvh265enc"@
    }
}

impl Default for NvH264Config {
    fn default() -> (res: Self)
        ensures
            res.is_default(),
    {
        NvH264Config { name: String::from_str("nvh265enc") }
    }
}

} // verus!
