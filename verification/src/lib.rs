//! Lifecycle orchestration for a capture, encode and write media pipeline.
//!
//! The crate decides; it never touches a media engine itself. It plans the
//! commands that an engine has to carry out, says which error a failed
//! command turns into, which state a bus message leads to, and what a call
//! of the controller returns for each thing that may come back. The caller
//! carries the commands out and reports what came of them.
//!
//! - [`engine`]: the boundary to the engine as plain data: commands, steps
//!   of a plan, bus messages.
//! - [`container`]: the elements of a run and the plan that creates,
//!   attaches and links them; what makes a plan sound, and how a run is
//!   undone.
//! - [`traits`], [`input`], [`encoder`], [`output`]: the stages and what
//!   each of them plans.
//! - [`recorder`]: the lifecycle state machine, the assembled pipeline, the
//!   bus watcher, and the controller with its rendezvous channel.
//! - [`util`]: helpers that plan how elements are created and set up.
pub mod container;
pub mod encoder;
pub mod engine;
pub mod input;
pub mod output;
pub mod recorder;
pub mod traits;
pub mod util;
