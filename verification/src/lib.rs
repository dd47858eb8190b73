//! OpenMix engine library: the verified, float-free core of the audio
//! analysis and library-management logic.
use vstd::prelude::*;

pub mod beats;
pub mod capture;
pub mod digest;
pub mod error;
pub mod key;
pub mod meta;
pub mod stamp;
pub mod store;
pub mod text;

verus! {

/// Name of the engine crate.
pub fn engine_name() -> (name: &'static str)
    ensures
        name@ == "openmix-core"@,
{
    "openmix-core"
}

} // verus!
