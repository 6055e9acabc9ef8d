use vstd::prelude::*;

pub mod callback;
pub mod codec;
pub mod relay;
pub mod render;
pub mod roster;
pub mod stop;
pub mod store;
pub mod tally;

verus! {

/// The version string to report: the revision given on the command line
/// when there is one, otherwise the description of the build's source.
pub fn version(set_revision: Option<String>, build_description: &str) -> (r: String)
    ensures
        r@ == match set_revision {
            Some(s) => s@,
            None => build_description@,
        },
{
    match set_revision {
        Some(s) => s,
        None => String::from_str(build_description),
    }
}

} // verus!
