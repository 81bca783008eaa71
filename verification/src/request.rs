//! What one run is asked to build.

use vstd::prelude::*;
use vstd::string::*;
use crate::runtime::Runtime;
use crate::text::ascii_lowercase;

verus! {

/// The branch that is built where none is asked for.
pub const DEFAULT_TARGET: &'static str = "main";

/// A chain, and the branch, tag or commit of its source to build from.
#[derive(Clone, Debug, PartialEq, Eq)]
pub struct BuildRequest {
    pub runtime: Runtime,
    pub target: String,
}

/// The target of a request: the one given, else the default branch.
pub open spec fn spec_target_or_default(target: Option<String>) -> Seq<char> {
    match target {
        Some(t) => t@,
        None => DEFAULT_TARGET@,
    }
}

impl BuildRequest {
    /// The request that a chain selector and an optional target stand for.
    ///
    /// The selector is read without regard to the case of its ASCII
    /// letters. The target is taken as it is; where none is given, the
    /// default branch is built. There is no request for a selector that
    /// names none of the chains.
    pub fn from_args(selector: &str, target: Option<String>) -> (r: Option<BuildRequest>)
        ensures
            r is None <==> forall|v: Runtime| ascii_lowercase(selector@) != v.spec_lowercase_name(),
            r matches Some(request) ==> {
                &&& ascii_lowercase(selector@) == request.runtime.spec_lowercase_name()
                &&& request.target@ == spec_target_or_default(target)
            },
    {
        match Runtime::from_name(selector) {
            Some(runtime) => {
                let target = match target {
                    Some(t) => t,
                    None => String::from_str(DEFAULT_TARGET),
                };
                Some(BuildRequest { runtime, target })
            },
            None => None,
        }
    }
}

} // verus!
