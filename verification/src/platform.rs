use vstd::prelude::*;

verus! {

/// Which of the two supported git-hosting backend families a configuration
/// and client target.
#[derive(Debug, Clone, Copy, PartialEq, Eq, Structural)]
pub enum Platform {
    Gitea,
    GitHub,
}

} // verus!
