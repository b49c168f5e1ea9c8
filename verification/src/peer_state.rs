use vstd::prelude::*;

verus! {

/// The state a node reports for itself in its cluster view.
#[derive(Debug, Clone, Copy, PartialEq, Eq, Structural)]
pub enum PeerState {
    Fresh,
    Pinging,
    Collecting,
    Bootstrapped,
    TimedOut,
}

} // verus!
