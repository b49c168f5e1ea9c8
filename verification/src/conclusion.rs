use vstd::prelude::*;

verus! {

/// How a node concluded its bootstrap.
#[derive(Debug, Clone, Copy, PartialEq, Eq, Structural)]
pub enum Conclusion {
    Bootstrapped,
}

} // verus!
