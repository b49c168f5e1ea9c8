use vstd::prelude::*;

use crate::cluster_readiness_output::ClusterReadinessOutput;

verus! {

/// The outputs of one input to the readiness machine, in order.
#[derive(Debug, PartialEq, Eq)]
pub struct OutputBatch {
    outputs: Vec<ClusterReadinessOutput>,
}

impl View for OutputBatch {
    type V = Seq<ClusterReadinessOutput>;

    closed spec fn view(&self) -> Seq<ClusterReadinessOutput> {
        self.outputs@
    }
}

impl Clone for OutputBatch {
    fn clone(&self) -> (r: Self)
        ensures
            r@ == self@,
    {
        OutputBatch { outputs: vstd::slice::slice_to_vec(self.outputs.as_slice()) }
    }
}

impl OutputBatch {
    pub fn new() -> (r: Self)
        ensures
            r@ == Seq::<ClusterReadinessOutput>::empty(),
    {
        OutputBatch { outputs: Vec::new() }
    }

    pub fn from(outputs: Vec<ClusterReadinessOutput>) -> (r: Self)
        ensures
            r@ == outputs@,
    {
        OutputBatch { outputs }
    }

    pub fn len(&self) -> (r: usize)
        ensures
            r == self@.len(),
    {
        self.outputs.len()
    }

    pub fn is_empty(&self) -> (r: bool)
        ensures
            r == (self@.len() == 0),
    {
        self.outputs.len() == 0
    }

    pub fn get(&self, index: usize) -> (r: Option<ClusterReadinessOutput>)
        ensures
            r == (if index < self@.len() {
                Some(self@[index as int])
            } else {
                None
            }),
    {
        if index < self.outputs.len() {
            Some(self.outputs[index])
        } else {
            None
        }
    }

    pub fn outputs(&self) -> (r: &[ClusterReadinessOutput])
        ensures
            r@ == self@,
    {
        self.outputs.as_slice()
    }
}

impl Default for OutputBatch {
    fn default() -> (r: Self)
        ensures
            r@ == Seq::<ClusterReadinessOutput>::empty(),
    {
        Self::new()
    }
}

} // verus!
