//! The tree of pipelines that make up one frame.
//!
//! A tree is a snapshot: it describes the nesting of frames in one
//! top-level browsing context at the moment it is sent, and the receiver
//! replaces what it had. That no pipeline occurs twice is the sender's
//! business; nothing here checks it.

use crate::events::BrowserId;
use crate::geometry::Size;
use vstd::prelude::*;

verus! {

/// The identity of one pipeline.
#[derive(Clone, Copy, Debug, PartialEq, Eq, Structural)]
pub struct PipelineId {
    pub namespace_id: u32,
    pub index: u32,
}

/// The part of a pipeline that composition needs. `S` and `L` are the
/// one-way channels to the pipeline's script and layout peers.
#[derive(Clone, Debug)]
pub struct CompositionPipeline<S, L> {
    pub id: PipelineId,
    pub top_level_browsing_context_id: BrowserId,
    pub script_chan: S,
    pub layout_chan: L,
}

/// A pipeline, the size of its viewport if it has one, and the trees of
/// the frames embedded in it, in document order.
pub struct SendableFrameTree<S, L> {
    pub pipeline: CompositionPipeline<S, L>,
    pub size: Option<Size>,
    pub children: Vec<SendableFrameTree<S, L>>,
}

impl<S, L> SendableFrameTree<S, L> {
    /// The pipelines of the tree, each parent before its children and the
    /// children in their order.
    pub open spec fn preorder(self) -> Seq<PipelineId>
        decreases self, self.children@.len() + 1,
    {
        seq![self.pipeline.id] + self.preorder_from(0)
    }

    /// The pipelines of the subtrees of the children from the one at
    /// `from` onwards.
    pub open spec fn preorder_from(self, from: int) -> Seq<PipelineId>
        decreases self, self.children@.len() - from,
    {
        if 0 <= from < self.children@.len() {
            self.children[from].preorder() + self.preorder_from(from + 1)
        } else {
            Seq::empty()
        }
    }

    /// Whether no pipeline occurs twice in the tree.
    pub open spec fn has_unique_ids(self) -> bool {
        self.preorder().no_duplicates()
    }

    /// Makes the tree of a frame without embedded frames.
    pub fn leaf(pipeline: CompositionPipeline<S, L>, size: Option<Size>) -> (tree: Self)
        ensures
            tree.pipeline == pipeline,
            tree.size == size,
            tree.children@.len() == 0,
            tree.preorder() == seq![pipeline.id],
    {
        let tree = SendableFrameTree { pipeline, size, children: Vec::new() };
        assert(tree.preorder_from(0) == Seq::<PipelineId>::empty());
        tree
    }

    /// Lists the pipelines of the tree, each parent before its children.
    pub fn pipeline_ids(&self) -> (ids: Vec<PipelineId>)
        ensures
            ids@ == self.preorder(),
        decreases self,
    {
        let mut ids: Vec<PipelineId> = Vec::new();
        ids.push(self.pipeline.id);
        let mut i: usize = self.children.len();
        let mut tail: Vec<PipelineId> = Vec::new();
        while i > 0
            invariant
                i <= self.children@.len(),
                tail@ == self.preorder_from(i as int),
            decreases i,
        {
            i -= 1;
            let mut below = self.children[i].pipeline_ids();
            below.append(&mut tail);
            tail = below;
        }
        ids.append(&mut tail);
        ids
    }
}

} // verus!
