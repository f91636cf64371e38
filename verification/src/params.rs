//! Read-only views over the hyperparameters the backend reports at load time.
//!
//! Both towers are described by plain value structs, copied out of the
//! backend once so that a loaded model is self-describing without repeated
//! backend queries.  The numerical epsilon is a 32-bit float on the backend
//! side; it crosses the boundary as its raw bit pattern.

use vstd::prelude::*;

verus! {

/// Hyperparameters of the text tower.
#[derive(Debug, Clone, Copy, PartialEq, Eq, Structural)]
pub struct TextParams {
    pub vocab: i32,
    pub positions: i32,
    pub hidden_size: i32,
    pub intermediate: i32,
    pub projection_dim: i32,
    pub head: i32,
    pub layer: i32,
    /// IEEE-754 bit pattern of the 32-bit layer-norm epsilon.
    pub eps_bits: u32,
}

impl TextParams {
    /// Vocabulary size.
    pub fn vocab(&self) -> (r: i32)
        ensures
            r == self.vocab,
    {
        self.vocab
    }

    /// Number of positional embeddings; an upper bound on usable token counts.
    pub fn positions(&self) -> (r: i32)
        ensures
            r == self.positions,
    {
        self.positions
    }

    /// Hidden width of the tower.
    pub fn hidden_size(&self) -> (r: i32)
        ensures
            r == self.hidden_size,
    {
        self.hidden_size
    }

    /// Intermediate (feed-forward) width.
    pub fn intermediate(&self) -> (r: i32)
        ensures
            r == self.intermediate,
    {
        self.intermediate
    }

    /// Length of the embedding vectors this tower produces.
    pub fn projection_dim(&self) -> (r: i32)
        ensures
            r == self.projection_dim,
    {
        self.projection_dim
    }

    /// Attention-head count.
    pub fn head(&self) -> (r: i32)
        ensures
            r == self.head,
    {
        self.head
    }

    /// Layer count.
    pub fn layer(&self) -> (r: i32)
        ensures
            r == self.layer,
    {
        self.layer
    }

    /// Bit pattern of the numerical epsilon.
    pub fn eps_bits(&self) -> (r: u32)
        ensures
            r == self.eps_bits,
    {
        self.eps_bits
    }
}

/// Hyperparameters of the vision tower.
#[derive(Debug, Clone, Copy, PartialEq, Eq, Structural)]
pub struct VisionParams {
    /// Edge length, in pixels, of the square input the tower expects.
    pub image_size: i32,
    pub patch_size: i32,
    pub hidden_size: i32,
    pub intermediate: i32,
    pub projection_dim: i32,
    pub head: i32,
    pub layer: i32,
    /// IEEE-754 bit pattern of the 32-bit layer-norm epsilon.
    pub eps_bits: u32,
}

impl VisionParams {
    /// Edge length of the square input the tower expects.
    pub fn image_size(&self) -> (r: i32)
        ensures
            r == self.image_size,
    {
        self.image_size
    }

    /// Edge length of one patch.
    pub fn patch_size(&self) -> (r: i32)
        ensures
            r == self.patch_size,
    {
        self.patch_size
    }

    /// Hidden width of the tower.
    pub fn hidden_size(&self) -> (r: i32)
        ensures
            r == self.hidden_size,
    {
        self.hidden_size
    }

    /// Intermediate (feed-forward) width.
    pub fn intermediate(&self) -> (r: i32)
        ensures
            r == self.intermediate,
    {
        self.intermediate
    }

    /// Length of the embedding vectors this tower produces.
    pub fn projection_dim(&self) -> (r: i32)
        ensures
            r == self.projection_dim,
    {
        self.projection_dim
    }

    /// Attention-head count.
    pub fn head(&self) -> (r: i32)
        ensures
            r == self.head,
    {
        self.head
    }

    /// Layer count.
    pub fn layer(&self) -> (r: i32)
        ensures
            r == self.layer,
    {
        self.layer
    }

    /// Bit pattern of the numerical epsilon.
    pub fn eps_bits(&self) -> (r: u32)
        ensures
            r == self.eps_bits,
    {
        self.eps_bits
    }
}

} // verus!
