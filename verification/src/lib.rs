//! Decoder for a binary sprite-animation project blob and renderer of the
//! authoring tool's tag-structured project documents.
//!
//! The library reconstructs, from one immutable byte buffer, the project
//! header, the cell (sub-image) table grouped by owning atlas, the animation
//! packs with their per-frame flag-driven keyframe streams, and the particle
//! effect behavior lists, and re-emits them as the tool's project, atlas and
//! animation-pack documents.
//!
//! Values read from the buffer that the binary stores as 32-bit floats are
//! carried as their raw bit patterns; a document is a list of chunks in which
//! such values stay symbolic, so that a caller can print them with the float
//! formatting of its choice.

use vstd::prelude::*;

pub mod binary;
pub mod xml;
pub mod cell;
pub mod anime;
pub mod frames;
pub mod effect;
pub mod project;

verus! {

/// Error raised when an ordinal read from the buffer lies outside the
/// domain of the enumeration it selects; holds the offending value.
#[derive(Debug, Clone, Copy, PartialEq, Eq, Structural)]
pub struct CastError(pub usize);

/// Error raised when a part's reference name lacks the pack/animation
/// delimiter.
#[derive(Debug, Clone, Copy, PartialEq, Eq, Structural)]
pub enum PartError {
    MissingPathInRefName,
}

/// Error raised when the reserved base behavior tag appears as a standalone
/// record.
#[derive(Debug, Clone, Copy, PartialEq, Eq, Structural)]
pub enum EffectError {
    GotBaseEffect,
}

/// Everything that can go wrong while decoding one buffer.
#[derive(Debug, Clone, Copy, PartialEq, Eq, Structural)]
pub enum DecodeError {
    /// A read of `need` bytes at `offset` exceeds the buffer's `len`.
    Bounds { offset: usize, need: usize, len: usize },
    /// A string at `offset` is unterminated or not valid UTF-8.
    InvalidString { offset: usize },
    /// An enumeration ordinal outside its domain.
    Cast(CastError),
    /// A malformed part reference name.
    Part(PartError),
    /// The reserved base behavior tag stood alone.
    Effect(EffectError),
    /// Two cells of one cell map share `cell_index`.
    DuplicateIndex { map_index: u16, cell_index: u16 },
}

} // verus!
