//! What can go wrong in the stores and in rendering.

use vstd::prelude::*;

verus! {

/// Why a store refused an operation.
#[derive(Clone, Copy, Debug, PartialEq, Eq, Structural)]
pub enum StoreError {
    /// A row with the same key is already there.
    DuplicateKey,
    /// No row has the key asked for.
    RecordNotFound,
    /// No identifier is left for a new row.
    IdsExhausted,
}

/// Why no chart was made.
#[derive(Clone, Copy, Debug, PartialEq, Eq, Structural)]
pub enum RenderError {
    /// There is no vote to draw.
    EmptyDataset,
}

} // verus!
