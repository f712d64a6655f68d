//! Reactive companions for plain structs.
//!
//! A plain struct is paired with a "mutable" struct whose fields are
//! observable cells of `futures_signals`. This crate holds the two traits
//! that connect the pair at run time, their implementation for `Vec`, and the
//! logic that writes the companion's source code from a description of the
//! plain struct: which shape each field takes, what the companion is named,
//! and the constructor, snapshot and update code for every field.
use vstd::prelude::*;

pub mod derive;
pub mod field;
pub mod syntax;
pub mod vec;

verus! {

/// A struct whose fields are observable cells, paired with a plain struct.
pub trait MutableStruct {
    /// The plain struct that this one mirrors.
    type SnapshotType;

    /// Returns the plain struct holding the current value of every cell.
    ///
    /// The result is not observed: changing it does not touch the cells.
    fn snapshot(&self) -> Self::SnapshotType;

    /// Sets every cell to the matching value of `new_snapshot`.
    fn update(&self, new_snapshot: Self::SnapshotType);
}

/// A plain struct that can be turned into its observable companion.
pub trait AsMutableStruct {
    /// The companion, whose fields are observable cells.
    type MutableStructType: MutableStruct;

    /// Returns a companion whose cells hold the values of `self`.
    fn as_mutable_struct(&self) -> Self::MutableStructType;
}

} // verus!
