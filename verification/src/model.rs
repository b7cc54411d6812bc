//! The mathematical model of a merged configuration value, as the contracts
//! speak of it.

use vstd::prelude::*;

verus! {

/// What the merged tree holds at one addressable key.
///
/// The merge engine's own value type also carries floating-point numbers,
/// wider integers and an explicit null; the contracts here make no promise
/// about typed reads of those, so the model folds them into `Other`.
pub enum ConfItem {
    /// A string with exactly these characters.
    Str(Seq<char>),
    /// A 64-bit signed integer.
    Int(i64),
    /// A boolean.
    Bool(bool),
    /// A nested table.
    Table,
    /// An ordered array.
    Array,
    /// A value of any other shape the engine can hold.
    Other,
}

} // verus!
