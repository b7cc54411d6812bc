//! The capability interface over a merged snapshot: pure typed reads, stated
//! against the model of the merged tree.

use std::collections::HashMap;

use vstd::prelude::*;

use crate::coerce::bool_read_of_string;
use crate::coerce::int_read_of_string;
use crate::coerce::is_canon_dec;
use crate::coerce::parsed_i64;
use crate::envmap::plain_ident;
use crate::errors::ConfError;
use crate::errors::got_not_found;
use crate::errors::got_type_mismatch;
use crate::model::ConfItem;
use crate::snapshot::value_item;

verus! {

/// What the table getter returns at a table-holding key: every plainly
/// named child stands in the returned map exactly when the dotted path
/// reaches it in the tree, with the same abstracted value. Children whose
/// literal names are not plain identifiers (a dot inside a name, say) are
/// not path-addressable, so nothing is said of them.
pub open spec fn table_payload(
    entries: Map<Seq<char>, ConfItem>,
    key: Seq<char>,
    m: Map<String, config::Value>,
) -> bool {
    &&& (forall|ks: String|
        #[trigger] m.dom().contains(ks) && plain_ident(ks@) ==> entries.dom().contains(
            key + "."@ + ks@,
        ) && entries[key + "."@ + ks@] == value_item(m[ks]))
    &&& (forall|sub: Seq<char>|
        plain_ident(sub) && #[trigger] entries.dom().contains(key + "."@ + sub) ==> (exists|
            ks: String,
        |
            #[trigger] m.dom().contains(ks) && ks@ == sub))
}

/// What the array getter returns at an array-holding key: the subscripted
/// path `key[i]`, written with the canonical decimal for `i`, resolves
/// exactly for the indices the result holds, each to the same abstracted
/// value as the element there.
pub open spec fn array_payload(
    entries: Map<Seq<char>, ConfItem>,
    key: Seq<char>,
    v: Seq<config::Value>,
) -> bool {
    forall|i: int, ds: Seq<char>|
        0 <= i && #[trigger] is_canon_dec(ds, i) ==> {
            &&& (entries.dom().contains(key + "["@ + ds + "]"@) <==> i < v.len())
            &&& (i < v.len() ==> entries[key + "["@ + ds + "]"@] == value_item(v[i]))
        }
}

/// Typed reads over any merged configuration backend. `Snapshot` is the one
/// concrete implementor, wrapping the engine's merged value; a mock
/// implementor returning fixed values can stand in for it when code built on
/// top of this interface is tested.
///
/// Every operation is a pure read: none mutates the snapshot.
pub trait Accessor {
    /// The model of the merged tree this accessor reads: each addressable
    /// dotted key, mapped to the shape and scalar content of its value.
    spec fn model(&self) -> Map<Seq<char>, ConfItem>;

    /// The string at `key`. Fails with `NotFound` exactly when no source
    /// defines the key; a string value comes back unchanged; an integer is
    /// rendered as the decimal text that parses back to it, a boolean as
    /// `true` or `false`; tables and arrays give `TypeMismatch`.
    fn get_str(&self, key: &str) -> (r: Result<String, ConfError>)
        ensures
            got_not_found(r) <==> !self.model().dom().contains(key@),
            r is Err ==> got_not_found(r) || got_type_mismatch(r),
            self.model().dom().contains(key@) ==> match self.model()[key@] {
                ConfItem::Str(s) => r is Ok && r->Ok_0@ == s,
                ConfItem::Int(i) => r is Ok && parsed_i64(r->Ok_0@) == Option::Some(i),
                ConfItem::Bool(b) => r is Ok && r->Ok_0@ == (if b {
                    "true"@
                } else {
                    "false"@
                }),
                ConfItem::Table => got_type_mismatch(r),
                ConfItem::Array => got_type_mismatch(r),
                ConfItem::Other => true,
            },
    ;

    /// The 64-bit integer at `key`. Fails with `NotFound` exactly when no
    /// source defines the key; an integer comes back as itself; a boolean as
    /// one or zero; a string follows the engine's fixed rule — truth words,
    /// then decimal parse, else `TypeMismatch`; tables and arrays give
    /// `TypeMismatch`.
    fn get_int(&self, key: &str) -> (r: Result<i64, ConfError>)
        ensures
            got_not_found(r) <==> !self.model().dom().contains(key@),
            r is Err ==> got_not_found(r) || got_type_mismatch(r),
            self.model().dom().contains(key@) ==> match self.model()[key@] {
                ConfItem::Str(s) => int_read_of_string(s, r),
                ConfItem::Int(i) => r is Ok && r->Ok_0 == i,
                ConfItem::Bool(b) => r is Ok && r->Ok_0 == (if b {
                    1i64
                } else {
                    0i64
                }),
                ConfItem::Table => got_type_mismatch(r),
                ConfItem::Array => got_type_mismatch(r),
                ConfItem::Other => true,
            },
    ;

    /// The boolean at `key`. Fails with `NotFound` exactly when no source
    /// defines the key; a boolean comes back as itself; an integer as its
    /// comparison with zero; a string succeeds on the engine's eight truth
    /// words, any other string gives `TypeMismatch`; so do tables and
    /// arrays.
    fn get_bool(&self, key: &str) -> (r: Result<bool, ConfError>)
        ensures
            got_not_found(r) <==> !self.model().dom().contains(key@),
            r is Err ==> got_not_found(r) || got_type_mismatch(r),
            self.model().dom().contains(key@) ==> match self.model()[key@] {
                ConfItem::Str(s) => bool_read_of_string(s, r),
                ConfItem::Int(i) => r is Ok && r->Ok_0 == (i != 0),
                ConfItem::Bool(b) => r is Ok && r->Ok_0 == b,
                ConfItem::Table => got_type_mismatch(r),
                ConfItem::Array => got_type_mismatch(r),
                ConfItem::Other => true,
            },
    ;

    /// The table at `key`, as a map of its direct children: each plainly
    /// named child present exactly when its dotted path resolves, with the
    /// same abstracted value. Fails with `NotFound` exactly when no source
    /// defines the key and with `TypeMismatch` whenever the value there is
    /// not a table.
    fn get_table(&self, key: &str) -> (r: Result<HashMap<String, config::Value>, ConfError>)
        ensures
            got_not_found(r) <==> !self.model().dom().contains(key@),
            r is Err ==> got_not_found(r) || got_type_mismatch(r),
            self.model().dom().contains(key@) ==> match self.model()[key@] {
                ConfItem::Table => r is Ok && table_payload(self.model(), key@, (r->Ok_0)@),
                _ => got_type_mismatch(r),
            },
    ;

    /// The array at `key`: the subscripted path resolves exactly for the
    /// indices the result holds, each to the same abstracted value, in the
    /// array's order. Fails with `NotFound` exactly when no source defines
    /// the key and with `TypeMismatch` whenever the value there is not an
    /// array.
    fn get_array(&self, key: &str) -> (r: Result<Vec<config::Value>, ConfError>)
        ensures
            got_not_found(r) <==> !self.model().dom().contains(key@),
            r is Err ==> got_not_found(r) || got_type_mismatch(r),
            self.model().dom().contains(key@) ==> match self.model()[key@] {
                ConfItem::Array => r is Ok && array_payload(self.model(), key@, (r->Ok_0)@),
                _ => got_type_mismatch(r),
            },
    ;
}

} // verus!
