//! The merged configuration snapshot and its typed accessors.
//!
//! The merge itself is done by the `config` crate. Its `Config` value is held
//! opaquely; what the contracts say about it goes through `conf_entries`, the
//! model of the merged tree: a map from each addressable dotted key to the
//! `ConfItem` found there.

use std::collections::HashMap;

use vstd::prelude::*;

use crate::accessor::Accessor;
use crate::coerce::bool_read_of_string;
use crate::coerce::is_canon_dec;
use crate::coerce::int_read_of_string;
use crate::coerce::parsed_i64;
use crate::depth::doc_is_shallow;
use crate::depth::doc_shallow;
use crate::depth::docs_shallow;
use crate::envmap::conv_env_input;
use crate::envmap::env_keys_separate;
use crate::envmap::env_reaches;
use crate::envmap::empty_entries;
use crate::envmap::env_delivered;
use crate::envmap::no_env_match;
use crate::envmap::pair_views;
use crate::envmap::plain_ident;
use crate::errors::ConfError;
use crate::errors::got_not_found;
use crate::errors::got_type_mismatch;
use crate::model::ConfItem;
use crate::paths::seq_views;

verus! {

#[verifier::external_type_specification]
#[verifier::external_body]
pub struct ExConfig(config::Config);

#[verifier::external_type_specification]
#[verifier::external_body]
pub struct ExValue(config::Value);

/// The model of a merged `config::Config`: every key string that the engine's
/// lookup resolves in the tree, mapped to the shape and scalar content of the
/// value found there. Keys here are full dotted paths, nested tables too.
pub uninterp spec fn conf_entries(c: config::Config) -> Map<Seq<char>, ConfItem>;

/// The shape and scalar content of one engine value, abstracted the same way
/// `conf_entries` abstracts the value resolved at a key: a function of the
/// value alone.
pub uninterp spec fn value_item(v: config::Value) -> ConfItem;

/// Whether a sequence of documents all parse as YAML mappings, so that a
/// build over them succeeds.
pub uninterp spec fn docs_parse_ok(docs: Seq<Seq<char>>) -> bool;

/// The value one parsed document holds at a dotted key: the key, parsed as a
/// path, walked over the document's own tree — literal child names and
/// subscripts alike — abstracted as `conf_entries` abstracts values. `None`
/// where the key does not parse or nothing stands there. A function of the
/// text and the key alone.
pub uninterp spec fn doc_at(text: Seq<char>, key: Seq<char>) -> Option<ConfItem>;

/// The document parses as a mapping whose every top-level key is a plain
/// identifier. Such keys enter the tree exactly as written; a literal
/// top-level key holding dots or brackets would instead be expanded as a
/// path, and which expansion wins against a neighbour then hangs on hash
/// iteration order.
pub uninterp spec fn doc_plain(text: Seq<char>) -> bool;

/// Every document is plain.
pub open spec fn all_docs_plain(docs: Seq<Seq<char>>) -> bool {
    forall|j: int| 0 <= j < docs.len() ==> doc_plain(#[trigger] docs[j])
}

/// No key is defined by two documents: their trees are disjoint.
pub open spec fn docs_disjoint(docs: Seq<Seq<char>>) -> bool {
    forall|j: int, j2: int, k: Seq<char>|
        0 <= j < docs.len() && 0 <= j2 < docs.len() && j != j2 ==> !(#[trigger] doc_at(
            docs[j],
            k,
        ) is Some && #[trigger] doc_at(docs[j2], k) is Some)
}

/// The merged tree is exactly the union of the documents' trees: a key
/// resolves in the merge precisely when some document defines it, to that
/// document's value.
pub open spec fn docs_merged(entries: Map<Seq<char>, ConfItem>, docs: Seq<Seq<char>>) -> bool {
    &&& (forall|q: Seq<char>|
        #[trigger] entries.dom().contains(q) <==> (exists|j: int|
            0 <= j < docs.len() && (#[trigger] doc_at(docs[j], q)) is Some))
    &&& (forall|j: int, q: Seq<char>|
        0 <= j < docs.len() ==> ((#[trigger] doc_at(docs[j], q)) matches Some(it)
            ==> entries.dom().contains(q) && entries[q] == it))
}

/// Disjoint documents merge to the union: in any merged tree that is the
/// plain union of the documents' trees, every key one document defines is
/// present with that document's own value.
pub proof fn lemma_disjoint_docs_union(
    entries: Map<Seq<char>, ConfItem>,
    docs: Seq<Seq<char>>,
    j: int,
    q: Seq<char>,
    it: ConfItem,
)
    requires
        docs_merged(entries, docs),
        0 <= j < docs.len(),
        doc_at(docs[j], q) == Option::Some(it),
    ensures
        entries.dom().contains(q),
        entries[q] == it,
{
}

/// A stack of registered sources, not yet merged: the engine's builder with
/// the YAML documents added so far, in order.
#[verifier::external_body]
pub struct SourceStack {
    inner: config::builder::ConfigBuilder<config::builder::DefaultState>,
}

/// The documents registered on a source stack, in registration order.
pub uninterp spec fn stacked_docs(s: SourceStack) -> Seq<Seq<char>>;

/// Relies on `config::Config::builder`, which starts a builder holding no
/// sources at all.
#[verifier::external_body]
fn new_source_stack() -> (s: SourceStack)
    ensures
        stacked_docs(s) == Seq::<Seq<char>>::empty(),
{
    SourceStack { inner: config::Config::builder() }
}

/// Relies on `config::ConfigBuilder::add_source` with a string-backed YAML
/// source (`config::File::from_str`): the builder gains exactly this document,
/// after all earlier ones. No file is read and nothing is parsed yet.
#[verifier::external_body]
fn push_yaml_doc(s: SourceStack, doc: &str) -> (r: SourceStack)
    ensures
        stacked_docs(r) == stacked_docs(s).push(doc@),
{
    SourceStack { inner: s.inner.add_source(config::File::from_str(doc, config::FileFormat::Yaml)) }
}

/// Relies on `config::ConfigBuilder::build` with one `config::Environment`
/// source appended last, fed the given variables rather than the process
/// environment. The environment source never fails to collect, so the build
/// succeeds exactly when every stacked document parses; any failure is the
/// engine's parse or merge error, surfaced as `BuildFailed`. Because the
/// environment source is merged last and its values enter as strings, every
/// conventionally named matching variable whose key no other matching
/// variable contends for stands in the merged tree with its value
/// (`env_delivered`); with nothing stacked and separated keys, the tree's
/// domain is exactly the delivered keys and their ancestor tables; and with
/// nothing stacked and nothing matching, the tree is empty. When every
/// stacked document is plain, their trees pairwise disjoint, and no variable
/// matches, root keys never collide and the merge is the plain union of the
/// documents' trees, whatever order the engine walks its maps in.
#[verifier::external_body]
fn build_stack(s: SourceStack, env_pairs: Vec<(String, String)>, prefix: &str) -> (r: Result<
    config::Config,
    ConfError,
>)
    requires
        docs_shallow(stacked_docs(s)),
    ensures
        r is Ok <==> docs_parse_ok(stacked_docs(s)),
        stacked_docs(s).len() == 0 ==> r is Ok,
        r is Err ==> r->Err_0 is BuildFailed,
        (r is Ok && conv_env_input(pair_views(env_pairs@), prefix@) && stacked_docs(s).len() == 0
            && env_keys_separate(pair_views(env_pairs@), prefix@)) ==> (forall|q: Seq<char>|
            #[trigger] conf_entries(r->Ok_0).dom().contains(q) <==> env_reaches(
                pair_views(env_pairs@),
                prefix@,
                q,
            )),
        (r is Ok && conv_env_input(pair_views(env_pairs@), prefix@)) ==> env_delivered(
            conf_entries(r->Ok_0),
            pair_views(env_pairs@),
            prefix@,
        ),
        (r is Ok && conv_env_input(pair_views(env_pairs@), prefix@) && stacked_docs(s).len() == 0
            && no_env_match(pair_views(env_pairs@), prefix@)) ==> conf_entries(r->Ok_0)
            =~= empty_entries(),
        (r is Ok && conv_env_input(pair_views(env_pairs@), prefix@) && no_env_match(
            pair_views(env_pairs@),
            prefix@,
        ) && (forall|j: int|
            0 <= j < stacked_docs(s).len() ==> doc_plain(#[trigger] stacked_docs(s)[j]))
            && docs_disjoint(stacked_docs(s))) ==> (forall|q: Seq<char>|
            #[trigger] conf_entries(r->Ok_0).dom().contains(q) <==> (exists|j: int|
                0 <= j < stacked_docs(s).len() && (#[trigger] doc_at(stacked_docs(s)[j], q)) is Some)),
        (r is Ok && conv_env_input(pair_views(env_pairs@), prefix@) && no_env_match(
            pair_views(env_pairs@),
            prefix@,
        ) && all_docs_plain(stacked_docs(s)) && docs_disjoint(stacked_docs(s))) ==> (forall|
            j: int,
            q: Seq<char>,
        |
            0 <= j < stacked_docs(s).len() ==> ((#[trigger] doc_at(stacked_docs(s)[j], q)) matches Some(it)
                ==> conf_entries(r->Ok_0).dom().contains(q) && conf_entries(r->Ok_0)[q] == it)),
{
    let vars: HashMap<String, String> = env_pairs.into_iter().collect();
    let env = config::Environment::with_prefix(prefix).separator("_").source(Some(vars));
    match s.inner.add_source(env).build() {
        Ok(c) => Ok(c),
        Err(e) => Err(ConfError::BuildFailed(e.to_string())),
    }
}

/// Relies on `config::Config::get_string` (lookup plus `Value::into_string`):
/// an unresolvable key gives the not-found error, a string comes back
/// unchanged, an integer is rendered as the decimal text that parses back to
/// it, a boolean as `true` or `false`, and tables and arrays refuse with a
/// type error.
#[verifier::external_body]
fn cfg_get_string(c: &config::Config, key: &str) -> (r: Result<String, ConfError>)
    ensures
        got_not_found(r) <==> !conf_entries(*c).dom().contains(key@),
        r is Err ==> got_not_found(r) || got_type_mismatch(r),
        conf_entries(*c).dom().contains(key@) ==> match conf_entries(*c)[key@] {
            ConfItem::Str(s) => r is Ok && r->Ok_0@ == s,
            ConfItem::Int(i) => r is Ok && parsed_i64(r->Ok_0@) == Option::Some(i),
            ConfItem::Bool(b) => r is Ok && r->Ok_0@ == (if b {
                "true"@
            } else {
                "false"@
            }),
            ConfItem::Table => got_type_mismatch(r),
            ConfItem::Array => got_type_mismatch(r),
            ConfItem::Other => true,
        },
{
    match c.get_string(key) {
        Ok(v) => Ok(v),
        Err(config::ConfigError::NotFound(k)) => Err(ConfError::NotFound(k)),
        Err(e @ config::ConfigError::PathParse { .. }) => Err(ConfError::NotFound(e.to_string())),
        Err(e) => Err(ConfError::TypeMismatch(e.to_string())),
    }
}

/// Relies on `config::Config::get_int` (lookup plus `Value::into_int`): an
/// unresolvable key gives the not-found error, an integer comes back as
/// itself, a boolean as one or zero, a string follows the engine's fixed
/// rule — truth words, then decimal parse —, tables and arrays refuse.
#[verifier::external_body]
fn cfg_get_int(c: &config::Config, key: &str) -> (r: Result<i64, ConfError>)
    ensures
        got_not_found(r) <==> !conf_entries(*c).dom().contains(key@),
        r is Err ==> got_not_found(r) || got_type_mismatch(r),
        conf_entries(*c).dom().contains(key@) ==> match conf_entries(*c)[key@] {
            ConfItem::Str(s) => int_read_of_string(s, r),
            ConfItem::Int(i) => r is Ok && r->Ok_0 == i,
            ConfItem::Bool(b) => r is Ok && r->Ok_0 == (if b {
                1i64
            } else {
                0i64
            }),
            ConfItem::Table => got_type_mismatch(r),
            ConfItem::Array => got_type_mismatch(r),
            ConfItem::Other => true,
        },
{
    match c.get_int(key) {
        Ok(v) => Ok(v),
        Err(config::ConfigError::NotFound(k)) => Err(ConfError::NotFound(k)),
        Err(e @ config::ConfigError::PathParse { .. }) => Err(ConfError::NotFound(e.to_string())),
        Err(e) => Err(ConfError::TypeMismatch(e.to_string())),
    }
}

/// Relies on `config::Config::get_bool` (lookup plus `Value::into_bool`): an
/// unresolvable key gives the not-found error, a boolean comes back as
/// itself, an integer as its comparison with zero, a string succeeds on the
/// engine's eight truth words and refuses otherwise, as do tables and
/// arrays.
#[verifier::external_body]
fn cfg_get_bool(c: &config::Config, key: &str) -> (r: Result<bool, ConfError>)
    ensures
        got_not_found(r) <==> !conf_entries(*c).dom().contains(key@),
        r is Err ==> got_not_found(r) || got_type_mismatch(r),
        conf_entries(*c).dom().contains(key@) ==> match conf_entries(*c)[key@] {
            ConfItem::Str(s) => bool_read_of_string(s, r),
            ConfItem::Int(i) => r is Ok && r->Ok_0 == (i != 0),
            ConfItem::Bool(b) => r is Ok && r->Ok_0 == b,
            ConfItem::Table => got_type_mismatch(r),
            ConfItem::Array => got_type_mismatch(r),
            ConfItem::Other => true,
        },
{
    match c.get_bool(key) {
        Ok(v) => Ok(v),
        Err(config::ConfigError::NotFound(k)) => Err(ConfError::NotFound(k)),
        Err(e @ config::ConfigError::PathParse { .. }) => Err(ConfError::NotFound(e.to_string())),
        Err(e) => Err(ConfError::TypeMismatch(e.to_string())),
    }
}

/// Relies on `config::Config::get_table` (lookup plus `Value::into_table`):
/// an unresolvable key gives the not-found error, a table comes back as its
/// map of direct children — each plainly named child standing in the map
/// exactly when the dotted path reaches it in the tree, with the same
/// abstracted value — and every other shape refuses with a type error.
/// Children whose literal names hold dots or other non-identifier characters
/// are not path-addressable, so nothing is said of them.
#[verifier::external_body]
fn cfg_get_table(c: &config::Config, key: &str) -> (r: Result<
    HashMap<String, config::Value>,
    ConfError,
>)
    ensures
        got_not_found(r) <==> !conf_entries(*c).dom().contains(key@),
        r is Err ==> got_not_found(r) || got_type_mismatch(r),
        conf_entries(*c).dom().contains(key@) ==> match conf_entries(*c)[key@] {
            ConfItem::Table => r is Ok && (forall|ks: String|
                #[trigger] (r->Ok_0)@.dom().contains(ks) && plain_ident(ks@)
                    ==> conf_entries(*c).dom().contains(key@ + "."@ + ks@) && conf_entries(
                    *c,
                )[key@ + "."@ + ks@] == value_item((r->Ok_0)@[ks])) && (forall|sub: Seq<char>|
                plain_ident(sub) && #[trigger] conf_entries(*c).dom().contains(key@ + "."@ + sub)
                    ==> (exists|ks: String| #[trigger] (r->Ok_0)@.dom().contains(ks) && ks@
                    == sub)),
            _ => got_type_mismatch(r),
        },
{
    match c.get_table(key) {
        Ok(v) => Ok(v),
        Err(config::ConfigError::NotFound(k)) => Err(ConfError::NotFound(k)),
        Err(e @ config::ConfigError::PathParse { .. }) => Err(ConfError::NotFound(e.to_string())),
        Err(e) => Err(ConfError::TypeMismatch(e.to_string())),
    }
}

/// Relies on `config::Config::get_array` (lookup plus `Value::into_array`):
/// an unresolvable key gives the not-found error, an array comes back as its
/// elements in order — the subscripted path `key[i]` resolves exactly for
/// the indices the result holds, to the same abstracted value — and every
/// other shape refuses with a type error.
#[verifier::external_body]
fn cfg_get_array(c: &config::Config, key: &str) -> (r: Result<Vec<config::Value>, ConfError>)
    ensures
        got_not_found(r) <==> !conf_entries(*c).dom().contains(key@),
        r is Err ==> got_not_found(r) || got_type_mismatch(r),
        conf_entries(*c).dom().contains(key@) ==> match conf_entries(*c)[key@] {
            ConfItem::Array => r is Ok && (forall|i: int, ds: Seq<char>|
                0 <= i && #[trigger] is_canon_dec(ds, i) ==> ((conf_entries(*c).dom().contains(
                    key@ + "["@ + ds + "]"@,
                ) <==> i < (r->Ok_0)@.len()) && (i < (r->Ok_0)@.len() ==> conf_entries(*c)[key@
                    + "["@ + ds + "]"@] == value_item((r->Ok_0)@[i])))),
            _ => got_type_mismatch(r),
        },
{
    match c.get_array(key) {
        Ok(v) => Ok(v),
        Err(config::ConfigError::NotFound(k)) => Err(ConfError::NotFound(k)),
        Err(e @ config::ConfigError::PathParse { .. }) => Err(ConfError::NotFound(e.to_string())),
        Err(e) => Err(ConfError::TypeMismatch(e.to_string())),
    }
}

/// The immutable merged configuration. Built once by `build_snapshot`; every
/// accessor is a pure read.
#[derive(Debug)]
pub struct Snapshot {
    inner: config::Config,
}

impl View for Snapshot {
    type V = Map<Seq<char>, ConfItem>;

    closed spec fn view(&self) -> Map<Seq<char>, ConfItem> {
        conf_entries(self.inner)
    }
}

impl Accessor for Snapshot {
    open spec fn model(&self) -> Map<Seq<char>, ConfItem> {
        self@
    }

    fn get_str(&self, key: &str) -> (r: Result<String, ConfError>) {
        cfg_get_string(&self.inner, key)
    }

    fn get_int(&self, key: &str) -> (r: Result<i64, ConfError>) {
        cfg_get_int(&self.inner, key)
    }

    fn get_bool(&self, key: &str) -> (r: Result<bool, ConfError>) {
        cfg_get_bool(&self.inner, key)
    }

    fn get_table(&self, key: &str) -> (r: Result<HashMap<String, config::Value>, ConfError>) {
        cfg_get_table(&self.inner, key)
    }

    fn get_array(&self, key: &str) -> (r: Result<Vec<config::Value>, ConfError>) {
        cfg_get_array(&self.inner, key)
    }
}

impl Snapshot {
    /// Surrenders the engine's merged value, for whole-tree deserialization
    /// by a caller. Consumes the snapshot: whole-object extraction is
    /// terminal for this handle.
    pub fn into_inner(self) -> (c: config::Config)
        ensures
            conf_entries(c) == self@,
    {
        self.inner
    }

    /// Borrows the engine's merged value, for reads the typed accessors do
    /// not cover.
    pub fn inner_ref(&self) -> (c: &config::Config)
        ensures
            conf_entries(*c) == self@,
    {
        &self.inner
    }
}

/// Merges the given YAML documents, in order, with one environment source
/// appended last: later sources override earlier ones on key collision —
/// sources never fail to combine; where shapes disagree, the later source's
/// value simply stands — and the environment always wins. `env_pairs` are the variables to consider;
/// names that start with `prefix` plus an underscore are stripped of that
/// prefix, lower-cased, and their remaining underscores become nesting dots
/// (`env_delivered` states that mapping for conventionally named variables).
///
/// Succeeds exactly when every document stays within the nesting bound and
/// parses — in particular always when there is no document at all, as for a
/// directory holding no `.yaml` entry. A parse failure fails the whole build
/// with `BuildFailed`, and so does a document nested too deeply for the
/// engine to walk safely.
pub fn build_snapshot(docs: &Vec<String>, env_pairs: Vec<(String, String)>, prefix: &str) -> (r:
    Result<Snapshot, ConfError>)
    ensures
        r is Ok <==> (docs_shallow(seq_views(docs@)) && docs_parse_ok(seq_views(docs@))),
        docs@.len() == 0 ==> r is Ok,
        r is Err ==> r->Err_0 is BuildFailed,
        (r is Ok && conv_env_input(pair_views(env_pairs@), prefix@)) ==> env_delivered(
            (r->Ok_0)@,
            pair_views(env_pairs@),
            prefix@,
        ),
        (r is Ok && conv_env_input(pair_views(env_pairs@), prefix@) && docs@.len() == 0
            && env_keys_separate(pair_views(env_pairs@), prefix@)) ==> (forall|q: Seq<char>|
            #[trigger] (r->Ok_0)@.dom().contains(q) <==> env_reaches(
                pair_views(env_pairs@),
                prefix@,
                q,
            )),
        (r is Ok && conv_env_input(pair_views(env_pairs@), prefix@) && docs@.len() == 0
            && no_env_match(pair_views(env_pairs@), prefix@)) ==> (r->Ok_0)@ =~= empty_entries(),
        (r is Ok && conv_env_input(pair_views(env_pairs@), prefix@) && no_env_match(
            pair_views(env_pairs@),
            prefix@,
        ) && all_docs_plain(seq_views(docs@)) && docs_disjoint(seq_views(docs@))) ==> docs_merged(
            (r->Ok_0)@,
            seq_views(docs@),
        ),
{
    let mut stack = new_source_stack();
    let mut i: usize = 0;
    while i < docs.len()
        invariant
            i <= docs.len(),
            stacked_docs(stack) == seq_views(docs@.take(i as int)),
            forall|j: int| 0 <= j < i ==> doc_shallow(#[trigger] seq_views(docs@)[j]),
        decreases docs.len() - i,
    {
        if !doc_is_shallow(docs[i].as_str()) {
            proof {
                assert(seq_views(docs@)[i as int] == docs@[i as int]@);
                assert(!docs_shallow(seq_views(docs@)));
            }
            return Err(ConfError::BuildFailed(
                "configuration document is nested too deeply".to_owned(),
            ));
        }
        proof {
            assert(seq_views(docs@.take(i + 1)) =~= seq_views(docs@.take(i as int)).push(
                docs@[i as int]@,
            ));
        }
        stack = push_yaml_doc(stack, docs[i].as_str());
        i = i + 1;
    }
    proof {
        assert(docs@.take(docs@.len() as int) =~= docs@);
        assert(docs_shallow(seq_views(docs@)));
    }
    match build_stack(stack, env_pairs, prefix) {
        Ok(c) => Ok(Snapshot { inner: c }),
        Err(e) => Err(e),
    }
}

} // verus!
