//! The environment source's key mapping, stated exactly for names over the
//! conventional environment alphabet (upper-case ASCII letters, digits and
//! underscores): the prefix and one underscore are stripped, the rest is
//! lower-cased, and each remaining underscore becomes a nesting dot.
//!
//! The engine lower-cases names before matching; on the conventional alphabet
//! that folding is plain ASCII case-folding, so nothing is claimed of names
//! outside it.

use vstd::prelude::*;

use crate::model::ConfItem;

verus! {

/// A character of the conventional environment-variable alphabet.
pub open spec fn conv_env_char(c: char) -> bool {
    ('A' <= c && c <= 'Z') || ('0' <= c && c <= '9') || c == '_'
}

/// A name written in the conventional environment-variable alphabet.
pub open spec fn conv_env_name(s: Seq<char>) -> bool {
    forall|i: int| 0 <= i < s.len() ==> conv_env_char(#[trigger] s[i])
}

/// The prefix and every pair's name are written in the conventional
/// alphabet.
pub open spec fn conv_env_input(pairs: Seq<(Seq<char>, Seq<char>)>, prefix: Seq<char>) -> bool {
    &&& conv_env_name(prefix)
    &&& forall|j: int| 0 <= j < pairs.len() ==> conv_env_name((#[trigger] pairs[j]).0)
}

/// One name character, normalized: an underscore becomes a dot, an
/// upper-case letter its lower-case form, anything else stays.
pub open spec fn lowers_env_char(n: char, k: char) -> bool {
    if n == '_' {
        k == '.'
    } else if 'A' <= n && n <= 'Z' {
        k as u32 == n as u32 + 32
    } else {
        k == n
    }
}

/// The variable name begins with the prefix followed by one underscore, so
/// the environment source takes it.
pub open spec fn env_matches(name: Seq<char>, prefix: Seq<char>) -> bool {
    &&& name.len() > prefix.len()
    &&& name.take(prefix.len() as int) == prefix
    &&& name[prefix.len() as int] == '_'
}

/// No pair's name matches the prefix: the environment source contributes
/// nothing.
pub open spec fn no_env_match(pairs: Seq<(Seq<char>, Seq<char>)>, prefix: Seq<char>) -> bool {
    forall|j: int| 0 <= j < pairs.len() ==> !env_matches((#[trigger] pairs[j]).0, prefix)
}

/// Under `prefix`, the variable `name` is mapped to the dotted key `key`:
/// name is the prefix, one underscore, then the key character by character,
/// lower-cased and with underscores turned into dots.
pub open spec fn env_maps_to(name: Seq<char>, prefix: Seq<char>, key: Seq<char>) -> bool {
    &&& name.len() == prefix.len() + 1 + key.len()
    &&& env_matches(name, prefix)
    &&& forall|i: int|
        0 <= i < key.len() ==> lowers_env_char(name[prefix.len() + 1 + i], #[trigger] key[i])
}

/// Every dot-separated segment of the key is nonempty: such a key parses as
/// a path of identifiers, so the merged tree can be addressed by it.
pub open spec fn wf_env_key(key: Seq<char>) -> bool {
    &&& 0 < key.len()
    &&& key[0] != '.'
    &&& key[key.len() - 1] != '.'
    &&& forall|i: int| 0 <= i < key.len() - 1 ==> !((#[trigger] key[i]) == '.' && key[i + 1] == '.')
}

/// `a` names a strict ancestor of `b` in the dotted key space.
pub open spec fn dotted_prefix(a: Seq<char>, b: Seq<char>) -> bool {
    &&& a.len() < b.len()
    &&& b.take(a.len() as int) == a
    &&& b[a.len() as int] == '.'
}

/// Two dotted keys contend for the same place in the tree: equal, or one an
/// ancestor of the other. When two environment names collapse onto
/// contending keys, which value stands depends on the engine's hash
/// iteration order, so nothing is promised of such pairs.
pub open spec fn keys_conflict(a: Seq<char>, b: Seq<char>) -> bool {
    a == b || dotted_prefix(a, b) || dotted_prefix(b, a)
}

/// The environment's contribution to the merged tree: every pair whose name
/// matches the prefix and maps to a well-formed key that no other matching
/// pair contends for is present in the tree, with its value as a string —
/// whatever the documents said, since the environment source is merged last.
pub open spec fn env_delivered(
    entries: Map<Seq<char>, ConfItem>,
    pairs: Seq<(Seq<char>, Seq<char>)>,
    prefix: Seq<char>,
) -> bool {
    forall|j: int, k: Seq<char>|
        {
            &&& 0 <= j < pairs.len()
            &&& #[trigger] env_maps_to(pairs[j].0, prefix, k)
            &&& wf_env_key(k)
            &&& (forall|j2: int, k2: Seq<char>|
                0 <= j2 < pairs.len() && j2 != j && #[trigger] env_maps_to(pairs[j2].0, prefix, k2)
                    ==> !keys_conflict(k, k2))
        } ==> entries.dom().contains(k) && entries[k] == ConfItem::Str(pairs[j].1)
}

/// The environment always wins: in any merged tree that carries the
/// environment's contribution, a matching variable whose well-formed key no
/// other matching variable contends for holds its value as a string at that
/// key — whatever any file source said there.
pub proof fn lemma_environment_wins(
    entries: Map<Seq<char>, ConfItem>,
    pairs: Seq<(Seq<char>, Seq<char>)>,
    prefix: Seq<char>,
    j: int,
    k: Seq<char>,
)
    requires
        env_delivered(entries, pairs, prefix),
        0 <= j < pairs.len(),
        env_maps_to(pairs[j].0, prefix, k),
        wf_env_key(k),
        forall|j2: int, k2: Seq<char>|
            0 <= j2 < pairs.len() && j2 != j && #[trigger] env_maps_to(pairs[j2].0, prefix, k2)
                ==> !keys_conflict(k, k2),
    ensures
        entries.dom().contains(k),
        entries[k] == ConfItem::Str(pairs[j].1),
{
}

/// A nonempty name of path-identifier characters: such a child name is
/// addressable by appending it, after a dot, to its parent's key.
pub open spec fn plain_ident(s: Seq<char>) -> bool {
    &&& 0 < s.len()
    &&& forall|i: int|
        0 <= i < s.len() ==> (('a' <= #[trigger] s[i] && s[i] <= 'z') || ('A' <= s[i] && s[i]
            <= 'Z') || ('0' <= s[i] && s[i] <= '9') || s[i] == '_' || s[i] == '-')
}

/// Every matching pair maps to a well-formed key, and no two matching pairs
/// contend for a place in the tree.
pub open spec fn env_keys_separate(pairs: Seq<(Seq<char>, Seq<char>)>, prefix: Seq<char>) -> bool {
    &&& (forall|j: int, k: Seq<char>|
        0 <= j < pairs.len() && #[trigger] env_maps_to(pairs[j].0, prefix, k) ==> wf_env_key(k))
    &&& (forall|j: int, k: Seq<char>, j2: int, k2: Seq<char>|
        0 <= j < pairs.len() && 0 <= j2 < pairs.len() && j != j2 && #[trigger] env_maps_to(
            pairs[j].0,
            prefix,
            k,
        ) && #[trigger] env_maps_to(pairs[j2].0, prefix, k2) ==> !keys_conflict(k, k2))
}

/// `q` is a key some pair delivers, or a dotted ancestor of one: the keys at
/// which an environment-only tree holds a value or a nested table.
pub open spec fn env_reaches(
    pairs: Seq<(Seq<char>, Seq<char>)>,
    prefix: Seq<char>,
    q: Seq<char>,
) -> bool {
    exists|j: int, k: Seq<char>|
        0 <= j < pairs.len() && #[trigger] env_maps_to(pairs[j].0, prefix, k) && (q == k
            || dotted_prefix(q, k))
}

/// A merged tree with nothing in it.
pub open spec fn empty_entries() -> Map<Seq<char>, ConfItem> {
    Map::empty()
}

/// The character views of a sequence of name-value pairs.
pub open spec fn pair_views(pairs: Seq<(String, String)>) -> Seq<(Seq<char>, Seq<char>)> {
    pairs.map_values(|p: (String, String)| (p.0@, p.1@))
}

} // verus!
