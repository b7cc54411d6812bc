//! Selection of configuration documents from a directory listing: exactly the
//! entries that carry the recognized `.yaml` extension, in listing order.

use vstd::prelude::*;

verus! {

/// The characters of each string in the sequence.
pub open spec fn seq_views(s: Seq<String>) -> Seq<Seq<char>> {
    s.map_values(|p: String| p@)
}

/// The name ends in the recognized extension `.yaml`.
pub open spec fn is_yaml_name(s: Seq<char>) -> bool {
    ".yaml"@.len() <= s.len() && s.skip(s.len() - ".yaml"@.len()) == ".yaml"@
}

/// `is_yaml_name` as a value, so that every contract filters by one and the
/// same predicate.
pub open spec fn yaml_name_pred() -> spec_fn(Seq<char>) -> bool {
    |s: Seq<char>| is_yaml_name(s)
}

/// Relies on `str::ends_with`: true exactly when the string is at least as
/// long as the suffix and ends with the suffix's characters.
#[verifier::external_body]
fn str_ends_with(s: &str, suffix: &str) -> (r: bool)
    ensures
        r == (suffix@.len() <= s@.len() && s@.skip(s@.len() - suffix@.len()) == suffix@),
{
    s.ends_with(suffix)
}

proof fn lemma_filter_push(s: Seq<Seq<char>>, x: Seq<char>)
    ensures
        is_yaml_name(x) ==> s.push(x).filter(yaml_name_pred()) == s.filter(yaml_name_pred()).push(x),
        !is_yaml_name(x) ==> s.push(x).filter(yaml_name_pred()) == s.filter(yaml_name_pred()),
{
    reveal(Seq::filter);
    assert(s.push(x).drop_last() =~= s);
    assert(s.push(x).last() == x);
}

/// The entries whose names end in `.yaml`, in the order given.
///
/// This is the file-discovery rule of the loader: every other entry, whatever
/// it is, is silently skipped.
pub fn select_yaml_paths(entries: &Vec<String>) -> (r: Vec<String>)
    ensures
        seq_views(r@) == seq_views(entries@).filter(yaml_name_pred()),
{
    let mut r: Vec<String> = Vec::new();
    let mut i: usize = 0;
    while i < entries.len()
        invariant
            i <= entries.len(),
            seq_views(r@) == seq_views(entries@.take(i as int)).filter(yaml_name_pred()),
        decreases entries.len() - i,
    {
        let keep = str_ends_with(entries[i].as_str(), ".yaml");
        proof {
            assert(seq_views(entries@.take(i + 1)) =~= seq_views(entries@.take(i as int)).push(
                entries@[i as int]@,
            ));
            lemma_filter_push(seq_views(entries@.take(i as int)), entries@[i as int]@);
        }
        if keep {
            let kept = entries[i].clone();
            let ghost prev = r@;
            r.push(kept);
            proof {
                assert(seq_views(r@) =~= seq_views(prev).push(entries@[i as int]@));
            }
        }
        i = i + 1;
    }
    proof {
        assert(entries@.take(entries@.len() as int) =~= entries@);
    }
    r
}

/// In a directory whose entries all lack the `.yaml` extension, discovery
/// selects nothing: the snapshot is then built from the environment source
/// alone.
pub proof fn lemma_no_yaml_entries_selected(names: Seq<Seq<char>>)
    requires
        forall|i: int| 0 <= i < names.len() ==> !is_yaml_name(names[i]),
    ensures
        names.filter(yaml_name_pred()) == Seq::<Seq<char>>::empty(),
    decreases names.len(),
{
    reveal(Seq::filter);
    if names.len() == 0 {
        assert(names =~= Seq::<Seq<char>>::empty());
    } else {
        assert(forall|i: int|
            0 <= i < names.drop_last().len() ==> !is_yaml_name(names.drop_last()[i]));
        lemma_no_yaml_entries_selected(names.drop_last());
        assert(!is_yaml_name(names.last()));
    }
}

} // verus!
