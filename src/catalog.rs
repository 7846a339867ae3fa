//! The template catalog: which entries of a directory listing are templates,
//! the identifier each one gives, and the sorted list of them.

use vstd::prelude::*;
use vstd::multiset::Multiset;
use vstd::relations::*;
use crate::order::{chars_le, ordinal, lemma_ordinal_total, str_eq, str_le};

verus! {

/// The file name extension that marks a template.
pub const TEMPLATE_SUFFIX: &'static str = ".gitignore";

/// The entry type of a plain file in a directory listing.
pub const FILE_KIND: &'static str = "file";

/// One entry of the remote directory listing.
pub struct ListingEntry {
    pub name: String,
    pub file_type: String,
}

/// `name` ends with the template suffix.
pub open spec fn has_template_suffix(name: Seq<char>) -> bool {
    &&& name.len() >= TEMPLATE_SUFFIX@.len()
    &&& name.subrange(name.len() - TEMPLATE_SUFFIX@.len(), name.len() as int) == TEMPLATE_SUFFIX@
}

/// `name` without its last suffix-many characters.
pub open spec fn template_id(name: Seq<char>) -> Seq<char> {
    name.subrange(0, name.len() - TEMPLATE_SUFFIX@.len())
}

/// A plain file whose name is a non-empty identifier followed by the
/// template suffix.
pub open spec fn is_template_entry(e: ListingEntry) -> bool {
    &&& e.file_type@ == FILE_KIND@
    &&& has_template_suffix(e.name@)
    &&& e.name@.len() > TEMPLATE_SUFFIX@.len()
}

/// The identifiers of the template entries, in listing order.
pub open spec fn listed_ids(entries: Seq<ListingEntry>) -> Seq<Seq<char>>
    decreases entries.len(),
{
    if entries.len() == 0 {
        Seq::empty()
    } else {
        let rest = listed_ids(entries.drop_last());
        if is_template_entry(entries.last()) {
            rest.push(template_id(entries.last().name@))
        } else {
            rest
        }
    }
}

/// The catalog of a listing: its template identifiers in ordinal order.
pub open spec fn catalog_of(entries: Seq<ListingEntry>) -> Seq<Seq<char>> {
    listed_ids(entries).sort_by(ordinal())
}

/// What a vector of strings holds, as character sequences.
pub open spec fn views(v: Seq<String>) -> Seq<Seq<char>> {
    v.map_values(|s: String| s@)
}

/// Tells whether `name` ends with the template suffix.
pub fn ends_with_template_suffix(name: &str) -> (r: bool)
    ensures
        r == has_template_suffix(name@),
{
    let n = name.unicode_len();
    let k = TEMPLATE_SUFFIX.unicode_len();
    if n < k {
        return false;
    }
    let tail = name.substring_char(n - k, n);
    str_eq(tail, TEMPLATE_SUFFIX)
}

/// The identifier of a template file name: the name without its suffix.
pub fn strip_template_suffix(name: &str) -> (r: String)
    requires
        has_template_suffix(name@),
    ensures
        r@ == template_id(name@),
        r@ + TEMPLATE_SUFFIX@ == name@,
{
    let n = name.unicode_len();
    let k = TEMPLATE_SUFFIX.unicode_len();
    let id = name.substring_char(0, n - k).to_string();
    proof {
        assert(id@ + TEMPLATE_SUFFIX@ =~= name@);
    }
    id
}

/// Tells whether a listing entry is a template file.
pub fn is_template(e: &ListingEntry) -> (r: bool)
    ensures
        r == is_template_entry(*e),
{
    str_eq(e.file_type.as_str(), FILE_KIND) && ends_with_template_suffix(e.name.as_str())
        && e.name.unicode_len() > TEMPLATE_SUFFIX.unicode_len()
}

/// Puts `s` into the sorted vector `v` at its place in the ordinal order.
fn insert_sorted(v: &mut Vec<String>, s: String)
    requires
        sorted_by(views(old(v)@), ordinal()),
    ensures
        sorted_by(views(final(v)@), ordinal()),
        views(final(v)@).to_multiset() == views(old(v)@).to_multiset().insert(s@),
{
    proof {
        lemma_ordinal_total();
    }
    let mut p: usize = 0;
    while p < v.len() && str_le(v[p].as_str(), s.as_str())
        invariant
            p <= v.len(),
            forall|k: int| 0 <= k < p ==> chars_le(#[trigger] v@[k]@, s@),
        decreases v.len() - p,
    {
        p = p + 1;
    }
    let ghost before = views(v@);
    proof {
        if p < v.len() {
            assert(!chars_le(v@[p as int]@, s@));
            assert(ordinal()(v@[p as int]@, s@) || ordinal()(s@, v@[p as int]@));
            assert forall|k: int| p <= k < v.len() implies chars_le(s@, #[trigger] v@[k]@) by {
                if k > p {
                    assert(ordinal()(before[p as int], before[k]));
                    assert(ordinal()(s@, before[p as int]));
                }
            }
        }
    }
    let ghost sv = s@;
    v.insert(p, s);
    proof {
        assert(views(v@) =~= before.insert(p as int, sv));
        broadcast use vstd::seq_lib::group_to_multiset_ensures;
        assert forall|i: int, j: int| 0 <= i < j < views(v@).len() implies
            #[trigger] ordinal()(views(v@)[i], views(v@)[j]) by {
            if i < p && j == p {
                assert(chars_le(before[i], sv));
            } else if i == p && j > p {
                assert(chars_le(sv, before[j - 1]));
            } else if i < p && j > p {
                assert(ordinal()(before[i], before[j - 1]));
            } else if i > p {
                assert(ordinal()(before[i - 1], before[j - 1]));
            } else {
                assert(ordinal()(before[i], before[j]));
            }
        }
    }
}

proof fn lemma_catalog_unique(entries: Seq<ListingEntry>, c: Seq<Seq<char>>)
    requires
        sorted_by(c, ordinal()),
        c.to_multiset() == listed_ids(entries).to_multiset(),
    ensures
        c == catalog_of(entries),
{
    lemma_ordinal_total();
    listed_ids(entries).lemma_sort_by_ensures(ordinal());
    vstd::seq_lib::lemma_sorted_unique(c, catalog_of(entries), ordinal());
}

/// The catalog of a listing: the identifiers of its template files, sorted.
pub fn catalog_from_entries(entries: &Vec<ListingEntry>) -> (r: Vec<String>)
    ensures
        views(r@) == catalog_of(entries@),
        forall|i: int| 0 <= i < r@.len() ==> #[trigger] r@[i]@.len() > 0,
{
    let mut out: Vec<String> = Vec::new();
    let mut i: usize = 0;
    proof {
        broadcast use vstd::seq_lib::group_to_multiset_ensures;
        assert(views(out@) =~= Seq::empty());
        assert(listed_ids(entries@.take(0)) =~= Seq::empty());
        assert(views(out@).to_multiset() =~= Multiset::empty());
        assert(listed_ids(entries@.take(0)).to_multiset() =~= Multiset::empty());
    }
    while i < entries.len()
        invariant
            i <= entries@.len(),
            sorted_by(views(out@), ordinal()),
            views(out@).to_multiset() == listed_ids(entries@.take(i as int)).to_multiset(),
        decreases entries@.len() - i,
    {
        let e = &entries[i];
        proof {
            assert(entries@.take(i + 1).drop_last() =~= entries@.take(i as int));
        }
        if is_template(e) {
            let id = strip_template_suffix(e.name.as_str());
            insert_sorted(&mut out, id);
            proof {
                broadcast use vstd::seq_lib::group_to_multiset_ensures;
            }
        }
        i = i + 1;
    }
    proof {
        assert(entries@.take(entries@.len() as int) =~= entries@);
        lemma_catalog_unique(entries@, views(out@));
        assert forall|i: int| 0 <= i < out@.len() implies #[trigger] out@[i]@.len() > 0 by {
            assert(catalog_of(entries@)[i] == out@[i]@);
            law_catalog_identifiers_non_empty(entries@, out@[i]@);
        }
    }
    out
}

proof fn lemma_listed_from_entry(entries: Seq<ListingEntry>, id: Seq<char>)
    requires
        listed_ids(entries).contains(id),
    ensures
        exists|e: ListingEntry|
            #[trigger] entries.contains(e) && is_template_entry(e) && id == template_id(e.name@),
    decreases entries.len(),
{
    let rest = entries.drop_last();
    if is_template_entry(entries.last()) && id == template_id(entries.last().name@) {
        assert(entries.contains(entries.last()));
    } else {
        assert(listed_ids(rest).contains(id));
        lemma_listed_from_entry(rest, id);
        let e = choose|e: ListingEntry|
            #[trigger] rest.contains(e) && is_template_entry(e) && id == template_id(e.name@);
        let k = choose|k: int| 0 <= k < rest.len() && rest[k] == e;
        assert(entries[k] == e);
        assert(entries.contains(e));
    }
}

/// Only template files reach the catalog: each identifier in it is the
/// identifier of an entry of the listing that is a plain file with the
/// template suffix. Directories and other names never appear.
pub proof fn law_catalog_only_template_files(entries: Seq<ListingEntry>, id: Seq<char>)
    requires
        catalog_of(entries).contains(id),
    ensures
        exists|e: ListingEntry|
            #[trigger] entries.contains(e) && is_template_entry(e) && id == template_id(e.name@),
{
    lemma_ordinal_total();
    listed_ids(entries).lemma_sort_by_ensures(ordinal());
    lemma_listed_from_entry(entries, id);
}

/// Stripping the suffix is undone by adding it back: for each identifier
/// in the catalog, some plain file of the listing is named exactly that
/// identifier followed by the template suffix.
pub proof fn law_catalog_suffix_round_trip(entries: Seq<ListingEntry>, id: Seq<char>)
    requires
        catalog_of(entries).contains(id),
    ensures
        exists|e: ListingEntry|
            #[trigger] entries.contains(e) && e.file_type@ == FILE_KIND@ && e.name@ == id
                + TEMPLATE_SUFFIX@,
{
    law_catalog_only_template_files(entries, id);
    let e = choose|e: ListingEntry|
        #[trigger] entries.contains(e) && is_template_entry(e) && id == template_id(e.name@);
    assert(e.name@ =~= id + TEMPLATE_SUFFIX@);
}

/// Every identifier in the catalog is non-empty: a file named only by the
/// template suffix gives none.
pub proof fn law_catalog_identifiers_non_empty(entries: Seq<ListingEntry>, id: Seq<char>)
    requires
        catalog_of(entries).contains(id),
    ensures
        id.len() > 0,
{
    law_catalog_only_template_files(entries, id);
}

/// The catalog is sorted in the ordinal order.
pub proof fn law_catalog_sorted(entries: Seq<ListingEntry>)
    ensures
        sorted_by(catalog_of(entries), ordinal()),
{
    lemma_ordinal_total();
    listed_ids(entries).lemma_sort_by_ensures(ordinal());
}

proof fn lemma_listed_remove(entries: Seq<ListingEntry>, j: int)
    requires
        0 <= j < entries.len(),
    ensures
        listed_ids(entries).to_multiset() == if is_template_entry(entries[j]) {
            listed_ids(entries.remove(j)).to_multiset().insert(template_id(entries[j].name@))
        } else {
            listed_ids(entries.remove(j)).to_multiset()
        },
    decreases entries.len(),
{
    broadcast use vstd::seq_lib::group_to_multiset_ensures;

    let n = entries.len();
    if j == n - 1 {
        assert(entries.remove(j) =~= entries.drop_last());
    } else {
        let rest = entries.drop_last();
        lemma_listed_remove(rest, j);
        assert(entries.remove(j).drop_last() =~= rest.remove(j));
        assert(entries.remove(j).last() == entries.last());
        assert(rest[j] == entries[j]);
        if is_template_entry(entries[j]) && is_template_entry(entries.last()) {
            assert(listed_ids(entries).to_multiset() =~= listed_ids(
                entries.remove(j),
            ).to_multiset().insert(template_id(entries[j].name@)));
        }
    }
}

proof fn lemma_listed_permutation(a: Seq<ListingEntry>, b: Seq<ListingEntry>)
    requires
        a.to_multiset() == b.to_multiset(),
    ensures
        listed_ids(a).to_multiset() == listed_ids(b).to_multiset(),
    decreases a.len(),
{
    broadcast use vstd::seq_lib::group_to_multiset_ensures;
    broadcast use vstd::multiset::group_multiset_axioms;

    if a.len() == 0 {
        assert(a.to_multiset().len() == 0);
        assert(b.to_multiset().len() == b.len());
        assert(b.len() == 0);
        assert(a =~= b);
    } else {
        let e = a.last();
        assert(a.contains(e));
        assert(b.to_multiset().count(e) > 0);
        assert(b.contains(e));
        let j = choose|j: int| 0 <= j < b.len() && b[j] == e;
        let b2 = b.remove(j);
        assert(a =~= a.drop_last().push(e));
        assert(a.drop_last().to_multiset() =~= b2.to_multiset());
        lemma_listed_permutation(a.drop_last(), b2);
        lemma_listed_remove(b, j);
    }
}

/// The catalog does not depend on the order of the listing: two listings
/// with the same entries, in any order, give the same catalog.
pub proof fn law_catalog_ignores_listing_order(a: Seq<ListingEntry>, b: Seq<ListingEntry>)
    requires
        a.to_multiset() == b.to_multiset(),
    ensures
        catalog_of(a) == catalog_of(b),
{
    lemma_ordinal_total();
    lemma_listed_permutation(a, b);
    listed_ids(a).lemma_sort_by_ensures(ordinal());
    listed_ids(b).lemma_sort_by_ensures(ordinal());
    vstd::seq_lib::lemma_sorted_unique(catalog_of(a), catalog_of(b), ordinal());
}

} // verus!
