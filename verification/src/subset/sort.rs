use crate::subset::ast::Expr;
use crate::subset::ast::Id;
use crate::subset::ast::Instance;
use crate::util::order::lemma_lex_asym;
use crate::util::order::lemma_lex_connex;
use crate::util::order::lemma_lex_le_trans;
use crate::util::order::lex_le;
use crate::util::order::lex_lt;
use vstd::prelude::*;

verus! {

// ----------------------------------------------------------------------------
// Name-keyed entry lists.
//
// Parameter values and port connections of an instance are lists of
// (name, expression) pairs with pairwise distinct names. Inserting under an
// existing name overwrites that entry; rendering lists entries in ascending
// name order, whatever the insertion order was.
// ----------------------------------------------------------------------------

/// The (name view, value) pairs of an entry list.
pub open spec fn entry_views(s: Seq<(Id, Expr)>) -> Seq<(Seq<char>, Expr)> {
    s.map_values(|p: (Id, Expr)| (p.0@, p.1))
}

/// No two entries share a name.
pub open spec fn unique_keys(s: Seq<(Seq<char>, Expr)>) -> bool {
    forall|i: int, j: int| 0 <= i < j < s.len() ==> s[i].0 != s[j].0
}

/// Insertion with overwrite: replaces the first entry carrying the given
/// name, or appends a new entry.
pub open spec fn entry_insert(s: Seq<(Seq<char>, Expr)>, k: Seq<char>, v: Expr) -> Seq<
    (Seq<char>, Expr),
>
    decreases s.len(),
{
    if s.len() == 0 {
        seq![(k, v)]
    } else if s[0].0 == k {
        seq![(k, v)] + s.drop_first()
    } else {
        seq![s[0]] + entry_insert(s.drop_first(), k, v)
    }
}

/// Entries stand in ascending name order.
pub open spec fn sorted_by_keys(s: Seq<(Seq<char>, Expr)>) -> bool {
    forall|i: int, j: int| 0 <= i < j < s.len() ==> lex_le(s[i].0, s[j].0)
}

/// Insertion into an ascending list, before the first entry it does not
/// come after.
pub open spec fn insert_sorted(p: (Seq<char>, Expr), s: Seq<(Seq<char>, Expr)>) -> Seq<
    (Seq<char>, Expr),
>
    decreases s.len(),
{
    if s.len() == 0 {
        seq![p]
    } else if lex_le(p.0, s[0].0) {
        seq![p] + s
    } else {
        seq![s[0]] + insert_sorted(p, s.drop_first())
    }
}

/// The entries rearranged into ascending name order.
pub open spec fn sort_entries(s: Seq<(Seq<char>, Expr)>) -> Seq<(Seq<char>, Expr)>
    decreases s.len(),
{
    if s.len() == 0 {
        Seq::empty()
    } else {
        insert_sorted(s[0], sort_entries(s.drop_first()))
    }
}

impl Instance {
    /// Both entry lists carry pairwise distinct names. The builder calls
    /// keep this; rendering relies on it.
    pub open spec fn wf(self) -> bool {
        unique_keys(entry_views(self.params@)) && unique_keys(entry_views(self.ports@))
    }
}

// ----------------------------------------------------------------------------
// Facts about insertion.
// ----------------------------------------------------------------------------

/// Inserting keeps names unique, and every entry of the result either
/// carries the inserted name or was present before.
pub proof fn lemma_entry_insert(s: Seq<(Seq<char>, Expr)>, k: Seq<char>, v: Expr)
    ensures
        forall|i: int|
            0 <= i < entry_insert(s, k, v).len() ==> entry_insert(s, k, v)[i].0 == k || (
            exists|j: int| 0 <= j < s.len() && entry_insert(s, k, v)[i] == s[j]),
        unique_keys(s) ==> unique_keys(entry_insert(s, k, v)),
    decreases s.len(),
{
    let r = entry_insert(s, k, v);
    if s.len() == 0 {
    } else if s[0].0 == k {
        assert forall|i: int| 0 <= i < r.len() implies r[i].0 == k || (exists|j: int|
            0 <= j < s.len() && r[i] == s[j]) by {
            if i > 0 {
                assert(r[i] == s.drop_first()[i - 1]);
                assert(r[i] == s[i]);
            }
        }
    } else {
        lemma_entry_insert(s.drop_first(), k, v);
        let inner = entry_insert(s.drop_first(), k, v);
        assert forall|i: int| 0 <= i < r.len() implies r[i].0 == k || (exists|j: int|
            0 <= j < s.len() && r[i] == s[j]) by {
            if i == 0 {
                assert(r[0] == s[0]);
            } else {
                assert(r[i] == inner[i - 1]);
                if inner[i - 1].0 != k {
                    let j = choose|j: int|
                        0 <= j < s.drop_first().len() && inner[i - 1] == s.drop_first()[j];
                    assert(r[i] == s[j + 1]);
                }
            }
        }
        if unique_keys(s) {
            assert(unique_keys(s.drop_first()));
            assert forall|i: int, j: int| 0 <= i < j < r.len() implies r[i].0 != r[j].0 by {
                if i == 0 {
                    assert(r[j] == inner[j - 1]);
                    if inner[j - 1].0 != k {
                        let m = choose|m: int|
                            0 <= m < s.drop_first().len() && inner[j - 1] == s.drop_first()[m];
                        assert(inner[j - 1] == s[m + 1]);
                        assert(s[0].0 != s[m + 1].0);
                    }
                } else {
                    assert(r[i] == inner[i - 1]);
                    assert(r[j] == inner[j - 1]);
                }
            }
        }
    }
}

/// When the name is present, insertion overwrites its first occurrence in
/// place.
pub proof fn lemma_entry_insert_found(s: Seq<(Seq<char>, Expr)>, k: Seq<char>, v: Expr, i: int)
    requires
        0 <= i < s.len(),
        s[i].0 == k,
        forall|j: int| 0 <= j < i ==> s[j].0 != k,
    ensures
        entry_insert(s, k, v) == s.update(i, (k, v)),
    decreases s.len(),
{
    if i == 0 {
        assert(entry_insert(s, k, v) =~= s.update(0, (k, v)));
    } else {
        assert(s.drop_first()[i - 1].0 == k);
        assert forall|j: int| 0 <= j < i - 1 implies s.drop_first()[j].0 != k by {
            assert(s.drop_first()[j] == s[j + 1]);
        }
        lemma_entry_insert_found(s.drop_first(), k, v, i - 1);
        assert(entry_insert(s, k, v) =~= s.update(i, (k, v)));
    }
}

/// When the name is absent, insertion appends.
pub proof fn lemma_entry_insert_missing(s: Seq<(Seq<char>, Expr)>, k: Seq<char>, v: Expr)
    requires
        forall|j: int| 0 <= j < s.len() ==> s[j].0 != k,
    ensures
        entry_insert(s, k, v) == s.push((k, v)),
    decreases s.len(),
{
    if s.len() == 0 {
        assert(entry_insert(s, k, v) =~= s.push((k, v)));
    } else {
        assert forall|j: int| 0 <= j < s.drop_first().len() implies s.drop_first()[j].0 != k by {
            assert(s.drop_first()[j] == s[j + 1]);
        }
        lemma_entry_insert_missing(s.drop_first(), k, v);
        assert(entry_insert(s, k, v) =~= s.push((k, v)));
    }
}

// ----------------------------------------------------------------------------
// Facts about sorting.
// ----------------------------------------------------------------------------

/// Sorted insertion keeps the list ascending and adds exactly the new entry.
pub proof fn lemma_insert_sorted(p: (Seq<char>, Expr), s: Seq<(Seq<char>, Expr)>)
    requires
        sorted_by_keys(s),
    ensures
        sorted_by_keys(insert_sorted(p, s)),
        insert_sorted(p, s).to_multiset() == s.to_multiset().insert(p),
        insert_sorted(p, s).len() == s.len() + 1,
    decreases s.len(),
{
    broadcast use vstd::seq_lib::group_to_multiset_ensures;
    broadcast use vstd::multiset::group_multiset_axioms;

    let r = insert_sorted(p, s);
    if s.len() == 0 {
        assert(r =~= Seq::<(Seq<char>, Expr)>::empty().push(p));
        assert(Seq::<(Seq<char>, Expr)>::empty().push(p).to_multiset()
            == Seq::<(Seq<char>, Expr)>::empty().to_multiset().insert(p));
        assert(s.to_multiset() =~= Seq::<(Seq<char>, Expr)>::empty().to_multiset());
    } else if lex_le(p.0, s[0].0) {
        assert forall|i: int, j: int| 0 <= i < j < r.len() implies lex_le(r[i].0, r[j].0) by {
            if i == 0 {
                assert(r[j] == s[j - 1]);
                if j > 1 {
                    lemma_lex_le_trans(p.0, s[0].0, s[j - 1].0);
                } else {
                    assert(r[j] == s[0]);
                }
            } else {
                assert(r[i] == s[i - 1]);
                assert(r[j] == s[j - 1]);
            }
        }
        assert(r =~= seq![p] + s);
        vstd::seq_lib::lemma_multiset_commutative(seq![p], s);
        assert(seq![p] =~= Seq::<(Seq<char>, Expr)>::empty().push(p));
        assert(r.to_multiset() =~= s.to_multiset().insert(p));
    } else {
        lemma_lex_connex(p.0, s[0].0);
        assert(lex_le(s[0].0, p.0));
        assert(sorted_by_keys(s.drop_first())) by {
            assert forall|i: int, j: int|
                0 <= i < j < s.drop_first().len() implies lex_le(
                s.drop_first()[i].0,
                s.drop_first()[j].0,
            ) by {
                assert(s.drop_first()[i] == s[i + 1]);
                assert(s.drop_first()[j] == s[j + 1]);
            }
        }
        lemma_insert_sorted(p, s.drop_first());
        let inner = insert_sorted(p, s.drop_first());
        assert forall|i: int, j: int| 0 <= i < j < r.len() implies lex_le(r[i].0, r[j].0) by {
            if i == 0 {
                assert(r[j] == inner[j - 1]);
                assert(inner.to_multiset().contains(inner[j - 1]));
                if inner[j - 1] == p {
                    assert(lex_le(s[0].0, p.0));
                } else {
                    assert(s.drop_first().to_multiset().contains(inner[j - 1]));
                    let m = choose|m: int|
                        0 <= m < s.drop_first().len() && s.drop_first()[m] == inner[j - 1];
                    assert(s.drop_first()[m] == s[m + 1]);
                    assert(lex_le(s[0].0, s[m + 1].0));
                }
            } else {
                assert(r[i] == inner[i - 1]);
                assert(r[j] == inner[j - 1]);
            }
        }
        assert(r.to_multiset() == s.to_multiset().insert(p)) by {
            vstd::seq_lib::lemma_multiset_commutative(seq![s[0]], inner);
            vstd::seq_lib::lemma_multiset_commutative(seq![s[0]], s.drop_first());
            assert(s =~= seq![s[0]] + s.drop_first());
            assert(r.to_multiset() =~= s.to_multiset().insert(p));
        }
    }
}

/// Sorting yields an ascending permutation of the entries.
pub proof fn lemma_sort_entries(s: Seq<(Seq<char>, Expr)>)
    ensures
        sorted_by_keys(sort_entries(s)),
        sort_entries(s).to_multiset() == s.to_multiset(),
        sort_entries(s).len() == s.len(),
    decreases s.len(),
{
    broadcast use vstd::seq_lib::group_to_multiset_ensures;
    broadcast use vstd::multiset::group_multiset_axioms;

    if s.len() == 0 {
    } else {
        lemma_sort_entries(s.drop_first());
        lemma_insert_sorted(s[0], sort_entries(s.drop_first()));
        vstd::seq_lib::lemma_multiset_commutative(seq![s[0]], s.drop_first());
        assert(s =~= seq![s[0]] + s.drop_first());
        assert(seq![s[0]] =~= Seq::<(Seq<char>, Expr)>::empty().push(s[0]));
        assert(sort_entries(s).to_multiset() =~= s.to_multiset());
    }
}

/// A permutation of a uniquely-named list is uniquely named.
pub proof fn lemma_unique_keys_permutation(a: Seq<(Seq<char>, Expr)>, b: Seq<(Seq<char>, Expr)>)
    requires
        a.to_multiset() == b.to_multiset(),
        unique_keys(a),
    ensures
        unique_keys(b),
    decreases a.len(),
{
    broadcast use vstd::seq_lib::group_to_multiset_ensures;
    broadcast use vstd::multiset::group_multiset_axioms;

    if a.len() == 0 {
        assert(b.to_multiset().len() == 0);
        assert(b.len() == 0);
        assert(b =~= Seq::<(Seq<char>, Expr)>::empty());
    } else {
        let x = a[0];
        assert(a.to_multiset().contains(x));
        assert(b.to_multiset().contains(x));
        let bi = choose|bi: int| 0 <= bi < b.len() && b[bi] == x;
        let b2 = b.remove(bi);
        let a2 = a.drop_first();
        assert(a2 =~= a.remove(0));
        vstd::seq_lib::to_multiset_remove(a, 0);
        vstd::seq_lib::to_multiset_remove(b, bi);
        assert(a2.to_multiset() == b2.to_multiset());
        assert(unique_keys(a2)) by {
            assert forall|i: int, j: int| 0 <= i < j < a2.len() implies a2[i].0 != a2[j].0 by {
                assert(a2[i] == a[i + 1]);
                assert(a2[j] == a[j + 1]);
            }
        }
        lemma_unique_keys_permutation(a2, b2);
        assert forall|i: int, j: int| 0 <= i < j < b.len() implies b[i].0 != b[j].0 by {
            if i == bi || j == bi {
                let other = if i == bi {
                    j
                } else {
                    i
                };
                let oi = if other < bi {
                    other
                } else {
                    other - 1
                };
                assert(b2[oi] == b[other]);
                assert(b2.to_multiset().contains(b2[oi]));
                assert(a2.to_multiset().contains(b2[oi]));
                let m = choose|m: int| 0 <= m < a2.len() && a2[m] == b2[oi];
                assert(a2[m] == a[m + 1]);
                assert(a[0].0 != a[m + 1].0);
                assert(b[bi].0 == a[0].0);
            } else {
                let i2 = if i < bi {
                    i
                } else {
                    i - 1
                };
                let j2 = if j < bi {
                    j
                } else {
                    j - 1
                };
                assert(b2[i2] == b[i]);
                assert(b2[j2] == b[j]);
            }
        }
    }
}

/// Two ascending lists with the same entries and pairwise distinct names
/// are equal.
pub proof fn lemma_sorted_unique_equal(a: Seq<(Seq<char>, Expr)>, b: Seq<(Seq<char>, Expr)>)
    requires
        sorted_by_keys(a),
        sorted_by_keys(b),
        a.to_multiset() == b.to_multiset(),
        unique_keys(b),
    ensures
        a == b,
    decreases a.len(),
{
    broadcast use vstd::seq_lib::group_to_multiset_ensures;
    broadcast use vstd::multiset::group_multiset_axioms;

    if a.len() == 0 {
        assert(b.to_multiset().len() == 0);
        assert(a =~= b);
    } else {
        assert(b.to_multiset().len() == a.len());
        assert(b.len() == a.len());
        assert(a.to_multiset().contains(a[0]));
        assert(b.to_multiset().contains(a[0]));
        let j = choose|j: int| 0 <= j < b.len() && b[j] == a[0];
        assert(lex_le(b[0].0, a[0].0));
        assert(b.to_multiset().contains(b[0]));
        assert(a.to_multiset().contains(b[0]));
        let i = choose|i: int| 0 <= i < a.len() && a[i] == b[0];
        assert(lex_le(a[0].0, b[0].0));
        assert(a[0].0 == b[0].0) by {
            if a[0].0 != b[0].0 {
                lemma_lex_asym(a[0].0, b[0].0);
            }
        }
        assert(j == 0) by {
            if j != 0 {
                assert(b[0].0 != b[j].0);
            }
        }
        assert(a[0] == b[0]);
        let a2 = a.drop_first();
        let b2 = b.drop_first();
        assert(a2 =~= a.remove(0));
        assert(b2 =~= b.remove(0));
        vstd::seq_lib::to_multiset_remove(a, 0);
        vstd::seq_lib::to_multiset_remove(b, 0);
        assert(sorted_by_keys(a2)) by {
            assert forall|m: int, n: int| 0 <= m < n < a2.len() implies lex_le(
                a2[m].0,
                a2[n].0,
            ) by {
                assert(a2[m] == a[m + 1]);
                assert(a2[n] == a[n + 1]);
            }
        }
        assert(sorted_by_keys(b2)) by {
            assert forall|m: int, n: int| 0 <= m < n < b2.len() implies lex_le(
                b2[m].0,
                b2[n].0,
            ) by {
                assert(b2[m] == b[m + 1]);
                assert(b2[n] == b[n + 1]);
            }
        }
        assert(unique_keys(b2)) by {
            assert forall|m: int, n: int| 0 <= m < n < b2.len() implies b2[m].0 != b2[n].0 by {
                assert(b2[m] == b[m + 1]);
                assert(b2[n] == b[n + 1]);
            }
        }
        lemma_sorted_unique_equal(a2, b2);
        assert forall|m: int| 0 <= m < a.len() implies a[m] == b[m] by {
            if m > 0 {
                assert(a2[m - 1] == a[m]);
                assert(b2[m - 1] == b[m]);
            }
        }
        assert(a =~= b);
    }
}

// ----------------------------------------------------------------------------
// Executable insertion and sorting.
// ----------------------------------------------------------------------------

/// Relies on `str`'s `==`: two string slices are equal exactly when their
/// characters are.
#[verifier::external_body]
fn str_eq(a: &str, b: &str) -> (r: bool)
    ensures
        r == (a@ == b@),
{
    a == b
}

/// Index of the first entry carrying `key`, if any.
fn find_key(entries: &Vec<(Id, Expr)>, key: &str) -> (r: Option<usize>)
    ensures
        match r {
            Some(i) => i < entries@.len() && entries@[i as int].0@ == key@ && (forall|j: int|
                0 <= j < i ==> entries@[j].0@ != key@),
            None => forall|j: int| 0 <= j < entries@.len() ==> entries@[j].0@ != key@,
        },
{
    let mut i: usize = 0;
    while i < entries.len()
        invariant
            i <= entries@.len(),
            forall|j: int| 0 <= j < i ==> entries@[j].0@ != key@,
        decreases entries@.len() - i,
    {
        if str_eq(entries[i].0.as_str(), key) {
            return Some(i);
        }
        i += 1;
    }
    None
}

/// Inserts `(key, value)`, overwriting the entry already carrying `key`
/// if there is one.
pub fn assoc_insert(entries: &mut Vec<(Id, Expr)>, key: &str, value: Expr)
    ensures
        entry_views(final(entries)@) == entry_insert(entry_views(old(entries)@), key@, value),
{
    let ghost orig = entry_views(entries@);
    match find_key(entries, key) {
        Some(i) => {
            entries.remove(i);
            entries.insert(i, (key.to_owned(), value));
            proof {
                assert forall|j: int| 0 <= j < i implies orig[j].0 != key@ by {
                    assert(orig[j].0 == old(entries)@[j].0@);
                }
                lemma_entry_insert_found(orig, key@, value, i as int);
                assert(entry_views(entries@) =~= orig.update(i as int, (key@, value)));
            }
        }
        None => {
            entries.push((key.to_owned(), value));
            proof {
                assert forall|j: int| 0 <= j < orig.len() implies orig[j].0 != key@ by {
                    assert(orig[j].0 == old(entries)@[j].0@);
                }
                lemma_entry_insert_missing(orig, key@, value);
                assert(entry_views(entries@) =~= orig.push((key@, value)));
            }
        }
    }
}

/// Relies on `itertools::Itertools::sorted_by_key`: the entries come back
/// sorted ascending by name and are a permutation of the input. `String`'s
/// order is byte-wise lexicographic on the UTF-8 encoding, which coincides
/// with lexicographic order on the code points; the derived `Clone` copies
/// each pair unchanged.
#[verifier::external_body]
fn sort_pairs(entries: &Vec<(Id, Expr)>) -> (r: Vec<(Id, Expr)>)
    ensures
        entry_views(r@).to_multiset() == entry_views(entries@).to_multiset(),
        sorted_by_keys(entry_views(r@)),
{
    itertools::Itertools::sorted_by_key(entries.iter().cloned(), |p: &(Id, Expr)| p.0.clone())
        .collect()
}

/// A copy of the entries in ascending name order.
pub fn sorted_entries(entries: &Vec<(Id, Expr)>) -> (r: Vec<(Id, Expr)>)
    requires
        unique_keys(entry_views(entries@)),
    ensures
        entry_views(r@) == sort_entries(entry_views(entries@)),
{
    let r = sort_pairs(entries);
    proof {
        lemma_sort_entries(entry_views(entries@));
        lemma_unique_keys_permutation(
            entry_views(entries@),
            sort_entries(entry_views(entries@)),
        );
        lemma_sorted_unique_equal(entry_views(r@), sort_entries(entry_views(entries@)));
    }
    r
}

} // verus!
