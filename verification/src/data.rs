//! Auxiliary data attached by middleware: named records of values, with the
//! merge rule applied when one middleware writes under the same name twice.

use vstd::prelude::*;

use crate::length::SideLength;
use crate::orientation::Placement;

verus! {

/// One overflow measurement recorded by a placement-choosing middleware: the
/// placement that was tried and the overflow found on the axes it checked.
#[derive(Copy, Clone, Debug, PartialEq, Eq, Structural)]
pub struct CandidateOverflow {
    /// The placement the measurement was taken for.
    pub placement: Placement,
    /// The overflow past the placement's own side, when the main axis was
    /// checked.
    pub main: Option<i64>,
    /// The overflow past the main alignment side, when the cross axis was
    /// checked.
    pub cross_start: Option<i64>,
    /// The overflow past the side opposite the main alignment side, when the
    /// cross axis was checked.
    pub cross_end: Option<i64>,
}

/// The mathematical value of a [`DataValue`].
pub ghost enum DataValueView {
    Null,
    Bool(bool),
    Number(i64),
    Text(Seq<char>),
    Sides(SideLength),
    Candidates(Seq<CandidateOverflow>),
}

/// One value inside a middleware's data record. `Null` marks a field a later
/// write does not wish to overwrite: merging drops null-valued fields from
/// the newer record.
#[derive(Debug, PartialEq)]
pub enum DataValue {
    Null,
    Bool(bool),
    Number(i64),
    Text(String),
    Sides(SideLength),
    Candidates(Vec<CandidateOverflow>),
}

impl View for DataValue {
    type V = DataValueView;

    open spec fn view(&self) -> DataValueView {
        match self {
            DataValue::Null => DataValueView::Null,
            DataValue::Bool(b) => DataValueView::Bool(*b),
            DataValue::Number(n) => DataValueView::Number(*n),
            DataValue::Text(s) => DataValueView::Text(s@),
            DataValue::Sides(s) => DataValueView::Sides(*s),
            DataValue::Candidates(c) => DataValueView::Candidates(c@),
        }
    }
}

/// Copies a list of overflow measurements.
fn copy_candidates(v: &Vec<CandidateOverflow>) -> (r: Vec<CandidateOverflow>)
    ensures
        r@ == v@,
{
    let mut r: Vec<CandidateOverflow> = Vec::new();
    let n = v.len();
    let mut i: usize = 0;
    while i < n
        invariant
            n == v.len(),
            i <= n,
            r@ =~= v@.take(i as int),
        decreases n - i,
    {
        r.push(v[i]);
        proof {
            assert(r@ =~= v@.take(i + 1 as int));
        }
        i = i + 1;
    }
    proof {
        assert(v@.take(n as int) =~= v@);
    }
    r
}

impl Clone for DataValue {
    fn clone(&self) -> (r: Self)
        ensures
            r@ == self@,
    {
        match self {
            DataValue::Null => DataValue::Null,
            DataValue::Bool(b) => DataValue::Bool(*b),
            DataValue::Number(n) => DataValue::Number(*n),
            DataValue::Text(s) => DataValue::Text(s.clone()),
            DataValue::Sides(s) => DataValue::Sides(*s),
            DataValue::Candidates(c) => DataValue::Candidates(copy_candidates(c)),
        }
    }
}

impl DataValue {
    /// Returns whether this value is `Null`.
    pub fn is_null(&self) -> (r: bool)
        ensures
            r == (self@ is Null),
    {
        matches!(self, DataValue::Null)
    }
}

/// First-match lookup in an association list of keyed entries.
pub open spec fn spec_lookup<V>(entries: Seq<(Seq<char>, V)>, key: Seq<char>) -> Option<V>
    decreases entries.len(),
{
    if entries.len() == 0 {
        None
    } else if entries[0].0 == key {
        Some(entries[0].1)
    } else {
        spec_lookup(entries.drop_first(), key)
    }
}

/// No two entries share a key.
pub open spec fn keys_unique<V>(entries: Seq<(Seq<char>, V)>) -> bool {
    forall|i: int, j: int|
        0 <= i < j < entries.len() ==> entries[i].0 != entries[j].0
}

/// Replacing the first entry with the given key, or appending the entry when
/// the key is absent.
pub open spec fn spec_set<V>(entries: Seq<(Seq<char>, V)>, key: Seq<char>, value: V) -> Seq<
    (Seq<char>, V),
>
    decreases entries.len(),
{
    if entries.len() == 0 {
        seq![(key, value)]
    } else if entries[0].0 == key {
        seq![(entries[0].0, value)] + entries.drop_first()
    } else {
        seq![entries[0]] + spec_set(entries.drop_first(), key, value)
    }
}

/// Setting a key that first matches at position `i` replaces the value
/// there and nothing else.
pub proof fn lemma_set_at_index<V>(entries: Seq<(Seq<char>, V)>, key: Seq<char>, value: V, i: int)
    requires
        0 <= i < entries.len(),
        entries[i].0 == key,
        forall|j: int| 0 <= j < i ==> entries[j].0 != key,
    ensures
        spec_set(entries, key, value) =~= entries.update(i, (entries[i].0, value)),
    decreases i,
{
    if i == 0 {
    } else {
        assert forall|j: int| 0 <= j < i - 1 implies entries.drop_first()[j].0 != key by {
            assert(entries.drop_first()[j] == entries[j + 1]);
        }
        assert(entries.drop_first()[i - 1] == entries[i]);
        lemma_set_at_index(entries.drop_first(), key, value, i - 1);
        assert(spec_set(entries, key, value) =~= seq![entries[0]] + spec_set(
            entries.drop_first(),
            key,
            value,
        ));
        assert(entries.update(i, (entries[i].0, value)).drop_first() =~= entries.drop_first()
            .update(i - 1, (entries[i].0, value)));
        assert(spec_set(entries, key, value) =~= entries.update(i, (entries[i].0, value)));
    }
}

/// A lookup succeeds exactly when some entry carries the key, and when keys
/// are unique it returns the value of that entry.
pub proof fn lemma_lookup_some<V>(entries: Seq<(Seq<char>, V)>, key: Seq<char>)
    ensures
        (spec_lookup(entries, key) is Some) <==> (exists|i: int|
            0 <= i < entries.len() && entries[i].0 == key),
        keys_unique(entries) ==> forall|i: int|
            0 <= i < entries.len() && #[trigger] entries[i].0 == key ==> spec_lookup(entries, key)
                == Some(entries[i].1),
    decreases entries.len(),
{
    if entries.len() > 0 {
        lemma_lookup_some(entries.drop_first(), key);
        if entries[0].0 == key {
            assert(exists|i: int| 0 <= i < entries.len() && entries[i].0 == key);
        } else {
            assert forall|i: int| 0 <= i < entries.drop_first().len() implies entries.drop_first()[
                i
            ] == entries[i + 1] by {}
            if spec_lookup(entries, key) is Some {
                let w = choose|i: int|
                    0 <= i < entries.drop_first().len() && entries.drop_first()[i].0 == key;
                assert(entries[w + 1].0 == key);
            }
            if exists|i: int| 0 <= i < entries.len() && entries[i].0 == key {
                let w = choose|i: int| 0 <= i < entries.len() && entries[i].0 == key;
                assert(entries.drop_first()[w - 1].0 == key);
            }
        }
    }
}

/// Looking a key up in a concatenation searches the first part first.
pub proof fn lemma_lookup_append<V>(a: Seq<(Seq<char>, V)>, b: Seq<(Seq<char>, V)>, key: Seq<char>)
    ensures
        spec_lookup(a + b, key) == if spec_lookup(a, key) is Some {
            spec_lookup(a, key)
        } else {
            spec_lookup(b, key)
        },
    decreases a.len(),
{
    if a.len() == 0 {
        assert(a + b =~= b);
    } else {
        lemma_lookup_append(a.drop_first(), b, key);
        assert((a + b).drop_first() =~= a.drop_first() + b);
    }
}

/// Removing the last entry leaves lookups that hit an earlier entry
/// untouched; a lookup that misses the shortened list sees only the removed
/// entry.
pub proof fn lemma_lookup_drop_last<V>(entries: Seq<(Seq<char>, V)>, key: Seq<char>)
    requires
        entries.len() > 0,
    ensures
        spec_lookup(entries.drop_last(), key) is Some ==> spec_lookup(entries, key) == spec_lookup(
            entries.drop_last(),
            key,
        ),
        spec_lookup(entries.drop_last(), key) is None ==> spec_lookup(entries, key) == (
        if entries.last().0 == key {
            Some(entries.last().1)
        } else {
            None
        }),
    decreases entries.len(),
{
    assert(entries.drop_last().push(entries.last()) =~= entries);
    if entries.len() == 1 {
        assert(entries.drop_first() =~= Seq::<(Seq<char>, V)>::empty());
    } else {
        lemma_lookup_drop_last(entries.drop_first(), key);
        assert(entries.drop_first().drop_last() =~= entries.drop_last().drop_first());
        assert(entries.drop_first().last() == entries.last());
    }
}

/// If no entry before `i` carries the key, the lookup result is decided by
/// the entries from `i` on.
pub proof fn lemma_lookup_skip<V>(entries: Seq<(Seq<char>, V)>, key: Seq<char>, i: int)
    requires
        0 <= i <= entries.len(),
        forall|j: int| 0 <= j < i ==> entries[j].0 != key,
    ensures
        spec_lookup(entries, key) == spec_lookup(entries.skip(i), key),
    decreases i,
{
    if i > 0 {
        assert(entries.drop_first().skip(i - 1) =~= entries.skip(i));
        assert forall|j: int| 0 <= j < i - 1 implies entries.drop_first()[j].0 != key by {
            assert(entries.drop_first()[j] == entries[j + 1]);
        }
        lemma_lookup_skip(entries.drop_first(), key, i - 1);
    } else {
        assert(entries.skip(0) =~= entries);
    }
}

/// After a set, looking up the written key finds the new value and every
/// other key is untouched; the keys of the list gain at most the written key.
pub proof fn lemma_set_props<V>(entries: Seq<(Seq<char>, V)>, key: Seq<char>, value: V)
    ensures
        forall|k: Seq<char>| #![trigger spec_lookup(spec_set(entries, key, value), k)]
            spec_lookup(spec_set(entries, key, value), k) == if k == key {
                Some(value)
            } else {
                spec_lookup(entries, k)
            },
        keys_unique(entries) ==> keys_unique(spec_set(entries, key, value)),
        spec_lookup(entries, key) is Some ==> spec_set(entries, key, value).len() == entries.len(),
        spec_lookup(entries, key) is None ==> spec_set(entries, key, value) =~= entries.push(
            (key, value),
        ),
        forall|i: int|
            0 <= i < spec_set(entries, key, value).len() ==> #[trigger] spec_set(
                entries,
                key,
                value,
            )[i].0 == if i < entries.len() {
                entries[i].0
            } else {
                key
            },
    decreases entries.len(),
{
    let result = spec_set(entries, key, value);
    if entries.len() == 0 {
        assert forall|k: Seq<char>| true implies #[trigger] spec_lookup(result, k) == (if k
            == key {
            Some(value)
        } else {
            spec_lookup(entries, k)
        }) by {
            assert(result[0] == (key, value));
            if k != key {
                assert(result.drop_first() =~= Seq::<(Seq<char>, V)>::empty());
                assert(spec_lookup(result, k) == spec_lookup(result.drop_first(), k));
            }
        }
    } else if entries[0].0 == key {
        assert forall|k: Seq<char>| true implies #[trigger] spec_lookup(result, k) == (if k
            == key {
            Some(value)
        } else {
            spec_lookup(entries, k)
        }) by {
            assert(result.drop_first() =~= entries.drop_first());
            assert(result[0] == (entries[0].0, value));
            if k != key {
                assert(spec_lookup(result, k) == spec_lookup(result.drop_first(), k));
                assert(spec_lookup(entries, k) == spec_lookup(entries.drop_first(), k));
            }
        }
        assert forall|i: int| 0 <= i < result.len() implies result[i].0 == (if i < entries.len() {
            entries[i].0
        } else {
            key
        }) by {}
    } else {
        lemma_set_props(entries.drop_first(), key, value);
        let inner = spec_set(entries.drop_first(), key, value);
        assert(result.drop_first() =~= inner);
        assert forall|k: Seq<char>| true implies #[trigger] spec_lookup(result, k) == (if k
            == key {
            Some(value)
        } else {
            spec_lookup(entries, k)
        }) by {
            assert(result[0] == entries[0]);
            if k != entries[0].0 {
                assert(spec_lookup(result, k) == spec_lookup(inner, k));
                assert(spec_lookup(entries, k) == spec_lookup(entries.drop_first(), k));
            }
        }
        assert forall|i: int| 0 <= i < result.len() implies result[i].0 == (if i
            < entries.len() {
            entries[i].0
        } else {
            key
        }) by {
            if i > 0 {
                assert(result[i] == inner[i - 1]);
                assert(entries.drop_first().len() == entries.len() - 1);
                if i < entries.len() {
                    assert(entries.drop_first()[i - 1] == entries[i]);
                }
            }
        }
        if keys_unique(entries) {
            assert forall|i: int, j: int| 0 <= i < j < entries.drop_first().len() implies entries
                .drop_first()[i].0 != entries.drop_first()[j].0 by {
                assert(entries.drop_first()[i] == entries[i + 1]);
                assert(entries.drop_first()[j] == entries[j + 1]);
            }
            assert(keys_unique(inner));
            lemma_lookup_some(entries.drop_first(), key);
            assert forall|i: int, j: int| 0 <= i < j < result.len() implies result[i].0
                != result[j].0 by {
                if i > 0 {
                    assert(result[i] == inner[i - 1]);
                    assert(result[j] == inner[j - 1]);
                } else {
                    assert(result[j] == inner[j - 1]);
                    if j < entries.len() {
                        assert(entries.drop_first()[j - 1] == entries[j]);
                    } else {
                        if entries[0].0 == key {
                            assert(false);
                        }
                    }
                }
            }
        }
        if spec_lookup(entries, key) is None {
            assert(result =~= entries.push((key, value)));
        }
    }
}

/// The value an entry of the older record carries after a merge: the newer
/// record's value for the same key when that value exists and is not `Null`,
/// the old value otherwise.
pub open spec fn spec_override(
    newer: Seq<(Seq<char>, DataValueView)>,
    e: (Seq<char>, DataValueView),
) -> (Seq<char>, DataValueView) {
    match spec_lookup(newer, e.0) {
        Some(v) => if v is Null {
            e
        } else {
            (e.0, v)
        },
        None => e,
    }
}

/// The entries of the newer record that a merge appends: those that are not
/// `Null` and whose key the older record does not carry, in order.
pub open spec fn spec_merge_appended(
    older: Seq<(Seq<char>, DataValueView)>,
    newer: Seq<(Seq<char>, DataValueView)>,
) -> Seq<(Seq<char>, DataValueView)>
    decreases newer.len(),
{
    if newer.len() == 0 {
        Seq::empty()
    } else {
        let rest = spec_merge_appended(older, newer.drop_last());
        let e = newer.last();
        if !(e.1 is Null) && spec_lookup(older, e.0) is None {
            rest.push(e)
        } else {
            rest
        }
    }
}

/// The merge of a newer record into an older one: the older entries in
/// order, overridden by the newer record's non-null values, followed by the
/// newer record's remaining non-null entries.
pub open spec fn spec_merge(
    older: Seq<(Seq<char>, DataValueView)>,
    newer: Seq<(Seq<char>, DataValueView)>,
) -> Seq<(Seq<char>, DataValueView)> {
    older.map_values(|e: (Seq<char>, DataValueView)| spec_override(newer, e)) + spec_merge_appended(
        older,
        newer,
    )
}

/// The appended part of a merge has unique keys, none of which the older
/// record carries, and each of its entries holds the newer record's non-null
/// value for its key.
pub proof fn lemma_appended_props(
    older: Seq<(Seq<char>, DataValueView)>,
    newer: Seq<(Seq<char>, DataValueView)>,
)
    requires
        keys_unique(newer),
    ensures
        keys_unique(spec_merge_appended(older, newer)),
        forall|i: int|
            0 <= i < spec_merge_appended(older, newer).len() ==> {
                let e = #[trigger] spec_merge_appended(older, newer)[i];
                &&& spec_lookup(older, e.0) is None
                &&& spec_lookup(newer, e.0) == Some(e.1)
                &&& !(e.1 is Null)
            },
    decreases newer.len(),
{
    let app = spec_merge_appended(older, newer);
    if newer.len() > 0 {
        let shorter = newer.drop_last();
        assert forall|i: int, j: int| 0 <= i < j < shorter.len() implies shorter[i].0
            != shorter[j].0 by {
            assert(newer[i].0 != newer[j].0);
        }
        lemma_appended_props(older, shorter);
        let rest = spec_merge_appended(older, shorter);
        let e = newer.last();
        assert forall|i: int| 0 <= i < rest.len() implies spec_lookup(newer, rest[i].0) == Some(
            rest[i].1,
        ) && rest[i].0 != e.0 by {
            lemma_lookup_some(shorter, rest[i].0);
            let w = choose|w: int| 0 <= w < shorter.len() && shorter[w].0 == rest[i].0;
            assert(newer[w].0 == rest[i].0);
            assert(newer[w].0 != newer[newer.len() - 1].0);
            lemma_lookup_drop_last(newer, rest[i].0);
        }
        if !(e.1 is Null) && spec_lookup(older, e.0) is None {
            assert(app =~= rest.push(e));
            lemma_lookup_drop_last(newer, e.0);
            lemma_lookup_some(shorter, e.0);
            if spec_lookup(shorter, e.0) is Some {
                let w = choose|w: int| 0 <= w < shorter.len() && shorter[w].0 == e.0;
                assert(newer[w].0 == newer[newer.len() - 1].0);
                assert(false);
            }
            assert(spec_lookup(newer, e.0) == Some(e.1));
        }
    }
}

/// How a merged record answers lookups: a non-null value of the newer record
/// wins, a null one defers to the older record, and keys absent from the
/// newer record keep the older record's value. The merge of two well-formed
/// records is well-formed.
pub proof fn lemma_merge_props(
    older: Seq<(Seq<char>, DataValueView)>,
    newer: Seq<(Seq<char>, DataValueView)>,
)
    requires
        keys_unique(older),
        keys_unique(newer),
    ensures
        keys_unique(spec_merge(older, newer)),
        forall|k: Seq<char>| #![trigger spec_lookup(spec_merge(older, newer), k)]
            spec_lookup(spec_merge(older, newer), k) == match spec_lookup(newer, k) {
                Some(v) => if v is Null {
                    spec_lookup(older, k)
                } else {
                    Some(v)
                },
                None => spec_lookup(older, k),
            },
{
    let updated = older.map_values(|e: (Seq<char>, DataValueView)| spec_override(newer, e));
    let app = spec_merge_appended(older, newer);
    lemma_appended_props(older, newer);
    assert forall|i: int, j: int| 0 <= i < j < spec_merge(older, newer).len() implies spec_merge(
        older,
        newer,
    )[i].0 != spec_merge(older, newer)[j].0 by {
        let m = spec_merge(older, newer);
        if j < updated.len() {
            assert(m[i] == updated[i] && m[j] == updated[j]);
            assert(updated[i].0 == older[i].0 && updated[j].0 == older[j].0);
        } else if i < updated.len() {
            assert(m[i].0 == older[i].0);
            assert(m[j] == app[j - updated.len()]);
            lemma_lookup_some(older, m[j].0);
            if m[i].0 == m[j].0 {
                assert(older[i].0 == m[j].0);
            }
        } else {
            assert(m[i] == app[i - updated.len()] && m[j] == app[j - updated.len()]);
        }
    }
    assert forall|k: Seq<char>| true implies #[trigger] spec_lookup(spec_merge(older, newer), k)
        == (match spec_lookup(newer, k) {
        Some(v) => if v is Null {
            spec_lookup(older, k)
        } else {
            Some(v)
        },
        None => spec_lookup(older, k),
    }) by {
        lemma_lookup_append(updated, app, k);
        lemma_lookup_some(older, k);
        lemma_lookup_some(updated, k);
        if spec_lookup(older, k) is Some {
            let w = choose|w: int| 0 <= w < older.len() && older[w].0 == k;
            assert(updated[w].0 == k);
            assert(spec_lookup(updated, k) == Some(updated[w].1));
            assert forall|i: int, j: int| 0 <= i < j < updated.len() implies updated[i].0
                != updated[j].0 by {
                assert(updated[i].0 == older[i].0 && updated[j].0 == older[j].0);
            }
        } else {
            if spec_lookup(updated, k) is Some {
                let w = choose|w: int| 0 <= w < updated.len() && updated[w].0 == k;
                assert(older[w].0 == k);
                assert(false);
            }
            lemma_lookup_some(app, k);
            lemma_lookup_some(newer, k);
            match spec_lookup(newer, k) {
                Some(v) => {
                    let w = choose|w: int| 0 <= w < newer.len() && newer[w].0 == k;
                    if v is Null {
                        if spec_lookup(app, k) is Some {
                            let u = choose|u: int| 0 <= u < app.len() && app[u].0 == k;
                            assert(spec_lookup(newer, app[u].0) == Some(app[u].1));
                        }
                    } else {
                        lemma_merge_appended_contains(older, newer, k, v);
                    }
                },
                None => {
                    if spec_lookup(app, k) is Some {
                        let u = choose|u: int| 0 <= u < app.len() && app[u].0 == k;
                        assert(spec_lookup(newer, app[u].0) == Some(app[u].1));
                    }
                },
            }
        }
    }
}

/// A non-null entry of the newer record whose key the older record lacks
/// appears in the appended part of the merge.
proof fn lemma_merge_appended_contains(
    older: Seq<(Seq<char>, DataValueView)>,
    newer: Seq<(Seq<char>, DataValueView)>,
    k: Seq<char>,
    v: DataValueView,
)
    requires
        keys_unique(newer),
        spec_lookup(older, k) is None,
        spec_lookup(newer, k) == Some(v),
        !(v is Null),
    ensures
        spec_lookup(spec_merge_appended(older, newer), k) == Some(v),
    decreases newer.len(),
{
    lemma_lookup_some(newer, k);
    let app = spec_merge_appended(older, newer);
    let shorter = newer.drop_last();
    assert forall|i: int, j: int| 0 <= i < j < shorter.len() implies shorter[i].0 != shorter[j].0
        by {
        assert(newer[i].0 != newer[j].0);
    }
    let rest = spec_merge_appended(older, shorter);
    let e = newer.last();
    lemma_lookup_drop_last(newer, k);
    if spec_lookup(shorter, k) is Some {
        lemma_merge_appended_contains(older, shorter, k, v);
        if !(e.1 is Null) && spec_lookup(older, e.0) is None {
            lemma_appended_props(older, shorter);
            lemma_lookup_some(rest, k);
            lemma_lookup_some(shorter, e.0);
            if e.0 == k {
                let w = choose|w: int| 0 <= w < shorter.len() && shorter[w].0 == k;
                assert(newer[w].0 == newer[newer.len() - 1].0);
                assert(false);
            }
            lemma_lookup_drop_last(rest.push(e), k);
            assert(rest.push(e).drop_last() =~= rest);
        }
    } else {
        assert(e.0 == k && e.1 == v);
        assert(app =~= rest.push(e));
        lemma_appended_props(older, shorter);
        lemma_lookup_some(rest, k);
        if spec_lookup(rest, k) is Some {
            let u = choose|u: int| 0 <= u < rest.len() && rest[u].0 == k;
            assert(spec_lookup(shorter, rest[u].0) == Some(rest[u].1));
            assert(false);
        }
        lemma_lookup_drop_last(rest.push(e), k);
        assert(rest.push(e).drop_last() =~= rest);
    }
}

/// Merges `newer` into `older`: null-valued fields are dropped from the
/// newer record, its remaining fields override or extend the older record,
/// and fields of the older record that the newer one does not mention are
/// preserved.
#[verifier::loop_isolation(false)]
pub fn merge_records(older: &DataRecord, newer: &DataRecord) -> (r: DataRecord)
    ensures
        r@ == spec_merge(older@, newer@),
        older.wf() && newer.wf() ==> r.wf(),
{
    let mut out_entries: Vec<(String, DataValue)> = Vec::new();
    let n = older.len();
    let mut i: usize = 0;
    while i < n
        invariant
            n == older@.len(),
            i <= n,
            out_entries@.map_values(|e: (String, DataValue)| (e.0@, e.1@)) == older@.take(
                i as int,
            ).map_values(|e: (Seq<char>, DataValueView)| spec_override(newer@, e)),
        decreases n - i,
    {
        proof {
            assert(out_entries@.map_values(|e: (String, DataValue)| (e.0@, e.1@)).len()
                == out_entries@.len());
            assert(older@.take(i as int).map_values(
                |e: (Seq<char>, DataValueView)| spec_override(newer@, e),
            ).len() == i as int);
        }
        let key: String = older.entry_key(i);
        let replacement = match newer.get(key.as_str()) {
            Some(v) => if v.is_null() {
                older.entry_value(i)
            } else {
                v.clone()
            },
            None => older.entry_value(i),
        };
        proof {
            assert((key@, replacement@) == spec_override(newer@, older@[i as int]));
        }
        let ghost prev = out_entries@;
        out_entries.push((key, replacement));
        proof {
            assert(older@.take(i + 1 as int) =~~= older@.take(i as int).push(older@[i as int]));
            let lhs = out_entries@.map_values(|e: (String, DataValue)| (e.0@, e.1@));
            let rhs = older@.take(i + 1 as int).map_values(
                |e: (Seq<char>, DataValueView)| spec_override(newer@, e),
            );
            assert(lhs.len() == rhs.len());
            assert forall|k: int| 0 <= k < lhs.len() implies lhs[k] == rhs[k] by {
                if k < i {
                    assert(out_entries@[k] == prev[k]);
                    assert(lhs[k] == (prev[k].0@, prev[k].1@));
                    assert(prev.map_values(|e: (String, DataValue)| (e.0@, e.1@))[k] == (
                        prev[k].0@,
                        prev[k].1@,
                    ));
                    assert(older@.take(i as int).map_values(
                        |e: (Seq<char>, DataValueView)| spec_override(newer@, e),
                    )[k] == spec_override(newer@, older@.take(i as int)[k]));
                    assert(older@.take(i as int)[k] == older@[k]);
                    assert(rhs[k] == spec_override(newer@, older@.take(i + 1 as int)[k]));
                } else {
                    assert(out_entries@[k] == (key, replacement));
                    assert(rhs[k] == spec_override(newer@, older@.take(i + 1 as int)[k]));
                    assert(older@.take(i + 1 as int)[k] == older@[i as int]);
                }
            }
            assert(lhs =~~= rhs);
        }
        i = i + 1;
    }
    proof {
        assert(older@.take(n as int) =~~= older@);
    }
    let m = newer.len();
    let mut j: usize = 0;
    while j < m
        invariant
            m == newer@.len(),
            j <= m,
            out_entries@.map_values(|e: (String, DataValue)| (e.0@, e.1@)) == older@.map_values(
                |e: (Seq<char>, DataValueView)| spec_override(newer@, e),
            ) + spec_merge_appended(older@, newer@.take(j as int)),
        decreases m - j,
    {
        proof {
            assert(out_entries@.map_values(|e: (String, DataValue)| (e.0@, e.1@)).len()
                == out_entries@.len());
        }
        let key: String = newer.entry_key(j);
        let value = newer.entry_value(j);
        let e_null = value.is_null();
        let absent = match older.get(key.as_str()) {
            Some(_) => false,
            None => true,
        };
        proof {
            assert(newer@.take(j + 1 as int).drop_last() =~~= newer@.take(j as int));
            assert(newer@.take(j + 1 as int).last() == newer@[j as int]);
        }
        if !e_null && absent {
            proof {
                assert((key@, value@) == newer@[j as int]);
                assert(spec_merge_appended(older@, newer@.take(j + 1 as int))
                    == spec_merge_appended(older@, newer@.take(j as int)).push(newer@[j as int]));
            }
            let ghost prev = out_entries@;
            out_entries.push((key, value));
            proof {
                let updated = older@.map_values(
                    |e: (Seq<char>, DataValueView)| spec_override(newer@, e),
                );
                let appended = spec_merge_appended(older@, newer@.take(j as int));
                let lhs = out_entries@.map_values(|e: (String, DataValue)| (e.0@, e.1@));
                let rhs = updated + spec_merge_appended(older@, newer@.take(j + 1 as int));
                assert(rhs =~~= (updated + appended).push(newer@[j as int]));
                assert(lhs.len() == rhs.len());
                assert forall|k: int| 0 <= k < lhs.len() implies lhs[k] == rhs[k] by {
                    if k < lhs.len() - 1 {
                        assert(out_entries@[k] == prev[k]);
                        assert(lhs[k] == (prev[k].0@, prev[k].1@));
                        assert(prev.map_values(|e: (String, DataValue)| (e.0@, e.1@))[k] == (
                            prev[k].0@,
                            prev[k].1@,
                        ));
                        assert(rhs[k] == (updated + appended)[k]);
                    } else {
                        assert(out_entries@[k] == (key, value));
                        assert(rhs[k] == newer@[j as int]);
                    }
                }
                assert(lhs =~~= rhs);
            }
        } else {
            proof {
                assert(spec_merge_appended(older@, newer@.take(j + 1 as int))
                    == spec_merge_appended(older@, newer@.take(j as int)));
            }
        }
        j = j + 1;
    }
    proof {
        assert(newer@.take(m as int) =~~= newer@);
    }
    let r = DataRecord { entries: out_entries };
    proof {
        assert(r@ =~~= spec_merge(older@, newer@));
        if older.wf() && newer.wf() {
            lemma_merge_props(older@, newer@);
        }
    }
    r
}

/// The data one middleware publishes under its name: an insertion-ordered
/// record of named values.
#[derive(Debug, PartialEq)]
pub struct DataRecord {
    entries: Vec<(String, DataValue)>,
}

impl View for DataRecord {
    type V = Seq<(Seq<char>, DataValueView)>;

    closed spec fn view(&self) -> Seq<(Seq<char>, DataValueView)> {
        self.entries@.map_values(|e: (String, DataValue)| (e.0@, e.1@))
    }
}

impl Clone for DataRecord {
    fn clone(&self) -> (r: Self)
        ensures
            r@ == self@,
    {
        let mut entries: Vec<(String, DataValue)> = Vec::new();
        let n = self.entries.len();
        let mut i: usize = 0;
        while i < n
            invariant
                n == self.entries.len(),
                i <= n,
                entries@.map_values(|e: (String, DataValue)| (e.0@, e.1@)) =~= self@.take(i as int),
            decreases n - i,
        {
            let entry = (self.entries[i].0.clone(), self.entries[i].1.clone());
            entries.push(entry);
            proof {
                assert(self@.take(i + 1 as int) =~= self@.take(i as int).push(self@[i as int]));
                assert(entries@.map_values(|e: (String, DataValue)| (e.0@, e.1@)) =~= self@.take(
                    i + 1 as int,
                ));
            }
            i = i + 1;
        }
        proof {
            assert(self@.take(n as int) =~= self@);
        }
        DataRecord { entries }
    }
}

impl DataRecord {
    /// The record's keys are unique.
    pub open spec fn wf(self) -> bool {
        keys_unique(self@)
    }

    /// Returns an empty record.
    pub fn new() -> (r: DataRecord)
        ensures
            r@ == Seq::<(Seq<char>, DataValueView)>::empty(),
            r.wf(),
    {
        let r = DataRecord { entries: Vec::new() };
        proof {
            assert(r@ =~= Seq::<(Seq<char>, DataValueView)>::empty());
        }
        r
    }

    /// Returns a record holding the given entries in order.
    pub fn from_entries(entries: Vec<(String, DataValue)>) -> (r: DataRecord)
        ensures
            r@ == entries@.map_values(|e: (String, DataValue)| (e.0@, e.1@)),
    {
        DataRecord { entries }
    }

    /// Returns the value stored under `key`, if any.
    pub fn get(&self, key: &str) -> (r: Option<&DataValue>)
        ensures
            match r {
                Some(v) => spec_lookup(self@, key@) == Some(v@),
                None => spec_lookup(self@, key@) is None,
            },
    {
        let needle: String = key.to_owned();
        let n = self.entries.len();
        let mut i: usize = 0;
        while i < n
            invariant
                n == self.entries.len(),
                i <= n,
                needle@ == key@,
                forall|j: int| 0 <= j < i ==> self@[j].0 != key@,
            decreases n - i,
        {
            if self.entries[i].0 == needle {
                proof {
                    lemma_lookup_skip(self@, key@, i as int);
                    assert(self@.skip(i as int)[0] == self@[i as int]);
                }
                return Some(&self.entries[i].1);
            }
            i = i + 1;
        }
        proof {
            lemma_lookup_skip(self@, key@, n as int);
            assert(self@.skip(n as int) =~= Seq::<(Seq<char>, DataValueView)>::empty());
        }
        None
    }

    /// Stores `value` under `key`, replacing an existing value in place and
    /// appending otherwise.
    pub fn set(&mut self, key: &str, value: DataValue)
        ensures
            final(self)@ == spec_set(old(self)@, key@, value@),
            old(self).wf() ==> final(self).wf(),
    {
        let needle: String = key.to_owned();
        let n = self.entries.len();
        let mut i: usize = 0;
        while i < n
            invariant
                n == self.entries.len(),
                i <= n,
                needle@ == key@,
                self == old(self),
                forall|j: int| 0 <= j < i ==> self@[j].0 != key@,
            decreases n - i,
        {
            if self.entries[i].0 == needle {
                self.entries[i].1 = value;
                proof {
                    lemma_set_at_index(old(self)@, key@, value@, i as int);
                    assert(self@ =~= old(self)@.update(i as int, (old(self)@[i as int].0, value@)));
                    lemma_set_props(old(self)@, key@, value@);
                }
                return ;
            }
            i = i + 1;
        }
        proof {
            lemma_lookup_skip(old(self)@, key@, n as int);
            assert(old(self)@.skip(n as int) =~= Seq::<(Seq<char>, DataValueView)>::empty());
            lemma_set_props(old(self)@, key@, value@);
        }
        self.entries.push((needle, value));
        proof {
            assert(self@ =~= old(self)@.push((key@, value@)));
        }
    }
}

/// The accumulated auxiliary data of a pipeline run: an insertion-ordered
/// mapping from middleware name to that middleware's record.
#[derive(Debug, PartialEq)]
pub struct MiddlewareData {
    entries: Vec<(String, DataRecord)>,
}

impl View for MiddlewareData {
    type V = Seq<(Seq<char>, Seq<(Seq<char>, DataValueView)>)>;

    closed spec fn view(&self) -> Seq<(Seq<char>, Seq<(Seq<char>, DataValueView)>)> {
        self.entries@.map_values(|e: (String, DataRecord)| (e.0@, e.1@))
    }
}

impl MiddlewareData {
    /// The names are unique and every record is well-formed.
    pub open spec fn wf(self) -> bool {
        &&& keys_unique(self@)
        &&& forall|i: int| 0 <= i < self@.len() ==> keys_unique(#[trigger] self@[i].1)
    }

    /// Returns an empty mapping.
    pub fn new() -> (r: MiddlewareData)
        ensures
            r@ == Seq::<(Seq<char>, Seq<(Seq<char>, DataValueView)>)>::empty(),
            r.wf(),
    {
        let r = MiddlewareData { entries: Vec::new() };
        proof {
            assert(r@ =~= Seq::<(Seq<char>, Seq<(Seq<char>, DataValueView)>)>::empty());
        }
        r
    }

    /// Returns the record stored under `name`, if any.
    pub fn get(&self, name: &str) -> (r: Option<&DataRecord>)
        ensures
            match r {
                Some(v) => spec_lookup(self@, name@) == Some(v@),
                None => spec_lookup(self@, name@) is None,
            },
    {
        let needle: String = name.to_owned();
        let n = self.entries.len();
        let mut i: usize = 0;
        while i < n
            invariant
                n == self.entries.len(),
                i <= n,
                needle@ == name@,
                forall|j: int| 0 <= j < i ==> self@[j].0 != name@,
            decreases n - i,
        {
            if self.entries[i].0 == needle {
                proof {
                    lemma_lookup_skip(self@, name@, i as int);
                    assert(self@.skip(i as int)[0] == self@[i as int]);
                }
                return Some(&self.entries[i].1);
            }
            i = i + 1;
        }
        proof {
            lemma_lookup_skip(self@, name@, n as int);
            assert(self@.skip(n as int) =~= Seq::<
                (Seq<char>, Seq<(Seq<char>, DataValueView)>),
            >::empty());
        }
        None
    }

    /// Stores `record` under `name`, replacing an existing record in place
    /// and appending otherwise.
    pub fn set(&mut self, name: &str, record: DataRecord)
        ensures
            final(self)@ == spec_set(old(self)@, name@, record@),
            old(self).wf() && record.wf() ==> final(self).wf(),
    {
        let needle: String = name.to_owned();
        let n = self.entries.len();
        let mut i: usize = 0;
        while i < n
            invariant
                n == self.entries.len(),
                i <= n,
                needle@ == name@,
                self == old(self),
                forall|j: int| 0 <= j < i ==> self@[j].0 != name@,
            decreases n - i,
        {
            if self.entries[i].0 == needle {
                let ghost record_view = record@;
                self.entries[i].1 = record;
                proof {
                    lemma_set_at_index(old(self)@, name@, record_view, i as int);
                    assert(self@ =~= old(self)@.update(
                        i as int,
                        (old(self)@[i as int].0, record_view),
                    ));
                    lemma_set_props(old(self)@, name@, record_view);
                    if old(self).wf() && keys_unique(record_view) {
                        assert forall|k: int| 0 <= k < self@.len() implies keys_unique(
                            #[trigger] self@[k].1,
                        ) by {
                            if k != i {
                                assert(self@[k] == old(self)@[k]);
                            }
                        }
                    }
                }
                return ;
            }
            i = i + 1;
        }
        proof {
            lemma_lookup_skip(old(self)@, name@, n as int);
            assert(old(self)@.skip(n as int) =~= Seq::<
                (Seq<char>, Seq<(Seq<char>, DataValueView)>),
            >::empty());
            lemma_set_props(old(self)@, name@, record@);
        }
        let ghost record_view = record@;
        self.entries.push((needle, record));
        proof {
            assert(self@ =~= old(self)@.push((name@, record_view)));
            if old(self).wf() && keys_unique(record_view) {
                assert forall|k: int| 0 <= k < self@.len() implies keys_unique(
                    #[trigger] self@[k].1,
                ) by {
                    if k < old(self)@.len() {
                        assert(self@[k] == old(self)@[k]);
                    }
                }
            }
        }
    }
}


impl DataRecord {
    /// Returns the number of entries.
    pub fn len(&self) -> (r: usize)
        ensures
            r == self@.len(),
    {
        self.entries.len()
    }

    /// Returns a copy of the key of the entry at position `i`.
    pub fn entry_key(&self, i: usize) -> (r: String)
        requires i < self@.len(),
        ensures r@ == self@[i as int].0,
    {
        self.entries[i].0.clone()
    }

    /// Returns a copy of the value of the entry at position `i`.
    pub fn entry_value(&self, i: usize) -> (r: DataValue)
        requires i < self@.len(),
        ensures r@ == self@[i as int].1,
    {
        self.entries[i].1.clone()
    }
}

} // verus!
