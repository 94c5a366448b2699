//! Rows with distinct keys, seen as a map from key to row.

use vstd::prelude::*;

verus! {

/// Whether no two of `rows` share a key.
pub open spec fn distinct_keys<V>(rows: Seq<V>, key: spec_fn(V) -> Seq<char>) -> bool {
    forall|i: int, j: int|
        0 <= i < j < rows.len() ==> key(#[trigger] rows[i]) != key(#[trigger] rows[j])
}

/// Whether one of `rows` has the key `id`.
pub open spec fn has_row<V>(rows: Seq<V>, key: spec_fn(V) -> Seq<char>, id: Seq<char>) -> bool {
    exists|i: int| 0 <= i < rows.len() && key(#[trigger] rows[i]) == id
}

/// The row of `rows` that has the key `id`.
pub open spec fn row_of<V>(rows: Seq<V>, key: spec_fn(V) -> Seq<char>, id: Seq<char>) -> V {
    rows[choose|i: int| 0 <= i < rows.len() && key(#[trigger] rows[i]) == id]
}

/// The rows of a table as a map from key to row.
pub open spec fn table_of<V>(rows: Seq<V>, key: spec_fn(V) -> Seq<char>) -> Map<Seq<char>, V> {
    Map::new(|id: Seq<char>| has_row(rows, key, id), |id: Seq<char>| row_of(rows, key, id))
}

/// In a table of distinct keys, each row is found under its own key.
pub proof fn lemma_row<V>(rows: Seq<V>, key: spec_fn(V) -> Seq<char>, i: int)
    requires
        distinct_keys(rows, key),
        0 <= i < rows.len(),
    ensures
        table_of(rows, key).contains_key(key(rows[i])),
        table_of(rows, key)[key(rows[i])] == rows[i],
{
    let id = key(rows[i]);
    assert(has_row(rows, key, id));
    let j = choose|j: int| 0 <= j < rows.len() && key(#[trigger] rows[j]) == id;
    assert(j == i) by {
        if j < i {
            assert(key(rows[j]) != key(rows[i]));
        } else if i < j {
            assert(key(rows[i]) != key(rows[j]));
        }
    }
}

/// A row with a new key, put at the end, is one more entry of the map.
pub proof fn lemma_pushed<V>(rows: Seq<V>, key: spec_fn(V) -> Seq<char>, row: V)
    requires
        distinct_keys(rows, key),
        !has_row(rows, key, key(row)),
    ensures
        distinct_keys(rows.push(row), key),
        table_of(rows.push(row), key) == table_of(rows, key).insert(key(row), row),
{
    let grown = rows.push(row);
    assert forall|i: int, j: int| 0 <= i < j < grown.len() implies key(#[trigger] grown[i]) != key(
        #[trigger] grown[j],
    ) by {
        if j == rows.len() {
            assert(key(rows[i]) != key(row));
        } else {
            assert(key(rows[i]) != key(rows[j]));
        }
    }
    assert forall|id: Seq<char>| #[trigger]
        table_of(grown, key).contains_key(id) == table_of(rows, key).insert(key(row), row).contains_key(
            id,
        ) by {
        if has_row(rows, key, id) {
            let i = choose|i: int| 0 <= i < rows.len() && key(#[trigger] rows[i]) == id;
            assert(key(grown[i]) == id);
        }
        if id == key(row) {
            assert(key(grown[rows.len() as int]) == id);
        }
        if has_row(grown, key, id) {
            let i = choose|i: int| 0 <= i < grown.len() && key(#[trigger] grown[i]) == id;
            if i < rows.len() {
                assert(key(rows[i]) == id);
            }
        }
    }
    assert forall|id: Seq<char>| #[trigger] table_of(grown, key).contains_key(id) implies table_of(grown, key)[id] == table_of(rows, key).insert(key(row), row)[id] by {
        let i = choose|i: int| 0 <= i < grown.len() && key(#[trigger] grown[i]) == id;
        lemma_row(grown, key, i);
        if i < rows.len() {
            assert(key(rows[i]) == id);
            lemma_row(rows, key, i);
        }
    }
    assert(table_of(grown, key) =~= table_of(rows, key).insert(key(row), row));
}

/// A row put in place of the row with its key takes that entry of the map.
pub proof fn lemma_replaced<V>(rows: Seq<V>, key: spec_fn(V) -> Seq<char>, at: int, row: V)
    requires
        distinct_keys(rows, key),
        0 <= at < rows.len(),
        key(rows[at]) == key(row),
    ensures
        distinct_keys(rows.update(at, row), key),
        table_of(rows.update(at, row), key) == table_of(rows, key).insert(key(row), row),
{
    let changed = rows.update(at, row);
    assert forall|i: int, j: int| 0 <= i < j < changed.len() implies key(#[trigger] changed[i])
        != key(#[trigger] changed[j]) by {
        assert(key(rows[i]) != key(rows[j]));
    }
    assert forall|id: Seq<char>| #[trigger]
        table_of(changed, key).contains_key(id) == table_of(rows, key).insert(key(row), row).contains_key(
            id,
        ) by {
        if has_row(rows, key, id) {
            let i = choose|i: int| 0 <= i < rows.len() && key(#[trigger] rows[i]) == id;
            assert(key(changed[i]) == id);
        }
        if id == key(row) {
            assert(key(changed[at]) == id);
        }
        if has_row(changed, key, id) {
            let i = choose|i: int| 0 <= i < changed.len() && key(#[trigger] changed[i]) == id;
            assert(key(rows[i]) == id);
        }
    }
    assert forall|id: Seq<char>| #[trigger] table_of(changed, key).contains_key(id) implies table_of(changed, key)[id] == table_of(rows, key).insert(key(row), row)[id] by {
        let i = choose|i: int| 0 <= i < changed.len() && key(#[trigger] changed[i]) == id;
        lemma_row(changed, key, i);
        if i != at {
            assert(key(rows[i]) == id);
            lemma_row(rows, key, i);
        }
    }
    assert(table_of(changed, key) =~= table_of(rows, key).insert(key(row), row));
}

/// A row taken out takes its entry out of the map.
pub proof fn lemma_removed<V>(rows: Seq<V>, key: spec_fn(V) -> Seq<char>, at: int)
    requires
        distinct_keys(rows, key),
        0 <= at < rows.len(),
    ensures
        distinct_keys(rows.remove(at), key),
        table_of(rows.remove(at), key) == table_of(rows, key).remove(key(rows[at])),
{
    let rest = rows.remove(at);
    let gone = key(rows[at]);
    assert forall|i: int, j: int| 0 <= i < j < rest.len() implies key(#[trigger] rest[i]) != key(
        #[trigger] rest[j],
    ) by {
        let a = if i < at { i } else { i + 1 };
        let b = if j < at { j } else { j + 1 };
        assert(key(rows[a]) != key(rows[b]));
    }
    assert forall|id: Seq<char>| #[trigger]
        table_of(rest, key).contains_key(id) == table_of(rows, key).remove(gone).contains_key(id) by {
        if has_row(rest, key, id) {
            let i = choose|i: int| 0 <= i < rest.len() && key(#[trigger] rest[i]) == id;
            let a = if i < at { i } else { i + 1 };
            assert(key(rows[a]) == id);
            if a < at {
                assert(key(rows[a]) != key(rows[at]));
            } else {
                assert(key(rows[at]) != key(rows[a]));
            }
        }
        if has_row(rows, key, id) && id != gone {
            let a = choose|a: int| 0 <= a < rows.len() && key(#[trigger] rows[a]) == id;
            let i = if a < at { a } else { a - 1 };
            assert(key(rest[i]) == id);
        }
    }
    assert forall|id: Seq<char>| #[trigger] table_of(rest, key).contains_key(id) implies table_of(rest, key)[id] == table_of(rows, key).remove(gone)[id] by {
        let i = choose|i: int| 0 <= i < rest.len() && key(#[trigger] rest[i]) == id;
        lemma_row(rest, key, i);
        let a = if i < at { i } else { i + 1 };
        assert(key(rows[a]) == id);
        lemma_row(rows, key, a);
    }
    assert(table_of(rest, key) =~= table_of(rows, key).remove(gone));
}

/// A table of distinct keys has as many entries as rows.
pub proof fn lemma_table_size<V>(rows: Seq<V>, key: spec_fn(V) -> Seq<char>)
    requires
        distinct_keys(rows, key),
    ensures
        table_of(rows, key).dom().finite(),
        table_of(rows, key).len() == rows.len(),
    decreases rows.len(),
{
    if rows.len() == 0 {
        assert(table_of(rows, key) =~= Map::<Seq<char>, V>::empty());
    } else {
        let last = rows.last();
        let front = rows.drop_last();
        assert forall|i: int, j: int| 0 <= i < j < front.len() implies key(#[trigger] front[i])
            != key(#[trigger] front[j]) by {
            assert(key(rows[i]) != key(rows[j]));
        }
        lemma_table_size(front, key);
        if has_row(front, key, key(last)) {
            let i = choose|i: int| 0 <= i < front.len() && key(#[trigger] front[i]) == key(last);
            assert(key(rows[i]) != key(rows[rows.len() - 1]));
        }
        lemma_pushed(front, key, last);
        assert(front.push(last) =~= rows);
        assert(!table_of(front, key).contains_key(key(last)));
    }
}

} // verus!
