use vstd::prelude::*;

verus! {

/// A row of a table: it stands for one key and the value stored under it.
pub trait Row: Sized {
    type Key;

    type Value;

    /// The key that the row belongs to.
    spec fn key(&self) -> Self::Key;

    /// What the row stores for its key.
    spec fn value(&self) -> Self::Value;
}

/// Whether row `i` belongs to `key`.
pub open spec fn keyed_at<R: Row>(rows: Seq<R>, key: R::Key, i: int) -> bool {
    0 <= i < rows.len() && rows[i].key() == key
}

/// No key has two rows.
pub open spec fn distinct_keys<R: Row>(rows: Seq<R>) -> bool {
    forall|i: int, j: int| 0 <= i < j < rows.len() ==> rows[i].key() != rows[j].key()
}

/// The table that a list of rows stands for: each listed key with the
/// value of its row.
pub open spec fn rows_map<R: Row>(rows: Seq<R>) -> Map<R::Key, R::Value> {
    Map::new(
        |key: R::Key| exists|i: int| keyed_at(rows, key, i),
        |key: R::Key| rows[choose|i: int| keyed_at(rows, key, i)].value(),
    )
}

/// A row that is found decides what the table holds for its key.
pub proof fn lemma_row_found<R: Row>(rows: Seq<R>, key: R::Key, i: int)
    requires
        distinct_keys(rows),
        keyed_at(rows, key, i),
    ensures
        rows_map(rows).dom().contains(key),
        rows_map(rows)[key] == rows[i].value(),
{
    let c = choose|c: int| keyed_at(rows, key, c);
    assert(keyed_at(rows, key, c));
    if c < i {
        assert(rows[c].key() != rows[i].key());
    } else if i < c {
        assert(rows[i].key() != rows[c].key());
    }
}

/// A key of the table has a row.
pub proof fn lemma_row_exists<R: Row>(rows: Seq<R>, key: R::Key) -> (i: int)
    requires
        distinct_keys(rows),
        rows_map(rows).dom().contains(key),
    ensures
        keyed_at(rows, key, i),
        rows_map(rows)[key] == rows[i].value(),
{
    let i = choose|i: int| keyed_at(rows, key, i);
    lemma_row_found(rows, key, i);
    i
}

/// A key without a row is not in the table.
pub proof fn lemma_row_missing<R: Row>(rows: Seq<R>, key: R::Key)
    requires
        forall|i: int| !keyed_at(rows, key, i),
    ensures
        !rows_map(rows).dom().contains(key),
        rows_map(rows).remove(key) == rows_map(rows),
{
    assert(rows_map(rows).remove(key) =~= rows_map(rows));
}

/// No rows, no keys.
pub proof fn lemma_rows_none<R: Row>(rows: Seq<R>)
    requires
        rows.len() == 0,
    ensures
        distinct_keys(rows),
        rows_map(rows) == Map::<R::Key, R::Value>::empty(),
{
    assert(rows_map(rows) =~= Map::<R::Key, R::Value>::empty());
}

/// Appending a row for a new key inserts the key.
pub proof fn lemma_row_pushed<R: Row>(rows: Seq<R>, row: R)
    requires
        distinct_keys(rows),
        !rows_map(rows).dom().contains(row.key()),
    ensures
        distinct_keys(rows.push(row)),
        rows_map(rows.push(row)) == rows_map(rows).insert(row.key(), row.value()),
{
    let after = rows.push(row);
    assert forall|i: int, j: int| 0 <= i < j < after.len() implies after[i].key()
        != after[j].key() by {
        if j == rows.len() {
            assert(keyed_at(rows, rows[i].key(), i));
        }
    }
    let want = rows_map(rows).insert(row.key(), row.value());
    assert forall|key: R::Key| rows_map(after).dom().contains(key) <==> want.dom().contains(
        key,
    ) by {
        if rows_map(after).dom().contains(key) {
            let i = lemma_row_exists(after, key);
            if i < rows.len() {
                assert(keyed_at(rows, key, i));
            }
        }
        if want.dom().contains(key) {
            if key == row.key() {
                assert(keyed_at(after, key, rows.len() as int));
            } else {
                let i = lemma_row_exists(rows, key);
                assert(keyed_at(after, key, i));
            }
        }
    }
    assert forall|key: R::Key| rows_map(after).dom().contains(key) implies rows_map(after)[key]
        == want[key] by {
        let i = lemma_row_exists(after, key);
        if i < rows.len() {
            lemma_row_found(rows, key, i);
        }
    }
    assert(rows_map(after) =~= want);
}

/// Replacing a row by one for the same key overwrites the key's value.
pub proof fn lemma_row_changed<R: Row>(rows: Seq<R>, i: int, row: R)
    requires
        distinct_keys(rows),
        0 <= i < rows.len(),
        row.key() == rows[i].key(),
    ensures
        distinct_keys(rows.update(i, row)),
        rows_map(rows.update(i, row)) == rows_map(rows).insert(row.key(), row.value()),
{
    let after = rows.update(i, row);
    assert forall|a: int, b: int| 0 <= a < b < after.len() implies after[a].key()
        != after[b].key() by {
        assert(rows[a].key() != rows[b].key());
    }
    let want = rows_map(rows).insert(row.key(), row.value());
    assert forall|key: R::Key| rows_map(after).dom().contains(key) <==> want.dom().contains(
        key,
    ) by {
        if rows_map(after).dom().contains(key) {
            let j = lemma_row_exists(after, key);
            assert(keyed_at(rows, key, j));
        }
        if want.dom().contains(key) {
            if key == row.key() {
                assert(keyed_at(after, key, i));
            } else {
                let j = lemma_row_exists(rows, key);
                assert(keyed_at(after, key, j));
            }
        }
    }
    assert forall|key: R::Key| rows_map(after).dom().contains(key) implies rows_map(after)[key]
        == want[key] by {
        let j = lemma_row_exists(after, key);
        if j != i {
            lemma_row_found(rows, key, j);
        }
    }
    assert(rows_map(after) =~= want);
}

/// Moving the last row into the place of row `i` removes the key of row
/// `i`.
pub proof fn lemma_row_removed<R: Row>(rows: Seq<R>, i: int)
    requires
        distinct_keys(rows),
        0 <= i < rows.len(),
    ensures
        distinct_keys(rows.update(i, rows.last()).drop_last()),
        rows_map(rows.update(i, rows.last()).drop_last()) == rows_map(rows).remove(rows[i].key()),
{
    let last = rows.len() - 1;
    let gone = rows[i].key();
    let after = rows.update(i, rows.last()).drop_last();
    // Row `j` of the new list is row `j` of the old one, but for the slot
    // that the last row moved into.
    assert forall|j: int| 0 <= j < after.len() implies after[j] == (if j == i {
        rows[last]
    } else {
        rows[j]
    }) by {}
    assert forall|a: int, b: int| 0 <= a < b < after.len() implies after[a].key()
        != after[b].key() by {
        assert(rows[a].key() != rows[last].key());
        assert(rows[b].key() != rows[last].key());
        assert(rows[a].key() != rows[b].key());
    }
    let want = rows_map(rows).remove(gone);
    assert forall|key: R::Key| rows_map(after).dom().contains(key) <==> want.dom().contains(
        key,
    ) by {
        if rows_map(after).dom().contains(key) {
            let j = lemma_row_exists(after, key);
            if j == i {
                assert(keyed_at(rows, key, last));
                assert(rows[i].key() != rows[last].key());
            } else {
                assert(keyed_at(rows, key, j));
                if j < i {
                    assert(rows[j].key() != rows[i].key());
                } else {
                    assert(rows[i].key() != rows[j].key());
                }
            }
        }
        if want.dom().contains(key) {
            let j = lemma_row_exists(rows, key);
            if j == last {
                assert(keyed_at(after, key, i));
            } else {
                assert(keyed_at(after, key, j));
            }
        }
    }
    assert forall|key: R::Key| rows_map(after).dom().contains(key) implies rows_map(after)[key]
        == want[key] by {
        let j = lemma_row_exists(after, key);
        if j == i {
            lemma_row_found(rows, key, last);
        } else {
            lemma_row_found(rows, key, j);
        }
    }
    assert(rows_map(after) =~= want);
}

} // verus!
