//! Model of the remote secret store and of the records exchanged with it.
//!
//! The store is a key-value service: a record lives at a {mount, path}
//! coordinate and is a string-keyed mapping of string values. One
//! convention is applied for both read and write: the resolved connection
//! string sits in the record under the secret path itself as its key. The
//! store itself is remote; the library holds only its mathematical model
//! and the record values that cross the boundary.

use vstd::prelude::*;

verus! {

/// The mathematical content of a secret record: its key/value pairs in the
/// order they were handed over.
pub open spec fn record_view(entries: Seq<(String, String)>) -> Seq<(Seq<char>, Seq<char>)> {
    entries.map_values(|e: (String, String)| (e.0@, e.1@))
}

/// The value under `key` in a record: the first pair with that key, if any.
/// Keys within one record are unique, so which pair is first never matters.
pub open spec fn record_lookup(record: Seq<(Seq<char>, Seq<char>)>, key: Seq<char>) -> Option<
    Seq<char>,
>
    decreases record.len(),
{
    if record.len() == 0 {
        None
    } else if record[0].0 == key {
        Some(record[0].1)
    } else {
        record_lookup(record.drop_first(), key)
    }
}

/// Look a key up in a record, starting at `start`.
fn lookup_record_from(entries: &Vec<(String, String)>, start: usize, key: &String) -> (r: Option<
    String,
>)
    requires
        start <= entries@.len(),
    ensures
        crate::resolver::opt_view(r) == record_lookup(
            record_view(entries@).skip(start as int),
            key@,
        ),
    decreases entries@.len() - start,
{
    if start == entries.len() {
        None
    } else {
        let entry = &entries[start];
        proof {
            assert(record_view(entries@)[start as int] == (
                entries@[start as int].0@,
                entries@[start as int].1@,
            ));
            assert(record_view(entries@).skip(start as int)[0] == record_view(entries@)[
                start as int
            ]);
        }
        if entry.0.eq(key) {
            Some(entry.1.clone())
        } else {
            proof {
                assert(record_view(entries@).skip(start as int).drop_first() =~= record_view(
                    entries@,
                ).skip(start as int + 1));
            }
            lookup_record_from(entries, start + 1, key)
        }
    }
}

/// Look a key up in a record.
pub fn lookup_record(entries: &Vec<(String, String)>, key: &String) -> (r: Option<String>)
    ensures
        crate::resolver::opt_view(r) == record_lookup(record_view(entries@), key@),
{
    let r = lookup_record_from(entries, 0, key);
    proof {
        assert(record_view(entries@).skip(0) =~= record_view(entries@));
    }
    r
}

/// Build the record that carries a resolved connection string: the single
/// pair {path: value}, the same convention the read side looks up.
pub fn make_secret_record(path: &String, value: &String) -> (r: Vec<(String, String)>)
    ensures
        record_view(r@) == seq![(path@, value@)],
{
    let mut record: Vec<(String, String)> = Vec::new();
    record.push((path.clone(), value.clone()));
    proof {
        assert(record_view(record@) =~= seq![(path@, value@)]);
    }
    record
}

/// Mathematical model of the whole remote store: a mapping from
/// {mount, path} coordinates to records.
pub type StoreModel = Map<(Seq<char>, Seq<char>), Seq<(Seq<char>, Seq<char>)>>;

/// The store after a write: the record at {mount, path} is overwritten
/// whole; every other coordinate is untouched.
pub open spec fn store_write(
    store: StoreModel,
    mount: Seq<char>,
    path: Seq<char>,
    record: Seq<(Seq<char>, Seq<char>)>,
) -> StoreModel {
    store.insert((mount, path), record)
}

/// What a read at {mount, path} returns: the whole record, or nothing when
/// the coordinate is absent — never a partial record.
pub open spec fn store_read(store: StoreModel, mount: Seq<char>, path: Seq<char>) -> Option<
    Seq<(Seq<char>, Seq<char>)>,
> {
    if store.dom().contains((mount, path)) {
        Some(store[(mount, path)])
    } else {
        None
    }
}

/// Law: writes are idempotent overwrites. A second write of the same
/// record to the same {mount, path} changes nothing, and a read after
/// either write returns exactly the written record.
pub proof fn lemma_write_idempotent(
    store: StoreModel,
    mount: Seq<char>,
    path: Seq<char>,
    record: Seq<(Seq<char>, Seq<char>)>,
)
    ensures
        store_write(store_write(store, mount, path, record), mount, path, record) == store_write(
            store,
            mount,
            path,
            record,
        ),
        store_read(store_write(store, mount, path, record), mount, path) == Some(record),
        store_read(
            store_write(store_write(store, mount, path, record), mount, path, record),
            mount,
            path,
        ) == Some(record),
{
    assert(store_write(store_write(store, mount, path, record), mount, path, record)
        =~= store_write(store, mount, path, record));
}

/// Law: a write at one {mount, path} leaves a read at any other coordinate
/// unchanged.
pub proof fn lemma_write_elsewhere_unchanged(
    store: StoreModel,
    mount: Seq<char>,
    path: Seq<char>,
    record: Seq<(Seq<char>, Seq<char>)>,
    other_mount: Seq<char>,
    other_path: Seq<char>,
)
    requires
        (other_mount, other_path) != (mount, path),
    ensures
        store_read(store_write(store, mount, path, record), other_mount, other_path) == store_read(
            store,
            other_mount,
            other_path,
        ),
{
}

} // verus!
