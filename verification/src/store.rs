//! The trusted boundary to the durable key-value store (a sled tree).
//!
//! The registry's single source of truth is a sled database. Verified code
//! never looks inside it; it sees the store only through `db_map` — the
//! abstract contents, each stored key mapped to the bytes stored under it
//! — and through the wrappers below, whose contracts say over `db_map`
//! what each sled call does.

use vstd::prelude::*;

verus! {

#[verifier::external_type_specification]
#[verifier::external_body]
pub struct ExDb(sled::Db);

#[verifier::external_type_specification]
#[verifier::external_body]
pub struct ExSledError(sled::Error);

/// What the store holds: each stored key mapped to the bytes stored under
/// it.
pub uninterp spec fn db_map(db: sled::Db) -> Map<Seq<u8>, Seq<u8>>;

/// Relies on `sled::Tree::get`: returns the value stored under the key,
/// or `None` where the key is absent; reading changes nothing.
#[verifier::external_body]
pub(crate) fn db_get(db: &mut sled::Db, key: &[u8]) -> (r: Result<Option<Vec<u8>>, sled::Error>)
    ensures
        db_map(*final(db)) == db_map(*old(db)),
        r matches Ok(Some(v)) ==> db_map(*final(db)).contains_key(key@) && db_map(
            *final(db),
        )[key@] == v@,
        r matches Ok(None) ==> !db_map(*final(db)).contains_key(key@),
{
    match db.get(key) {
        Ok(Some(v)) => Ok(Some(v.to_vec())),
        Ok(None) => Ok(None),
        Err(e) => Err(e),
    }
}

/// Relies on `sled::Tree::insert`: sets the key to the value, returning
/// the previous value if the key was present.
#[verifier::external_body]
pub(crate) fn db_insert(db: &mut sled::Db, key: &[u8], value: &Vec<u8>) -> (r: Result<
    Option<Vec<u8>>,
    sled::Error,
>)
    ensures
        r matches Ok(prev) ==> {
            &&& db_map(*final(db)) == db_map(*old(db)).insert(key@, value@)
            &&& prev is Some <==> db_map(*old(db)).contains_key(key@)
            &&& prev matches Some(p) ==> p@ == db_map(*old(db))[key@]
        },
{
    match db.insert(key, value.as_slice()) {
        Ok(prev) => Ok(prev.map(|v| v.to_vec())),
        Err(e) => Err(e),
    }
}

/// Relies on `sled::Tree::compare_and_swap` with no expected prior value:
/// it atomically sets the key to the value only where the key is absent,
/// and says whether it did. The tree serialises racing callers, so two
/// cannot both be told `true` for one key.
#[verifier::external_body]
pub(crate) fn db_insert_new(db: &mut sled::Db, key: &[u8], value: &Vec<u8>) -> (r: Result<
    bool,
    sled::Error,
>)
    ensures
        r matches Ok(true) ==> !db_map(*old(db)).contains_key(key@) && db_map(*final(db))
            == db_map(*old(db)).insert(key@, value@),
        r matches Ok(false) ==> db_map(*old(db)).contains_key(key@) && db_map(*final(db))
            == db_map(*old(db)),
{
    match db.compare_and_swap(key, None::<&[u8]>, Some(value.as_slice()))? {
        Ok(()) => Ok(true),
        Err(_) => Ok(false),
    }
}

/// Relies on `sled::Tree::remove`: deletes the key, saying whether it was
/// present.
#[verifier::external_body]
pub(crate) fn db_remove(db: &mut sled::Db, key: &[u8]) -> (r: Result<bool, sled::Error>)
    ensures
        r matches Ok(existed) ==> db_map(*final(db)) == db_map(*old(db)).remove(key@) && existed
            == db_map(*old(db)).contains_key(key@),
{
    match db.remove(key) {
        Ok(prev) => Ok(prev.is_some()),
        Err(e) => Err(e),
    }
}

/// Relies on `sled::Tree::iter`: enumerates every key-value pair of the
/// tree, each key exactly once; iterating changes nothing.
#[verifier::external_body]
pub(crate) fn db_entries(db: &mut sled::Db) -> (r: Result<Vec<(Vec<u8>, Vec<u8>)>, sled::Error>)
    ensures
        db_map(*final(db)) == db_map(*old(db)),
        r matches Ok(v) ==> {
            &&& forall|i: int|
                0 <= i < v@.len() ==> db_map(*final(db)).contains_key((#[trigger] v@[i]).0@)
                    && db_map(*final(db))[v@[i].0@] == v@[i].1@
            &&& forall|k: Seq<u8>|
                #[trigger] db_map(*final(db)).contains_key(k) ==> exists|i: int|
                    0 <= i < v@.len() && (#[trigger] v@[i]).0@ == k
            &&& forall|i: int, j: int|
                0 <= i < j < v@.len() ==> (#[trigger] v@[i]).0@ != (#[trigger] v@[j]).0@
        },
{
    let mut out = Vec::new();
    for pair in db.iter() {
        let (k, v) = pair?;
        out.push((k.to_vec(), v.to_vec()));
    }
    Ok(out)
}

} // verus!
