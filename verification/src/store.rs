//! The durable library store: records keyed by identifier in a single-file
//! embedded table, every mutation one atomic transaction, with backup
//! rotation on opening.
//!
//! The store is modelled as a map from key to stored bytes; the trusted
//! boundary states how each transaction reads or rewrites that map, and the
//! verified operations above it encode, decode and place records.

use vstd::prelude::*;
use crate::types::{Metadata, MetadataOptional, MetadataError, MetaView};
use crate::archiver::{PackRequest, UnpackRequest, ToolError};
use crate::codec::{
    encode_meta, decode_meta, decode_meta_spec, enc_meta, meta_fits,
};
use crate::record::{patch_rel, init_rel};
use crate::deploy::deployed_rel;
use crate::types::ArchiveInfoView;
use crate::paths::join_path_str;
use crate::backup::prune_names;
use crate::text::u64_to_dec;
use crate::fsops::{path_exists, create_dir_all_at, copy_file, remove_file_at, list_dir};

verus! {

/// A store-level failure.
#[derive(Debug)]
pub enum LibraryError {
    /// No record is stored under the key; carries the key.
    NotFound(String),
    /// A deploy or deploy-off reported a no-op: the record had nothing
    /// valid to act on, and its corrected form was persisted.
    DeployError,
    /// A record-level failure, passed through.
    MetadataError(MetadataError),
    /// The storage engine could not begin a transaction.
    TransactionError(String),
    /// The storage engine could not open the table.
    TableError(String),
    /// The storage engine failed while reading or writing.
    StorageError(String),
    /// The storage engine could not commit. The transaction was applied
    /// atomically, but whether it became durable is unresolved: the write
    /// either landed whole or not at all.
    CommitError(String),
    /// Stored bytes do not decode to a record; carries the key.
    DeserializationError(String),
    /// A filesystem step outside the storage engine failed.
    FileSystemError(String),
}

impl LibraryError {
    /// A short description of the failure.
    pub fn message(&self) -> (r: String)
        ensures
            self is DeployError ==> r@ == "deploy failed for missing or invalid info"@,
    {
        match self {
            LibraryError::NotFound(k) => "record not found: ".to_owned().concat(k.as_str()),
            LibraryError::DeployError => "deploy failed for missing or invalid info".to_owned(),
            LibraryError::MetadataError(e) => e.message(),
            LibraryError::TransactionError(s) => "transaction error: ".to_owned().concat(
                s.as_str(),
            ),
            LibraryError::TableError(s) => "table error: ".to_owned().concat(s.as_str()),
            LibraryError::StorageError(s) => "storage error: ".to_owned().concat(s.as_str()),
            LibraryError::CommitError(s) => "commit error: ".to_owned().concat(s.as_str()),
            LibraryError::DeserializationError(k) => "stored record is unreadable: ".to_owned()
                .concat(k.as_str()),
            LibraryError::FileSystemError(s) => "filesystem error: ".to_owned().concat(s.as_str()),
        }
    }
}

#[verifier::external_type_specification]
#[verifier::external_body]
pub struct ExDatabase(redb::Database);

/// The table contents behind a database handle: the stored bytes under
/// each key.
pub uninterp spec fn db_map(db: redb::Database) -> Map<Seq<char>, Seq<u8>>;

/// The open library store: one embedded database holding one table of
/// records.
pub struct Store {
    pub db: redb::Database,
}

impl View for Store {
    type V = Map<Seq<char>, Seq<u8>>;

    open spec fn view(&self) -> Map<Seq<char>, Seq<u8>> {
        db_map(self.db)
    }
}

impl Store {
    /// Relies on `redb::Database::create` and one write transaction that
    /// opens the table: opens or initializes the store file. What the table
    /// already holds depends on the disk, so nothing is promised of the
    /// contents; a failure is always an engine-level cause.
    #[verifier::external_body]
    fn open_raw(path: &str) -> (r: Result<Store, LibraryError>)
        ensures
            r matches Err(e) ==> (e is StorageError || e is TransactionError || e is TableError
                || e is CommitError),
    {
        let db = redb::Database::create(path).map_err(
            |e| LibraryError::StorageError(format!("{e}")),
        )?;
        let write = db.begin_write().map_err(|e| LibraryError::TransactionError(format!("{e}")))?;
        write.open_table(redb::TableDefinition::<&str, Vec<u8>>::new("LIBRARY")).map_err(
            |e| LibraryError::TableError(format!("{e}")),
        )?;
        write.commit().map_err(|e| LibraryError::CommitError(format!("{e}")))?;
        Ok(Store { db })
    }

    /// Relies on `redb::ReadableTable::get` under a read transaction: the
    /// bytes stored under the key, read from the last committed state.
    #[verifier::external_body]
    fn get_raw(&self, key: &str) -> (r: Result<Option<Vec<u8>>, LibraryError>)
        ensures
            r matches Ok(Some(v)) ==> db_map(self.db).dom().contains(key@) && v@ == db_map(
                self.db,
            )[key@],
            r matches Ok(None) ==> !db_map(self.db).dom().contains(key@),
            r matches Err(e) ==> (e is TransactionError || e is TableError || e is StorageError),
    {
        let read = redb::ReadableDatabase::begin_read(&self.db).map_err(
            |e| LibraryError::TransactionError(format!("{e}")),
        )?;
        let table = read.open_table(redb::TableDefinition::<&str, Vec<u8>>::new("LIBRARY"))
            .map_err(|e| LibraryError::TableError(format!("{e}")))?;
        let got = redb::ReadableTable::get(&table, key);
        let out = match got {
            Ok(opt) => Ok(opt.map(|g| g.value())),
            Err(e) => Err(LibraryError::StorageError(format!("{e}"))),
        };
        out
    }

    /// Relies on `redb::Table::insert` under one write transaction and
    /// `redb::WriteTransaction::commit`: stores the bytes under the key,
    /// replacing any previous value. An error before the commit aborts the
    /// transaction and leaves the table unchanged; a failed commit is
    /// applied atomically but may nevertheless have become durable, so the
    /// write then either landed whole or not at all.
    #[verifier::external_body]
    fn set_raw(&mut self, key: &str, value: &Vec<u8>) -> (r: Result<(), LibraryError>)
        ensures
            r is Ok ==> db_map(final(self).db) == db_map(old(self).db).insert(key@, value@),
            r matches Err(e) ==> {
                &&& (e is TransactionError || e is TableError || e is StorageError || e
                    is CommitError)
                &&& (!(e is CommitError) ==> db_map(final(self).db) == db_map(old(self).db))
                &&& (e is CommitError ==> (db_map(final(self).db) == db_map(old(self).db)
                    || db_map(final(self).db) == db_map(old(self).db).insert(key@, value@)))
            },
    {
        let write = self.db.begin_write().map_err(
            |e| LibraryError::TransactionError(format!("{e}")),
        )?;
        {
            let mut table = write.open_table(redb::TableDefinition::<&str, Vec<u8>>::new("LIBRARY"))
                .map_err(|e| LibraryError::TableError(format!("{e}")))?;
            table.insert(key, value).map_err(|e| LibraryError::StorageError(format!("{e}")))?;
        }
        write.commit().map_err(|e| LibraryError::CommitError(format!("{e}")))?;
        Ok(())
    }

    /// Relies on `redb::Table::remove` under one write transaction and
    /// `redb::WriteTransaction::commit`: removes the key and tells whether
    /// it was present. An error before the commit aborts the transaction
    /// and leaves the table unchanged; a failed commit is applied
    /// atomically but may nevertheless have become durable, so the removal
    /// then either landed whole or not at all.
    #[verifier::external_body]
    fn remove_raw(&mut self, key: &str) -> (r: Result<bool, LibraryError>)
        ensures
            r matches Ok(existed) ==> db_map(final(self).db) == db_map(old(self).db).remove(key@)
                && existed == db_map(old(self).db).dom().contains(key@),
            r matches Err(e) ==> {
                &&& (e is TransactionError || e is TableError || e is StorageError || e
                    is CommitError)
                &&& (!(e is CommitError) ==> db_map(final(self).db) == db_map(old(self).db))
                &&& (e is CommitError ==> (db_map(final(self).db) == db_map(old(self).db)
                    || db_map(final(self).db) == db_map(old(self).db).remove(key@)))
            },
    {
        let write = self.db.begin_write().map_err(
            |e| LibraryError::TransactionError(format!("{e}")),
        )?;
        let existed;
        {
            let mut table = write.open_table(redb::TableDefinition::<&str, Vec<u8>>::new("LIBRARY"))
                .map_err(|e| LibraryError::TableError(format!("{e}")))?;
            let prev = table.remove(key).map_err(|e| LibraryError::StorageError(format!("{e}")))?;
            existed = prev.is_some();
        }
        write.commit().map_err(|e| LibraryError::CommitError(format!("{e}")))?;
        Ok(existed)
    }

    /// Relies on `redb::ReadableTable::iter` under a read transaction,
    /// handing each row out as an owned pair: every stored key with its
    /// bytes, each key once.
    #[verifier::external_body]
    fn all_raw(&self) -> (r: Result<Vec<(String, Vec<u8>)>, LibraryError>)
        ensures
            r matches Ok(v) ==> {
                &&& forall|x: int|
                    0 <= x < v@.len() ==> db_map(self.db).dom().contains(#[trigger] v@[x].0@)
                        && db_map(self.db)[v@[x].0@] == v@[x].1@
                &&& forall|k: Seq<char>|
                    db_map(self.db).dom().contains(k) ==> exists|x: int|
                        0 <= x < v@.len() && (#[trigger] v@[x].0@) == k
                &&& forall|x: int, y: int|
                    0 <= x < v@.len() && 0 <= y < v@.len() && x != y ==> (#[trigger] v@[x].0@) != (
                    #[trigger] v@[y].0@)
            },
            r matches Err(e) ==> (e is TransactionError || e is TableError || e is StorageError),
    {
        let read = redb::ReadableDatabase::begin_read(&self.db).map_err(
            |e| LibraryError::TransactionError(format!("{e}")),
        )?;
        let table = read.open_table(redb::TableDefinition::<&str, Vec<u8>>::new("LIBRARY"))
            .map_err(|e| LibraryError::TableError(format!("{e}")))?;
        let iter = redb::ReadableTable::iter(&table).map_err(
            |e| LibraryError::StorageError(format!("{e}")),
        )?;
        let mut out: Vec<(String, Vec<u8>)> = Vec::new();
        for row in iter {
            let (k, v) = row.map_err(|e| LibraryError::StorageError(format!("{e}")))?;
            out.push((k.value().to_string(), v.value()));
        }
        Ok(out)
    }

    /// Relies on `redb::Table::insert` repeated under one write transaction
    /// and `redb::WriteTransaction::commit`: stores every pair, in order, as
    /// one atomic mutation. An error before the commit aborts the
    /// transaction and leaves the table unchanged; a failed commit is
    /// applied atomically but may nevertheless have become durable, so the
    /// whole batch then either landed or did not.
    #[verifier::external_body]
    fn set_many_raw(&mut self, items: &Vec<(String, Vec<u8>)>) -> (r: Result<(), LibraryError>)
        ensures
            r is Ok ==> db_map(final(self).db) == insert_pairs(
                db_map(old(self).db),
                pairs_view(items@),
            ),
            r matches Err(e) ==> {
                &&& (e is TransactionError || e is TableError || e is StorageError || e
                    is CommitError)
                &&& (!(e is CommitError) ==> db_map(final(self).db) == db_map(old(self).db))
                &&& (e is CommitError ==> (db_map(final(self).db) == db_map(old(self).db)
                    || db_map(final(self).db) == insert_pairs(
                    db_map(old(self).db),
                    pairs_view(items@),
                )))
            },
    {
        let write = self.db.begin_write().map_err(
            |e| LibraryError::TransactionError(format!("{e}")),
        )?;
        {
            let mut table = write.open_table(redb::TableDefinition::<&str, Vec<u8>>::new("LIBRARY"))
                .map_err(|e| LibraryError::TableError(format!("{e}")))?;
            for (k, v) in items.iter() {
                table.insert(k.as_str(), v).map_err(
                    |e| LibraryError::StorageError(format!("{e}")),
                )?;
            }
        }
        write.commit().map_err(|e| LibraryError::CommitError(format!("{e}")))?;
        Ok(())
    }

    /// Relies on `redb::WriteTransaction::delete_table` and `open_table`
    /// under one write transaction and `redb::WriteTransaction::commit`:
    /// empties the table. An error before the commit aborts the transaction
    /// and leaves the table unchanged; a failed commit is applied atomically
    /// but may nevertheless have become durable, so the table is then empty
    /// or unchanged.
    #[verifier::external_body]
    fn clear_raw(&mut self) -> (r: Result<(), LibraryError>)
        ensures
            r is Ok ==> forall|k: Seq<char>| !db_map(final(self).db).dom().contains(k),
            r matches Err(e) ==> {
                &&& (e is TransactionError || e is TableError || e is CommitError)
                &&& (!(e is CommitError) ==> db_map(final(self).db) == db_map(old(self).db))
                &&& (e is CommitError ==> (db_map(final(self).db) == db_map(old(self).db)
                    || forall|k: Seq<char>| !db_map(final(self).db).dom().contains(k)))
            },
    {
        let td = redb::TableDefinition::<&str, Vec<u8>>::new("LIBRARY");
        let write = self.db.begin_write().map_err(
            |e| LibraryError::TransactionError(format!("{e}")),
        )?;
        write.delete_table(td).map_err(|e| LibraryError::TableError(format!("{e}")))?;
        write.open_table(td).map_err(|e| LibraryError::TableError(format!("{e}")))?;
        write.commit().map_err(|e| LibraryError::CommitError(format!("{e}")))?;
        Ok(())
    }
}

/// The view of stored key-bytes pairs.
pub open spec fn pairs_view(s: Seq<(String, Vec<u8>)>) -> Seq<(Seq<char>, Seq<u8>)> {
    s.map_values(|p: (String, Vec<u8>)| (p.0@, p.1@))
}

/// The map after storing the pairs in order: a later pair with the same key
/// wins.
pub open spec fn insert_pairs(
    m: Map<Seq<char>, Seq<u8>>,
    ps: Seq<(Seq<char>, Seq<u8>)>,
) -> Map<Seq<char>, Seq<u8>>
    decreases ps.len(),
{
    if ps.len() == 0 {
        m
    } else {
        insert_pairs(m.insert(ps[0].0, ps[0].1), ps.drop_first())
    }
}

/// The pair each record is stored as: its identifier and its encoding.
pub open spec fn enc_pairs(rs: Seq<MetaView>) -> Seq<(Seq<char>, Seq<u8>)> {
    rs.map_values(|m: MetaView| (m.id, enc_meta(m)))
}

/// The map after storing every record under its own identifier.
pub open spec fn insert_encoded(
    m: Map<Seq<char>, Seq<u8>>,
    rs: Seq<MetaView>,
) -> Map<Seq<char>, Seq<u8>> {
    insert_pairs(m, enc_pairs(rs))
}

/// Loads and decodes the record under a key: the decoded form of exactly
/// the stored bytes; a missing key is not-found and undecodable bytes are
/// surfaced as corruption, never repaired.
fn internal_get(store: &Store, key: &str) -> (r: Result<Metadata, LibraryError>)
    ensures
        r matches Ok(m) ==> store@.dom().contains(key@) && decode_meta_spec(store@[key@]) == Some(
            m@,
        ),
        r matches Err(e) ==> {
            &&& (e is NotFound ==> !store@.dom().contains(key@))
            &&& (e is DeserializationError ==> store@.dom().contains(key@) && decode_meta_spec(
                store@[key@],
            ) is None)
            &&& (e is NotFound || e is DeserializationError || e is TransactionError || e
                is TableError || e is StorageError)
        },
{
    match store.get_raw(key) {
        Err(e) => Err(e),
        Ok(None) => Err(LibraryError::NotFound(key.to_owned())),
        Ok(Some(bytes)) => match decode_meta(&bytes) {
            Some(m) => Ok(m),
            None => Err(LibraryError::DeserializationError(key.to_owned())),
        },
    }
}

/// Opens the library store under the content root, creating the root and
/// backup directories as needed. When a store file already exists it is
/// first copied into the backup directory under a clock-stamped name, and
/// the backups are pruned to the five newest, oldest deleted first. What
/// the opened store holds depends on the disk; a failure is always a
/// filesystem or engine-level cause, never a record-level one.
pub fn lib_init(root: &str, now: u64) -> (r: Result<Store, LibraryError>)
    ensures
        r matches Err(e) ==> (e is FileSystemError || e is TransactionError || e is TableError
            || e is StorageError || e is CommitError),
{
    if let Err(e) = create_dir_all_at(root) {
        return Err(LibraryError::FileSystemError(e));
    }
    let backup_dir = join_path_str(root, "backup");
    if let Err(e) = create_dir_all_at(backup_dir.as_str()) {
        return Err(LibraryError::FileSystemError(e));
    }
    let bin = join_path_str(root, "library.bin");
    if path_exists(bin.as_str()) {
        let name = "library.".to_owned().concat(u64_to_dec(now).as_str()).concat(".bin");
        let dst = join_path_str(backup_dir.as_str(), name.as_str());
        if let Err(e) = copy_file(bin.as_str(), dst.as_str()) {
            return Err(LibraryError::FileSystemError(e));
        }
        match list_dir(backup_dir.as_str()) {
            Err(e) => {
                return Err(LibraryError::FileSystemError(e));
            },
            Ok((_dirs, files)) => {
                let (doomed, _kept) = prune_names(files, 5);
                let mut i: usize = 0;
                while i < doomed.len()
                    decreases doomed.len() - i,
                {
                    let _ignored = remove_file_at(doomed[i].as_str());
                    i = i + 1;
                }
            },
        }
    }
    Store::open_raw(bin.as_str())
}

/// The record stored under the key.
pub fn lib_get(store: &Store, key: &str) -> (r: Result<Metadata, LibraryError>)
    ensures
        r matches Ok(m) ==> store@.dom().contains(key@) && decode_meta_spec(store@[key@]) == Some(
            m@,
        ),
        r matches Err(e) ==> {
            &&& (e is NotFound ==> !store@.dom().contains(key@))
            &&& (e is DeserializationError ==> store@.dom().contains(key@) && decode_meta_spec(
                store@[key@],
            ) is None)
        },
{
    internal_get(store, key)
}

/// Whether some stored entry decodes to the record.
pub open spec fn stored_somewhere(s: Map<Seq<char>, Seq<u8>>, v: MetaView) -> bool {
    exists|k: Seq<char>|
        #![trigger s.dom().contains(k)]
        s.dom().contains(k) && decode_meta_spec(s[k]) == Some(v)
}

/// Whether some listed record is the decoded form of the bytes.
pub open spec fn listed_in(rs: Seq<MetaView>, bytes: Seq<u8>) -> bool {
    exists|x: int|
        #![trigger rs[x]]
        0 <= x < rs.len() && decode_meta_spec(bytes) == Some(rs[x])
}

/// An explicit pairing of listing positions with stored keys: one pairwise
/// distinct key per position, each position the decoded form of its key's
/// bytes, and every stored key paired — so the listing holds exactly one
/// record per stored entry.
pub open spec fn keyed_listing(
    s: Map<Seq<char>, Seq<u8>>,
    ks: Seq<Seq<char>>,
    rs: Seq<MetaView>,
) -> bool {
    &&& ks.len() == rs.len()
    &&& forall|x: int|
        #![trigger ks[x]]
        0 <= x < ks.len() ==> s.dom().contains(ks[x]) && decode_meta_spec(s[ks[x]]) == Some(rs[x])
    &&& forall|x: int, y: int|
        #![trigger ks[x], ks[y]]
        0 <= x < ks.len() && 0 <= y < ks.len() && x != y ==> ks[x] != ks[y]
    &&& forall|k: Seq<char>|
        #![trigger s.dom().contains(k)]
        s.dom().contains(k) ==> exists|x: int| #![trigger ks[x]] 0 <= x < ks.len() && ks[x] == k
}

/// How a full listing relates to the store: every listed record decodes
/// from some stored entry, every stored entry decodes to some listed
/// record, and some key pairing ties the two injectively.
pub open spec fn get_all_rel(s: Map<Seq<char>, Seq<u8>>, rs: Seq<MetaView>) -> bool {
    &&& forall|x: int| #![trigger rs[x]] 0 <= x < rs.len() ==> stored_somewhere(s, rs[x])
    &&& forall|k: Seq<char>|
        #![trigger s.dom().contains(k)]
        s.dom().contains(k) ==> listed_in(rs, s[k])
    &&& exists|ks: Seq<Seq<char>>| keyed_listing(s, ks, rs)
}

/// Every stored record: exactly one per stored entry, each the decoded
/// form of its entry's bytes; a store with any undecodable entry is
/// refused as corrupt.
pub fn lib_get_all(store: &Store) -> (r: Result<Vec<Metadata>, LibraryError>)
    ensures
        r matches Ok(v) ==> get_all_rel(store@, v.deep_view()),
        r matches Err(e) && e is DeserializationError ==> exists|k: Seq<char>|
            #[trigger] store@.dom().contains(k) && decode_meta_spec(store@[k]) is None,
{
    let pairs = match store.all_raw() {
        Ok(p) => p,
        Err(e) => {
            return Err(e);
        },
    };
    let mut out: Vec<Metadata> = Vec::new();
    let mut i: usize = 0;
    while i < pairs.len()
        invariant
            i <= pairs@.len(),
            out.deep_view().len() == i,
            forall|x: int|
                0 <= x < pairs@.len() ==> store@.dom().contains(#[trigger] pairs@[x].0@)
                    && store@[pairs@[x].0@] == pairs@[x].1@,
            forall|k: Seq<char>|
                store@.dom().contains(k) ==> exists|x: int|
                    0 <= x < pairs@.len() && (#[trigger] pairs@[x].0@) == k,
            forall|x: int|
                0 <= x < i ==> decode_meta_spec(store@[pairs@[x].0@]) == Some(
                    #[trigger] out.deep_view()[x],
                ),
        decreases pairs@.len() - i,
    {
        let ghost out0 = out.deep_view();
        match decode_meta(&pairs[i].1) {
            Some(m) => {
                out.push(m);
                proof {
                    assert(out.deep_view() =~= out0.push(m@));
                }
            },
            None => {
                proof {
                    assert(store@.dom().contains(pairs@[i as int].0@) && decode_meta_spec(
                        store@[pairs@[i as int].0@],
                    ) is None);
                }
                return Err(LibraryError::DeserializationError(pairs[i].0.clone()));
            },
        }
        i = i + 1;
    }
    proof {
        assert forall|x: int| #![trigger out.deep_view()[x]] 0 <= x < out.deep_view().len()
            implies stored_somewhere(store@, out.deep_view()[x]) by {
            assert(store@.dom().contains(pairs@[x].0@) && decode_meta_spec(store@[pairs@[x].0@])
                == Some(out.deep_view()[x]));
        }
        assert forall|k: Seq<char>| #![trigger store@.dom().contains(k)] store@.dom().contains(k)
            implies listed_in(out.deep_view(), store@[k]) by {
            let x = choose|x: int| 0 <= x < pairs@.len() && (#[trigger] pairs@[x].0@) == k;
            assert(0 <= x < out.deep_view().len() && decode_meta_spec(store@[k]) == Some(
                out.deep_view()[x],
            ));
        }
        let ks = pairs@.map_values(|p: (String, Vec<u8>)| p.0@);
        assert forall|x: int| #![trigger ks[x]] 0 <= x < ks.len() implies store@.dom().contains(
            ks[x],
        ) && decode_meta_spec(store@[ks[x]]) == Some(out.deep_view()[x]) by {
            assert(ks[x] == pairs@[x].0@);
        }
        assert forall|x: int, y: int|
            #![trigger ks[x], ks[y]]
            0 <= x < ks.len() && 0 <= y < ks.len() && x != y implies ks[x] != ks[y] by {
            assert(ks[x] == pairs@[x].0@ && ks[y] == pairs@[y].0@);
        }
        assert forall|k: Seq<char>| #![trigger store@.dom().contains(k)] store@.dom().contains(k)
            implies exists|x: int| #![trigger ks[x]] 0 <= x < ks.len() && ks[x] == k by {
            let x = choose|x: int| 0 <= x < pairs@.len() && (#[trigger] pairs@[x].0@) == k;
            assert(ks[x] == k);
        }
        assert(keyed_listing(store@, ks, out.deep_view()));
        assert(get_all_rel(store@, out.deep_view()));
    }
    Ok(out)
}

/// What a successful upsert stored under the returned identifier: a patch
/// of the existing record when the payload names a stored identifier, and
/// a freshly created record — under a fresh identifier — when it names an
/// unknown one or none at all.
pub open spec fn update_rel(
    s: Map<Seq<char>, Seq<u8>>,
    o: crate::types::OptView,
    now: u64,
    id: Seq<char>,
    m: MetaView,
) -> bool {
    match o.id {
        Some(i) => {
            if s.dom().contains(i) {
                &&& id == i
                &&& (decode_meta_spec(s[i]) matches Some(prev) && patch_rel(prev, o, now, m))
            } else {
                &&& id.len() == 36
                &&& init_rel(o, id, now, m)
            }
        },
        None => {
            &&& id.len() == 36
            &&& init_rel(o, id, now, m)
        },
    }
}

/// What a completed upsert write left in the store: the map gained or
/// replaced exactly one entry, whose bytes decode to a record related to
/// the payload as `update_rel` says.
pub open spec fn update_wrote(
    s_old: Map<Seq<char>, Seq<u8>>,
    o: crate::types::OptView,
    now: u64,
    id: Seq<char>,
    s_new: Map<Seq<char>, Seq<u8>>,
) -> bool {
    &&& s_new == s_old.insert(id, s_new[id])
    &&& s_new.dom().contains(id)
    &&& (decode_meta_spec(s_new[id]) matches Some(m) && update_rel(s_old, o, now, id, m)
        && meta_fits(m))
}

/// Upserts a payload: patches the record it names when stored, otherwise —
/// discarding any supplied identifier — creates a fresh record; either way
/// the result is stored under the returned identifier as one transaction.
pub fn lib_update<F: Fn(PackRequest) -> Result<(), ToolError>>(
    store: &mut Store,
    opt: MetadataOptional,
    root: &str,
    now: u64,
    pack: &F,
) -> (r: Result<String, LibraryError>)
    requires
        forall|req: PackRequest| #[trigger] call_requires(*pack, (req,)),
    ensures
        r matches Ok(id) ==> update_wrote(old(store)@, opt@, now, id@, final(store)@),
        r matches Err(e) ==> {
            &&& !(e is NotFound)
            &&& (!(e is CommitError) ==> final(store)@ == old(store)@)
            &&& (e is CommitError ==> (final(store)@ == old(store)@ || exists|id: Seq<char>|
                update_wrote(old(store)@, opt@, now, id, final(store)@)))
        },
{
    let ghost o = opt@;
    let id_opt = opt.id.clone();
    match id_opt {
        Some(id) => {
            match internal_get(store, id.as_str()) {
                Ok(prev) => {
                    let m = match prev.patch(opt, root, now, pack) {
                        Ok(m) => m,
                        Err(e) => {
                            return Err(LibraryError::MetadataError(e));
                        },
                    };
                    let bytes = encode_meta(&m);
                    proof {
                        crate::codec::lemma_decode_encode(m@);
                    }
                    match store.set_raw(id.as_str(), &bytes) {
                        Ok(()) => Ok(id),
                        Err(e) => {
                            proof {
                                if store@ != old(store)@ {
                                    assert(update_wrote(old(store)@, o, now, id@, store@));
                                }
                            }
                            Err(e)
                        },
                    }
                },
                Err(LibraryError::NotFound(_)) => {
                    let mut opt = opt;
                    opt.id = None;
                    let ghost o2 = opt@;
                    let r = create_new(store, opt, root, now, pack);
                    proof {
                        if r is Err && store@ != old(store)@ {
                            let idw = choose|idw: Seq<char>|
                                update_wrote(old(store)@, o2, now, idw, store@);
                            assert(update_wrote(old(store)@, o, now, idw, store@));
                        }
                    }
                    r
                },
                Err(e) => Err(e),
            }
        },
        None => {
            let mut opt = opt;
            opt.id = None;
            let ghost o2 = opt@;
            let r = create_new(store, opt, root, now, pack);
            proof {
                if r is Err && store@ != old(store)@ {
                    let idw = choose|idw: Seq<char>|
                        update_wrote(old(store)@, o2, now, idw, store@);
                    assert(update_wrote(old(store)@, o, now, idw, store@));
                }
            }
            r
        },
    }
}

/// Creates a fresh record from a payload carrying no identifier and stores
/// it under the generated identifier.
fn create_new<F: Fn(PackRequest) -> Result<(), ToolError>>(
    store: &mut Store,
    opt: MetadataOptional,
    root: &str,
    now: u64,
    pack: &F,
) -> (r: Result<String, LibraryError>)
    requires
        forall|req: PackRequest| #[trigger] call_requires(*pack, (req,)),
        opt@.id is None,
    ensures
        r matches Ok(id) ==> update_wrote(old(store)@, opt@, now, id@, final(store)@),
        r matches Err(e) ==> {
            &&& !(e is NotFound)
            &&& (!(e is CommitError) ==> final(store)@ == old(store)@)
            &&& (e is CommitError ==> (final(store)@ == old(store)@ || exists|id: Seq<char>|
                update_wrote(old(store)@, opt@, now, id, final(store)@)))
        },
{
    let ghost o = opt@;
    let m = match Metadata::init(opt, root, now, pack) {
        Ok(m) => m,
        Err(e) => {
            return Err(LibraryError::MetadataError(e));
        },
    };
    let id = m.id.clone();
    let bytes = encode_meta(&m);
    proof {
        crate::codec::lemma_decode_encode(m@);
    }
    match store.set_raw(id.as_str(), &bytes) {
        Ok(()) => Ok(id),
        Err(e) => {
            proof {
                if store@ != old(store)@ {
                    assert(update_wrote(old(store)@, o, now, id@, store@));
                }
            }
            Err(e)
        },
    }
}

/// Removes the record under the key; whether one was there is the answer,
/// not an error.
pub fn lib_remove(store: &mut Store, key: &str) -> (r: Result<bool, LibraryError>)
    ensures
        r matches Ok(existed) ==> final(store)@ == old(store)@.remove(key@) && existed == old(
            store,
        )@.dom().contains(key@),
        r matches Err(e) ==> {
            &&& (e is TransactionError || e is TableError || e is StorageError || e
                is CommitError)
            &&& (!(e is CommitError) ==> final(store)@ == old(store)@)
            &&& (e is CommitError ==> (final(store)@ == old(store)@ || final(store)@ == old(
                store,
            )@.remove(key@)))
        },
{
    store.remove_raw(key)
}

/// Empties the store as one transaction.
pub fn lib_clear(store: &mut Store) -> (r: Result<(), LibraryError>)
    ensures
        r is Ok ==> final(store)@ == Map::<Seq<char>, Seq<u8>>::empty(),
        r matches Err(e) ==> {
            &&& (e is TransactionError || e is TableError || e is CommitError)
            &&& (!(e is CommitError) ==> final(store)@ == old(store)@)
            &&& (e is CommitError ==> (final(store)@ == old(store)@ || final(store)@
                == Map::<Seq<char>, Seq<u8>>::empty()))
        },
{
    match store.clear_raw() {
        Ok(()) => {
            proof {
                assert(store@ =~= Map::<Seq<char>, Seq<u8>>::empty());
            }
            Ok(())
        },
        Err(e) => {
            proof {
                if store@ != old(store)@ {
                    assert(store@ =~= Map::<Seq<char>, Seq<u8>>::empty());
                }
            }
            Err(e)
        },
    }
}

/// Deploys the record under the key into the target directory and persists
/// the outcome: a successful deploy stores the transitioned record; a no-op
/// — the record had nothing valid to deploy — stores the corrected record,
/// archive reference unset, and reports a deploy failure; a record-level
/// error leaves the store untouched; a failed commit may or may not have
/// landed the one attempted record write.
#[verifier::rlimit(60)]
#[verifier::spinoff_prover]
pub fn lib_deploy<F: Fn(UnpackRequest) -> Result<(), ToolError>>(
    store: &mut Store,
    key: &str,
    target: &str,
    root: &str,
    now: u64,
    unpack: &F,
) -> (r: Result<(), LibraryError>)
    requires
        forall|req: UnpackRequest| #[trigger] call_requires(*unpack, (req,)),
    ensures
        r is Ok ==> {
            &&& old(store)@.dom().contains(key@)
            &&& decode_meta_spec(old(store)@[key@]) is Some
            &&& final(store)@ == old(store)@.insert(key@, final(store)@[key@])
            &&& (decode_meta_spec(old(store)@[key@]) matches Some(prev) ==> (decode_meta_spec(
                final(store)@[key@],
            ) matches Some(m) && deployed_rel(prev, target@, root@, now, m)))
        },
        !old(store)@.dom().contains(key@) ==> (r matches Err(e) && (e is NotFound || e
            is TransactionError || e is TableError || e is StorageError)),
        r matches Err(e) ==> {
            &&& (e is DeployError ==> {
                &&& old(store)@.dom().contains(key@)
                &&& final(store)@ == old(store)@.insert(key@, final(store)@[key@])
                &&& (decode_meta_spec(old(store)@[key@]) matches Some(prev) ==> (decode_meta_spec(
                    final(store)@[key@],
                ) matches Some(m) && m == (MetaView {
                    archive_info: ArchiveInfoView::Unset,
                    ..prev
                })))
            })
            &&& (!(e is DeployError) && !(e is CommitError) ==> final(store)@ == old(store)@)
            &&& (e is CommitError ==> (final(store)@ == old(store)@ || {
                &&& final(store)@ == old(store)@.insert(key@, final(store)@[key@])
                &&& (decode_meta_spec(old(store)@[key@]) matches Some(prev) ==> (decode_meta_spec(
                    final(store)@[key@],
                ) matches Some(m) && (deployed_rel(prev, target@, root@, now, m) || m == (
                MetaView { archive_info: ArchiveInfoView::Unset, ..prev }))))
            }))
        },
{
    let mut metadata = match internal_get(store, key) {
        Ok(m) => m,
        Err(e) => {
            return Err(e);
        },
    };
    match metadata.deploy(target, root, now, unpack) {
        Err(e) => Err(LibraryError::MetadataError(e)),
        Ok(done) => {
            let bytes = encode_meta(&metadata);
            proof {
                crate::codec::lemma_decode_encode(metadata@);
            }
            match store.set_raw(key, &bytes) {
                Err(e) => {
                    proof {
                        if store@ != old(store)@ {
                            assert(store@[key@] == bytes@);
                        }
                    }
                    Err(e)
                },
                Ok(()) => if done {
                    Ok(())
                } else {
                    Err(LibraryError::DeployError)
                },
            }
        },
    }
}

/// Withdraws the deployed content of the record under the key and persists
/// the outcome, exactly as deploying does: success stores the transitioned
/// record, a no-op stores the corrected record — deploy reference unset —
/// and reports a deploy failure, and a record-level error leaves the store
/// untouched.
#[verifier::rlimit(60)]
#[verifier::spinoff_prover]
pub fn lib_deploy_off(store: &mut Store, key: &str, root: &str, now: u64) -> (r: Result<
    (),
    LibraryError,
>)
    ensures
        r is Ok ==> {
            &&& old(store)@.dom().contains(key@)
            &&& decode_meta_spec(old(store)@[key@]) is Some
            &&& final(store)@ == old(store)@.insert(key@, final(store)@[key@])
            &&& (decode_meta_spec(old(store)@[key@]) matches Some(prev) ==> (decode_meta_spec(
                final(store)@[key@],
            ) matches Some(m) && m == (MetaView {
                deploy_info: crate::types::DeployInfoView::Unset,
                time_updated: crate::record::advance_time(prev.time_updated, now),
                ..prev
            }) && !(prev.deploy_info is Unset)))
        },
        !old(store)@.dom().contains(key@) ==> (r matches Err(e) && (e is NotFound || e
            is TransactionError || e is TableError || e is StorageError)),
        r matches Err(e) ==> {
            &&& (e is DeployError ==> {
                &&& old(store)@.dom().contains(key@)
                &&& final(store)@ == old(store)@.insert(key@, final(store)@[key@])
                &&& (decode_meta_spec(old(store)@[key@]) matches Some(prev) ==> (decode_meta_spec(
                    final(store)@[key@],
                ) matches Some(m) && m == (MetaView {
                    deploy_info: crate::types::DeployInfoView::Unset,
                    ..prev
                })))
            })
            &&& (!(e is DeployError) && !(e is CommitError) ==> final(store)@ == old(store)@)
            &&& (e is CommitError ==> (final(store)@ == old(store)@ || {
                &&& final(store)@ == old(store)@.insert(key@, final(store)@[key@])
                &&& (decode_meta_spec(old(store)@[key@]) matches Some(prev) ==> (decode_meta_spec(
                    final(store)@[key@],
                ) matches Some(m) && (m == (MetaView {
                    deploy_info: crate::types::DeployInfoView::Unset,
                    time_updated: crate::record::advance_time(prev.time_updated, now),
                    ..prev
                }) || m == (MetaView {
                    deploy_info: crate::types::DeployInfoView::Unset,
                    ..prev
                }))))
            }))
        },
{
    let mut metadata = match internal_get(store, key) {
        Ok(m) => m,
        Err(e) => {
            return Err(e);
        },
    };
    match metadata.deploy_off(root, now) {
        Err(e) => Err(LibraryError::MetadataError(e)),
        Ok(done) => {
            let bytes = encode_meta(&metadata);
            proof {
                crate::codec::lemma_decode_encode(metadata@);
            }
            match store.set_raw(key, &bytes) {
                Err(e) => {
                    proof {
                        if store@ != old(store)@ {
                            assert(store@[key@] == bytes@);
                        }
                    }
                    Err(e)
                },
                Ok(()) => if done {
                    Ok(())
                } else {
                    Err(LibraryError::DeployError)
                },
            }
        },
    }
}

/// Stores every given record under its own identifier, overwriting, as one
/// atomic transaction: the bulk half of an import.
pub fn lib_import_records(store: &mut Store, records: &Vec<Metadata>) -> (r: Result<
    (),
    LibraryError,
>)
    ensures
        r is Ok ==> final(store)@ == insert_encoded(old(store)@, records.deep_view()),
        forall|x: int|
            0 <= x < records.deep_view().len() ==> meta_fits(#[trigger] records.deep_view()[x]),
        r matches Err(e) ==> {
            &&& (e is TransactionError || e is TableError || e is StorageError || e
                is CommitError)
            &&& (!(e is CommitError) ==> final(store)@ == old(store)@)
            &&& (e is CommitError ==> (final(store)@ == old(store)@ || final(store)@
                == insert_encoded(old(store)@, records.deep_view())))
        },
{
    let ghost rs = records.deep_view();
    let mut items: Vec<(String, Vec<u8>)> = Vec::new();
    let mut i: usize = 0;
    while i < records.len()
        invariant
            i <= records@.len(),
            rs == records.deep_view(),
            rs.len() == records@.len(),
            pairs_view(items@) == enc_pairs(rs.take(i as int)),
            forall|x: int| 0 <= x < i ==> meta_fits(#[trigger] rs[x]),
        decreases records@.len() - i,
    {
        let ghost items0 = items@;
        let bytes = encode_meta(&records[i]);
        let key = records[i].id.clone();
        items.push((key, bytes));
        proof {
            assert(rs[i as int] == records@[i as int]@);
            assert(pairs_view(items@) =~= pairs_view(items0).push(
                (records@[i as int]@.id, enc_meta(records@[i as int]@)),
            ));
            assert(enc_pairs(rs.take(i as int + 1)) =~= enc_pairs(rs.take(i as int)).push(
                (rs[i as int].id, enc_meta(rs[i as int])),
            ));
        }
        i = i + 1;
    }
    proof {
        assert(rs.take(rs.len() as int) =~= rs);
    }
    store.set_many_raw(&items)
}

} // verus!
