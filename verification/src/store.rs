//! The persistent store: one embedded key-value database, with one
//! tree per program and per dispatcher. Each tree is modelled as a
//! map from byte keys to byte values; the wrappers below say how the
//! database's operations act on that map, and everything above them
//! is proved against it.

use vstd::prelude::*;

verus! {

#[verifier::external_type_specification]
#[verifier::external_body]
pub struct ExSledTree(sled::Tree);

#[verifier::external_type_specification]
#[verifier::external_body]
pub struct ExSledDb(sled::Db);

/// What a tree holds: its key-value pairs.
pub uninterp spec fn tree_model(t: sled::Tree) -> Map<Seq<u8>, Seq<u8>>;

/// The name a tree was opened under.
pub uninterp spec fn tree_name_of(t: sled::Tree) -> Seq<u8>;

/// Whether one byte string starts with another.
pub open spec fn is_prefix_of(p: Seq<u8>, k: Seq<u8>) -> bool {
    p.len() <= k.len() && k.subrange(0, p.len() as int) == p
}

/// The byte-wise lexicographic order on keys, the order the store
/// iterates in: a proper prefix comes before its extensions.
pub open spec fn lex_lt(a: Seq<u8>, b: Seq<u8>) -> bool
    decreases a.len(),
{
    if b.len() == 0 {
        false
    } else if a.len() == 0 {
        true
    } else {
        a[0] < b[0] || (a[0] == b[0] && lex_lt(a.drop_first(), b.drop_first()))
    }
}

/// Keys in the lexicographic order are distinct.
pub proof fn lemma_lex_lt_ne(a: Seq<u8>, b: Seq<u8>)
    requires
        lex_lt(a, b),
    ensures
        a != b,
    decreases a.len(),
{
    if b.len() != 0 && a.len() != 0 && a[0] == b[0] {
        lemma_lex_lt_ne(a.drop_first(), b.drop_first());
        if a == b {
            assert(a.drop_first() == b.drop_first());
        }
    }
}

/// Relies on sled::Tree::insert: sets the key to the value in this
/// tree; on failure the write may or may not have applied.
#[verifier::external_body]
pub(crate) fn sled_insert(tree: &mut sled::Tree, key: &[u8], value: &[u8]) -> (r: Result<
    (),
    String,
>)
    ensures
        tree_name_of(*final(tree)) == tree_name_of(*old(tree)),
        r is Ok ==> tree_model(*final(tree)) == tree_model(*old(tree)).insert(key@, value@),
        r is Err ==> tree_model(*final(tree)) == tree_model(*old(tree)) || tree_model(
            *final(tree),
        ) == tree_model(*old(tree)).insert(key@, value@),
{
    match tree.insert(key, value) {
        Ok(_) => Ok(()),
        Err(e) => Err(e.to_string()),
    }
}

/// Relies on sled::Tree::get: returns the value the key holds, if
/// any.
#[verifier::external_body]
pub(crate) fn sled_get(tree: &sled::Tree, key: &[u8]) -> (r: Result<Option<Vec<u8>>, String>)
    ensures
        r matches Ok(o) ==> ((o is Some <==> tree_model(*tree).contains_key(key@)) && (
        o matches Some(v) ==> tree_model(*tree)[key@] == v@)),
{
    match tree.get(key) {
        Ok(Some(v)) => Ok(Some(v.to_vec())),
        Ok(None) => Ok(None),
        Err(e) => Err(e.to_string()),
    }
}

/// Relies on sled::Tree::remove: removes the key from this tree; on
/// failure the removal may or may not have applied.
#[verifier::external_body]
pub(crate) fn sled_remove(tree: &mut sled::Tree, key: &[u8]) -> (r: Result<(), String>)
    ensures
        tree_name_of(*final(tree)) == tree_name_of(*old(tree)),
        r is Ok ==> tree_model(*final(tree)) == tree_model(*old(tree)).remove(key@),
        r is Err ==> tree_model(*final(tree)) == tree_model(*old(tree)) || tree_model(
            *final(tree),
        ) == tree_model(*old(tree)).remove(key@),
{
    match tree.remove(key) {
        Ok(_) => Ok(()),
        Err(e) => Err(e.to_string()),
    }
}

/// Relies on sled::Tree::scan_prefix: returns every key-value pair
/// whose key starts with the prefix, in ascending key order.
#[verifier::external_body]
pub(crate) fn sled_scan_prefix(tree: &sled::Tree, prefix: &[u8]) -> (r: Result<
    Vec<(Vec<u8>, Vec<u8>)>,
    String,
>)
    ensures
        r matches Ok(pairs) ==> {
            &&& forall|i: int|
                0 <= i < pairs@.len() ==> is_prefix_of(prefix@, #[trigger] pairs@[i].0@)
                    && tree_model(*tree).contains_key(pairs@[i].0@) && tree_model(*tree)[pairs@[i].0@]
                    == pairs@[i].1@
            &&& forall|k: Seq<u8>|
                tree_model(*tree).contains_key(k) && is_prefix_of(prefix@, k) ==> exists|i: int|
                    0 <= i < pairs@.len() && (#[trigger] pairs@[i].0)@ == k
            &&& forall|i: int, j: int|
                0 <= i < j < pairs@.len() ==> lex_lt(#[trigger] pairs@[i].0@, #[trigger] pairs@[j].0@)
        },
{
    let mut out: Vec<(Vec<u8>, Vec<u8>)> = Vec::new();
    for item in tree.scan_prefix(prefix) {
        match item {
            Ok((k, v)) => out.push((k.to_vec(), v.to_vec())),
            Err(e) => return Err(e.to_string()),
        }
    }
    Ok(out)
}

/// Relies on sled::Tree::name: the name this tree was opened under.
#[verifier::external_body]
pub(crate) fn sled_tree_name(tree: &sled::Tree) -> (r: Vec<u8>)
    ensures
        r@ == tree_name_of(*tree),
{
    tree.name().to_vec()
}

/// Relies on sled::Tree::flush: blocks until all writes so far are
/// durable on disk.
#[verifier::external_body]
pub(crate) fn sled_flush(tree: &sled::Tree) -> (r: Result<(), String>)
{
    match tree.flush() {
        Ok(_) => Ok(()),
        Err(e) => Err(e.to_string()),
    }
}

/// The field tag the store's format version is stamped under, in
/// the store's own metadata tree.
pub const VERSION_TAG: u8 = 1;

/// The store: the one database the daemon keeps its state in.
pub struct Store {
    db: sled::Db,
}

/// Relies on sled::open: opens (or creates) the database held in a
/// directory.
#[verifier::external_body]
fn sled_open(path: &str) -> (r: Result<sled::Db, String>) {
    match sled::open(path) {
        Ok(db) => Ok(db),
        Err(e) => Err(e.to_string()),
    }
}

/// Relies on sled::Db::open_tree: opens (or creates) the tree with
/// the given name.
#[verifier::external_body]
fn sled_open_tree(db: &sled::Db, name: &[u8]) -> (r: Result<sled::Tree, String>)
    ensures
        r matches Ok(t) ==> tree_name_of(t) == name@,
{
    match db.open_tree(name) {
        Ok(t) => Ok(t),
        Err(e) => Err(e.to_string()),
    }
}

/// Relies on sled::Db::drop_tree: deletes the tree with the given
/// name; returns whether a tree of that name existed.
#[verifier::external_body]
fn sled_drop_tree(db: &sled::Db, name: &[u8]) -> (r: Result<bool, String>) {
    match db.drop_tree(name) {
        Ok(b) => Ok(b),
        Err(e) => Err(e.to_string()),
    }
}

/// Relies on sled::Db::tree_names: the names of the trees the
/// database holds.
#[verifier::external_body]
fn sled_tree_names(db: &sled::Db) -> (r: Vec<Vec<u8>>) {
    let mut out: Vec<Vec<u8>> = Vec::new();
    for n in db.tree_names() {
        out.push(n.to_vec());
    }
    out
}

impl Store {
    /// Opens (or creates) the store held in a directory.
    pub fn open(path: &str) -> (r: Result<Store, crate::errors::BpfmanError>)
        ensures
            r matches Err(e) ==> e is DatabaseError,
    {
        match sled_open(path) {
            Ok(db) => Ok(Store { db }),
            Err(e) => Err(
                crate::errors::BpfmanError::DatabaseError(String::from_str("open store"), e),
            ),
        }
    }

    /// Opens (or creates) the tree with the given name.
    pub fn open_tree(&self, name: &[u8]) -> (r: Result<sled::Tree, crate::errors::BpfmanError>)
        ensures
            r matches Ok(t) ==> tree_name_of(t) == name@,
            r matches Err(e) ==> e is DatabaseError,
    {
        match sled_open_tree(&self.db, name) {
            Ok(t) => Ok(t),
            Err(e) => Err(
                crate::errors::BpfmanError::DatabaseError(String::from_str("open tree"), e),
            ),
        }
    }

    /// Deletes the tree with the given name; returns whether a tree
    /// of that name existed.
    pub fn drop_tree(&self, name: &[u8]) -> (r: Result<bool, crate::errors::BpfmanError>)
        ensures
            r matches Err(e) ==> e is DatabaseError,
    {
        match sled_drop_tree(&self.db, name) {
            Ok(b) => Ok(b),
            Err(e) => Err(
                crate::errors::BpfmanError::DatabaseError(String::from_str("drop tree"), e),
            ),
        }
    }

    /// The names of the trees the store holds.
    pub fn tree_names(&self) -> Vec<Vec<u8>> {
        sled_tree_names(&self.db)
    }

    /// Checks the store's format version on start-up: a fresh store
    /// is stamped with the expected version; a stamped store must
    /// match it, or recovery refuses to start. The verdict on the
    /// value read back is `decide_version`'s, which is exact; this
    /// method only carries the store reads and the stamp around it.
    pub fn check_version(&self, expected: u32) -> (r: Result<(), crate::errors::BpfmanError>)
        ensures
            r matches Err(e) ==> e is DatabaseError,
    {
        let mut name: Vec<u8> = Vec::new();
        name.push(77u8);
        let mut meta = self.open_tree(name.as_slice())?;
        let stored = crate::fields::get_u32_opt(&meta, VERSION_TAG)?;
        let needs_stamp = decide_version(stored, expected)?;
        if needs_stamp {
            crate::fields::put_u32(&mut meta, VERSION_TAG, expected)?;
            match sled_flush(&meta) {
                Ok(_) => Ok(()),
                Err(e) => Err(
                    crate::errors::BpfmanError::DatabaseError(String::from_str("flush"), e),
                ),
            }
        } else {
            Ok(())
        }
    }
}

/// The start-up verdict on a store's recorded format version: the
/// expected version passes, an absent one is to be stamped, and any
/// other refuses to start.
pub fn decide_version(stored: Option<u32>, expected: u32) -> (r: Result<
    bool,
    crate::errors::BpfmanError,
>)
    ensures
        stored == Some(expected) ==> r == Ok::<bool, crate::errors::BpfmanError>(false),
        stored is None ==> r == Ok::<bool, crate::errors::BpfmanError>(true),
        stored matches Some(v) && v != expected ==> (r matches Err(e) && e is DatabaseError),
        r is Ok <==> (stored is None || stored == Some(expected)),
{
    match stored {
        Some(v) => {
            if v == expected {
                Ok(false)
            } else {
                Err(
                    crate::errors::BpfmanError::DatabaseError(
                        String::from_str("version check"),
                        String::from_str("the store was written by another daemon version"),
                    ),
                )
            }
        },
        None => Ok(true),
    }
}

} // verus!
