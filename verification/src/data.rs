//! The program registry's entities: the attributes of every client
//! program, held as typed fields in that program's own store tree.

use vstd::prelude::*;
use vstd::utf8::{decode_utf8, encode_utf8, valid_utf8};

use crate::errors::{BpfmanError, ParseError};
use crate::fields::{
    field_bool, field_bytes, field_i32, field_str, field_u32, field_u32s, field_u64, get_bool_or_false,
    get_bytes, get_bytes_opt, get_i32, get_str, get_str_opt, get_u32, get_u32_opt, get_u32s,
    get_u64, get_u64_opt, put_bool, put_bytes, put_i32, put_str, put_u32, put_u32s, put_u64,
};
use crate::store::{
    is_prefix_of, lex_lt, lemma_lex_lt_ne, sled_get, sled_insert, sled_scan_prefix, tree_model,
    tree_name_of,
};
use crate::types::{
    spec_direction_from_u32, spec_direction_u32, spec_program_type_from_u32, spec_program_type_u32,
    spec_pull_policy_from_i32, spec_pull_policy_i32, Direction, ImagePullPolicy, ProgramType,
};

verus! {

pub const TAG_ID: u8 = 1;

pub const TAG_KIND: u8 = 2;

pub const TAG_NAME: u8 = 3;

pub const TAG_LOCATION_FILENAME: u8 = 4;

pub const TAG_LOCATION_IMAGE_URL: u8 = 5;

pub const TAG_LOCATION_IMAGE_PULL_POLICY: u8 = 6;

pub const TAG_LOCATION_USERNAME: u8 = 7;

pub const TAG_LOCATION_PASSWORD: u8 = 8;

pub const TAG_MAP_OWNER_ID: u8 = 9;

pub const TAG_MAP_PIN_PATH: u8 = 10;

pub const TAG_PROGRAM_BYTES: u8 = 11;

pub const TAG_MAPS_USED_BY: u8 = 12;

pub const PREFIX_METADATA: u8 = 13;

pub const PREFIX_GLOBAL_DATA: u8 = 14;

/// A reference to a bytecode image in a registry, with how and as
/// whom to pull it.
#[derive(Debug, Clone)]
pub struct BytecodeImage {
    pub image_url: String,
    pub image_pull_policy: ImagePullPolicy,
    pub username: Option<String>,
    pub password: Option<String>,
}

impl BytecodeImage {
    /// Builds an image reference; the pull policy arrives in its
    /// integer encoding, which must be one of the known policies.
    pub fn new(
        image_url: String,
        image_pull_policy: i32,
        username: Option<String>,
        password: Option<String>,
    ) -> (r: BytecodeImage)
        requires
            spec_pull_policy_from_i32(image_pull_policy) is Some,
        ensures
            r.image_url == image_url,
            Some(r.image_pull_policy) == spec_pull_policy_from_i32(image_pull_policy),
            r.username == username,
            r.password == password,
    {
        let policy = match ImagePullPolicy::from_i32(image_pull_policy) {
            Ok(p) => p,
            Err(_) => ImagePullPolicy::Always,
        };
        BytecodeImage { image_url, image_pull_policy: policy, username, password }
    }

    /// The image's registry reference.
    pub fn get_url(&self) -> (r: &str)
        ensures
            r@ == self.image_url@,
    {
        self.image_url.as_str()
    }

    /// When the image is pulled.
    pub fn get_pull_policy(&self) -> (r: &ImagePullPolicy)
        ensures
            r == self.image_pull_policy,
    {
        &self.image_pull_policy
    }
}

/// Where a program's bytecode comes from: a local file or an image.
#[derive(Debug, Clone)]
pub enum Location {
    Image(BytecodeImage),
    File(String),
}

/// One program's attributes, held as typed fields in its own store
/// tree.
#[derive(Debug)]
pub struct ProgramData {
    pub(crate) db_tree: sled::Tree,
}

impl ProgramData {
    /// What this program's tree holds.
    pub open(crate) spec fn model(&self) -> Map<Seq<u8>, Seq<u8>> {
        tree_model(self.db_tree)
    }

    /// The name of this program's tree in the store.
    pub open(crate) spec fn spec_tree_name(&self) -> Seq<u8> {
        tree_name_of(self.db_tree)
    }

    /// Wraps an open tree as a program's field store.
    pub fn new_empty(tree: sled::Tree) -> (r: ProgramData)
        ensures
            r.model() == tree_model(tree),
            r.spec_tree_name() == tree_name_of(tree),
    {
        ProgramData { db_tree: tree }
    }

    /// Stores the daemon id.
    pub fn set_id(&mut self, id: u32) -> (r: Result<(), BpfmanError>)
        ensures
            final(self).spec_tree_name() == old(self).spec_tree_name(),
            r is Ok ==> field_u32(final(self).model(), TAG_ID) == Some(id),
            r matches Err(e) ==> e is DatabaseError,
    {
        put_u32(&mut self.db_tree, TAG_ID, id)
    }

    /// The daemon id of this program.
    pub fn get_id(&self) -> (r: Result<u32, BpfmanError>)
        ensures
            r matches Ok(v) ==> field_u32(self.model(), TAG_ID) == Some(v),
            field_u32(self.model(), TAG_ID) is None ==> r is Err,
            r matches Err(e) ==> e is DatabaseError,
    {
        get_u32(&self.db_tree, TAG_ID)
    }

    /// Stores the kind of the program, as its integer encoding. The
    /// kind names the daemon's view of the program; an XDP or TC
    /// program keeps its kind although the kernel reports the
    /// dispatcher-extension type for it.
    pub(crate) fn set_kind(&mut self, kind: ProgramType) -> (r: Result<(), BpfmanError>)
        ensures
            final(self).spec_tree_name() == old(self).spec_tree_name(),
            r is Ok ==> field_u32(final(self).model(), TAG_KIND) == Some(spec_program_type_u32(kind)),
            r matches Err(e) ==> e is DatabaseError,
    {
        put_u32(&mut self.db_tree, TAG_KIND, kind.to_u32())
    }

    /// The kind of the program, if one was stored.
    pub fn get_kind(&self) -> (r: Result<Option<ProgramType>, BpfmanError>)
        ensures
            r matches Ok(Some(p)) ==> field_u32(self.model(), TAG_KIND) matches Some(v)
                && spec_program_type_from_u32(v) == Some(p),
            r matches Ok(o) ==> (o is None ==> field_bytes(self.model(), TAG_KIND) is None),
            r matches Err(e) ==> e is DatabaseError || e is Parse,
    {
        match get_u32_opt(&self.db_tree, TAG_KIND)? {
            None => Ok(None),
            Some(v) => match ProgramType::from_u32(v) {
                Ok(p) => Ok(Some(p)),
                Err(e) => Err(BpfmanError::Parse(e)),
            },
        }
    }

    /// Stores the entry-point symbol name.
    pub(crate) fn set_name(&mut self, name: &str) -> (r: Result<(), BpfmanError>)
        ensures
            final(self).spec_tree_name() == old(self).spec_tree_name(),
            r is Ok ==> field_str(final(self).model(), TAG_NAME) == Some(name@),
            r matches Err(e) ==> e is DatabaseError,
    {
        put_str(&mut self.db_tree, TAG_NAME, name)
    }

    /// The entry-point symbol name.
    pub fn get_name(&self) -> (r: Result<String, BpfmanError>)
        ensures
            r matches Ok(s) ==> field_str(self.model(), TAG_NAME) == Some(s@),
            field_str(self.model(), TAG_NAME) is None ==> r is Err,
            r matches Err(e) ==> e is DatabaseError,
    {
        get_str(&self.db_tree, TAG_NAME)
    }

    /// Stores the map owner id.
    pub(crate) fn set_map_owner_id(&mut self, id: u32) -> (r: Result<(), BpfmanError>)
        ensures
            final(self).spec_tree_name() == old(self).spec_tree_name(),
            r is Ok ==> field_u32(final(self).model(), TAG_MAP_OWNER_ID) == Some(id),
            r matches Err(e) ==> e is DatabaseError,
    {
        put_u32(&mut self.db_tree, TAG_MAP_OWNER_ID, id)
    }

    /// Stores the map owner id, exposing the whole-tree effect.
    pub(crate) fn set_map_owner_id_raw(&mut self, id: u32) -> (r: Result<(), BpfmanError>)
        ensures
            final(self).spec_tree_name() == old(self).spec_tree_name(),
            r is Ok ==> final(self).model() == old(self).model().insert(
                seq![TAG_MAP_OWNER_ID],
                vstd::bytes::spec_u32_to_le_bytes(id),
            ),
            r is Ok ==> field_u32(final(self).model(), TAG_MAP_OWNER_ID) == Some(id),
            r matches Err(e) ==> e is DatabaseError,
    {
        put_u32(&mut self.db_tree, TAG_MAP_OWNER_ID, id)
    }

    /// The id of the program whose maps this program shares, if any.
    pub fn get_map_owner_id(&self) -> (r: Result<Option<u32>, BpfmanError>)
        ensures
            r matches Ok(o) ==> (field_bytes(self.model(), TAG_MAP_OWNER_ID) is Some ==> o
                == field_u32(self.model(), TAG_MAP_OWNER_ID)),
            r matches Ok(o) ==> (field_bytes(self.model(), TAG_MAP_OWNER_ID) is None ==> o is None),
            r matches Err(e) ==> e is DatabaseError,
    {
        get_u32_opt(&self.db_tree, TAG_MAP_OWNER_ID)
    }

    /// Stores the directory this program's maps are pinned under.
    pub(crate) fn set_map_pin_path(&mut self, path: &str) -> (r: Result<(), BpfmanError>)
        ensures
            final(self).spec_tree_name() == old(self).spec_tree_name(),
            r is Ok ==> field_str(final(self).model(), TAG_MAP_PIN_PATH) == Some(path@),
            r matches Err(e) ==> e is DatabaseError,
    {
        put_str(&mut self.db_tree, TAG_MAP_PIN_PATH, path)
    }

    /// The directory this program's maps are pinned under, if set.
    pub fn get_map_pin_path(&self) -> (r: Result<Option<String>, BpfmanError>)
        ensures
            r matches Ok(o) ==> (field_bytes(self.model(), TAG_MAP_PIN_PATH) is Some ==> (
            o matches Some(s) && field_str(self.model(), TAG_MAP_PIN_PATH) == Some(s@))),
            r matches Ok(o) ==> (field_bytes(self.model(), TAG_MAP_PIN_PATH) is None ==> o is None),
            r matches Err(e) ==> e is DatabaseError,
    {
        get_str_opt(&self.db_tree, TAG_MAP_PIN_PATH)
    }

    /// Stores the resolved bytecode.
    pub(crate) fn set_program_bytes_raw(&mut self, bytes: &[u8]) -> (r: Result<(), BpfmanError>)
        ensures
            final(self).spec_tree_name() == old(self).spec_tree_name(),
            r is Ok ==> field_bytes(final(self).model(), TAG_PROGRAM_BYTES) == Some(bytes@),
            r matches Err(e) ==> e is DatabaseError,
    {
        put_bytes(&mut self.db_tree, TAG_PROGRAM_BYTES, bytes)
    }

    /// The resolved bytecode.
    pub fn get_program_bytes(&self) -> (r: Result<Vec<u8>, BpfmanError>)
        ensures
            r matches Ok(v) ==> field_bytes(self.model(), TAG_PROGRAM_BYTES) == Some(v@),
            field_bytes(self.model(), TAG_PROGRAM_BYTES) is None ==> r is Err,
            r matches Err(e) ==> e is DatabaseError,
    {
        get_bytes(&self.db_tree, TAG_PROGRAM_BYTES)
    }

    /// Stores the ordered ids of the programs sharing this program's
    /// maps. Setting the list anew replaces it whole, so the setter
    /// is idempotent.
    pub(crate) fn set_maps_used_by(&mut self, ids: &Vec<u32>) -> (r: Result<(), BpfmanError>)
        ensures
            final(self).spec_tree_name() == old(self).spec_tree_name(),
            r is Ok ==> field_u32s(final(self).model(), TAG_MAPS_USED_BY) == Some(ids@),
            r matches Err(e) ==> e is DatabaseError,
    {
        put_u32s(&mut self.db_tree, TAG_MAPS_USED_BY, ids)
    }

    /// Forgets the ids of the programs sharing this program's maps.
    pub(crate) fn clear_maps_used_by(&mut self) -> (r: Result<(), BpfmanError>)
        ensures
            final(self).spec_tree_name() == old(self).spec_tree_name(),
            r is Ok ==> field_bytes(final(self).model(), TAG_MAPS_USED_BY) is None,
            r matches Err(e) ==> e is DatabaseError,
    {
        let mut key: Vec<u8> = Vec::new();
        key.push(TAG_MAPS_USED_BY);
        proof {
            assert(key@ =~= seq![TAG_MAPS_USED_BY]);
        }
        match crate::store::sled_remove(&mut self.db_tree, key.as_slice()) {
            Ok(_) => Ok(()),
            Err(e) => Err(BpfmanError::DatabaseError(String::from_str("store access"), e)),
        }
    }

    /// The ordered ids of the programs sharing this program's maps.
    pub fn get_maps_used_by(&self) -> (r: Result<Vec<u32>, BpfmanError>)
        ensures
            r matches Ok(v) ==> field_u32s(self.model(), TAG_MAPS_USED_BY) == Some(v@),
            field_u32s(self.model(), TAG_MAPS_USED_BY) is None ==> r is Err,
            r matches Err(e) ==> e is DatabaseError,
    {
        get_u32s(&self.db_tree, TAG_MAPS_USED_BY)
    }
}

pub const TAG_KERNEL_ID: u8 = 50;

pub const TAG_KERNEL_NAME: u8 = 51;

pub const TAG_KERNEL_PROGRAM_TYPE: u8 = 52;

pub const TAG_KERNEL_LOADED_AT: u8 = 53;

pub const TAG_KERNEL_TAG: u8 = 54;

pub const TAG_KERNEL_GPL_COMPATIBLE: u8 = 55;

pub const TAG_KERNEL_BTF_ID: u8 = 56;

pub const TAG_KERNEL_BYTES_XLATED: u8 = 57;

pub const TAG_KERNEL_JITED: u8 = 58;

pub const TAG_KERNEL_BYTES_JITED: u8 = 59;

pub const TAG_KERNEL_BYTES_MEMLOCK: u8 = 60;

pub const TAG_KERNEL_VERIFIED_INSNS: u8 = 61;

/// The key a metadata entry is stored under.
pub open spec fn metadata_key(name: Seq<char>) -> Seq<u8> {
    seq![PREFIX_METADATA] + encode_utf8(name)
}

/// The key a global-data entry is stored under.
pub open spec fn global_data_key(name: Seq<char>) -> Seq<u8> {
    seq![PREFIX_GLOBAL_DATA] + encode_utf8(name)
}

/// Every metadata pair reported really stands in the tree.
pub open spec fn metadata_sound(m: Map<Seq<u8>, Seq<u8>>, pairs: Seq<(Seq<char>, Seq<char>)>) -> bool {
    forall|i: int|
        0 <= i < pairs.len() ==> m.contains_key(metadata_key((#[trigger] pairs[i]).0)) && m[
            metadata_key(pairs[i].0)
        ] == encode_utf8(pairs[i].1)
}

/// Every metadata entry the tree holds is reported.
pub open spec fn metadata_complete(
    m: Map<Seq<u8>, Seq<u8>>,
    pairs: Seq<(Seq<char>, Seq<char>)>,
) -> bool {
    forall|k: Seq<u8>|
        m.contains_key(k) && is_prefix_of(seq![PREFIX_METADATA], k) ==> exists|i: int|
            0 <= i < pairs.len() && metadata_key((#[trigger] pairs[i]).0) == k
}

/// Every global-data pair reported really stands in the tree.
pub open spec fn global_data_sound(
    m: Map<Seq<u8>, Seq<u8>>,
    pairs: Seq<(Seq<char>, Seq<u8>)>,
) -> bool {
    forall|i: int|
        0 <= i < pairs.len() ==> m.contains_key(global_data_key((#[trigger] pairs[i]).0)) && m[
            global_data_key(pairs[i].0)
        ] == pairs[i].1
}

/// Every global-data entry the tree holds is reported.
pub open spec fn global_data_complete(
    m: Map<Seq<u8>, Seq<u8>>,
    pairs: Seq<(Seq<char>, Seq<u8>)>,
) -> bool {
    forall|k: Seq<u8>|
        m.contains_key(k) && is_prefix_of(seq![PREFIX_GLOBAL_DATA], k) ==> exists|i: int|
            0 <= i < pairs.len() && global_data_key((#[trigger] pairs[i]).0) == k
}

/// Whether a key is one of the metadata keys a given list writes.
pub open spec fn is_written_metadata_key(pairs: Seq<(Seq<char>, Seq<char>)>, k: Seq<u8>) -> bool {
    exists|i: int| 0 <= i < pairs.len() && metadata_key((#[trigger] pairs[i]).0) == k
}

/// Whether a key is one of the global-data keys a given list writes.
pub open spec fn is_written_global_data_key(pairs: Seq<(Seq<char>, Seq<u8>)>, k: Seq<u8>) -> bool {
    exists|i: int| 0 <= i < pairs.len() && global_data_key((#[trigger] pairs[i]).0) == k
}

/// The views of a list of string pairs.
pub open spec fn str_pairs_view(v: Seq<(String, String)>) -> Seq<(Seq<char>, Seq<char>)> {
    v.map_values(|p: (String, String)| (p.0@, p.1@))
}

/// The views of a list of string-to-bytes pairs.
pub open spec fn byte_pairs_view(v: Seq<(String, Vec<u8>)>) -> Seq<(Seq<char>, Seq<u8>)> {
    v.map_values(|p: (String, Vec<u8>)| (p.0@, p.1@))
}

/// Stores one value under a prefixed, named key.
fn put_prefixed(tree: &mut sled::Tree, prefix: u8, name: &str, value: &[u8]) -> (r: Result<
    (),
    BpfmanError,
>)
    ensures
        tree_name_of(*final(tree)) == tree_name_of(*old(tree)),
        r is Ok ==> tree_model(*final(tree)) == tree_model(*old(tree)).insert(
            seq![prefix] + encode_utf8(name@),
            value@,
        ),
        r is Err ==> crate::fields::wrote_or_kept(
            tree_model(*old(tree)),
            tree_model(*final(tree)),
            seq![prefix] + encode_utf8(name@),
            value@,
        ),
        r matches Err(e) ==> e is DatabaseError,
{
    let mut key: Vec<u8> = Vec::new();
    key.push(prefix);
    let name_bytes = name.as_bytes();
    key.extend_from_slice(name_bytes);
    proof {
        assert(key@ =~= seq![prefix] + encode_utf8(name@));
    }
    match sled_insert(tree, key.as_slice(), value) {
        Ok(_) => Ok(()),
        Err(e) => Err(BpfmanError::DatabaseError(String::from_str("store access"), e)),
    }
}

impl ProgramData {
    /// Stores the given metadata entries, each under its own key;
    /// entries already stored under other names stay.
    #[verifier::loop_isolation(false)]
    pub(crate) fn set_metadata(&mut self, data: &Vec<(String, String)>) -> (r: Result<
        (),
        BpfmanError,
    >)
        requires
            forall|i: int, j: int|
                0 <= i < j < data@.len() ==> (#[trigger] data@[i]).0@ != (#[trigger] data@[j]).0@,
        ensures
            final(self).spec_tree_name() == old(self).spec_tree_name(),
            r is Ok ==> metadata_sound(final(self).model(), str_pairs_view(data@)),
            r matches Err(e) ==> e is DatabaseError,
            forall|k: Seq<u8>|
                !is_prefix_of(seq![PREFIX_METADATA], k) ==> ((final(self).model().contains_key(k)
                    <==> old(self).model().contains_key(k)) && (old(self).model().contains_key(k)
                    ==> final(self).model()[k] == old(self).model()[k])),
            forall|k: Seq<u8>|
                !is_written_metadata_key(str_pairs_view(data@), k) ==> ((
                final(self).model().contains_key(k) <==> old(self).model().contains_key(k)) && (old(
                    self,
                ).model().contains_key(k) ==> final(self).model()[k] == old(self).model()[k])),
    {
        let mut i: usize = 0;
        while i < data.len()
            invariant
                0 <= i <= data@.len(),
                self.spec_tree_name() == old(self).spec_tree_name(),
                forall|k: Seq<u8>|
                    !is_prefix_of(seq![PREFIX_METADATA], k) ==> ((self.model().contains_key(k)
                        <==> old(self).model().contains_key(k)) && (old(
                        self,
                    ).model().contains_key(k) ==> self.model()[k] == old(self).model()[k])),
                forall|k: Seq<u8>|
                    !is_written_metadata_key(str_pairs_view(data@), k) ==> ((
                    self.model().contains_key(k) <==> old(self).model().contains_key(k)) && (old(
                        self,
                    ).model().contains_key(k) ==> self.model()[k] == old(self).model()[k])),
                forall|j: int|
                    0 <= j < i ==> self.model().contains_key(
                        metadata_key((#[trigger] data@[j]).0@),
                    ) && self.model()[metadata_key(data@[j].0@)] == encode_utf8(data@[j].1@),
            decreases data@.len() - i,
        {
            let pair = &data[i];
            let value = pair.1.as_str().as_bytes();
            proof {
                assert((seq![PREFIX_METADATA] + encode_utf8(data@[i as int].0@)).subrange(0, 1)
                    =~= seq![PREFIX_METADATA]);
                assert(is_prefix_of(
                    seq![PREFIX_METADATA],
                    seq![PREFIX_METADATA] + encode_utf8(data@[i as int].0@),
                ));
                assert(is_written_metadata_key(
                    str_pairs_view(data@),
                    metadata_key(data@[i as int].0@),
                )) by {
                    assert(str_pairs_view(data@)[i as int].0 == data@[i as int].0@);
                }
            }
            put_prefixed(&mut self.db_tree, PREFIX_METADATA, pair.0.as_str(), value)?;
            proof {
                assert forall|j: int| 0 <= j < i + 1 implies self.model().contains_key(
                    metadata_key((#[trigger] data@[j]).0@),
                ) && self.model()[metadata_key(data@[j].0@)] == encode_utf8(data@[j].1@) by {
                    if j < i {
                        lemma_prefixed_keys_injective(data@[j].0@, data@[i as int].0@, PREFIX_METADATA);
                    }
                }
            }
            i = i + 1;
        }
        Ok(())
    }

    /// The stored metadata, one pair per entry, names distinct.
    #[verifier::loop_isolation(false)]
    pub fn get_metadata(&self) -> (r: Result<Vec<(String, String)>, BpfmanError>)
        ensures
            r matches Ok(v) ==> metadata_sound(self.model(), str_pairs_view(v@))
                && metadata_complete(self.model(), str_pairs_view(v@)) && (forall|i: int, j: int|
                0 <= i < j < v@.len() ==> (#[trigger] v@[i]).0@ != (#[trigger] v@[j]).0@),
            r matches Err(e) ==> e is DatabaseError,
    {
        let prefix = prefix_slice(PREFIX_METADATA);
        let scanned = match sled_scan_prefix(&self.db_tree, prefix.as_slice()) {
            Ok(s) => s,
            Err(e) => {
                return Err(BpfmanError::DatabaseError(String::from_str("store access"), e));
            },
        };
        let mut out: Vec<(String, String)> = Vec::new();
        let mut i: usize = 0;
        while i < scanned.len()
            invariant
                0 <= i <= scanned@.len(),
                out@.len() == i,
                forall|j: int|
                    0 <= j < i ==> {
                        &&& valid_utf8((#[trigger] scanned@[j]).0@.skip(1))
                        &&& encode_utf8(out@[j].0@) == scanned@[j].0@.skip(1)
                        &&& encode_utf8(out@[j].1@) == scanned@[j].1@
                    },
            decreases scanned@.len() - i,
        {
            let key = &scanned[i].0;
            proof {
                assert(is_prefix_of(seq![PREFIX_METADATA], scanned@[i as int].0@));
            }
            let suffix = vstd::slice::slice_subrange(key.as_slice(), 1, key.len());
            let name = match crate::fields::string_from_utf8(vstd::slice::slice_to_vec(suffix)) {
                Some(n) => n,
                None => {
                    return Err(
                        BpfmanError::DatabaseError(
                            String::from_str("store access"),
                            String::from_str("metadata name is not valid text"),
                        ),
                    );
                },
            };
            let value = match crate::fields::string_from_utf8(clone_bytes(&scanned[i].1)) {
                Some(v) => v,
                None => {
                    return Err(
                        BpfmanError::DatabaseError(
                            String::from_str("store access"),
                            String::from_str("metadata value is not valid text"),
                        ),
                    );
                },
            };
            proof {
                vstd::utf8::decode_utf8_encode_utf8(scanned@[i as int].0@.skip(1));
                vstd::utf8::decode_utf8_encode_utf8(scanned@[i as int].1@);
            }
            out.push((name, value));
            i = i + 1;
        }
        proof {
            let m = self.model();
            let pairs = str_pairs_view(out@);
            assert forall|j: int| 0 <= j < pairs.len() implies m.contains_key(
                metadata_key((#[trigger] pairs[j]).0),
            ) && m[metadata_key(pairs[j].0)] == encode_utf8(pairs[j].1) by {
                assert(scanned@[j].0@ =~= seq![PREFIX_METADATA] + scanned@[j].0@.skip(1));
                assert(metadata_key(pairs[j].0) == scanned@[j].0@);
            }
            assert forall|k: Seq<u8>|
                m.contains_key(k) && is_prefix_of(seq![PREFIX_METADATA], k) implies exists|j: int|
                0 <= j < pairs.len() && metadata_key((#[trigger] pairs[j]).0) == k by {
                let j = choose|j: int| 0 <= j < scanned@.len() && (#[trigger] scanned@[j].0)@ == k;
                assert(scanned@[j].0@ =~= seq![PREFIX_METADATA] + scanned@[j].0@.skip(1));
                assert(metadata_key(pairs[j].0) == k);
            }
            assert forall|a: int, b: int| 0 <= a < b < out@.len() implies (#[trigger] out@[a]).0@
                != (#[trigger] out@[b]).0@ by {
                lemma_lex_lt_ne(scanned@[a].0@, scanned@[b].0@);
                if out@[a].0@ == out@[b].0@ {
                    assert(scanned@[a].0@ =~= seq![PREFIX_METADATA] + scanned@[a].0@.skip(1));
                    assert(scanned@[b].0@ =~= seq![PREFIX_METADATA] + scanned@[b].0@.skip(1));
                    assert(scanned@[a].0@ == scanned@[b].0@);
                }
            }
        }
        Ok(out)
    }

    /// Stores the given global-data entries, each under its own key.
    #[verifier::loop_isolation(false)]
    pub(crate) fn set_global_data(&mut self, data: &Vec<(String, Vec<u8>)>) -> (r: Result<
        (),
        BpfmanError,
    >)
        requires
            forall|i: int, j: int|
                0 <= i < j < data@.len() ==> (#[trigger] data@[i]).0@ != (#[trigger] data@[j]).0@,
        ensures
            final(self).spec_tree_name() == old(self).spec_tree_name(),
            r is Ok ==> global_data_sound(final(self).model(), byte_pairs_view(data@)),
            r matches Err(e) ==> e is DatabaseError,
            forall|k: Seq<u8>|
                !is_prefix_of(seq![PREFIX_GLOBAL_DATA], k) ==> ((final(self).model().contains_key(k)
                    <==> old(self).model().contains_key(k)) && (old(self).model().contains_key(k)
                    ==> final(self).model()[k] == old(self).model()[k])),
            forall|k: Seq<u8>|
                !is_written_global_data_key(byte_pairs_view(data@), k) ==> ((
                final(self).model().contains_key(k) <==> old(self).model().contains_key(k)) && (old(
                    self,
                ).model().contains_key(k) ==> final(self).model()[k] == old(self).model()[k])),
    {
        let mut i: usize = 0;
        while i < data.len()
            invariant
                0 <= i <= data@.len(),
                self.spec_tree_name() == old(self).spec_tree_name(),
                forall|k: Seq<u8>|
                    !is_prefix_of(seq![PREFIX_GLOBAL_DATA], k) ==> ((self.model().contains_key(k)
                        <==> old(self).model().contains_key(k)) && (old(
                        self,
                    ).model().contains_key(k) ==> self.model()[k] == old(self).model()[k])),
                forall|k: Seq<u8>|
                    !is_written_global_data_key(byte_pairs_view(data@), k) ==> ((
                    self.model().contains_key(k) <==> old(self).model().contains_key(k)) && (old(
                        self,
                    ).model().contains_key(k) ==> self.model()[k] == old(self).model()[k])),
                forall|j: int|
                    0 <= j < i ==> self.model().contains_key(
                        global_data_key((#[trigger] data@[j]).0@),
                    ) && self.model()[global_data_key(data@[j].0@)] == data@[j].1@,
            decreases data@.len() - i,
        {
            let pair = &data[i];
            proof {
                assert((seq![PREFIX_GLOBAL_DATA] + encode_utf8(data@[i as int].0@)).subrange(0, 1)
                    =~= seq![PREFIX_GLOBAL_DATA]);
                assert(is_prefix_of(
                    seq![PREFIX_GLOBAL_DATA],
                    seq![PREFIX_GLOBAL_DATA] + encode_utf8(data@[i as int].0@),
                ));
                assert(is_written_global_data_key(
                    byte_pairs_view(data@),
                    global_data_key(data@[i as int].0@),
                )) by {
                    assert(byte_pairs_view(data@)[i as int].0 == data@[i as int].0@);
                }
            }
            put_prefixed(&mut self.db_tree, PREFIX_GLOBAL_DATA, pair.0.as_str(), pair.1.as_slice())?;
            proof {
                assert forall|j: int| 0 <= j < i + 1 implies self.model().contains_key(
                    global_data_key((#[trigger] data@[j]).0@),
                ) && self.model()[global_data_key(data@[j].0@)] == data@[j].1@ by {
                    if j < i {
                        lemma_prefixed_keys_injective(
                            data@[j].0@,
                            data@[i as int].0@,
                            PREFIX_GLOBAL_DATA,
                        );
                    }
                }
            }
            i = i + 1;
        }
        Ok(())
    }

    /// The stored global data, one pair per entry, names distinct.
    #[verifier::loop_isolation(false)]
    pub fn get_global_data(&self) -> (r: Result<Vec<(String, Vec<u8>)>, BpfmanError>)
        ensures
            r matches Ok(v) ==> global_data_sound(self.model(), byte_pairs_view(v@))
                && global_data_complete(self.model(), byte_pairs_view(v@)) && (forall|
                i: int,
                j: int,
            |
                0 <= i < j < v@.len() ==> (#[trigger] v@[i]).0@ != (#[trigger] v@[j]).0@),
            r matches Err(e) ==> e is DatabaseError,
    {
        let prefix = prefix_slice(PREFIX_GLOBAL_DATA);
        let scanned = match sled_scan_prefix(&self.db_tree, prefix.as_slice()) {
            Ok(s) => s,
            Err(e) => {
                return Err(BpfmanError::DatabaseError(String::from_str("store access"), e));
            },
        };
        let mut out: Vec<(String, Vec<u8>)> = Vec::new();
        let mut i: usize = 0;
        while i < scanned.len()
            invariant
                0 <= i <= scanned@.len(),
                out@.len() == i,
                forall|j: int|
                    0 <= j < i ==> {
                        &&& valid_utf8((#[trigger] scanned@[j]).0@.skip(1))
                        &&& encode_utf8(out@[j].0@) == scanned@[j].0@.skip(1)
                        &&& out@[j].1@ == scanned@[j].1@
                    },
            decreases scanned@.len() - i,
        {
            let key = &scanned[i].0;
            proof {
                assert(is_prefix_of(seq![PREFIX_GLOBAL_DATA], scanned@[i as int].0@));
            }
            let suffix = vstd::slice::slice_subrange(key.as_slice(), 1, key.len());
            let name = match crate::fields::string_from_utf8(vstd::slice::slice_to_vec(suffix)) {
                Some(n) => n,
                None => {
                    return Err(
                        BpfmanError::DatabaseError(
                            String::from_str("store access"),
                            String::from_str("global data name is not valid text"),
                        ),
                    );
                },
            };
            let value = clone_bytes(&scanned[i].1);
            proof {
                vstd::utf8::decode_utf8_encode_utf8(scanned@[i as int].0@.skip(1));
            }
            out.push((name, value));
            i = i + 1;
        }
        proof {
            let m = self.model();
            let pairs = byte_pairs_view(out@);
            assert forall|j: int| 0 <= j < pairs.len() implies m.contains_key(
                global_data_key((#[trigger] pairs[j]).0),
            ) && m[global_data_key(pairs[j].0)] == pairs[j].1 by {
                assert(scanned@[j].0@ =~= seq![PREFIX_GLOBAL_DATA] + scanned@[j].0@.skip(1));
                assert(global_data_key(pairs[j].0) == scanned@[j].0@);
            }
            assert forall|k: Seq<u8>|
                m.contains_key(k) && is_prefix_of(seq![PREFIX_GLOBAL_DATA], k) implies exists|
                j: int,
            | 0 <= j < pairs.len() && global_data_key((#[trigger] pairs[j]).0) == k by {
                let j = choose|j: int| 0 <= j < scanned@.len() && (#[trigger] scanned@[j].0)@ == k;
                assert(scanned@[j].0@ =~= seq![PREFIX_GLOBAL_DATA] + scanned@[j].0@.skip(1));
                assert(global_data_key(pairs[j].0) == k);
            }
            assert forall|a: int, b: int| 0 <= a < b < out@.len() implies (#[trigger] out@[a]).0@
                != (#[trigger] out@[b]).0@ by {
                lemma_lex_lt_ne(scanned@[a].0@, scanned@[b].0@);
                if out@[a].0@ == out@[b].0@ {
                    assert(scanned@[a].0@ =~= seq![PREFIX_GLOBAL_DATA] + scanned@[a].0@.skip(1));
                    assert(scanned@[b].0@ =~= seq![PREFIX_GLOBAL_DATA] + scanned@[b].0@.skip(1));
                    assert(scanned@[a].0@ == scanned@[b].0@);
                }
            }
        }
        Ok(out)
    }
}

/// Distinct names give distinct prefixed keys.
proof fn lemma_prefixed_keys_injective(a: Seq<char>, b: Seq<char>, prefix: u8)
    requires
        a != b,
    ensures
        seq![prefix] + encode_utf8(a) != seq![prefix] + encode_utf8(b),
{
    vstd::utf8::encode_utf8_decode_utf8(a);
    vstd::utf8::encode_utf8_decode_utf8(b);
    if seq![prefix] + encode_utf8(a) == seq![prefix] + encode_utf8(b) {
        assert((seq![prefix] + encode_utf8(a)).skip(1) =~= encode_utf8(a));
        assert((seq![prefix] + encode_utf8(b)).skip(1) =~= encode_utf8(b));
    }
}

/// The one-byte prefix of a named key family.
fn prefix_slice(prefix: u8) -> (r: Vec<u8>)
    ensures
        r@ == seq![prefix],
{
    let mut k: Vec<u8> = Vec::new();
    k.push(prefix);
    proof {
        assert(k@ =~= seq![prefix]);
    }
    k
}

/// Copies a byte vector.
fn clone_bytes(v: &Vec<u8>) -> (r: Vec<u8>)
    ensures
        r@ == v@,
{
    vstd::slice::slice_to_vec(v.as_slice())
}

/// Distinct tag bytes give distinct one-byte keys.
proof fn lemma_tag_keys_distinct(a: u8, b: u8)
    requires
        a != b,
    ensures
        seq![a] != seq![b],
{
    assert(seq![a][0] == a);
    assert(seq![b][0] == b);
}

/// A one-byte key does not lie under another prefix byte.
proof fn lemma_tag_not_under_prefix(t: u8, p: u8)
    requires
        t != p,
    ensures
        !is_prefix_of(seq![p], seq![t]),
{
    if is_prefix_of(seq![p], seq![t]) {
        assert(seq![t].subrange(0, 1) =~= seq![t]);
        assert(seq![t][0] == t);
        assert(seq![p][0] == p);
    }
}

/// A key under one prefix byte does not lie under another.
proof fn lemma_prefixed_not_under_other(p1: u8, p2: u8, n: Seq<char>)
    requires
        p1 != p2,
    ensures
        !is_prefix_of(seq![p2], seq![p1] + encode_utf8(n)),
{
    if is_prefix_of(seq![p2], seq![p1] + encode_utf8(n)) {
        assert((seq![p1] + encode_utf8(n)).subrange(0, 1)[0] == p1);
        assert(seq![p2][0] == p2);
    }
}

/// A one-byte key differs from every key under another prefix.
proof fn lemma_tag_ne_prefixed(t: u8, p: u8, n: Seq<char>)
    requires
        t != p,
    ensures
        seq![t] != seq![p] + encode_utf8(n),
{
    assert(seq![t][0] == t);
    assert((seq![p] + encode_utf8(n))[0] == p);
}

impl ProgramData {
    /// Stores where the program's bytecode comes from: the file path,
    /// or the image reference with its pull policy and credentials.
    pub(crate) fn set_location(&mut self, loc: &Location) -> (r: Result<(), BpfmanError>)
        ensures
            final(self).spec_tree_name() == old(self).spec_tree_name(),
            r is Ok ==> match loc {
                Location::File(p) => final(self).model() == old(self).model().insert(
                    seq![TAG_LOCATION_FILENAME],
                    encode_utf8(p@),
                ) && field_str(final(self).model(), TAG_LOCATION_FILENAME) == Some(p@),
                Location::Image(img) => {
                    &&& field_str(final(self).model(), TAG_LOCATION_IMAGE_URL) == Some(
                        img.image_url@,
                    )
                    &&& field_i32(final(self).model(), TAG_LOCATION_IMAGE_PULL_POLICY) == Some(
                        spec_pull_policy_i32(img.image_pull_policy),
                    )
                    &&& (img.username matches Some(u) ==> field_str(
                        final(self).model(),
                        TAG_LOCATION_USERNAME,
                    ) == Some(u@))
                    &&& (img.password matches Some(pw) ==> field_str(
                        final(self).model(),
                        TAG_LOCATION_PASSWORD,
                    ) == Some(pw@))
                    &&& crate::fields::tag_kept(
                        old(self).model(),
                        final(self).model(),
                        TAG_LOCATION_FILENAME,
                    )
                    &&& (img.username is None ==> crate::fields::tag_kept(
                        old(self).model(),
                        final(self).model(),
                        TAG_LOCATION_USERNAME,
                    ))
                    &&& (img.password is None ==> crate::fields::tag_kept(
                        old(self).model(),
                        final(self).model(),
                        TAG_LOCATION_PASSWORD,
                    ))
                },
            },
            forall|k: Seq<u8>|
                (k != seq![TAG_LOCATION_FILENAME] && k != seq![TAG_LOCATION_IMAGE_URL] && k
                    != seq![TAG_LOCATION_IMAGE_PULL_POLICY] && k != seq![TAG_LOCATION_USERNAME] && k
                    != seq![TAG_LOCATION_PASSWORD]) ==> ((final(self).model().contains_key(k)
                    <==> old(self).model().contains_key(k)) && (old(self).model().contains_key(k)
                    ==> final(self).model()[k] == old(self).model()[k])),
            r matches Err(e) ==> e is DatabaseError,
    {
        match loc {
            Location::File(p) => {
                put_str(&mut self.db_tree, TAG_LOCATION_FILENAME, p.as_str())
            },
            Location::Image(img) => {
                put_str(&mut self.db_tree, TAG_LOCATION_IMAGE_URL, img.image_url.as_str())?;
                put_i32(
                    &mut self.db_tree,
                    TAG_LOCATION_IMAGE_PULL_POLICY,
                    img.image_pull_policy.to_i32(),
                )?;
                proof {
                    lemma_tag_keys_distinct(TAG_LOCATION_IMAGE_URL, TAG_LOCATION_IMAGE_PULL_POLICY);
                    lemma_tag_keys_distinct(TAG_LOCATION_FILENAME, TAG_LOCATION_IMAGE_URL);
                    lemma_tag_keys_distinct(TAG_LOCATION_FILENAME, TAG_LOCATION_IMAGE_PULL_POLICY);
                    lemma_tag_keys_distinct(TAG_LOCATION_FILENAME, TAG_LOCATION_USERNAME);
                    lemma_tag_keys_distinct(TAG_LOCATION_FILENAME, TAG_LOCATION_PASSWORD);
                    lemma_tag_keys_distinct(TAG_LOCATION_USERNAME, TAG_LOCATION_IMAGE_URL);
                    lemma_tag_keys_distinct(TAG_LOCATION_USERNAME, TAG_LOCATION_IMAGE_PULL_POLICY);
                    lemma_tag_keys_distinct(TAG_LOCATION_PASSWORD, TAG_LOCATION_IMAGE_URL);
                    lemma_tag_keys_distinct(TAG_LOCATION_PASSWORD, TAG_LOCATION_IMAGE_PULL_POLICY);
                    lemma_tag_keys_distinct(TAG_LOCATION_USERNAME, TAG_LOCATION_PASSWORD);
                }
                match &img.username {
                    Some(u) => {
                        put_str(&mut self.db_tree, TAG_LOCATION_USERNAME, u.as_str())?;
                        proof {
                            lemma_tag_keys_distinct(TAG_LOCATION_IMAGE_URL, TAG_LOCATION_USERNAME);
                            lemma_tag_keys_distinct(
                                TAG_LOCATION_IMAGE_PULL_POLICY,
                                TAG_LOCATION_USERNAME,
                            );
                        }
                    },
                    None => {},
                }
                match &img.password {
                    Some(pw) => {
                        put_str(&mut self.db_tree, TAG_LOCATION_PASSWORD, pw.as_str())?;
                        proof {
                            lemma_tag_keys_distinct(TAG_LOCATION_IMAGE_URL, TAG_LOCATION_PASSWORD);
                            lemma_tag_keys_distinct(
                                TAG_LOCATION_IMAGE_PULL_POLICY,
                                TAG_LOCATION_PASSWORD,
                            );
                            lemma_tag_keys_distinct(TAG_LOCATION_USERNAME, TAG_LOCATION_PASSWORD);
                        }
                    },
                    None => {},
                }
                Ok(())
            },
        }
    }

    /// Where the program's bytecode comes from. A stored file path
    /// wins; otherwise the image fields are read, and the stored
    /// pull policy must decode.
    pub fn get_location(&self) -> (r: Result<Location, BpfmanError>)
        ensures
            r matches Ok(l) ==> match l {
                Location::File(p) => field_str(self.model(), TAG_LOCATION_FILENAME) == Some(p@),
                Location::Image(img) => {
                    &&& field_bytes(self.model(), TAG_LOCATION_FILENAME) is None
                    &&& field_str(self.model(), TAG_LOCATION_IMAGE_URL) == Some(img.image_url@)
                    &&& (field_i32(self.model(), TAG_LOCATION_IMAGE_PULL_POLICY) matches Some(v)
                        && spec_pull_policy_from_i32(v) == Some(img.image_pull_policy))
                    &&& (field_bytes(self.model(), TAG_LOCATION_USERNAME) is Some ==> (
                    img.username matches Some(u) && field_str(self.model(), TAG_LOCATION_USERNAME)
                        == Some(u@)))
                    &&& (field_bytes(self.model(), TAG_LOCATION_USERNAME) is None
                        ==> img.username is None)
                    &&& (field_bytes(self.model(), TAG_LOCATION_PASSWORD) is Some ==> (
                    img.password matches Some(pw) && field_str(self.model(), TAG_LOCATION_PASSWORD)
                        == Some(pw@)))
                    &&& (field_bytes(self.model(), TAG_LOCATION_PASSWORD) is None
                        ==> img.password is None)
                },
            },
            r matches Ok(l) ==> (field_bytes(self.model(), TAG_LOCATION_FILENAME) is Some ==> l
                is File),
            field_bytes(self.model(), TAG_LOCATION_FILENAME) is None && field_str(
                self.model(),
                TAG_LOCATION_IMAGE_URL,
            ) is None ==> r is Err,
            r matches Err(e) ==> e is DatabaseError || e is Parse,
    {
        match get_str_opt(&self.db_tree, TAG_LOCATION_FILENAME)? {
            Some(p) => Ok(Location::File(p)),
            None => {
                let url = get_str(&self.db_tree, TAG_LOCATION_IMAGE_URL)?;
                let policy_int = get_i32(&self.db_tree, TAG_LOCATION_IMAGE_PULL_POLICY)?;
                let policy = match ImagePullPolicy::from_i32(policy_int) {
                    Ok(p) => p,
                    Err(e) => {
                        return Err(BpfmanError::Parse(e));
                    },
                };
                let username = get_str_opt(&self.db_tree, TAG_LOCATION_USERNAME)?;
                let password = get_str_opt(&self.db_tree, TAG_LOCATION_PASSWORD)?;
                Ok(
                    Location::Image(
                        BytecodeImage { image_url: url, image_pull_policy: policy, username, password },
                    ),
                )
            },
        }
    }
}

/// What the kernel reports of a loaded program: its kernel id, the
/// kernel-side program type, and the sizes and counters read back
/// after the load. These fields are written once, after the load,
/// and never mutated thereafter.
#[derive(Debug, Clone)]
pub struct KernelProgramData {
    pub id: u32,
    pub bpfman_prog_id: u32,
    pub name: String,
    pub program_type: u32,
    pub loaded_at: String,
    pub tag: String,
    pub gpl_compatible: bool,
    pub btf_id: Option<u32>,
    pub bytes_xlated: u32,
    pub jited: bool,
    pub bytes_jited: u32,
    pub bytes_memlock: u32,
    pub verified_insns: u32,
}

impl ProgramData {
    /// Stores what the kernel reported after the program was loaded.
    pub fn set_kernel_info(&mut self, info: &KernelProgramData) -> (r: Result<
        (),
        BpfmanError,
    >)
        ensures
            final(self).spec_tree_name() == old(self).spec_tree_name(),
            r is Ok ==> field_u32(final(self).model(), TAG_KERNEL_ID) == Some(info.id),
            r is Ok ==> field_u32(final(self).model(), TAG_KERNEL_PROGRAM_TYPE) == Some(
                info.program_type,
            ),
            r is Ok ==> field_str(final(self).model(), TAG_KERNEL_NAME) == Some(info.name@),
            r is Ok ==> field_str(final(self).model(), TAG_KERNEL_LOADED_AT) == Some(
                info.loaded_at@,
            ),
            r is Ok ==> field_str(final(self).model(), TAG_KERNEL_TAG) == Some(info.tag@),
            r is Ok ==> field_bool(final(self).model(), TAG_KERNEL_GPL_COMPATIBLE) == Some(
                info.gpl_compatible,
            ),
            r is Ok ==> (info.btf_id matches Some(b) ==> field_u32(
                final(self).model(),
                TAG_KERNEL_BTF_ID,
            ) == Some(b)),
            r is Ok ==> field_u32(final(self).model(), TAG_KERNEL_BYTES_XLATED) == Some(
                info.bytes_xlated,
            ),
            r is Ok ==> field_bool(final(self).model(), TAG_KERNEL_JITED) == Some(info.jited),
            r is Ok ==> field_u32(final(self).model(), TAG_KERNEL_BYTES_JITED) == Some(
                info.bytes_jited,
            ),
            r is Ok ==> field_u32(final(self).model(), TAG_KERNEL_BYTES_MEMLOCK) == Some(
                info.bytes_memlock,
            ),
            r is Ok ==> field_u32(final(self).model(), TAG_KERNEL_VERIFIED_INSNS) == Some(
                info.verified_insns,
            ),
            r matches Err(e) ==> e is DatabaseError,
    {
        put_u32(&mut self.db_tree, TAG_KERNEL_ID, info.id)?;
        put_str(&mut self.db_tree, TAG_KERNEL_NAME, info.name.as_str())?;
        put_u32(&mut self.db_tree, TAG_KERNEL_PROGRAM_TYPE, info.program_type)?;
        put_str(&mut self.db_tree, TAG_KERNEL_LOADED_AT, info.loaded_at.as_str())?;
        put_str(&mut self.db_tree, TAG_KERNEL_TAG, info.tag.as_str())?;
        put_bool(&mut self.db_tree, TAG_KERNEL_GPL_COMPATIBLE, info.gpl_compatible)?;
        match info.btf_id {
            Some(b) => {
                put_u32(&mut self.db_tree, TAG_KERNEL_BTF_ID, b)?;
            },
            None => {},
        }
        put_u32(&mut self.db_tree, TAG_KERNEL_BYTES_XLATED, info.bytes_xlated)?;
        put_bool(&mut self.db_tree, TAG_KERNEL_JITED, info.jited)?;
        put_u32(&mut self.db_tree, TAG_KERNEL_BYTES_JITED, info.bytes_jited)?;
        put_u32(&mut self.db_tree, TAG_KERNEL_BYTES_MEMLOCK, info.bytes_memlock)?;
        put_u32(&mut self.db_tree, TAG_KERNEL_VERIFIED_INSNS, info.verified_insns)?;
        proof {
            assert(seq![TAG_KERNEL_ID][0] == TAG_KERNEL_ID);
            assert(seq![TAG_KERNEL_NAME][0] == TAG_KERNEL_NAME);
            assert(seq![TAG_KERNEL_PROGRAM_TYPE][0] == TAG_KERNEL_PROGRAM_TYPE);
            assert(seq![TAG_KERNEL_LOADED_AT][0] == TAG_KERNEL_LOADED_AT);
            assert(seq![TAG_KERNEL_TAG][0] == TAG_KERNEL_TAG);
            assert(seq![TAG_KERNEL_GPL_COMPATIBLE][0] == TAG_KERNEL_GPL_COMPATIBLE);
            assert(seq![TAG_KERNEL_BTF_ID][0] == TAG_KERNEL_BTF_ID);
            assert(seq![TAG_KERNEL_BYTES_XLATED][0] == TAG_KERNEL_BYTES_XLATED);
            assert(seq![TAG_KERNEL_JITED][0] == TAG_KERNEL_JITED);
            assert(seq![TAG_KERNEL_BYTES_JITED][0] == TAG_KERNEL_BYTES_JITED);
            assert(seq![TAG_KERNEL_BYTES_MEMLOCK][0] == TAG_KERNEL_BYTES_MEMLOCK);
            assert(seq![TAG_KERNEL_VERIFIED_INSNS][0] == TAG_KERNEL_VERIFIED_INSNS);
        }
        Ok(())
    }

    /// The kernel-side program type recorded after the load.
    pub fn get_kernel_program_type(&self) -> (r: Result<u32, BpfmanError>)
        ensures
            r matches Ok(v) ==> field_u32(self.model(), TAG_KERNEL_PROGRAM_TYPE) == Some(v),
            field_u32(self.model(), TAG_KERNEL_PROGRAM_TYPE) is None ==> r is Err,
            r matches Err(e) ==> e is DatabaseError,
    {
        get_u32(&self.db_tree, TAG_KERNEL_PROGRAM_TYPE)
    }

    /// The kernel id recorded after the load.
    pub fn get_kernel_id(&self) -> (r: Result<u32, BpfmanError>)
        ensures
            r matches Ok(v) ==> field_u32(self.model(), TAG_KERNEL_ID) == Some(v),
            field_u32(self.model(), TAG_KERNEL_ID) is None ==> r is Err,
            r matches Err(e) ==> e is DatabaseError,
    {
        get_u32(&self.db_tree, TAG_KERNEL_ID)
    }
}

impl ProgramData {
    /// Checks that a program whose maps are to be shared may own
    /// them: an owner must not itself share another program's maps —
    /// sharing chains of depth beyond one are rejected — and hands
    /// back the owner's map directory, which the sharing program
    /// reuses verbatim.
    pub fn check_map_owner(owner: &ProgramData) -> (r: Result<Option<String>, BpfmanError>)
        ensures
            r is Ok ==> field_u32(owner.model(), TAG_MAP_OWNER_ID) is None,
            field_bytes(owner.model(), TAG_MAP_OWNER_ID) is Some && field_u32(
                owner.model(),
                TAG_MAP_OWNER_ID,
            ) is Some ==> r is Err,
            r matches Ok(o) ==> (field_bytes(owner.model(), TAG_MAP_PIN_PATH) is Some ==> (
            o matches Some(p) && field_str(owner.model(), TAG_MAP_PIN_PATH) == Some(p@))),
            r matches Ok(o) ==> (field_bytes(owner.model(), TAG_MAP_PIN_PATH) is None ==> o
                is None),
    {
        match owner.get_map_owner_id()? {
            Some(_) => Err(
                BpfmanError::Error(
                    String::from_str("maps may only be shared from a program that owns them"),
                ),
            ),
            None => owner.get_map_pin_path(),
        }
    }
}

/// The store-tree name of the program with an id.
pub open spec fn spec_program_tree_name(id: u32) -> Seq<u8> {
    seq![80u8] + vstd::bytes::spec_u32_to_le_bytes(id)
}

/// Builds the store-tree name of the program with an id.
pub fn program_tree_name(id: u32) -> (r: Vec<u8>)
    ensures
        r@ == spec_program_tree_name(id),
{
    let mut name: Vec<u8> = Vec::new();
    name.push(80u8);
    let mut idb = vstd::bytes::u32_to_le_bytes(id);
    name.append(&mut idb);
    proof {
        assert(name@ =~= spec_program_tree_name(id));
    }
    name
}

/// Relies on rand::random: draws a value; nothing is known of which.
pub assume_specification<T>[ rand::random::<T> ]() -> (r: T)
    where
        rand::distributions::Standard: rand::distributions::Distribution<T>,
;

/// Opens a fresh program tree under a fresh random id: ids are
/// 16-bit random values, re-drawn while the store already holds a
/// tree of that id. Ids are never reused while their tree exists.
pub fn create_program_tree(store: &crate::store::Store) -> (r: Result<
    (sled::Tree, u32),
    BpfmanError,
>)
    ensures
        r matches Ok(p) ==> tree_name_of(p.0) == spec_program_tree_name(p.1),
{
    let mut attempts: usize = 0;
    while attempts < 64
        invariant
            0 <= attempts <= 64,
        decreases 64 - attempts,
    {
        let candidate: u16 = rand::random();
        let id: u32 = candidate as u32;
        let name = program_tree_name(id);
        let names = store.tree_names();
        let mut taken = false;
        let mut i: usize = 0;
        while i < names.len()
            invariant
                0 <= i <= names@.len(),
            decreases names@.len() - i,
        {
            if crate::strutil::bytes_eq(names[i].as_slice(), name.as_slice()) {
                taken = true;
            }
            i = i + 1;
        }
        if !taken {
            let tree = store.open_tree(name.as_slice())?;
            return Ok((tree, id));
        }
        attempts = attempts + 1;
    }
    Err(BpfmanError::Error(String::from_str("no fresh program id after many draws")))
}

impl ProgramData {
    /// Builds a program's attributes in the given tree: the name,
    /// the bytecode location, the metadata and global data, and the
    /// map owner when one is given. Metadata and global-data names
    /// must be distinct, as a map's keys are.
    pub fn new(
        tree: sled::Tree,
        location: &Location,
        name: &str,
        metadata: &Vec<(String, String)>,
        global_data: &Vec<(String, Vec<u8>)>,
        map_owner_id: Option<u32>,
    ) -> (r: Result<ProgramData, BpfmanError>)
        requires
            forall|i: int, j: int|
                0 <= i < j < metadata@.len() ==> (#[trigger] metadata@[i]).0@ != (
                #[trigger] metadata@[j]).0@,
            forall|i: int, j: int|
                0 <= i < j < global_data@.len() ==> (#[trigger] global_data@[i]).0@ != (
                #[trigger] global_data@[j]).0@,
        ensures
            name@.len() == 0 ==> r is Err,
            r matches Ok(pd) ==> {
                &&& name@.len() > 0
                &&& pd.spec_tree_name() == tree_name_of(tree)
                &&& field_str(pd.model(), TAG_NAME) == Some(name@)
                &&& match location {
                    Location::File(p) => field_str(pd.model(), TAG_LOCATION_FILENAME) == Some(p@),
                    Location::Image(img) => field_str(pd.model(), TAG_LOCATION_IMAGE_URL) == Some(
                        img.image_url@,
                    ),
                }
                &&& metadata_sound(pd.model(), str_pairs_view(metadata@))
                &&& global_data_sound(pd.model(), byte_pairs_view(global_data@))
                &&& (map_owner_id matches Some(id) ==> field_u32(pd.model(), TAG_MAP_OWNER_ID)
                    == Some(id))
            },
            r matches Err(e) ==> e is DatabaseError || (e is Error && name@.len() == 0),
    {
        if name.is_empty() {
            return Err(
                BpfmanError::Error(String::from_str("a program's name must not be empty")),
            );
        }
        let mut pd = ProgramData { db_tree: tree };
        pd.set_name(name)?;
        pd.set_location(location)?;
        proof {
            lemma_tag_keys_distinct(TAG_NAME, TAG_LOCATION_FILENAME);
            lemma_tag_keys_distinct(TAG_NAME, TAG_LOCATION_IMAGE_URL);
            lemma_tag_keys_distinct(TAG_NAME, TAG_LOCATION_IMAGE_PULL_POLICY);
            lemma_tag_keys_distinct(TAG_NAME, TAG_LOCATION_USERNAME);
            lemma_tag_keys_distinct(TAG_NAME, TAG_LOCATION_PASSWORD);
        }
        pd.set_metadata(metadata)?;
        proof {
            lemma_tag_not_under_prefix(TAG_NAME, PREFIX_METADATA);
            lemma_tag_not_under_prefix(TAG_LOCATION_FILENAME, PREFIX_METADATA);
            lemma_tag_not_under_prefix(TAG_LOCATION_IMAGE_URL, PREFIX_METADATA);
        }
        pd.set_global_data(global_data)?;
        proof {
            lemma_tag_not_under_prefix(TAG_NAME, PREFIX_GLOBAL_DATA);
            lemma_tag_not_under_prefix(TAG_LOCATION_FILENAME, PREFIX_GLOBAL_DATA);
            lemma_tag_not_under_prefix(TAG_LOCATION_IMAGE_URL, PREFIX_GLOBAL_DATA);
            assert forall|i: int| 0 <= i < str_pairs_view(metadata@).len() implies
                pd.model().contains_key(
                    metadata_key((#[trigger] str_pairs_view(metadata@)[i]).0),
                ) && pd.model()[metadata_key(str_pairs_view(metadata@)[i].0)] == encode_utf8(
                    str_pairs_view(metadata@)[i].1,
                ) by {
                lemma_prefixed_not_under_other(
                    PREFIX_METADATA,
                    PREFIX_GLOBAL_DATA,
                    str_pairs_view(metadata@)[i].0,
                );
            }
        }
        match map_owner_id {
            Some(id) => {
                let ghost before = pd.model();
                pd.set_map_owner_id_raw(id)?;
                proof {
                    lemma_tag_keys_distinct(TAG_MAP_OWNER_ID, TAG_NAME);
                    lemma_tag_keys_distinct(TAG_MAP_OWNER_ID, TAG_LOCATION_FILENAME);
                    lemma_tag_keys_distinct(TAG_MAP_OWNER_ID, TAG_LOCATION_IMAGE_URL);
                    assert forall|i: int| 0 <= i < str_pairs_view(metadata@).len() implies
                        pd.model().contains_key(
                            metadata_key((#[trigger] str_pairs_view(metadata@)[i]).0),
                        ) && pd.model()[metadata_key(str_pairs_view(metadata@)[i].0)]
                        == encode_utf8(str_pairs_view(metadata@)[i].1) by {
                        lemma_tag_ne_prefixed(
                            TAG_MAP_OWNER_ID,
                            PREFIX_METADATA,
                            str_pairs_view(metadata@)[i].0,
                        );
                    }
                    assert forall|i: int| 0 <= i < byte_pairs_view(global_data@).len() implies
                        pd.model().contains_key(
                            global_data_key((#[trigger] byte_pairs_view(global_data@)[i]).0),
                        ) && pd.model()[global_data_key(byte_pairs_view(global_data@)[i].0)]
                        == byte_pairs_view(global_data@)[i].1 by {
                        lemma_tag_ne_prefixed(
                            TAG_MAP_OWNER_ID,
                            PREFIX_GLOBAL_DATA,
                            byte_pairs_view(global_data@)[i].0,
                        );
                    }
                }
            },
            None => {},
        }
        Ok(pd)
    }

    /// Copies every field of this program into the tree of the same
    /// name in the given store, and reads from that tree from then
    /// on: how a program built in a scratch store becomes durable.
    #[verifier::loop_isolation(false)]
    pub fn load(&mut self, root_db: &crate::store::Store) -> (r: Result<(), BpfmanError>)
        ensures
            r is Ok ==> final(self).spec_tree_name() == old(self).spec_tree_name(),
            r is Ok ==> forall|k: Seq<u8>|
                old(self).model().contains_key(k) ==> (#[trigger] final(self).model().contains_key(
                    k,
                )) && final(self).model()[k] == old(self).model()[k],
            r matches Err(e) ==> e is DatabaseError,
    {
        let name = crate::store::sled_tree_name(&self.db_tree);
        let dest = root_db.open_tree(name.as_slice())?;
        let copied = copy_tree_entries(&self.db_tree, dest)?;
        self.db_tree = copied;
        match crate::store::sled_flush(&self.db_tree) {
            Ok(_) => Ok(()),
            Err(e) => Err(BpfmanError::DatabaseError(String::from_str("flush"), e)),
        }
    }

    /// Copies every field of this program into the tree of a new id,
    /// stores that id as the program's own, drops the old tree, and
    /// reads from the new tree from then on: how a program under a
    /// scratch name moves to its final, id-named tree on commit.
    #[verifier::loop_isolation(false)]
    pub fn swap_tree(&mut self, root_db: &crate::store::Store, new_id: u32) -> (r: Result<
        (),
        BpfmanError,
    >)
        ensures
            r is Ok ==> final(self).spec_tree_name() == spec_program_tree_name(new_id),
            r is Ok ==> field_u32(final(self).model(), TAG_ID) == Some(new_id),
            r is Ok ==> forall|k: Seq<u8>|
                old(self).model().contains_key(k) && k != seq![TAG_ID] ==> (
                #[trigger] final(self).model().contains_key(k)) && final(self).model()[k] == old(
                    self,
                ).model()[k],
            r matches Err(e) ==> e is DatabaseError,
    {
        let name = program_tree_name(new_id);
        let old_name = crate::store::sled_tree_name(&self.db_tree);
        if crate::strutil::bytes_eq(old_name.as_slice(), name.as_slice()) {
            put_u32(&mut self.db_tree, TAG_ID, new_id)?;
            return Ok(());
        }
        let dest = root_db.open_tree(name.as_slice())?;
        let copied = copy_tree_entries(&self.db_tree, dest)?;
        self.db_tree = copied;
        put_u32(&mut self.db_tree, TAG_ID, new_id)?;
        match crate::store::sled_flush(&self.db_tree) {
            Ok(_) => {},
            Err(e) => {
                return Err(BpfmanError::DatabaseError(String::from_str("flush"), e));
            },
        }
        root_db.drop_tree(old_name.as_slice())?;
        Ok(())
    }
}

/// Copies every entry of one tree into another; entries the
/// destination held under other keys stay.
#[verifier::loop_isolation(false)]
fn copy_tree_entries(src: &sled::Tree, dest: sled::Tree) -> (r: Result<sled::Tree, BpfmanError>)
    ensures
        r matches Ok(t) ==> tree_name_of(t) == tree_name_of(dest),
        r matches Ok(t) ==> forall|k: Seq<u8>|
            tree_model(*src).contains_key(k) ==> (#[trigger] tree_model(t).contains_key(k))
                && tree_model(t)[k] == tree_model(*src)[k],
        r matches Err(e) ==> e is DatabaseError,
{
    let empty_prefix: Vec<u8> = Vec::new();
    let scanned = match sled_scan_prefix(src, empty_prefix.as_slice()) {
        Ok(s) => s,
        Err(e) => {
            return Err(BpfmanError::DatabaseError(String::from_str("store access"), e));
        },
    };
    let ghost dest0 = dest;
    let mut dest = dest;
    let mut i: usize = 0;
    while i < scanned.len()
        invariant
            0 <= i <= scanned@.len(),
            tree_name_of(dest) == tree_name_of(dest0),
            forall|j: int|
                0 <= j < i ==> tree_model(dest).contains_key((#[trigger] scanned@[j]).0@)
                    && tree_model(dest)[scanned@[j].0@] == scanned@[j].1@,
        decreases scanned@.len() - i,
    {
        let pair = &scanned[i];
        match sled_insert(&mut dest, pair.0.as_slice(), pair.1.as_slice()) {
            Ok(_) => {},
            Err(e) => {
                return Err(BpfmanError::DatabaseError(String::from_str("store access"), e));
            },
        }
        proof {
            assert forall|j: int| 0 <= j < i + 1 implies tree_model(dest).contains_key(
                (#[trigger] scanned@[j]).0@,
            ) && tree_model(dest)[scanned@[j].0@] == scanned@[j].1@ by {
                if j < i {
                    lemma_lex_lt_ne(scanned@[j].0@, scanned@[i as int].0@);
                }
            }
        }
        i = i + 1;
    }
    proof {
        assert forall|k: Seq<u8>| tree_model(*src).contains_key(k) implies (#[trigger] tree_model(
            dest,
        ).contains_key(k)) && tree_model(dest)[k] == tree_model(*src)[k] by {
            assert(is_prefix_of(empty_prefix@, k)) by {
                assert(k.subrange(0, 0) =~= empty_prefix@);
            }
            let j = choose|j: int| 0 <= j < scanned@.len() && (#[trigger] scanned@[j].0)@ == k;
            assert(tree_model(dest).contains_key(scanned@[j].0@));
        }
    }
    Ok(dest)
}

} // verus!
