//! Console user profiles and the fixed-layout binary store they are read
//! from.
//!
//! The profile store is a single binary blob: a 16-byte header followed by
//! exactly 8 fixed-size records of 200 bytes each (two 8-byte UUID words, a
//! 16-byte secondary UUID, an 8-byte timestamp, a 32-byte NUL-padded UTF-8
//! username and 128 reserved bytes), 1616 bytes in total. A record whose
//! UUID word pair is all zero is a vacant slot. Decoding works on explicit
//! byte offsets, so the size contract holds by construction.
use vstd::prelude::*;

use crate::error::{ErrorKind, OptimizerError};
use crate::strutil::{dec_str, decimal_string, hex16, hex16_string, utf8_to_string};

verus! {

use vstd::bytes::{spec_u64_from_le_bytes, u64_from_le_bytes};
use vstd::slice::{slice_subrange, slice_to_vec};
use vstd::utf8::{decode_utf8, valid_utf8};

/// Bytes before the first profile record.
pub const PROFILE_HEADER_SIZE: usize = 16;

/// Bytes per record: 8 + 8 (UUID word pair) + 16 (secondary UUID)
/// + 8 (timestamp) + 32 (username) + 128 (reserved).
pub const PROFILE_RECORD_SIZE: usize = 200;

/// Offset of the username buffer within a record.
pub const PROFILE_NAME_OFFSET: usize = 40;

/// Width of the NUL-padded username buffer.
pub const PROFILE_NAME_SIZE: usize = 32;

/// Number of profile slots in every store.
pub const MAX_USERS: usize = 8;

/// Exact size of a readable profile store.
pub const PROFILE_DATA_SIZE: usize = PROFILE_HEADER_SIZE + MAX_USERS * PROFILE_RECORD_SIZE;

/// The identity of one console user profile: a display name and an
/// order-significant pair of 64-bit UUID words. Never constructed with
/// both words zero; that pattern marks a vacant slot in the store.
#[derive(Debug, Clone)]
pub struct UserProfile {
    pub name: String,
    pub uuid0: u64,
    pub uuid1: u64,
}

/// The mathematical value of a [`UserProfile`].
pub struct UserProfileView {
    pub name: Seq<char>,
    pub uuid0: u64,
    pub uuid1: u64,
}

impl View for UserProfile {
    type V = UserProfileView;

    open spec fn view(&self) -> UserProfileView {
        UserProfileView { name: self.name@, uuid0: self.uuid0, uuid1: self.uuid1 }
    }
}

impl PartialEq for UserProfile {
    fn eq(&self, other: &UserProfile) -> bool {
        self.uuid0 == other.uuid0 && self.uuid1 == other.uuid1 && self.name == other.name
    }
}

impl vstd::std_specs::cmp::PartialEqSpecImpl for UserProfile {
    open spec fn obeys_eq_spec() -> bool {
        true
    }

    open spec fn eq_spec(&self, other: &UserProfile) -> bool {
        self@ == other@
    }
}

impl UserProfile {
    /// The profile's directory name under the primary storage root:
    /// both UUID words in uppercase hexadecimal, second word first,
    /// each zero-padded to 16 digits.
    pub fn get_uuid_emu_storage_string(&self) -> (r: String)
        ensures
            r@ == hex16(self.uuid1) + hex16(self.uuid0),
    {
        let mut r = hex16_string(self.uuid1);
        let low = hex16_string(self.uuid0);
        r.append(low.as_str());
        r
    }

    /// An identical profile value, field by field.
    pub fn duplicate(&self) -> (r: UserProfile)
        ensures
            r@ == self@,
    {
        UserProfile { name: self.name.clone(), uuid0: self.uuid0, uuid1: self.uuid1 }
    }

    /// The profile's two successive path segments under the secondary
    /// storage root: the plain decimal renderings of the UUID words.
    pub fn get_uuid_arc_storage_strings(&self) -> (r: (String, String))
        ensures
            r.0@ == dec_str(self.uuid0),
            r.1@ == dec_str(self.uuid1),
    {
        (decimal_string(self.uuid0), decimal_string(self.uuid1))
    }
}

/// The views of a sequence of profiles.
pub open spec fn profile_views(profiles: Seq<UserProfile>) -> Seq<UserProfileView> {
    profiles.map_values(|p: UserProfile| p@)
}

/// The view of an optional profile.
pub open spec fn opt_profile_view(o: Option<UserProfile>) -> Option<UserProfileView> {
    match o {
        Some(p) => Some(p@),
        None => None,
    }
}

/// The 64-bit little-endian word at byte offset `off`.
pub open spec fn le64_at(data: Seq<u8>, off: int) -> u64 {
    spec_u64_from_le_bytes(data.subrange(off, off + 8))
}

/// Byte offset of profile slot `i`.
pub open spec fn slot_offset(i: int) -> int {
    PROFILE_HEADER_SIZE + PROFILE_RECORD_SIZE * i
}

/// First UUID word of slot `i`.
pub open spec fn slot_uuid0(data: Seq<u8>, i: int) -> u64 {
    le64_at(data, slot_offset(i))
}

/// Second UUID word of slot `i`.
pub open spec fn slot_uuid1(data: Seq<u8>, i: int) -> u64 {
    le64_at(data, slot_offset(i) + 8)
}

/// A slot with an all-zero UUID word pair is vacant.
pub open spec fn slot_vacant(data: Seq<u8>, i: int) -> bool {
    slot_uuid0(data, i) == 0 && slot_uuid1(data, i) == 0
}

/// The bytes of `s` before its first NUL, or all of `s` when it has none.
pub open spec fn truncate_at_nul(s: Seq<u8>) -> Seq<u8>
    decreases s.len(),
{
    if s.len() == 0 {
        s
    } else if s[0] == 0 {
        Seq::empty()
    } else {
        seq![s[0]] + truncate_at_nul(s.drop_first())
    }
}

/// The username bytes of slot `i`: the 32-byte buffer up to its first NUL.
pub open spec fn slot_name_bytes(data: Seq<u8>, i: int) -> Seq<u8> {
    truncate_at_nul(
        data.subrange(
            slot_offset(i) + PROFILE_NAME_OFFSET,
            slot_offset(i) + PROFILE_NAME_OFFSET + PROFILE_NAME_SIZE,
        ),
    )
}

/// A slot is decodable when it is vacant or its username bytes are valid
/// UTF-8.
pub open spec fn slot_ok(data: Seq<u8>, i: int) -> bool {
    slot_vacant(data, i) || valid_utf8(slot_name_bytes(data, i))
}

/// The profile identity stored in occupied slot `i`.
pub open spec fn slot_profile(data: Seq<u8>, i: int) -> UserProfileView {
    UserProfileView {
        name: decode_utf8(slot_name_bytes(data, i)),
        uuid0: slot_uuid0(data, i),
        uuid1: slot_uuid1(data, i),
    }
}

/// The profiles of the first `n` slots, in slot order, vacant slots
/// removed.
pub open spec fn profiles_upto(data: Seq<u8>, n: int) -> Seq<UserProfileView>
    decreases n,
{
    if n <= 0 {
        Seq::empty()
    } else if slot_vacant(data, n - 1) {
        profiles_upto(data, n - 1)
    } else {
        profiles_upto(data, n - 1).push(slot_profile(data, n - 1))
    }
}

/// All profiles held in a well-formed store, in slot order.
pub open spec fn parsed_profiles(data: Seq<u8>) -> Seq<UserProfileView> {
    profiles_upto(data, MAX_USERS as int)
}

proof fn lemma_truncate_at_nul_prefix(s: Seq<u8>, j: int)
    requires
        0 <= j <= s.len(),
        forall|i: int| 0 <= i < j ==> s[i] != 0,
        j < s.len() ==> s[j] == 0,
    ensures
        truncate_at_nul(s) == s.subrange(0, j),
    decreases j,
{
    if j == 0 {
        if s.len() == 0 {
            assert(truncate_at_nul(s) =~= s.subrange(0, 0));
        } else {
            assert(truncate_at_nul(s) =~= s.subrange(0, 0));
        }
    } else {
        lemma_truncate_at_nul_prefix(s.drop_first(), j - 1);
        assert(s.subrange(0, j) =~= seq![s[0]] + s.drop_first().subrange(0, j - 1));
    }
}

/// Copies the username buffer up to (not including) its first NUL byte.
fn truncate_name(bytes: &[u8]) -> (r: Vec<u8>)
    ensures
        r@ == truncate_at_nul(bytes@),
{
    let len: usize = bytes.len();
    let mut j: usize = 0;
    while j < len
        invariant
            j <= len,
            len == bytes@.len(),
            forall|i: int| 0 <= i < j ==> bytes@[i] != 0,
        decreases len - j,
    {
        if bytes[j] == 0 {
            proof {
                lemma_truncate_at_nul_prefix(bytes@, j as int);
            }
            return slice_to_vec(slice_subrange(bytes, 0, j));
        }
        j = j + 1;
    }
    proof {
        lemma_truncate_at_nul_prefix(bytes@, len as int);
        assert(bytes@.subrange(0, len as int) =~= bytes@);
    }
    slice_to_vec(slice_subrange(bytes, 0, len))
}

/// The well-known location of the profile store under the primary
/// storage root.
pub fn profiles_data_path(nand_folder: &str) -> (r: String)
    ensures
        r@ == nand_folder@ + "/"@ + "system/save/8000000000000010/su/avators/profiles.dat"@,
{
    crate::strutil::join_path(nand_folder, "system/save/8000000000000010/su/avators/profiles.dat")
}

/// Decodes a profile store blob into the profiles it holds, in slot order
/// with vacant slots removed.
///
/// A blob of any size other than exactly [`PROFILE_DATA_SIZE`] bytes is
/// rejected outright; no partial result is produced. A username that is
/// not valid UTF-8 (up to its first NUL) is likewise a fatal format error.
pub fn parse_user_profiles_save_file(data: &[u8]) -> (r: Result<
    Vec<UserProfile>,
    OptimizerError,
>)
    ensures
        match r {
            Ok(profiles) => {
                &&& data@.len() == PROFILE_DATA_SIZE
                &&& forall|i: int| 0 <= i < MAX_USERS ==> slot_ok(data@, i)
                &&& profile_views(profiles@) == parsed_profiles(data@)
            },
            Err(e) => {
                &&& data@.len() != PROFILE_DATA_SIZE || exists|i: int|
                    0 <= i < MAX_USERS && !slot_ok(data@, i)
                &&& e.kind == ErrorKind::InvalidData
            },
        },
{
    if data.len() != PROFILE_DATA_SIZE {
        return Err(
            OptimizerError::new(ErrorKind::InvalidData, "Profile data has wrong total size"),
        );
    }
    let mut profiles: Vec<UserProfile> = Vec::new();
    let mut slot: usize = 0;
    while slot < MAX_USERS
        invariant
            slot <= MAX_USERS,
            data@.len() == PROFILE_DATA_SIZE,
            forall|i: int| 0 <= i < slot ==> slot_ok(data@, i),
            profile_views(profiles@) == profiles_upto(data@, slot as int),
        decreases MAX_USERS - slot,
    {
        let off: usize = PROFILE_HEADER_SIZE + PROFILE_RECORD_SIZE * slot;
        let uuid0 = u64_from_le_bytes(slice_subrange(data, off, off + 8));
        let uuid1 = u64_from_le_bytes(slice_subrange(data, off + 8, off + 16));
        if uuid0 == 0 && uuid1 == 0 {
            assert(slot_vacant(data@, slot as int));
        } else {
            let name_buffer = slice_subrange(
                data,
                off + PROFILE_NAME_OFFSET,
                off + PROFILE_NAME_OFFSET + PROFILE_NAME_SIZE,
            );
            let name_bytes = truncate_name(name_buffer);
            assert(name_bytes@ == slot_name_bytes(data@, slot as int));
            match utf8_to_string(name_bytes) {
                Some(name) => {
                    let profile = UserProfile { name, uuid0, uuid1 };
                    proof {
                        assert(profile@ == slot_profile(data@, slot as int));
                    }
                    profiles.push(profile);
                    proof {
                        assert(profile_views(profiles@) =~= profiles_upto(
                            data@,
                            slot as int + 1,
                        ));
                    }
                },
                None => {
                    assert(!slot_ok(data@, slot as int));
                    return Err(
                        OptimizerError::new(
                            ErrorKind::InvalidData,
                            "Unable to convert username to utf8",
                        ),
                    );
                },
            }
        }
        slot = slot + 1;
    }
    Ok(profiles)
}

} // verus!
