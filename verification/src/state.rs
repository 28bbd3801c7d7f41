//! The state that the host persists for the plugin: a version tag of four
//! bytes, little-endian, followed by that version's fields.

use vstd::prelude::*;

verus! {

/// The persisted state, one variant for each version of its layout. A new
/// version gets a new variant; an existing one never changes shape.
#[derive(Debug, Clone, Copy, PartialEq, Eq, Structural)]
pub enum SaveState {
    Ver0 {  },
}

/// Why a blob could not be read as a saved state.
#[derive(Debug, Clone, Copy, PartialEq, Eq, Structural)]
pub enum LoadError {
    /// The blob ends before the version tag does.
    Truncated,
    /// The tag names a version that this plugin does not know.
    UnknownVersion(u32),
}

/// What `bincode` reports when it cannot encode or decode.
#[verifier::external_type_specification]
#[verifier::external_body]
pub struct ExErrorKind(bincode::ErrorKind);

/// The four bytes of a tag, least significant first.
pub open spec fn tag_bytes(tag: u32) -> Seq<u8> {
    seq![
        (tag % 0x100) as u8,
        (tag / 0x100 % 0x100) as u8,
        (tag / 0x1_0000 % 0x100) as u8,
        (tag / 0x100_0000) as u8,
    ]
}

/// The tag that the first four bytes of a blob spell, least significant
/// first.
pub open spec fn tag_of(bytes: Seq<u8>) -> int
    recommends
        bytes.len() >= 4,
{
    bytes[0] + bytes[1] * 0x100 + bytes[2] * 0x1_0000 + bytes[3] * 0x100_0000
}

/// The version tag of a state.
pub open spec fn version_of(state: SaveState) -> u32 {
    match state {
        SaveState::Ver0 {  } => 0,
    }
}

/// The blob that a state is saved as.
pub open spec fn saved(state: SaveState) -> Seq<u8> {
    tag_bytes(version_of(state))
}

/// What a blob loads as: the state whose tag it starts with, whatever
/// follows the state; an error if it is too short for a tag or the tag is
/// not a known version.
pub open spec fn loaded(bytes: Seq<u8>) -> Result<SaveState, LoadError> {
    if bytes.len() < 4 {
        Err(LoadError::Truncated)
    } else if tag_of(bytes) == 0 {
        Ok(SaveState::Ver0 {  })
    } else {
        Err(LoadError::UnknownVersion(tag_of(bytes) as u32))
    }
}

/// `bincode::serialize` on a `u32`: with the fixed-width little-endian
/// integers that this entry point uses, always the four bytes of the value,
/// least significant first.
#[verifier::external_body]
fn encode_tag(tag: u32) -> (encoded: Result<Vec<u8>, Box<bincode::ErrorKind>>)
    ensures
        encoded is Ok,
        encoded.unwrap()@ == tag_bytes(tag),
{
    bincode::serialize(&tag)
}

/// `bincode::deserialize` to a `u32`: succeeds exactly on four bytes or
/// more, with the value that the first four spell, least significant first;
/// bytes after them are ignored.
#[verifier::external_body]
fn decode_tag(bytes: &[u8]) -> (decoded: Result<u32, Box<bincode::ErrorKind>>)
    ensures
        decoded is Ok <==> bytes@.len() >= 4,
        decoded is Ok ==> decoded.unwrap() == tag_of(bytes@),
{
    bincode::deserialize::<u32>(bytes)
}

/// The blob to persist for `state`.
pub fn save_state(state: SaveState) -> (bytes: Vec<u8>)
    ensures
        bytes@ == saved(state),
{
    let tag: u32 = match state {
        SaveState::Ver0 {  } => 0,
    };
    encode_tag(tag).unwrap()
}

/// Reads a persisted blob. Never fails otherwise than by returning an
/// error: a blob of any bytes is either a known state or a `LoadError`.
pub fn load_state(bytes: &[u8]) -> (state: Result<SaveState, LoadError>)
    ensures
        state == loaded(bytes@),
{
    match decode_tag(bytes) {
        Ok(tag) => {
            if tag == 0 {
                Ok(SaveState::Ver0 {  })
            } else {
                Err(LoadError::UnknownVersion(tag))
            }
        },
        Err(_) => Err(LoadError::Truncated),
    }
}

/// A tag is read back from its four bytes, whatever follows them.
pub proof fn lemma_tag_round_trip(tag: u32, rest: Seq<u8>)
    ensures
        tag_bytes(tag).len() == 4,
        tag_of(tag_bytes(tag) + rest) == tag,
{
    let b = tag_bytes(tag) + rest;
    assert(b[0] == tag_bytes(tag)[0]);
    assert(b[1] == tag_bytes(tag)[1]);
    assert(b[2] == tag_bytes(tag)[2]);
    assert(b[3] == tag_bytes(tag)[3]);
    assert(tag / 0x100_0000 < 0x100);
}

/// Saving a state and loading the blob gives the state back, also when
/// other bytes follow the blob.
pub proof fn lemma_save_then_load(state: SaveState, rest: Seq<u8>)
    ensures
        loaded(saved(state)) == Ok::<SaveState, LoadError>(state),
        loaded(saved(state) + rest) == Ok::<SaveState, LoadError>(state),
{
    lemma_tag_round_trip(version_of(state), Seq::empty());
    lemma_tag_round_trip(version_of(state), rest);
    assert(saved(state) + Seq::<u8>::empty() =~= saved(state));
}

/// Loading is total, and it succeeds exactly on the blobs of at least four
/// bytes whose first four are zero.
pub proof fn lemma_load_decides(bytes: Seq<u8>)
    ensures
        loaded(bytes) is Ok <==> bytes.len() >= 4 && bytes[0] == 0 && bytes[1] == 0 && bytes[2]
            == 0 && bytes[3] == 0,
        loaded(bytes) is Ok ==> saved(loaded(bytes).unwrap()) == bytes.subrange(0, 4),
{
    if loaded(bytes) is Ok {
        assert(saved(loaded(bytes).unwrap()) =~= bytes.subrange(0, 4));
    }
}

} // verus!
