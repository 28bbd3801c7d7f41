use serde::ser::SerializeStructVariant;
use template_plugin::state::load_state;
use template_plugin::state::save_state;
use template_plugin::state::LoadError;
use template_plugin::SaveState;

/// The state as a derived serialiser writes it: variant 0, named `Ver0`,
/// without fields.
struct DerivedLayout;

impl serde::Serialize for DerivedLayout {
    fn serialize<S: serde::Serializer>(&self, serializer: S) -> Result<S::Ok, S::Error> {
        let variant = serializer.serialize_struct_variant("SaveState", 0, "Ver0", 0)?;
        variant.end()
    }
}

#[test]
fn ver0_is_saved_as_four_zero_bytes() {
    assert_eq!(save_state(SaveState::Ver0 {}), vec![0u8, 0, 0, 0]);
}

#[test]
fn saved_blob_is_what_a_derived_serialiser_writes() {
    let derived = bincode::serialize(&DerivedLayout).unwrap();
    assert_eq!(save_state(SaveState::Ver0 {}), derived);
}

#[test]
fn save_then_load_gives_the_state_back() {
    let state = SaveState::Ver0 {};
    let bytes = save_state(state);
    assert_eq!(load_state(&bytes), Ok(state));
}

#[test]
fn load_ignores_what_follows_the_state() {
    let mut bytes = save_state(SaveState::Ver0 {});
    bytes.extend_from_slice(&[0xde, 0xad, 0xbe, 0xef]);
    assert_eq!(load_state(&bytes), Ok(SaveState::Ver0 {}));
}

#[test]
fn load_of_a_short_blob_is_truncated() {
    assert_eq!(load_state(&[]), Err(LoadError::Truncated));
    assert_eq!(load_state(&[0]), Err(LoadError::Truncated));
    assert_eq!(load_state(&[0, 0]), Err(LoadError::Truncated));
    assert_eq!(load_state(&[0, 0, 0]), Err(LoadError::Truncated));
}

#[test]
fn load_of_another_tag_is_an_unknown_version() {
    assert_eq!(load_state(&[1, 0, 0, 0]), Err(LoadError::UnknownVersion(1)));
    assert_eq!(load_state(&[0, 1, 0, 0]), Err(LoadError::UnknownVersion(0x100)));
    assert_eq!(load_state(&[0, 0, 1, 0]), Err(LoadError::UnknownVersion(0x1_0000)));
    assert_eq!(load_state(&[0, 0, 0, 1]), Err(LoadError::UnknownVersion(0x100_0000)));
    assert_eq!(
        load_state(&[0xff, 0xff, 0xff, 0xff, 0]),
        Err(LoadError::UnknownVersion(u32::MAX))
    );
    assert_eq!(
        load_state(&[0x78, 0x56, 0x34, 0x12]),
        Err(LoadError::UnknownVersion(0x1234_5678))
    );
}

#[test]
fn load_of_corrupt_bytes_is_an_error_not_a_crash() {
    let mut seed: u32 = 0x2545_f491;
    for len in 0usize..64 {
        let mut bytes = Vec::new();
        for _ in 0..len {
            seed = seed.wrapping_mul(1_664_525).wrapping_add(1_013_904_223);
            bytes.push((seed >> 24) as u8);
        }
        let zero_tag = len >= 4 && bytes[..4] == [0, 0, 0, 0];
        assert_eq!(load_state(&bytes).is_ok(), zero_tag);
    }
}
