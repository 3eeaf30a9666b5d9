use ockam_enroll::errcode::{Kind, OckamError, Origin};
use ockam_enroll::ffi::{FfiError, FfiOckamError};

#[test]
fn no_error_sentinel_has_zero_code_and_null_domain() {
    let none = FfiOckamError::none();
    assert_eq!(none.code(), 0);
    assert_eq!(none.domain(), None);
}

#[test]
fn none_differs_from_every_named_domain_value() {
    assert_ne!(FfiOckamError::none(), FfiOckamError::new(0, "OCKAM_FFI"));
}

#[test]
fn new_keeps_code_and_domain() {
    let e = FfiOckamError::new(7, "SOME_DOMAIN");
    assert_eq!(e.code(), 7);
    assert_eq!(e.domain(), Some("SOME_DOMAIN"));
}

#[test]
fn entry_not_found_crosses_the_boundary_as_13004() {
    let foreign: FfiOckamError = FfiError::EntryNotFound.into();
    assert_eq!(foreign.code(), 13004);
    assert_eq!(foreign.domain(), Some("OCKAM_FFI"));
    assert_eq!(foreign, FfiOckamError::new(13004, "OCKAM_FFI"));
}

#[test]
fn variant_becomes_internal_error_with_domain_code() {
    let internal: OckamError = FfiError::InvalidParam.into();
    assert_eq!(internal.code, 13003);
    assert_eq!(internal.domain, "OCKAM_FFI");
    assert_eq!(internal.origin, Origin::Ffi);
    assert_eq!(internal.kind, Kind::Invalid);
    assert_eq!(internal.message, None);
}

#[test]
fn round_trip_preserves_the_code_exactly() {
    let variants = [
        FfiError::NoError,
        FfiError::VaultDoesntSupportPersistence,
        FfiError::ErrorCreatingFilesystemVault,
        FfiError::InvalidParam,
        FfiError::EntryNotFound,
        FfiError::UnknownPublicKeyType,
        FfiError::InvalidString,
        FfiError::BufferTooSmall,
        FfiError::InvalidPublicKey,
        FfiError::VaultNotFound,
        FfiError::OwnershipError,
    ];
    for v in variants {
        let internal: OckamError = v.into();
        let foreign: FfiOckamError = FfiError::from(v).into();
        assert_eq!(foreign.code(), internal.code as i32);
        assert_eq!(foreign.domain(), Some("OCKAM_FFI"));
    }
}

#[test]
fn codes_within_the_domain_never_collide() {
    let variants = [
        FfiError::NoError,
        FfiError::VaultDoesntSupportPersistence,
        FfiError::ErrorCreatingFilesystemVault,
        FfiError::InvalidParam,
        FfiError::EntryNotFound,
        FfiError::UnknownPublicKeyType,
        FfiError::InvalidString,
        FfiError::BufferTooSmall,
        FfiError::InvalidPublicKey,
        FfiError::VaultNotFound,
        FfiError::OwnershipError,
    ];
    let codes: Vec<u32> = variants.iter().map(|v| OckamError::from(*v).code).collect();
    for i in 0..codes.len() {
        for j in 0..codes.len() {
            if i != j {
                assert_ne!(codes[i], codes[j]);
            }
        }
    }
}

#[test]
fn ordinals_are_the_declaration_order() {
    assert_eq!(FfiError::NoError.ordinal(), 0);
    assert_eq!(FfiError::EntryNotFound.ordinal(), 4);
    assert_eq!(FfiError::OwnershipError.ordinal(), 10);
    assert_eq!(FfiError::DOMAIN_CODE, 13_000);
    assert_eq!(FfiError::DOMAIN_NAME, "OCKAM_FFI");
}

#[test]
fn message_errors_carry_their_origin_domain() {
    let e = OckamError::new(Origin::Application, Kind::Invalid, String::from("bad input"));
    assert_eq!(e.origin, Origin::Application);
    assert_eq!(e.kind, Kind::Invalid);
    assert_eq!(e.code, 0);
    assert_eq!(e.domain, "APPLICATION");
    assert_eq!(e.message, Some(String::from("bad input")));
}
