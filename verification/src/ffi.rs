//! The error-domain registry for the foreign-function boundary: a closed
//! enumeration of variants, each mapped to a disjoint numeric code, and a
//! fixed-layout value that carries an error across the boundary without
//! owning any memory.

use vstd::prelude::*;

use crate::errcode::{Kind, OckamError, Origin};

verus! {

/// Error type relating to FFI specific failures.
///
/// This is the foreign-safe fixed-layout value: a numeric code and a
/// reference to a static, process-lifetime domain name. An absent domain
/// models the null domain reference; together with a zero code it denotes
/// "no error".
#[derive(Debug, PartialEq)]
pub struct FfiOckamError {
    code: i32,
    domain: Option<&'static str>,
}

impl FfiOckamError {
    /// A null domain reference occurs only on the no-error sentinel.
    #[verifier::type_invariant]
    pub closed spec fn wf(self) -> bool {
        self.domain is None ==> self.code == 0
    }

    /// The numeric code of the value.
    pub closed spec fn spec_code(self) -> i32 {
        self.code
    }

    /// The domain reference of the value; `None` models null.
    pub closed spec fn spec_domain(self) -> Option<&'static str> {
        self.domain
    }

    /// Create a new error.
    pub fn new(code: i32, domain: &'static str) -> (r: Self)
        ensures
            r.spec_code() == code,
            r.spec_domain() == Some(domain),
    {
        FfiOckamError { code, domain: Some(domain) }
    }

    /// No error.
    pub fn none() -> (r: Self)
        ensures
            r.spec_code() == 0,
            r.spec_domain() is None,
    {
        FfiOckamError { code: 0, domain: None }
    }

    /// The numeric code of the value.
    pub fn code(&self) -> (r: i32)
        ensures
            r == self.spec_code(),
    {
        self.code
    }

    /// The domain reference of the value; `None` models null.
    pub fn domain(&self) -> (r: Option<&'static str>)
        ensures
            r == self.spec_domain(),
    {
        self.domain
    }
}

impl From<OckamError> for FfiOckamError {
    /// The numeric code is taken verbatim, and the domain reference borrows
    /// the error's static domain string.
    fn from(err: OckamError) -> (r: Self) {
        FfiOckamError::new(err.code as i32, err.domain)
    }
}

impl vstd::std_specs::convert::FromSpecImpl<OckamError> for FfiOckamError {
    open spec fn obeys_from_spec() -> bool {
        true
    }

    closed spec fn from_spec(err: OckamError) -> Self {
        FfiOckamError { code: err.code as i32, domain: Some(err.domain) }
    }
}

/// Represents the failures that can occur in an Ockam FFI Vault.
#[derive(Clone, Copy, Debug)]
pub enum FfiError {
    /// No error.
    NoError,

    /// Persistence is not supported for this Vault implementation.
    VaultDoesntSupportPersistence,

    /// An underlying filesystem error prevented Vault creation.
    ErrorCreatingFilesystemVault,

    /// Invalid parameter.
    InvalidParam,

    /// Entry not found.
    EntryNotFound,

    /// Unknown public key type.
    UnknownPublicKeyType,

    /// Invalid string.
    InvalidString,

    /// Buffer is too small.
    BufferTooSmall,

    /// A public key is invalid.
    InvalidPublicKey,

    /// No such Vault.
    VaultNotFound,

    /// Ownership error.
    OwnershipError,
}

impl FfiError {
    /// Integer code associated with the error domain.
    pub const DOMAIN_CODE: u32 = 13_000;

    /// Descriptive name for the error domain.
    pub const DOMAIN_NAME: &'static str = "OCKAM_FFI";

    /// The stable position of a variant within the closed enumeration.
    pub open spec fn spec_ordinal(self) -> u32 {
        match self {
            FfiError::NoError => 0,
            FfiError::VaultDoesntSupportPersistence => 1,
            FfiError::ErrorCreatingFilesystemVault => 2,
            FfiError::InvalidParam => 3,
            FfiError::EntryNotFound => 4,
            FfiError::UnknownPublicKeyType => 5,
            FfiError::InvalidString => 6,
            FfiError::BufferTooSmall => 7,
            FfiError::InvalidPublicKey => 8,
            FfiError::VaultNotFound => 9,
            FfiError::OwnershipError => 10,
        }
    }

    /// The stable position of a variant within the closed enumeration.
    pub fn ordinal(&self) -> (r: u32)
        ensures
            r == self.spec_ordinal(),
    {
        match self {
            FfiError::NoError => 0,
            FfiError::VaultDoesntSupportPersistence => 1,
            FfiError::ErrorCreatingFilesystemVault => 2,
            FfiError::InvalidParam => 3,
            FfiError::EntryNotFound => 4,
            FfiError::UnknownPublicKeyType => 5,
            FfiError::InvalidString => 6,
            FfiError::BufferTooSmall => 7,
            FfiError::InvalidPublicKey => 8,
            FfiError::VaultNotFound => 9,
            FfiError::OwnershipError => 10,
        }
    }

    /// The category a variant falls under in the shared taxonomy.
    pub open spec fn spec_kind(self) -> Kind {
        match self {
            FfiError::NoError => Kind::UnknownForeignCode,
            FfiError::VaultDoesntSupportPersistence => Kind::Unsupported,
            FfiError::ErrorCreatingFilesystemVault => Kind::UnknownForeignCode,
            FfiError::InvalidParam => Kind::Invalid,
            FfiError::EntryNotFound => Kind::NotFound,
            FfiError::UnknownPublicKeyType => Kind::Unsupported,
            FfiError::InvalidString => Kind::Invalid,
            FfiError::BufferTooSmall => Kind::Invalid,
            FfiError::InvalidPublicKey => Kind::Invalid,
            FfiError::VaultNotFound => Kind::NotFound,
            FfiError::OwnershipError => Kind::OwnershipViolation,
        }
    }

    /// The category a variant falls under in the shared taxonomy.
    pub fn kind(&self) -> (r: Kind)
        ensures
            r == self.spec_kind(),
    {
        match self {
            FfiError::NoError => Kind::UnknownForeignCode,
            FfiError::VaultDoesntSupportPersistence => Kind::Unsupported,
            FfiError::ErrorCreatingFilesystemVault => Kind::UnknownForeignCode,
            FfiError::InvalidParam => Kind::Invalid,
            FfiError::EntryNotFound => Kind::NotFound,
            FfiError::UnknownPublicKeyType => Kind::Unsupported,
            FfiError::InvalidString => Kind::Invalid,
            FfiError::BufferTooSmall => Kind::Invalid,
            FfiError::InvalidPublicKey => Kind::Invalid,
            FfiError::VaultNotFound => Kind::NotFound,
            FfiError::OwnershipError => Kind::OwnershipViolation,
        }
    }
}

/// The disjoint numeric code a variant maps to: the domain's reserved base
/// plus the variant's ordinal.
pub open spec fn spec_code_of(e: FfiError) -> int {
    FfiError::DOMAIN_CODE + e.spec_ordinal()
}

impl From<FfiError> for OckamError {
    /// A variant maps to the internal error whose code is the domain base
    /// plus the variant's ordinal, under the domain's static name.
    fn from(err: FfiError) -> (r: Self) {
        proof {
            assert(err.spec_ordinal() <= 10);
        }
        let code: u32 = FfiError::DOMAIN_CODE + err.ordinal();
        OckamError {
            origin: Origin::Ffi,
            kind: err.kind(),
            code,
            domain: FfiError::DOMAIN_NAME,
            message: None,
        }
    }
}

impl vstd::std_specs::convert::FromSpecImpl<FfiError> for OckamError {
    open spec fn obeys_from_spec() -> bool {
        true
    }

    open spec fn from_spec(err: FfiError) -> Self {
        OckamError {
            origin: Origin::Ffi,
            kind: err.spec_kind(),
            code: spec_code_of(err) as u32,
            domain: FfiError::DOMAIN_NAME,
            message: None,
        }
    }
}

impl From<FfiError> for FfiOckamError {
    /// A variant crosses the boundary by first becoming the internal error.
    fn from(err: FfiError) -> (r: Self) {
        let err: OckamError = OckamError::from(err);
        Self::from(err)
    }
}

impl vstd::std_specs::convert::FromSpecImpl<FfiError> for FfiOckamError {
    open spec fn obeys_from_spec() -> bool {
        true
    }

    closed spec fn from_spec(err: FfiError) -> Self {
        <FfiOckamError as vstd::std_specs::convert::FromSpec<OckamError>>::from_spec(
            <OckamError as vstd::std_specs::convert::FromSpec<FfiError>>::from_spec(err),
        )
    }
}

/// Within one domain, distinct ordinals are mapped to distinct codes: the
/// code assignment never collides.
pub proof fn lemma_codes_disjoint(a: FfiError, b: FfiError)
    ensures
        a.spec_ordinal() != b.spec_ordinal() ==> spec_code_of(a) != spec_code_of(b),
{
}

/// The no-error sentinel is the only foreign-safe value whose domain
/// reference is null: any value with a null domain has code zero, and so is
/// the sentinel itself.
pub fn null_domain_is_no_error(e: &FfiOckamError)
    ensures
        e.spec_domain() is None ==> e.spec_code() == 0,
{
    proof {
        use_type_invariant(e);
    }
}

/// Crossing the boundary from any internal error: the numeric code is taken
/// verbatim into the fixed 32-bit signed layout, and the domain reference
/// borrows the error's own static domain string. For a code within the
/// signed range — as every reserved domain block is — the cast loses
/// nothing, and the code crosses the boundary exactly.
pub proof fn lemma_foreign_value_takes_code_verbatim(err: OckamError)
    ensures
        ({
            let foreign =
                <FfiOckamError as vstd::std_specs::convert::FromSpec<OckamError>>::from_spec(err);
            &&& foreign.spec_code() == err.code as i32
            &&& foreign.spec_domain() == Some(err.domain)
            &&& (err.code <= i32::MAX as u32 ==> foreign.spec_code() as u32 == err.code)
        }),
{
}

/// A variant crosses the boundary exactly as its internal error does: the
/// direct conversion is the two conversions composed.
pub proof fn lemma_variant_crosses_via_internal_error(e: FfiError)
    ensures
        <FfiOckamError as vstd::std_specs::convert::FromSpec<FfiError>>::from_spec(e)
            == <FfiOckamError as vstd::std_specs::convert::FromSpec<OckamError>>::from_spec(
            <OckamError as vstd::std_specs::convert::FromSpec<FfiError>>::from_spec(e),
        ),
{
}

/// Round trip: converting a variant to the internal error and then to the
/// foreign-safe value preserves the numeric code exactly, and the resulting
/// domain reference reads back as the registry's own static domain name.
pub proof fn lemma_round_trip_preserves_code(e: FfiError)
    ensures
        ({
            let internal = <OckamError as vstd::std_specs::convert::FromSpec<FfiError>>::from_spec(e);
            let foreign =
                <FfiOckamError as vstd::std_specs::convert::FromSpec<OckamError>>::from_spec(internal);
            &&& foreign.spec_code() == spec_code_of(e)
            &&& (foreign.spec_domain() matches Some(d) && d@ == FfiError::DOMAIN_NAME@)
        }),
{
}

} // verus!
