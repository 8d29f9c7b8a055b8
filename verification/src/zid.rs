use vstd::prelude::*;

verus! {

/// The identifier of a Zenoh session: sixteen bytes, held here as one
/// little-endian 128-bit integer so that it can key a map.
#[derive(Clone, Copy, Debug, PartialEq, Eq, Structural, Hash, PartialOrd, Ord)]
pub struct ZId {
    id: u128,
}

impl ZId {
    /// The identifier whose sixteen bytes, read little-endian, are `id`.
    pub fn new(id: u128) -> (r: Self)
        ensures
            r.value() == id,
    {
        ZId { id }
    }

    pub closed spec fn value(&self) -> u128 {
        self.id
    }

    /// The identifier as an integer (its bytes read little-endian).
    #[verifier::when_used_as_spec(value)]
    pub fn as_u128(&self) -> (r: u128)
        ensures
            r == self.value(),
    {
        self.id
    }
}

/// An error code reported by the Zenoh C library (a negative `z_result_t`).
#[derive(Clone, Copy, Debug, PartialEq, Eq, Structural)]
pub struct ZenohError {
    code: i8,
}

impl ZenohError {
    pub fn new(code: i8) -> (r: Self)
        ensures
            r.spec_code() == code,
    {
        ZenohError { code }
    }

    pub closed spec fn spec_code(&self) -> i8 {
        self.code
    }

    /// The error code.
    #[verifier::when_used_as_spec(spec_code)]
    pub fn code(&self) -> (r: i8)
        ensures
            r == self.spec_code(),
    {
        self.code
    }
}

/// The result of a call into Zenoh.
pub type ZenohResult<T> = Result<T, ZenohError>;

} // verus!
