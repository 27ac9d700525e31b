//! Fixed-size identifiers for accounts, token classes and roles.

use core::array::TryFromSliceError;
use vstd::prelude::*;
use vstd::std_specs::cmp::PartialEqSpecImpl;

verus! {

/// Amount of tokens of one class held by one account.
pub type Balance = u128;

/// The error of the standard conversion from a slice to an array.  It says
/// that the slice had the wrong length and holds nothing else to read.
#[verifier::external_type_specification]
#[verifier::external_body]
pub struct ExTryFromSliceError(TryFromSliceError);

/// The sixteen lower-case hexadecimal digits, in order of value.
pub open spec fn hex_digits() -> Seq<char> {
    seq!['0', '1', '2', '3', '4', '5', '6', '7', '8', '9', 'a', 'b', 'c', 'd', 'e', 'f']
}

/// Lower-case hexadecimal text of `bytes`: two digits per byte, high nibble first.
pub open spec fn hex_encoding(bytes: Seq<u8>) -> Seq<char> {
    Seq::new(
        2 * bytes.len(),
        |i: int|
            if i % 2 == 0 {
                hex_digits()[bytes[i / 2] as int / 16]
            } else {
                hex_digits()[bytes[i / 2] as int % 16]
            },
    )
}

/// Calls `hex::encode`, which writes each byte as two digits taken from the
/// table `0123456789abcdef`: first the one for the upper four bits, then the
/// one for the lower four.
#[verifier::external_body]
fn hex_encode(bytes: &[u8; 32]) -> (text: String)
    ensures
        text@ == hex_encoding(bytes@),
{
    hex::encode(bytes)
}

/// Calls the standard conversion from a slice to an array of 32 bytes, which
/// succeeds exactly when the slice has 32 elements and then copies them.
#[verifier::external_body]
fn array_from_slice(bytes: &[u8]) -> (converted: Result<[u8; 32], TryFromSliceError>)
    ensures
        converted is Ok <==> bytes@.len() == 32,
        converted matches Ok(array) ==> array@ == bytes@,
{
    <[u8; 32]>::try_from(bytes)
}

/// Byte-wise comparison of two 32-byte identifiers.
pub fn bytes_equal(a: &[u8; 32], b: &[u8; 32]) -> (same: bool)
    ensures
        same == (*a == *b),
{
    let mut i: usize = 0;
    while i < 32
        invariant
            i <= 32,
            forall|k: int| 0 <= k < i ==> a@[k] == b@[k],
        decreases 32 - i,
    {
        if a[i] != b[i] {
            return false;
        }
        i += 1;
    }
    assert(*a =~= *b);
    true
}

/// Identifier of an account: 32 opaque bytes.
#[derive(Clone, Copy, Debug, Eq, Hash, PartialOrd, Ord)]
pub struct AccountId(pub [u8; 32]);

impl PartialEq for AccountId {
    fn eq(&self, other: &AccountId) -> (same: bool) {
        bytes_equal(&self.0, &other.0)
    }
}

impl PartialEqSpecImpl for AccountId {
    open spec fn obeys_eq_spec() -> bool {
        true
    }

    open spec fn eq_spec(&self, other: &AccountId) -> bool {
        *self == *other
    }
}

impl Default for AccountId {
    fn default() -> (id: AccountId)
        ensures
            id.0@ == Seq::new(32, |i: int| 0u8),
    {
        AccountId([0u8; 32])
    }
}

impl AccountId {
    /// Wraps the given 32 bytes.
    pub fn new(data: [u8; 32]) -> (id: AccountId)
        ensures
            id == AccountId(data),
    {
        AccountId(data)
    }
}

/// Identifier of a token class: 32 opaque bytes.
#[derive(Clone, Copy, Debug, Eq, Hash, PartialOrd, Ord)]
pub struct TokenId(pub [u8; 32]);

impl PartialEq for TokenId {
    fn eq(&self, other: &TokenId) -> (same: bool) {
        bytes_equal(&self.0, &other.0)
    }
}

impl PartialEqSpecImpl for TokenId {
    open spec fn obeys_eq_spec() -> bool {
        true
    }

    open spec fn eq_spec(&self, other: &TokenId) -> bool {
        *self == *other
    }
}

impl Default for TokenId {
    fn default() -> (id: TokenId)
        ensures
            id.0@ == Seq::new(32, |i: int| 0u8),
    {
        TokenId([0u8; 32])
    }
}

impl TokenId {
    /// Wraps the given 32 bytes.
    pub fn new(data: [u8; 32]) -> (id: TokenId)
        ensures
            id == TokenId(data),
    {
        TokenId(data)
    }

    /// Reads an identifier from a slice, which must hold exactly 32 bytes.
    pub fn try_from(bytes: &[u8]) -> (parsed: Result<TokenId, TryFromSliceError>)
        ensures
            parsed is Ok <==> bytes@.len() == 32,
            parsed matches Ok(id) ==> id.0@ == bytes@,
    {
        match array_from_slice(bytes) {
            Ok(data) => Ok(TokenId(data)),
            Err(e) => Err(e),
        }
    }

    /// The identifier as 64 lower-case hexadecimal digits.
    pub fn to_string(&self) -> (text: String)
        ensures
            text@ == hex_encoding(self.0@),
    {
        hex_encode(&self.0)
    }
}

/// Identifier of an access-control role: 32 opaque bytes.
#[derive(Clone, Copy, Debug, Eq, Hash, PartialOrd, Ord)]
pub struct RoleId(pub [u8; 32]);

impl PartialEq for RoleId {
    fn eq(&self, other: &RoleId) -> (same: bool) {
        bytes_equal(&self.0, &other.0)
    }
}

impl PartialEqSpecImpl for RoleId {
    open spec fn obeys_eq_spec() -> bool {
        true
    }

    open spec fn eq_spec(&self, other: &RoleId) -> bool {
        *self == *other
    }
}

impl Default for RoleId {
    fn default() -> (id: RoleId)
        ensures
            id.0@ == Seq::new(32, |i: int| 0u8),
    {
        RoleId([0u8; 32])
    }
}

impl RoleId {
    /// Reads an identifier from a slice, which must hold exactly 32 bytes.
    pub fn try_from(bytes: &[u8]) -> (parsed: Result<RoleId, TryFromSliceError>)
        ensures
            parsed is Ok <==> bytes@.len() == 32,
            parsed matches Ok(id) ==> id.0@ == bytes@,
    {
        match array_from_slice(bytes) {
            Ok(data) => Ok(RoleId(data)),
            Err(e) => Err(e),
        }
    }
}

} // verus!
