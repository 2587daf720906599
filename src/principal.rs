use ic_cdk::export::Principal as IcPrincipal;
use vstd::prelude::*;

verus! {

/// The longest principal that the platform accepts, in bytes.
pub const MAX_PRINCIPAL_BYTES: usize = 29;

/// The textual form of a principal (checksum, base32, grouped in dashes).
pub uninterp spec fn principal_text(bytes: Seq<u8>) -> Seq<char>;

/// Relies on `Principal::management_canister` and `Principal::as_slice`: the
/// management canister is the principal of no bytes.
#[verifier::external_body]
fn management_bytes() -> (r: Vec<u8>)
    ensures
        r@.len() == 0,
{
    IcPrincipal::management_canister().as_slice().to_vec()
}

/// Relies on `Principal::try_from_slice`: it accepts exactly the slices of at
/// most 29 bytes.
#[verifier::external_body]
fn fits_principal(bytes: &Vec<u8>) -> (r: bool)
    ensures
        r == (bytes@.len() <= MAX_PRINCIPAL_BYTES),
{
    IcPrincipal::try_from_slice(bytes.as_slice()).is_ok()
}

/// Relies on `Principal::from_slice` (which panics above 29 bytes) and
/// `Principal::to_text`: the text depends on the bytes alone.
#[verifier::external_body]
fn text_of(bytes: &Vec<u8>) -> (r: String)
    requires
        bytes@.len() <= MAX_PRINCIPAL_BYTES,
    ensures
        r@ == principal_text(bytes@),
{
    IcPrincipal::from_slice(bytes.as_slice()).to_text()
}

/// Why a byte string is not a principal.
#[derive(Debug, Clone, Copy, PartialEq, Eq, Structural)]
pub enum PrincipalError {
    /// More bytes than a principal holds.
    BytesTooLong,
}

/// An identifier of a canister, a wallet or a user: at most 29 opaque bytes.
#[derive(Debug, PartialEq, Eq)]
pub struct Principal {
    bytes: Vec<u8>,
}

impl View for Principal {
    type V = Seq<u8>;

    closed spec fn view(&self) -> Seq<u8> {
        self.bytes@
    }
}

impl Clone for Principal {
    fn clone(&self) -> (r: Self)
        ensures
            r@ == self@,
    {
        proof {
            use_type_invariant(self);
        }
        let mut bytes: Vec<u8> = Vec::new();
        let mut i: usize = 0;
        while i < self.bytes.len()
            invariant
                i <= self.bytes@.len(),
                bytes@ == self.bytes@.subrange(0, i as int),
            decreases self.bytes@.len() - i,
        {
            bytes.push(self.bytes[i]);
            i = i + 1;
        }
        assert(bytes@ =~= self.bytes@);
        Principal { bytes }
    }
}

impl Principal {
    #[verifier::type_invariant]
    spec fn fits(&self) -> bool {
        self.bytes@.len() <= MAX_PRINCIPAL_BYTES
    }

    /// The principal of the management service.
    pub fn management_canister() -> (r: Principal)
        ensures
            r@ == Seq::<u8>::empty(),
    {
        let bytes = management_bytes();
        assert(bytes@ =~= Seq::<u8>::empty());
        Principal { bytes }
    }

    /// The principal of the given bytes, if there are at most 29 of them.
    pub fn from_bytes(bytes: Vec<u8>) -> (r: Result<Principal, PrincipalError>)
        ensures
            bytes@.len() <= MAX_PRINCIPAL_BYTES <==> r is Ok,
            r is Ok ==> r->Ok_0@ == bytes@,
            r is Err ==> r->Err_0 == PrincipalError::BytesTooLong,
    {
        if fits_principal(&bytes) {
            Ok(Principal { bytes })
        } else {
            Err(PrincipalError::BytesTooLong)
        }
    }

    /// The bytes of this principal.
    pub fn as_slice(&self) -> (r: &[u8])
        ensures
            r@ == self@,
    {
        self.bytes.as_slice()
    }

    /// The textual form of this principal.
    pub fn to_text(&self) -> (r: String)
        ensures
            r@ == principal_text(self@),
    {
        proof {
            use_type_invariant(self);
        }
        text_of(&self.bytes)
    }
}

} // verus!
