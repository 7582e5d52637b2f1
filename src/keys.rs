use vstd::prelude::*;
use k256::elliptic_curve::rand_core::OsRng;
use k256::elliptic_curve::sec1::ToEncodedPoint;

verus! {

/// Order of the secp256k1 group.
pub open spec fn curve_order() -> nat {
    let w: nat = 0x1_0000_0000 * 0x1_0000_0000;
    ((0xFFFF_FFFF_FFFF_FFFF * w + 0xFFFF_FFFF_FFFF_FFFE) * w + 0xBAAE_DCE6_AF48_A03B) * w
        + 0xBFD2_5E8C_D036_4141
}

/// Length of a secret scalar in bytes.
pub const SECRET_LEN: usize = 32;

/// Length of a compressed SEC1 curve point in bytes.
pub const POINT_LEN: usize = 33;

/// The big-endian value of a byte string.
pub open spec fn be_nat(s: Seq<u8>) -> nat
    decreases s.len(),
{
    if s.len() == 0 {
        0
    } else {
        be_nat(s.drop_last()) * 256 + s.last() as nat
    }
}

/// A secret scalar: 32 big-endian bytes of a value in `1 .. curve_order()`.
pub open spec fn valid_scalar(s: Seq<u8>) -> bool {
    &&& s.len() == SECRET_LEN
    &&& 0 < be_nat(s) < curve_order()
}

/// The compressed encoding of `secret * G`.
pub uninterp spec fn public_of(secret: Seq<u8>) -> Seq<u8>;

/// The bytes are the SEC1 encoding of a point of the curve.
pub uninterp spec fn point_ok(public: Seq<u8>) -> bool;

/// A secret scalar with its public point.
#[derive(Clone)]
pub struct Keypair {
    pub secret: Vec<u8>,
    pub public: Vec<u8>,
}

impl Keypair {
    /// The public point is the secret scalar times the generator.
    pub open spec fn wf(&self) -> bool {
        &&& valid_scalar(self.secret@)
        &&& self.public@ == public_of(self.secret@)
        &&& self.public@.len() == POINT_LEN
    }
}

/// Relies on k256::SecretKey::random drawing from the operating system's
/// generator: the scalar drawn is non-zero and below the group order.
#[verifier::external_body]
pub(crate) fn fresh_secret() -> (r: Vec<u8>)
    ensures
        valid_scalar(r@),
{
    k256::SecretKey::random(&mut OsRng).to_bytes().to_vec()
}

/// Relies on k256::SecretKey::from_slice, which accepts exactly the scalars
/// in range, and on PublicKey::to_encoded_point for the compressed point,
/// which PublicKey::from_sec1_bytes accepts back.
#[verifier::external_body]
pub(crate) fn derive_public(secret: &Vec<u8>) -> (r: Option<Vec<u8>>)
    requires
        secret@.len() == SECRET_LEN,
    ensures
        r.is_some() <==> valid_scalar(secret@),
        r.is_some() ==> r.unwrap()@ == public_of(secret@) && r.unwrap()@.len() == POINT_LEN,
        r.is_some() ==> point_ok(r.unwrap()@),
{
    k256::SecretKey::from_slice(secret).ok().map(
        |k| k.public_key().to_encoded_point(true).as_bytes().to_vec(),
    )
}

/// Draws a fresh keypair whose public point is its secret times the generator.
pub fn random_key_pair() -> (k: Keypair)
    ensures
        k.wf(),
{
    loop
        decreases 1nat,
    {
        let secret = fresh_secret();
        match derive_public(&secret) {
            Some(public) => {
                return Keypair { secret, public };
            },
            None => {},
        }
    }
}

/// Builds a keypair from a secret scalar; `None` where the bytes are no scalar.
pub fn keypair_from_secret(secret: Vec<u8>) -> (r: Option<Keypair>)
    ensures
        r.is_some() <==> valid_scalar(secret@),
        r.is_some() ==> r.unwrap().wf() && r.unwrap().secret@ == secret@,
{
    if secret.len() != SECRET_LEN {
        return None;
    }
    match derive_public(&secret) {
        Some(public) => Some(Keypair { secret, public }),
        None => None,
    }
}

} // verus!
