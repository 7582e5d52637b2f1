use vstd::prelude::*;
use k256::elliptic_curve::PrimeField;
use crate::bytes::append;
use crate::keys::{valid_scalar, be_nat, curve_order, derive_public, SECRET_LEN};

verus! {

/// A proof-instance pair: opaque proof bytes and serialized public instance.
#[derive(Clone, Debug)]
pub struct ComplianceUnit {
    pub proof: Vec<u8>,
    pub instance: Vec<u8>,
}

/// A payload with the criterion under which it may be deleted.
#[derive(Clone, Debug)]
pub struct ExpirableBlob {
    pub blob: Vec<u32>,
    pub deletion_criterion: u32,
}

/// The four payload categories attached to a resource logic.
#[derive(Clone, Debug)]
pub struct AppData {
    pub resource_payload: Vec<ExpirableBlob>,
    pub discovery_payload: Vec<ExpirableBlob>,
    pub external_payload: Vec<ExpirableBlob>,
    pub application_payload: Vec<ExpirableBlob>,
}

/// What an external verifier needs to check one resource logic.
#[derive(Clone, Debug)]
pub struct LogicVerifierInputs {
    pub tag: Vec<u32>,
    pub verifying_key: Vec<u32>,
    pub app_data: AppData,
    pub proof: Vec<u8>,
}

/// Compliance units with the logic-verifier inputs of their resources.
#[derive(Clone, Debug)]
pub struct Action {
    pub compliance_units: Vec<ComplianceUnit>,
    pub logic_verifier_inputs: Vec<LogicVerifierInputs>,
}

/// The aggregated signing key of a transaction's balance.
#[derive(Clone)]
pub struct DeltaWitness {
    pub signing_key: Vec<u8>,
}

/// A recoverable signature over a transaction's message.
#[derive(Clone, Debug)]
pub struct DeltaProof {
    pub signature: Vec<u8>,
    pub recid: u8,
}

/// A balance assertion, in exactly one of its two forms.
#[derive(Clone)]
pub enum Delta {
    Witness(DeltaWitness),
    Proof(DeltaProof),
}

/// Actions with their balance assertion and an optional declared balance.
#[derive(Clone)]
pub struct Transaction {
    pub actions: Vec<Action>,
    pub delta_proof: Delta,
    pub expected_balance: Option<Vec<u8>>,
}

/// Why a transaction was not finalized.
#[derive(Clone, Copy, Debug, PartialEq, Eq, Structural)]
pub enum DeltaError {
    /// The delta is already a proof.
    PreconditionViolation,
    /// The witness's signing key is no scalar.
    InvalidWitness,
    /// The signer failed.
    BackendFailure,
}

/// The signature and recovery id that signing `message` with `key` gives;
/// `None` where the signer refuses the deterministic nonce it derived.
pub uninterp spec fn signed_of(key: Seq<u8>, message: Seq<u8>) -> Option<(Seq<u8>, u8)>;

/// The low `k` bytes of `n`, least significant first.
pub open spec fn le_bytes(n: nat, k: nat) -> Seq<u8>
    decreases k,
{
    if k == 0 {
        Seq::empty()
    } else {
        seq![(n % 256) as u8] + le_bytes(n / 256, (k - 1) as nat)
    }
}

/// A unit's instance bytes after their length, as 8 little-endian bytes.
pub open spec fn unit_frame(u: ComplianceUnit) -> Seq<u8> {
    le_bytes(u.instance@.len(), 8) + u.instance@
}

/// The framed instances of the units, in order.
pub open spec fn units_message(us: Seq<ComplianceUnit>) -> Seq<u8>
    decreases us.len(),
{
    if us.len() == 0 {
        Seq::empty()
    } else {
        units_message(us.drop_last()) + unit_frame(us.last())
    }
}

/// The message a transaction's delta proof signs: for each action in order,
/// its number of compliance units (8 little-endian bytes), then each unit's
/// framed instance.
pub open spec fn actions_message(acts: Seq<Action>) -> Seq<u8>
    decreases acts.len(),
{
    if acts.len() == 0 {
        Seq::empty()
    } else {
        actions_message(acts.drop_last()) + le_bytes(acts.last().compliance_units@.len(), 8)
            + units_message(acts.last().compliance_units@)
    }
}

fn push_le8(out: &mut Vec<u8>, n: u64)
    ensures
        final(out)@ == old(out)@ + le_bytes(n as nat, 8),
{
    let mut v: u64 = n;
    let mut i: u64 = 0;
    while i < 8
        invariant
            i <= 8,
            out@ + le_bytes(v as nat, (8 - i) as nat) == old(out)@ + le_bytes(n as nat, 8),
        decreases 8 - i,
    {
        let ghost before = out@;
        assert(le_bytes(v as nat, (8 - i) as nat)
            == seq![(v as nat % 256) as u8] + le_bytes(v as nat / 256, (8 - i - 1) as nat));
        out.push((v % 256) as u8);
        assert(before + le_bytes(v as nat, (8 - i) as nat)
            =~= out@ + le_bytes(v as nat / 256, (8 - i - 1) as nat));
        v = v / 256;
        i = i + 1;
    }
    assert(le_bytes(v as nat, 0) =~= Seq::<u8>::empty());
    assert(out@ + le_bytes(v as nat, 0) =~= out@);
}

/// The scalar value of a signing key.
pub open spec fn scalar_value(key: Seq<u8>) -> nat {
    be_nat(key)
}

/// Relies on k256's scalar addition (Scalar::from_repr, `+`, to_bytes): the
/// sum modulo the group order, as 32 big-endian bytes.
#[verifier::external_body]
fn add_scalars(a: &Vec<u8>, b: &Vec<u8>) -> (r: Vec<u8>)
    requires
        valid_scalar(a@),
        valid_scalar(b@),
    ensures
        r@.len() == SECRET_LEN,
        be_nat(r@) == (be_nat(a@) + be_nat(b@)) % curve_order(),
{
    let x = k256::Scalar::from_repr(*k256::FieldBytes::from_slice(a)).unwrap();
    let y = k256::Scalar::from_repr(*k256::FieldBytes::from_slice(b)).unwrap();
    (x + y).to_bytes().to_vec()
}

/// Relies on ecdsa::SigningKey::sign_recoverable: a deterministic (RFC 6979)
/// signature over the SHA-256 digest of the message, with the id that
/// recovers the public point.
#[verifier::external_body]
fn sign_message(key: &Vec<u8>, message: &Vec<u8>) -> (r: Option<(Vec<u8>, u8)>)
    requires
        valid_scalar(key@),
    ensures
        match r {
            Some(p) => signed_of(key@, message@) == Some((p.0@, p.1)),
            None => signed_of(key@, message@) is None,
        },
{
    let sk = k256::ecdsa::SigningKey::from_slice(key).unwrap();
    sk.sign_recoverable(message).ok().map(|(s, id)| (s.to_bytes().to_vec(), id.to_byte()))
}

fn is_scalar(key: &Vec<u8>) -> (r: bool)
    ensures
        r == valid_scalar(key@),
{
    key.len() == SECRET_LEN && derive_public(key).is_some()
}

/// Combines two witnesses by adding their signing keys modulo the group
/// order; `None` where a key is no scalar or the sum is zero.
pub fn combine(w1: &DeltaWitness, w2: &DeltaWitness) -> (r: Option<DeltaWitness>)
    ensures
        r.is_some() <==> valid_scalar(w1.signing_key@) && valid_scalar(w2.signing_key@)
            && (scalar_value(w1.signing_key@) + scalar_value(w2.signing_key@)) % curve_order() != 0,
        r.is_some() ==> valid_scalar(r.unwrap().signing_key@) && scalar_value(r.unwrap().signing_key@)
            == (scalar_value(w1.signing_key@) + scalar_value(w2.signing_key@)) % curve_order(),
{
    if !is_scalar(&w1.signing_key) || !is_scalar(&w2.signing_key) {
        return None;
    }
    let sum = add_scalars(&w1.signing_key, &w2.signing_key);
    if !is_scalar(&sum) {
        return None;
    }
    Some(DeltaWitness { signing_key: sum })
}

/// Adding witness keys gives the same scalar in either order, and grouping
/// three of them either way gives the same scalar.
pub proof fn lemma_combine_laws(a: nat, b: nat, c: nat)
    ensures
        (a + b) % curve_order() == (b + a) % curve_order(),
        (((a + b) % curve_order()) + c) % curve_order() == (a + ((b + c) % curve_order())) % curve_order(),
{
    let n = curve_order() as int;
    let (x, y, z) = (a as int, b as int, c as int);
    assert(n > 0);
    vstd::arithmetic::div_mod::lemma_add_mod_noop(x + y, z, n);
    vstd::arithmetic::div_mod::lemma_add_mod_noop((x + y) % n, z, n);
    vstd::arithmetic::div_mod::lemma_mod_twice(x + y, n);
    vstd::arithmetic::div_mod::lemma_add_mod_noop(x, y + z, n);
    vstd::arithmetic::div_mod::lemma_add_mod_noop(x, (y + z) % n, n);
    vstd::arithmetic::div_mod::lemma_mod_twice(y + z, n);
    assert(x + y + z == x + (y + z));
}

/// The message that the delta proof of these actions signs.
pub fn delta_message(actions: &Vec<Action>) -> (m: Vec<u8>)
    ensures
        m@ == actions_message(actions@),
{
    let mut m: Vec<u8> = Vec::new();
    let mut i: usize = 0;
    while i < actions.len()
        invariant
            i <= actions@.len(),
            m@ == actions_message(actions@.subrange(0, i as int)),
        decreases actions.len() - i,
    {
        let units = &actions[i].compliance_units;
        let ghost start = m@;
        push_le8(&mut m, units.len() as u64);
        let ghost before = m@;
        assert(before == start + le_bytes(units@.len(), 8));
        let mut j: usize = 0;
        while j < units.len()
            invariant
                j <= units@.len(),
                units == actions@[i as int].compliance_units,
                m@ == before + units_message(units@.subrange(0, j as int)),
            decreases units.len() - j,
        {
            let ghost prev = m@;
            push_le8(&mut m, units[j].instance.len() as u64);
            append(&mut m, &units[j].instance);
            assert(units@.subrange(0, j + 1).drop_last() =~= units@.subrange(0, j as int));
            assert(units@.subrange(0, j + 1).last() == units@[j as int]);
            assert(m@ =~= before + units_message(units@.subrange(0, j + 1)));
            j = j + 1;
        }
        assert(units@.subrange(0, j as int) =~= units@);
        assert(actions@.subrange(0, i + 1).drop_last() =~= actions@.subrange(0, i as int));
        assert(m@ =~= actions_message(actions@.subrange(0, i + 1)));
        i = i + 1;
    }
    assert(actions@.subrange(0, i as int) =~= actions@);
    m
}

/// Signs `message` with the witness's key.
pub fn prove_delta_witness(witness: &DeltaWitness, message: &Vec<u8>) -> (r: Result<DeltaProof, DeltaError>)
    ensures
        !valid_scalar(witness.signing_key@) <==> r == Err::<DeltaProof, DeltaError>(DeltaError::InvalidWitness),
        valid_scalar(witness.signing_key@) ==> match r {
            Ok(p) => signed_of(witness.signing_key@, message@) == Some((p.signature@, p.recid)),
            Err(e) => e == DeltaError::BackendFailure && (signed_of(witness.signing_key@, message@) is None),
        },
{
    if !is_scalar(&witness.signing_key) {
        return Err(DeltaError::InvalidWitness);
    }
    match sign_message(&witness.signing_key, message) {
        Some((signature, recid)) => Ok(DeltaProof { signature, recid }),
        None => Err(DeltaError::BackendFailure),
    }
}

/// The signing key of a witness-form transaction.
pub open spec fn witness_key(t: Transaction) -> Seq<u8> {
    t.delta_proof->Witness_0.signing_key@
}

/// What signing a witness-form transaction's message with its key gives.
pub open spec fn transaction_signature(t: Transaction) -> Option<(Seq<u8>, u8)> {
    signed_of(witness_key(t), actions_message(t.actions@))
}

/// Replaces a witness-form delta by the proof that signs the actions'
/// message; a transaction whose delta is already a proof is refused.
pub fn generate_delta_proof(transaction: Transaction) -> (r: Result<Transaction, DeltaError>)
    ensures
        transaction.delta_proof is Proof
            <==> r == Err::<Transaction, DeltaError>(DeltaError::PreconditionViolation),
        (transaction.delta_proof is Witness) && !valid_scalar(witness_key(transaction))
            ==> r == Err::<Transaction, DeltaError>(DeltaError::InvalidWitness),
        (transaction.delta_proof is Witness) && valid_scalar(witness_key(transaction))
            ==> (r is Ok <==> (transaction_signature(transaction) is Some)),
        (transaction.delta_proof is Witness) && valid_scalar(witness_key(transaction))
            && (transaction_signature(transaction) is None)
            ==> r == Err::<Transaction, DeltaError>(DeltaError::BackendFailure),
        r.is_ok() ==> {
            let t = r.unwrap();
            &&& t.actions@ == transaction.actions@
            &&& t.expected_balance == transaction.expected_balance
            &&& t.delta_proof is Proof
            &&& transaction.delta_proof is Witness
            &&& transaction_signature(transaction) == Some(
                (t.delta_proof->Proof_0.signature@, t.delta_proof->Proof_0.recid),
            )
        },
{
    let proof = match &transaction.delta_proof {
        Delta::Proof(_) => { return Err(DeltaError::PreconditionViolation); },
        Delta::Witness(w) => {
            let message = delta_message(&transaction.actions);
            match prove_delta_witness(w, &message) {
                Ok(p) => p,
                Err(e) => { return Err(e); },
            }
        },
    };
    Ok(Transaction {
        actions: transaction.actions,
        delta_proof: Delta::Proof(proof),
        expected_balance: transaction.expected_balance,
    })
}

} // verus!
