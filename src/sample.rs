use vstd::prelude::*;
use crate::keys::{fresh_secret, valid_scalar};
use crate::resource::{
    ComplianceInstance, ComplianceWitness, LogicVerifier, MerklePath, NullifierKey,
    NullifierKeyCommitment, Resource,
};
use crate::delta::{
    Action, AppData, ComplianceUnit, Delta, DeltaProof, DeltaWitness, ExpirableBlob,
    LogicVerifierInputs, Transaction,
};

verus! {

/// Relies on rand::random, drawing from the thread-local generator; nothing
/// is promised of the value.
pub assume_specification<T>[ rand::random::<T> ]() -> (r: T)
    where
        rand::distributions::Standard: rand::distributions::Distribution<T>,
;

/// `length` random bytes.
pub fn random_vector_u8(length: u32) -> (r: Vec<u8>)
    ensures
        r@.len() == length,
{
    let mut r: Vec<u8> = Vec::new();
    let mut i: u32 = 0;
    while i < length
        invariant
            i <= length,
            r@.len() == i,
        decreases length - i,
    {
        r.push(rand::random::<u8>());
        i = i + 1;
    }
    r
}

/// `length` random words.
pub fn random_vector_u32(length: u32) -> (r: Vec<u32>)
    ensures
        r@.len() == length,
{
    let mut r: Vec<u32> = Vec::new();
    let mut i: u32 = 0;
    while i < length
        invariant
            i <= length,
            r@.len() == i,
        decreases length - i,
    {
        r.push(rand::random::<u32>());
        i = i + 1;
    }
    r
}

/// A witness with a fresh signing key.
pub fn random_delta_witness() -> (w: DeltaWitness)
    ensures
        valid_scalar(w.signing_key@),
{
    DeltaWitness { signing_key: fresh_secret() }
}

/// A proof-shaped delta: 64 signature bytes and a recovery id below 4.
pub fn random_delta_proof() -> (p: DeltaProof)
    ensures
        p.signature@.len() == 64,
        p.recid < 4,
{
    let recid: u8 = rand::random::<u8>() % 4;
    DeltaProof { signature: random_vector_u8(64), recid }
}

/// A delta of either form.
pub fn random_delta() -> (d: Delta)
    ensures
        d is Witness ==> valid_scalar(d->Witness_0.signing_key@),
        d is Proof ==> d->Proof_0.signature@.len() == 64,
{
    if rand::random::<bool>() {
        Delta::Proof(random_delta_proof())
    } else {
        Delta::Witness(random_delta_witness())
    }
}

/// A path of 32 nodes, each a digest of 8 words.
pub fn random_merkle_path() -> (p: MerklePath)
    ensures
        p.nodes@.len() == 32,
        forall|i: int| 0 <= i < 32 ==> (#[trigger] p.nodes@[i]).0@.len() == 8,
{
    let mut nodes: Vec<(Vec<u32>, bool)> = Vec::new();
    let mut i: u32 = 0;
    while i < 32
        invariant
            i <= 32,
            nodes@.len() == i,
            forall|j: int| 0 <= j < i ==> (#[trigger] nodes@[j]).0@.len() == 8,
        decreases 32 - i,
    {
        nodes.push((random_vector_u32(8), rand::random::<bool>()));
        i = i + 1;
    }
    MerklePath { nodes }
}

/// A logic verifier with 32 bytes of proof and instance and a 32-word key.
pub fn random_logic_verifier() -> (v: LogicVerifier)
    ensures
        v.proof@.len() == 32,
        v.instance@.len() == 32,
        v.verifying_key@.len() == 32,
{
    LogicVerifier {
        proof: random_vector_u8(32),
        instance: random_vector_u8(32),
        verifying_key: random_vector_u32(32),
    }
}

/// A random 32-byte nullifier key.
pub fn random_nullifier_key() -> (k: NullifierKey)
    ensures
        k.key@.len() == 32,
{
    NullifierKey { key: random_vector_u8(32) }
}

/// The commitment to a fresh nullifier key.
pub fn random_nullifier_key_commitment() -> (c: NullifierKeyCommitment)
    ensures
        c.commitment@.len() == 32,
{
    random_nullifier_key().commit()
}

/// A resource with random 32-byte references and a fresh key commitment.
pub fn random_resource() -> (r: Resource)
    ensures
        r.wf(),
{
    Resource {
        logic_ref: random_vector_u8(32),
        label_ref: random_vector_u8(32),
        quantity: rand::random::<u128>(),
        value_ref: random_vector_u8(32),
        is_ephemeral: rand::random::<bool>(),
        nonce: random_vector_u8(32),
        nk_commitment: random_nullifier_key_commitment(),
        rand_seed: random_vector_u8(32),
    }
}

/// A witness over two random resources and a 32-node path.
pub fn random_compliance_witness() -> (w: ComplianceWitness)
    ensures
        w.consumed_resource.wf(),
        w.created_resource.wf(),
        w.merkle_path.nodes@.len() == 32,
        w.ephemeral_root@.len() == 32,
        w.nf_key.key@.len() == 32,
        w.rcv@.len() == 32,
{
    ComplianceWitness {
        consumed_resource: random_resource(),
        merkle_path: random_merkle_path(),
        ephemeral_root: random_vector_u32(32),
        nf_key: random_nullifier_key(),
        created_resource: random_resource(),
        rcv: random_vector_u8(32),
    }
}

/// An instance whose seven fields are 32 random words each.
pub fn random_compliance_instance() -> (c: ComplianceInstance)
    ensures
        c.consumed_nullifier@.len() == 32,
        c.consumed_logic_ref@.len() == 32,
        c.consumed_commitment_tree_root@.len() == 32,
        c.created_commitment@.len() == 32,
        c.created_logic_ref@.len() == 32,
        c.delta_x@.len() == 32,
        c.delta_y@.len() == 32,
{
    ComplianceInstance {
        consumed_nullifier: random_vector_u32(32),
        consumed_logic_ref: random_vector_u32(32),
        consumed_commitment_tree_root: random_vector_u32(32),
        created_commitment: random_vector_u32(32),
        created_logic_ref: random_vector_u32(32),
        delta_x: random_vector_u32(32),
        delta_y: random_vector_u32(32),
    }
}

/// A unit with 32 random bytes of proof and of instance.
pub fn random_compliance_unit() -> (u: ComplianceUnit)
    ensures
        u.proof@.len() == 32,
        u.instance@.len() == 32,
{
    ComplianceUnit { proof: random_vector_u8(32), instance: random_vector_u8(32) }
}

/// The words every generated blob holds.
pub open spec fn fixed_blob(b: ExpirableBlob) -> bool {
    b.blob@ == seq![1u32, 2, 3, 512, 512, 514, 128]
}

/// Every blob of the four payload categories holds the fixed words, two per category.
pub open spec fn app_data_shape(a: AppData) -> bool {
    &&& a.resource_payload@.len() == 2
    &&& a.discovery_payload@.len() == 2
    &&& a.external_payload@.len() == 2
    &&& a.application_payload@.len() == 2
    &&& forall|i: int| 0 <= i < 2 ==> fixed_blob(#[trigger] a.resource_payload@[i])
    &&& forall|i: int| 0 <= i < 2 ==> fixed_blob(#[trigger] a.discovery_payload@[i])
    &&& forall|i: int| 0 <= i < 2 ==> fixed_blob(#[trigger] a.external_payload@[i])
    &&& forall|i: int| 0 <= i < 2 ==> fixed_blob(#[trigger] a.application_payload@[i])
}

/// A blob of fixed words with a random deletion criterion.
pub fn random_epxirable_blob() -> (b: ExpirableBlob)
    ensures
        b.blob@ == seq![1u32, 2, 3, 512, 512, 514, 128],
{
    let b = ExpirableBlob { blob: vec![1, 2, 3, 512, 512, 514, 128], deletion_criterion: rand::random::<u32>() };
    assert(b.blob@ =~= seq![1u32, 2, 3, 512, 512, 514, 128]);
    b
}

/// Two random blobs.
fn random_blobs() -> (v: Vec<ExpirableBlob>)
    ensures
        v@.len() == 2,
        forall|i: int| 0 <= i < 2 ==> fixed_blob(#[trigger] v@[i]),
{
    let mut v: Vec<ExpirableBlob> = Vec::new();
    v.push(random_epxirable_blob());
    v.push(random_epxirable_blob());
    v
}

/// App data with two random blobs in each of its four categories.
pub fn random_app_data() -> (a: AppData)
    ensures
        app_data_shape(a),
{
    AppData {
        resource_payload: random_blobs(),
        discovery_payload: random_blobs(),
        external_payload: random_blobs(),
        application_payload: random_blobs(),
    }
}

/// Logic-verifier inputs with 32-word tag and key and 32 proof bytes.
pub fn random_logic_verifier_inputs() -> (l: LogicVerifierInputs)
    ensures
        l.tag@.len() == 32,
        l.verifying_key@.len() == 32,
        l.proof@.len() == 32,
        app_data_shape(l.app_data),
{
    LogicVerifierInputs {
        tag: random_vector_u32(32),
        verifying_key: random_vector_u32(32),
        app_data: random_app_data(),
        proof: random_vector_u8(32),
    }
}

/// A unit of 32 proof bytes and 32 instance bytes.
pub open spec fn unit_shape(u: ComplianceUnit) -> bool {
    u.proof@.len() == 32 && u.instance@.len() == 32
}

/// Ten units of that shape and ten logic-verifier inputs.
pub open spec fn action_shape(a: Action) -> bool {
    &&& a.compliance_units@.len() == 10
    &&& a.logic_verifier_inputs@.len() == 10
    &&& forall|j: int| 0 <= j < 10 ==> unit_shape(#[trigger] a.compliance_units@[j])
}

/// An action with ten random units and ten random logic-verifier inputs.
pub fn random_action() -> (a: Action)
    ensures
        action_shape(a),
{
    let mut compliance_units: Vec<ComplianceUnit> = Vec::new();
    let mut logic_verifier_inputs: Vec<LogicVerifierInputs> = Vec::new();
    let mut i: u32 = 0;
    while i < 10
        invariant
            i <= 10,
            compliance_units@.len() == i,
            logic_verifier_inputs@.len() == i,
            forall|j: int| 0 <= j < i ==> unit_shape(#[trigger] compliance_units@[j]),
        decreases 10 - i,
    {
        compliance_units.push(random_compliance_unit());
        logic_verifier_inputs.push(random_logic_verifier_inputs());
        i = i + 1;
    }
    Action { compliance_units, logic_verifier_inputs }
}

/// A transaction of ten random actions, a delta of either form and a
/// five-byte expected balance.
pub fn random_transaction() -> (t: Transaction)
    ensures
        t.actions@.len() == 10,
        t.expected_balance is Some && t.expected_balance->Some_0@.len() == 5,
        forall|i: int| 0 <= i < 10 ==> action_shape(#[trigger] t.actions@[i]),
{
    let mut actions: Vec<Action> = Vec::new();
    let mut i: u32 = 0;
    while i < 10
        invariant
            i <= 10,
            actions@.len() == i,
            forall|j: int| 0 <= j < i ==> action_shape(#[trigger] actions@[j]),
        decreases 10 - i,
    {
        actions.push(random_action());
        i = i + 1;
    }
    Transaction { actions, delta_proof: random_delta(), expected_balance: Some(random_vector_u8(5)) }
}

} // verus!
