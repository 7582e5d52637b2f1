use vstd::prelude::*;
use k256::sha2::{Digest, Sha256};
use crate::bridge::{DecodeError, Field};
use crate::delta::ComplianceUnit;

verus! {

/// SHA-256 of a byte string.
pub uninterp spec fn sha256_of(b: Seq<u8>) -> Seq<u8>;

/// Relies on sha2::Sha256::digest: 32 bytes determined by the input.
#[verifier::external_body]
pub(crate) fn sha256(b: &Vec<u8>) -> (r: Vec<u8>)
    ensures
        r@ == sha256_of(b@),
        r@.len() == 32,
{
    Sha256::digest(b.as_slice()).to_vec()
}

/// The key that authorizes consuming a resource.
#[derive(Clone)]
pub struct NullifierKey {
    pub key: Vec<u8>,
}

/// The public counterpart of a nullifier key, embedded in resources.
#[derive(Clone, Debug)]
pub struct NullifierKeyCommitment {
    pub commitment: Vec<u8>,
}

impl NullifierKey {
    /// The commitment to this key: the SHA-256 digest of its bytes.
    pub fn commit(&self) -> (c: NullifierKeyCommitment)
        ensures
            c.commitment@ == sha256_of(self.key@),
            c.commitment@.len() == 32,
    {
        NullifierKeyCommitment { commitment: sha256(&self.key) }
    }
}

/// A unit of value or state.
#[derive(Clone, Debug)]
pub struct Resource {
    pub logic_ref: Vec<u8>,
    pub label_ref: Vec<u8>,
    pub quantity: u128,
    pub value_ref: Vec<u8>,
    pub is_ephemeral: bool,
    pub nonce: Vec<u8>,
    pub nk_commitment: NullifierKeyCommitment,
    pub rand_seed: Vec<u8>,
}

impl Resource {
    /// Every reference, the nonce and the seed are 32 bytes.
    pub open spec fn wf(&self) -> bool {
        &&& self.logic_ref@.len() == 32
        &&& self.label_ref@.len() == 32
        &&& self.value_ref@.len() == 32
        &&& self.nonce@.len() == 32
        &&& self.rand_seed@.len() == 32
        &&& self.nk_commitment.commitment@.len() == 32
    }
}

/// Sibling digests (as words) with the side each stands on, leaf to root.
#[derive(Clone, Debug)]
pub struct MerklePath {
    pub nodes: Vec<(Vec<u32>, bool)>,
}

/// Private input to compliance proving.
#[derive(Clone)]
pub struct ComplianceWitness {
    pub consumed_resource: Resource,
    pub merkle_path: MerklePath,
    pub ephemeral_root: Vec<u32>,
    pub nf_key: NullifierKey,
    pub created_resource: Resource,
    pub rcv: Vec<u8>,
}

/// Public output of compliance proving.
#[derive(Clone, Debug)]
pub struct ComplianceInstance {
    pub consumed_nullifier: Vec<u32>,
    pub consumed_logic_ref: Vec<u32>,
    pub consumed_commitment_tree_root: Vec<u32>,
    pub created_commitment: Vec<u32>,
    pub created_logic_ref: Vec<u32>,
    pub delta_x: Vec<u32>,
    pub delta_y: Vec<u32>,
}

/// A proof of a resource logic as the proving backend emits it.
#[derive(Clone, Debug)]
pub struct LogicVerifier {
    pub proof: Vec<u8>,
    pub instance: Vec<u8>,
    pub verifying_key: Vec<u32>,
}

/// Words in each field of a serialized instance.
pub const INSTANCE_FIELD_WORDS: usize = 8;

/// Length in bytes of a serialized instance: seven fields of eight words.
pub const INSTANCE_LEN: usize = 224;

/// The little-endian word that starts at byte `at`.
pub open spec fn word_le(b: Seq<u8>, at: int) -> u32 {
    (b[at] as int + 256 * b[at + 1] as int + 65536 * b[at + 2] as int + 16777216 * b[at + 3] as int) as u32
}

/// The `count` words that start at byte `start`.
pub open spec fn words_at(b: Seq<u8>, start: int, count: nat) -> Seq<u32> {
    Seq::new(count, |j: int| word_le(b, start + 4 * j))
}

/// Field `k` of a serialized instance.
pub open spec fn instance_field(b: Seq<u8>, k: int) -> Seq<u32> {
    words_at(b, 32 * k, INSTANCE_FIELD_WORDS as nat)
}

fn read_words(b: &Vec<u8>, start: usize, count: usize) -> (r: Vec<u32>)
    requires
        start + 4 * count <= b@.len(),
    ensures
        r@ == words_at(b@, start as int, count as nat),
{
    let n: usize = b.len();
    let mut r: Vec<u32> = Vec::new();
    let mut j: usize = 0;
    while j < count
        invariant
            n == b@.len(),
            j <= count,
            start + 4 * count <= b@.len(),
            r@ == words_at(b@, start as int, j as nat),
        decreases count - j,
    {
        assert(4 * j + 4 <= 4 * count) by (nonlinear_arith)
            requires
                j < count,
        ;
        assert(start + 4 * j + 3 < n);
        let at: usize = start + 4 * j;
        let w: u32 = b[at] as u32 + 256 * (b[at + 1] as u32) + 65536 * (b[at + 2] as u32)
            + 16777216 * (b[at + 3] as u32);
        r.push(w);
        assert(r@ =~= words_at(b@, start as int, (j + 1) as nat));
        j = j + 1;
    }
    r
}

impl ComplianceUnit {
    /// The public instance carried by this unit: seven fields of eight
    /// little-endian words, in the order of `ComplianceInstance`; bytes of
    /// another length are refused with an error that names the instance.
    pub fn get_instance(&self) -> (r: Result<ComplianceInstance, DecodeError>)
        ensures
            self.instance@.len() != INSTANCE_LEN <==> r is Err,
            r is Err ==> r->Err_0 == DecodeError::BadLength(Field::Instance),
            r is Ok ==> {
                let c = r->Ok_0;
                let b = self.instance@;
                &&& c.consumed_nullifier@ == instance_field(b, 0)
                &&& c.consumed_logic_ref@ == instance_field(b, 1)
                &&& c.consumed_commitment_tree_root@ == instance_field(b, 2)
                &&& c.created_commitment@ == instance_field(b, 3)
                &&& c.created_logic_ref@ == instance_field(b, 4)
                &&& c.delta_x@ == instance_field(b, 5)
                &&& c.delta_y@ == instance_field(b, 6)
            },
    {
        let b = &self.instance;
        if b.len() != INSTANCE_LEN {
            return Err(DecodeError::BadLength(Field::Instance));
        }
        Ok(ComplianceInstance {
            consumed_nullifier: read_words(b, 0, INSTANCE_FIELD_WORDS),
            consumed_logic_ref: read_words(b, 32, INSTANCE_FIELD_WORDS),
            consumed_commitment_tree_root: read_words(b, 64, INSTANCE_FIELD_WORDS),
            created_commitment: read_words(b, 96, INSTANCE_FIELD_WORDS),
            created_logic_ref: read_words(b, 128, INSTANCE_FIELD_WORDS),
            delta_x: read_words(b, 160, INSTANCE_FIELD_WORDS),
            delta_y: read_words(b, 192, INSTANCE_FIELD_WORDS),
        })
    }
}

} // verus!
