use vstd::prelude::*;
use crate::bytes::copy_range;
use crate::keys::{Keypair, keypair_from_secret, valid_scalar, public_of, SECRET_LEN, POINT_LEN};

verus! {

/// The logical type a boundary record stands for.
#[derive(Clone, Copy, Debug, PartialEq, Eq, Structural)]
pub enum Tag {
    Keypair,
}

/// The named fields of a boundary record.
#[derive(Clone, Copy, Debug, PartialEq, Eq, Structural)]
pub enum Field {
    Struct,
    SecretKey,
    PublicKey,
    Instance,
}

/// A boundary value: a type tag or a byte string.
pub enum Term {
    Tag(Tag),
    Bytes(Vec<u8>),
}

/// A boundary record: named fields in order.
pub struct Record {
    pub entries: Vec<(Field, Term)>,
}

/// Why a boundary record does not decode; each names the offending field.
#[derive(Clone, Copy, Debug, PartialEq, Eq, Structural)]
pub enum DecodeError {
    Missing(Field),
    WrongShape(Field),
    BadLength(Field),
    /// The bytes have the right length but are no scalar, or no point that
    /// the secret gives.
    Invalid(Field),
}

/// A boundary value in mathematical form.
pub enum TermModel {
    Tag(Tag),
    Bytes(Seq<u8>),
}

pub open spec fn term_view(t: Term) -> TermModel {
    match t {
        Term::Tag(g) => TermModel::Tag(g),
        Term::Bytes(b) => TermModel::Bytes(b@),
    }
}

pub open spec fn entries_view(r: Record) -> Seq<(Field, TermModel)> {
    r.entries@.map_values(|e: (Field, Term)| (e.0, term_view(e.1)))
}

/// The value of the first entry named `f`.
pub open spec fn lookup(es: Seq<(Field, TermModel)>, f: Field) -> Option<TermModel>
    decreases es.len(),
{
    if es.len() == 0 {
        None
    } else if es[0].0 == f {
        Some(es[0].1)
    } else {
        lookup(es.drop_first(), f)
    }
}

/// The bytes of field `f`, of exactly `len` bytes.
pub open spec fn field_bytes(es: Seq<(Field, TermModel)>, f: Field, len: nat) -> Result<Seq<u8>, DecodeError> {
    match lookup(es, f) {
        None => Err(DecodeError::Missing(f)),
        Some(TermModel::Tag(_)) => Err(DecodeError::WrongShape(f)),
        Some(TermModel::Bytes(b)) => if b.len() == len {
            Ok(b)
        } else {
            Err(DecodeError::BadLength(f))
        },
    }
}

/// The records a keypair encodes to.
pub open spec fn keypair_entries(secret: Seq<u8>, public: Seq<u8>) -> Seq<(Field, TermModel)> {
    seq![
        (Field::Struct, TermModel::Tag(Tag::Keypair)),
        (Field::SecretKey, TermModel::Bytes(secret)),
        (Field::PublicKey, TermModel::Bytes(public)),
    ]
}

/// What a record decodes to as a keypair: its secret and public bytes.
pub open spec fn keypair_decoding(es: Seq<(Field, TermModel)>) -> Result<(Seq<u8>, Seq<u8>), DecodeError> {
    match lookup(es, Field::Struct) {
        None => Err(DecodeError::Missing(Field::Struct)),
        Some(TermModel::Bytes(_)) => Err(DecodeError::WrongShape(Field::Struct)),
        Some(TermModel::Tag(_)) => match field_bytes(es, Field::SecretKey, SECRET_LEN as nat) {
            Err(e) => Err(e),
            Ok(s) => match field_bytes(es, Field::PublicKey, POINT_LEN as nat) {
                Err(e) => Err(e),
                Ok(p) => if !valid_scalar(s) {
                    Err(DecodeError::Invalid(Field::SecretKey))
                } else if p != public_of(s) {
                    Err(DecodeError::Invalid(Field::PublicKey))
                } else {
                    Ok((s, p))
                },
            },
        },
    }
}

/// Encodes a keypair as a record tagged with its type, with the secret and
/// public parts under named fields.
pub fn encode_keypair(k: &Keypair) -> (r: Record)
    ensures
        entries_view(r) == keypair_entries(k.secret@, k.public@),
{
    let mut entries: Vec<(Field, Term)> = Vec::new();
    entries.push((Field::Struct, Term::Tag(Tag::Keypair)));
    entries.push((Field::SecretKey, Term::Bytes(copy_range(&k.secret, 0, k.secret.len()))));
    entries.push((Field::PublicKey, Term::Bytes(copy_range(&k.public, 0, k.public.len()))));
    assert(entries_view(Record { entries }) =~= keypair_entries(k.secret@, k.public@));
    Record { entries }
}

/// Index of the first entry named `f`, if any.
fn find_field(r: &Record, f: Field) -> (i: Option<usize>)
    ensures
        match i {
            None => lookup(entries_view(*r), f) is None,
            Some(j) => j < r.entries@.len() && r.entries@[j as int].0 == f
                && lookup(entries_view(*r), f) == Some(term_view(r.entries@[j as int].1)),
        },
{
    let ghost es = entries_view(*r);
    assert(es.subrange(0, es.len() as int) =~= es);
    let mut j: usize = 0;
    while j < r.entries.len()
        invariant
            j <= r.entries@.len(),
            es == entries_view(*r),
            es.len() == r.entries@.len(),
            lookup(es, f) == lookup(es.subrange(j as int, es.len() as int), f),
        decreases r.entries.len() - j,
    {
        let ghost rest = es.subrange(j as int, es.len() as int);
        assert(rest.drop_first() =~= es.subrange(j + 1, es.len() as int));
        if r.entries[j].0 == f {
            return Some(j);
        }
        j = j + 1;
    }
    assert(es.subrange(j as int, es.len() as int).len() == 0);
    None
}

/// The bytes of field `f` of length `len`, or the error that names it.
fn get_bytes(r: &Record, f: Field, len: usize) -> (out: Result<Vec<u8>, DecodeError>)
    ensures
        match out {
            Ok(b) => field_bytes(entries_view(*r), f, len as nat) == Ok::<Seq<u8>, DecodeError>(b@),
            Err(e) => field_bytes(entries_view(*r), f, len as nat) == Err::<Seq<u8>, DecodeError>(e),
        },
{
    match find_field(r, f) {
        None => Err(DecodeError::Missing(f)),
        Some(j) => match &r.entries[j].1 {
            Term::Tag(_) => Err(DecodeError::WrongShape(f)),
            Term::Bytes(b) => if b.len() == len {
                Ok(copy_range(b, 0, b.len()))
            } else {
                Err(DecodeError::BadLength(f))
            },
        },
    }
}

/// Decodes a keypair record: its tag, a 32-byte secret scalar and the 33-byte
/// point that the secret gives; otherwise the error that names the first
/// offending field.
pub fn decode_keypair(r: &Record) -> (out: Result<Keypair, DecodeError>)
    ensures
        match out {
            Ok(k) => k.wf()
                && keypair_decoding(entries_view(*r)) == Ok::<(Seq<u8>, Seq<u8>), DecodeError>((k.secret@, k.public@)),
            Err(e) => keypair_decoding(entries_view(*r)) == Err::<(Seq<u8>, Seq<u8>), DecodeError>(e),
        },
{
    match find_field(r, Field::Struct) {
        None => { return Err(DecodeError::Missing(Field::Struct)); },
        Some(j) => match &r.entries[j].1 {
            Term::Bytes(_) => { return Err(DecodeError::WrongShape(Field::Struct)); },
            Term::Tag(_) => {},
        },
    }
    let secret = match get_bytes(r, Field::SecretKey, SECRET_LEN) {
        Ok(s) => s,
        Err(e) => { return Err(e); },
    };
    let public = match get_bytes(r, Field::PublicKey, POINT_LEN) {
        Ok(p) => p,
        Err(e) => { return Err(e); },
    };
    match keypair_from_secret(secret) {
        None => Err(DecodeError::Invalid(Field::SecretKey)),
        Some(k) => if bytes_equal(&k.public, &public) {
            Ok(k)
        } else {
            Err(DecodeError::Invalid(Field::PublicKey))
        },
    }
}

fn bytes_equal(a: &Vec<u8>, b: &Vec<u8>) -> (r: bool)
    ensures
        r == (a@ == b@),
{
    if a.len() != b.len() {
        return false;
    }
    let mut i: usize = 0;
    while i < a.len()
        invariant
            i <= a@.len(),
            a@.len() == b@.len(),
            forall|j: int| 0 <= j < i ==> a@[j] == b@[j],
        decreases a.len() - i,
    {
        if a[i] != b[i] {
            return false;
        }
        i = i + 1;
    }
    assert(a@ =~= b@);
    true
}

/// Decoding what a well-formed keypair encodes to gives back the same secret
/// and public bytes.
pub proof fn lemma_keypair_round_trip(k: Keypair)
    requires
        k.wf(),
    ensures
        keypair_decoding(keypair_entries(k.secret@, k.public@)) == Ok::<(Seq<u8>, Seq<u8>), DecodeError>((k.secret@, k.public@)),
{
    let es = keypair_entries(k.secret@, k.public@);
    assert(es.drop_first().drop_first().drop_first().len() == 0);
    assert(lookup(es, Field::Struct) == Some(TermModel::Tag(Tag::Keypair)));
    assert(lookup(es.drop_first(), Field::SecretKey) == Some(TermModel::Bytes(k.secret@)));
    assert(lookup(es.drop_first().drop_first(), Field::PublicKey) == Some(TermModel::Bytes(k.public@)));
    assert(lookup(es.drop_first(), Field::PublicKey) == lookup(es.drop_first().drop_first(), Field::PublicKey));
}

/// A secret field of the wrong length is refused with an error naming it.
pub proof fn lemma_short_secret_refused(secret: Seq<u8>, public: Seq<u8>)
    requires
        secret.len() != SECRET_LEN,
    ensures
        keypair_decoding(keypair_entries(secret, public)) == Err::<(Seq<u8>, Seq<u8>), DecodeError>(DecodeError::BadLength(Field::SecretKey)),
{
    let es = keypair_entries(secret, public);
    assert(lookup(es, Field::Struct) == Some(TermModel::Tag(Tag::Keypair)));
    assert(lookup(es.drop_first(), Field::SecretKey) == Some(TermModel::Bytes(secret)));
}

} // verus!
