//! Typed key codec: lossless, deterministic, bidirectional mapping between
//! the two domain key types and the store's argument/reply encoding.
//!
//! An entity key is a 128-bit unique value carried as 16 opaque bytes; a
//! component key is a 16-bit selector carried as 2 little-endian bytes, or
//! returned by the backend as a native integer reply.

use vstd::prelude::*;

verus! {

/// Why decoding a key from a backend reply failed.
#[derive(Clone, Copy, Debug, PartialEq, Eq, Structural)]
pub enum DecodeError {
    /// A byte-string reply of the wrong length for the key type.
    WrongLength,
    /// A reply shape the key type is never encoded as.
    TypeMismatch,
    /// A native integer reply outside the key type's range.
    OutOfRange,
}

/// Identity of one stored entity: a 128-bit unique value. No internal
/// structure is interpreted beyond its byte layout, and the fixed width of
/// the field keeps the wire encoding at exactly 16 bytes.
#[derive(Clone, Copy, Debug, PartialEq, Eq)]
pub struct EntityKey(pub [u8; 16]);

/// Identity of a *type* of component data (a field selector), not an
/// instance: a 16-bit unsigned integer.
#[derive(Clone, Copy, Debug, PartialEq, Eq, Structural)]
pub struct ComponentKey(pub u16);

/// The reply shapes a key may have to be decoded from. The backend returns
/// either a byte string, a native integer, or some other shape that no key
/// is ever encoded as.
#[derive(Debug, PartialEq, Eq)]
pub enum ReplyValue {
    /// A byte-string reply.
    Data(Vec<u8>),
    /// A native integer reply.
    Int(i64),
    /// Any other reply shape (status, nil, nested reply, ...).
    Other,
}

/// The wire encoding of an entity key: its 16 raw bytes, unchanged.
pub open spec fn entity_encoding(k: EntityKey) -> Seq<u8> {
    k.0@
}

/// The wire encoding of a component key: 2 bytes, little-endian.
pub open spec fn component_le_bytes(n: u16) -> Seq<u8> {
    seq![(n & 0xff) as u8, ((n >> 8) & 0xff) as u8]
}

/// The component value held by two little-endian bytes.
pub open spec fn component_of_le_bytes(b: Seq<u8>) -> int
    recommends
        b.len() == 2,
{
    b[0] + 256 * b[1]
}

/// Emits the raw 16 bytes of the entity key, no length prefix, no
/// endianness conversion.
pub fn encode_entity_key(key: &EntityKey) -> (r: Vec<u8>)
    ensures
        r@ == entity_encoding(*key),
{
    let mut out: Vec<u8> = Vec::new();
    let mut i: usize = 0;
    while i < 16
        invariant
            i <= 16,
            out@ == key.0@.take(i as int),
        decreases 16 - i,
    {
        out.push(key.0[i]);
        i += 1;
    }
    proof {
        assert(out@ =~= key.0@);
    }
    out
}

/// Emits the 2 bytes of the component key, little-endian.
pub fn encode_component_key(key: &ComponentKey) -> (r: Vec<u8>)
    ensures
        r@ == component_le_bytes(key.0),
{
    let lo: u8 = (key.0 & 0xff) as u8;
    let hi: u8 = ((key.0 >> 8) & 0xff) as u8;
    let mut out: Vec<u8> = Vec::new();
    out.push(lo);
    out.push(hi);
    proof {
        assert(out@ =~= component_le_bytes(key.0));
    }
    out
}

impl EntityKey {
    /// Rebuilds an entity key from a byte string; succeeds iff the input is
    /// exactly 16 bytes.
    pub fn from_bytes(bytes: &[u8]) -> (r: Result<EntityKey, DecodeError>)
        ensures
            bytes@.len() == 16 ==> (r matches Ok(k) && entity_encoding(k) == bytes@),
            bytes@.len() != 16 ==> r == Err::<EntityKey, DecodeError>(DecodeError::WrongLength),
    {
        if bytes.len() != 16 {
            return Err(DecodeError::WrongLength);
        }
        let mut raw: [u8; 16] = [0; 16];
        let mut i: usize = 0;
        while i < 16
            invariant
                i <= 16,
                bytes@.len() == 16,
                forall|j: int| 0 <= j < i ==> raw@[j] == bytes@[j],
            decreases 16 - i,
        {
            raw[i] = bytes[i];
            i += 1;
        }
        proof {
            assert(raw@ =~= bytes@);
        }
        Ok(EntityKey(raw))
    }

    /// Batch form of the byte-string decode: one key per 16-byte input.
    pub fn from_byte_vec(v: &[u8]) -> (r: Option<Vec<EntityKey>>)
        ensures
            v@.len() == 16 ==> (r matches Some(ks) && ks@.len() == 1 && entity_encoding(ks@[0]) == v@),
            v@.len() != 16 ==> r is None,
    {
        match Self::from_bytes(v) {
            Ok(k) => Some(vec![k]),
            Err(_) => None,
        }
    }
}

impl ComponentKey {
    /// Rebuilds a component key from a byte string; succeeds iff the input
    /// is exactly 2 bytes, read little-endian.
    pub fn from_bytes(bytes: &[u8]) -> (r: Result<ComponentKey, DecodeError>)
        ensures
            bytes@.len() == 2 ==> (r matches Ok(k) && k.0 == component_of_le_bytes(bytes@)),
            bytes@.len() != 2 ==> r == Err::<ComponentKey, DecodeError>(DecodeError::WrongLength),
    {
        if bytes.len() != 2 {
            return Err(DecodeError::WrongLength);
        }
        Ok(ComponentKey(u16_from_le(bytes[0], bytes[1])))
    }

    /// Batch form of the byte-string decode: one key per 2-byte input.
    pub fn from_byte_vec(v: &[u8]) -> (r: Option<Vec<ComponentKey>>)
        ensures
            v@.len() == 2 ==> (r matches Some(ks) && ks@.len() == 1 && ks@[0].0 == component_of_le_bytes(v@)),
            v@.len() != 2 ==> r is None,
    {
        match Self::from_bytes(v) {
            Ok(k) => Some(vec![k]),
            Err(_) => None,
        }
    }
}

/// The 16-bit value whose little-endian bytes are `lo`, `hi`.
fn u16_from_le(lo: u8, hi: u8) -> (r: u16)
    ensures
        r == lo + 256 * hi,
{
    let r: u16 = (lo as u16) | ((hi as u16) << 8);
    proof {
        assert((lo as u16) | ((hi as u16) << 8) == (lo as u16) + 256 * (hi as u16)) by (bit_vector);
    }
    r
}

/// Decodes an entity key from a backend reply. Only a byte-string reply of
/// exactly 16 bytes succeeds: entity identifiers are never represented as
/// small integers, so a native integer reply is a type error.
pub fn decode_entity_key(v: &ReplyValue) -> (r: Result<EntityKey, DecodeError>)
    ensures
        *v matches ReplyValue::Data(d) ==> (if d@.len() == 16 {
            r matches Ok(k) && entity_encoding(k) == d@
        } else {
            r == Err::<EntityKey, DecodeError>(DecodeError::WrongLength)
        }),
        (*v is Int || *v is Other) ==> r == Err::<EntityKey, DecodeError>(DecodeError::TypeMismatch),
{
    match v {
        ReplyValue::Data(d) => EntityKey::from_bytes(d.as_slice()),
        _ => Err(DecodeError::TypeMismatch),
    }
}

/// Decodes a component key from a backend reply. Accepts a 2-byte string
/// (little-endian) or a native integer reply in [0, 65535]; an out-of-range
/// integer is a range error and any other shape is a type error.
pub fn decode_component_key(v: &ReplyValue) -> (r: Result<ComponentKey, DecodeError>)
    ensures
        *v matches ReplyValue::Int(i) ==> r == (if 0 <= i <= 65535 {
            Ok::<ComponentKey, DecodeError>(ComponentKey(i as u16))
        } else {
            Err::<ComponentKey, DecodeError>(DecodeError::OutOfRange)
        }),
        *v matches ReplyValue::Data(d) ==> (if d@.len() == 2 {
            r matches Ok(k) && k.0 == component_of_le_bytes(d@)
        } else {
            r == Err::<ComponentKey, DecodeError>(DecodeError::WrongLength)
        }),
        *v is Other ==> r == Err::<ComponentKey, DecodeError>(DecodeError::TypeMismatch),
{
    match v {
        ReplyValue::Int(i) => {
            if *i < 0 || *i > 65535 {
                Err(DecodeError::OutOfRange)
            } else {
                Ok(ComponentKey(*i as u16))
            }
        },
        ReplyValue::Data(d) => ComponentKey::from_bytes(d.as_slice()),
        ReplyValue::Other => Err(DecodeError::TypeMismatch),
    }
}

/// Law: the entity encoding is lossless — distinct keys have distinct
/// encodings. With the decoders' contracts this gives the round trip for
/// every valid 16-byte sequence: the key decoded from it is the one key
/// whose encoding is that sequence, and encoding it restores the input.
pub proof fn lemma_entity_encoding_injective(k1: EntityKey, k2: EntityKey)
    requires
        entity_encoding(k1) == entity_encoding(k2),
    ensures
        k1 == k2,
{
    broadcast use vstd::array::group_array_axioms;

    assert forall|i: int| 0 <= i < 16 implies k1.0[i] == k2.0[i] by {
        assert(k1.0@[i] == k2.0@[i]);
    }
    assert(k1.0 =~= k2.0);
}

/// Law: encoding a component key and decoding the two bytes little-endian
/// yields the same key value, for every 16-bit value.
pub proof fn lemma_component_key_round_trip(k: ComponentKey)
    ensures
        component_le_bytes(k.0).len() == 2,
        component_of_le_bytes(component_le_bytes(k.0)) == k.0,
{
    let n = k.0;
    assert(((n & 0xff) as u8) + 256 * (((n >> 8) & 0xff) as u8) == n) by (bit_vector);
}

/// Law: decoding two little-endian bytes and encoding the resulting key
/// restores the same two bytes, for every 2-byte sequence.
pub proof fn lemma_component_bytes_round_trip(b: Seq<u8>)
    requires
        b.len() == 2,
    ensures
        0 <= component_of_le_bytes(b) <= 65535,
        component_le_bytes(component_of_le_bytes(b) as u16) == b,
{
    let lo = b[0];
    let hi = b[1];
    let n: u16 = ((lo as u16) | ((hi as u16) << 8));
    assert(n == lo + 256 * hi) by (bit_vector)
        requires
            n == ((lo as u16) | ((hi as u16) << 8)),
    ;
    assert((n & 0xff) as u8 == lo && ((n >> 8) & 0xff) as u8 == hi) by (bit_vector)
        requires
            n == ((lo as u16) | ((hi as u16) << 8)),
    ;
    assert(component_of_le_bytes(b) as u16 == n);
    assert(component_le_bytes(component_of_le_bytes(b) as u16) =~= b);
}

} // verus!
