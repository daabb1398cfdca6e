//! Reading the fields this core consumes out of a bencoded torrent
//! metadata file: the announce URL and the total length. The bencode
//! grammar itself is parsed by bendy; everything after that call — the
//! dictionary walks and the field checks — is verified.

use vstd::prelude::*;

use crate::wire::{bytes_eq, copy_bytes};

verus! {

/// A bencoded value as plain data: integers, byte strings, lists, and
/// dictionaries (as key/value pairs in the file's order).
pub enum BencodeValue {
    Int(i64),
    Bytes(Vec<u8>),
    List(Vec<BencodeValue>),
    Dict(Vec<(Vec<u8>, BencodeValue)>),
}

#[verifier::external_type_specification]
#[verifier::external_body]
pub struct ExBendyValue<'a>(bendy::value::Value<'a>);

/// The value that parsing a buffer as bencode yields, if any. Parsing is a
/// function of the bytes alone; what that function is, only bendy states.
pub uninterp spec fn bencode_value_of(s: Seq<u8>) -> Option<BencodeValue>;

/// Relies on bendy::value::Value::from_bencode: parses one bencoded value
/// from the buffer or reports a structure error; the result depends on the
/// bytes alone.
#[verifier::external_body]
fn bendy_parse(bytes: &[u8]) -> (r: Option<BencodeValue>)
    ensures
        r == bencode_value_of(bytes@),
{
    match <bendy::value::Value as bendy::decoding::FromBencode>::from_bencode(bytes) {
        Ok(v) => Some(plain_of_value(v)),
        Err(_) => None,
    }
}

/// Relies on the shape of bendy::value::Value: each variant is moved, field
/// for field, into the library's own tree.
#[verifier::external_body]
fn plain_of_value(v: bendy::value::Value<'_>) -> BencodeValue {
    match v {
        bendy::value::Value::Bytes(b) => BencodeValue::Bytes(b.into_owned()),
        bendy::value::Value::Integer(i) => BencodeValue::Int(i),
        bendy::value::Value::List(l) => BencodeValue::List(
            l.into_iter().map(plain_of_value).collect(),
        ),
        bendy::value::Value::Dict(d) => BencodeValue::Dict(
            d.into_iter().map(|(k, val)| (k.into_owned(), plain_of_value(val))).collect(),
        ),
    }
}

// ---------------------------------------------------------------------------
// Dictionary lookup, specified and executable.
// ---------------------------------------------------------------------------

/// The value under the first entry whose key is `key`, if any.
pub open spec fn spec_dict_get(
    entries: Seq<(Vec<u8>, BencodeValue)>,
    key: Seq<u8>,
) -> Option<BencodeValue>
    decreases entries.len(),
{
    if entries.len() == 0 {
        None
    } else if entries[0].0@ == key {
        Some(entries[0].1)
    } else {
        spec_dict_get(entries.skip(1), key)
    }
}

pub fn dict_get<'a>(entries: &'a Vec<(Vec<u8>, BencodeValue)>, key: &[u8]) -> (r: Option<
    &'a BencodeValue,
>)
    ensures
        match r {
            Some(v) => spec_dict_get(entries@, key@) == Some(*v),
            None => spec_dict_get(entries@, key@) is None,
        },
{
    let mut i: usize = 0;
    proof {
        assert(entries@.skip(0) =~= entries@);
    }
    while i < entries.len()
        invariant
            i <= entries@.len(),
            spec_dict_get(entries@.skip(i as int), key@) == spec_dict_get(entries@, key@),
        decreases entries@.len() - i,
    {
        let pair = &entries[i];
        proof {
            assert(entries@.skip(i as int)[0] == entries@[i as int]);
        }
        if bytes_eq(pair.0.as_slice(), key) {
            return Some(&pair.1);
        }
        proof {
            assert(entries@.skip(i as int).skip(1) =~= entries@.skip(i as int + 1));
        }
        i = i + 1;
    }
    proof {
        assert(entries@.skip(entries@.len() as int) =~= Seq::<(Vec<u8>, BencodeValue)>::empty());
    }
    None
}

// ---------------------------------------------------------------------------
// The fields this core consumes, and how they sit in the tree.
// ---------------------------------------------------------------------------

pub open spec fn spec_announce_key() -> Seq<u8> {
    seq![97u8, 110u8, 110u8, 111u8, 117u8, 110u8, 99u8, 101u8]
}

pub open spec fn spec_info_key() -> Seq<u8> {
    seq![105u8, 110u8, 102u8, 111u8]
}

pub open spec fn spec_length_key() -> Seq<u8> {
    seq![108u8, 101u8, 110u8, 103u8, 116u8, 104u8]
}

fn announce_key() -> (r: Vec<u8>)
    ensures
        r@ == spec_announce_key(),
{
    let mut v: Vec<u8> = Vec::new();
    v.push(97);
    v.push(110);
    v.push(110);
    v.push(111);
    v.push(117);
    v.push(110);
    v.push(99);
    v.push(101);
    proof {
        assert(v@ =~= spec_announce_key());
    }
    v
}

fn info_key() -> (r: Vec<u8>)
    ensures
        r@ == spec_info_key(),
{
    let mut v: Vec<u8> = Vec::new();
    v.push(105);
    v.push(110);
    v.push(102);
    v.push(111);
    proof {
        assert(v@ =~= spec_info_key());
    }
    v
}

fn length_key() -> (r: Vec<u8>)
    ensures
        r@ == spec_length_key(),
{
    let mut v: Vec<u8> = Vec::new();
    v.push(108);
    v.push(101);
    v.push(110);
    v.push(103);
    v.push(116);
    v.push(104);
    proof {
        assert(v@ =~= spec_length_key());
    }
    v
}

/// The announce URL and total length of a well-formed metadata tree: a
/// dictionary with an `announce` byte string and an `info` dictionary whose
/// `length` is a non-negative integer.
pub open spec fn spec_meta_of(v: BencodeValue) -> Option<(Seq<u8>, u64)> {
    match v {
        BencodeValue::Dict(entries) => match spec_dict_get(entries@, spec_announce_key()) {
            Some(BencodeValue::Bytes(url)) => match spec_dict_get(entries@, spec_info_key()) {
                Some(BencodeValue::Dict(info)) => match spec_dict_get(info@, spec_length_key()) {
                    Some(BencodeValue::Int(len)) => if len >= 0 {
                        Some((url@, len as u64))
                    } else {
                        None
                    },
                    _ => None,
                },
                _ => None,
            },
            _ => None,
        },
        _ => None,
    }
}

/// What this core reads from the upstream metadata file.
#[derive(Debug, PartialEq, Eq)]
pub struct MetaInfo {
    pub announce: Vec<u8>,
    pub total_length: u64,
}

#[derive(Clone, Copy, Debug, PartialEq, Eq, Structural)]
pub enum MetaError {
    /// The buffer is not well-formed bencode.
    Malformed,
    /// The tree misses a consumed field or gives it the wrong shape.
    MissingField,
}

/// Parses a torrent metadata file down to the fields this core consumes.
pub fn parse_bencode(file_contents: &[u8]) -> (r: Result<MetaInfo, MetaError>)
    ensures
        match bencode_value_of(file_contents@) {
            None => r == Err::<MetaInfo, MetaError>(MetaError::Malformed),
            Some(v) => match spec_meta_of(v) {
                Some(fields) => r matches Ok(m) && m.announce@ == fields.0 && m.total_length
                    == fields.1,
                None => r == Err::<MetaInfo, MetaError>(MetaError::MissingField),
            },
        },
{
    let v = match bendy_parse(file_contents) {
        Some(v) => v,
        None => {
            return Err(MetaError::Malformed);
        },
    };
    let entries = match &v {
        BencodeValue::Dict(entries) => entries,
        _ => {
            return Err(MetaError::MissingField);
        },
    };
    let url = match dict_get(entries, announce_key().as_slice()) {
        Some(BencodeValue::Bytes(url)) => url,
        _ => {
            return Err(MetaError::MissingField);
        },
    };
    let info_entries = match dict_get(entries, info_key().as_slice()) {
        Some(BencodeValue::Dict(info_entries)) => info_entries,
        _ => {
            return Err(MetaError::MissingField);
        },
    };
    let len = match dict_get(info_entries, length_key().as_slice()) {
        Some(BencodeValue::Int(len)) => *len,
        _ => {
            return Err(MetaError::MissingField);
        },
    };
    if len < 0 {
        return Err(MetaError::MissingField);
    }
    Ok(MetaInfo { announce: copy_bytes(url.as_slice()), total_length: len as u64 })
}

} // verus!
