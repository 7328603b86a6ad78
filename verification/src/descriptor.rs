//! Face descriptors and their stored form.
//!
//! A descriptor is the name of an enrolled person and the embedding of the
//! face, a vector of fixed length. Embeddings are 32-bit floats; this crate
//! never computes with them and carries each one as its bit pattern, so that
//! what is stored is what was extracted, bit for bit.
//!
//! The stored form is the one that `bincode` gives a pair of a string and a
//! vector of 32-bit words: the length of the name in bytes, the name in
//! UTF-8, the number of words, and the words, every integer little-endian.

use vstd::bytes::*;
use vstd::prelude::*;
use vstd::utf8::*;

use crate::error::FaceError;

verus! {

/// The number of values in every embedding.
pub const FEATURE_LEN: usize = 128;

/// The error of the `bincode` crate.
#[verifier::external_type_specification]
#[verifier::external_body]
pub struct ExErrorKind(bincode::ErrorKind);

/// A length as it is stored: eight bytes, little-endian.
pub open spec fn length_prefix(len: nat) -> Seq<u8> {
    spec_u64_to_le_bytes(len as u64)
}

/// Words as they are stored: four bytes each, little-endian.
pub open spec fn words_le(words: Seq<u32>) -> Seq<u8>
    decreases words.len(),
{
    if words.len() == 0 {
        Seq::empty()
    } else {
        words_le(words.drop_last()) + spec_u32_to_le_bytes(words.last())
    }
}

/// The stored form of a name and an embedding.
pub open spec fn descriptor_encoding(name: Seq<char>, feature: Seq<u32>) -> Seq<u8> {
    length_prefix(encode_utf8(name).len()) + encode_utf8(name) + length_prefix(feature.len())
        + words_le(feature)
}

/// A descriptor as contracts see it.
pub struct DescriptorView {
    pub name: Seq<char>,
    pub feature: Seq<u32>,
}

/// The descriptor that `bytes` begin with: the name and the embedding of
/// full length whose stored form the first bytes are. Bytes after it are
/// not looked at. `None` where the bytes begin with no such form.
pub open spec fn decoding(bytes: Seq<u8>) -> Option<DescriptorView> {
    if exists|name: Seq<char>, feature: Seq<u32>|
        feature.len() == FEATURE_LEN && (#[trigger] descriptor_encoding(name, feature)).is_prefix_of(
            bytes,
        ) {
        let (name, feature) = choose|name: Seq<char>, feature: Seq<u32>|
            feature.len() == FEATURE_LEN && (#[trigger] descriptor_encoding(
                name,
                feature,
            )).is_prefix_of(bytes);
        Some(DescriptorView { name, feature })
    } else {
        None
    }
}

/// `bincode::serialize`, applied to the pair of the name and the words. The
/// result is the stored form described above. Serialising into a vector
/// without a size limit, as this function does, has no way to fail, so the
/// result is always `Ok`.
#[verifier::external_body]
fn serialize_fields(name: &String, feature: &Vec<u32>) -> (r: Result<
    Vec<u8>,
    Box<bincode::ErrorKind>,
>)
    ensures
        r is Ok,
        r->Ok_0@ == descriptor_encoding(name@, feature@),
{
    bincode::serialize(&(name, feature))
}

/// `bincode::deserialize`, asked for a pair of a string and a vector of
/// 32-bit words. It succeeds exactly when the bytes begin with the stored
/// form of such a pair, which it then returns; it rejects a name that is
/// not UTF-8 and input that ends early, and does not look at what follows
/// the pair.
#[verifier::external_body]
fn deserialize_fields(bytes: &[u8]) -> (r: Result<(String, Vec<u32>), Box<bincode::ErrorKind>>)
    ensures
        match r {
            Ok((name, feature)) => descriptor_encoding(name@, feature@).is_prefix_of(bytes@),
            Err(_) => forall|name: Seq<char>, feature: Seq<u32>|
                !(#[trigger] descriptor_encoding(name, feature)).is_prefix_of(bytes@),
        },
{
    bincode::deserialize::<(String, Vec<u32>)>(bytes)
}

/// Stored words take four bytes each.
pub proof fn lemma_words_le_len(words: Seq<u32>)
    ensures
        words_le(words).len() == 4 * words.len(),
    decreases words.len(),
{
    lemma_auto_spec_u32_to_from_le_bytes();
    if words.len() > 0 {
        lemma_words_le_len(words.drop_last());
    }
}

/// Different words are stored differently.
proof fn lemma_words_le_injective(a: Seq<u32>, b: Seq<u32>)
    requires
        a.len() == b.len(),
        words_le(a) == words_le(b),
    ensures
        a == b,
    decreases a.len(),
{
    lemma_auto_spec_u32_to_from_le_bytes();
    if a.len() > 0 {
        let head_a = words_le(a.drop_last());
        let head_b = words_le(b.drop_last());
        let tail_a = spec_u32_to_le_bytes(a.last());
        let tail_b = spec_u32_to_le_bytes(b.last());
        lemma_words_le_len(a.drop_last());
        lemma_words_le_len(b.drop_last());
        let whole = words_le(a);
        let cut = head_a.len() as int;
        assert(head_a =~= whole.subrange(0, cut));
        assert(head_b =~= whole.subrange(0, cut));
        assert(tail_a =~= whole.subrange(cut, whole.len() as int));
        assert(tail_b =~= whole.subrange(cut, whole.len() as int));
        assert(a.last() == b.last());
        lemma_words_le_injective(a.drop_last(), b.drop_last());
        assert(a =~= a.drop_last().push(a.last()));
        assert(b =~= b.drop_last().push(b.last()));
    } else {
        assert(a =~= b);
    }
}

/// Cutting a sequence that was put together from four parts, at the places
/// where the parts meet, gives the parts back.
proof fn lemma_four_parts(a: Seq<u8>, b: Seq<u8>, c: Seq<u8>, d: Seq<u8>)
    ensures
        ({
            let whole = a + b + c + d;
            let i = a.len() as int;
            let j = i + b.len();
            let k = j + c.len();
            &&& whole.len() == k + d.len()
            &&& whole.subrange(0, i) == a
            &&& whole.subrange(i, j) == b
            &&& whole.subrange(j, k) == c
            &&& whole.subrange(k, whole.len() as int) == d
        }),
{
    let ab = a + b;
    let abc = ab + c;
    let whole = abc + d;
    let i = a.len() as int;
    let j = i + b.len();
    let k = j + c.len();
    assert forall|x: int| 0 <= x < k implies whole[x] == abc[x] by {}
    assert forall|x: int| 0 <= x < j implies abc[x] == ab[x] by {}
}

/// Where the four parts of a stored form lie in bytes that begin with it.
proof fn lemma_encoding_parts(name: Seq<char>, feature: Seq<u32>, bytes: Seq<u8>)
    requires
        descriptor_encoding(name, feature).is_prefix_of(bytes),
    ensures
        ({
            let n = encode_utf8(name).len() as int;
            let m = feature.len() as int;
            &&& 16 + n + 4 * m <= bytes.len()
            &&& bytes.subrange(0, 8) == length_prefix(n as nat)
            &&& bytes.subrange(8, 8 + n) == encode_utf8(name)
            &&& bytes.subrange(8 + n, 16 + n) == length_prefix(m as nat)
            &&& bytes.subrange(16 + n, 16 + n + 4 * m) == words_le(feature)
        }),
{
    lemma_auto_spec_u64_to_from_le_bytes();
    lemma_words_le_len(feature);
    let n = encode_utf8(name).len() as int;
    let m = feature.len() as int;
    let whole = descriptor_encoding(name, feature);
    lemma_four_parts(
        length_prefix(n as nat),
        encode_utf8(name),
        length_prefix(m as nat),
        words_le(feature),
    );
    assert(bytes.subrange(16 + n, 16 + n + 4 * m) =~= whole.subrange(
        16 + n,
        whole.len() as int,
    ));
}

/// Bytes begin with the stored form of at most one name and embedding.
pub proof fn lemma_encoding_unique(
    bytes: Seq<u8>,
    name: Seq<char>,
    feature: Seq<u32>,
    other_name: Seq<char>,
    other_feature: Seq<u32>,
)
    requires
        bytes.len() <= u64::MAX,
        descriptor_encoding(name, feature).is_prefix_of(bytes),
        descriptor_encoding(other_name, other_feature).is_prefix_of(bytes),
    ensures
        name == other_name,
        feature == other_feature,
{
    lemma_auto_spec_u64_to_from_le_bytes();
    lemma_encoding_parts(name, feature, bytes);
    lemma_encoding_parts(other_name, other_feature, bytes);
    // Both forms fit into `bytes`, so no length was cut short when it was
    // stored, and equal prefixes mean equal lengths.
    assert(encode_utf8(name).len() == encode_utf8(other_name).len());
    encode_utf8_decode_utf8(name);
    encode_utf8_decode_utf8(other_name);
    assert(name == other_name);
    assert(feature.len() == other_feature.len());
    lemma_words_le_injective(feature, other_feature);
}

/// What was encoded is what decoding gives back: for every name and every
/// embedding of full length whose stored form fits the address space,
/// decoding the stored form yields that name and that embedding, exactly.
pub proof fn lemma_round_trip(name: Seq<char>, feature: Seq<u32>)
    requires
        feature.len() == FEATURE_LEN,
        descriptor_encoding(name, feature).len() <= u64::MAX,
    ensures
        decoding(descriptor_encoding(name, feature)) == Some(DescriptorView { name, feature }),
{
    let bytes = descriptor_encoding(name, feature);
    assert(bytes.is_prefix_of(bytes));
    let (found_name, found_feature) = choose|n: Seq<char>, f: Seq<u32>|
        f.len() == FEATURE_LEN && (#[trigger] descriptor_encoding(n, f)).is_prefix_of(bytes);
    lemma_encoding_unique(bytes, name, feature, found_name, found_feature);
}

/// A single-channel matrix of 32-bit floats as the recogniser produces and
/// consumes it: its shape and its values row after row, each value by its
/// bit pattern.
#[derive(Clone, Debug, PartialEq, Eq)]
pub struct FeatureMat {
    pub rows: usize,
    pub cols: usize,
    pub data: Vec<u32>,
}

/// The name of an enrolled person with the embedding of the face. The
/// embedding always has [`FEATURE_LEN`] values.
#[derive(Debug)]
pub struct FaceDescriptor {
    name: String,
    feature: Vec<u32>,
}

impl View for FaceDescriptor {
    type V = DescriptorView;

    closed spec fn view(&self) -> DescriptorView {
        DescriptorView { name: self.name@, feature: self.feature@ }
    }
}

impl FaceDescriptor {
    #[verifier::type_invariant]
    spec fn inv(self) -> bool {
        self.feature@.len() == FEATURE_LEN
    }

    /// A descriptor of the given name and embedding. An embedding of any
    /// length but [`FEATURE_LEN`] is refused as corrupt.
    pub fn new(name: String, feature: Vec<u32>) -> (r: Result<FaceDescriptor, FaceError>)
        ensures
            match r {
                Ok(d) => feature@.len() == FEATURE_LEN && d@ == (DescriptorView {
                    name: name@,
                    feature: feature@,
                }),
                Err(e) => e == FaceError::CorruptDescriptor && feature@.len() != FEATURE_LEN,
            },
    {
        if feature.len() == FEATURE_LEN {
            Ok(FaceDescriptor { name, feature })
        } else {
            Err(FaceError::CorruptDescriptor)
        }
    }

    /// The descriptor for an embedding that the recogniser has extracted.
    /// The values of the matrix are taken in storage order, whatever its
    /// shape; a matrix that does not hold [`FEATURE_LEN`] values is refused
    /// as corrupt.
    pub fn from_mat(name: &str, feature_mat: &FeatureMat) -> (r: Result<FaceDescriptor, FaceError>)
        ensures
            match r {
                Ok(d) => feature_mat.data@.len() == FEATURE_LEN && d@ == (DescriptorView {
                    name: name@,
                    feature: feature_mat.data@,
                }),
                Err(e) => e == FaceError::CorruptDescriptor && feature_mat.data@.len()
                    != FEATURE_LEN,
            },
    {
        FaceDescriptor::new(name.to_owned(), copy_words(&feature_mat.data))
    }

    /// The embedding as a matrix of one row, ready for matching.
    pub fn to_mat(&self) -> (r: FeatureMat)
        ensures
            r.rows == 1,
            r.cols == FEATURE_LEN,
            r.data@ == self@.feature,
    {
        FeatureMat { rows: 1, cols: FEATURE_LEN, data: copy_words(&self.feature) }
    }

    pub fn name(&self) -> (r: &String)
        ensures
            r@ == self@.name,
    {
        &self.name
    }

    pub fn feature(&self) -> (r: &Vec<u32>)
        ensures
            r@ == self@.feature,
            r@.len() == FEATURE_LEN,
    {
        proof {
            use_type_invariant(self);
        }
        &self.feature
    }
}

fn copy_words(words: &Vec<u32>) -> (r: Vec<u32>)
    ensures
        r@ == words@,
{
    let mut copy: Vec<u32> = Vec::new();
    let mut i: usize = 0;
    while i < words.len()
        invariant
            i <= words.len(),
            copy@ == words@.take(i as int),
        decreases words.len() - i,
    {
        copy.push(words[i]);
        i += 1;
    }
    copy
}

/// The stored form of a descriptor. Decoding it gives the descriptor back.
pub fn encode(descriptor: &FaceDescriptor) -> (r: Vec<u8>)
    ensures
        r@ == descriptor_encoding(descriptor@.name, descriptor@.feature),
        decoding(r@) == Some(descriptor@),
{
    proof {
        use_type_invariant(descriptor);
    }
    match serialize_fields(&descriptor.name, &descriptor.feature) {
        Ok(bytes) => {
            proof {
                assert(bytes@.len() == bytes.len());
                lemma_round_trip(descriptor@.name, descriptor@.feature);
            }
            bytes
        },
        Err(_) => Vec::new(),
    }
}

/// Reads a descriptor from its stored form. Bytes that are truncated, that
/// do not hold a name in UTF-8, or that hold an embedding of any length but
/// [`FEATURE_LEN`] are refused as corrupt. Bytes after the descriptor are
/// ignored.
pub fn decode(bytes: &[u8]) -> (r: Result<FaceDescriptor, FaceError>)
    ensures
        match r {
            Ok(d) => decoding(bytes@) == Some(d@),
            Err(e) => e == FaceError::CorruptDescriptor && decoding(bytes@) is None,
        },
{
    match deserialize_fields(bytes) {
        Ok((name, feature)) => {
            proof {
                assert forall|n: Seq<char>, f: Seq<u32>| #[trigger]
                    descriptor_encoding(n, f).is_prefix_of(bytes@) implies n == name@ && f
                    == feature@ by {
                    assert(bytes@.len() == bytes.len());
                    lemma_encoding_unique(bytes@, name@, feature@, n, f);
                }
            }
            FaceDescriptor::new(name, feature)
        },
        Err(_) => Err(FaceError::CorruptDescriptor),
    }
}

} // verus!
