//! Minimal PKCS#8 encoding and decoding of Ed25519 private-key containers.
//!
//! Rather than running a general ASN.1/DER encoder, the crate keeps one
//! reference byte skeleton of a valid unencrypted OneAsymmetricKey container
//! and splices the 32-byte seed and 32-byte public key in and out of it at
//! fixed offsets. An incoming container is validated byte-for-byte against
//! the skeleton everywhere outside those two splice regions, so that "is
//! this the expected algorithm, version and shape" never needs a parser;
//! only the OCTET STRING wrapper around the seed is read by a tiny DER
//! reader. Every structural mismatch is reported as one opaque rejection
//! value, deliberately undifferentiated.

use vstd::prelude::*;

pub mod der;
pub mod error;
pub mod pkcs8;

verus! {

use crate::der::Tag;
use crate::error::KeyRejected;
use crate::pkcs8::ByteRange;
use crate::pkcs8::Template;
use crate::pkcs8::Version;

/// Length in bytes of an Ed25519 private-key seed.
pub const SEED_LEN: usize = 32;

/// Length in bytes of an Ed25519 public key.
pub const PUBLIC_KEY_LEN: usize = 32;

/// Total length in bytes of the full (version 1, public key present)
/// container.
pub const CONTAINER_LEN: usize = 85;

/// Offset at which the 32-byte seed sits inside the container.
pub const SEED_INDEX: usize = 16;

/// Offset at which the 32-byte public key sits inside the container.
pub const PUBLIC_KEY_INDEX: usize = 53;

/// A sequence of `n` placeholder zero bytes.
pub open spec fn spec_zeros(n: nat) -> Seq<u8> {
    Seq::new(n, |i: int| 0u8)
}

/// The fixed container bytes before the seed: the outer SEQUENCE header,
/// the version INTEGER 1, the Ed25519 algorithm identifier, and the two
/// nested OCTET STRING headers that wrap the seed.
pub open spec fn spec_template_prefix() -> Seq<u8> {
    seq![
        0x30u8,
        0x53,
        0x02,
        0x01,
        0x01,
        0x30,
        0x05,
        0x06,
        0x03,
        0x2b,
        0x65,
        0x70,
        0x04,
        0x22,
        0x04,
        0x20,
    ]
}

/// The fixed container bytes between the seed and the public key: the
/// context-tagged `[1]` header and the BIT STRING header (with zero unused
/// bits) that wrap the public key.
pub open spec fn spec_template_middle() -> Seq<u8> {
    seq![0xa1u8, 0x23, 0x03, 0x21, 0x00]
}

/// The full 85-byte reference template, with zero placeholders in both
/// splice regions.
pub open spec fn spec_template_bytes() -> Seq<u8> {
    spec_template_prefix() + spec_zeros(32) + spec_template_middle() + spec_zeros(32)
}

/// Whether offset `i` of the container lies in the seed or public-key
/// splice region, where bytes are key material and not compared against the
/// template.
pub open spec fn spec_in_splice_region(i: int) -> bool {
    (16 <= i < 48) || (53 <= i < 85)
}

/// A structurally valid full container: exactly 85 bytes that agree with
/// the reference template everywhere outside the two splice regions.
pub open spec fn spec_valid_container(input: Seq<u8>) -> bool {
    &&& input.len() == 85
    &&& forall|i: int|
        0 <= i < 85 && !spec_in_splice_region(i) ==> #[trigger] input[i]
            == spec_template_bytes()[i]
}

/// What a container must look like for each expected shape: the full
/// container for `V2`; for `V1` only the 48 bytes up to the public-key
/// suffix, matched outside the seed splice region.
pub open spec fn spec_accepted(version: Version, input: Seq<u8>) -> bool {
    match version {
        Version::V1 => {
            &&& input.len() == 48
            &&& forall|i: int|
                0 <= i < 48 && !(16 <= i < 48) ==> #[trigger] input[i] == spec_template_bytes()[i]
        },
        Version::V2 => spec_valid_container(input),
    }
}

/// The seed carried by a container.
pub open spec fn spec_seed(input: Seq<u8>) -> Seq<u8> {
    input.subrange(16, 48)
}

/// The public key carried by a full container.
pub open spec fn spec_public_key(input: Seq<u8>) -> Seq<u8> {
    input.subrange(53, 85)
}

/// The container that encodes the given seed and public key.
pub open spec fn spec_container(seed: Seq<u8>, public_key: Seq<u8>) -> Seq<u8> {
    spec_template_prefix() + seed + spec_template_middle() + public_key
}

/// Builds the process-wide reference template for the Ed25519 full
/// container shape. The template is immutable after construction; every
/// wrap and unwrap reads it and never writes it.
pub fn ed25519_template() -> (t: Template)
    ensures
        t.wf(),
        t.bytes@ == spec_template_bytes(),
        t.alg_id_range.start == 7,
        t.alg_id_range.end == 12,
        t.curve_id_index == 0,
        t.private_key_index == SEED_INDEX,
        t.private_key_len == SEED_LEN,
        t.public_key_len == PUBLIC_KEY_LEN,
{
    let mut bytes: Vec<u8> = Vec::new();
    bytes.push(0x30);
    bytes.push(0x53);
    bytes.push(0x02);
    bytes.push(0x01);
    bytes.push(0x01);
    bytes.push(0x30);
    bytes.push(0x05);
    bytes.push(0x06);
    bytes.push(0x03);
    bytes.push(0x2b);
    bytes.push(0x65);
    bytes.push(0x70);
    bytes.push(0x04);
    bytes.push(0x22);
    bytes.push(0x04);
    bytes.push(0x20);
    proof {
        assert(bytes@ =~= spec_template_prefix());
    }
    let mut i: usize = 0;
    while i < 32
        invariant
            i <= 32,
            bytes@ == spec_template_prefix() + spec_zeros(i as nat),
        decreases 32 - i,
    {
        bytes.push(0x00);
        proof {
            assert(bytes@ =~= spec_template_prefix() + spec_zeros((i + 1) as nat));
        }
        i += 1;
    }
    bytes.push(0xa1);
    bytes.push(0x23);
    bytes.push(0x03);
    bytes.push(0x21);
    bytes.push(0x00);
    proof {
        assert(bytes@ =~= spec_template_prefix() + spec_zeros(32) + spec_template_middle());
    }
    let mut i: usize = 0;
    while i < 32
        invariant
            i <= 32,
            bytes@ == spec_template_prefix() + spec_zeros(32) + spec_template_middle()
                + spec_zeros(i as nat),
        decreases 32 - i,
    {
        bytes.push(0x00);
        proof {
            assert(bytes@ =~= spec_template_prefix() + spec_zeros(32) + spec_template_middle()
                + spec_zeros((i + 1) as nat));
        }
        i += 1;
    }
    let t = Template {
        bytes,
        alg_id_range: ByteRange { start: 7, end: 12 },
        curve_id_index: 0,
        private_key_index: SEED_INDEX,
        private_key_len: SEED_LEN,
        public_key_len: PUBLIC_KEY_LEN,
    };
    proof {
        assert(t.bytes@ == spec_template_bytes());
        assert(spec_template_bytes().len() == 85);
        assert(spec_template_bytes()[14] == 0x04);
        assert(spec_template_bytes()[15] == 0x20);
    }
    t
}

/// Unwraps a container of the expected shape against the Ed25519 template
/// and peels the OCTET STRING wrapper off the private-key region, requiring
/// that the wrapper spans that region exactly.
fn unwrap_pkcs8<'a>(version: Version, input: &'a [u8]) -> (r: Result<
    (&'a [u8], Option<&'a [u8]>),
    KeyRejected,
>)
    ensures
        r is Ok <==> spec_accepted(version, input@),
        r is Ok ==> (r->Ok_0).0@ == spec_seed(input@),
        r is Ok && version is V1 ==> (r->Ok_0).1 is None,
        r is Ok && version is V2 ==> (r->Ok_0).1 is Some && ((r->Ok_0).1->0)@ == spec_public_key(
            input@,
        ),
{
    let template = ed25519_template();
    proof {
        assert(template.accepts(version, input@) <==> spec_accepted(version, input@));
    }
    let (wrapped, public_key) = match crate::pkcs8::unwrap_key(&template, version, input) {
        Ok(p) => p,
        Err(e) => {
            return Err(e);
        },
    };
    proof {
        let w = wrapped@;
        assert(input@[14] == spec_template_bytes()[14]);
        assert(input@[15] == spec_template_bytes()[15]);
        assert(w.len() == 34);
        assert(w[0] == 0x04);
        assert(w[1] == 0x20);
        assert(w.subrange(2, 34) =~= input@.subrange(16, 48));
        assert(spec_tlv_value(w) == spec_seed(input@));
    }
    let seed = match crate::der::read_all_tag_and_get_value(wrapped, Tag::OctetString) {
        Ok(s) => s,
        Err(_) => {
            return Err(KeyRejected::invalid_encoding());
        },
    };
    Ok((seed, public_key))
}

/// The value field of the one TLV element that `input` consists of, read
/// under the OCTET STRING tag.
spec fn spec_tlv_value(input: Seq<u8>) -> Seq<u8> {
    (crate::der::spec_tlv(input, Tag::OctetString.spec_byte())->0).0
}

/// Decodes a full Ed25519 container: validates it against the reference
/// template, unwraps the seed's OCTET STRING, and returns the seed and the
/// public key as views into `secret_key`. Any structural mismatch — wrong
/// length, wrong algorithm identifier, any skeleton byte changed, or a
/// missing public-key suffix — yields the one opaque rejection value.
pub fn from_pkcs8(secret_key: &[u8]) -> (r: Result<(&[u8], &[u8]), KeyRejected>)
    ensures
        r is Ok <==> spec_valid_container(secret_key@),
        r is Ok ==> (r->Ok_0).0@ == spec_seed(secret_key@),
        r is Ok ==> (r->Ok_0).1@ == spec_public_key(secret_key@),
{
    match unwrap_pkcs8(Version::V2, secret_key) {
        Ok((seed, Some(public_key))) => Ok((seed, public_key)),
        Ok((_, None)) => Err(KeyRejected::invalid_encoding()),
        Err(e) => Err(e),
    }
}

/// Encodes a 32-byte seed and 32-byte public key as a full Ed25519
/// container: the reference template with the two splice regions
/// overwritten. The same inputs always yield the same 85 bytes.
pub fn create_pkcs8(seed: &[u8], public_key: &[u8]) -> (r: Vec<u8>)
    requires
        seed@.len() == SEED_LEN,
        public_key@.len() == PUBLIC_KEY_LEN,
    ensures
        r@ == spec_container(seed@, public_key@),
{
    let template = ed25519_template();
    let out = crate::pkcs8::wrap_key(&template, seed, public_key);
    proof {
        assert(template.bytes@.subrange(0, 16) =~= spec_template_prefix());
        assert(template.bytes@.subrange(48, 53) =~= spec_template_middle());
        assert(out@ == spec_container(seed@, public_key@));
    }
    out
}

/// Law: decoding an encoded container returns exactly the seed and public
/// key that built it — the container is valid, its seed region reads back
/// as `seed`, and its public-key region reads back as `public_key`.
pub proof fn lemma_round_trip(seed: Seq<u8>, public_key: Seq<u8>)
    requires
        seed.len() == SEED_LEN,
        public_key.len() == PUBLIC_KEY_LEN,
    ensures
        spec_valid_container(spec_container(seed, public_key)),
        spec_seed(spec_container(seed, public_key)) == seed,
        spec_public_key(spec_container(seed, public_key)) == public_key,
{
    let c = spec_container(seed, public_key);
    assert forall|i: int| 0 <= i < 85 && !spec_in_splice_region(i) implies #[trigger] c[i]
        == spec_template_bytes()[i] by {
        assert(c.len() == 85);
    };
    assert(spec_seed(c) =~= seed);
    assert(spec_public_key(c) =~= public_key);
}

/// Law: a container whose length is not exactly the expected 85 bytes is
/// rejected, whatever its content.
pub proof fn lemma_wrong_length_rejected(input: Seq<u8>)
    requires
        input.len() != 85,
    ensures
        !spec_valid_container(input),
{
}

/// Law: flipping any single byte outside both splice regions of a valid
/// container — a tag, a length, the version, or any identifier byte —
/// makes the container rejected.
pub proof fn lemma_skeleton_flip_rejected(input: Seq<u8>, i: int, b: u8)
    requires
        spec_valid_container(input),
        0 <= i < 85,
        !spec_in_splice_region(i),
        b != input[i],
    ensures
        !spec_valid_container(input.update(i, b)),
{
    let c = input.update(i, b);
    assert(input[i] == spec_template_bytes()[i]);
    assert(c[i] != spec_template_bytes()[i]);
}

/// Law: flipping any single byte inside the algorithm-identifier region of
/// a valid container makes it rejected.
pub proof fn lemma_alg_id_flip_rejected(input: Seq<u8>, i: int, b: u8)
    requires
        spec_valid_container(input),
        7 <= i < 12,
        b != input[i],
    ensures
        !spec_valid_container(input.update(i, b)),
{
    lemma_skeleton_flip_rejected(input, i, b);
}

/// Law: flipping any single byte inside the seed or public-key splice
/// region of a valid container does not reject it: the container stays
/// valid and simply carries the flipped byte as new key material.
pub proof fn lemma_splice_flip_tolerated(input: Seq<u8>, i: int, b: u8)
    requires
        spec_valid_container(input),
        spec_in_splice_region(i),
    ensures
        spec_valid_container(input.update(i, b)),
        16 <= i < 48 ==> spec_seed(input.update(i, b)) == spec_seed(input).update(i - 16, b),
        53 <= i < 85 ==> spec_public_key(input.update(i, b)) == spec_public_key(input).update(
            i - 53,
            b,
        ),
{
    let c = input.update(i, b);
    assert forall|k: int| 0 <= k < 85 && !spec_in_splice_region(k) implies #[trigger] c[k]
        == spec_template_bytes()[k] by {
        assert(input[k] == spec_template_bytes()[k]);
    };
    if 16 <= i < 48 {
        assert(spec_seed(c) =~= spec_seed(input).update(i - 16, b));
        assert(spec_public_key(c) =~= spec_public_key(input));
    } else {
        assert(spec_seed(c) =~= spec_seed(input));
        assert(spec_public_key(c) =~= spec_public_key(input).update(i - 53, b));
    }
}

/// Law: a well-formed container of the private-key-only shape is rejected
/// by the full-shape decoder — it is 48 bytes where 85 are demanded, so a
/// public-key suffix can never be conjured from it.
pub proof fn lemma_v1_shape_rejected(input: Seq<u8>)
    requires
        spec_accepted(Version::V1, input),
    ensures
        !spec_valid_container(input),
{
    lemma_wrong_length_rejected(input);
}

} // verus!
