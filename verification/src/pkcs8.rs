//! Template engine: splices variable key material into and out of a fixed
//! DER skeleton instead of running a general ASN.1 parser.
//!
//! A [`Template`] holds the full reference encoding of a minimal, valid
//! container with placeholder key material of the exact final length.
//! Wrapping overwrites the placeholder regions with the real seed and public
//! key; unwrapping checks an incoming container byte-for-byte against the
//! reference everywhere outside those splice regions and extracts the two
//! variable fields as views into the input.

use vstd::prelude::*;
use vstd::slice::slice_index_get;
use vstd::slice::slice_subrange;
use crate::der::Tag;
use crate::error::KeyRejected;

verus! {

/// A half-open range of byte offsets within a template's reference bytes.
#[derive(Clone, Copy, Debug, PartialEq, Eq)]
pub struct ByteRange {
    pub start: usize,
    pub end: usize,
}

/// The container shape expected while unwrapping: a version 0 container
/// holds a private key only, a version 1 container additionally carries a
/// public-key suffix.
#[derive(Clone, Copy, Debug, PartialEq, Eq)]
pub enum Version {
    V1,
    V2,
}

/// Immutable reference structure for one supported container shape.
pub struct Template {
    /// The full reference DER encoding of a minimal, valid container, with
    /// placeholder seed and public-key content of the exact length that real
    /// key material will have.
    pub bytes: Vec<u8>,
    /// The byte range of the algorithm-identifier sub-structure, which must
    /// match the reference byte-for-byte in every accepted container.
    pub alg_id_range: ByteRange,
    /// Offset within `alg_id_range` at which the curve identifier begins.
    pub curve_id_index: usize,
    /// Offset at which the seed payload begins; the two bytes before it are
    /// the tag and length of the OCTET STRING that wraps the seed.
    pub private_key_index: usize,
    /// Length of the seed payload (and of its placeholder).
    pub private_key_len: usize,
    /// Length of the trailing public-key payload (and of its placeholder).
    pub public_key_len: usize,
}

impl Template {
    /// First offset of the seed splice region.
    pub open spec fn seed_start(self) -> int {
        self.private_key_index as int
    }

    /// One past the last offset of the seed splice region. A container of
    /// the private-key-only shape ends here.
    pub open spec fn seed_end(self) -> int {
        self.private_key_index + self.private_key_len
    }

    /// First offset of the public-key splice region, which runs to the end
    /// of the container.
    pub open spec fn pub_start(self) -> int {
        self.bytes@.len() - self.public_key_len
    }

    /// Internal consistency of the offsets and of the seed's OCTET STRING
    /// wrapper within the reference bytes.
    pub open spec fn wf(self) -> bool {
        &&& self.alg_id_range.start <= self.alg_id_range.end
        &&& self.curve_id_index <= self.alg_id_range.end - self.alg_id_range.start
        &&& 2 <= self.private_key_index
        &&& self.alg_id_range.end + 2 <= self.private_key_index
        &&& self.private_key_len < 0x80
        &&& self.private_key_index + self.private_key_len + self.public_key_len
            <= self.bytes@.len()
        &&& self.bytes@[self.private_key_index - 2] == Tag::OctetString.spec_byte()
        &&& self.bytes@[self.private_key_index - 1] == self.private_key_len as u8
    }

    /// The exact container length demanded for the given shape: everything
    /// up to the public-key suffix for `V1`, the full reference length for
    /// `V2`.
    pub open spec fn expected_len(self, version: Version) -> int {
        match version {
            Version::V1 => self.seed_end(),
            Version::V2 => self.bytes@.len() as int,
        }
    }

    /// Whether offset `i` lies in a splice region, where incoming bytes are
    /// key material and deliberately not compared against the reference.
    pub open spec fn in_splice(self, version: Version, i: int) -> bool {
        (self.seed_start() <= i < self.seed_end()) || (version is V2 && self.pub_start() <= i
            < self.bytes@.len())
    }

    /// Whether `input` is structurally acceptable for the given shape: it
    /// has exactly the expected length and agrees with the reference bytes
    /// everywhere outside the splice regions.
    pub open spec fn accepts(self, version: Version, input: Seq<u8>) -> bool {
        &&& input.len() == self.expected_len(version)
        &&& forall|i: int|
            0 <= i < input.len() && !self.in_splice(version, i) ==> #[trigger] input[i]
                == self.bytes@[i]
    }

    /// The full container obtained by substituting `seed` and `public_key`
    /// for the placeholder content of the reference bytes.
    pub open spec fn spliced(self, seed: Seq<u8>, public_key: Seq<u8>) -> Seq<u8> {
        self.bytes@.subrange(0, self.seed_start()) + seed + self.bytes@.subrange(
            self.seed_end(),
            self.pub_start(),
        ) + public_key
    }
}

/// How each offset of a spliced container reads: reference bytes outside
/// the splice regions, the substituted key material inside them.
pub proof fn lemma_spliced_parts(t: Template, seed: Seq<u8>, public_key: Seq<u8>)
    requires
        t.wf(),
        seed.len() == t.private_key_len,
        public_key.len() == t.public_key_len,
    ensures
        t.spliced(seed, public_key).len() == t.bytes@.len(),
        forall|k: int|
            0 <= k < t.seed_start() ==> #[trigger] t.spliced(seed, public_key)[k] == t.bytes@[k],
        forall|k: int|
            t.seed_start() <= k < t.seed_end() ==> #[trigger] t.spliced(seed, public_key)[k]
                == seed[k - t.seed_start()],
        forall|k: int|
            t.seed_end() <= k < t.pub_start() ==> #[trigger] t.spliced(seed, public_key)[k]
                == t.bytes@[k],
        forall|k: int|
            t.pub_start() <= k < t.bytes@.len() ==> #[trigger] t.spliced(seed, public_key)[k]
                == public_key[k - t.pub_start()],
{
}

/// A spliced container is itself accepted for the full shape, and reading
/// its splice regions back yields exactly the substituted key material.
pub proof fn lemma_spliced_accepted(t: Template, seed: Seq<u8>, public_key: Seq<u8>)
    requires
        t.wf(),
        seed.len() == t.private_key_len,
        public_key.len() == t.public_key_len,
    ensures
        t.accepts(Version::V2, t.spliced(seed, public_key)),
        t.spliced(seed, public_key).subrange(t.seed_start(), t.seed_end()) == seed,
        t.spliced(seed, public_key).subrange(t.pub_start(), t.bytes@.len() as int) == public_key,
{
    lemma_spliced_parts(t, seed, public_key);
    let c = t.spliced(seed, public_key);
    assert(c.subrange(t.seed_start(), t.seed_end()) =~= seed);
    assert(c.subrange(t.pub_start(), t.bytes@.len() as int) =~= public_key);
}

/// Clones the reference bytes and overwrites the two splice regions with
/// the given key material, returning the finished container by value. The
/// caller guarantees that `seed` and `public_key` have exactly the
/// placeholder lengths: lengths and tags encoded inside the reference
/// therefore stay correct without any re-derivation.
pub fn wrap_key(template: &Template, seed: &[u8], public_key: &[u8]) -> (r: Vec<u8>)
    requires
        template.wf(),
        seed@.len() == template.private_key_len,
        public_key@.len() == template.public_key_len,
    ensures
        r@ == template.spliced(seed@, public_key@),
{
    let n = template.bytes.len();
    let mut out: Vec<u8> = Vec::new();
    let mut i: usize = 0;
    while i < n
        invariant
            i <= n,
            n == template.bytes@.len(),
            out@ == template.bytes@.subrange(0, i as int),
        decreases n - i,
    {
        out.push(template.bytes[i]);
        proof {
            assert(out@ =~= template.bytes@.subrange(0, i + 1));
        }
        i += 1;
    }
    proof {
        assert(out@ =~= template.bytes@);
    }
    let seed_start = template.private_key_index;
    let mut j: usize = 0;
    while j < seed.len()
        invariant
            template.wf(),
            seed@.len() == template.private_key_len,
            seed_start == template.private_key_index,
            j <= seed@.len(),
            n == template.bytes@.len(),
            out@.len() == n,
            forall|k: int|
                0 <= k < out@.len() && !(seed_start <= k < seed_start + j) ==> #[trigger] out@[k]
                    == template.bytes@[k],
            forall|k: int|
                seed_start <= k < seed_start + j ==> #[trigger] out@[k] == seed@[k - seed_start],
        decreases seed@.len() - j,
    {
        out.set(seed_start + j, *slice_index_get(seed, j));
        j += 1;
    }
    let pub_start = n - template.public_key_len;
    let mut j: usize = 0;
    while j < public_key.len()
        invariant
            template.wf(),
            seed@.len() == template.private_key_len,
            public_key@.len() == template.public_key_len,
            seed_start == template.private_key_index,
            pub_start == template.pub_start(),
            j <= public_key@.len(),
            n == template.bytes@.len(),
            out@.len() == n,
            forall|k: int|
                0 <= k < out@.len() && !(seed_start <= k < seed_start + seed@.len()) && !(pub_start
                    <= k < pub_start + j) ==> #[trigger] out@[k] == template.bytes@[k],
            forall|k: int|
                seed_start <= k < seed_start + seed@.len() ==> #[trigger] out@[k] == seed@[k
                    - seed_start],
            forall|k: int|
                pub_start <= k < pub_start + j ==> #[trigger] out@[k] == public_key@[k - pub_start],
        decreases public_key@.len() - j,
    {
        out.set(pub_start + j, *slice_index_get(public_key, j));
        j += 1;
    }
    proof {
        lemma_spliced_parts(*template, seed@, public_key@);
        assert(out@ =~= template.spliced(seed@, public_key@));
    }
    out
}

/// Validates `input` against the template for the expected shape and, on
/// success, returns the still-OCTET-STRING-wrapped private-key region and,
/// for the full shape, the raw trailing public-key region, both as views
/// into `input`. Every structural mismatch is reported as the same opaque
/// rejection.
pub fn unwrap_key<'a>(template: &Template, version: Version, input: &'a [u8]) -> (r: Result<
    (&'a [u8], Option<&'a [u8]>),
    KeyRejected,
>)
    requires
        template.wf(),
    ensures
        r is Ok <==> template.accepts(version, input@),
        r is Ok ==> (r->Ok_0).0@ == input@.subrange(
            template.seed_start() - 2,
            template.seed_end(),
        ),
        r is Ok && version is V1 ==> (r->Ok_0).1 is None,
        r is Ok && version is V2 ==> (r->Ok_0).1 is Some && ((r->Ok_0).1->0)@ == input@.subrange(
            template.pub_start(),
            template.bytes@.len() as int,
        ),
{
    let n = template.bytes.len();
    let expected_len: usize = match version {
        Version::V1 => template.private_key_index + template.private_key_len,
        Version::V2 => n,
    };
    if input.len() != expected_len {
        return Err(KeyRejected::invalid_encoding());
    }
    let mut i: usize = template.alg_id_range.start;
    while i < template.alg_id_range.end
        invariant
            template.wf(),
            input@.len() == template.expected_len(version),
            template.alg_id_range.start <= i <= template.alg_id_range.end,
        decreases template.alg_id_range.end - i,
    {
        if *slice_index_get(input, i) != template.bytes[i] {
            return Err(KeyRejected::invalid_encoding());
        }
        i += 1;
    }
    let seed_start = template.private_key_index;
    let seed_end = template.private_key_index + template.private_key_len;
    let pub_start = template.bytes.len() - template.public_key_len;
    let mut i: usize = 0;
    while i < input.len()
        invariant
            template.wf(),
            input@.len() == template.expected_len(version),
            seed_start == template.private_key_index,
            seed_end == template.seed_end(),
            pub_start == template.pub_start(),
            i <= input@.len(),
            forall|k: int|
                0 <= k < i && !template.in_splice(version, k) ==> #[trigger] input@[k]
                    == template.bytes@[k],
        decreases input@.len() - i,
    {
        let in_seed = seed_start <= i && i < seed_end;
        let in_pub = match version {
            Version::V1 => false,
            Version::V2 => pub_start <= i,
        };
        if !in_seed && !in_pub {
            if *slice_index_get(input, i) != template.bytes[i] {
                return Err(KeyRejected::invalid_encoding());
            }
        }
        i += 1;
    }
    let private_key = slice_subrange(input, seed_start - 2, seed_end);
    let public_key = match version {
        Version::V1 => None,
        Version::V2 => Some(slice_subrange(input, pub_start, input.len())),
    };
    Ok((private_key, public_key))
}

} // verus!
