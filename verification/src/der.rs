//! Minimal DER primitive reader: recognizes one tag-length-value element at
//! the front of a byte slice and hands back its value region as a zero-copy
//! view, failing on a wrong tag or a malformed or truncated length.

use vstd::prelude::*;
use vstd::slice::slice_index_get;
use vstd::slice::slice_subrange;
use crate::error::Unspecified;

verus! {

/// DER tags the reader recognizes.
#[derive(Clone, Copy, Debug, PartialEq, Eq)]
pub enum Tag {
    OctetString,
}

impl Tag {
    /// The tag byte as it appears on the wire.
    pub open spec fn spec_byte(self) -> u8 {
        match self {
            Tag::OctetString => 0x04,
        }
    }

    /// Runtime counterpart of [`Tag::spec_byte`].
    pub fn byte(self) -> (b: u8)
        ensures
            b == self.spec_byte(),
    {
        match self {
            Tag::OctetString => 0x04,
        }
    }
}

/// The value and the remaining input of an element whose value holds `len`
/// bytes starting at `start`, or nothing when `input` is too short.
pub open spec fn spec_tlv_at(input: Seq<u8>, start: int, len: int) -> Option<(Seq<u8>, Seq<u8>)> {
    if input.len() >= start + len {
        Some((input.subrange(start, start + len), input.subrange(start + len, input.len() as int)))
    } else {
        None
    }
}

/// What one DER tag-length-value element at the front of `input` denotes
/// when read under the expected tag byte `tag`: the value bytes together
/// with the remaining input, or nothing when the element is truncated,
/// carries the wrong tag, or uses a length encoding DER forbids (a
/// non-minimal long form, or a form longer than two length bytes).
pub open spec fn spec_tlv(input: Seq<u8>, tag: u8) -> Option<(Seq<u8>, Seq<u8>)> {
    if input.len() < 2 || input[0] != tag {
        None
    } else if input[1] < 0x80 {
        spec_tlv_at(input, 2, input[1] as int)
    } else if input[1] == 0x81 {
        if input.len() >= 3 && input[2] >= 0x80 {
            spec_tlv_at(input, 3, input[2] as int)
        } else {
            None
        }
    } else if input[1] == 0x82 {
        if input.len() >= 4 && input[2] as int * 256 + input[3] as int >= 0x100 {
            spec_tlv_at(input, 4, input[2] as int * 256 + input[3] as int)
        } else {
            None
        }
    } else {
        None
    }
}

/// Reads exactly one TLV element from the front of `input`, requiring its
/// tag to equal `tag`. On success returns the value bytes and the input
/// that follows the element, both as views into `input`.
pub fn expect_tag_and_get_value<'a>(input: &'a [u8], tag: Tag) -> (r: Result<
    (&'a [u8], &'a [u8]),
    Unspecified,
>)
    ensures
        r is Ok <==> spec_tlv(input@, tag.spec_byte()) is Some,
        r is Ok ==> Some((r->Ok_0.0@, r->Ok_0.1@)) == spec_tlv(input@, tag.spec_byte()),
{
    if input.len() < 2 {
        return Err(Unspecified);
    }
    if *slice_index_get(input, 0) != tag.byte() {
        return Err(Unspecified);
    }
    let l0: u8 = *slice_index_get(input, 1);
    let start: usize;
    let len: usize;
    if l0 < 0x80 {
        start = 2;
        len = l0 as usize;
    } else if l0 == 0x81 {
        if input.len() < 3 {
            return Err(Unspecified);
        }
        let l1: u8 = *slice_index_get(input, 2);
        if l1 < 0x80 {
            return Err(Unspecified);
        }
        start = 3;
        len = l1 as usize;
    } else if l0 == 0x82 {
        if input.len() < 4 {
            return Err(Unspecified);
        }
        let l: usize = (*slice_index_get(input, 2) as usize) * 256 + (*slice_index_get(
            input,
            3,
        ) as usize);
        if l < 0x100 {
            return Err(Unspecified);
        }
        start = 4;
        len = l;
    } else {
        return Err(Unspecified);
    }
    if input.len() - start < len {
        return Err(Unspecified);
    }
    let value = slice_subrange(input, start, start + len);
    let rest = slice_subrange(input, start + len, input.len());
    Ok((value, rest))
}

/// Reads the entire input as exactly one TLV element with the given tag:
/// any trailing bytes after the element are themselves an error.
pub fn read_all_tag_and_get_value<'a>(input: &'a [u8], tag: Tag) -> (r: Result<
    &'a [u8],
    Unspecified,
>)
    ensures
        r is Ok <==> (spec_tlv(input@, tag.spec_byte()) is Some && (spec_tlv(
            input@,
            tag.spec_byte(),
        )->0).1.len() == 0),
        r is Ok ==> r->Ok_0@ == (spec_tlv(input@, tag.spec_byte())->0).0,
{
    match expect_tag_and_get_value(input, tag) {
        Ok((value, rest)) => {
            if rest.len() == 0 {
                Ok(value)
            } else {
                Err(Unspecified)
            }
        },
        Err(e) => Err(e),
    }
}

} // verus!
