use vstd::prelude::*;

use crate::error::ConstructError;
use crate::interop::ArbInterop;
use vstd::slice::slice_index_get;

verus! {

/// The byte at index `i` of `bytes`, or zero past the end.
pub open spec fn byte_or_zero(bytes: Seq<u8>, i: int) -> u8 {
    if 0 <= i < bytes.len() {
        bytes[i]
    } else {
        0
    }
}

/// The value the `u32` consumer derives from a buffer: its first four bytes
/// read little-endian, padded with zeros when fewer remain.
pub open spec fn u32_from_le_prefix(bytes: Seq<u8>) -> u32 {
    (byte_or_zero(bytes, 0) as u32) | ((byte_or_zero(bytes, 1) as u32) << 8) | ((byte_or_zero(
        bytes,
        2,
    ) as u32) << 16) | ((byte_or_zero(bytes, 3) as u32) << 24)
}

/// Relies on `u32`'s `arbitrary::Arbitrary` impl: it fills a four-byte buffer
/// from the front of the data, padding with zeros when fewer bytes remain,
/// and returns the little-endian value; it never fails.
#[verifier::external_body]
fn u32_via_arbitrary(bytes: &[u8]) -> (r: u32)
    ensures
        r == u32_from_le_prefix(bytes@),
{
    let mut unstructured = arbitrary::Unstructured::new(bytes);
    <u32 as arbitrary::Arbitrary>::arbitrary(&mut unstructured).unwrap_or(0)
}

impl ArbInterop for u32 {
    open spec fn construct_spec(bytes: Seq<u8>) -> Result<u32, ConstructError> {
        Ok(u32_from_le_prefix(bytes))
    }

    fn construct(bytes: &[u8]) -> (r: Result<u32, ConstructError>) {
        Ok(u32_via_arbitrary(bytes))
    }

    fn clone_value(&self) -> (r: u32) {
        *self
    }
}

/// A three-byte record: a color consumer that reads one byte per channel and
/// calls anything shorter than three bytes malformed.
#[derive(Clone, Copy, Debug, PartialEq, Eq, Structural)]
pub struct Rgb {
    pub r: u8,
    pub g: u8,
    pub b: u8,
}

impl ArbInterop for Rgb {
    open spec fn construct_spec(bytes: Seq<u8>) -> Result<Rgb, ConstructError> {
        if bytes.len() < 3 {
            Err(ConstructError::MalformedInput)
        } else {
            Ok(Rgb { r: bytes[0], g: bytes[1], b: bytes[2] })
        }
    }

    fn construct(bytes: &[u8]) -> (r: Result<Rgb, ConstructError>) {
        if bytes.len() < 3 {
            Err(ConstructError::MalformedInput)
        } else {
            Ok(
                Rgb {
                    r: *slice_index_get(bytes, 0),
                    g: *slice_index_get(bytes, 1),
                    b: *slice_index_get(bytes, 2),
                },
            )
        }
    }

    fn clone_value(&self) -> (r: Rgb) {
        *self
    }
}

/// A five-byte record consumer: it reads its five fields from the first five
/// bytes and calls every shorter buffer malformed.
#[derive(Clone, Copy, Debug, PartialEq, Eq, Structural)]
pub struct Quintet {
    pub a: u8,
    pub b: u8,
    pub c: u8,
    pub d: u8,
    pub e: u8,
}

impl ArbInterop for Quintet {
    open spec fn construct_spec(bytes: Seq<u8>) -> Result<Quintet, ConstructError> {
        if bytes.len() < 5 {
            Err(ConstructError::MalformedInput)
        } else {
            Ok(Quintet { a: bytes[0], b: bytes[1], c: bytes[2], d: bytes[3], e: bytes[4] })
        }
    }

    fn construct(bytes: &[u8]) -> (r: Result<Quintet, ConstructError>) {
        if bytes.len() < 5 {
            Err(ConstructError::MalformedInput)
        } else {
            Ok(
                Quintet {
                    a: *slice_index_get(bytes, 0),
                    b: *slice_index_get(bytes, 1),
                    c: *slice_index_get(bytes, 2),
                    d: *slice_index_get(bytes, 3),
                    e: *slice_index_get(bytes, 4),
                },
            )
        }
    }

    fn clone_value(&self) -> (r: Quintet) {
        *self
    }
}

} // verus!
