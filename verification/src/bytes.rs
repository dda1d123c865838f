//! Contracts for the `untrusted` reader and the `byteorder` reads, the two
//! crates through which every byte of a BTF image is taken in.

use vstd::prelude::*;

verus! {

/// `untrusted::Input`, a borrowed run of bytes.
#[verifier::external_type_specification]
#[verifier::external_body]
pub struct ExInput<'a>(untrusted::Input<'a>);

/// `untrusted::Reader`, a forward-only cursor over an `Input`.
#[verifier::external_type_specification]
#[verifier::external_body]
pub struct ExReader<'a>(untrusted::Reader<'a>);

/// The bytes that an `Input` holds.
pub uninterp spec fn input_bytes(input: untrusted::Input) -> Seq<u8>;

/// The bytes that a `Reader` has not read yet.
pub uninterp spec fn unread(reader: untrusted::Reader) -> Seq<u8>;

/// `Input::from` wraps the slice: the input holds exactly its bytes.
pub assume_specification<'a>[ untrusted::Input::<'a>::from ](bytes: &'a [u8]) -> (input:
    untrusted::Input<'a>)
    ensures
        input_bytes(input) == bytes@,
;

/// `Input::as_slice_less_safe` hands back the wrapped slice.
pub assume_specification<'a>[ untrusted::Input::<'a>::as_slice_less_safe ](
    input: &untrusted::Input<'a>,
) -> (bytes: &'a [u8])
    ensures
        bytes@ == input_bytes(*input),
;

/// `Input` is `Copy`: a clone holds the same bytes.
pub assume_specification<'a>[ <untrusted::Input<'a> as Clone>::clone ](
    input: &untrusted::Input<'a>,
) -> (copy: untrusted::Input<'a>)
    ensures
        input_bytes(copy) == input_bytes(*input),
;

/// `Reader::new` starts at the first byte of the input.
pub assume_specification<'a>[ untrusted::Reader::<'a>::new ](
    input: untrusted::Input<'a>,
) -> (reader: untrusted::Reader<'a>)
    ensures
        unread(reader) == input_bytes(input),
;

/// `Reader::at_end` tells whether no byte is left.
pub assume_specification<'a>[ untrusted::Reader::<'a>::at_end ](
    reader: &untrusted::Reader<'a>,
) -> (end: bool)
    ensures
        end == (unread(*reader).len() == 0),
;

/// `Reader::read_byte` takes the next byte, or fails at the end and leaves
/// the reader where it was.
pub assume_specification<'a>[ untrusted::Reader::<'a>::read_byte ](
    reader: &mut untrusted::Reader<'a>,
) -> (res: Result<u8, untrusted::EndOfInput>)
    ensures
        match res {
            Ok(b) => unread(*old(reader)).len() > 0 && b == unread(*old(reader))[0] && unread(
                *final(reader),
            ) == unread(*old(reader)).skip(1),
            Err(_) => unread(*old(reader)).len() == 0 && unread(*final(reader)) == unread(
                *old(reader),
            ),
        },
;

/// `Reader::read_bytes` takes the next `num_bytes` bytes as an `Input`, or
/// fails when fewer are left and leaves the reader where it was.
pub assume_specification<'a>[ untrusted::Reader::<'a>::read_bytes ](
    reader: &mut untrusted::Reader<'a>,
    num_bytes: usize,
) -> (res: Result<untrusted::Input<'a>, untrusted::EndOfInput>)
    ensures
        match res {
            Ok(input) => num_bytes <= unread(*old(reader)).len() && input_bytes(input) == unread(
                *old(reader),
            ).take(num_bytes as int) && unread(*final(reader)) == unread(*old(reader)).skip(
                num_bytes as int,
            ),
            Err(_) => num_bytes > unread(*old(reader)).len() && unread(*final(reader)) == unread(
                *old(reader),
            ),
        },
;

/// `Reader::skip` passes over the next `num_bytes` bytes, or fails when
/// fewer are left and leaves the reader where it was.
pub assume_specification<'a>[ untrusted::Reader::<'a>::skip ](
    reader: &mut untrusted::Reader<'a>,
    num_bytes: usize,
) -> (res: Result<(), untrusted::EndOfInput>)
    ensures
        match res {
            Ok(_) => num_bytes <= unread(*old(reader)).len() && unread(*final(reader)) == unread(
                *old(reader),
            ).skip(num_bytes as int),
            Err(_) => num_bytes > unread(*old(reader)).len() && unread(*final(reader)) == unread(
                *old(reader),
            ),
        },
;

/// `Reader::skip_to_end` passes over all that is left.
pub assume_specification<'a>[ untrusted::Reader::<'a>::skip_to_end ](
    reader: &mut untrusted::Reader<'a>,
)
    ensures
        unread(*final(reader)).len() == 0,
;

/// The 16-bit value whose little-endian representation opens `b`.
pub open spec fn u16_le(b: Seq<u8>) -> u16
    recommends
        b.len() >= 2,
{
    (b[0] as u16) | (b[1] as u16) << 8
}

/// The 16-bit value whose big-endian representation opens `b`.
pub open spec fn u16_be(b: Seq<u8>) -> u16
    recommends
        b.len() >= 2,
{
    (b[0] as u16) << 8 | (b[1] as u16)
}

/// The 32-bit value whose little-endian representation opens `b`.
pub open spec fn u32_le(b: Seq<u8>) -> u32
    recommends
        b.len() >= 4,
{
    (b[0] as u32) | (b[1] as u32) << 8 | (b[2] as u32) << 16 | (b[3] as u32) << 24
}

/// The 32-bit value whose big-endian representation opens `b`.
pub open spec fn u32_be(b: Seq<u8>) -> u32
    recommends
        b.len() >= 4,
{
    (b[0] as u32) << 24 | (b[1] as u32) << 16 | (b[2] as u32) << 8 | (b[3] as u32)
}

/// `LittleEndian::read_u16` is `u16::from_le_bytes` of the first two bytes;
/// it panics on a shorter slice.
#[verifier::external_body]
pub(crate) fn read_u16_le(buf: &[u8]) -> (v: u16)
    requires
        buf@.len() >= 2,
    ensures
        v == u16_le(buf@),
{
    <byteorder::LittleEndian as byteorder::ByteOrder>::read_u16(buf)
}

/// `BigEndian::read_u16` is `u16::from_be_bytes` of the first two bytes; it
/// panics on a shorter slice.
#[verifier::external_body]
pub(crate) fn read_u16_be(buf: &[u8]) -> (v: u16)
    requires
        buf@.len() >= 2,
    ensures
        v == u16_be(buf@),
{
    <byteorder::BigEndian as byteorder::ByteOrder>::read_u16(buf)
}

/// `LittleEndian::read_u32` is `u32::from_le_bytes` of the first four bytes;
/// it panics on a shorter slice.
#[verifier::external_body]
pub(crate) fn read_u32_le(buf: &[u8]) -> (v: u32)
    requires
        buf@.len() >= 4,
    ensures
        v == u32_le(buf@),
{
    <byteorder::LittleEndian as byteorder::ByteOrder>::read_u32(buf)
}

/// `BigEndian::read_u32` is `u32::from_be_bytes` of the first four bytes; it
/// panics on a shorter slice.
#[verifier::external_body]
pub(crate) fn read_u32_be(buf: &[u8]) -> (v: u32)
    requires
        buf@.len() >= 4,
    ensures
        v == u32_be(buf@),
{
    <byteorder::BigEndian as byteorder::ByteOrder>::read_u32(buf)
}

/// `LittleEndian::read_i16` is `read_u16` reinterpreted as signed; it panics
/// on a slice shorter than two bytes.
#[verifier::external_body]
pub(crate) fn read_i16_le(buf: &[u8]) -> (v: i16)
    requires
        buf@.len() >= 2,
    ensures
        v == u16_le(buf@) as i16,
{
    <byteorder::LittleEndian as byteorder::ByteOrder>::read_i16(buf)
}

/// `BigEndian::read_i16` is `read_u16` reinterpreted as signed; it panics on
/// a slice shorter than two bytes.
#[verifier::external_body]
pub(crate) fn read_i16_be(buf: &[u8]) -> (v: i16)
    requires
        buf@.len() >= 2,
    ensures
        v == u16_be(buf@) as i16,
{
    <byteorder::BigEndian as byteorder::ByteOrder>::read_i16(buf)
}

/// `LittleEndian::read_i32` is `read_u32` reinterpreted as signed; it panics
/// on a slice shorter than four bytes.
#[verifier::external_body]
pub(crate) fn read_i32_le(buf: &[u8]) -> (v: i32)
    requires
        buf@.len() >= 4,
    ensures
        v == u32_le(buf@) as i32,
{
    <byteorder::LittleEndian as byteorder::ByteOrder>::read_i32(buf)
}

/// `BigEndian::read_i32` is `read_u32` reinterpreted as signed; it panics on
/// a slice shorter than four bytes.
#[verifier::external_body]
pub(crate) fn read_i32_be(buf: &[u8]) -> (v: i32)
    requires
        buf@.len() >= 4,
    ensures
        v == u32_be(buf@) as i32,
{
    <byteorder::BigEndian as byteorder::ByteOrder>::read_i32(buf)
}

/// `core::str::from_utf8` accepts exactly the well-formed UTF-8 byte strings
/// and yields the text they encode.
#[verifier::external_body]
pub(crate) fn from_utf8<'a>(bytes: &'a [u8]) -> (res: Result<&'a str, core::str::Utf8Error>)
    ensures
        res is Ok <==> vstd::utf8::valid_utf8(bytes@),
        res matches Ok(s) ==> s@ == vstd::utf8::decode_utf8(bytes@),
{
    core::str::from_utf8(bytes)
}

/// `str::eq` tells whether two strings hold the same text.
#[verifier::external_body]
pub(crate) fn same_text(a: &str, b: &str) -> (same: bool)
    ensures
        same == (a@ == b@),
{
    a == b
}

} // verus!
