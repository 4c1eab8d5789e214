use vstd::prelude::*;

use crate::error::{Error, ErrorView};

verus! {

/// The unsigned number that the first two bytes of `bytes` spell, high byte
/// first.
pub open spec fn spec_be_u16(bytes: Seq<u8>) -> int
    recommends
        bytes.len() >= 2,
{
    256 * bytes[0] + bytes[1]
}

/// The signed number that the first two bytes of `bytes` spell, high byte
/// first, in two's complement.
pub open spec fn spec_be_i16(bytes: Seq<u8>) -> int
    recommends
        bytes.len() >= 2,
{
    if bytes[0] >= 128 {
        spec_be_u16(bytes) - 65536
    } else {
        spec_be_u16(bytes)
    }
}

/// The `len` bytes of `bytes` that start at `offset`, or a shortage where
/// `bytes` ends before they do.
pub fn cut_slice(bytes: &[u8], offset: usize, len: usize) -> (window: Result<&[u8], Error>)
    ensures
        offset + len <= bytes@.len() ==> (window matches Ok(cut) && cut@ == bytes@.subrange(
            offset as int,
            offset + len,
        )),
        offset + len > bytes@.len() ==> (window matches Err(e) && e@
            == ErrorView::DataBytesShortage("Out of range"@)),
{
    if offset <= bytes.len() && len <= bytes.len() - offset {
        Ok(&bytes[offset..offset + len])
    } else {
        Err(Error::DataBytesShortage("Out of range".to_owned()))
    }
}

/// Reads the first two bytes of `bytes` as an unsigned number, high byte
/// first. Fewer than two bytes are a shortage.
pub fn bytes_to_u16(bytes: &[u8]) -> (value: Result<u16, Error>)
    ensures
        bytes@.len() >= 2 ==> (value matches Ok(v) && v == spec_be_u16(bytes@)),
        bytes@.len() < 2 ==> (value matches Err(e) && e@ == ErrorView::DataBytesShortage(
            "Too short for u16"@,
        )),
{
    if bytes.len() > 1 {
        let high: u16 = bytes[0] as u16;
        let low: u16 = bytes[1] as u16;
        Ok(high * 256 + low)
    } else {
        Err(Error::DataBytesShortage("Too short for u16".to_owned()))
    }
}

/// Reads the first two bytes of `bytes` as a signed number in two's
/// complement, high byte first. Fewer than two bytes are a shortage.
pub fn bytes_to_i16(bytes: &[u8]) -> (value: Result<i16, Error>)
    ensures
        bytes@.len() >= 2 ==> (value matches Ok(v) && v == spec_be_i16(bytes@)),
        bytes@.len() < 2 ==> (value matches Err(e) && e@ == ErrorView::DataBytesShortage(
            "Too short for i16"@,
        )),
{
    if bytes.len() > 1 {
        let high: u16 = bytes[0] as u16;
        let low: u16 = bytes[1] as u16;
        let unsigned: u16 = high * 256 + low;
        if unsigned >= 0x8000 {
            let above: i16 = (unsigned - 0x8000) as i16;
            Ok(above + i16::MIN)
        } else {
            Ok(unsigned as i16)
        }
    } else {
        Err(Error::DataBytesShortage("Too short for i16".to_owned()))
    }
}

} // verus!
