//! Box types, box headers, fixed-point numbers and the errors of reading.

use super::bytes;
use vstd::prelude::*;

verus! {

/// Length of a box header without its 64-bit extended size field.
pub const HEADER_SIZE: u64 = 8;

/// The four-character code `av01`.
pub const AV01_FOURCC: u32 = 0x61763031;

/// The four-character code `av1C`.
pub const AV1C_FOURCC: u32 = 0x61763143;

/// The four-character code `hvc1`.
pub const HVC1_FOURCC: u32 = 0x68766331;

/// The four-character code `hvcC`.
pub const HVCC_FOURCC: u32 = 0x68766343;

/// The type of a box, named by its four-character code.
#[derive(Debug, Clone, Copy, PartialEq, Eq, Structural)]
pub enum BoxType {
    Av01Box,
    Av1CBox,
    Hvc1Box,
    HvcCBox,
    /// A box of any other four-character code.
    UnknownBox(u32),
}

impl BoxType {
    /// The type named by a four-character code.
    pub open spec fn spec_from_fourcc(code: u32) -> BoxType {
        if code == AV01_FOURCC {
            BoxType::Av01Box
        } else if code == AV1C_FOURCC {
            BoxType::Av1CBox
        } else if code == HVC1_FOURCC {
            BoxType::Hvc1Box
        } else if code == HVCC_FOURCC {
            BoxType::HvcCBox
        } else {
            BoxType::UnknownBox(code)
        }
    }

    /// The four-character code of a type.
    pub open spec fn spec_fourcc(self) -> u32 {
        match self {
            BoxType::Av01Box => AV01_FOURCC,
            BoxType::Av1CBox => AV1C_FOURCC,
            BoxType::Hvc1Box => HVC1_FOURCC,
            BoxType::HvcCBox => HVCC_FOURCC,
            BoxType::UnknownBox(code) => code,
        }
    }

    /// A type is canonical when it is the one its own code names: an `UnknownBox` that holds
    /// the code of a known type is not.
    pub open spec fn is_canonical(self) -> bool {
        BoxType::spec_from_fourcc(self.spec_fourcc()) == self
    }

    /// The type named by the four-character code `code`.
    pub fn from_fourcc(code: u32) -> (t: BoxType)
        ensures
            t == BoxType::spec_from_fourcc(code),
    {
        if code == AV01_FOURCC {
            BoxType::Av01Box
        } else if code == AV1C_FOURCC {
            BoxType::Av1CBox
        } else if code == HVC1_FOURCC {
            BoxType::Hvc1Box
        } else if code == HVCC_FOURCC {
            BoxType::HvcCBox
        } else {
            BoxType::UnknownBox(code)
        }
    }

    /// The four-character code of this type.
    pub fn fourcc(self) -> (code: u32)
        ensures
            code == self.spec_fourcc(),
    {
        match self {
            BoxType::Av01Box => AV01_FOURCC,
            BoxType::Av1CBox => AV1C_FOURCC,
            BoxType::Hvc1Box => HVC1_FOURCC,
            BoxType::HvcCBox => HVCC_FOURCC,
            BoxType::UnknownBox(code) => code,
        }
    }
}

/// Every code names a type whose code is that code again.
pub proof fn lemma_fourcc_of_from_fourcc(code: u32)
    ensures
        BoxType::spec_from_fourcc(code).spec_fourcc() == code,
{
}

/// Every canonical type is named by its own code; the types that are not are exactly the
/// `UnknownBox`es that hold the code of a known type.
pub proof fn lemma_from_fourcc_of_fourcc(t: BoxType)
    ensures
        t.is_canonical() <==> !(t matches BoxType::UnknownBox(code) && (code == AV01_FOURCC
            || code == AV1C_FOURCC || code == HVC1_FOURCC || code == HVCC_FOURCC)),
        t.is_canonical() ==> BoxType::spec_from_fourcc(t.spec_fourcc()) == t,
{
}

/// An unsigned 16.16 fixed-point number, such as a resolution in pixels per inch.
#[derive(Debug, Clone, Copy, PartialEq, Eq)]
pub struct FixedPointU16 {
    raw: u32,
}

impl View for FixedPointU16 {
    /// The raw 32-bit value: sixteen integer bits above sixteen fraction bits.
    type V = u32;

    closed spec fn view(&self) -> u32 {
        self.raw
    }
}

impl FixedPointU16 {
    /// The number with integer part `val` and no fraction.
    pub fn new(val: u16) -> (r: FixedPointU16)
        ensures
            r@ == (val as u32) * 0x10000,
    {
        FixedPointU16 { raw: (val as u32) * 0x10000 }
    }

    /// The number whose raw 16.16 value is `val`.
    pub fn new_raw(val: u32) -> (r: FixedPointU16)
        ensures
            r@ == val,
    {
        FixedPointU16 { raw: val }
    }

    /// The integer part.
    pub fn value(&self) -> (r: u16)
        ensures
            r == self@ / 0x10000,
    {
        (self.raw / 0x10000) as u16
    }

    /// The raw 16.16 value.
    pub fn raw_value(&self) -> (r: u32)
        ensures
            r == self@,
    {
        self.raw
    }
}

/// The integer part of the number made from an integer is that integer.
pub proof fn lemma_fixed_point_value_of_new(val: u16)
    ensures
        ((val as u32) * 0x10000) / 0x10000 == val,
{
}

/// Why reading a box failed.
#[derive(Debug, Clone, Copy, PartialEq, Eq, Structural)]
pub enum Error {
    /// The input ended inside the box.
    UnexpectedEof,
    /// A header gave a 64-bit size below 16.
    LargeSizeTooSmall,
    /// The child of an `av01` box claims to be larger than the `av01` box.
    Av01ChildTooLarge,
    /// The child of an `hvc1` box claims to be larger than the `hvc1` box.
    Hvc1ChildTooLarge,
    /// The child of an `av01` box is not an `av1C` box.
    Av1cNotFound,
    /// The child of an `hvc1` box is not an `hvcC` box.
    HvccNotFound,
    /// The first byte of an `av1C` box is not the marker and version byte `0x81`.
    MissingAv1cMarker,
    /// An `av1C` box is smaller than its header and its four fixed bytes.
    InvalidBoxSize,
}

impl Error {
    /// The text of the error, as the format reader reports it.
    pub fn message(&self) -> (m: &'static str)
        ensures
            m@ == match self {
                Error::UnexpectedEof => "failed to fill whole buffer"@,
                Error::LargeSizeTooSmall => "64-bit box size too small"@,
                Error::Av01ChildTooLarge => "hev1 box contains a box with a larger size than it"@,
                Error::Hvc1ChildTooLarge => "hvc1 box contains a box with a larger size than it"@,
                Error::Av1cNotFound => "av1c not found"@,
                Error::HvccNotFound => "hvcc not found"@,
                Error::MissingAv1cMarker => "missing av1C marker bit"@,
                Error::InvalidBoxSize => "invalid box size"@,
            },
    {
        match self {
            Error::UnexpectedEof => "failed to fill whole buffer",
            Error::LargeSizeTooSmall => "64-bit box size too small",
            Error::Av01ChildTooLarge => "hev1 box contains a box with a larger size than it",
            Error::Hvc1ChildTooLarge => "hvc1 box contains a box with a larger size than it",
            Error::Av1cNotFound => "av1c not found",
            Error::HvccNotFound => "hvcc not found",
            Error::MissingAv1cMarker => "missing av1C marker bit",
            Error::InvalidBoxSize => "invalid box size",
        }
    }
}

/// The header of a box: its type and its size in bytes.
///
/// A size of 0 means that the box extends to the end of the input.
#[derive(Debug, Clone, Copy, PartialEq, Eq, Structural)]
pub struct BoxHeader {
    pub name: BoxType,
    pub size: u64,
}

/// What reading a header at index `pos` of `s` gives: the header and the index just after it.
///
/// The header is a 32-bit size and a 32-bit type code. A 32-bit size of 1 is followed by a
/// 64-bit size, which counts the eight bytes of that field: the header holds it less 8.
pub open spec fn spec_read_header(s: Seq<u8>, pos: int) -> Result<(BoxHeader, int), Error> {
    if pos + 8 > s.len() {
        Err(Error::UnexpectedEof)
    } else {
        let size = bytes::be_u32(s, pos);
        let name = BoxType::spec_from_fourcc(bytes::be_u32(s, pos + 4));
        if size == 1 {
            if pos + 16 > s.len() {
                Err(Error::UnexpectedEof)
            } else {
                let large = bytes::be_u64(s, pos + 8);
                if large == 0 {
                    Ok((BoxHeader { name, size: 0 }, pos + 16))
                } else if large < 16 {
                    Err(Error::LargeSizeTooSmall)
                } else {
                    Ok((BoxHeader { name, size: (large - 8) as u64 }, pos + 16))
                }
            }
        } else {
            Ok((BoxHeader { name, size: size as u64 }, pos + 8))
        }
    }
}

/// The bytes of a written header: a 32-bit size and the type code, or, for a size that does
/// not fit in 32 bits, the size 1, the type code and the size in 64 bits.
pub open spec fn spec_header_bytes(h: BoxHeader) -> Seq<u8> {
    if h.size > u32::MAX {
        bytes::u32_bytes(1) + bytes::u32_bytes(h.name.spec_fourcc()) + bytes::u64_bytes(h.size)
    } else {
        bytes::u32_bytes(h.size as u32) + bytes::u32_bytes(h.name.spec_fourcc())
    }
}

impl BoxHeader {
    /// The header of a box of type `name` and `size` bytes.
    pub fn new(name: BoxType, size: u64) -> (h: BoxHeader)
        ensures
            h == (BoxHeader { name, size }),
    {
        BoxHeader { name, size }
    }

    /// Reads the header that starts at index `pos` of `data`; gives it with the index just
    /// after it.
    pub fn read(data: &[u8], pos: usize) -> (r: Result<(BoxHeader, usize), Error>)
        ensures
            match r {
                Ok((h, end)) => spec_read_header(data@, pos as int) == Ok::<(BoxHeader, int), Error>(
                    (h, end as int)),
                Err(e) => spec_read_header(data@, pos as int) == Err::<(BoxHeader, int), Error>(e),
            },
    {
        if pos > data.len() || data.len() - pos < 8 {
            return Err(Error::UnexpectedEof);
        }
        let size = bytes::read_be_u32(data, pos);
        let name = BoxType::from_fourcc(bytes::read_be_u32(data, pos + 4));
        if size == 1 {
            if data.len() - pos < 16 {
                return Err(Error::UnexpectedEof);
            }
            let large = bytes::read_be_u64(data, pos + 8);
            if large == 0 {
                Ok((BoxHeader { name, size: 0 }, pos + 16))
            } else if large < 16 {
                Err(Error::LargeSizeTooSmall)
            } else {
                Ok((BoxHeader { name, size: large - 8 }, pos + 16))
            }
        } else {
            Ok((BoxHeader { name, size: size as u64 }, pos + 8))
        }
    }

    /// Appends the bytes of this header; gives their number.
    pub fn write(&self, out: &mut Vec<u8>) -> (n: u64)
        ensures
            final(out)@ == old(out)@ + spec_header_bytes(*self),
            n == spec_header_bytes(*self).len(),
            n == (if self.size > u32::MAX {
                16int
            } else {
                8int
            }),
    {
        if self.size > u32::MAX as u64 {
            bytes::put_u32(out, 1);
            bytes::put_u32(out, self.name.fourcc());
            bytes::put_u64(out, self.size);
            assert(final(out)@ =~= old(out)@ + spec_header_bytes(*self));
            16
        } else {
            bytes::put_u32(out, self.size as u32);
            bytes::put_u32(out, self.name.fourcc());
            assert(final(out)@ =~= old(out)@ + spec_header_bytes(*self));
            8
        }
    }
}

/// Reading back a written header gives the header, for every size but 1 (a 32-bit size of 1
/// announces a 64-bit size), and for every canonical type; a size beyond 32 bits comes back
/// less the 8 bytes of the 64-bit size field. Bytes after the header do not matter.
pub proof fn lemma_header_roundtrip(h: BoxHeader, pre: Seq<u8>, post: Seq<u8>)
    requires
        h.size != 1,
        h.name.is_canonical(),
    ensures
        spec_read_header(pre + spec_header_bytes(h) + post, pre.len() as int) == (if h.size
            > u32::MAX {
            Ok::<(BoxHeader, int), Error>(
                (BoxHeader { name: h.name, size: (h.size - 8) as u64 }, pre.len() + 16int),
            )
        } else {
            Ok::<(BoxHeader, int), Error>((h, pre.len() + 8int))
        }),
{
    let i = pre.len() as int;
    let code = h.name.spec_fourcc();
    if h.size > u32::MAX {
        let s = pre + spec_header_bytes(h) + post;
        bytes::lemma_u32_roundtrip(1, pre, bytes::u32_bytes(code) + bytes::u64_bytes(h.size) + post);
        assert(s =~= pre + bytes::u32_bytes(1) + (bytes::u32_bytes(code) + bytes::u64_bytes(h.size) + post));
        bytes::lemma_u32_roundtrip(code, pre + bytes::u32_bytes(1), bytes::u64_bytes(h.size) + post);
        assert(s =~= (pre + bytes::u32_bytes(1)) + bytes::u32_bytes(code) + (bytes::u64_bytes(h.size) + post));
        bytes::lemma_u64_roundtrip(h.size, pre + bytes::u32_bytes(1) + bytes::u32_bytes(code), post);
        assert(s =~= (pre + bytes::u32_bytes(1) + bytes::u32_bytes(code)) + bytes::u64_bytes(h.size) + post);
    } else {
        let s = pre + spec_header_bytes(h) + post;
        bytes::lemma_u32_roundtrip(h.size as u32, pre, bytes::u32_bytes(code) + post);
        assert(s =~= pre + bytes::u32_bytes(h.size as u32) + (bytes::u32_bytes(code) + post));
        bytes::lemma_u32_roundtrip(code, pre + bytes::u32_bytes(h.size as u32), post);
        assert(s =~= (pre + bytes::u32_bytes(h.size as u32)) + bytes::u32_bytes(code) + post);
    }
}

} // verus!
