//! The AV1 sample entry (`av01`) and its codec configuration box (`av1C`).

use super::bytes;
use super::types;
use super::types::{BoxHeader, BoxType, Error, FixedPointU16, HEADER_SIZE};
use vstd::prelude::*;
use vstd::slice::{slice_subrange, slice_to_vec};
use vstd::string::StringExecFns;

verus! {

/// The AV1 codec configuration box (`av1C`).
#[derive(Debug, Clone, PartialEq, Eq)]
pub struct Av1CBox {
    pub profile: u8,
    pub level: u8,
    pub tier: u8,
    pub bit_depth: u8,
    pub monochrome: bool,
    pub chroma_subsampling_x: u8,
    pub chroma_subsampling_y: u8,
    pub chroma_sample_position: u8,
    pub initial_presentation_delay_present: bool,
    pub initial_presentation_delay_minus_one: u8,
    /// The configuration OBUs, stored as bytes after the four fixed bytes.
    pub config_obus: Vec<u8>,
}

/// The value of an `av1C` box, its OBUs as a sequence.
pub struct Av1CModel {
    pub profile: u8,
    pub level: u8,
    pub tier: u8,
    pub bit_depth: u8,
    pub monochrome: bool,
    pub chroma_subsampling_x: u8,
    pub chroma_subsampling_y: u8,
    pub chroma_sample_position: u8,
    pub initial_presentation_delay_present: bool,
    pub initial_presentation_delay_minus_one: u8,
    pub config_obus: Seq<u8>,
}

impl View for Av1CBox {
    type V = Av1CModel;

    open spec fn view(&self) -> Av1CModel {
        Av1CModel {
            profile: self.profile,
            level: self.level,
            tier: self.tier,
            bit_depth: self.bit_depth,
            monochrome: self.monochrome,
            chroma_subsampling_x: self.chroma_subsampling_x,
            chroma_subsampling_y: self.chroma_subsampling_y,
            chroma_sample_position: self.chroma_sample_position,
            initial_presentation_delay_present: self.initial_presentation_delay_present,
            initial_presentation_delay_minus_one: self.initial_presentation_delay_minus_one,
            config_obus: self.config_obus@,
        }
    }
}

/// The fields that the three configuration bytes after the marker hold, with `config_obus`.
pub open spec fn spec_decode_av1c(
    profile_byte: u8,
    flags_byte: u8,
    delay_byte: u8,
    config_obus: Seq<u8>,
) -> Av1CModel {
    Av1CModel {
        profile: (profile_byte & 0xe0) >> 5u8,
        level: profile_byte & 0x1f,
        tier: (flags_byte & 0x80) >> 7u8,
        bit_depth: if flags_byte & 0x60 == 0x60 {
            12
        } else if flags_byte & 0x60 == 0x40 {
            10
        } else {
            8
        },
        monochrome: flags_byte & 0x10 == 0x10,
        chroma_subsampling_x: (flags_byte & 0x08) >> 3u8,
        chroma_subsampling_y: (flags_byte & 0x04) >> 2u8,
        chroma_sample_position: flags_byte & 0x03,
        initial_presentation_delay_present: delay_byte & 0x10 == 0x10,
        initial_presentation_delay_minus_one: if delay_byte & 0x10 == 0x10 {
            delay_byte & 0x0f
        } else {
            0
        },
        config_obus,
    }
}

/// The byte that holds the profile (top three bits) and the level (low five bits).
pub open spec fn spec_profile_byte(m: Av1CModel) -> u8 {
    (m.profile << 5u8) | (m.level & 0x1f)
}

/// The byte that holds the tier, bit depth, monochrome flag and chroma layout.
pub open spec fn spec_flags_byte(m: Av1CModel) -> u8 {
    (if m.bit_depth == 12 {
        0x60u8
    } else if m.bit_depth == 10 {
        0x40u8
    } else {
        0x00u8
    }) | ((m.tier & 0x01) << 7u8) | (if m.monochrome {
        0x10u8
    } else {
        0x00u8
    }) | ((m.chroma_subsampling_x & 0x01) << 3u8) | ((m.chroma_subsampling_y & 0x01) << 2u8) | (
    m.chroma_sample_position & 0x03)
}

/// The byte that holds the initial presentation delay.
pub open spec fn spec_delay_byte(m: Av1CModel) -> u8 {
    if m.initial_presentation_delay_present {
        0x10 | (m.initial_presentation_delay_minus_one & 0x0f)
    } else {
        0x00
    }
}

/// The size that an `av1C` box declares for itself: its four fixed bytes and its OBUs (the
/// header is not counted).
pub open spec fn spec_av1c_box_size(m: Av1CModel) -> int {
    4int + m.config_obus.len()
}

/// The bytes written for an `av1C` box: its header, the marker byte `0x81`, the three
/// configuration bytes and the OBUs.
#[verifier::opaque]
pub open spec fn spec_av1c_bytes(m: Av1CModel) -> Seq<u8> {
    types::spec_header_bytes(
        BoxHeader { name: BoxType::Av1CBox, size: spec_av1c_box_size(m) as u64 },
    ) + seq![0x81u8, spec_profile_byte(m), spec_flags_byte(m), spec_delay_byte(m)]
        + m.config_obus
}

/// The fields are the ones the configuration bytes can carry: every value in its bit range,
/// a bit depth of 8, 10 or 12, and no delay value unless a delay is present.
pub open spec fn spec_av1c_fields_canonical(m: Av1CModel) -> bool {
    &&& m.profile < 8
    &&& m.level < 32
    &&& m.tier < 2
    &&& (m.bit_depth == 8 || m.bit_depth == 10 || m.bit_depth == 12)
    &&& m.chroma_subsampling_x < 2
    &&& m.chroma_subsampling_y < 2
    &&& m.chroma_sample_position < 4
    &&& if m.initial_presentation_delay_present {
        m.initial_presentation_delay_minus_one < 16
    } else {
        m.initial_presentation_delay_minus_one == 0
    }
}

/// What reading an `av1C` box of declared size `size` gives, for a box that starts at index
/// `base` of `s` (its contents start `HEADER_SIZE` bytes later): the box and the index where
/// reading stopped.
///
/// The contents are the marker byte `0x81`, three configuration bytes, and `size - 12` bytes
/// of OBUs.
pub open spec fn spec_parse_av1c(s: Seq<u8>, base: int, size: u64) -> Result<(Av1CModel, int), Error> {
    let c = base + HEADER_SIZE;
    if c + 1 > s.len() {
        Err(Error::UnexpectedEof)
    } else if s[c] != 0x81 {
        Err(Error::MissingAv1cMarker)
    } else if c + 4 > s.len() {
        Err(Error::UnexpectedEof)
    } else if size < HEADER_SIZE + 4 {
        Err(Error::InvalidBoxSize)
    } else if c + 4 + (size - (HEADER_SIZE + 4)) > s.len() {
        Err(Error::UnexpectedEof)
    } else {
        let end = c + 4 + (size - (HEADER_SIZE + 4));
        Ok((spec_decode_av1c(s[c + 1], s[c + 2], s[c + 3], s.subrange(c + 4, end)), end))
    }
}

impl Default for Av1CBox {
    fn default() -> (r: Av1CBox)
        ensures
            r@ == (Av1CModel {
                profile: 0,
                level: 0,
                tier: 0,
                bit_depth: 0,
                monochrome: false,
                chroma_subsampling_x: 0,
                chroma_subsampling_y: 0,
                chroma_sample_position: 0,
                initial_presentation_delay_present: false,
                initial_presentation_delay_minus_one: 0,
                config_obus: Seq::empty(),
            }),
    {
        Av1CBox {
            profile: 0,
            level: 0,
            tier: 0,
            bit_depth: 0,
            monochrome: false,
            chroma_subsampling_x: 0,
            chroma_subsampling_y: 0,
            chroma_sample_position: 0,
            initial_presentation_delay_present: false,
            initial_presentation_delay_minus_one: 0,
            config_obus: Vec::new(),
        }
    }
}

impl Av1CBox {
    /// The type of this box: `av1C`.
    pub fn box_type(&self) -> (t: BoxType)
        ensures
            t == BoxType::Av1CBox,
    {
        BoxType::Av1CBox
    }

    /// The size this box declares: its four fixed bytes and its OBUs.
    pub fn box_size(&self) -> (n: u64)
        requires
            spec_av1c_box_size(self@) <= u64::MAX,
        ensures
            n == spec_av1c_box_size(self@),
    {
        4 + self.config_obus.len() as u64
    }

    /// A one-line description of the box.
    pub fn summary(&self) -> (r: Result<String, Error>)
        ensures
            r matches Ok(s) && s@ == "todo"@,
    {
        Ok(String::from_str("todo"))
    }

    /// Reads the `av1C` box whose declared size is `size` from `data`, which holds the box from
    /// its first header byte on; gives the box and the index of `data` where reading stopped.
    pub fn read_box(data: &[u8], size: u64) -> (r: Result<(Av1CBox, u64), Error>)
        ensures
            match r {
                Ok((b, end)) => spec_parse_av1c(data@, 0, size) == Ok::<(Av1CModel, int), Error>(
                    (b@, end as int)),
                Err(e) => spec_parse_av1c(data@, 0, size) == Err::<(Av1CModel, int), Error>(e),
            },
    {
        match Self::read_at(data, 0, size) {
            Ok((b, end)) => Ok((b, end as u64)),
            Err(e) => Err(e),
        }
    }

    /// Reads the `av1C` box that starts at index `base` of `data`.
    pub(crate) fn read_at(data: &[u8], base: usize, size: u64) -> (r: Result<(Av1CBox, usize), Error>)
        requires
            base <= data@.len(),
        ensures
            match r {
                Ok((b, end)) => spec_parse_av1c(data@, base as int, size) == Ok::<
                    (Av1CModel, int),
                    Error,
                >((b@, end as int)),
                Err(e) => spec_parse_av1c(data@, base as int, size) == Err::<(Av1CModel, int), Error>(
                    e,
                ),
            },
    {
        if data.len() - base < 9 {
            return Err(Error::UnexpectedEof);
        }
        let c = base + 8;
        let marker_byte = data[c];
        if marker_byte != 0x81 {
            return Err(Error::MissingAv1cMarker);
        }
        if data.len() - c < 4 {
            return Err(Error::UnexpectedEof);
        }
        let profile_byte = data[c + 1];
        let profile = (profile_byte & 0xe0) >> 5;
        let level = profile_byte & 0x1f;
        let flags_byte = data[c + 2];
        let tier = (flags_byte & 0x80) >> 7;
        let bit_depth: u8 = match flags_byte & 0x60 {
            0x60 => 12,
            0x40 => 10,
            _ => 8,
        };
        let monochrome = flags_byte & 0x10 == 0x10;
        let chroma_subsampling_x = (flags_byte & 0x08) >> 3;
        let chroma_subsampling_y = (flags_byte & 0x04) >> 2;
        let chroma_sample_position = flags_byte & 0x03;
        let delay_byte = data[c + 3];
        let initial_presentation_delay_present = (delay_byte & 0x10) == 0x10;
        let initial_presentation_delay_minus_one = if initial_presentation_delay_present {
            delay_byte & 0x0f
        } else {
            0
        };
        if size < HEADER_SIZE + 4 {
            return Err(Error::InvalidBoxSize);
        }
        let config_obus_size = size - (HEADER_SIZE + 4);
        if config_obus_size > (data.len() - c - 4) as u64 {
            return Err(Error::UnexpectedEof);
        }
        let end = c + 4 + config_obus_size as usize;
        let config_obus = slice_to_vec(slice_subrange(data, c + 4, end));
        let b = Av1CBox {
            profile,
            level,
            tier,
            bit_depth,
            monochrome,
            chroma_subsampling_x,
            chroma_subsampling_y,
            chroma_sample_position,
            initial_presentation_delay_present,
            initial_presentation_delay_minus_one,
            config_obus,
        };
        assert(b@ == spec_decode_av1c(profile_byte, flags_byte, delay_byte, data@.subrange(
            c + 4,
            end as int,
        )));
        Ok((b, end))
    }

    /// Appends the bytes of this box: its header, the marker byte, the three configuration
    /// bytes and the OBUs; gives the size the box declares.
    pub fn write_box(&self, out: &mut Vec<u8>) -> (n: u64)
        requires
            spec_av1c_box_size(self@) <= u64::MAX,
        ensures
            final(out)@ == old(out)@ + spec_av1c_bytes(self@),
            n == spec_av1c_box_size(self@),
    {
        let size = self.box_size();
        BoxHeader::new(self.box_type(), size).write(out);
        let ghost after_header = out@;
        // the marker bit and version 1
        let marker_byte: u8 = 0x81;
        out.push(marker_byte);
        let profile_byte = (self.profile << 5) | (self.level & 0x1f);
        out.push(profile_byte);
        let bit_depth_flag: u8 = match self.bit_depth {
            12 => 0x60,
            10 => 0x40,
            _ => 0x00,
        };
        let monochrome_flag: u8 = if self.monochrome {
            0x10
        } else {
            0x00
        };
        let flags_byte = bit_depth_flag | ((self.tier & 0x01) << 7) | monochrome_flag | ((
        self.chroma_subsampling_x & 0x01) << 3) | ((self.chroma_subsampling_y & 0x01) << 2) | (
        self.chroma_sample_position & 0x03);
        out.push(flags_byte);
        let delay_byte: u8 = if self.initial_presentation_delay_present {
            0x10 | (self.initial_presentation_delay_minus_one & 0x0f)
        } else {
            0x00
        };
        out.push(delay_byte);
        assert(profile_byte == spec_profile_byte(self@));
        assert(flags_byte == spec_flags_byte(self@));
        assert(delay_byte == spec_delay_byte(self@));
        assert(out@ =~= after_header + seq![0x81u8, profile_byte, flags_byte, delay_byte]);
        bytes::put_slice(out, self.config_obus.as_slice());
        reveal(spec_av1c_bytes);
        assert(final(out)@ =~= old(out)@ + spec_av1c_bytes(self@));
        size
    }
}

/// The AV1 sample entry box (`av01`).
#[derive(Debug, Clone, PartialEq, Eq)]
pub struct Av01Box {
    pub data_reference_index: u16,
    pub width: u16,
    pub height: u16,
    pub horizresolution: FixedPointU16,
    pub vertresolution: FixedPointU16,
    pub frame_count: u16,
    pub depth: u16,
    pub av1c: Av1CBox,
}

/// The value of an `av01` box; the resolutions are their raw 16.16 values.
pub struct Av01Model {
    pub data_reference_index: u16,
    pub width: u16,
    pub height: u16,
    pub horizresolution: u32,
    pub vertresolution: u32,
    pub frame_count: u16,
    pub depth: u16,
    pub av1c: Av1CModel,
}

impl View for Av01Box {
    type V = Av01Model;

    open spec fn view(&self) -> Av01Model {
        Av01Model {
            data_reference_index: self.data_reference_index,
            width: self.width,
            height: self.height,
            horizresolution: self.horizresolution@,
            vertresolution: self.vertresolution@,
            frame_count: self.frame_count,
            depth: self.depth,
            av1c: self.av1c@,
        }
    }
}

/// The size that an `av01` box declares for itself: its header, its 78 bytes of visual
/// sample entry fields, and the size its `av1C` box declares.
pub open spec fn spec_av01_box_size(m: Av01Model) -> int {
    HEADER_SIZE + 8 + 70 + spec_av1c_box_size(m.av1c)
}

/// What reading an `av01` box of declared size `size` gives, for a box that starts at the
/// first byte of `s`: the box and the index where reading stopped, which is the end of the box
/// as its size declares.
///
/// The 78 bytes after the header hold, most significant byte first, the data reference index
/// at offset 6, the width at 24, the height at 26, the resolutions at 28 and 32, the frame
/// count at 40 and the depth at 74; the header of an `av1C` box follows them.
pub open spec fn spec_parse_av01(s: Seq<u8>, size: u64) -> Result<(Av01Model, int), Error> {
    let c = HEADER_SIZE as int;
    if c + 78 > s.len() {
        Err(Error::UnexpectedEof)
    } else {
        match types::spec_read_header(s, c + 78) {
            Err(e) => Err(e),
            Ok((h, p)) => if h.size > size {
                Err(Error::Av01ChildTooLarge)
            } else if h.name != BoxType::Av1CBox {
                Err(Error::Av1cNotFound)
            } else {
                match spec_parse_av1c(s, p - HEADER_SIZE, h.size) {
                    Err(e) => Err(e),
                    Ok((av1c, _)) => Ok(
                        (
                            Av01Model {
                                data_reference_index: bytes::be_u16(s, c + 6),
                                width: bytes::be_u16(s, c + 24),
                                height: bytes::be_u16(s, c + 26),
                                horizresolution: bytes::be_u32(s, c + 28),
                                vertresolution: bytes::be_u32(s, c + 32),
                                frame_count: bytes::be_u16(s, c + 40),
                                depth: bytes::be_u16(s, c + 74),
                                av1c,
                            },
                            size as int,
                        ),
                    ),
                }
            },
        }
    }
}

/// The 78 bytes written after the header of an `av01` box: reserved and pre-defined fields as
/// zeros, the fields of the entry, 32 zero bytes for the compressor name, and the pre-defined
/// value -1.
#[verifier::opaque]
pub open spec fn spec_av01_entry_bytes(m: Av01Model) -> Seq<u8> {
    bytes::u32_bytes(0) + bytes::u16_bytes(0) + bytes::u16_bytes(m.data_reference_index)
        + bytes::u32_bytes(0) + bytes::u64_bytes(0) + bytes::u32_bytes(0) + bytes::u16_bytes(
        m.width,
    ) + bytes::u16_bytes(m.height) + bytes::u32_bytes(m.horizresolution) + bytes::u32_bytes(
        m.vertresolution,
    ) + bytes::u32_bytes(0) + bytes::u16_bytes(m.frame_count) + bytes::zeros(32)
        + bytes::u16_bytes(m.depth) + bytes::u16_bytes(0xffff)
}

/// The bytes written for an `av01` box: its header, its entry fields, and its `av1C` box.
#[verifier::opaque]
pub open spec fn spec_av01_bytes(m: Av01Model) -> Seq<u8> {
    types::spec_header_bytes(
        BoxHeader { name: BoxType::Av01Box, size: spec_av01_box_size(m) as u64 },
    ) + spec_av01_entry_bytes(m) + spec_av1c_bytes(m.av1c)
}

impl Av01Box {
    /// The type of this box: `av01`.
    pub fn get_type(&self) -> (t: BoxType)
        ensures
            t == BoxType::Av01Box,
    {
        BoxType::Av01Box
    }

    /// The size this box declares: header, entry fields and the size its `av1C` box declares.
    pub fn get_size(&self) -> (n: u64)
        requires
            spec_av01_box_size(self@) <= u64::MAX,
        ensures
            n == spec_av01_box_size(self@),
    {
        HEADER_SIZE + 8 + 70 + self.av1c.box_size()
    }

    /// The type of this box: `av01`.
    pub fn box_type(&self) -> (t: BoxType)
        ensures
            t == BoxType::Av01Box,
    {
        self.get_type()
    }

    /// The size this box declares, as `get_size` gives it.
    pub fn box_size(&self) -> (n: u64)
        requires
            spec_av01_box_size(self@) <= u64::MAX,
        ensures
            n == spec_av01_box_size(self@),
    {
        self.get_size()
    }

    /// A one-line description of the box.
    pub fn summary(&self) -> (r: Result<String, Error>)
        ensures
            r matches Ok(s) && s@ == "todo"@,
    {
        Ok(String::from_str("todo"))
    }

    /// Reads the `av01` box whose declared size is `size` from `data`, which holds the box from
    /// its first header byte on; gives the box and the index of `data` where reading stopped,
    /// which is `size`.
    pub fn read_box(data: &[u8], size: u64) -> (r: Result<(Av01Box, u64), Error>)
        ensures
            match r {
                Ok((b, end)) => spec_parse_av01(data@, size) == Ok::<(Av01Model, int), Error>(
                    (b@, end as int)),
                Err(e) => spec_parse_av01(data@, size) == Err::<(Av01Model, int), Error>(e),
            },
    {
        if data.len() < 86 {
            return Err(Error::UnexpectedEof);
        }
        let c: usize = 8;
        let data_reference_index = bytes::read_be_u16(data, c + 6);
        let width = bytes::read_be_u16(data, c + 24);
        let height = bytes::read_be_u16(data, c + 26);
        let horizresolution = FixedPointU16::new_raw(bytes::read_be_u32(data, c + 28));
        let vertresolution = FixedPointU16::new_raw(bytes::read_be_u32(data, c + 32));
        let frame_count = bytes::read_be_u16(data, c + 40);
        let depth = bytes::read_be_u16(data, c + 74);
        let (header, p) = match BoxHeader::read(data, c + 78) {
            Ok(hp) => hp,
            Err(e) => {
                return Err(e);
            },
        };
        if header.size > size {
            return Err(Error::Av01ChildTooLarge);
        }
        match header.name {
            BoxType::Av1CBox => {},
            _ => {
                return Err(Error::Av1cNotFound);
            },
        }
        let av1c = match Av1CBox::read_at(data, p - 8, header.size) {
            Ok((b, _)) => b,
            Err(e) => {
                return Err(e);
            },
        };
        Ok(
            (
                Av01Box {
                    data_reference_index,
                    width,
                    height,
                    horizresolution,
                    vertresolution,
                    frame_count,
                    depth,
                    av1c,
                },
                size,
            ),
        )
    }

    /// Appends the bytes of this box: its header, its entry fields and its `av1C` box; gives
    /// the size the box declares.
    #[verifier::rlimit(30)]
    pub fn write_box(&self, out: &mut Vec<u8>) -> (n: u64)
        requires
            spec_av01_box_size(self@) <= u64::MAX,
        ensures
            final(out)@ == old(out)@ + spec_av01_bytes(self@),
            n == spec_av01_box_size(self@),
    {
        let size = self.box_size();
        BoxHeader::new(self.box_type(), size).write(out);
        let ghost after_header = out@;
        bytes::put_u32(out, 0);  // reserved
        bytes::put_u16(out, 0);  // reserved
        bytes::put_u16(out, self.data_reference_index);
        bytes::put_u32(out, 0);  // pre-defined, reserved
        bytes::put_u64(out, 0);  // pre-defined
        bytes::put_u32(out, 0);  // pre-defined
        bytes::put_u16(out, self.width);
        bytes::put_u16(out, self.height);
        bytes::put_u32(out, self.horizresolution.raw_value());
        bytes::put_u32(out, self.vertresolution.raw_value());
        bytes::put_u32(out, 0);  // reserved
        bytes::put_u16(out, self.frame_count);
        bytes::put_zeros(out, 32);  // compressor name
        bytes::put_u16(out, self.depth);
        bytes::put_i16(out, -1);  // pre-defined
        assert((-1i16) as u16 == 0xffffu16) by (bit_vector);
        reveal(spec_av01_entry_bytes);
        assert(out@ =~= after_header + spec_av01_entry_bytes(self@));
        self.av1c.write_box(out);
        reveal(spec_av01_bytes);
        assert(final(out)@ =~= old(out)@ + spec_av01_bytes(self@));
        size
    }
}

/// The model `m` with its OBUs replaced by `obus`.
pub open spec fn spec_av1c_with_obus(m: Av1CModel, obus: Seq<u8>) -> Av1CModel {
    Av1CModel { config_obus: obus, ..m }
}

/// Decoding the three configuration bytes written for canonical fields gives those fields.
pub proof fn lemma_av1c_decode_of_encode(m: Av1CModel)
    requires
        spec_av1c_fields_canonical(m),
    ensures
        spec_decode_av1c(spec_profile_byte(m), spec_flags_byte(m), spec_delay_byte(m), m.config_obus)
            == m,
{
    let p = m.profile;
    let l = m.level;
    let pb = spec_profile_byte(m);
    assert((((p << 5u8) | (l & 0x1f)) & 0xe0) >> 5u8 == p && ((p << 5u8) | (l & 0x1f)) & 0x1f
        == l) by (bit_vector)
        requires
            p < 8,
            l < 32,
    ;
    let bdf: u8 = if m.bit_depth == 12 {
        0x60u8
    } else if m.bit_depth == 10 {
        0x40u8
    } else {
        0x00u8
    };
    let mf: u8 = if m.monochrome {
        0x10u8
    } else {
        0x00u8
    };
    let t = m.tier;
    let x = m.chroma_subsampling_x;
    let y = m.chroma_subsampling_y;
    let c = m.chroma_sample_position;
    let fb = spec_flags_byte(m);
    assert(fb == bdf | ((t & 0x01) << 7u8) | mf | ((x & 0x01) << 3u8) | ((y & 0x01) << 2u8) | (c
        & 0x03));
    assert(fb & 0x60 == bdf && (fb & 0x80) >> 7u8 == t && fb & 0x10 == mf && (fb & 0x08) >> 3u8
        == x && (fb & 0x04) >> 2u8 == y && fb & 0x03 == c) by (bit_vector)
        requires
            fb == bdf | ((t & 0x01) << 7u8) | mf | ((x & 0x01) << 3u8) | ((y & 0x01) << 2u8) | (c
                & 0x03),
            bdf == 0x60 || bdf == 0x40 || bdf == 0x00,
            mf == 0x10 || mf == 0x00,
            t < 2,
            x < 2,
            y < 2,
            c < 4,
    ;
    let d = m.initial_presentation_delay_minus_one;
    let db = spec_delay_byte(m);
    if m.initial_presentation_delay_present {
        assert((0x10 | (d & 0x0f)) & 0x10 == 0x10 && (0x10 | (d & 0x0f)) & 0x0f == d)
            by (bit_vector)
            requires
                d < 16,
        ;
    } else {
        assert(0u8 & 0x10 != 0x10) by (bit_vector);
    }
}

/// What reading gives back of a written `av1C` box, for canonical fields and a size that fits
/// in the 32-bit header field; the bytes after the box do not matter.
///
/// The box declares its size without its header, while reading takes the declared size to
/// include it: reading stops 8 bytes short and gives the OBUs less their last 8 bytes, and a
/// box with fewer than 8 bytes of OBUs is refused as too small.
#[verifier::rlimit(30)]
pub proof fn lemma_av1c_read_of_write(m: Av1CModel, post: Seq<u8>)
    requires
        spec_av1c_fields_canonical(m),
        spec_av1c_box_size(m) <= u32::MAX,
    ensures
        types::spec_read_header(spec_av1c_bytes(m) + post, 0) == Ok::<(BoxHeader, int), Error>(
            (BoxHeader { name: BoxType::Av1CBox, size: spec_av1c_box_size(m) as u64 }, 8),
        ),
        spec_parse_av1c(spec_av1c_bytes(m) + post, 0, spec_av1c_box_size(m) as u64) == (if m.config_obus.len()
            >= 8 {
            Ok::<(Av1CModel, int), Error>(
                (
                    spec_av1c_with_obus(m, m.config_obus.take(m.config_obus.len() - 8)),
                    spec_av1c_box_size(m),
                ),
            )
        } else {
            Err::<(Av1CModel, int), Error>(Error::InvalidBoxSize)
        }),
{
    reveal(spec_av1c_bytes);
    let size = spec_av1c_box_size(m) as u64;
    let h = BoxHeader { name: BoxType::Av1CBox, size };
    let hb = types::spec_header_bytes(h);
    let fixed = seq![0x81u8, spec_profile_byte(m), spec_flags_byte(m), spec_delay_byte(m)];
    let s = spec_av1c_bytes(m) + post;
    assert(s =~= Seq::<u8>::empty() + hb + (fixed + m.config_obus + post));
    types::lemma_header_roundtrip(h, Seq::<u8>::empty(), fixed + m.config_obus + post);
    assert(hb.len() == 8);
    assert(s[8] == 0x81u8);
    assert(s[9] == spec_profile_byte(m));
    assert(s[10] == spec_flags_byte(m));
    assert(s[11] == spec_delay_byte(m));
    if m.config_obus.len() >= 8 {
        let n = m.config_obus.len() - 8;
        assert(s.subrange(12, 12 + n) =~= m.config_obus.take(n));
        lemma_av1c_decode_of_encode(m);
        lemma_av1c_decode_of_encode(spec_av1c_with_obus(m, m.config_obus.take(n)));
    }
}

/// What reading gives back of a written `av01` box, for canonical `av1C` fields and a size that
/// fits in the 32-bit header field; the bytes after the box do not matter.
///
/// Every field of the entry comes back. The sizes that the `av01` and `av1C` boxes declare do
/// not count the `av1C` header, so the `av1C` box comes back as `lemma_av1c_read_of_write`
/// says: with its OBUs less their last 8 bytes, or refused when it has fewer than 8.
#[verifier::rlimit(30)]
pub proof fn lemma_av01_read_of_write(m: Av01Model, post: Seq<u8>)
    requires
        spec_av1c_fields_canonical(m.av1c),
        spec_av01_box_size(m) <= u32::MAX,
    ensures
        types::spec_read_header(spec_av01_bytes(m) + post, 0) == Ok::<(BoxHeader, int), Error>(
            (BoxHeader { name: BoxType::Av01Box, size: spec_av01_box_size(m) as u64 }, 8),
        ),
        spec_parse_av01(spec_av01_bytes(m) + post, spec_av01_box_size(m) as u64) == (if m.av1c.config_obus.len()
            >= 8 {
            Ok::<(Av01Model, int), Error>(
                (
                    Av01Model {
                        av1c: spec_av1c_with_obus(
                            m.av1c,
                            m.av1c.config_obus.take(m.av1c.config_obus.len() - 8),
                        ),
                        ..m
                    },
                    spec_av01_box_size(m),
                ),
            )
        } else {
            Err::<(Av01Model, int), Error>(Error::InvalidBoxSize)
        }),
{
    let s = spec_av01_bytes(m) + post;
    let size = spec_av01_box_size(m) as u64;
    let csize = spec_av1c_box_size(m.av1c) as u64;
    let ch = BoxHeader { name: BoxType::Av1CBox, size: csize };
    lemma_av01_layout(m, post);
    lemma_av1c_read_of_write(m.av1c, post);
    lemma_parse_av01_unfold(s, size, ch);
    let obus = m.av1c.config_obus;
    if obus.len() >= 8 {
        let m2 = spec_av1c_with_obus(m.av1c, obus.take(obus.len() - 8));
        assert(spec_parse_av1c(s, 86, csize) == Ok::<(Av1CModel, int), Error>(
            (m2, spec_av1c_box_size(m.av1c) + 86),
        ));
        let r = Av01Model {
            data_reference_index: bytes::be_u16(s, 14),
            width: bytes::be_u16(s, 32),
            height: bytes::be_u16(s, 34),
            horizresolution: bytes::be_u32(s, 36),
            vertresolution: bytes::be_u32(s, 40),
            frame_count: bytes::be_u16(s, 48),
            depth: bytes::be_u16(s, 82),
            av1c: m2,
        };
        assert(spec_parse_av01(s, size) == Ok::<(Av01Model, int), Error>((r, size as int)));
        assert(r == Av01Model { av1c: m2, ..m });
    } else {
        assert(spec_parse_av1c(s, 86, csize) == Err::<(Av1CModel, int), Error>(
            Error::InvalidBoxSize,
        ));
    }
}

/// Where the parts of a written `av01` box stand: its header reads back at 0, its entry
/// fields at their offsets, the `av1C` header at 86, and the `av1C` box reads as it would on
/// its own, 86 bytes further on.
#[verifier::rlimit(30)]
proof fn lemma_av01_layout(m: Av01Model, post: Seq<u8>)
    requires
        spec_av01_box_size(m) <= u32::MAX,
    ensures
        ({
            let s = spec_av01_bytes(m) + post;
            let csize = spec_av1c_box_size(m.av1c) as u64;
            &&& types::spec_read_header(s, 0) == Ok::<(BoxHeader, int), Error>(
                (BoxHeader { name: BoxType::Av01Box, size: spec_av01_box_size(m) as u64 }, 8),
            )
            &&& s.len() >= 86
            &&& types::spec_read_header(s, 86) == Ok::<(BoxHeader, int), Error>(
                (BoxHeader { name: BoxType::Av1CBox, size: csize }, 94),
            )
            &&& bytes::be_u16(s, 14) == m.data_reference_index
            &&& bytes::be_u16(s, 32) == m.width
            &&& bytes::be_u16(s, 34) == m.height
            &&& bytes::be_u32(s, 36) == m.horizresolution
            &&& bytes::be_u32(s, 40) == m.vertresolution
            &&& bytes::be_u16(s, 48) == m.frame_count
            &&& bytes::be_u16(s, 82) == m.depth
            &&& spec_parse_av1c(s, 86, csize) == match spec_parse_av1c(
                spec_av1c_bytes(m.av1c) + post,
                0,
                csize,
            ) {
                Ok((b, end)) => Ok::<(Av1CModel, int), Error>((b, end + 86)),
                Err(e) => Err::<(Av1CModel, int), Error>(e),
            }
        }),
{
    reveal(spec_av01_bytes);
    let size = spec_av01_box_size(m) as u64;
    let h = BoxHeader { name: BoxType::Av01Box, size };
    let hb = types::spec_header_bytes(h);
    let entry = spec_av01_entry_bytes(m);
    let child = spec_av1c_bytes(m.av1c);
    let s = spec_av01_bytes(m) + post;
    assert(s =~= Seq::<u8>::empty() + hb + (entry + child + post));
    types::lemma_header_roundtrip(h, Seq::<u8>::empty(), entry + child + post);
    assert(hb.len() == 8);
    lemma_entry_fields(m, hb, child + post);
    let pre = hb + entry;
    assert(pre.len() == 86);
    assert(s =~= pre + (child + post));
    let csize = spec_av1c_box_size(m.av1c) as u64;
    lemma_child_header(m.av1c, pre, post);
    lemma_parse_av1c_shift(pre, child + post, csize);
}

/// The header of the `av1C` box written after `pre` reads back.
proof fn lemma_child_header(m: Av1CModel, pre: Seq<u8>, post: Seq<u8>)
    requires
        spec_av1c_box_size(m) <= u32::MAX,
    ensures
        types::spec_read_header(pre + (spec_av1c_bytes(m) + post), pre.len() as int) == Ok::<
            (BoxHeader, int),
            Error,
        >(
            (
                BoxHeader { name: BoxType::Av1CBox, size: spec_av1c_box_size(m) as u64 },
                pre.len() + 8int,
            ),
        ),
{
    reveal(spec_av1c_bytes);
    let ch = BoxHeader { name: BoxType::Av1CBox, size: spec_av1c_box_size(m) as u64 };
    let crest = seq![0x81u8, spec_profile_byte(m), spec_flags_byte(m), spec_delay_byte(m)]
        + m.config_obus + post;
    assert(pre + (spec_av1c_bytes(m) + post) =~= pre + types::spec_header_bytes(ch) + crest);
    types::lemma_header_roundtrip(ch, pre, crest);
}

/// Reading an `av01` box whose child header, at index 86, is an `av1C` header no larger than
/// the box: the entry fields, then the `av1C` box read from index 86.
proof fn lemma_parse_av01_unfold(s: Seq<u8>, size: u64, ch: BoxHeader)
    requires
        s.len() >= 86,
        types::spec_read_header(s, 86) == Ok::<(BoxHeader, int), Error>((ch, 94)),
        ch.size <= size,
        ch.name == BoxType::Av1CBox,
    ensures
        spec_parse_av01(s, size) == match spec_parse_av1c(s, 86, ch.size) {
            Err(e) => Err::<(Av01Model, int), Error>(e),
            Ok((av1c, _)) => Ok::<(Av01Model, int), Error>(
                (
                    Av01Model {
                        data_reference_index: bytes::be_u16(s, 14),
                        width: bytes::be_u16(s, 32),
                        height: bytes::be_u16(s, 34),
                        horizresolution: bytes::be_u32(s, 36),
                        vertresolution: bytes::be_u32(s, 40),
                        frame_count: bytes::be_u16(s, 48),
                        depth: bytes::be_u16(s, 82),
                        av1c,
                    },
                    size as int,
                ),
            ),
        },
{
}

/// A written `av1C` box takes its declared size and its header, which that size does not count;
/// a written `av01` box takes its declared size and the header of its `av1C` box, which that
/// size does not count either.
pub proof fn lemma_written_lengths(m: Av01Model)
    requires
        spec_av01_box_size(m) <= u32::MAX,
    ensures
        spec_av1c_bytes(m.av1c).len() == spec_av1c_box_size(m.av1c) + HEADER_SIZE,
        spec_av01_bytes(m).len() == spec_av01_box_size(m) + HEADER_SIZE,
{
    reveal(spec_av01_bytes);
    reveal(spec_av1c_bytes);
    lemma_entry_fields(m, bytes::zeros(8), Seq::empty());
}

/// What a successful read of an `av1C` box gives, in terms of its bytes: the contents begin
/// with the marker 0x81; the profile is the first configuration byte's top three bits and the
/// level its low five; the tier, bit depth, monochrome flag and chroma layout are the bits of
/// the second byte from the top down; the delay is bit 4 and the low four bits of the third
/// byte; the OBUs are the bytes after them up to the end of the box as its size declares.
pub proof fn lemma_av1c_read_values(s: Seq<u8>, base: int, size: u64)
    requires
        0 <= base,
    ensures
        spec_parse_av1c(s, base, size) is Ok <==> (base + 12 <= s.len() && s[base + 8] == 0x81
            && size >= 12 && base + size <= s.len()),
        spec_parse_av1c(s, base, size) matches Ok((m, end)) ==> {
            let c = base + 8;
            let pb = s[c + 1];
            let fb = s[c + 2];
            let db = s[c + 3];
            &&& s[c] == 0x81
            &&& end == base + size
            &&& end <= s.len()
            &&& m.profile == pb / 32
            &&& m.level == pb % 32
            &&& m.tier == fb / 128
            &&& m.bit_depth == (if (fb / 32) % 4 == 3 {
                12u8
            } else if (fb / 32) % 4 == 2 {
                10u8
            } else {
                8u8
            })
            &&& m.monochrome == ((fb / 16) % 2 == 1)
            &&& m.chroma_subsampling_x == (fb / 8) % 2
            &&& m.chroma_subsampling_y == (fb / 4) % 2
            &&& m.chroma_sample_position == fb % 4
            &&& m.initial_presentation_delay_present == ((db / 16) % 2 == 1)
            &&& m.initial_presentation_delay_minus_one == (if (db / 16) % 2 == 1 {
                db % 16
            } else {
                0u8
            })
            &&& m.config_obus == s.subrange(c + 4, end)
        },
{
    if let Ok((m, end)) = spec_parse_av1c(s, base, size) {
        let c = base + 8;
        let pb = s[c + 1];
        let fb = s[c + 2];
        let db = s[c + 3];
        assert((pb & 0xe0) >> 5u8 == pb / 32 && pb & 0x1f == pb % 32) by (bit_vector);
        assert((fb & 0x80) >> 7u8 == fb / 128 && ((fb & 0x60 == 0x60) == ((fb / 32) % 4 == 3)) && ((
        fb & 0x60 == 0x40) == ((fb / 32) % 4 == 2)) && ((fb & 0x10 == 0x10) == ((fb / 16) % 2 == 1))
            && (fb & 0x08) >> 3u8 == (fb / 8) % 2 && (fb & 0x04) >> 2u8 == (fb / 4) % 2 && fb & 0x03
            == fb % 4) by (bit_vector);
        assert(((db & 0x10 == 0x10) == ((db / 16) % 2 == 1)) && db & 0x0f == db % 16)
            by (bit_vector);
    }
}

/// The bytes written for an `av1C` box, in terms of its fields: the header (the declared size
/// and `av1C` when the size fits in 32 bits), the marker 0x81, the profile times 32 plus the
/// level, the flags byte as the sum of its bits, the delay byte, and then the OBUs as they are.
pub proof fn lemma_av1c_write_values(m: Av1CModel)
    requires
        spec_av1c_box_size(m) <= u64::MAX,
    ensures
        ({
            let b = spec_av1c_bytes(m);
            let hl: int = if spec_av1c_box_size(m) > u32::MAX {
                16
            } else {
                8
            };
            &&& b.len() == hl + 4 + m.config_obus.len()
            &&& hl == 8 ==> b[0] * 0x1000000 + b[1] * 0x10000 + b[2] * 0x100 + b[3]
                == spec_av1c_box_size(m)
            &&& hl == 8 ==> b[4] == 0x61 && b[5] == 0x76 && b[6] == 0x31 && b[7] == 0x43
            &&& b[hl] == 0x81
            &&& b[hl + 1] == (m.profile % 8) * 32 + m.level % 32
            &&& b[hl + 2] == (if m.bit_depth == 12 {
                96int
            } else if m.bit_depth == 10 {
                64int
            } else {
                0int
            }) + (m.tier % 2) * 128 + (if m.monochrome {
                16int
            } else {
                0int
            }) + (m.chroma_subsampling_x % 2) * 8 + (m.chroma_subsampling_y % 2) * 4
                + m.chroma_sample_position % 4
            &&& b[hl + 3] == (if m.initial_presentation_delay_present {
                16 + m.initial_presentation_delay_minus_one % 16
            } else {
                0int
            })
            &&& b.subrange(hl + 4, b.len() as int) == m.config_obus
        }),
{
    reveal(spec_av1c_bytes);
    let size = spec_av1c_box_size(m) as u64;
    let h = BoxHeader { name: BoxType::Av1CBox, size };
    let hb = types::spec_header_bytes(h);
    let fixed = seq![0x81u8, spec_profile_byte(m), spec_flags_byte(m), spec_delay_byte(m)];
    let b = spec_av1c_bytes(m);
    let hl: int = if size > u32::MAX {
        16
    } else {
        8
    };
    assert(hb.len() == hl);
    assert(b =~= hb + fixed + m.config_obus);
    assert(b[hl] == 0x81u8);
    assert(b[hl + 1] == spec_profile_byte(m));
    assert(b[hl + 2] == spec_flags_byte(m));
    assert(b[hl + 3] == spec_delay_byte(m));
    assert(b.subrange(hl + 4, b.len() as int) =~= m.config_obus);
    if hl == 8 {
        bytes::lemma_u32_roundtrip(size as u32, Seq::empty(), u32_bytes_av1c() + fixed + m.config_obus);
        assert(b =~= Seq::<u8>::empty() + bytes::u32_bytes(size as u32) + (u32_bytes_av1c() + fixed
            + m.config_obus));
        bytes::lemma_be_u32_value(b, 0);
        assert(b[4] == ((0x61763143u32 >> 24u32) as u8));
        assert(b[5] == ((0x61763143u32 >> 16u32) as u8));
        assert(b[6] == ((0x61763143u32 >> 8u32) as u8));
        assert(b[7] == (0x61763143u32 as u8));
        assert(((0x61763143u32 >> 24u32) as u8) == 0x61u8 && ((0x61763143u32 >> 16u32) as u8)
            == 0x76u8 && ((0x61763143u32 >> 8u32) as u8) == 0x31u8 && (0x61763143u32 as u8)
            == 0x43u8) by (bit_vector);
    }
    let p = m.profile;
    let l = m.level;
    assert(((p << 5u8) | (l & 0x1f)) == (p % 8) * 32 + l % 32) by (bit_vector);
    let bdf: u8 = if m.bit_depth == 12 {
        0x60u8
    } else if m.bit_depth == 10 {
        0x40u8
    } else {
        0x00u8
    };
    let mf: u8 = if m.monochrome {
        0x10u8
    } else {
        0x00u8
    };
    let t = m.tier;
    let x = m.chroma_subsampling_x;
    let y = m.chroma_subsampling_y;
    let c = m.chroma_sample_position;
    assert(bdf | ((t & 0x01) << 7u8) | mf | ((x & 0x01) << 3u8) | ((y & 0x01) << 2u8) | (c & 0x03)
        == bdf + (t % 2) * 128 + mf + (x % 2) * 8 + (y % 2) * 4 + c % 4) by (bit_vector)
        requires
            bdf == 0x60 || bdf == 0x40 || bdf == 0x00,
            mf == 0x10 || mf == 0x00,
    ;
    let d = m.initial_presentation_delay_minus_one;
    assert(0x10 | (d & 0x0f) == 16 + d % 16) by (bit_vector);
}

/// The four bytes of the code `av1C`.
spec fn u32_bytes_av1c() -> Seq<u8> {
    bytes::u32_bytes(BoxType::Av1CBox.spec_fourcc())
}

/// The bytes written for an `av01` box, in terms of its fields: the header (the declared size
/// and `av01`), then at their offsets the data reference index, width, height, resolutions,
/// frame count and depth, most significant byte first, 32 zero bytes for the compressor name,
/// the bytes FF FF, and then the `av1C` box as written on its own.
pub proof fn lemma_av01_write_values(m: Av01Model)
    requires
        spec_av01_box_size(m) <= u32::MAX,
    ensures
        ({
            let b = spec_av01_bytes(m);
            &&& b.len() == 86 + spec_av1c_bytes(m.av1c).len()
            &&& b[0] * 0x1000000 + b[1] * 0x10000 + b[2] * 0x100 + b[3] == spec_av01_box_size(m)
            &&& b[4] == 0x61 && b[5] == 0x76 && b[6] == 0x30 && b[7] == 0x31
            &&& b[14] * 256 + b[15] == m.data_reference_index
            &&& b[32] * 256 + b[33] == m.width
            &&& b[34] * 256 + b[35] == m.height
            &&& b[36] * 0x1000000 + b[37] * 0x10000 + b[38] * 0x100 + b[39] == m.horizresolution
            &&& b[40] * 0x1000000 + b[41] * 0x10000 + b[42] * 0x100 + b[43] == m.vertresolution
            &&& b[48] * 256 + b[49] == m.frame_count
            &&& b.subrange(50, 82) == bytes::zeros(32)
            &&& b[82] * 256 + b[83] == m.depth
            &&& b[84] == 0xff && b[85] == 0xff
            &&& b.subrange(86, b.len() as int) == spec_av1c_bytes(m.av1c)
        }),
{
    reveal(spec_av01_bytes);
    let size = spec_av01_box_size(m) as u64;
    let h = BoxHeader { name: BoxType::Av01Box, size };
    let hb = types::spec_header_bytes(h);
    let entry = spec_av01_entry_bytes(m);
    let child = spec_av1c_bytes(m.av1c);
    let b = spec_av01_bytes(m);
    lemma_entry_fields(m, hb, child);
    assert(b =~= hb + entry + child);
    bytes::lemma_be_u16_value(b, 14);
    bytes::lemma_be_u16_value(b, 32);
    bytes::lemma_be_u16_value(b, 34);
    bytes::lemma_be_u32_value(b, 36);
    bytes::lemma_be_u32_value(b, 40);
    bytes::lemma_be_u16_value(b, 48);
    bytes::lemma_be_u16_value(b, 82);
    assert(b.subrange(86, b.len() as int) =~= child);
    let code = BoxType::Av01Box.spec_fourcc();
    bytes::lemma_u32_bytes_value(size as u32);
    assert(b[0] == bytes::u32_bytes(size as u32)[0] && b[1] == bytes::u32_bytes(size as u32)[1]
        && b[2] == bytes::u32_bytes(size as u32)[2] && b[3] == bytes::u32_bytes(size as u32)[3]);
    assert(b[4] == bytes::u32_bytes(code)[0] && b[5] == bytes::u32_bytes(code)[1] && b[6]
        == bytes::u32_bytes(code)[2] && b[7] == bytes::u32_bytes(code)[3]);
    assert(((0x61763031u32 >> 24u32) as u8) == 0x61u8 && ((0x61763031u32 >> 16u32) as u8)
        == 0x76u8 && ((0x61763031u32 >> 8u32) as u8) == 0x30u8 && (0x61763031u32 as u8) == 0x31u8)
        by (bit_vector);
    lemma_entry_tail(m, hb, child);
}

/// The compressor name and the final pre-defined field of a written `av01` entry.
proof fn lemma_entry_tail(m: Av01Model, pre: Seq<u8>, post: Seq<u8>)
    requires
        pre.len() == 8,
    ensures
        ({
            let s = pre + spec_av01_entry_bytes(m) + post;
            &&& s.subrange(50, 82) == bytes::zeros(32)
            &&& s[84] == 0xff
            &&& s[85] == 0xff
        }),
{
    reveal(spec_av01_entry_bytes);
    let s = pre + spec_av01_entry_bytes(m) + post;
    let head = pre + bytes::u32_bytes(0) + bytes::u16_bytes(0) + bytes::u16_bytes(
        m.data_reference_index,
    ) + bytes::u32_bytes(0) + bytes::u64_bytes(0) + bytes::u32_bytes(0) + bytes::u16_bytes(m.width)
        + bytes::u16_bytes(m.height) + bytes::u32_bytes(m.horizresolution) + bytes::u32_bytes(
        m.vertresolution,
    ) + bytes::u32_bytes(0) + bytes::u16_bytes(m.frame_count);
    assert(head.len() == 50);
    let tail = bytes::u16_bytes(m.depth) + bytes::u16_bytes(0xffff) + post;
    assert(s =~= head + bytes::zeros(32) + tail);
    assert(s.subrange(50, 82) =~= bytes::zeros(32));
    assert(s[84] == ((0xffffu16 >> 8u16) as u8));
    assert(s[85] == (0xffffu16 as u8));
    assert(((0xffffu16 >> 8u16) as u8) == 0xffu8 && (0xffffu16 as u8) == 0xffu8) by (bit_vector);
}

/// What a successful read of an `av01` box gives, in terms of its bytes: reading ends at the
/// declared size; each entry field is its bytes at its offset, most significant first; and the
/// child is an `av1C` box, no larger than the entry, whose read gives the `av1C` value.
pub proof fn lemma_av01_read_values(s: Seq<u8>, size: u64)
    ensures
        spec_parse_av01(s, size) matches Ok((m, end)) ==> {
            &&& end == size
            &&& m.data_reference_index == s[14] * 256 + s[15]
            &&& m.width == s[32] * 256 + s[33]
            &&& m.height == s[34] * 256 + s[35]
            &&& m.horizresolution == s[36] * 0x1000000 + s[37] * 0x10000 + s[38] * 0x100 + s[39]
            &&& m.vertresolution == s[40] * 0x1000000 + s[41] * 0x10000 + s[42] * 0x100 + s[43]
            &&& m.frame_count == s[48] * 256 + s[49]
            &&& m.depth == s[82] * 256 + s[83]
            &&& types::spec_read_header(s, 86) is Ok
            &&& ({
                let (h, p) = types::spec_read_header(s, 86)->Ok_0;
                &&& h.name == BoxType::Av1CBox
                &&& h.size <= size
                &&& spec_parse_av1c(s, p - 8, h.size) is Ok
                &&& spec_parse_av1c(s, p - 8, h.size)->Ok_0.0 == m.av1c
            })
        },
{
    if let Ok((m, end)) = spec_parse_av01(s, size) {
        bytes::lemma_be_u16_value(s, 14);
        bytes::lemma_be_u16_value(s, 32);
        bytes::lemma_be_u16_value(s, 34);
        bytes::lemma_be_u32_value(s, 36);
        bytes::lemma_be_u32_value(s, 40);
        bytes::lemma_be_u16_value(s, 48);
        bytes::lemma_be_u16_value(s, 82);
    }
}

/// The entry fields of an `av01` box read back from where they were written.
#[verifier::rlimit(30)]
proof fn lemma_entry_fields(m: Av01Model, pre: Seq<u8>, post: Seq<u8>)
    requires
        pre.len() == 8,
    ensures
        ({
            let s = pre + spec_av01_entry_bytes(m) + post;
            &&& bytes::be_u16(s, 14) == m.data_reference_index
            &&& bytes::be_u16(s, 32) == m.width
            &&& bytes::be_u16(s, 34) == m.height
            &&& bytes::be_u32(s, 36) == m.horizresolution
            &&& bytes::be_u32(s, 40) == m.vertresolution
            &&& bytes::be_u16(s, 48) == m.frame_count
            &&& bytes::be_u16(s, 82) == m.depth
            &&& spec_av01_entry_bytes(m).len() == 78
        }),
{
    reveal(spec_av01_entry_bytes);
    let s = pre + spec_av01_entry_bytes(m) + post;
    let z2 = bytes::u16_bytes(0);
    let z4 = bytes::u32_bytes(0);
    let z8 = bytes::u64_bytes(0);
    let dri = bytes::u16_bytes(m.data_reference_index);
    let w = bytes::u16_bytes(m.width);
    let he = bytes::u16_bytes(m.height);
    let hr = bytes::u32_bytes(m.horizresolution);
    let vr = bytes::u32_bytes(m.vertresolution);
    let fc = bytes::u16_bytes(m.frame_count);
    let z32 = bytes::zeros(32);
    let de = bytes::u16_bytes(m.depth);
    let last = bytes::u16_bytes(0xffff);
    let a = pre + z4 + z2;
    assert(s =~= a + dri + (z4 + z8 + z4 + w + he + hr + vr + z4 + fc + z32 + de + last + post));
    bytes::lemma_u16_roundtrip(
        m.data_reference_index,
        a,
        z4 + z8 + z4 + w + he + hr + vr + z4 + fc + z32 + de + last + post,
    );
    let b = a + dri + z4 + z8 + z4;
    assert(s =~= b + w + (he + hr + vr + z4 + fc + z32 + de + last + post));
    bytes::lemma_u16_roundtrip(m.width, b, he + hr + vr + z4 + fc + z32 + de + last + post);
    assert(s =~= (b + w) + he + (hr + vr + z4 + fc + z32 + de + last + post));
    bytes::lemma_u16_roundtrip(m.height, b + w, hr + vr + z4 + fc + z32 + de + last + post);
    assert(s =~= (b + w + he) + hr + (vr + z4 + fc + z32 + de + last + post));
    bytes::lemma_u32_roundtrip(m.horizresolution, b + w + he, vr + z4 + fc + z32 + de + last + post);
    assert(s =~= (b + w + he + hr) + vr + (z4 + fc + z32 + de + last + post));
    bytes::lemma_u32_roundtrip(m.vertresolution, b + w + he + hr, z4 + fc + z32 + de + last + post);
    let d = b + w + he + hr + vr + z4;
    assert(s =~= d + fc + (z32 + de + last + post));
    bytes::lemma_u16_roundtrip(m.frame_count, d, z32 + de + last + post);
    assert(s =~= (d + fc + z32) + de + (last + post));
    bytes::lemma_u16_roundtrip(m.depth, d + fc + z32, last + post);
}

/// Reading an `av1C` box depends only on the bytes from its start on.
#[verifier::rlimit(30)]
proof fn lemma_parse_av1c_shift(pre: Seq<u8>, rest: Seq<u8>, size: u64)
    ensures
        spec_parse_av1c(pre + rest, pre.len() as int, size) == match spec_parse_av1c(rest, 0, size) {
            Ok((b, end)) => Ok::<(Av1CModel, int), Error>((b, end + pre.len())),
            Err(e) => Err::<(Av1CModel, int), Error>(e),
        },
{
    let s = pre + rest;
    let k = pre.len() as int;
    if k + 9 <= s.len() {
        assert(s[k + 8] == rest[8]);
    }
    if k + 12 <= s.len() {
        assert(s[k + 9] == rest[9]);
        assert(s[k + 10] == rest[10]);
        assert(s[k + 11] == rest[11]);
        if size >= 12 && k + 12 + (size - 12) <= s.len() {
            assert(s.subrange(k + 12, k + 12 + (size - 12)) =~= rest.subrange(
                12,
                12 + (size - 12),
            ));
        }
    }
}

} // verus!
