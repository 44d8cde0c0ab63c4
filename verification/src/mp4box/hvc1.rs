//! The HEVC sample entry (`hvc1`) and its decoder configuration box (`hvcC`).

use super::bytes;
use super::text;
use super::types;
use super::types::{BoxHeader, BoxType, Error, FixedPointU16, HEADER_SIZE};
use vstd::prelude::*;
use vstd::slice::{slice_subrange, slice_to_vec};
use vstd::string::StringExecFns;

verus! {

/// One NAL unit of a parameter-set array: its declared size and its bytes.
#[derive(Debug, Clone, PartialEq, Eq)]
pub struct HvcCArrayNalu {
    pub size: u16,
    pub data: Vec<u8>,
}

/// The value of a NAL unit.
pub struct NaluModel {
    pub size: u16,
    pub data: Seq<u8>,
}

impl View for HvcCArrayNalu {
    type V = NaluModel;

    open spec fn view(&self) -> NaluModel {
        NaluModel { size: self.size, data: self.data@ }
    }
}

/// An array of NAL units of one type (such as the video, sequence or picture parameter sets).
#[derive(Debug, Clone, PartialEq, Eq)]
pub struct HvcCArray {
    pub completeness: bool,
    pub nal_unit_type: u8,
    pub nalus: Vec<HvcCArrayNalu>,
}

/// The value of an array of NAL units.
pub struct ArrayModel {
    pub completeness: bool,
    pub nal_unit_type: u8,
    pub nalus: Seq<NaluModel>,
}

/// The values of a sequence of NAL units.
pub open spec fn nalus_view(v: Seq<HvcCArrayNalu>) -> Seq<NaluModel> {
    v.map_values(|n: HvcCArrayNalu| n@)
}

impl View for HvcCArray {
    type V = ArrayModel;

    open spec fn view(&self) -> ArrayModel {
        ArrayModel {
            completeness: self.completeness,
            nal_unit_type: self.nal_unit_type,
            nalus: nalus_view(self.nalus@),
        }
    }
}

/// The values of a sequence of arrays.
pub open spec fn arrays_view(v: Seq<HvcCArray>) -> Seq<ArrayModel> {
    v.map_values(|a: HvcCArray| a@)
}

/// The HEVC decoder configuration box (`hvcC`).
#[derive(Debug, Clone, PartialEq, Eq)]
pub struct HvcCBox {
    pub configuration_version: u8,
    pub general_profile_space: u8,
    pub general_tier_flag: bool,
    pub general_profile_idc: u8,
    pub general_profile_compatibility_flags: u32,
    pub general_constraint_indicator_flag: u64,
    pub general_level_idc: u8,
    pub min_spatial_segmentation_idc: u16,
    pub parallelism_type: u8,
    pub chroma_format_idc: u8,
    pub bit_depth_luma_minus8: u8,
    pub bit_depth_chroma_minus8: u8,
    pub avg_frame_rate: u16,
    pub constant_frame_rate: u8,
    pub num_temporal_layers: u8,
    pub temporal_id_nested: bool,
    pub length_size_minus_one: u8,
    pub arrays: Vec<HvcCArray>,
}

/// The value of an `hvcC` box.
pub struct HvcCModel {
    pub configuration_version: u8,
    pub general_profile_space: u8,
    pub general_tier_flag: bool,
    pub general_profile_idc: u8,
    pub general_profile_compatibility_flags: u32,
    pub general_constraint_indicator_flag: u64,
    pub general_level_idc: u8,
    pub min_spatial_segmentation_idc: u16,
    pub parallelism_type: u8,
    pub chroma_format_idc: u8,
    pub bit_depth_luma_minus8: u8,
    pub bit_depth_chroma_minus8: u8,
    pub avg_frame_rate: u16,
    pub constant_frame_rate: u8,
    pub num_temporal_layers: u8,
    pub temporal_id_nested: bool,
    pub length_size_minus_one: u8,
    pub arrays: Seq<ArrayModel>,
}

impl View for HvcCBox {
    type V = HvcCModel;

    open spec fn view(&self) -> HvcCModel {
        HvcCModel {
            configuration_version: self.configuration_version,
            general_profile_space: self.general_profile_space,
            general_tier_flag: self.general_tier_flag,
            general_profile_idc: self.general_profile_idc,
            general_profile_compatibility_flags: self.general_profile_compatibility_flags,
            general_constraint_indicator_flag: self.general_constraint_indicator_flag,
            general_level_idc: self.general_level_idc,
            min_spatial_segmentation_idc: self.min_spatial_segmentation_idc,
            parallelism_type: self.parallelism_type,
            chroma_format_idc: self.chroma_format_idc,
            bit_depth_luma_minus8: self.bit_depth_luma_minus8,
            bit_depth_chroma_minus8: self.bit_depth_chroma_minus8,
            avg_frame_rate: self.avg_frame_rate,
            constant_frame_rate: self.constant_frame_rate,
            num_temporal_layers: self.num_temporal_layers,
            temporal_id_nested: self.temporal_id_nested,
            length_size_minus_one: self.length_size_minus_one,
            arrays: arrays_view(self.arrays@),
        }
    }
}

/// What reading a NAL unit at index `p` of `s` gives: a 16-bit size, then that many bytes.
pub open spec fn spec_parse_nalu(s: Seq<u8>, p: int) -> Option<(NaluModel, int)> {
    if p + 2 > s.len() {
        None
    } else {
        let n = bytes::be_u16(s, p);
        if p + 2 + n > s.len() {
            None
        } else {
            Some((NaluModel { size: n, data: s.subrange(p + 2, p + 2 + n) }, p + 2 + n))
        }
    }
}

/// What reading `count` NAL units one after the other from index `p` of `s` gives.
pub open spec fn spec_parse_nalus(s: Seq<u8>, p: int, count: nat) -> Option<(Seq<NaluModel>, int)>
    decreases count,
{
    if count == 0 {
        Some((Seq::empty(), p))
    } else {
        match spec_parse_nalus(s, p, (count - 1) as nat) {
            None => None,
            Some((ns, q)) => match spec_parse_nalu(s, q) {
                None => None,
                Some((n, r)) => Some((ns.push(n), r)),
            },
        }
    }
}

/// What reading an array at index `p` of `s` gives: a byte with the completeness flag (top
/// bit) and the NAL unit type (low six bits), a 16-bit count, then that many NAL units.
pub open spec fn spec_parse_array(s: Seq<u8>, p: int) -> Option<(ArrayModel, int)> {
    if p + 3 > s.len() {
        None
    } else {
        let params = s[p];
        match spec_parse_nalus(s, p + 3, bytes::be_u16(s, p + 1) as nat) {
            None => None,
            Some((nalus, q)) => Some(
                (
                    ArrayModel {
                        completeness: params & 0x80 > 0,
                        nal_unit_type: params & 0x3f,
                        nalus,
                    },
                    q,
                ),
            ),
        }
    }
}

/// What reading `count` arrays one after the other from index `p` of `s` gives.
pub open spec fn spec_parse_arrays(s: Seq<u8>, p: int, count: nat) -> Option<(Seq<ArrayModel>, int)>
    decreases count,
{
    if count == 0 {
        Some((Seq::empty(), p))
    } else {
        match spec_parse_arrays(s, p, (count - 1) as nat) {
            None => None,
            Some((arrs, q)) => match spec_parse_array(s, q) {
                None => None,
                Some((a, r)) => Some((arrs.push(a), r)),
            },
        }
    }
}

/// The fields that the 23 fixed bytes at index `c` of `s` hold, with `arrays`.
///
/// The byte at offset 21 gives four fields through overlapping masks: the constant frame rate
/// and the length size are its low two bits, the number of temporal layers its low three bits,
/// and the nesting flag its low bit.
pub open spec fn spec_decode_hvcc(s: Seq<u8>, c: int, arrays: Seq<ArrayModel>) -> HvcCModel {
    HvcCModel {
        configuration_version: s[c],
        general_profile_space: s[c + 1] >> 6u8,
        general_tier_flag: (s[c + 1] & 0x20) >> 5u8 > 0,
        general_profile_idc: s[c + 1] & 0x1f,
        general_profile_compatibility_flags: bytes::be_u32(s, c + 2),
        general_constraint_indicator_flag: bytes::be_u48(s, c + 6),
        general_level_idc: s[c + 12],
        min_spatial_segmentation_idc: bytes::be_u16(s, c + 13) & 0x0fff,
        parallelism_type: s[c + 15] & 0x03,
        chroma_format_idc: s[c + 16] & 0x03,
        bit_depth_luma_minus8: s[c + 17] & 0x07,
        bit_depth_chroma_minus8: s[c + 18] & 0x07,
        avg_frame_rate: bytes::be_u16(s, c + 19),
        constant_frame_rate: s[c + 21] & 0x03,
        num_temporal_layers: s[c + 21] & 0x07,
        temporal_id_nested: s[c + 21] & 0x01 > 0,
        length_size_minus_one: s[c + 21] & 0x03,
        arrays,
    }
}

/// What reading an `hvcC` box that starts at index `base` of `s` gives (its contents start
/// `HEADER_SIZE` bytes later): the box and the index where reading stopped. The declared size
/// plays no part: 23 fixed bytes, the last of them the number of arrays, then the arrays.
pub open spec fn spec_parse_hvcc(s: Seq<u8>, base: int) -> Result<(HvcCModel, int), Error> {
    let c = base + HEADER_SIZE;
    if c + 23 > s.len() {
        Err(Error::UnexpectedEof)
    } else {
        match spec_parse_arrays(s, c + 23, s[c + 22] as nat) {
            None => Err(Error::UnexpectedEof),
            Some((arrays, end)) => Ok((spec_decode_hvcc(s, c, arrays), end)),
        }
    }
}

/// Once reading `i` NAL units has failed, reading more fails too.
proof fn lemma_nalus_fail_on(s: Seq<u8>, p: int, i: nat, j: nat)
    requires
        i <= j,
        spec_parse_nalus(s, p, i) is None,
    ensures
        spec_parse_nalus(s, p, j) is None,
    decreases j - i,
{
    if i < j {
        lemma_nalus_fail_on(s, p, i, (j - 1) as nat);
    }
}

/// Once reading `i` arrays has failed, reading more fails too.
proof fn lemma_arrays_fail_on(s: Seq<u8>, p: int, i: nat, j: nat)
    requires
        i <= j,
        spec_parse_arrays(s, p, i) is None,
    ensures
        spec_parse_arrays(s, p, j) is None,
    decreases j - i,
{
    if i < j {
        lemma_arrays_fail_on(s, p, i, (j - 1) as nat);
    }
}

impl HvcCArrayNalu {
    /// Reads the NAL unit at index `p` of `data`.
    fn read_at(data: &[u8], p: usize) -> (r: Option<(HvcCArrayNalu, usize)>)
        requires
            p <= data@.len(),
        ensures
            match r {
                Some((n, q)) => spec_parse_nalu(data@, p as int) == Some((n@, q as int)),
                None => spec_parse_nalu(data@, p as int) is None,
            },
    {
        if data.len() - p < 2 {
            return None;
        }
        let size = bytes::read_be_u16(data, p);
        if data.len() - p - 2 < size as usize {
            return None;
        }
        let end = p + 2 + size as usize;
        let d = slice_to_vec(slice_subrange(data, p + 2, end));
        Some((HvcCArrayNalu { size, data: d }, end))
    }
}

impl HvcCArray {
    /// Reads the array at index `p` of `data`.
    fn read_at(data: &[u8], p: usize) -> (r: Option<(HvcCArray, usize)>)
        requires
            p <= data@.len(),
        ensures
            match r {
                Some((a, q)) => spec_parse_array(data@, p as int) == Some((a@, q as int)),
                None => spec_parse_array(data@, p as int) is None,
            },
    {
        if data.len() - p < 3 {
            return None;
        }
        let params = data[p];
        let num_nalus = bytes::read_be_u16(data, p + 1);
        let mut nalus: Vec<HvcCArrayNalu> = Vec::new();
        let mut q = p + 3;
        let mut i: u16 = 0;
        while i < num_nalus
            invariant
                p + 3 <= data@.len(),
                q <= data@.len(),
                i <= num_nalus,
                num_nalus == bytes::be_u16(data@, p as int + 1),
                spec_parse_nalus(data@, p + 3, i as nat) == Some((nalus_view(nalus@), q as int)),
            decreases num_nalus - i,
        {
            match HvcCArrayNalu::read_at(data, q) {
                Some((n, q2)) => {
                    let ghost before = nalus@;
                    nalus.push(n);
                    assert(nalus_view(nalus@) =~= nalus_view(before).push(n@));
                    q = q2;
                },
                None => {
                    proof {
                        lemma_nalus_fail_on(data@, p + 3, (i + 1) as nat, num_nalus as nat);
                    }
                    return None;
                },
            }
            i = i + 1;
        }
        Some(
            (
                HvcCArray {
                    completeness: (params & 0b10000000) > 0,
                    nal_unit_type: params & 0b111111,
                    nalus,
                },
                q,
            ),
        )
    }
}

impl HvcCBox {
    /// Reads the `hvcC` box whose declared size is `size` from `data`, which holds the box from
    /// its first header byte on; gives the box and the index of `data` where reading stopped.
    /// The declared size is not used.
    pub fn read_box(data: &[u8], size: u64) -> (r: Result<(HvcCBox, u64), Error>)
        ensures
            match r {
                Ok((b, end)) => spec_parse_hvcc(data@, 0) == Ok::<(HvcCModel, int), Error>(
                    (b@, end as int)),
                Err(e) => spec_parse_hvcc(data@, 0) == Err::<(HvcCModel, int), Error>(e),
            },
    {
        match Self::read_at(data, 0) {
            Ok((b, end)) => Ok((b, end as u64)),
            Err(e) => Err(e),
        }
    }

    /// Reads the `hvcC` box that starts at index `base` of `data`.
    pub(crate) fn read_at(data: &[u8], base: usize) -> (r: Result<(HvcCBox, usize), Error>)
        requires
            base <= data@.len(),
        ensures
            match r {
                Ok((b, end)) => spec_parse_hvcc(data@, base as int) == Ok::<(HvcCModel, int), Error>(
                    (b@, end as int)),
                Err(e) => spec_parse_hvcc(data@, base as int) == Err::<(HvcCModel, int), Error>(e),
            },
    {
        if data.len() - base < 8 + 23 {
            return Err(Error::UnexpectedEof);
        }
        let c = base + 8;
        let configuration_version = data[c];
        let params = data[c + 1];
        let general_profile_space = params >> 6;
        let general_tier_flag = ((params & 0b00100000) >> 5) > 0;
        let general_profile_idc = params & 0b00011111;
        let general_profile_compatibility_flags = bytes::read_be_u32(data, c + 2);
        let general_constraint_indicator_flag = bytes::read_be_u48(data, c + 6);
        let general_level_idc = data[c + 12];
        let min_spatial_segmentation_idc = bytes::read_be_u16(data, c + 13) & 0x0FFF;
        let parallelism_type = data[c + 15] & 0b11;
        let chroma_format_idc = data[c + 16] & 0b11;
        let bit_depth_luma_minus8 = data[c + 17] & 0b111;
        let bit_depth_chroma_minus8 = data[c + 18] & 0b111;
        let avg_frame_rate = bytes::read_be_u16(data, c + 19);
        let params = data[c + 21];
        let constant_frame_rate = params & 0b11;
        let num_temporal_layers = params & 0b111;
        let temporal_id_nested = (params & 0b1) > 0;
        let length_size_minus_one = params & 0b11;
        let num_of_arrays = data[c + 22];
        let mut arrays: Vec<HvcCArray> = Vec::new();
        let mut q = c + 23;
        let mut i: u8 = 0;
        while i < num_of_arrays
            invariant
                c == base + HEADER_SIZE,
                c + 23 <= data@.len(),
                q <= data@.len(),
                i <= num_of_arrays,
                num_of_arrays == data@[c + 22],
                spec_parse_arrays(data@, c + 23, i as nat) == Some(
                    (arrays_view(arrays@), q as int),
                ),
            decreases num_of_arrays - i,
        {
            match HvcCArray::read_at(data, q) {
                Some((a, q2)) => {
                    let ghost before = arrays@;
                    arrays.push(a);
                    assert(arrays_view(arrays@) =~= arrays_view(before).push(a@));
                    q = q2;
                },
                None => {
                    proof {
                        lemma_arrays_fail_on(data@, c + 23, (i + 1) as nat, num_of_arrays as nat);
                    }
                    return Err(Error::UnexpectedEof);
                },
            }
            i = i + 1;
        }
        let b = HvcCBox {
            configuration_version,
            general_profile_space,
            general_tier_flag,
            general_profile_idc,
            general_profile_compatibility_flags,
            general_constraint_indicator_flag,
            general_level_idc,
            min_spatial_segmentation_idc,
            parallelism_type,
            chroma_format_idc,
            bit_depth_luma_minus8,
            bit_depth_chroma_minus8,
            avg_frame_rate,
            constant_frame_rate,
            num_temporal_layers,
            temporal_id_nested,
            length_size_minus_one,
            arrays,
        };
        assert(b@ == spec_decode_hvcc(data@, c as int, arrays_view(b.arrays@)));
        Ok((b, q))
    }
}

/// The bytes that a sequence of NAL units takes: a 16-bit size and the data of each.
pub open spec fn spec_nalus_size(ns: Seq<NaluModel>) -> nat
    decreases ns.len(),
{
    if ns.len() == 0 {
        0
    } else {
        spec_nalus_size(ns.drop_last()) + 2 + ns.last().data.len()
    }
}

/// The bytes that a sequence of arrays takes: a flags byte, a 16-bit count and the NAL units
/// of each.
pub open spec fn spec_arrays_size(arrs: Seq<ArrayModel>) -> nat
    decreases arrs.len(),
{
    if arrs.len() == 0 {
        0
    } else {
        spec_arrays_size(arrs.drop_last()) + 3 + spec_nalus_size(arrs.last().nalus)
    }
}

/// The size of an `hvcC` box: its header, its 23 fixed bytes and its arrays.
pub open spec fn spec_hvcc_box_size(m: HvcCModel) -> int {
    HEADER_SIZE + 23 + spec_arrays_size(m.arrays)
}

/// Every NAL unit declares the length of its data as its size.
pub open spec fn spec_nalus_consistent(ns: Seq<NaluModel>) -> bool {
    forall|i: int| 0 <= i < ns.len() ==> (#[trigger] ns[i]).size == ns[i].data.len()
}

/// Every NAL unit of every array declares the length of its data as its size.
pub open spec fn spec_arrays_consistent(arrs: Seq<ArrayModel>) -> bool {
    forall|i: int| 0 <= i < arrs.len() ==> spec_nalus_consistent((#[trigger] arrs[i]).nalus)
}

/// The NAL units that were read take exactly the bytes that were read, and each one's size
/// is the length of its data.
pub proof fn lemma_parse_nalus_size(s: Seq<u8>, p: int, count: nat)
    requires
        0 <= p,
    ensures
        spec_parse_nalus(s, p, count) matches Some((ns, q)) ==> {
            &&& q == p + spec_nalus_size(ns)
            &&& ns.len() == count
            &&& spec_nalus_consistent(ns)
        },
    decreases count,
{
    if count > 0 {
        lemma_parse_nalus_size(s, p, (count - 1) as nat);
        if let Some((ns, q)) = spec_parse_nalus(s, p, count) {
            let (prev, q0) = spec_parse_nalus(s, p, (count - 1) as nat).unwrap();
            let (n, _) = spec_parse_nalu(s, q0).unwrap();
            assert(ns =~= prev.push(n));
            assert(ns.drop_last() =~= prev);
            assert(n.size == n.data.len());
            assert forall|i: int| 0 <= i < ns.len() implies (#[trigger] ns[i]).size == ns[i].data.len() by {
                if i < prev.len() {
                    assert(ns[i] == prev[i]);
                }
            }
        }
    }
}

/// The arrays that were read take exactly the bytes that were read, and all their NAL units
/// are consistent.
pub proof fn lemma_parse_arrays_size(s: Seq<u8>, p: int, count: nat)
    requires
        0 <= p,
    ensures
        spec_parse_arrays(s, p, count) matches Some((arrs, q)) ==> {
            &&& q == p + spec_arrays_size(arrs)
            &&& arrs.len() == count
            &&& spec_arrays_consistent(arrs)
        },
    decreases count,
{
    if count > 0 {
        lemma_parse_arrays_size(s, p, (count - 1) as nat);
        if let Some((arrs, q)) = spec_parse_arrays(s, p, count) {
            let (prev, q0) = spec_parse_arrays(s, p, (count - 1) as nat).unwrap();
            assert(arrs.drop_last() =~= prev);
            lemma_parse_nalus_size(s, q0 + 3, bytes::be_u16(s, q0 + 1) as nat);
        }
    }
}

/// The size of an `hvcC` box that was read is exactly the header and the bytes that were read,
/// and each of its NAL units declares the length of its data as its size.
pub proof fn lemma_hvcc_size_of_read(s: Seq<u8>, base: int)
    requires
        0 <= base,
    ensures
        spec_parse_hvcc(s, base) matches Ok((m, end)) ==> {
            &&& end == base + spec_hvcc_box_size(m)
            &&& spec_arrays_consistent(m.arrays)
        },
{
    let c = base + HEADER_SIZE;
    if c + 23 <= s.len() {
        lemma_parse_arrays_size(s, c + 23, s[c + 22] as nat);
    }
}

/// A prefix of a sequence of NAL units takes no more bytes than the whole.
proof fn lemma_nalus_size_prefix(ns: Seq<NaluModel>, j: int)
    requires
        0 <= j <= ns.len(),
    ensures
        spec_nalus_size(ns.take(j)) <= spec_nalus_size(ns),
        j < ns.len() ==> spec_nalus_size(ns.take(j + 1)) == spec_nalus_size(ns.take(j)) + 2
            + ns[j].data.len(),
    decreases ns.len() - j,
{
    if j < ns.len() {
        assert(ns.take(j + 1).drop_last() =~= ns.take(j));
        lemma_nalus_size_prefix(ns, j + 1);
    } else {
        assert(ns.take(j) =~= ns);
    }
}

/// A prefix of a sequence of arrays takes no more bytes than the whole.
proof fn lemma_arrays_size_prefix(arrs: Seq<ArrayModel>, i: int)
    requires
        0 <= i <= arrs.len(),
    ensures
        spec_arrays_size(arrs.take(i)) <= spec_arrays_size(arrs),
        i < arrs.len() ==> spec_arrays_size(arrs.take(i + 1)) == spec_arrays_size(arrs.take(i))
            + 3 + spec_nalus_size(arrs[i].nalus),
    decreases arrs.len() - i,
{
    if i < arrs.len() {
        assert(arrs.take(i + 1).drop_last() =~= arrs.take(i));
        lemma_arrays_size_prefix(arrs, i + 1);
    } else {
        assert(arrs.take(i) =~= arrs);
    }
}

impl HvcCBox {
    /// The type of this box: `hvcC`.
    pub fn box_type(&self) -> (t: BoxType)
        ensures
            t == BoxType::HvcCBox,
    {
        BoxType::HvcCBox
    }

    /// The size of this box: its header, its 23 fixed bytes, and for each array a flags byte,
    /// a count and, for each NAL unit, a 16-bit size and the data.
    pub fn box_size(&self) -> (n: u64)
        requires
            spec_hvcc_box_size(self@) <= u64::MAX,
        ensures
            n == spec_hvcc_box_size(self@),
    {
        let ghost arrs = arrays_view(self.arrays@);
        let mut total: u64 = 0;
        let mut i: usize = 0;
        while i < self.arrays.len()
            invariant
                arrs == arrays_view(self.arrays@),
                0 <= i <= arrs.len(),
                total == spec_arrays_size(arrs.take(i as int)),
                HEADER_SIZE + 23 + spec_arrays_size(arrs) <= u64::MAX,
            decreases self.arrays.len() - i,
        {
            let a = &self.arrays[i];
            let ghost ns = nalus_view(a.nalus@);
            proof {
                lemma_arrays_size_prefix(arrs, i as int);
                lemma_arrays_size_prefix(arrs, i + 1);
                assert(arrs[i as int] == a@);
            }
            let mut inner: u64 = 0;
            let mut j: usize = 0;
            while j < a.nalus.len()
                invariant
                    ns == nalus_view(a.nalus@),
                    0 <= j <= ns.len(),
                    inner == spec_nalus_size(ns.take(j as int)),
                    total + 3 + spec_nalus_size(ns) <= u64::MAX,
                decreases a.nalus.len() - j,
            {
                proof {
                    lemma_nalus_size_prefix(ns, j as int);
                    lemma_nalus_size_prefix(ns, j + 1);
                    assert(ns[j as int] == a.nalus@[j as int]@);
                }
                inner = inner + 2 + a.nalus[j].data.len() as u64;
                j = j + 1;
            }
            proof {
                assert(ns.take(j as int) =~= ns);
            }
            total = total + 3 + inner;
            i = i + 1;
        }
        proof {
            assert(arrs.take(i as int) =~= arrs);
        }
        HEADER_SIZE + 23 + total
    }
}

/// A box read together with the bytes of its contents, as they were read.
#[derive(Debug, Clone, PartialEq, Eq)]
pub struct RawBox<T> {
    pub contents: T,
    pub raw: Vec<u8>,
}

impl<T: View> View for RawBox<T> {
    type V = (T::V, Seq<u8>);

    open spec fn view(&self) -> (T::V, Seq<u8>) {
        (self.contents@, self.raw@)
    }
}

/// What reading an `hvcC` box that starts at index `base` of `s` with its raw bytes gives: the
/// box, the bytes from its contents' start to where reading stopped, and that index.
pub open spec fn spec_parse_raw_hvcc(s: Seq<u8>, base: int) -> Result<((HvcCModel, Seq<u8>), int), Error> {
    match spec_parse_hvcc(s, base) {
        Err(e) => Err(e),
        Ok((m, end)) => Ok(((m, s.subrange(base + HEADER_SIZE, end)), end)),
    }
}

impl RawBox<HvcCBox> {
    /// The type of the box: `hvcC`.
    pub fn box_type(&self) -> (t: BoxType)
        ensures
            t == BoxType::HvcCBox,
    {
        self.contents.box_type()
    }

    /// The size of the box, as its contents give it.
    pub fn box_size(&self) -> (n: u64)
        requires
            spec_hvcc_box_size(self.contents@) <= u64::MAX,
        ensures
            n == spec_hvcc_box_size(self.contents@),
    {
        self.contents.box_size()
    }

    /// Reads the `hvcC` box whose declared size is `size` from `data`, which holds the box from
    /// its first header byte on, keeping the bytes of its contents; gives it and the index of
    /// `data` where reading stopped.
    pub fn read_box(data: &[u8], size: u64) -> (r: Result<(RawBox<HvcCBox>, u64), Error>)
        ensures
            match r {
                Ok((b, end)) => spec_parse_raw_hvcc(data@, 0) == Ok::<
                    ((HvcCModel, Seq<u8>), int),
                    Error,
                >((b@, end as int)),
                Err(e) => spec_parse_raw_hvcc(data@, 0) == Err::<((HvcCModel, Seq<u8>), int), Error>(
                    e,
                ),
            },
    {
        match Self::read_at(data, 0) {
            Ok((b, end)) => Ok((b, end as u64)),
            Err(e) => Err(e),
        }
    }

    /// Reads the `hvcC` box that starts at index `base` of `data`, with its raw bytes.
    pub(crate) fn read_at(data: &[u8], base: usize) -> (r: Result<(RawBox<HvcCBox>, usize), Error>)
        requires
            base <= data@.len(),
        ensures
            match r {
                Ok((b, end)) => spec_parse_raw_hvcc(data@, base as int) == Ok::<
                    ((HvcCModel, Seq<u8>), int),
                    Error,
                >((b@, end as int)),
                Err(e) => spec_parse_raw_hvcc(data@, base as int) == Err::<
                    ((HvcCModel, Seq<u8>), int),
                    Error,
                >(e),
            },
    {
        proof {
            lemma_hvcc_size_of_read(data@, base as int);
        }
        match HvcCBox::read_at(data, base) {
            Ok((contents, end)) => {
                let raw = slice_to_vec(slice_subrange(data, base + 8, end));
                Ok((RawBox { contents, raw }, end))
            },
            Err(e) => Err(e),
        }
    }
}

/// The raw bytes kept with an `hvcC` box that was read are its contents: the box size less the
/// header.
pub proof fn lemma_raw_hvcc_bytes(s: Seq<u8>, base: int)
    requires
        0 <= base,
    ensures
        spec_parse_raw_hvcc(s, base) matches Ok(((m, raw), end)) ==> {
            &&& raw.len() + HEADER_SIZE == spec_hvcc_box_size(m)
            &&& raw == s.subrange(base + HEADER_SIZE, end)
        },
{
    lemma_hvcc_size_of_read(s, base);
}

/// The NAL unit `n` stands at index `q` of `s`: its size is the two bytes there, most
/// significant first, and its data the `size` bytes after them.
pub open spec fn nalu_laid_out(s: Seq<u8>, q: int, n: NaluModel) -> bool {
    &&& n.size == s[q] * 256 + s[q + 1]
    &&& n.data == s.subrange(q + 2, q + 2 + n.size)
}

/// The array `a` stands at index `p` of `s`: the completeness flag is the top bit of the
/// first byte and the NAL unit type its low six bits; the count is the next two bytes; and the
/// NAL units follow one after the other.
pub open spec fn array_laid_out(s: Seq<u8>, p: int, a: ArrayModel) -> bool {
    &&& a.completeness == (s[p] >= 128)
    &&& a.nal_unit_type == s[p] % 64
    &&& a.nalus.len() == s[p + 1] * 256 + s[p + 2]
    &&& forall|j: int|
        #![trigger a.nalus[j]]
        0 <= j < a.nalus.len() ==> nalu_laid_out(
            s,
            p + 3 + spec_nalus_size(a.nalus.take(j)),
            a.nalus[j],
        )
}

/// NAL units that were read stand one after the other from where reading began.
proof fn lemma_nalus_laid_out(s: Seq<u8>, p: int, count: nat)
    requires
        0 <= p,
    ensures
        spec_parse_nalus(s, p, count) matches Some((ns, r)) ==> forall|j: int|
            #![trigger ns[j]]
            0 <= j < ns.len() ==> nalu_laid_out(s, p + spec_nalus_size(ns.take(j)), ns[j]),
    decreases count,
{
    if count > 0 {
        lemma_nalus_laid_out(s, p, (count - 1) as nat);
        lemma_parse_nalus_size(s, p, (count - 1) as nat);
        if let Some((ns, r)) = spec_parse_nalus(s, p, count) {
            let (prev, q0) = spec_parse_nalus(s, p, (count - 1) as nat).unwrap();
            let (n, _) = spec_parse_nalu(s, q0).unwrap();
            assert(ns =~= prev.push(n));
            bytes::lemma_be_u16_value(s, q0);
            assert forall|j: int|
                #![trigger ns[j]]
                0 <= j < ns.len() implies nalu_laid_out(
                s,
                p + spec_nalus_size(ns.take(j)),
                ns[j],
            ) by {
                if j < prev.len() {
                    assert(ns.take(j) =~= prev.take(j));
                    assert(ns[j] == prev[j]);
                } else {
                    assert(ns.take(j) =~= prev);
                }
            }
        }
    }
}

/// Arrays that were read stand one after the other from where reading began.
proof fn lemma_arrays_laid_out(s: Seq<u8>, p: int, count: nat)
    requires
        0 <= p,
    ensures
        spec_parse_arrays(s, p, count) matches Some((arrs, r)) ==> forall|i: int|
            #![trigger arrs[i]]
            0 <= i < arrs.len() ==> array_laid_out(s, p + spec_arrays_size(arrs.take(i)), arrs[i]),
    decreases count,
{
    if count > 0 {
        lemma_arrays_laid_out(s, p, (count - 1) as nat);
        lemma_parse_arrays_size(s, p, (count - 1) as nat);
        if let Some((arrs, r)) = spec_parse_arrays(s, p, count) {
            let (prev, q0) = spec_parse_arrays(s, p, (count - 1) as nat).unwrap();
            let (a, _) = spec_parse_array(s, q0).unwrap();
            assert(arrs =~= prev.push(a));
            let x = s[q0];
            assert((x & 0x80 > 0) == (x >= 128) && x & 0x3f == x % 64) by (bit_vector);
            bytes::lemma_be_u16_value(s, q0 + 1);
            lemma_nalus_laid_out(s, q0 + 3, bytes::be_u16(s, q0 + 1) as nat);
            lemma_parse_nalus_size(s, q0 + 3, bytes::be_u16(s, q0 + 1) as nat);
            assert forall|i: int|
                #![trigger arrs[i]]
                0 <= i < arrs.len() implies array_laid_out(
                s,
                p + spec_arrays_size(arrs.take(i)),
                arrs[i],
            ) by {
                if i < prev.len() {
                    assert(arrs.take(i) =~= prev.take(i));
                    assert(arrs[i] == prev[i]);
                } else {
                    assert(arrs.take(i) =~= prev);
                }
            }
        }
    }
}

/// What a successful read of an `hvcC` box gives, in terms of its bytes: each fixed field is
/// the bits of its bytes; there are exactly as many arrays as the count byte (the 23rd byte of
/// the contents) says, standing one after the other after the fixed bytes; and reading ends
/// after the last of them, at the start of the box plus its size.
pub proof fn lemma_hvcc_read_values(s: Seq<u8>, base: int)
    requires
        0 <= base,
    ensures
        spec_parse_hvcc(s, base) matches Ok((m, end)) ==> {
            let c = base + 8;
            &&& m.arrays.len() == s[c + 22]
            &&& end == base + spec_hvcc_box_size(m)
            &&& end <= s.len()
            &&& m.configuration_version == s[c]
            &&& m.general_profile_space == s[c + 1] / 64
            &&& m.general_tier_flag == ((s[c + 1] / 32) % 2 == 1)
            &&& m.general_profile_idc == s[c + 1] % 32
            &&& m.general_profile_compatibility_flags == s[c + 2] * 0x1000000 + s[c + 3] * 0x10000
                + s[c + 4] * 0x100 + s[c + 5]
            &&& m.general_constraint_indicator_flag == s[c + 6] * 0x10000000000 + s[c + 7]
                * 0x100000000 + s[c + 8] * 0x1000000 + s[c + 9] * 0x10000 + s[c + 10] * 0x100
                + s[c + 11]
            &&& m.general_level_idc == s[c + 12]
            &&& m.min_spatial_segmentation_idc == (s[c + 13] * 256 + s[c + 14]) % 4096
            &&& m.parallelism_type == s[c + 15] % 4
            &&& m.chroma_format_idc == s[c + 16] % 4
            &&& m.bit_depth_luma_minus8 == s[c + 17] % 8
            &&& m.bit_depth_chroma_minus8 == s[c + 18] % 8
            &&& m.avg_frame_rate == s[c + 19] * 256 + s[c + 20]
            &&& m.constant_frame_rate == s[c + 21] % 4
            &&& m.num_temporal_layers == s[c + 21] % 8
            &&& m.temporal_id_nested == (s[c + 21] % 2 == 1)
            &&& m.length_size_minus_one == s[c + 21] % 4
            &&& forall|i: int|
                #![trigger m.arrays[i]]
                0 <= i < m.arrays.len() ==> array_laid_out(
                    s,
                    c + 23 + spec_arrays_size(m.arrays.take(i)),
                    m.arrays[i],
                )
        },
{
    if let Ok((m, end)) = spec_parse_hvcc(s, base) {
        let c = base + 8;
        lemma_hvcc_size_of_read(s, base);
        lemma_parse_arrays_size(s, c + 23, s[c + 22] as nat);
        lemma_arrays_laid_out(s, c + 23, s[c + 22] as nat);
        let x = s[c + 1];
        assert(x >> 6u8 == x / 64 && (((x & 0x20) >> 5u8 > 0) == ((x / 32) % 2 == 1)) && x & 0x1f
            == x % 32) by (bit_vector);
        bytes::lemma_be_u32_value(s, c + 2);
        bytes::lemma_be_u48_value(s, c + 6);
        bytes::lemma_be_u16_value(s, c + 13);
        let v = bytes::be_u16(s, c + 13);
        assert(v & 0x0fff == v % 4096) by (bit_vector);
        let a = s[c + 15];
        let b = s[c + 16];
        let d = s[c + 17];
        let e = s[c + 18];
        let f = s[c + 21];
        assert(a & 0x03 == a % 4 && b & 0x03 == b % 4 && d & 0x07 == d % 8 && e & 0x07 == e % 8
            && f & 0x03 == f % 4 && f & 0x07 == f % 8 && ((f & 0x01 > 0) == (f % 2 == 1)))
            by (bit_vector);
        bytes::lemma_be_u16_value(s, c + 19);
    }
}

/// The HEVC sample entry box (`hvc1`).
#[derive(Debug, Clone, PartialEq, Eq)]
pub struct Hvc1Box {
    pub data_reference_index: u16,
    pub width: u16,
    pub height: u16,
    pub horizresolution: FixedPointU16,
    pub vertresolution: FixedPointU16,
    pub frame_count: u16,
    pub depth: u16,
    pub hvcc: RawBox<HvcCBox>,
}

/// The value of an `hvc1` box; the resolutions are their raw 16.16 values.
pub struct Hvc1Model {
    pub data_reference_index: u16,
    pub width: u16,
    pub height: u16,
    pub horizresolution: u32,
    pub vertresolution: u32,
    pub frame_count: u16,
    pub depth: u16,
    pub hvcc: (HvcCModel, Seq<u8>),
}

impl View for Hvc1Box {
    type V = Hvc1Model;

    open spec fn view(&self) -> Hvc1Model {
        Hvc1Model {
            data_reference_index: self.data_reference_index,
            width: self.width,
            height: self.height,
            horizresolution: self.horizresolution@,
            vertresolution: self.vertresolution@,
            frame_count: self.frame_count,
            depth: self.depth,
            hvcc: self.hvcc@,
        }
    }
}

/// The size of an `hvc1` box: its header, its 78 bytes of visual sample entry fields, and the
/// size of its `hvcC` box.
pub open spec fn spec_hvc1_box_size(m: Hvc1Model) -> int {
    HEADER_SIZE + 8 + 70 + spec_hvcc_box_size(m.hvcc.0)
}

/// What reading an `hvc1` box of declared size `size` gives, for a box that starts at the
/// first byte of `s`: the box and the index where reading stopped, which is the end of the box
/// as its size declares.
///
/// The 78 bytes after the header hold, most significant byte first, the data reference index
/// at offset 6, the width at 24, the height at 26, the resolutions at 28 and 32, the frame
/// count at 40 and the depth at 74; the header of an `hvcC` box follows them.
pub open spec fn spec_parse_hvc1(s: Seq<u8>, size: u64) -> Result<(Hvc1Model, int), Error> {
    let c = HEADER_SIZE as int;
    if c + 78 > s.len() {
        Err(Error::UnexpectedEof)
    } else {
        match types::spec_read_header(s, c + 78) {
            Err(e) => Err(e),
            Ok((h, p)) => if h.size > size {
                Err(Error::Hvc1ChildTooLarge)
            } else if h.name != BoxType::HvcCBox {
                Err(Error::HvccNotFound)
            } else {
                match spec_parse_raw_hvcc(s, p - HEADER_SIZE) {
                    Err(e) => Err(e),
                    Ok((hvcc, _)) => Ok(
                        (
                            Hvc1Model {
                                data_reference_index: bytes::be_u16(s, c + 6),
                                width: bytes::be_u16(s, c + 24),
                                height: bytes::be_u16(s, c + 26),
                                horizresolution: bytes::be_u32(s, c + 28),
                                vertresolution: bytes::be_u32(s, c + 32),
                                frame_count: bytes::be_u16(s, c + 40),
                                depth: bytes::be_u16(s, c + 74),
                                hvcc,
                            },
                            size as int,
                        ),
                    ),
                }
            },
        }
    }
}

/// What a successful read of an `hvc1` box gives, in terms of its bytes: reading ends at the
/// declared size; each entry field is its bytes at its offset, most significant first; and the
/// child is an `hvcC` box, no larger than the entry, whose read with its raw bytes gives the
/// `hvcC` value.
pub proof fn lemma_hvc1_read_values(s: Seq<u8>, size: u64)
    ensures
        spec_parse_hvc1(s, size) matches Ok((m, end)) ==> {
            &&& end == size
            &&& m.data_reference_index == s[14] * 256 + s[15]
            &&& m.width == s[32] * 256 + s[33]
            &&& m.height == s[34] * 256 + s[35]
            &&& m.horizresolution == s[36] * 0x1000000 + s[37] * 0x10000 + s[38] * 0x100 + s[39]
            &&& m.vertresolution == s[40] * 0x1000000 + s[41] * 0x10000 + s[42] * 0x100 + s[43]
            &&& m.frame_count == s[48] * 256 + s[49]
            &&& m.depth == s[82] * 256 + s[83]
            &&& types::spec_read_header(s, 86) is Ok
            &&& ({
                let (h, p) = types::spec_read_header(s, 86)->Ok_0;
                &&& h.name == BoxType::HvcCBox
                &&& h.size <= size
                &&& spec_parse_raw_hvcc(s, p - 8) is Ok
                &&& spec_parse_raw_hvcc(s, p - 8)->Ok_0.0 == m.hvcc
            })
        },
{
    if let Ok((m, end)) = spec_parse_hvc1(s, size) {
        bytes::lemma_be_u16_value(s, 14);
        bytes::lemma_be_u16_value(s, 32);
        bytes::lemma_be_u16_value(s, 34);
        bytes::lemma_be_u32_value(s, 36);
        bytes::lemma_be_u32_value(s, 40);
        bytes::lemma_be_u16_value(s, 48);
        bytes::lemma_be_u16_value(s, 82);
    }
}

impl Hvc1Box {
    /// The type of this box: `hvc1`.
    pub fn get_type(&self) -> (t: BoxType)
        ensures
            t == BoxType::Hvc1Box,
    {
        BoxType::Hvc1Box
    }

    /// The size of this box: header, entry fields and the size of its `hvcC` box.
    pub fn get_size(&self) -> (n: u64)
        requires
            spec_hvc1_box_size(self@) <= u64::MAX,
        ensures
            n == spec_hvc1_box_size(self@),
    {
        HEADER_SIZE + 8 + 70 + self.hvcc.box_size()
    }

    /// The type of this box: `hvc1`.
    pub fn box_type(&self) -> (t: BoxType)
        ensures
            t == BoxType::Hvc1Box,
    {
        self.get_type()
    }

    /// The size of this box, as `get_size` gives it.
    pub fn box_size(&self) -> (n: u64)
        requires
            spec_hvc1_box_size(self@) <= u64::MAX,
        ensures
            n == spec_hvc1_box_size(self@),
    {
        self.get_size()
    }

    /// Reads the `hvc1` box whose declared size is `size` from `data`, which holds the box from
    /// its first header byte on; gives the box and the index of `data` where reading stopped,
    /// which is `size`.
    pub fn read_box(data: &[u8], size: u64) -> (r: Result<(Hvc1Box, u64), Error>)
        ensures
            match r {
                Ok((b, end)) => spec_parse_hvc1(data@, size) == Ok::<(Hvc1Model, int), Error>(
                    (b@, end as int)),
                Err(e) => spec_parse_hvc1(data@, size) == Err::<(Hvc1Model, int), Error>(e),
            },
    {
        if data.len() < 86 {
            return Err(Error::UnexpectedEof);
        }
        let c: usize = 8;
        let data_reference_index = bytes::read_be_u16(data, c + 6);
        let width = bytes::read_be_u16(data, c + 24);
        let height = bytes::read_be_u16(data, c + 26);
        let horizresolution = FixedPointU16::new_raw(bytes::read_be_u32(data, c + 28));
        let vertresolution = FixedPointU16::new_raw(bytes::read_be_u32(data, c + 32));
        let frame_count = bytes::read_be_u16(data, c + 40);
        let depth = bytes::read_be_u16(data, c + 74);
        let (header, p) = match BoxHeader::read(data, c + 78) {
            Ok(hp) => hp,
            Err(e) => {
                return Err(e);
            },
        };
        if header.size > size {
            return Err(Error::Hvc1ChildTooLarge);
        }
        match header.name {
            BoxType::HvcCBox => {},
            _ => {
                return Err(Error::HvccNotFound);
            },
        }
        let hvcc = match RawBox::<HvcCBox>::read_at(data, p - 8) {
            Ok((b, _)) => b,
            Err(e) => {
                return Err(e);
            },
        };
        Ok(
            (
                Hvc1Box {
                    data_reference_index,
                    width,
                    height,
                    horizresolution,
                    vertresolution,
                    frame_count,
                    depth,
                    hvcc,
                },
                size,
            ),
        )
    }
}

impl Default for HvcCArrayNalu {
    fn default() -> (r: HvcCArrayNalu)
        ensures
            r@ == (NaluModel { size: 0, data: Seq::empty() }),
    {
        HvcCArrayNalu { size: 0, data: Vec::new() }
    }
}

impl Default for HvcCArray {
    fn default() -> (r: HvcCArray)
        ensures
            r@ == (ArrayModel { completeness: false, nal_unit_type: 0, nalus: Seq::empty() }),
    {
        let r = HvcCArray { completeness: false, nal_unit_type: 0, nalus: Vec::new() };
        assert(r@.nalus =~= Seq::<NaluModel>::empty());
        r
    }
}

/// The `hvcC` model with every number 0, every flag false, no arrays, and the given
/// configuration version.
pub open spec fn spec_hvcc_empty(configuration_version: u8) -> HvcCModel {
    HvcCModel {
        configuration_version,
        general_profile_space: 0,
        general_tier_flag: false,
        general_profile_idc: 0,
        general_profile_compatibility_flags: 0,
        general_constraint_indicator_flag: 0,
        general_level_idc: 0,
        min_spatial_segmentation_idc: 0,
        parallelism_type: 0,
        chroma_format_idc: 0,
        bit_depth_luma_minus8: 0,
        bit_depth_chroma_minus8: 0,
        avg_frame_rate: 0,
        constant_frame_rate: 0,
        num_temporal_layers: 0,
        temporal_id_nested: false,
        length_size_minus_one: 0,
        arrays: Seq::empty(),
    }
}

impl HvcCBox {
    /// The `hvcC` box with every field 0, false or empty, and the given configuration version.
    fn with_version(configuration_version: u8) -> (r: HvcCBox)
        ensures
            r@ == spec_hvcc_empty(configuration_version),
    {
        let r = HvcCBox {
            configuration_version,
            general_profile_space: 0,
            general_tier_flag: false,
            general_profile_idc: 0,
            general_profile_compatibility_flags: 0,
            general_constraint_indicator_flag: 0,
            general_level_idc: 0,
            min_spatial_segmentation_idc: 0,
            parallelism_type: 0,
            chroma_format_idc: 0,
            bit_depth_luma_minus8: 0,
            bit_depth_chroma_minus8: 0,
            avg_frame_rate: 0,
            constant_frame_rate: 0,
            num_temporal_layers: 0,
            temporal_id_nested: false,
            length_size_minus_one: 0,
            arrays: Vec::new(),
        };
        assert(r@.arrays =~= Seq::<ArrayModel>::empty());
        r
    }

    /// A new `hvcC` box: configuration version 1, every other field 0, false or empty.
    pub fn new() -> (r: HvcCBox)
        ensures
            r@ == spec_hvcc_empty(1),
    {
        Self::with_version(1)
    }
}

impl Default for HvcCBox {
    /// The `hvcC` box with every field 0, false or empty (configuration version 0 included).
    fn default() -> (r: HvcCBox)
        ensures
            r@ == spec_hvcc_empty(0),
    {
        HvcCBox::with_version(0)
    }
}

impl Default for RawBox<HvcCBox> {
    fn default() -> (r: RawBox<HvcCBox>)
        ensures
            r@ == (spec_hvcc_empty(0), Seq::<u8>::empty()),
    {
        RawBox { contents: HvcCBox::default(), raw: Vec::new() }
    }
}

impl Default for Hvc1Box {
    /// The default entry: 72 pixels per inch both ways, one frame per sample, depth 0x18, and
    /// an empty `hvcC` box.
    fn default() -> (r: Hvc1Box)
        ensures
            r@ == (Hvc1Model {
                data_reference_index: 0,
                width: 0,
                height: 0,
                horizresolution: 0x480000u32,
                vertresolution: 0x480000u32,
                frame_count: 1,
                depth: 0x0018,
                hvcc: (spec_hvcc_empty(0), Seq::<u8>::empty()),
            }),
    {
        Hvc1Box {
            data_reference_index: 0,
            width: 0,
            height: 0,
            horizresolution: FixedPointU16::new(0x48),
            vertresolution: FixedPointU16::new(0x48),
            frame_count: 1,
            depth: 0x0018,
            hvcc: RawBox::default(),
        }
    }
}

/// The summary line of an `hvc1` box.
pub open spec fn spec_hvc1_summary(m: Hvc1Model) -> Seq<char> {
    "data_reference_index="@ + text::decimal(m.data_reference_index as nat) + " width="@ + text::decimal(
        m.width as nat,
    ) + " height="@ + text::decimal(m.height as nat) + " frame_count="@ + text::decimal(
        m.frame_count as nat,
    )
}

/// The summary line of an `hvcC` box: each fixed field as `name=value`, separated by spaces.
pub open spec fn spec_hvcc_summary(m: HvcCModel) -> Seq<char> {
    "configuration_version="@ + text::decimal(m.configuration_version as nat)
        + " general_profile_space="@ + text::decimal(m.general_profile_space as nat)
        + " general_tier_flag="@ + text::bool_text(m.general_tier_flag) + " general_profile_idc="@
        + text::decimal(m.general_profile_idc as nat) + " general_profile_compatibility_flags="@
        + text::decimal(m.general_profile_compatibility_flags as nat)
        + " general_constraint_indicator_flag="@ + text::decimal(
        m.general_constraint_indicator_flag as nat,
    ) + " general_level_idc="@ + text::decimal(m.general_level_idc as nat)
        + " min_spatial_segmentation_idc="@ + text::decimal(m.min_spatial_segmentation_idc as nat)
        + " parallelism_type="@ + text::decimal(m.parallelism_type as nat) + " chroma_format_idc="@
        + text::decimal(m.chroma_format_idc as nat) + " bit_depth_luma_minus8="@ + text::decimal(
        m.bit_depth_luma_minus8 as nat,
    ) + " bit_depth_chroma_minus8="@ + text::decimal(m.bit_depth_chroma_minus8 as nat)
        + " avg_frame_rate="@ + text::decimal(m.avg_frame_rate as nat) + " constant_frame_rate="@
        + text::decimal(m.constant_frame_rate as nat) + " num_temporal_layers="@ + text::decimal(
        m.num_temporal_layers as nat,
    ) + " temporal_id_nested="@ + text::bool_text(m.temporal_id_nested) + " length_size_minus_one="@
        + text::decimal(m.length_size_minus_one as nat)
}

/// The summary of an `hvc1` box shows each of its four fields' own value after its name.
pub proof fn lemma_hvc1_summary_shows_fields(m: Hvc1Model)
    ensures
        ({
            let t = spec_hvc1_summary(m);
            &&& text::shows(t, "data_reference_index="@, text::decimal(m.data_reference_index as nat))
            &&& text::shows(t, " width="@, text::decimal(m.width as nat))
            &&& text::shows(t, " height="@, text::decimal(m.height as nat))
            &&& text::shows(t, " frame_count="@, text::decimal(m.frame_count as nat))
        }),
{
    let t = spec_hvc1_summary(m);
    let a0 = "data_reference_index="@;
    let a1 = text::decimal(m.data_reference_index as nat);
    let a2 = " width="@;
    let a3 = text::decimal(m.width as nat);
    let a4 = " height="@;
    let a5 = text::decimal(m.height as nat);
    let a6 = " frame_count="@;
    let a7 = text::decimal(m.frame_count as nat);
    let p1 = a0;
    let p2 = p1 + a1;
    let p3 = p2 + a2;
    let p4 = p3 + a3;
    let p5 = p4 + a4;
    let p6 = p5 + a5;
    let p7 = p6 + a6;
    let p8 = p7 + a7;
    let p0 = Seq::<char>::empty();
    assert(t == p8);
    let s7 = a7;
    let s6 = a6 + s7;
    vstd::seq_lib::lemma_concat_associative(p6, a6, s7);
    let s5 = a5 + s6;
    vstd::seq_lib::lemma_concat_associative(p5, a5, s6);
    let s4 = a4 + s5;
    vstd::seq_lib::lemma_concat_associative(p4, a4, s5);
    let s3 = a3 + s4;
    vstd::seq_lib::lemma_concat_associative(p3, a3, s4);
    let s2 = a2 + s3;
    vstd::seq_lib::lemma_concat_associative(p2, a2, s3);
    let s1 = a1 + s2;
    vstd::seq_lib::lemma_concat_associative(p1, a1, s2);
    // now t == p_k + s_k for every k from 1 to 7
    reveal_strlit(" width=");
    assert(t == a0 + s1);
    vstd::seq_lib::lemma_concat_associative(a0, a1, s2);
    assert(t =~= Seq::<char>::empty() + a0 + a1 + s2);
    text::lemma_shows(t, Seq::<char>::empty(), a0, a1, s2);
    reveal_strlit(" height=");
    vstd::seq_lib::lemma_concat_associative(p2 + a2, a3, s4);
    text::lemma_shows(t, p2, a2, a3, s4);
    reveal_strlit(" frame_count=");
    vstd::seq_lib::lemma_concat_associative(p4 + a4, a5, s6);
    text::lemma_shows(t, p4, a4, a5, s6);
    assert(p6 + a6 + a7 + Seq::<char>::empty() =~= t);
    text::lemma_shows(t, p6, a6, a7, Seq::<char>::empty());
}

/// The summary of an `hvcC` box shows each fixed field's own value after its name.
pub proof fn lemma_hvcc_summary_shows_fields(m: HvcCModel)
    ensures
        ({
            let t = spec_hvcc_summary(m);
            &&& text::shows(t, "configuration_version="@, text::decimal(m.configuration_version as nat))
            &&& text::shows(t, " general_profile_space="@, text::decimal(m.general_profile_space as nat))
            &&& text::shows(t, " general_tier_flag="@, text::bool_text(m.general_tier_flag))
            &&& text::shows(t, " general_profile_idc="@, text::decimal(m.general_profile_idc as nat))
            &&& text::shows(t, " general_profile_compatibility_flags="@, text::decimal(m.general_profile_compatibility_flags as nat))
            &&& text::shows(t, " general_constraint_indicator_flag="@, text::decimal(m.general_constraint_indicator_flag as nat))
            &&& text::shows(t, " general_level_idc="@, text::decimal(m.general_level_idc as nat))
            &&& text::shows(t, " min_spatial_segmentation_idc="@, text::decimal(m.min_spatial_segmentation_idc as nat))
            &&& text::shows(t, " parallelism_type="@, text::decimal(m.parallelism_type as nat))
            &&& text::shows(t, " chroma_format_idc="@, text::decimal(m.chroma_format_idc as nat))
            &&& text::shows(t, " bit_depth_luma_minus8="@, text::decimal(m.bit_depth_luma_minus8 as nat))
            &&& text::shows(t, " bit_depth_chroma_minus8="@, text::decimal(m.bit_depth_chroma_minus8 as nat))
            &&& text::shows(t, " avg_frame_rate="@, text::decimal(m.avg_frame_rate as nat))
            &&& text::shows(t, " constant_frame_rate="@, text::decimal(m.constant_frame_rate as nat))
            &&& text::shows(t, " num_temporal_layers="@, text::decimal(m.num_temporal_layers as nat))
            &&& text::shows(t, " temporal_id_nested="@, text::bool_text(m.temporal_id_nested))
            &&& text::shows(t, " length_size_minus_one="@, text::decimal(m.length_size_minus_one as nat))
        }),
{
    let t = spec_hvcc_summary(m);
    let a0 = "configuration_version="@;
    let a1 = text::decimal(m.configuration_version as nat);
    let a2 = " general_profile_space="@;
    let a3 = text::decimal(m.general_profile_space as nat);
    let a4 = " general_tier_flag="@;
    let a5 = text::bool_text(m.general_tier_flag);
    let a6 = " general_profile_idc="@;
    let a7 = text::decimal(m.general_profile_idc as nat);
    let a8 = " general_profile_compatibility_flags="@;
    let a9 = text::decimal(m.general_profile_compatibility_flags as nat);
    let a10 = " general_constraint_indicator_flag="@;
    let a11 = text::decimal(m.general_constraint_indicator_flag as nat);
    let a12 = " general_level_idc="@;
    let a13 = text::decimal(m.general_level_idc as nat);
    let a14 = " min_spatial_segmentation_idc="@;
    let a15 = text::decimal(m.min_spatial_segmentation_idc as nat);
    let a16 = " parallelism_type="@;
    let a17 = text::decimal(m.parallelism_type as nat);
    let a18 = " chroma_format_idc="@;
    let a19 = text::decimal(m.chroma_format_idc as nat);
    let a20 = " bit_depth_luma_minus8="@;
    let a21 = text::decimal(m.bit_depth_luma_minus8 as nat);
    let a22 = " bit_depth_chroma_minus8="@;
    let a23 = text::decimal(m.bit_depth_chroma_minus8 as nat);
    let a24 = " avg_frame_rate="@;
    let a25 = text::decimal(m.avg_frame_rate as nat);
    let a26 = " constant_frame_rate="@;
    let a27 = text::decimal(m.constant_frame_rate as nat);
    let a28 = " num_temporal_layers="@;
    let a29 = text::decimal(m.num_temporal_layers as nat);
    let a30 = " temporal_id_nested="@;
    let a31 = text::bool_text(m.temporal_id_nested);
    let a32 = " length_size_minus_one="@;
    let a33 = text::decimal(m.length_size_minus_one as nat);
    let p1 = a0;
    let p2 = p1 + a1;
    let p3 = p2 + a2;
    let p4 = p3 + a3;
    let p5 = p4 + a4;
    let p6 = p5 + a5;
    let p7 = p6 + a6;
    let p8 = p7 + a7;
    let p9 = p8 + a8;
    let p10 = p9 + a9;
    let p11 = p10 + a10;
    let p12 = p11 + a11;
    let p13 = p12 + a12;
    let p14 = p13 + a13;
    let p15 = p14 + a14;
    let p16 = p15 + a15;
    let p17 = p16 + a16;
    let p18 = p17 + a17;
    let p19 = p18 + a18;
    let p20 = p19 + a19;
    let p21 = p20 + a20;
    let p22 = p21 + a21;
    let p23 = p22 + a22;
    let p24 = p23 + a23;
    let p25 = p24 + a24;
    let p26 = p25 + a25;
    let p27 = p26 + a26;
    let p28 = p27 + a27;
    let p29 = p28 + a28;
    let p30 = p29 + a29;
    let p31 = p30 + a30;
    let p32 = p31 + a31;
    let p33 = p32 + a32;
    let p34 = p33 + a33;
    let p0 = Seq::<char>::empty();
    assert(t == p34);
    let s33 = a33;
    let s32 = a32 + s33;
    vstd::seq_lib::lemma_concat_associative(p32, a32, s33);
    let s31 = a31 + s32;
    vstd::seq_lib::lemma_concat_associative(p31, a31, s32);
    let s30 = a30 + s31;
    vstd::seq_lib::lemma_concat_associative(p30, a30, s31);
    let s29 = a29 + s30;
    vstd::seq_lib::lemma_concat_associative(p29, a29, s30);
    let s28 = a28 + s29;
    vstd::seq_lib::lemma_concat_associative(p28, a28, s29);
    let s27 = a27 + s28;
    vstd::seq_lib::lemma_concat_associative(p27, a27, s28);
    let s26 = a26 + s27;
    vstd::seq_lib::lemma_concat_associative(p26, a26, s27);
    let s25 = a25 + s26;
    vstd::seq_lib::lemma_concat_associative(p25, a25, s26);
    let s24 = a24 + s25;
    vstd::seq_lib::lemma_concat_associative(p24, a24, s25);
    let s23 = a23 + s24;
    vstd::seq_lib::lemma_concat_associative(p23, a23, s24);
    let s22 = a22 + s23;
    vstd::seq_lib::lemma_concat_associative(p22, a22, s23);
    let s21 = a21 + s22;
    vstd::seq_lib::lemma_concat_associative(p21, a21, s22);
    let s20 = a20 + s21;
    vstd::seq_lib::lemma_concat_associative(p20, a20, s21);
    let s19 = a19 + s20;
    vstd::seq_lib::lemma_concat_associative(p19, a19, s20);
    let s18 = a18 + s19;
    vstd::seq_lib::lemma_concat_associative(p18, a18, s19);
    let s17 = a17 + s18;
    vstd::seq_lib::lemma_concat_associative(p17, a17, s18);
    let s16 = a16 + s17;
    vstd::seq_lib::lemma_concat_associative(p16, a16, s17);
    let s15 = a15 + s16;
    vstd::seq_lib::lemma_concat_associative(p15, a15, s16);
    let s14 = a14 + s15;
    vstd::seq_lib::lemma_concat_associative(p14, a14, s15);
    let s13 = a13 + s14;
    vstd::seq_lib::lemma_concat_associative(p13, a13, s14);
    let s12 = a12 + s13;
    vstd::seq_lib::lemma_concat_associative(p12, a12, s13);
    let s11 = a11 + s12;
    vstd::seq_lib::lemma_concat_associative(p11, a11, s12);
    let s10 = a10 + s11;
    vstd::seq_lib::lemma_concat_associative(p10, a10, s11);
    let s9 = a9 + s10;
    vstd::seq_lib::lemma_concat_associative(p9, a9, s10);
    let s8 = a8 + s9;
    vstd::seq_lib::lemma_concat_associative(p8, a8, s9);
    let s7 = a7 + s8;
    vstd::seq_lib::lemma_concat_associative(p7, a7, s8);
    let s6 = a6 + s7;
    vstd::seq_lib::lemma_concat_associative(p6, a6, s7);
    let s5 = a5 + s6;
    vstd::seq_lib::lemma_concat_associative(p5, a5, s6);
    let s4 = a4 + s5;
    vstd::seq_lib::lemma_concat_associative(p4, a4, s5);
    let s3 = a3 + s4;
    vstd::seq_lib::lemma_concat_associative(p3, a3, s4);
    let s2 = a2 + s3;
    vstd::seq_lib::lemma_concat_associative(p2, a2, s3);
    let s1 = a1 + s2;
    vstd::seq_lib::lemma_concat_associative(p1, a1, s2);
    // now t == p_k + s_k for every k from 1 to 33
    reveal_strlit(" general_profile_space=");
    assert(t == a0 + s1);
    vstd::seq_lib::lemma_concat_associative(a0, a1, s2);
    assert(t =~= Seq::<char>::empty() + a0 + a1 + s2);
    text::lemma_shows(t, Seq::<char>::empty(), a0, a1, s2);
    reveal_strlit(" general_tier_flag=");
    vstd::seq_lib::lemma_concat_associative(p2 + a2, a3, s4);
    text::lemma_shows(t, p2, a2, a3, s4);
    reveal_strlit(" general_profile_idc=");
    vstd::seq_lib::lemma_concat_associative(p4 + a4, a5, s6);
    text::lemma_shows(t, p4, a4, a5, s6);
    reveal_strlit(" general_profile_compatibility_flags=");
    vstd::seq_lib::lemma_concat_associative(p6 + a6, a7, s8);
    text::lemma_shows(t, p6, a6, a7, s8);
    reveal_strlit(" general_constraint_indicator_flag=");
    vstd::seq_lib::lemma_concat_associative(p8 + a8, a9, s10);
    text::lemma_shows(t, p8, a8, a9, s10);
    reveal_strlit(" general_level_idc=");
    vstd::seq_lib::lemma_concat_associative(p10 + a10, a11, s12);
    text::lemma_shows(t, p10, a10, a11, s12);
    reveal_strlit(" min_spatial_segmentation_idc=");
    vstd::seq_lib::lemma_concat_associative(p12 + a12, a13, s14);
    text::lemma_shows(t, p12, a12, a13, s14);
    reveal_strlit(" parallelism_type=");
    vstd::seq_lib::lemma_concat_associative(p14 + a14, a15, s16);
    text::lemma_shows(t, p14, a14, a15, s16);
    reveal_strlit(" chroma_format_idc=");
    vstd::seq_lib::lemma_concat_associative(p16 + a16, a17, s18);
    text::lemma_shows(t, p16, a16, a17, s18);
    reveal_strlit(" bit_depth_luma_minus8=");
    vstd::seq_lib::lemma_concat_associative(p18 + a18, a19, s20);
    text::lemma_shows(t, p18, a18, a19, s20);
    reveal_strlit(" bit_depth_chroma_minus8=");
    vstd::seq_lib::lemma_concat_associative(p20 + a20, a21, s22);
    text::lemma_shows(t, p20, a20, a21, s22);
    reveal_strlit(" avg_frame_rate=");
    vstd::seq_lib::lemma_concat_associative(p22 + a22, a23, s24);
    text::lemma_shows(t, p22, a22, a23, s24);
    reveal_strlit(" constant_frame_rate=");
    vstd::seq_lib::lemma_concat_associative(p24 + a24, a25, s26);
    text::lemma_shows(t, p24, a24, a25, s26);
    reveal_strlit(" num_temporal_layers=");
    vstd::seq_lib::lemma_concat_associative(p26 + a26, a27, s28);
    text::lemma_shows(t, p26, a26, a27, s28);
    reveal_strlit(" temporal_id_nested=");
    vstd::seq_lib::lemma_concat_associative(p28 + a28, a29, s30);
    text::lemma_shows(t, p28, a28, a29, s30);
    reveal_strlit(" length_size_minus_one=");
    vstd::seq_lib::lemma_concat_associative(p30 + a30, a31, s32);
    text::lemma_shows(t, p30, a30, a31, s32);
    assert(p32 + a32 + a33 + Seq::<char>::empty() =~= t);
    text::lemma_shows(t, p32, a32, a33, Seq::<char>::empty());
}

impl Hvc1Box {
    /// A one-line description: the data reference index, width, height and frame count.
    pub fn summary(&self) -> (r: Result<String, Error>)
        ensures
            r matches Ok(s) && s@ == spec_hvc1_summary(self@),
    {
        let mut s = String::from_str("data_reference_index=");
        text::push_decimal(&mut s, self.data_reference_index as u64);
        s.append(" width=");
        text::push_decimal(&mut s, self.width as u64);
        s.append(" height=");
        text::push_decimal(&mut s, self.height as u64);
        s.append(" frame_count=");
        text::push_decimal(&mut s, self.frame_count as u64);
        Ok(s)
    }
}

impl HvcCBox {
    /// A one-line description of the fixed fields.
    pub fn summary(&self) -> (r: Result<String, Error>)
        ensures
            r matches Ok(s) && s@ == spec_hvcc_summary(self@),
    {
        let mut s = String::from_str("configuration_version=");
        text::push_decimal(&mut s, self.configuration_version as u64);
        s.append(" general_profile_space=");
        text::push_decimal(&mut s, self.general_profile_space as u64);
        s.append(" general_tier_flag=");
        text::push_bool(&mut s, self.general_tier_flag);
        s.append(" general_profile_idc=");
        text::push_decimal(&mut s, self.general_profile_idc as u64);
        s.append(" general_profile_compatibility_flags=");
        text::push_decimal(&mut s, self.general_profile_compatibility_flags as u64);
        s.append(" general_constraint_indicator_flag=");
        text::push_decimal(&mut s, self.general_constraint_indicator_flag as u64);
        s.append(" general_level_idc=");
        text::push_decimal(&mut s, self.general_level_idc as u64);
        s.append(" min_spatial_segmentation_idc=");
        text::push_decimal(&mut s, self.min_spatial_segmentation_idc as u64);
        s.append(" parallelism_type=");
        text::push_decimal(&mut s, self.parallelism_type as u64);
        s.append(" chroma_format_idc=");
        text::push_decimal(&mut s, self.chroma_format_idc as u64);
        s.append(" bit_depth_luma_minus8=");
        text::push_decimal(&mut s, self.bit_depth_luma_minus8 as u64);
        s.append(" bit_depth_chroma_minus8=");
        text::push_decimal(&mut s, self.bit_depth_chroma_minus8 as u64);
        s.append(" avg_frame_rate=");
        text::push_decimal(&mut s, self.avg_frame_rate as u64);
        s.append(" constant_frame_rate=");
        text::push_decimal(&mut s, self.constant_frame_rate as u64);
        s.append(" num_temporal_layers=");
        text::push_decimal(&mut s, self.num_temporal_layers as u64);
        s.append(" temporal_id_nested=");
        text::push_bool(&mut s, self.temporal_id_nested);
        s.append(" length_size_minus_one=");
        text::push_decimal(&mut s, self.length_size_minus_one as u64);
        Ok(s)
    }
}

} // verus!
