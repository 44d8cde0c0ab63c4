use re_mp4::mp4box::{
    BoxHeader, BoxType, Error, FixedPointU16, Hvc1Box, HvcCArray, HvcCArrayNalu, HvcCBox, RawBox,
};

/// An hvcC box (header included) with two arrays.
fn hvcc_bytes() -> Vec<u8> {
    let mut v = vec![0, 0, 0, 0, b'h', b'v', b'c', b'C'];
    v.extend_from_slice(&[
        1,          // configuration version
        0b0110_0101, // profile space 1, tier flag set, profile idc 5
        0x60, 0, 0, 0, // compatibility flags
        0x90, 0, 0, 0, 0, 0x01, // constraint indicator flags
        93,   // level
        0xF0, 0x10, // min spatial segmentation (masked to 0x010)
        0xFC, // parallelism type (masked to 0)
        0xFD, // chroma format (masked to 1)
        0xF8, // luma bit depth - 8 (masked to 0)
        0xFA, // chroma bit depth - 8 (masked to 2)
        0x01, 0x02, // average frame rate
        0x0F, // constant frame rate, layers, nesting, length size
        2,    // arrays
    ]);
    // array 1: complete, type 32, one NAL unit of 3 bytes
    v.extend_from_slice(&[0xA0, 0, 1, 0, 3, 0x40, 0x01, 0x0C]);
    // array 2: type 33, two NAL units of 1 and 0 bytes
    v.extend_from_slice(&[0x21, 0, 2, 0, 1, 0x42, 0, 0]);
    v
}

#[test]
fn hvcc_read_fields() {
    let data = hvcc_bytes();
    let (b, end) = HvcCBox::read_box(&data, 0).unwrap();
    assert_eq!(end as usize, data.len());
    assert_eq!(b.configuration_version, 1);
    assert_eq!(b.general_profile_space, 1);
    assert!(b.general_tier_flag);
    assert_eq!(b.general_profile_idc, 5);
    assert_eq!(b.general_profile_compatibility_flags, 0x6000_0000);
    assert_eq!(b.general_constraint_indicator_flag, 0x9000_0000_0001);
    assert_eq!(b.general_level_idc, 93);
    assert_eq!(b.min_spatial_segmentation_idc, 0x010);
    assert_eq!(b.parallelism_type, 0);
    assert_eq!(b.chroma_format_idc, 1);
    assert_eq!(b.bit_depth_luma_minus8, 0);
    assert_eq!(b.bit_depth_chroma_minus8, 2);
    assert_eq!(b.avg_frame_rate, 0x0102);
    assert_eq!(b.constant_frame_rate, 3);
    assert_eq!(b.num_temporal_layers, 7);
    assert!(b.temporal_id_nested);
    assert_eq!(b.length_size_minus_one, 3);
    assert_eq!(
        b.arrays,
        vec![
            HvcCArray {
                completeness: true,
                nal_unit_type: 32,
                nalus: vec![HvcCArrayNalu { size: 3, data: vec![0x40, 0x01, 0x0C] }],
            },
            HvcCArray {
                completeness: false,
                nal_unit_type: 33,
                nalus: vec![
                    HvcCArrayNalu { size: 1, data: vec![0x42] },
                    HvcCArrayNalu { size: 0, data: vec![] },
                ],
            },
        ]
    );
}

#[test]
fn hvcc_box_size_is_what_was_read() {
    let data = hvcc_bytes();
    let (b, end) = HvcCBox::read_box(&data, 0).unwrap();
    assert_eq!(b.box_size(), end);
    assert_eq!(b.box_size(), 8 + 23 + (3 + 2 + 3) + (3 + 2 + 1 + 2));
    assert_eq!(b.box_type(), BoxType::HvcCBox);
}

#[test]
fn hvcc_end_of_input() {
    let data = hvcc_bytes();
    for cut in [0, 20, 30, 33, 35, 37, data.len() - 1] {
        assert_eq!(HvcCBox::read_box(&data[..cut], 0), Err(Error::UnexpectedEof), "cut {}", cut);
    }
}

#[test]
fn hvcc_new_and_default() {
    let b = HvcCBox::new();
    assert_eq!(b.configuration_version, 1);
    assert!(b.arrays.is_empty());
    assert_eq!(b.box_size(), 31);
    let d = HvcCBox::default();
    assert_eq!(d.configuration_version, 0);
    assert_eq!(HvcCArray::default().nalus.len(), 0);
    assert_eq!(HvcCArrayNalu::default().size, 0);
}

#[test]
fn raw_hvcc_keeps_contents() {
    let mut data = hvcc_bytes();
    let len = data.len();
    data.extend_from_slice(&[0xEE, 0xEE]);
    let (r, end) = RawBox::<HvcCBox>::read_box(&data, 0).unwrap();
    assert_eq!(end as usize, len);
    assert_eq!(r.raw, data[8..len].to_vec());
    assert_eq!(r.box_size(), r.raw.len() as u64 + 8);
    assert_eq!(r.box_type(), BoxType::HvcCBox);
}

fn hvc1_with_child(child: &[u8]) -> Vec<u8> {
    let mut v = vec![0, 0, 0, 0, b'h', b'v', b'c', b'1'];
    let mut entry = vec![0u8; 78];
    entry[6..8].copy_from_slice(&[0, 1]);
    entry[24..28].copy_from_slice(&[0x05, 0x00, 0x02, 0xD0]);
    entry[28..36].copy_from_slice(&[0, 0x48, 0, 0, 0, 0x48, 0, 0]);
    entry[40..42].copy_from_slice(&[0, 1]);
    entry[74..76].copy_from_slice(&[0, 0x18]);
    v.extend_from_slice(&entry);
    v.extend_from_slice(child);
    v
}

#[test]
fn hvc1_read() {
    let mut child = hvcc_bytes();
    let child_len = child.len() as u32;
    child[0..4].copy_from_slice(&child_len.to_be_bytes());
    let data = hvc1_with_child(&child);
    let size = data.len() as u64;
    let (b, end) = Hvc1Box::read_box(&data, size).unwrap();
    assert_eq!(end, size);
    assert_eq!(b.data_reference_index, 1);
    assert_eq!(b.width, 1280);
    assert_eq!(b.height, 720);
    assert_eq!(b.horizresolution, FixedPointU16::new(72));
    assert_eq!(b.vertresolution.value(), 72);
    assert_eq!(b.frame_count, 1);
    assert_eq!(b.depth, 0x18);
    assert_eq!(b.hvcc.raw, child[8..].to_vec());
    assert_eq!(b.hvcc.contents.arrays.len(), 2);
    assert_eq!(b.get_type(), BoxType::Hvc1Box);
    assert_eq!(b.box_type(), BoxType::Hvc1Box);
    assert_eq!(b.get_size(), size);
    assert_eq!(b.box_size(), size);
    assert_eq!(
        b.summary().unwrap(),
        "data_reference_index=1 width=1280 height=720 frame_count=1"
    );
}

#[test]
fn hvc1_errors() {
    let child = hvcc_bytes();
    let data = hvc1_with_child(&child[..8]);
    let mut big = data.clone();
    big[86..90].copy_from_slice(&[0, 0, 1, 0]);
    assert_eq!(Hvc1Box::read_box(&big, 100), Err(Error::Hvc1ChildTooLarge));
    assert_eq!(
        Error::Hvc1ChildTooLarge.message(),
        "hvc1 box contains a box with a larger size than it"
    );
    let mut other = hvc1_with_child(&[0, 0, 0, 8, b'a', b'v', b'1', b'C']);
    assert_eq!(Hvc1Box::read_box(&other, 100), Err(Error::HvccNotFound));
    assert_eq!(Error::HvccNotFound.message(), "hvcc not found");
    other.truncate(90);
    assert_eq!(Hvc1Box::read_box(&other, 100), Err(Error::UnexpectedEof));
    assert_eq!(Hvc1Box::read_box(&data, 100), Err(Error::UnexpectedEof));
}

#[test]
fn hvc1_default() {
    let b = Hvc1Box::default();
    assert_eq!(b.horizresolution.raw_value(), 0x0048_0000);
    assert_eq!(b.vertresolution.value(), 0x48);
    assert_eq!(b.frame_count, 1);
    assert_eq!(b.depth, 0x18);
    assert_eq!(b.hvcc.contents.configuration_version, 0);
    assert!(b.hvcc.raw.is_empty());
    assert_eq!(b.get_size(), 8 + 8 + 70 + 31);
}

#[test]
fn hvcc_summary_text() {
    let b = HvcCBox::new();
    assert_eq!(
        b.summary().unwrap(),
        "configuration_version=1 general_profile_space=0 general_tier_flag=false general_profile_idc=0 general_profile_compatibility_flags=0 general_constraint_indicator_flag=0 general_level_idc=0 min_spatial_segmentation_idc=0 parallelism_type=0 chroma_format_idc=0 bit_depth_luma_minus8=0 bit_depth_chroma_minus8=0 avg_frame_rate=0 constant_frame_rate=0 num_temporal_layers=0 temporal_id_nested=false length_size_minus_one=0"
    );
    let data = hvcc_bytes();
    let (r, _) = HvcCBox::read_box(&data, 0).unwrap();
    let s = r.summary().unwrap();
    assert!(s.contains("general_tier_flag=true general_profile_idc=5"));
    assert!(s.contains("general_constraint_indicator_flag=158329674399745"));
}

#[test]
fn header_read_write() {
    let h = BoxHeader::new(BoxType::Hvc1Box, 300);
    let mut out = Vec::new();
    assert_eq!(h.write(&mut out), 8);
    assert_eq!(out, vec![0, 0, 1, 0x2C, b'h', b'v', b'c', b'1']);
    assert_eq!(BoxHeader::read(&out, 0), Ok((h, 8)));

    let big = BoxHeader::new(BoxType::UnknownBox(0x6d6f6f76), 0x1_0000_0010);
    let mut out = Vec::new();
    assert_eq!(big.write(&mut out), 16);
    assert_eq!(&out[0..8], &[0, 0, 0, 1, b'm', b'o', b'o', b'v']);
    // the 64-bit size comes back less the 8 bytes of its own field
    assert_eq!(
        BoxHeader::read(&out, 0),
        Ok((BoxHeader::new(BoxType::UnknownBox(0x6d6f6f76), 0x1_0000_0008), 16))
    );

    let zero = [0, 0, 0, 1, b'f', b'r', b'e', b'e', 0, 0, 0, 0, 0, 0, 0, 0];
    assert_eq!(BoxHeader::read(&zero, 0).unwrap().0.size, 0);
    let tiny = [0, 0, 0, 1, b'f', b'r', b'e', b'e', 0, 0, 0, 0, 0, 0, 0, 15];
    assert_eq!(BoxHeader::read(&tiny, 0), Err(Error::LargeSizeTooSmall));
    assert_eq!(Error::LargeSizeTooSmall.message(), "64-bit box size too small");
    assert_eq!(BoxHeader::read(&tiny[..12], 0), Err(Error::UnexpectedEof));
    assert_eq!(BoxHeader::read(&tiny[..7], 0), Err(Error::UnexpectedEof));
}

#[test]
fn box_type_codes() {
    for (t, code) in [
        (BoxType::Av01Box, *b"av01"),
        (BoxType::Av1CBox, *b"av1C"),
        (BoxType::Hvc1Box, *b"hvc1"),
        (BoxType::HvcCBox, *b"hvcC"),
    ] {
        let c = u32::from_be_bytes(code);
        assert_eq!(t.fourcc(), c);
        assert_eq!(BoxType::from_fourcc(c), t);
    }
    assert_eq!(BoxType::from_fourcc(0x6d6f6f76), BoxType::UnknownBox(0x6d6f6f76));
    assert_eq!(BoxType::UnknownBox(0x6d6f6f76).fourcc(), 0x6d6f6f76);
}

#[test]
fn fixed_point_values() {
    let f = FixedPointU16::new(0x48);
    assert_eq!(f.raw_value(), 0x0048_0000);
    assert_eq!(f.value(), 0x48);
    let g = FixedPointU16::new_raw(0x0001_8000);
    assert_eq!(g.value(), 1);
    assert_eq!(g.raw_value(), 0x0001_8000);
}
