use re_mp4::mp4box::{Av01Box, Av1CBox, BoxHeader, BoxType, Error, FixedPointU16};

fn sample_av1c(obus: Vec<u8>) -> Av1CBox {
    Av1CBox {
        profile: 1,
        level: 13,
        tier: 1,
        bit_depth: 10,
        monochrome: false,
        chroma_subsampling_x: 1,
        chroma_subsampling_y: 0,
        chroma_sample_position: 2,
        initial_presentation_delay_present: true,
        initial_presentation_delay_minus_one: 9,
        config_obus: obus,
    }
}

fn sample_av01(obus: Vec<u8>) -> Av01Box {
    Av01Box {
        data_reference_index: 1,
        width: 1920,
        height: 1080,
        horizresolution: FixedPointU16::new(72),
        vertresolution: FixedPointU16::new_raw(0x0048_8000),
        frame_count: 1,
        depth: 24,
        av1c: sample_av1c(obus),
    }
}

#[test]
fn av1c_write_bytes_exact() {
    let b = sample_av1c(vec![0xAA, 0xBB]);
    let mut out = Vec::new();
    let n = b.write_box(&mut out);
    assert_eq!(n, 6);
    assert_eq!(b.box_size(), 6);
    // header: size 6, "av1C"; marker; profile 1 << 5 | 13; flags 0x40|0x80|0x08|0x02; delay 0x19
    assert_eq!(
        out,
        vec![0, 0, 0, 6, b'a', b'v', b'1', b'C', 0x81, 0x2D, 0xCA, 0x19, 0xAA, 0xBB]
    );
}

#[test]
fn av1c_read_fields_from_bytes() {
    let data = vec![
        0, 0, 0, 14, b'a', b'v', b'1', b'C', 0x81, 0b1010_0011, 0b1111_1110, 0x1A, 1, 2,
    ];
    let (b, end) = Av1CBox::read_box(&data, 14).unwrap();
    assert_eq!(end, 14);
    assert_eq!(b.profile, 5);
    assert_eq!(b.level, 3);
    assert_eq!(b.tier, 1);
    assert_eq!(b.bit_depth, 12);
    assert!(b.monochrome);
    assert_eq!(b.chroma_subsampling_x, 1);
    assert_eq!(b.chroma_subsampling_y, 1);
    assert_eq!(b.chroma_sample_position, 2);
    assert!(b.initial_presentation_delay_present);
    assert_eq!(b.initial_presentation_delay_minus_one, 10);
    assert_eq!(b.config_obus, vec![1, 2]);
}

#[test]
fn av1c_bit_depth_and_delay_defaults() {
    let data = vec![0, 0, 0, 12, b'a', b'v', b'1', b'C', 0x81, 0, 0x20, 0x0F];
    let (b, end) = Av1CBox::read_box(&data, 12).unwrap();
    assert_eq!(end, 12);
    assert_eq!(b.bit_depth, 8);
    assert!(!b.initial_presentation_delay_present);
    assert_eq!(b.initial_presentation_delay_minus_one, 0);
    assert!(b.config_obus.is_empty());
}

#[test]
fn av1c_read_of_write_loses_last_eight_obu_bytes() {
    let obus: Vec<u8> = (1..=10).collect();
    let b = sample_av1c(obus.clone());
    let mut out = Vec::new();
    b.write_box(&mut out);
    out.extend_from_slice(&[0xEE; 4]);
    let (h, hend) = BoxHeader::read(&out, 0).unwrap();
    assert_eq!(h, BoxHeader::new(BoxType::Av1CBox, 14));
    assert_eq!(hend, 8);
    let (r, end) = Av1CBox::read_box(&out, h.size).unwrap();
    assert_eq!(end, 14);
    let mut expected = b.clone();
    expected.config_obus = obus[..2].to_vec();
    assert_eq!(r, expected);
}

#[test]
fn av1c_read_of_write_short_obus_is_refused() {
    let b = sample_av1c(vec![7; 7]);
    let mut out = Vec::new();
    let size = b.write_box(&mut out);
    assert_eq!(Av1CBox::read_box(&out, size), Err(Error::InvalidBoxSize));
}

#[test]
fn av1c_missing_marker() {
    let data = vec![0, 0, 0, 12, b'a', b'v', b'1', b'C', 0x01, 0, 0, 0];
    assert_eq!(Av1CBox::read_box(&data, 12), Err(Error::MissingAv1cMarker));
    let data = vec![0, 0, 0, 12, b'a', b'v', b'1', b'C', 0x80, 0, 0, 0];
    assert_eq!(Av1CBox::read_box(&data, 12), Err(Error::MissingAv1cMarker));
    assert_eq!(Error::MissingAv1cMarker.message(), "missing av1C marker bit");
}

#[test]
fn av1c_end_of_input() {
    let data = vec![0, 0, 0, 12, b'a', b'v', b'1', b'C'];
    assert_eq!(Av1CBox::read_box(&data, 12), Err(Error::UnexpectedEof));
    let data = vec![0, 0, 0, 12, b'a', b'v', b'1', b'C', 0x81, 0];
    assert_eq!(Av1CBox::read_box(&data, 12), Err(Error::UnexpectedEof));
    let data = vec![0, 0, 0, 20, b'a', b'v', b'1', b'C', 0x81, 0, 0, 0, 1, 2];
    assert_eq!(Av1CBox::read_box(&data, 20), Err(Error::UnexpectedEof));
}

#[test]
fn av1c_invalid_box_size() {
    let data = vec![0, 0, 0, 11, b'a', b'v', b'1', b'C', 0x81, 0, 0, 0];
    assert_eq!(Av1CBox::read_box(&data, 11), Err(Error::InvalidBoxSize));
    assert_eq!(Error::InvalidBoxSize.message(), "invalid box size");
}

#[test]
fn av1c_summary_and_default() {
    let b = Av1CBox::default();
    assert_eq!(b.bit_depth, 0);
    assert!(b.config_obus.is_empty());
    assert_eq!(b.summary().unwrap(), "todo");
    assert_eq!(b.box_type(), BoxType::Av1CBox);
}

#[test]
fn av01_type_and_size() {
    let b = sample_av01(vec![0; 5]);
    assert_eq!(b.get_type(), BoxType::Av01Box);
    assert_eq!(b.box_type(), BoxType::Av01Box);
    // 8 (header) + 8 + 70 + 4 + 5
    assert_eq!(b.get_size(), 95);
    assert_eq!(b.box_size(), 95);
    assert_eq!(b.summary().unwrap(), "todo");
}

#[test]
fn av01_write_layout() {
    let b = sample_av01(vec![9, 9]);
    let mut out = Vec::new();
    let size = b.write_box(&mut out);
    assert_eq!(size, 92);
    // the child av1C header is written in full but not counted by the declared size
    assert_eq!(out.len(), 100);
    assert_eq!(&out[0..8], &[0, 0, 0, 92, b'a', b'v', b'0', b'1']);
    assert_eq!(&out[8..16], &[0, 0, 0, 0, 0, 0, 0, 1]);
    assert_eq!(&out[32..36], &[0x07, 0x80, 0x04, 0x38]);
    assert_eq!(&out[36..44], &[0, 0x48, 0, 0, 0, 0x48, 0x80, 0]);
    assert_eq!(&out[48..50], &[0, 1]);
    assert!(out[50..82].iter().all(|&x| x == 0));
    assert_eq!(&out[82..86], &[0, 24, 0xFF, 0xFF]);
    assert_eq!(&out[86..94], &[0, 0, 0, 6, b'a', b'v', b'1', b'C']);
}

#[test]
fn av01_read_of_write() {
    let obus: Vec<u8> = (0..12).collect();
    let b = sample_av01(obus.clone());
    let mut out = Vec::new();
    let size = b.write_box(&mut out);
    let (h, _) = BoxHeader::read(&out, 0).unwrap();
    assert_eq!(h, BoxHeader::new(BoxType::Av01Box, size));
    let (r, end) = Av01Box::read_box(&out, h.size).unwrap();
    assert_eq!(end, size);
    assert_eq!(r.data_reference_index, 1);
    assert_eq!(r.width, 1920);
    assert_eq!(r.height, 1080);
    assert_eq!(r.horizresolution.value(), 72);
    assert_eq!(r.vertresolution.raw_value(), 0x0048_8000);
    assert_eq!(r.frame_count, 1);
    assert_eq!(r.depth, 24);
    assert_eq!(r.av1c.config_obus, obus[..4].to_vec());
    assert_eq!(r.av1c.level, 13);
}

#[test]
fn av01_read_of_write_short_obus_is_refused() {
    let b = sample_av01(vec![]);
    let mut out = Vec::new();
    let size = b.write_box(&mut out);
    assert_eq!(Av01Box::read_box(&out, size), Err(Error::InvalidBoxSize));
}

fn av01_with_child(child: &[u8]) -> Vec<u8> {
    let mut v = vec![0, 0, 0, 0, b'a', b'v', b'0', b'1'];
    v.extend_from_slice(&[0u8; 78]);
    v.extend_from_slice(child);
    v
}

#[test]
fn av01_errors() {
    assert_eq!(Av01Box::read_box(&[0u8; 85], 100), Err(Error::UnexpectedEof));
    let data = av01_with_child(&[0, 0, 0, 12]);
    assert_eq!(Av01Box::read_box(&data, 200), Err(Error::UnexpectedEof));
    let data = av01_with_child(&[0, 0, 0, 50, b'a', b'v', b'1', b'C']);
    assert_eq!(Av01Box::read_box(&data, 40), Err(Error::Av01ChildTooLarge));
    assert_eq!(
        Error::Av01ChildTooLarge.message(),
        "hev1 box contains a box with a larger size than it"
    );
    let data = av01_with_child(&[0, 0, 0, 12, b'h', b'v', b'c', b'C', 0x81, 0, 0, 0]);
    assert_eq!(Av01Box::read_box(&data, 200), Err(Error::Av1cNotFound));
    let data = av01_with_child(&[0, 0, 0, 1, b'a', b'v', b'1', b'C', 0, 0, 0, 0, 0, 0, 0, 9]);
    assert_eq!(Av01Box::read_box(&data, 200), Err(Error::LargeSizeTooSmall));
}

#[test]
fn av01_reads_past_its_declared_end() {
    // the entry ends where its size says, even with bytes of the child beyond it
    let data = av01_with_child(&[0, 0, 0, 12, b'a', b'v', b'1', b'C', 0x81, 0, 0, 0, 0xFF]);
    let (b, end) = Av01Box::read_box(&data, 500).unwrap();
    assert_eq!(end, 500);
    assert!(b.av1c.config_obus.is_empty());
}
