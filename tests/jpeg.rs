use v_ayylmao::jpeg::{
    build_slice_parameters, macroblock_count, FrameComponent, HuffmanTableBuffer, IqMatrixBuffer, JpegError,
    PictureParameterBuffer, ScanComponent, CLASS_AC, CLASS_DC,
};
use v_ayylmao::shared::SliceDataFlags;

fn component(id: u8, h: u8, v: u8, q: u8) -> FrameComponent {
    FrameComponent { component_id: id, h_sampling_factor: h, v_sampling_factor: v, quantiser_table_selector: q }
}

fn scan(id: u8, dc: u8, ac: u8) -> ScanComponent {
    ScanComponent { component_selector: id, dc_table_selector: dc, ac_table_selector: ac }
}

fn yuv420_frame(width: u16, height: u16) -> PictureParameterBuffer {
    let mut f = PictureParameterBuffer::new(width, height, 0);
    f.add_component(component(1, 2, 2, 0)).unwrap();
    f.add_component(component(2, 1, 1, 1)).unwrap();
    f.add_component(component(3, 1, 1, 1)).unwrap();
    f
}

#[test]
fn quantization_slots_out_of_range() {
    let mut m = IqMatrixBuffer::new();
    for slot in 4..=255u8 {
        assert_eq!(m.set_quantization_table(slot, [7; 64]), Err(JpegError::InvalidTableSlot));
        assert_eq!(m.quantization_table(slot), None);
    }
    for slot in 0..4u8 {
        assert_eq!(m.quantization_table(slot), None);
    }
}

#[test]
fn quantization_slots_round_trip() {
    let mut m = IqMatrixBuffer::new();
    let mut t = [0u8; 64];
    for (i, x) in t.iter_mut().enumerate() {
        *x = i as u8 + 1;
    }
    assert_eq!(m.set_quantization_table(2, t), Ok(()));
    assert_eq!(m.quantization_table(2), Some(t));
    assert_eq!(m.quantization_table(0), None);
    assert_eq!(m.set_quantization_table(0, [16; 64]), Ok(()));
    assert_eq!(m.quantization_table(0), Some([16; 64]));
    assert_eq!(m.quantization_table(2), Some(t));
}

#[test]
fn huffman_slots_and_classes() {
    let mut h = HuffmanTableBuffer::new();
    let lengths = [0, 1, 5, 1, 1, 1, 1, 1, 1, 0, 0, 0, 0, 0, 0, 0];
    let values: Vec<u8> = (0..12).collect();
    for slot in 2..=255u8 {
        assert_eq!(h.set_dc_table(slot, lengths, values.clone()), Err(JpegError::InvalidTableDestination));
        assert_eq!(h.set_ac_table(slot, lengths, vec![1]), Err(JpegError::InvalidTableDestination));
    }
    assert_eq!(h.set_table(2, 0, lengths, values.clone()), Err(JpegError::InvalidTableClass));
    assert_eq!(h.set_table(7, 5, lengths, values.clone()), Err(JpegError::InvalidTableClass));
    assert_eq!(h.set_dc_table(0, lengths, (0..13).collect()), Err(JpegError::TableTooLarge));
    assert_eq!(h.set_ac_table(1, lengths, vec![0; 163]), Err(JpegError::TableTooLarge));
    assert!(h.table(CLASS_DC, 0).is_none());
    assert_eq!(h.set_dc_table(0, lengths, values.clone()), Ok(()));
    assert_eq!(h.set_ac_table(1, lengths, vec![9; 162]), Ok(()));
    let dc = h.table(CLASS_DC, 0).unwrap();
    assert_eq!(dc.code_lengths, lengths);
    assert_eq!(dc.values, values);
    let ac = h.table(CLASS_AC, 1).unwrap();
    assert_eq!(ac.values, vec![9; 162]);
    assert!(h.table(CLASS_AC, 0).is_none());
    assert!(h.table(CLASS_DC, 1).is_none());
    assert!(h.table(CLASS_DC, 2).is_none());
    assert!(h.table(2, 0).is_none());
}

#[test]
fn macroblock_geometry() {
    assert_eq!(macroblock_count(100, 70, 2, 2), 35);
    assert_eq!(macroblock_count(16, 16, 2, 2), 1);
    assert_eq!(macroblock_count(17, 16, 2, 2), 2);
    assert_eq!(macroblock_count(8, 8, 1, 1), 1);
    assert_eq!(macroblock_count(0, 100, 1, 1), 0);
    assert_eq!(macroblock_count(65535, 65535, 1, 1), 8192 * 8192);
    assert_eq!(macroblock_count(65535, 65535, 255, 255), 33 * 33);
}

#[test]
fn picture_parameters_track_max_factors() {
    let mut f = PictureParameterBuffer::new(100, 70, 1);
    assert_eq!(f.macroblock_count(), None);
    assert_eq!(f.max_h_factor(), 0);
    f.add_component(component(1, 1, 2, 0)).unwrap();
    f.add_component(component(2, 2, 1, 0)).unwrap();
    assert_eq!(f.max_h_factor(), 2);
    assert_eq!(f.max_v_factor(), 2);
    assert_eq!(f.macroblock_count(), Some(35));
    assert_eq!(f.components().len(), 2);
    assert_eq!((f.width(), f.height(), f.color_space()), (100, 70, 1));
}

#[test]
fn picture_parameters_reject_bad_components() {
    let mut f = PictureParameterBuffer::new(8, 8, 0);
    assert_eq!(f.add_component(component(1, 0, 1, 0)), Err(JpegError::InvalidSamplingFactor));
    assert_eq!(f.add_component(component(1, 1, 5, 0)), Err(JpegError::InvalidSamplingFactor));
    assert_eq!(f.add_component(component(1, 1, 1, 4)), Err(JpegError::InvalidTableSlot));
    assert_eq!(f.components().len(), 0);
    for i in 0..255u32 {
        assert_eq!(f.add_component(component(i as u8, 1, 1, 0)), Ok(()));
    }
    assert_eq!(f.add_component(component(0, 1, 1, 0)), Err(JpegError::TooManyComponents));
}

#[test]
fn single_slice_scenario() {
    let frame = yuv420_frame(16, 16);
    let comps = vec![scan(1, 0, 0), scan(2, 1, 1), scan(3, 1, 1)];
    let p = build_slice_parameters(&frame, 600, 1400, 0, &comps).unwrap();
    assert_eq!(p.num_mcus(), 1);
    assert_eq!(p.restart_interval(), 0);
    assert_eq!(p.components(), &comps);
    assert_eq!(p.base().slice_data_size(), 800);
    assert_eq!(p.base().slice_data_offset(), 0);
    assert_eq!(p.base().slice_data_flags(), SliceDataFlags::whole());
    assert_eq!((p.slice_horizontal_position(), p.slice_vertical_position()), (0, 0));
}

#[test]
fn slice_parameters_errors() {
    let frame = yuv420_frame(100, 70);
    let ok = vec![scan(1, 0, 0)];
    assert_eq!(build_slice_parameters(&frame, 10, 5, 0, &ok).err(), Some(JpegError::InvalidDataRange));
    assert_eq!(build_slice_parameters(&frame, 0, 0x1_0000_0000, 0, &ok).err(), Some(JpegError::InvalidDataRange));
    assert!(build_slice_parameters(&frame, 1, 0x1_0000_0000, 0, &ok).is_ok());
    let empty = PictureParameterBuffer::new(100, 70, 0);
    assert_eq!(build_slice_parameters(&empty, 0, 5, 0, &ok).err(), Some(JpegError::NoComponents));
    let five = vec![scan(1, 0, 0); 5];
    assert_eq!(build_slice_parameters(&frame, 0, 5, 0, &five).err(), Some(JpegError::TooManyComponents));
    let unknown = vec![scan(1, 0, 0), scan(9, 0, 0)];
    assert_eq!(build_slice_parameters(&frame, 0, 5, 0, &unknown).err(), Some(JpegError::UnknownComponent));
    let bad_table = vec![scan(1, 0, 2), scan(9, 0, 0)];
    assert_eq!(build_slice_parameters(&frame, 0, 5, 0, &bad_table).err(), Some(JpegError::InvalidTableDestination));
    let p = build_slice_parameters(&frame, 5, 5, 4, &ok).unwrap();
    assert_eq!(p.num_mcus(), 35);
    assert_eq!(p.restart_interval(), 4);
    assert_eq!(p.base().slice_data_size(), 0);
}
