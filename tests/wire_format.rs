use v_ayylmao::jpeg::{
    build_slice_parameters, FrameComponent, HuffmanTableBuffer, IqMatrixBuffer, PictureParameterBuffer,
    ScanComponent,
};

#[test]
fn iq_matrix_layout() {
    let mut m = IqMatrixBuffer::new();
    let mut t = [0u8; 64];
    for (i, x) in t.iter_mut().enumerate() {
        *x = 100 + i as u8;
    }
    m.set_quantization_table(1, t).unwrap();
    let b = m.to_bytes();
    assert_eq!(b.len(), 4 + 4 * 64 + 16);
    assert_eq!(&b[..4], &[0, 1, 0, 0]);
    assert!(b[4..68].iter().all(|&x| x == 0));
    assert_eq!(&b[68..132], &t[..]);
    assert!(b[132..].iter().all(|&x| x == 0));
}

#[test]
fn huffman_table_layout() {
    let mut h = HuffmanTableBuffer::new();
    let lengths = [0, 1, 5, 1, 1, 1, 1, 1, 1, 0, 0, 0, 0, 0, 0, 0];
    h.set_dc_table(0, lengths, vec![0, 1, 2, 3, 4, 5, 6, 7, 8, 9, 10, 11]).unwrap();
    h.set_ac_table(0, [1; 16], vec![0xaa, 0xbb]).unwrap();
    let b = h.to_bytes();
    assert_eq!(b.len(), 2 + 2 * 208 + 2 + 16);
    assert_eq!(&b[..2], &[1, 0]);
    assert_eq!(&b[2..18], &lengths);
    assert_eq!(&b[18..30], &[0, 1, 2, 3, 4, 5, 6, 7, 8, 9, 10, 11]);
    assert_eq!(&b[30..46], &[1; 16]);
    assert_eq!(&b[46..48], &[0xaa, 0xbb]);
    assert!(b[48..].iter().all(|&x| x == 0));
}

#[test]
fn huffman_second_slot_flag() {
    let mut h = HuffmanTableBuffer::new();
    h.set_ac_table(1, [2; 16], vec![7]).unwrap();
    let b = h.to_bytes();
    assert_eq!(&b[..2], &[0, 1]);
    let slot1 = 2 + 208;
    assert!(b[2..slot1 + 28].iter().all(|&x| x == 0));
    assert_eq!(&b[slot1 + 28..slot1 + 44], &[2; 16]);
    assert_eq!(b[slot1 + 44], 7);
}

fn frame() -> PictureParameterBuffer {
    let mut f = PictureParameterBuffer::new(0x0123, 0x0456, 2);
    let c = |id, h, v, q| FrameComponent { component_id: id, h_sampling_factor: h, v_sampling_factor: v, quantiser_table_selector: q };
    f.add_component(c(1, 2, 2, 0)).unwrap();
    f.add_component(c(2, 1, 1, 1)).unwrap();
    f.add_component(c(3, 1, 1, 1)).unwrap();
    f
}

#[test]
fn picture_parameter_layout() {
    let b = frame().to_bytes();
    assert_eq!(b.len(), 4 + 255 * 4 + 2 + 2 + 16);
    assert_eq!(&b[..4], &[0x23, 0x01, 0x56, 0x04]);
    assert_eq!(&b[4..16], &[1, 2, 2, 0, 2, 1, 1, 1, 3, 1, 1, 1]);
    assert!(b[16..1024].iter().all(|&x| x == 0));
    assert_eq!(&b[1024..1026], &[3, 2]);
    assert!(b[1026..].iter().all(|&x| x == 0));
}

#[test]
fn slice_parameter_layout() {
    let f = frame();
    let scan = vec![
        ScanComponent { component_selector: 1, dc_table_selector: 0, ac_table_selector: 0 },
        ScanComponent { component_selector: 2, dc_table_selector: 1, ac_table_selector: 1 },
    ];
    let p = build_slice_parameters(&f, 0x100, 0x10100, 0x0203, &scan).unwrap();
    let b = p.to_bytes();
    assert_eq!(b.len(), 56);
    assert_eq!(&b[..4], &[0, 0, 1, 0]);
    assert!(b[4..20].iter().all(|&x| x == 0));
    assert_eq!(&b[20..32], &[1, 0, 0, 2, 1, 1, 0, 0, 0, 0, 0, 0]);
    assert_eq!(&b[32..36], &[2, 0, 0x03, 0x02]);
    // ceil(0x123 / 16) * ceil(0x456 / 16) = 19 * 70
    assert_eq!(u32::from_le_bytes([b[36], b[37], b[38], b[39]]), 19 * 70);
    assert!(b[40..].iter().all(|&x| x == 0));
}
