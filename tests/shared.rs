use v_ayylmao::shared::{
    DecodeErrorType, Entrypoint, Mirror, Profile, Rotation, SliceDataFlags, SliceParameterBufferBase,
    SubpictureFlags,
};

#[test]
fn profile_codes() {
    assert_eq!(Profile::JPEGBaseline.to_raw(), 12);
    assert_eq!(Profile::Misc.to_raw(), -1);
    assert_eq!(Profile::MPEG2Simple.to_raw(), 0);
    assert_eq!(Profile::HEVCMain10.to_raw(), 18);
    assert_eq!(Profile::Protected.to_raw(), 35);
    assert_eq!(Profile::from_raw(12), Some(Profile::JPEGBaseline));
    assert_eq!(Profile::from_raw(-1), Some(Profile::Misc));
    assert_eq!(Profile::from_raw(36), None);
    assert_eq!(Profile::from_raw(-2), None);
}

#[test]
fn profile_round_trip_all_codes() {
    for code in -1..=35 {
        let p = Profile::from_raw(code).unwrap();
        assert_eq!(p.to_raw(), code);
    }
}

#[test]
fn entrypoint_codes() {
    assert_eq!(Entrypoint::VLD.to_raw(), 1);
    assert_eq!(Entrypoint::EncPicture.to_raw(), 7);
    assert_eq!(Entrypoint::VideoProc.to_raw(), 10);
    assert_eq!(Entrypoint::ProtectedContent.to_raw(), 14);
    assert_eq!(Entrypoint::from_raw(1), Some(Entrypoint::VLD));
    assert_eq!(Entrypoint::from_raw(9), None);
    assert_eq!(Entrypoint::from_raw(0), None);
    for code in [1, 2, 3, 4, 5, 6, 7, 8, 10, 11, 12, 13, 14] {
        assert_eq!(Entrypoint::from_raw(code).unwrap().to_raw(), code);
    }
}

#[test]
fn other_enum_codes() {
    assert_eq!(DecodeErrorType::MBError.to_raw(), 1);
    assert_eq!(DecodeErrorType::from_raw(0), Some(DecodeErrorType::SliceMissing));
    assert_eq!(Rotation::R270.to_raw(), 3);
    assert_eq!(Rotation::from_raw(2), Some(Rotation::R180));
    assert_eq!(Rotation::from_raw(4), None);
}

#[test]
fn flags_keep_unknown_bits() {
    let mut f = SliceDataFlags::from_bits_retain(0x100);
    f.insert(SliceDataFlags::begin());
    assert_eq!(f.bits(), 0x101);
    assert!(f.contains(SliceDataFlags::begin()));
    assert!(!f.contains(SliceDataFlags::end()));
    f.remove(SliceDataFlags::begin());
    assert_eq!(f.bits(), 0x100);
    assert!(SliceDataFlags::whole().is_empty());
    let m = Mirror::horizontal().union(Mirror::vertical());
    assert_eq!(m.bits(), 3);
    assert_eq!(m.intersection(Mirror::vertical()).bits(), 2);
    assert!(Mirror::none().is_empty());
    let s = SubpictureFlags::chroma_keying().union(SubpictureFlags::destination_is_screen_coord());
    assert_eq!(s.bits(), 5);
    assert!(!s.contains(SubpictureFlags::global_alpha()));
}

#[test]
fn slice_parameter_base() {
    let mut b = SliceParameterBufferBase::new(1000);
    assert_eq!(b.slice_data_size(), 1000);
    assert_eq!(b.slice_data_offset(), 0);
    assert_eq!(b.slice_data_flags(), SliceDataFlags::whole());
    b.set_slice_data_offset(24);
    b.set_slice_data_flags(SliceDataFlags::middle());
    assert_eq!(b.slice_data_offset(), 24);
    assert_eq!(b.slice_data_flags().bits(), SliceDataFlags::MIDDLE);
    assert_eq!(b.slice_data_size(), 1000);
    assert_eq!(b.to_words(), [1000, 24, 2]);
}

#[test]
fn flags_equal_by_bits() {
    assert_eq!(SliceDataFlags::from_bits_retain(0), SliceDataFlags::whole());
    assert_eq!(Mirror::horizontal().union(Mirror::vertical()), Mirror::from_bits_retain(3));
    assert_ne!(SubpictureFlags::global_alpha(), SubpictureFlags::chroma_keying());
}
