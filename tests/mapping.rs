use v_ayylmao::mapping::{meaningful_samples, sample_count};

#[test]
fn trailing_padding_is_dropped() {
    let mapping: Vec<u8> = (0..2000u32).map(|i| (i % 251) as u8).collect();
    let samples = meaningful_samples(&mapping, 16, 16, 4).unwrap();
    assert_eq!(samples.len(), 16 * 16 * 4);
    assert_eq!(&samples[..], &mapping[..1024]);
    let gray = meaningful_samples(&mapping, 16, 16, 1).unwrap();
    assert_eq!(gray.len(), 256);
}

#[test]
fn short_mapping_is_refused() {
    let mapping = vec![0u8; 100];
    assert_eq!(meaningful_samples(&mapping, 16, 16, 1), None);
    assert_eq!(meaningful_samples(&mapping, 10, 10, 1), Some(mapping.clone()));
    assert_eq!(meaningful_samples(&mapping, 0, 10, 1), Some(vec![]));
}

#[test]
fn sample_counts() {
    assert_eq!(sample_count(16, 16, 4), Some(1024));
    assert_eq!(sample_count(100, 70, 3), Some(21000));
    assert_eq!(sample_count(u32::MAX, u32::MAX, 0), Some(0));
}
