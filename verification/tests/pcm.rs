use kyutaistt::ieee::Binary32;
use kyutaistt::pcm::{bytes_to_f32, cut, same_text, stereo_frames, CHUNK_SAMPLES, MODEL_SAMPLE_RATE};

fn single(x: f32) -> Binary32 {
    Binary32 { bits: x.to_bits() }
}

fn ramp(n: usize) -> Vec<Binary32> {
    (0..n).map(|i| single(i as f32)).collect()
}

#[test]
fn sixteen_bit_bytes_become_fractions_of_full_scale() {
    let data = [0x00, 0x80, 0xff, 0x7f, 0x00, 0x40, 0xff, 0xff, 0x12];
    let samples = bytes_to_f32(&data, Some("S16LE"));
    let expected: Vec<Binary32> = vec![
        single(-1.0),
        single(32767.0 / 32768.0),
        single(0.5),
        single(-1.0 / 32768.0),
    ];
    assert_eq!(samples, expected);
}

#[test]
fn any_other_format_is_read_as_single_precision() {
    let mut data: Vec<u8> = Vec::new();
    for x in [0.25f32, -3.5, f32::MIN_POSITIVE] {
        data.extend_from_slice(&x.to_le_bytes());
    }
    data.extend_from_slice(&[1, 2, 3]);
    let expected = vec![single(0.25), single(-3.5), single(f32::MIN_POSITIVE)];
    assert_eq!(bytes_to_f32(&data, Some("F32LE")), expected);
    assert_eq!(bytes_to_f32(&data, Some("U8")), expected);
    assert_eq!(bytes_to_f32(&data, None), expected);
    assert_eq!(bytes_to_f32(&[], None), vec![]);
    assert_eq!(bytes_to_f32(&[1], Some("S16LE")), vec![]);
}

#[test]
fn frames_pair_left_and_right() {
    let samples = ramp(5);
    let frames = stereo_frames(&samples);
    assert_eq!(
        frames,
        vec![(single(0.0), single(1.0)), (single(2.0), single(3.0))]
    );
}

#[test]
fn cuts_are_full_but_for_the_last() {
    for n in [0, 1, 1919, 1920, 1921, 3840, 4000] {
        let samples = ramp(n);
        let cuts = cut(&samples);
        assert_eq!(cuts.concat(), samples);
        assert_eq!(cuts.len(), (n + 1919) / 1920);
        for (i, piece) in cuts.iter().enumerate() {
            if i + 1 < cuts.len() {
                assert_eq!(piece.len(), 1920);
            }
            assert!(!piece.is_empty());
        }
    }
}

#[test]
fn a_chunk_is_80_ms() {
    assert_eq!(CHUNK_SAMPLES as u32 * 1000 / MODEL_SAMPLE_RATE, 80);
}

#[test]
fn texts_are_compared_whole() {
    assert!(same_text("ctrl", "ctrl"));
    assert!(!same_text("ctrl", "ctrl_0"));
    assert!(same_text("", ""));
}
