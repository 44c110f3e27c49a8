use voice_chat::codec::{audio_data_to_buffer, buffer_to_audio_data};
use voice_chat::conditioner::{condition, gate, limit, Conditioning, GATE};
use voice_chat::format::{AudioFormat, WindowDuration};
use voice_chat::sample::{NEG_UNITY, SILENCE, UNITY};

fn bits(samples: &[f32]) -> Vec<u32> {
    samples.iter().map(|s| s.to_bits()).collect()
}

fn floats(samples: &[u32]) -> Vec<f32> {
    samples.iter().map(|s| f32::from_bits(*s)).collect()
}

/// The affine map onto the span from minus one to one, times the gain.
fn rescale(samples: &[u32], lo: u32, hi: u32, gain: f32) -> Vec<u32> {
    let lo = f32::from_bits(lo);
    let hi = f32::from_bits(hi);
    samples
        .iter()
        .map(|s| ((2.0 * ((f32::from_bits(*s) - lo) / (hi - lo)) - 1.0) * gain).to_bits())
        .collect()
}

fn run(block: &[f32], gain: f32) -> Vec<f32> {
    let conditioning = condition(&bits(block));
    let rescaled = match &conditioning {
        Conditioning::Rescale { samples, lo, hi } => rescale(samples, *lo, *hi, gain),
        _ => Vec::new(),
    };
    floats(&conditioning.finish(&rescaled))
}

#[test]
fn gate_zeroes_what_is_below_the_threshold() {
    assert_eq!(gate(9.9e-5f32.to_bits()), SILENCE);
    assert_eq!(gate((-9.9e-5f32).to_bits()), SILENCE);
    assert_eq!(gate((-0.0f32).to_bits()), SILENCE);
    assert_eq!(gate(SILENCE), SILENCE);
    assert_eq!(gate(GATE - 1), SILENCE);
}

#[test]
fn gate_keeps_what_is_at_or_above_the_threshold() {
    assert_eq!(gate(GATE), GATE);
    assert_eq!(gate(1e-4f32.to_bits()), 1e-4f32.to_bits());
    assert_eq!(gate((-1e-4f32).to_bits()), (-1e-4f32).to_bits());
    assert_eq!(gate(0.5f32.to_bits()), 0.5f32.to_bits());
    assert_eq!(gate(f32::NAN.to_bits()), f32::NAN.to_bits());
}

#[test]
fn gate_agrees_with_the_float_comparison() {
    for x in [0.0f32, 1e-5, 9.99e-5, 1e-4, 1.0001e-4, 0.3, -0.3, -1e-4, -9.99e-5, f32::INFINITY] {
        let expected = if x.abs() < 1e-4f32 { 0.0f32 } else { x };
        assert_eq!(gate(x.to_bits()), expected.to_bits(), "gate of {x}");
    }
}

#[test]
fn limit_clamps_to_the_unit_range() {
    assert_eq!(limit(2.0f32.to_bits()), UNITY);
    assert_eq!(limit((-2.0f32).to_bits()), NEG_UNITY);
    assert_eq!(limit(f32::INFINITY.to_bits()), UNITY);
    assert_eq!(limit(f32::NEG_INFINITY.to_bits()), NEG_UNITY);
    assert_eq!(limit(UNITY + 1), UNITY);
    assert_eq!(limit(UNITY), UNITY);
    assert_eq!(limit(NEG_UNITY), NEG_UNITY);
    assert_eq!(limit(0.25f32.to_bits()), 0.25f32.to_bits());
    assert_eq!(limit((-0.0f32).to_bits()), (-0.0f32).to_bits());
}

#[test]
fn limit_turns_what_is_no_number_into_silence() {
    assert_eq!(limit(f32::NAN.to_bits()), SILENCE);
    assert_eq!(limit(0xffc0_0000), SILENCE);
    assert_eq!(limit(0x7f80_0001), SILENCE);
}

#[test]
fn limit_agrees_with_the_float_clamp() {
    for x in [0.0f32, 0.5, -0.5, 1.0, -1.0, 1.5, -1.5, 10.0, -10.0, 1e-30] {
        assert_eq!(f32::from_bits(limit(x.to_bits())), x.clamp(-1.0, 1.0), "limit of {x}");
    }
}

#[test]
fn silence_collapses_to_the_empty_block() {
    assert_eq!(condition(&bits(&[0.0, 0.0, 0.0])), Conditioning::Silence);
    assert_eq!(condition(&bits(&[9e-5, -9e-5, 0.0, -0.0, 1e-20])), Conditioning::Silence);
    assert_eq!(run(&[9e-5, -9e-5, 0.0, -0.0, 1e-20], 1.0), Vec::<f32>::new());
}

#[test]
fn empty_block_conditions_to_the_empty_block() {
    assert_eq!(condition(&[]), Conditioning::Silence);
    assert_eq!(run(&[], 1.0), Vec::<f32>::new());
}

#[test]
fn one_loud_sample_keeps_the_block_from_collapsing() {
    let conditioning = condition(&bits(&[0.0, 0.0, 0.2]));
    assert_eq!(
        conditioning,
        Conditioning::Rescale {
            samples: bits(&[0.0, 0.0, 0.2]),
            lo: 0.0f32.to_bits(),
            hi: 0.2f32.to_bits(),
        }
    );
}

#[test]
fn constant_block_conditions_to_zeros() {
    for c in [0.5f32, -0.5, 1.0, 100.0, -1e-4, f32::INFINITY, f32::NEG_INFINITY, f32::MAX] {
        let block = vec![c; 7];
        assert_eq!(condition(&bits(&block)), Conditioning::Flat { len: 7 }, "constant {c}");
        let out = run(&block, 1.0);
        assert_eq!(out, vec![0.0f32; 7]);
        assert!(out.iter().all(|s| s.is_finite()));
    }
}

#[test]
fn block_of_patterns_that_are_no_numbers_conditions_to_zeros() {
    let block = vec![f32::NAN; 3];
    assert_eq!(condition(&bits(&block)), Conditioning::Flat { len: 3 });
    assert_eq!(run(&block, 1.0), vec![0.0f32; 3]);
}

#[test]
fn rescale_plan_holds_the_gated_block_and_its_extent() {
    let conditioning = condition(&bits(&[0.1, -0.3, 5e-5, 0.7, -0.2]));
    assert_eq!(
        conditioning,
        Conditioning::Rescale {
            samples: bits(&[0.1, -0.3, 0.0, 0.7, -0.2]),
            lo: (-0.3f32).to_bits(),
            hi: 0.7f32.to_bits(),
        }
    );
}

#[test]
fn extent_skips_patterns_that_are_no_numbers() {
    let conditioning = condition(&bits(&[f32::NAN, 0.25, -0.5, f32::NAN]));
    match conditioning {
        Conditioning::Rescale { lo, hi, .. } => {
            assert_eq!(lo, (-0.5f32).to_bits());
            assert_eq!(hi, 0.25f32.to_bits());
        }
        other => panic!("unexpected {other:?}"),
    }
}

#[test]
fn extent_reaches_beyond_one_hundred() {
    let conditioning = condition(&bits(&[250.0, 400.0, 300.0]));
    match conditioning {
        Conditioning::Rescale { lo, hi, .. } => {
            assert_eq!(lo, 250.0f32.to_bits());
            assert_eq!(hi, 400.0f32.to_bits());
        }
        other => panic!("unexpected {other:?}"),
    }
    assert_eq!(run(&[250.0, 400.0, 300.0], 1.0)[0], -1.0);
    assert_eq!(run(&[250.0, 400.0, 300.0], 1.0)[1], 1.0);
}

#[test]
fn rescaled_block_spans_minus_one_to_one() {
    let out = run(&[0.0, 0.5, 1.0, 0.25], 1.0);
    assert_eq!(out, vec![-1.0, 0.0, 1.0, -0.5]);
}

#[test]
fn normalized_block_conditions_to_itself() {
    let block = [-1.0f32, -0.5, 0.25, 0.75, 1.0, 0.125, -0.0625];
    let once = run(&block, 1.0);
    for (a, b) in once.iter().zip(block.iter()) {
        assert!((a - b).abs() <= 1e-6, "{a} against {b}");
    }
    let twice = run(&once, 1.0);
    for (a, b) in twice.iter().zip(once.iter()) {
        assert!((a - b).abs() <= 1e-6, "{a} against {b}");
    }
}

#[test]
fn normalized_block_keeps_its_span_exactly() {
    let block = bits(&[-1.0, 0.5, 1.0, -0.25]);
    let conditioning = condition(&block);
    assert_eq!(
        conditioning,
        Conditioning::Rescale { samples: block.clone(), lo: NEG_UNITY, hi: UNITY }
    );
    assert_eq!(conditioning.finish(&block), block);
}

#[test]
fn gain_is_clamped_after_rescale() {
    let out = run(&[0.0, 0.5, 1.0, 0.25], 4.0);
    assert_eq!(out, vec![-1.0, 0.0, 1.0, -1.0]);
    assert!(out.iter().all(|s| (-1.0..=1.0).contains(s)));
}

#[test]
fn output_is_always_within_the_unit_range() {
    let blocks: Vec<Vec<f32>> = vec![
        vec![0.3, f32::INFINITY, -2.0],
        vec![f32::NEG_INFINITY, 1.0, 0.5],
        vec![f32::NAN, 1.0, 0.5],
        vec![1e30, -1e30, 0.0],
        vec![f32::MAX, f32::MIN],
    ];
    for block in blocks {
        for gain in [1.0f32, 10.0] {
            let out = run(&block, gain);
            assert_eq!(out.len(), block.len());
            assert!(out.iter().all(|s| (-1.0..=1.0).contains(s)), "{block:?} gave {out:?}");
        }
    }
}

#[test]
fn finish_fills_missing_results_with_silence() {
    let conditioning = condition(&bits(&[0.1, 0.2, 0.3]));
    let out = conditioning.finish(&bits(&[-1.0]));
    assert_eq!(out, bits(&[-1.0, 0.0, 0.0]));
    let out = conditioning.finish(&bits(&[-1.0, 0.0, 1.0, 0.5, 0.5]));
    assert_eq!(out, bits(&[-1.0, 0.0, 1.0]));
}

#[test]
fn finish_of_silence_ignores_the_results() {
    assert_eq!(Conditioning::Silence.finish(&[UNITY, UNITY]), Vec::<u32>::new());
    assert_eq!(Conditioning::Flat { len: 2 }.finish(&[UNITY]), vec![SILENCE, SILENCE]);
}

#[test]
fn one_second_of_one_half_travels_as_one_frame() {
    let format = AudioFormat::new(22050, 1).unwrap();
    let window = WindowDuration::new(1).unwrap();
    let frame_byte_length = format.frame_byte_length(&window).unwrap();
    assert_eq!(frame_byte_length, 88200);

    let block = vec![0.5f32; 22050];
    let conditioning = condition(&bits(&block));
    assert_eq!(conditioning, Conditioning::Flat { len: 22050 });
    let conditioned = conditioning.finish(&[]);
    assert_eq!(conditioned.len(), 22050);
    assert!(floats(&conditioned).iter().all(|s| s.is_finite()));

    let frame = audio_data_to_buffer(&conditioned);
    assert_eq!(frame.len(), 88200);
    let back = buffer_to_audio_data(&frame);
    assert_eq!(back.len(), 22050);
    assert_eq!(back, conditioned);
}

#[test]
fn normalized_block_with_faint_samples_stays_within_tolerance() {
    let block = [-1.0f32, 0.3, 5e-5, -9e-5, 1.0, -0.7, 0.0, 2e-4, -0.999];
    let out = run(&block, 1.0);
    assert_eq!(out.len(), block.len());
    for (r, v) in out.iter().zip(block.iter()) {
        assert!((r - v).abs() <= 1e-4, "{r} against {v}");
    }
    assert_eq!(out[2], 0.0);
    assert_eq!(out[3], 0.0);
    assert_eq!(out[6], 0.0);
}

#[test]
fn limiter_moves_results_toward_the_unit_range() {
    for (sample, result) in [(0.5f32, 3.0f32), (-0.5, -3.0), (1.0, 1.5), (-1.0, -7.0), (0.25, 0.75)] {
        let limited = f32::from_bits(limit(result.to_bits()));
        assert!((limited - sample).abs() <= (result - sample).abs());
        assert!(limited.min(sample) >= result.min(sample));
        assert!(limited.max(sample) <= result.max(sample));
    }
}
