use numeric_buffer::{composed_func, inlined_func, mean, offset, scale};

fn to_bits(values: &[f32]) -> Vec<u32> {
    values.iter().map(|x| x.to_bits()).collect()
}

fn from_bits(bits: &[u32]) -> Vec<f32> {
    bits.iter().map(|b| f32::from_bits(*b)).collect()
}

fn close(a: f32, b: f32) -> bool {
    (a - b).abs() <= 1e-5 * b.abs().max(1.0)
}

#[test]
fn scale_scales_each_element() {
    let mut buf = to_bits(&[3.4, 5.7, 9.0]);
    scale(&mut buf, 0.6f32.to_bits());
    assert_eq!(buf.len(), 3);
    let expected = [3.4f32 * 0.6, 5.7f32 * 0.6, 9.0f32 * 0.6];
    for (got, want) in buf.iter().zip(expected.iter()) {
        assert_eq!(*got, want.to_bits());
    }
    let approx = [2.04f32, 3.42, 5.4];
    for (got, want) in from_bits(&buf).iter().zip(approx.iter()) {
        assert!(close(*got, *want));
    }
}

#[test]
fn offset_adds_delta() {
    let mut buf = to_bits(&[2.04, 3.42, 5.4]);
    offset(&mut buf, 1.98765432f32.to_bits());
    assert_eq!(buf.len(), 3);
    let expected = [
        2.04f32 + 1.98765432,
        3.42f32 + 1.98765432,
        5.4f32 + 1.98765432,
    ];
    for (got, want) in buf.iter().zip(expected.iter()) {
        assert_eq!(*got, want.to_bits());
    }
    let approx = [4.02765432f32, 5.40765432, 7.38765432];
    for (got, want) in from_bits(&buf).iter().zip(approx.iter()) {
        assert!(close(*got, *want));
    }
}

#[test]
fn mean_matches_sum_over_len() {
    let buf = to_bits(&[3.4, 5.7, 9.0]);
    let got = f32::from_bits(mean(&buf));
    let sum = (3.4f32 + 5.7) + 9.0;
    let want = sum / 3.0f32;
    assert_eq!(got.to_bits(), want.to_bits());
    assert!(close(got, (3.4f32 + 5.7 + 9.0) / 3.0));
}

#[test]
fn mean_single_element_is_that_element() {
    let buf = to_bits(&[5.7]);
    let got = f32::from_bits(mean(&buf));
    assert_eq!(got.to_bits(), 5.7f32.to_bits());
}

#[test]
fn composed_equals_inlined() {
    let original = to_bits(&[3.4, 5.7, 9.0]);
    let mut mutated = original.clone();
    let composed = composed_func(&mut mutated, 0.6f32.to_bits());
    let inlined = inlined_func(&original, 0.6f32.to_bits());
    assert_eq!(composed, inlined);
    assert_eq!(original, to_bits(&[3.4, 5.7, 9.0]));
    assert_ne!(mutated, original);
}

#[test]
fn scale_by_one_is_identity() {
    let original = to_bits(&[3.4, -5.7, 0.0, 9.0e20]);
    let mut buf = original.clone();
    scale(&mut buf, 1.0f32.to_bits());
    assert_eq!(buf, original);
}

#[test]
fn mean_empty_is_nan() {
    let buf: Vec<u32> = Vec::new();
    assert!(f32::from_bits(mean(&buf)).is_nan());
}

#[test]
fn composed_empty_is_nan() {
    let mut buf: Vec<u32> = Vec::new();
    let r = composed_func(&mut buf, 0.6f32.to_bits());
    assert!(f32::from_bits(r).is_nan());
    assert!(buf.is_empty());
    let empty: Vec<u32> = Vec::new();
    assert!(f32::from_bits(inlined_func(&empty, 0.6f32.to_bits())).is_nan());
}

#[test]
fn pipeline_delta_matches_constant() {
    assert_eq!(
        numeric_buffer::transform::PIPELINE_DELTA_BITS,
        1.98765432f32.to_bits()
    );
}

#[test]
fn composed_scenario() {
    let mut buf = to_bits(&[3.4, 5.7, 9.0]);
    let factor = 0.6f32.to_bits();
    let r = f32::from_bits(composed_func(&mut buf, factor));
    assert!(close(r, 5.6076543));
    let transformed = from_bits(&buf);
    let approx = [4.02765432f32, 5.40765432, 7.38765432];
    for (got, want) in transformed.iter().zip(approx.iter()) {
        assert!(close(*got, *want));
    }
    let again = to_bits(&[3.4, 5.7, 9.0]);
    let r2 = f32::from_bits(inlined_func(&again, factor));
    assert!(close(r2, 5.6076543));
    assert_eq!(r.to_bits(), r2.to_bits());
}
