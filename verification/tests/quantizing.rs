use bevy_burn::quantize::{quantize, ONE};
use bevy_burn::tensor::{tensor_data_to_rgba_bytes, words_to_rgba_bytes};
use burn_tensor::{DType, TensorData};

fn expected(value: f32) -> u8 {
    (value.clamp(0.0, 1.0) * 255.0).round() as u8
}

fn check(word: u32) {
    let value = f32::from_bits(word);
    assert_eq!(quantize(word), expected(value), "{:#x} ({})", word, value);
}

#[test]
fn exact_values() {
    assert_eq!(quantize(0.0f32.to_bits()), 0);
    assert_eq!(quantize(0.5f32.to_bits()), 128);
    assert_eq!(quantize(1.0f32.to_bits()), 255);
    assert_eq!(quantize(0.25f32.to_bits()), 64);
    assert_eq!(quantize(0.1f32.to_bits()), 26);
    assert_eq!(quantize(0.9f32.to_bits()), 230);
    assert_eq!(1.0f32.to_bits(), ONE);
}

#[test]
fn out_of_range_values() {
    assert_eq!(quantize((-0.0f32).to_bits()), 0);
    assert_eq!(quantize((-1.0f32).to_bits()), 0);
    assert_eq!(quantize(f32::NEG_INFINITY.to_bits()), 0);
    assert_eq!(quantize(2.5f32.to_bits()), 255);
    assert_eq!(quantize(f32::INFINITY.to_bits()), 255);
    assert_eq!(quantize(f32::NAN.to_bits()), 0);
    assert_eq!(quantize(0xFFC0_0001), 0);
    assert_eq!(quantize(f32::MIN_POSITIVE.to_bits()), 0);
    assert_eq!(quantize(1), 0);
}

#[test]
fn agrees_with_floating_point_across_the_range() {
    let mut word: u32 = 0;
    loop {
        check(word);
        match word.checked_add(1021) {
            Some(next) => word = next,
            None => break,
        }
    }
}

#[test]
fn agrees_with_floating_point_around_halves() {
    for k in 0..255u32 {
        let half = ((k as f64 + 0.5) / 255.0) as f32;
        let bits = half.to_bits();
        for word in bits - 8..=bits + 8 {
            check(word);
        }
    }
}

#[test]
fn rounding_the_product_can_reach_a_half() {
    // 255 times the value lies just below a half; in single precision the product is the half.
    let mut reached = 0;
    for k in 0..255u32 {
        let bits = (((k as f64 + 0.5) / 255.0) as f32).to_bits();
        for word in bits - 2..=bits + 2 {
            let exact = f32::from_bits(word) as f64 * 255.0;
            if exact < k as f64 + 0.5 && quantize(word) as u32 == k + 1 {
                reached += 1;
            }
        }
    }
    assert!(reached > 0);
}

#[test]
fn agrees_with_floating_point_from_zero_to_one() {
    let mut word: u32 = 110 << 23;
    while word <= ONE + 1000 {
        check(word);
        word += 37;
    }
}

#[test]
fn order_is_kept() {
    let mut last: u8 = 0;
    let mut word: u32 = 0;
    while word < 0x7F80_0000 {
        let byte = quantize(word);
        assert!(last <= byte);
        last = byte;
        word += 4099;
    }
    assert_eq!(last, 255);
}

#[test]
fn quantizing_undoes_normalizing() {
    for byte in 0..=255u8 {
        let value = byte as f32 / 255.0;
        assert_eq!(quantize(value.to_bits()), byte);
        assert_eq!(quantize((value + 0.0009).to_bits()), byte);
        assert_eq!(quantize((value - 0.0009).to_bits()), byte);
    }
}

#[test]
fn words_in_order() {
    let words: Vec<u32> = [0.0f32, 0.5, 1.0, 1.0, -3.0].iter().map(|v| v.to_bits()).collect();
    assert_eq!(words_to_rgba_bytes(&words), vec![0, 128, 255, 255, 0]);
    assert_eq!(words_to_rgba_bytes(&Vec::new()), Vec::<u8>::new());
}

#[test]
fn float_tensor_becomes_bytes() {
    let data = TensorData::from([[[0.0f32, 0.5, 1.0, 1.0]]]);
    assert_eq!(tensor_data_to_rgba_bytes(&data), Some(vec![0, 128, 255, 255]));
}

#[test]
fn other_element_types_have_no_pixels() {
    assert_eq!(tensor_data_to_rgba_bytes(&TensorData::from([1u32, 2, 3])), None);
    assert_eq!(tensor_data_to_rgba_bytes(&TensorData::from([1u8, 2, 3])), None);
    assert_eq!(tensor_data_to_rgba_bytes(&TensorData::from([0.5f64, 1.0])), None);
}

#[test]
fn broken_floats_have_no_pixels() {
    let data = TensorData::from_bytes_vec(vec![0; 6], [1, 1, 1], DType::F32);
    assert_eq!(tensor_data_to_rgba_bytes(&data), None);
}
