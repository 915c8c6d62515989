use feather::packed_array::PackedArray;

#[test]
fn smoke() {
    let length = 100;
    let mut array = PackedArray::new(length, 10);
    assert_eq!(array.len(), length);
    assert_eq!(array.bits_per_value(), 10);
    assert_eq!(array.as_u64_slice().len(), 17);

    for i in 0..length {
        assert_eq!(array.get(i), Some(0));
        array.set(i, (i * 10) as u64);
        assert_eq!(array.get(i), Some((i * 10) as u64));
    }
}

#[test]
fn out_of_bounds() {
    let array = PackedArray::new(97, 10);
    assert_eq!(array.as_u64_slice().len(), 17);
    assert_eq!(array.get(96), Some(0));
    assert_eq!(array.get(97), None);
}

#[test]
fn iter() {
    let mut array = PackedArray::new(10_000, 10);
    let mut oracle = Vec::new();

    for i in 0..array.len() {
        let value = (i as u64) & array.max_value();
        oracle.push(value);
        array.set(i, value);
        assert_eq!(array.get(i), Some(value));
    }

    for (i, &oracle_value) in oracle.iter().enumerate() {
        assert_eq!(array.get(i), Some(oracle_value));
    }

    for (value, &oracle_value) in array.iter().zip(oracle.iter()) {
        assert_eq!(value, oracle_value);
    }
    assert_eq!(array.to_vec(), oracle);
}

#[test]
fn resize() {
    let length = 1024;
    let mut array = PackedArray::new(length, 1);

    let mut oracle = Vec::new();
    for new_bits_per_value in 2..=16 {
        for i in 0..array.len() {
            let value = (i as u64) & array.max_value();
            array.set(i, value);
            oracle.push(value);
        }

        for (i, &oracle_value) in oracle.iter().enumerate() {
            assert_eq!(array.get(i), Some(oracle_value));
        }

        array = array.resized(new_bits_per_value);

        for (i, &oracle_value) in oracle.iter().enumerate() {
            assert_eq!(array.get(i), Some(oracle_value));
        }

        oracle.clear();
    }
}

#[test]
fn fill() {
    let mut array = PackedArray::new(1024, 10);
    assert!(array.fill(102).is_ok());
    assert!(array.iter().all(|x| x == 102));

    assert!(array.fill(256).is_ok());
    assert!(array.iter().all(|x| x == 256));
}

#[test]
#[should_panic]
fn fill_too_large() {
    let mut array = PackedArray::new(100, 10);
    array.fill(1024).unwrap(); // 1024 == 2^10
}

#[test]
fn every_width_round_trips() {
    for bits in 1..=64usize {
        let mut array = PackedArray::new(131, bits);
        let max = array.max_value();
        assert_eq!(max, if bits == 64 { u64::MAX } else { (1u64 << bits) - 1 });
        for i in 0..131 {
            let value = if i % 2 == 0 { max } else { (i as u64) & max };
            array.set(i, value);
            assert_eq!(array.get(i), Some(value));
        }
        for i in 0..131 {
            let value = if i % 2 == 0 { max } else { (i as u64) & max };
            assert_eq!(array.get(i), Some(value));
        }
        assert_eq!(array.get(131), None);
        assert_eq!(array.iter().count(), 131);
    }
}

#[test]
fn values_do_not_span_words() {
    let mut array = PackedArray::new(13, 10);
    assert_eq!(array.as_u64_slice().len(), 3);
    array.set(5, 0x3ff);
    array.set(6, 0x155);
    assert_eq!(array.as_u64_slice(), &[0x3ffu64 << 50, 0x155, 0][..]);
    assert!(!array.is_empty());
    assert!(PackedArray::new(0, 3).is_empty());
}

#[test]
fn fill_rejects_large_values_and_keeps_the_array() {
    let mut array = PackedArray::new(20, 5);
    array.set(3, 17);
    let err = array.fill(32).unwrap_err();
    assert_eq!(err.value, 32);
    assert_eq!(err.max_value, 31);
    assert_eq!(array.get(3), Some(17));
    assert_eq!(array.get(4), Some(0));
    assert!(array.fill(31).is_ok());
    assert_eq!(array.to_vec(), vec![31; 20]);
    assert_eq!(array.as_u64_slice()[0], 0x0fff_ffff_ffff_ffff);
}

#[test]
fn raw_words() {
    let array = PackedArray::from_u64_vec(vec![0x0000_0000_0003_0201, 0x7], 16);
    assert_eq!(array.bits_per_value(), 8);
    assert_eq!(array.get(0), Some(1));
    assert_eq!(array.get(1), Some(2));
    assert_eq!(array.get(2), Some(3));
    assert_eq!(array.get(8), Some(7));
    assert_eq!(array.get(16), None);

    let signed = PackedArray::from_i64_vec(vec![-1, 0], 16);
    assert_eq!(signed.get(7), Some(0xff));
    assert_eq!(signed.get(8), Some(0));

    assert!(PackedArray::checked_from_u64_vec(vec![], 16).is_none());
    assert!(PackedArray::checked_from_u64_vec(vec![0; 2], 0).is_none());
    assert!(PackedArray::checked_from_u64_vec(vec![0; 3], 4).is_none());
    assert!(PackedArray::checked_from_u64_vec(vec![0; 1], 65).is_none());
    assert!(PackedArray::checked_from_u64_vec(vec![0; 2], 1).is_none());
    assert!(PackedArray::checked_from_u64_vec(vec![0; 4], 4).is_some());
    assert!(PackedArray::raw_geometry_fits(256, 4096));
}

#[test]
fn resized_keeps_values_and_packs_anew() {
    let array = PackedArray::from_iter(vec![1, 2, 3, 4, 5], 4);
    assert_eq!(array.as_u64_slice(), &[0x54321u64][..]);
    let wide = array.resized(32);
    assert_eq!(wide.to_vec(), vec![1, 2, 3, 4, 5]);
    assert_eq!(wide.as_u64_slice(), &[0x2_0000_0001u64, 0x4_0000_0003, 5][..]);
    let narrow = wide.resized(3);
    assert_eq!(narrow.to_vec(), vec![1, 2, 3, 4, 5]);
    assert_eq!(narrow.bits_per_value(), 3);
    let copy = narrow.clone();
    assert_eq!(copy.to_vec(), narrow.to_vec());
}

#[test]
fn raw_access() {
    let mut array = PackedArray::new(4, 16);
    array.as_u64_mut_vec()[0] = 0x0004_0003_0002_0001;
    assert_eq!(array.to_vec(), vec![1, 2, 3, 4]);
    array.set_bits_per_value(8);
    assert_eq!(array.to_vec(), vec![1, 0, 2, 0]);
}

#[test]
fn from_iter_packs_ten_bit_words() {
    let array = PackedArray::from_iter(vec![1, 2, 3, 4, 5, 6, 7], 10);
    assert_eq!(array.as_u64_slice(), &[0x0018_0501_0030_0801u64, 7][..]);
    assert_eq!(array.len(), 7);
}

#[test]
fn new_array_has_zero_words() {
    let array = PackedArray::new(100, 10);
    assert_eq!(array.as_u64_slice(), &[0u64; 17][..]);
    let single = PackedArray::new(64, 1);
    assert_eq!(single.as_u64_slice(), &[0u64][..]);
}

#[test]
fn set_touches_one_slot_of_one_word() {
    let mut array = PackedArray::new(8, 16);
    array.set(5, 0xabcd);
    assert_eq!(array.as_u64_slice(), &[0u64, 0x0000_0000_abcd_0000][..]);
    array.set(4, 0x1234);
    assert_eq!(array.as_u64_slice(), &[0u64, 0x0000_0000_abcd_1234][..]);
    array.set(5, 1);
    assert_eq!(array.as_u64_slice(), &[0u64, 0x0000_0000_0001_1234][..]);
}

#[test]
fn resized_packs_words_at_the_new_width() {
    let mut array = PackedArray::new(5, 1);
    array.set(0, 1);
    array.set(3, 1);
    assert_eq!(array.as_u64_slice(), &[0b1001u64][..]);
    let wide = array.resized(16);
    assert_eq!(wide.as_u64_slice(), &[0x0001_0000_0000_0001u64, 0][..]);
}

#[test]
fn from_iter_equals_new_then_set_word_for_word() {
    let values: Vec<u64> = (0..50).map(|i| (i * 37) % 128).collect();
    let packed = PackedArray::from_iter(values.clone(), 7);
    let mut built = PackedArray::new(values.len(), 7);
    for (i, v) in values.iter().enumerate() {
        built.set(i, *v);
    }
    assert_eq!(packed.as_u64_slice(), built.as_u64_slice());
    assert_eq!(packed.to_vec(), values);
}

#[test]
fn fill_writes_the_same_word_everywhere() {
    let mut array = PackedArray::new(10, 16);
    assert!(array.fill(0x00ab).is_ok());
    assert_eq!(array.as_u64_slice(), &[0x00ab_00ab_00ab_00abu64; 3][..]);
    let mut narrow = PackedArray::new(13, 10);
    assert!(narrow.fill(1).is_ok());
    assert_eq!(narrow.as_u64_slice(), &[0x0004_0100_4010_0401u64; 3][..]);
}
