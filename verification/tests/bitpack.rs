use rusty_anvil::chunks::utils::{get_index_offset_form, unpack_value};
use rusty_anvil::get_chunk_index;

#[test]
fn unpack_uses_logical_shift_on_negative_longs() {
    // all bits set: every field reads all-ones, the sign never smears
    assert_eq!(unpack_value(-1, 60, 4), 15);
    assert_eq!(unpack_value(-1, 0, 4), 15);
    assert_eq!(unpack_value(-1, 54, 9), 511);
    // i64::MIN has only the top bit set
    assert_eq!(unpack_value(i64::MIN, 60, 4), 8);
    assert_eq!(unpack_value(i64::MIN, 0, 4), 0);
}

#[test]
fn locate_splits_by_values_per_long() {
    // b = 9: seven values per long, offsets step by 9 and reset
    assert_eq!(get_index_offset_form(0, 9, 64), (0, 0));
    assert_eq!(get_index_offset_form(6, 9, 64), (0, 54));
    assert_eq!(get_index_offset_form(7, 9, 64), (1, 0));
    assert_eq!(get_index_offset_form(255, 9, 64), (36, 3 * 9));
    // b = 4: sixteen values per long
    assert_eq!(get_index_offset_form(4095, 4, 64), (255, 60));
    // b = 5: twelve values per long, four padding bits per long
    assert_eq!(get_index_offset_form(12, 5, 64), (1, 0));
    assert_eq!(get_index_offset_form(11, 5, 64), (0, 55));
}

#[test]
fn extraction_matches_direct_formula() {
    // a deterministic pseudo-random buffer
    let mut state = 0x1234_5678_9ABC_DEF0u64;
    let buffer: Vec<i64> = (0..64)
        .map(|_| {
            state = state.wrapping_mul(6364136223846793005).wrapping_add(1442695040888963407);
            state as i64
        })
        .collect();
    for b in 4u8..=12 {
        let vpl = (64 / b) as usize;
        let max_i = buffer.len() * vpl;
        for i in 0..max_i {
            let (index, offset) = get_index_offset_form(i as u16, b, 64);
            let got = unpack_value(buffer[index], offset, b);
            let expected =
                ((buffer[i / (64 / b as usize)] as u64) >> ((i % (64 / b as usize)) * b as usize))
                    & ((1u64 << b) - 1);
            assert_eq!(got, expected, "b={b} i={i}");
        }
    }
}

#[test]
fn chunk_index_is_a_bijection() {
    let mut seen = vec![false; 1024];
    for z in 0..32u8 {
        for x in 0..32u8 {
            let i = get_chunk_index(x, z);
            assert_eq!(i, z as usize * 32 + x as usize);
            assert!(i < 1024);
            assert!(!seen[i], "slot {i} hit twice");
            seen[i] = true;
        }
    }
    assert!(seen.into_iter().all(|b| b));
}
