use simple_randomness::random::{generate_randomness, generate_randomness_from};

// 1. Check when lower_bound is greater than upper_bound
#[test]
fn test_generate_randomness_with_flipped_bounds() {
    let min = 100;
    let max = 50;

    let result = generate_randomness(100, 50);
    assert!(result >= max && result < min);
}

// 2. Check when lower_bound is equal to upper_bound
#[test]
fn test_generate_randomness_with_equal_bounds() {
    let bound = 100;
    assert_eq!(generate_randomness(bound, bound), bound);
}

// 3. Test within a range
#[test]
fn test_generate_randomness_within_bounds() {
    let min = 100;
    let max = 200;

    let result = generate_randomness(min, max);

    assert!(result >= min && result < max);
}

// 4. Test randomness distribution (not truly deterministic, but a sanity check)
#[test]
fn test_generate_randomness_distribution() {
    let min = 0;
    let max = 9;

    let mut counts = vec![0; 10];
    for _ in 0..1000 {
        let result = generate_randomness(min, max);
        let index: usize = result as usize;
        counts[index] += 1;
    }

    // Ensure all counts are non-zero (probabilistically should be the case)
    for count in counts.iter() {
        assert!(*count > 0);
    }
}

#[test]
fn main_test_generate_randomness_with_flipped_bounds() {
    let min = 100;
    let max = 50;

    let result = generate_randomness(100, 50);
    assert!(result >= max && result < min);
}

#[test]
fn main_test_generate_randomness_with_equal_bounds() {
    let bound = 100;
    assert_eq!(generate_randomness(bound, bound), bound);
}

#[test]
fn main_test_generate_randomness_within_bounds() {
    let min = 100;
    let max = 200;

    let result = generate_randomness(min, max);

    assert!(result >= min && result < max);
}

#[test]
fn main_test_generate_randomness_distribution() {
    let min = 0;
    let max = 9;

    let mut counts = vec![0; 10];
    for _ in 0..1000 {
        let result = generate_randomness(min, max);
        let index: usize = result as usize;
        counts[index] += 1;
    }

    for count in counts.iter() {
        assert!(*count > 0);
    }
}

#[test]
fn test_selection_is_low_bound_plus_residue() {
    // window = 20 - 10 + 1 = 11; 105 % 11 == 6
    assert_eq!(generate_randomness_from(10, 20, 105), 16);
    // the same draw lands the same whichever order the bounds come in
    assert_eq!(generate_randomness_from(20, 10, 105), 16);
    assert_eq!(generate_randomness_from(7, 7, 12345), 7);
}

#[test]
fn test_selection_full_window_is_identity() {
    assert_eq!(generate_randomness_from(0, u32::MAX, 0xdead_beef), 0xdead_beef);
    assert_eq!(generate_randomness_from(u32::MAX, 0, 17), 17);
}
