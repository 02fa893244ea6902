use wasm_demo::arith;

#[test]
fn add_small_values() {
    assert_eq!(arith::add(2, 3), 5);
    assert_eq!(arith::add(-7, 7), 0);
    assert_eq!(arith::add(0, 0), 0);
    assert_eq!(arith::add(-20, 5), -15);
}

#[test]
fn add_wraps_at_both_ends() {
    assert_eq!(arith::add(i32::MAX, 1), i32::MIN);
    assert_eq!(arith::add(i32::MIN, -1), i32::MAX);
    assert_eq!(arith::add(i32::MAX, i32::MAX), -2);
    assert_eq!(arith::add(i32::MIN, i32::MIN), 0);
}

#[test]
fn add_reaches_the_ends_without_wrapping() {
    assert_eq!(arith::add(i32::MAX - 1, 1), i32::MAX);
    assert_eq!(arith::add(i32::MIN + 1, -1), i32::MIN);
}

#[test]
fn add_agrees_with_wide_arithmetic() {
    let samples: [i32; 9] = [i32::MIN, i32::MIN + 1, -65_536, -1, 0, 1, 65_535, i32::MAX - 1, i32::MAX];
    for a in samples {
        for b in samples {
            let wide: i64 = a as i64 + b as i64;
            assert_eq!(arith::add(a, b), wide as i32);
        }
    }
}

#[test]
fn multiply_small_values() {
    assert_eq!(arith::multiply(6, 7), 42);
    assert_eq!(arith::multiply(-3, 5), -15);
    assert_eq!(arith::multiply(-4, -4), 16);
    assert_eq!(arith::multiply(0, i32::MIN), 0);
    assert_eq!(arith::multiply(1, i32::MIN), i32::MIN);
}

#[test]
fn multiply_wraps() {
    assert_eq!(arith::multiply(65_536, 65_536), 0);
    assert_eq!(arith::multiply(65_536, 32_768), i32::MIN);
    assert_eq!(arith::multiply(i32::MIN, -1), i32::MIN);
    assert_eq!(arith::multiply(i32::MAX, 2), -2);
    assert_eq!(arith::multiply(46_341, 46_341), -2_147_479_015);
}

#[test]
fn multiply_largest_square_that_fits() {
    assert_eq!(arith::multiply(46_340, 46_340), 2_147_395_600);
}

#[test]
fn multiply_agrees_with_wide_arithmetic() {
    let samples: [i32; 9] = [i32::MIN, i32::MIN + 1, -65_536, -1, 0, 1, 65_535, i32::MAX - 1, i32::MAX];
    for a in samples {
        for b in samples {
            let wide: i64 = a as i64 * b as i64;
            assert_eq!(arith::multiply(a, b), wide as i32);
        }
    }
}

#[test]
fn add_and_multiply_repeat_their_results() {
    let first: i32 = arith::add(123_456, 654_321);
    let second: i32 = arith::add(123_456, 654_321);
    assert_eq!(first, second);
    let first: i32 = arith::multiply(123_456, 654_321);
    let second: i32 = arith::multiply(123_456, 654_321);
    assert_eq!(first, second);
}

#[test]
fn both_add_functions_agree() {
    let samples: [i32; 5] = [i32::MIN, -1, 0, 1, i32::MAX];
    for a in samples {
        for b in samples {
            assert_eq!(arith::add(a, b), wasm_demo::dispatch::add(a, b));
        }
    }
}
