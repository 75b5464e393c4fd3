use color_mix::mix;
use color_mix::ColorArray;

fn array_of(triples: &[(f32, f32, f32)]) -> ColorArray {
    let mut c = ColorArray::new(triples.len());
    for (k, &(r, g, b)) in triples.iter().enumerate() {
        c.set_triple(k, r.to_bits(), g.to_bits(), b.to_bits());
    }
    c
}

fn floats_of(c: &ColorArray) -> Vec<f32> {
    c.colors().iter().map(|&bits| f32::from_bits(bits)).collect()
}

#[test]
fn mix_of_red_and_green() {
    let c1 = array_of(&[(1.0, 0.0, 0.0)]);
    let c2 = array_of(&[(0.0, 1.0, 0.0)]);
    let mut result = ColorArray::new(1);
    mix(&c1, &c2, &mut result);
    assert_eq!(floats_of(&result), vec![0.5, 0.5, 0.0]);
}

#[test]
fn mix_of_zero_buffers_stays_zero() {
    let c1 = ColorArray::new(2);
    let c2 = ColorArray::new(2);
    let mut result = ColorArray::new(2);
    mix(&c1, &c2, &mut result);
    assert_eq!(result.len(), 2);
    assert_eq!(floats_of(&result), vec![0.0; 6]);
}

#[test]
fn mix_of_empty_buffers_does_nothing() {
    let c1 = ColorArray::new(0);
    let c2 = ColorArray::new(0);
    let mut result = ColorArray::new(0);
    mix(&c1, &c2, &mut result);
    assert_eq!(result.len(), 0);
    assert!(result.colors().is_empty());
}

#[test]
fn mix_is_commutative() {
    let a = array_of(&[(0.75, -1.5, 1e-40), (3.25, 0.1, 1e38)]);
    let b = array_of(&[(-0.25, 2.5, 7.125), (0.3, -0.1, -1e37)]);
    let mut r1 = ColorArray::new(2);
    let mut r2 = ColorArray::new(2);
    mix(&a, &b, &mut r1);
    mix(&b, &a, &mut r2);
    assert_eq!(r1.colors(), r2.colors());
}

#[test]
fn mix_of_a_buffer_with_itself_is_the_buffer() {
    let a = array_of(&[(0.25, -1.5, 3.75), (1e-40, -0.0, 123.456)]);
    let mut result = ColorArray::new(2);
    mix(&a, &a, &mut result);
    assert_eq!(result.colors(), a.colors());
}

#[test]
fn mix_matches_native_single_precision_midpoints() {
    let pairs: [(f32, f32); 10] = [
        (1.0, 2.0),
        (0.1, 0.2),
        (-5.5, 3.25),
        (1e-45, 0.0),
        (1e-45, -1e-45),
        (3.0e38, 3.0e38),
        (-0.0, 0.0),
        (123456.78, -0.000123),
        (f32::INFINITY, 1.0),
        (f32::NEG_INFINITY, f32::NEG_INFINITY),
    ];
    for &(x, y) in pairs.iter() {
        let c1 = array_of(&[(x, x, x)]);
        let c2 = array_of(&[(y, y, y)]);
        let mut result = ColorArray::new(1);
        mix(&c1, &c2, &mut result);
        let expected = (x + y) / 2.0;
        assert_eq!(
            result.get_triple(0),
            (
                expected.to_bits(),
                expected.to_bits(),
                expected.to_bits()
            ),
            "midpoint of {x} and {y}"
        );
    }
}

#[test]
fn mix_overwrites_an_already_filled_result() {
    let c1 = array_of(&[(8.0, -8.0, 2.0)]);
    let c2 = array_of(&[(4.0, 0.0, 2.0)]);
    let mut result = array_of(&[(9.9, 9.9, 9.9)]);
    mix(&c1, &c2, &mut result);
    assert_eq!(floats_of(&result), vec![6.0, -4.0, 2.0]);
}
