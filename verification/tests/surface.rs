use debug_text_view::single::Single;
use debug_text_view::surface::surface_id;
use std::collections::hash_map::DefaultHasher;
use std::hash::{Hash, Hasher};

fn num(value: f32) -> Single {
    Single::from_bits(value.to_bits())
}

fn by_std(x: f32, y: f32, scaled_x: f32, scaled_y: f32, text: &str) -> u64 {
    let mut hasher = DefaultHasher::new();
    (x as u32).hash(&mut hasher);
    (y as u32).hash(&mut hasher);
    (scaled_x as u32).hash(&mut hasher);
    (scaled_y as u32).hash(&mut hasher);
    String::from(text).hash(&mut hasher);
    hasher.finish()
}

#[test]
fn identifier_is_the_hash_of_the_truncated_tuple() {
    let cases: [(f32, f32, f32, f32, &str); 6] = [
        (0.0, 0.0, 0.0, 0.0, ""),
        (10.5, 20.25, 21.0, 40.5, "HP 100"),
        (-10.0, 5.0, 1910.0, 5.0, "left of the frame"),
        (1919.9, 1079.9, 1919.9, 1079.9, "デバッグ"),
        (f32::NAN, f32::INFINITY, 3.0e9, 5.0e9, "odd"),
        (123456.0, 0.5, 576.0, 0.5, "😀 pair"),
    ];
    for &(x, y, sx, sy, text) in cases.iter() {
        assert_eq!(surface_id(num(x), num(y), num(sx), num(sy), text), by_std(x, y, sx, sy, text));
    }
}

#[test]
fn identifier_repeats_for_the_same_draw() {
    let a = surface_id(num(10.0), num(20.0), num(30.0), num(40.0), "same");
    let b = surface_id(num(10.0), num(20.0), num(30.0), num(40.0), "same");
    assert_eq!(a, b);
}

#[test]
fn identifier_sees_only_the_whole_part_of_a_coordinate() {
    let a = surface_id(num(10.0), num(20.0), num(30.0), num(40.0), "t");
    let b = surface_id(num(10.9), num(20.1), num(30.5), num(40.999), "t");
    assert_eq!(a, b);
}

#[test]
fn identifier_differs_for_different_draws() {
    let base = surface_id(num(10.0), num(20.0), num(30.0), num(40.0), "text");
    assert_ne!(base, surface_id(num(11.0), num(20.0), num(30.0), num(40.0), "text"));
    assert_ne!(base, surface_id(num(10.0), num(21.0), num(30.0), num(40.0), "text"));
    assert_ne!(base, surface_id(num(10.0), num(20.0), num(31.0), num(40.0), "text"));
    assert_ne!(base, surface_id(num(10.0), num(20.0), num(30.0), num(41.0), "text"));
    assert_ne!(base, surface_id(num(10.0), num(20.0), num(30.0), num(40.0), "texu"));
    assert_ne!(base, surface_id(num(20.0), num(10.0), num(30.0), num(40.0), "text"));
}
