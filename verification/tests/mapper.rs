use carlink::joycons::remap_left_joycon;
use carlink::joycons::remap_right_joycon;
use carlink::utils::map_range;

#[test]
fn map_identity_over_protocol_domain() {
    // Identity mapping: with equal source and target ranges and no
    // mirroring, every in-range value maps to itself.
    for value in 0..=2047u16 {
        assert_eq!(map_range(value, (0, 2047), (0, 2047), false), value);
    }
}

#[test]
fn map_output_always_within_target_range() {
    let targets = [(240u16, 1807u16), (0u16, 1u16), (100u16, 200u16), (0u16, 65535u16)];
    let sources = [(670u16, 3240u16), (5u16, 5u16), (0u16, 65535u16)];
    let samples = [0u16, 1, 669, 670, 1024, 3240, 3241, 40000, 65535];
    for &to in &targets {
        for &from in &sources {
            for &invert in &[false, true] {
                for &value in &samples {
                    let out = map_range(value, from, to, invert);
                    assert!(to.0 <= out && out <= to.1);
                }
            }
        }
    }
}

#[test]
fn map_invert_matches_mirrored_input() {
    let (lo, hi) = (670u16, 3240u16);
    for value in lo..=hi {
        assert_eq!(
            map_range(value, (lo, hi), (240, 1807), true),
            map_range(hi + lo - value, (lo, hi), (240, 1807), false)
        );
    }
}

#[test]
fn map_degenerate_source_range_gives_midpoint() {
    for &value in &[0u16, 4, 5, 6, 77, 65535] {
        assert_eq!(map_range(value, (5, 5), (100, 200), false), 150);
    }
}

#[test]
fn map_exact_interpolation_values() {
    assert_eq!(map_range(1000, (670, 3240), (240, 1807), false), 441);
    assert_eq!(map_range(1000, (670, 3240), (240, 1807), true), 1606);
    assert_eq!(map_range(2910, (670, 3240), (240, 1807), false), 1606);
    assert_eq!(map_range(123, (100, 200), (1000, 2000), false), 1230);
    // Halves round up.
    assert_eq!(map_range(150, (100, 200), (0, 1), false), 1);
    assert_eq!(map_range(149, (100, 200), (0, 1), false), 0);
}

#[test]
fn map_clamps_out_of_range_input() {
    assert_eq!(map_range(65535, (670, 3240), (240, 1807), false), 1807);
    assert_eq!(map_range(0, (670, 3240), (240, 1807), false), 240);
    // Mirroring happens on the raw reading; the mirrored value is clamped.
    assert_eq!(map_range(0, (670, 3240), (240, 1807), true), 1807);
    assert_eq!(map_range(0, (1080, 3240), (240, 1807), true), 1807);
    assert_eq!(map_range(65535, (1080, 3240), (240, 1807), true), 240);
}

#[test]
fn remap_left_joycon_extents() {
    // Raw stick maxima: horizontal is mirrored, vertical is not.
    assert_eq!(remap_left_joycon(3240, 3240), (240, 1807));
    assert_eq!(remap_left_joycon(670, 1080), (1807, 240));
}

#[test]
fn remap_right_joycon_extents() {
    assert_eq!(remap_right_joycon(3600, 3000), (240, 1807));
    assert_eq!(remap_right_joycon(700, 780), (1807, 240));
}
