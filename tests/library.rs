use raytracer::camera::{ConfigError, RenderSettings};
use raytracer::hit::{choose_root, distance_key, nearest_hit, RootChoice};
use raytracer::image::{Image, ImageFormat};
use raytracer::ppm::Ppm;
use raytracer::trace::{BounceState, Step, Transition};
use raytracer::vector::Vector;

#[test]
fn vector_getters_2d() {
    let v = Vector([3usize, 7usize]);
    assert_eq!(v.x(), 3);
    assert_eq!(v.y(), 7);
}

#[test]
fn vector_getters_3d() {
    let v = Vector([1u8, 2u8, 250u8]);
    assert_eq!(v.x(), 1);
    assert_eq!(v.y(), 2);
    assert_eq!(v.z(), 250);
}

#[test]
fn ppm_two_by_one() {
    let data = [Vector([255u8, 0, 7]), Vector([10u8, 100, 9])];
    let bytes = Ppm::serialize_to_bytes(&data, 2, 1);
    assert_eq!(
        String::from_utf8(bytes).unwrap(),
        "P3\n2 1\n255\n255 0 7 10 100 9 \n"
    );
}

#[test]
fn ppm_rows_are_split_by_width() {
    let data = [
        Vector([1u8, 2, 3]),
        Vector([4u8, 5, 6]),
        Vector([7u8, 8, 9]),
        Vector([10u8, 11, 12]),
    ];
    let bytes = Ppm::serialize_to_bytes(&data, 2, 2);
    assert_eq!(
        String::from_utf8(bytes).unwrap(),
        "P3\n2 2\n255\n1 2 3 4 5 6 \n7 8 9 10 11 12 \n"
    );
}

#[test]
fn ppm_empty_image_is_header_only() {
    let data: [Vector<3, u8>; 0] = [];
    let bytes = Ppm::serialize_to_bytes(&data, 1920, 0);
    assert_eq!(String::from_utf8(bytes).unwrap(), "P3\n1920 0\n255\n");
    let bytes = Ppm::serialize_to_bytes(&data, 0, 1080);
    assert_eq!(String::from_utf8(bytes).unwrap(), "P3\n0 1080\n255\n");
}

#[test]
fn image_serializes_through_its_format() {
    let image = Image {
        width: 1,
        height: 2,
        pixels: vec![Vector([0u8, 128, 255]), Vector([9u8, 10, 99])],
    };
    let bytes = image.serialize_to_bytes::<Ppm>();
    assert_eq!(
        String::from_utf8(bytes).unwrap(),
        "P3\n1 2\n255\n0 128 255 \n9 10 99 \n"
    );
}

#[test]
fn settings_accept_a_valid_configuration() {
    let s = RenderSettings::new(1920, 1080, 4, 50).unwrap();
    assert_eq!(s.width, 1920);
    assert_eq!(s.height, 1080);
    assert_eq!(s.samples, 4);
    assert_eq!(s.max_bounces, 50);
    assert_eq!(s.pixel_count(), 1920 * 1080);
}

#[test]
fn settings_reject_zero_width() {
    assert_eq!(RenderSettings::new(0, 1, 1, 50).unwrap_err(), ConfigError::ZeroWidth);
}

#[test]
fn settings_reject_zero_height() {
    assert_eq!(RenderSettings::new(4, 0, 1, 50).unwrap_err(), ConfigError::ZeroHeight);
}

#[test]
fn settings_reject_zero_samples() {
    assert_eq!(RenderSettings::new(4, 4, 0, 50).unwrap_err(), ConfigError::ZeroSamples);
}

#[test]
fn settings_reject_overflowing_pixel_count() {
    assert_eq!(
        RenderSettings::new(usize::MAX, 2, 1, 50).unwrap_err(),
        ConfigError::TooManyPixels
    );
}

#[test]
fn pixel_positions_are_row_major() {
    let s = RenderSettings::new(3, 2, 1, 0).unwrap();
    let positions: Vec<(usize, usize)> = (0..s.pixel_count()).map(|i| s.pixel_position(i)).collect();
    assert_eq!(positions, vec![(0, 0), (1, 0), (2, 0), (0, 1), (1, 1), (2, 1)]);
}

#[test]
fn distance_keys_follow_float_order() {
    assert_eq!(distance_key(0.0f32.to_bits()), 0);
    assert_eq!(distance_key((-0.0f32).to_bits()), -1);
    assert_eq!(distance_key(1.0f32.to_bits()), 0x3f80_0000);
    let values = [f32::NEG_INFINITY, -2.0, -0.5, -0.0, 0.0, 0.25, 1.0, 3.5, f32::INFINITY];
    for w in values.windows(2) {
        assert!(distance_key(w[0].to_bits()) < distance_key(w[1].to_bits()));
        assert_eq!(w[0].total_cmp(&w[1]), std::cmp::Ordering::Less);
    }
}

#[test]
fn nearest_of_no_shapes_is_none() {
    assert_eq!(nearest_hit(&[]), None);
    assert_eq!(nearest_hit(&[None, None, None]), None);
}

#[test]
fn nearest_of_two_spheres_on_one_ray() {
    // two spheres along -z: the one at distance 0.5 is in front of the one at 99.5
    let hits = [Some(99.5f32.to_bits()), None, Some(0.5f32.to_bits())];
    assert_eq!(nearest_hit(&hits), Some(2));
    let hits = [Some(0.5f32.to_bits()), Some(99.5f32.to_bits())];
    assert_eq!(nearest_hit(&hits), Some(0));
}

#[test]
fn nearest_takes_the_first_of_equal_distances() {
    let hits = [None, Some(2.0f32.to_bits()), Some(2.0f32.to_bits()), Some(3.0f32.to_bits())];
    assert_eq!(nearest_hit(&hits), Some(1));
}

#[test]
fn root_from_outside_is_the_near_one() {
    assert_eq!(choose_root(false, true, true), RootChoice::Near);
}

#[test]
fn root_from_inside_is_the_far_one() {
    // the near root lies behind the origin, outside the bounds
    assert_eq!(choose_root(false, false, true), RootChoice::Far);
}

#[test]
fn root_of_a_missing_ray_is_none() {
    assert_eq!(choose_root(true, true, true), RootChoice::Miss);
    assert_eq!(choose_root(false, false, false), RootChoice::Miss);
}

#[test]
fn exhausted_budget_is_black() {
    assert_eq!(BounceState::start(0).next_step(), Step::Black);
}

#[test]
fn bounces_halve_until_the_sky() {
    let s = BounceState::start(3);
    assert_eq!(s.next_step(), Step::Intersect);
    let s = match s.on_intersection(true) {
        Transition::Bounce(n) => n,
        other => panic!("unexpected {:?}", other),
    };
    assert_eq!(s, BounceState { remaining: 2, halvings: 1 });
    let s = match s.on_intersection(true) {
        Transition::Bounce(n) => n,
        other => panic!("unexpected {:?}", other),
    };
    assert_eq!(s.next_step(), Step::Intersect);
    assert_eq!(s.on_intersection(false), Transition::Sky { halvings: 2 });
}

#[test]
fn every_bounce_hitting_ends_black() {
    let mut s = BounceState::start(2);
    while s.next_step() == Step::Intersect {
        s = match s.on_intersection(true) {
            Transition::Bounce(n) => n,
            other => panic!("unexpected {:?}", other),
        };
    }
    assert_eq!(s, BounceState { remaining: 0, halvings: 2 });
}
