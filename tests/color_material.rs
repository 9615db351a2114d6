use raytracer::{Color, Material};

#[test]
fn color_new_and_raw() {
    let c = Color::new(0, 100, 0);
    assert_eq!(c.raw(), [0, 100, 0]);
}

#[test]
fn err_color_is_magenta() {
    assert_eq!(Color::err_color().raw(), [255, 0, 255]);
}

#[test]
fn background_is_black() {
    assert_eq!(Color::background(), Color::new(0, 0, 0));
}

#[test]
fn channel_clamps_to_byte_range() {
    assert_eq!(Color::channel(-5), 0);
    assert_eq!(Color::channel(0), 0);
    assert_eq!(Color::channel(128), 128);
    assert_eq!(Color::channel(255), 255);
    assert_eq!(Color::channel(256), 255);
    assert_eq!(Color::channel(i64::MIN), 0);
    assert_eq!(Color::channel(i64::MAX), 255);
}

#[test]
fn from_levels_keeps_every_channel_in_range() {
    let c = Color::from_levels(-40, 300, 128);
    assert_eq!(c.raw(), [0, 255, 128]);
}

#[test]
fn material_accepts_coefficients_up_to_one() {
    let m = Material::new(200, 100, 100, 800).unwrap();
    assert_eq!(m.ambient, 200);
    assert_eq!(m.smoothness, 100);
    assert_eq!(m.flare_intensity, 100);
    assert_eq!(m.specularity, 800);
    assert!(m.is_valid());
    assert!(Material::new(1000, 0, 1000, 1000).is_some());
}

#[test]
fn material_rejects_coefficient_above_one() {
    assert!(Material::new(1001, 1, 0, 0).is_none());
    assert!(Material::new(0, 1, 1001, 0).is_none());
    assert!(Material::new(0, 1, 0, 1001).is_none());
}

#[test]
fn err_material_mirrors_nothing() {
    let m = Material::err_material();
    assert!(!m.is_reflective());
    assert_eq!(m, Material::new(0, 0, 0, 0).unwrap());
}
