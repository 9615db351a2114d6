use raytracer::{march, MarchStep};

#[test]
fn march_reaches_surface() {
    // a wall at 10, stepping by the remaining distance halved
    let step = |t: &u32| {
        if 10 - *t < 1 {
            MarchStep::Hit
        } else {
            MarchStep::Advance(*t + (10 - *t + 1) / 2)
        }
    };
    assert_eq!(march(0u32, 100, &step), Some(10));
}

#[test]
fn march_reports_miss() {
    let step = |t: &u32| if *t > 50 { MarchStep::Miss } else { MarchStep::Advance(*t + 20) };
    assert_eq!(march(0u32, 100, &step), None);
}

#[test]
fn march_gives_up_after_max_steps() {
    let step = |t: &u64| MarchStep::Advance(*t + 1);
    assert_eq!(march(0u64, 1000, &step), None);
    let hit_at_five = |t: &u64| if *t == 5 { MarchStep::Hit } else { MarchStep::Advance(*t + 1) };
    assert_eq!(march(0u64, 5, &hit_at_five), None);
    assert_eq!(march(0u64, 6, &hit_at_five), Some(5));
    assert_eq!(march(0u64, 0, &hit_at_five), None);
}
