use raytracer::{choose_surface, nearest_hit, occludes, Candidate, Surface};

fn hit(d: u64) -> Candidate {
    Candidate { schematic: false, dist: Some(d) }
}

fn miss() -> Candidate {
    Candidate { schematic: false, dist: None }
}

fn glyph(d: u64) -> Candidate {
    Candidate { schematic: true, dist: Some(d) }
}

#[test]
fn nearest_hit_of_nothing_is_none() {
    assert_eq!(nearest_hit(&vec![]), None);
    assert_eq!(nearest_hit(&vec![miss(), miss()]), None);
}

#[test]
fn nearest_hit_picks_smallest_distance() {
    assert_eq!(nearest_hit(&vec![hit(30), miss(), hit(10), hit(20)]), Some(2));
}

#[test]
fn nearest_hit_keeps_first_of_equal_distances() {
    assert_eq!(nearest_hit(&vec![hit(15), hit(10), hit(10)]), Some(1));
}

#[test]
fn nearest_hit_passes_over_schematic_objects() {
    assert_eq!(nearest_hit(&vec![hit(40), glyph(1)]), Some(0));
    assert_eq!(nearest_hit(&vec![glyph(1), glyph(2)]), None);
}

#[test]
fn nearest_hit_on_float_distance_bits() {
    let cs: Vec<Candidate> = [12.5f64, 3.25, 7.0]
        .iter()
        .map(|t| Candidate { schematic: false, dist: Some(t.to_bits()) })
        .collect();
    assert_eq!(nearest_hit(&cs), Some(1));
}

#[test]
fn choose_surface_prefers_nearer_and_traced_on_tie() {
    assert_eq!(choose_surface(None, None), None);
    assert_eq!(choose_surface(Some(5), None), Some(Surface::Traced));
    assert_eq!(choose_surface(None, Some(5)), Some(Surface::Marched));
    assert_eq!(choose_surface(Some(5), Some(4)), Some(Surface::Marched));
    assert_eq!(choose_surface(Some(4), Some(5)), Some(Surface::Traced));
    assert_eq!(choose_surface(Some(5), Some(5)), Some(Surface::Traced));
}

#[test]
fn occludes_only_before_the_light() {
    assert!(occludes(Some(3), 10));
    assert!(!occludes(Some(10), 10));
    assert!(!occludes(Some(11), 10));
    assert!(!occludes(None, 10));
}

