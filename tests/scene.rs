use raytracer::scene::nearest;

#[test]
fn nearer_of_two_wins_listed_first() {
    assert_eq!(nearest(&vec![Some(3), Some(8)]), Some(0));
}

#[test]
fn nearer_of_two_wins_listed_second() {
    assert_eq!(nearest(&vec![Some(8), Some(3)]), Some(1));
}

#[test]
fn misses_are_skipped() {
    assert_eq!(nearest(&vec![None, Some(8), None, Some(5), Some(6)]), Some(3));
}

#[test]
fn equal_distances_keep_the_first() {
    assert_eq!(nearest(&vec![Some(4), Some(4), Some(9)]), Some(0));
}

#[test]
fn all_missed_is_none() {
    assert_eq!(nearest(&vec![None, None]), None);
}

#[test]
fn empty_scene_is_none() {
    assert_eq!(nearest(&Vec::new()), None);
}

#[test]
fn largest_distance_is_still_a_hit() {
    assert_eq!(nearest(&vec![None, Some(u64::MAX)]), Some(1));
}
