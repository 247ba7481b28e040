use pancake_cat::geometry::overlaps;
use pancake_cat::pancake::maybe_spawn;
use pancake_cat::pancake::resolve_pancakes;
use pancake_cat::pancake::Pancake;

// The centers (0,0) and (3,4) are exactly 5 apart.

#[test]
fn overlap_at_radius_difference_bound() {
    // |8 - 3| == 5 == distance: edge contact from inside counts.
    assert!(overlaps(0, 0, 8, 3, 4, 3));
}

#[test]
fn no_overlap_just_inside_radius_difference() {
    // |9 - 3| == 6 > 5: the small circle sits strictly inside the large one.
    assert!(!overlaps(0, 0, 9, 3, 4, 3));
}

#[test]
fn overlap_at_radius_sum_bound() {
    // 2 + 3 == 5 == distance: edge contact from outside counts.
    assert!(overlaps(0, 0, 2, 3, 4, 3));
}

#[test]
fn no_overlap_just_outside_radius_sum() {
    // 2 + 2 == 4 < 5: the circles are apart.
    assert!(!overlaps(0, 0, 2, 3, 4, 2));
}

#[test]
fn overlap_strictly_between_bounds() {
    // |4 - 3| == 1 <= 5 <= 7 == 4 + 3.
    assert!(overlaps(0, 0, 4, 3, 4, 3));
}

#[test]
fn containment_without_contact_is_no_hit() {
    // Concentric circles: distance 0 < |8 - 2|.
    assert!(!overlaps(10, 10, 8, 10, 10, 2));
}

#[test]
fn spawn_on_divisible_draw() {
    let p = maybe_spawn(128, 300, 5, 17).unwrap();
    assert_eq!(p.x, 44); // 300 % 256
    assert_eq!(p.y, 0);
    assert_eq!(p.vel, 3); // 5 % 3 + 1
    assert_eq!(p.radius, 12); // 17 % 10 + 5
}

#[test]
fn no_spawn_on_other_draws() {
    assert!(maybe_spawn(1, 0, 0, 0).is_none());
    assert!(maybe_spawn(63, 0, 0, 0).is_none());
}

#[test]
fn spawn_field_ranges() {
    let p = maybe_spawn(0, 255, 2, 9).unwrap();
    assert_eq!(p.x, 255);
    assert_eq!(p.vel, 3);
    assert_eq!(p.radius, 14);
    let q = maybe_spawn(0, 256, 3, 10).unwrap();
    assert_eq!(q.x, 0);
    assert_eq!(q.vel, 1);
    assert_eq!(q.radius, 5);
}

#[test]
fn pancake_falls_by_its_velocity() {
    let mut ps = vec![Pancake { x: 0, y: 0, vel: 2, radius: 5 }];
    let caught = resolve_pancakes(&mut ps, 10000, 10000, 8);
    assert_eq!(caught, 0);
    assert_eq!(ps, vec![Pancake { x: 0, y: 2, vel: 2, radius: 5 }]);
}

#[test]
fn pancake_exits_after_exact_ceiling_of_steps() {
    // Removal line at 144 + 2*5 = 154; vel 2 gives ceil(154 / 2) = 77 steps.
    let mut ps = vec![Pancake { x: 0, y: 0, vel: 2, radius: 5 }];
    for i in 0..76 {
        let caught = resolve_pancakes(&mut ps, 10000, 10000, 8);
        assert_eq!(caught, 0);
        assert_eq!(ps.len(), 1, "still falling after step {}", i + 1);
    }
    assert_eq!(ps[0].y, 152);
    let caught = resolve_pancakes(&mut ps, 10000, 10000, 8);
    assert_eq!(caught, 0, "leaving the play area scores nothing");
    assert_eq!(ps.len(), 0, "gone at step 77");
}

#[test]
fn odd_velocity_exit_count() {
    // Removal line at 144 + 2*6 = 156; vel 3 gives ceil(156 / 3) = 52 steps.
    let mut ps = vec![Pancake { x: 7, y: 0, vel: 3, radius: 6 }];
    let mut steps = 0;
    while !ps.is_empty() {
        assert_eq!(resolve_pancakes(&mut ps, 10000, 10000, 8), 0);
        steps += 1;
        assert!(steps <= 60);
    }
    assert_eq!(steps, 52);
}

#[test]
fn colliding_pancake_is_removed_and_counted_others_kept() {
    // Actor center (128, 120). The first object advances to center
    // (138, 120), 10 away: within [|8-10|, 8+10]. The second is far away.
    let hit = Pancake { x: 128, y: 109, vel: 1, radius: 10 };
    let far = Pancake { x: 0, y: 0, vel: 1, radius: 5 };
    let mut ps = vec![hit, far];
    let caught = resolve_pancakes(&mut ps, 128, 120, 8);
    assert_eq!(caught, 1);
    assert_eq!(ps, vec![Pancake { x: 0, y: 1, vel: 1, radius: 5 }]);
}
