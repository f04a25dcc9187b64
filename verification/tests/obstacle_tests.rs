use flappy::obstacle::Obstacle;
use flappy::obstacle::BASE_GAP_SIZE;
use flappy::obstacle::GAP_CENTER_MAX;
use flappy::obstacle::GAP_CENTER_MIN;
use flappy::player::Player;

fn player_at(x: i32, y: i32) -> Player {
    Player { x, y, velocity_halves: 0 }
}

#[test]
fn gap_size_shrinks_with_score() {
    assert_eq!(Obstacle::with_gap(0, 0, 20).gap_size, BASE_GAP_SIZE);
    assert_eq!(Obstacle::with_gap(0, 5, 20).gap_size, 15);
    assert_eq!(Obstacle::with_gap(0, 18, 20).gap_size, 2);
}

#[test]
fn gap_size_never_below_two() {
    assert_eq!(Obstacle::with_gap(0, 19, 20).gap_size, 2);
    assert_eq!(Obstacle::with_gap(0, 100, 20).gap_size, 2);
    assert_eq!(Obstacle::with_gap(0, i32::MAX, 20).gap_size, 2);
    assert_eq!(Obstacle::new(0, i32::MAX).gap_size, 2);
}

#[test]
fn fresh_obstacle_gap_center_in_range() {
    for _ in 0..50 {
        let o = Obstacle::new(80, 0);
        assert!(GAP_CENTER_MIN <= o.gap_center && o.gap_center < GAP_CENTER_MAX);
        assert_eq!(o.x, 80);
        assert_eq!(o.gap_size, BASE_GAP_SIZE);
    }
}

#[test]
fn fresh_obstacle_gap_center_varies() {
    // A real generator stands behind Obstacle::new; 200 draws from a range of
    // 30 values all coming out equal would mean it is not drawing at all.
    let first = Obstacle::new(0, 0).gap_center;
    let mut saw_other = false;
    for _ in 0..200 {
        if Obstacle::new(0, 0).gap_center != first {
            saw_other = true;
        }
    }
    assert!(saw_other);
}

#[test]
fn collision_inside_column() {
    // Gap centered at 20 with total size 10: half is 5, the open band is
    // rows 15 through 25 inclusive.
    let o = Obstacle::with_gap(7, 10, 20);
    assert_eq!(o.gap_size, 10);
    assert!(o.hit_obstacle(&player_at(7, 14))); // above the gap
    assert!(!o.hit_obstacle(&player_at(7, 16))); // inside the gap
    assert!(o.hit_obstacle(&player_at(7, 26))); // below the gap
}

#[test]
fn collision_band_edges_are_safe() {
    let o = Obstacle::with_gap(7, 10, 20);
    assert!(!o.hit_obstacle(&player_at(7, 15))); // exactly gap_center - half
    assert!(!o.hit_obstacle(&player_at(7, 25))); // exactly gap_center + half
}

#[test]
fn no_collision_off_column() {
    let o = Obstacle::with_gap(7, 10, 20);
    assert!(!o.hit_obstacle(&player_at(6, 0)));
    assert!(!o.hit_obstacle(&player_at(8, 0)));
    assert!(!o.hit_obstacle(&player_at(6, 49)));
}
