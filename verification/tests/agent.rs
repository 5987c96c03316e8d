//! The horse agent: motion, collision queries and the bounce rule.

use openhrt::arena::Arena;
use openhrt::data::WinData;
use openhrt::horse::Horse;
use openhrt::horse::SPEED_CAP;
use openhrt::horse::bounce_dir;
use openhrt::num::SCALE;
use openhrt::vec2::Vec2;
use openhrt::victory::Carrots;

fn payload(name: &str) -> WinData {
    WinData { name: String::from(name), music: String::new(), screen: String::new() }
}

fn agent(x: i64, y: i64, dx: i64, dy: i64, speed: i64, name: &str) -> Horse {
    Horse { pos: Vec2 { x, y }, dir: Vec2 { x: dx, y: dy }, speed, win_data: payload(name) }
}

#[test]
fn update_moves_agent() {
    // Agent at (100, 100) px heading (1, 0) at speed 1; one tick of
    // 1/60 s (1092 fixed-point seconds) moves it by just under two
    // pixels and grows the speed to about 1.01.
    let mut h = agent(100 * SCALE, 100 * SCALE, SCALE, 0, SCALE, "a");
    h.update(1092);
    assert_eq!(h.pos.x, 100 * SCALE + 131040);
    assert_eq!(h.pos.y, 100 * SCALE);
    assert_eq!(h.speed, SCALE + 655);
    assert_eq!(h.dir, Vec2 { x: SCALE, y: 0 });
}

#[test]
fn update_caps_speed() {
    let mut h = agent(0, 0, SCALE, 0, SPEED_CAP, "a");
    h.update(1092);
    assert_eq!(h.speed, SPEED_CAP);
    let mut slow = agent(0, 0, SCALE, 0, SPEED_CAP - 100, "a");
    slow.update(1092);
    assert_eq!(slow.speed, SPEED_CAP);
    let mut fresh = agent(0, 0, SCALE, 0, SCALE, "a");
    for _ in 0..1000 {
        let before = fresh.speed;
        fresh.update(1092);
        assert!(fresh.speed >= before);
        assert!(fresh.speed <= SPEED_CAP);
    }
    assert_eq!(fresh.speed, SPEED_CAP);
}

#[test]
fn update_clamps_stutter() {
    // A six-second stutter counts as no more than four reference ticks.
    let mut h = agent(100 * SCALE, 100 * SCALE, SCALE, 0, SCALE, "a");
    let mut g = agent(100 * SCALE, 100 * SCALE, SCALE, 0, SCALE, "a");
    h.update(6 * SCALE);
    g.update(4370);
    assert_eq!(h.pos, g.pos);
    assert_eq!(h.speed, g.speed);
}

#[test]
fn collision_wall_all_opaque() {
    // A fully opaque arena with the agent well inside: every probe
    // samples an opaque pixel, so all eight bits are set.
    let arena = Arena::new(100, 100, vec![255u8; 100 * 100]).unwrap();
    let h = agent(50 * SCALE, 50 * SCALE, SCALE, 0, SCALE, "a");
    assert_eq!(h.collision_wall(&arena), 0b1111_1111);
}

#[test]
fn collision_wall_transparent() {
    let arena = Arena::new(100, 100, vec![0u8; 100 * 100]).unwrap();
    let h = agent(50 * SCALE, 50 * SCALE, SCALE, 0, SCALE, "a");
    assert_eq!(h.collision_wall(&arena), 0);
}

#[test]
fn collision_wall_threshold() {
    // 191 of 255 is exactly 0.749..: below the 0.75 threshold; 192 is
    // above it.
    let below = Arena::new(100, 100, vec![191u8; 100 * 100]).unwrap();
    let above = Arena::new(100, 100, vec![192u8; 100 * 100]).unwrap();
    let h = agent(50 * SCALE, 50 * SCALE, SCALE, 0, SCALE, "a");
    assert_eq!(h.collision_wall(&below), 0);
    assert_eq!(h.collision_wall(&above), 0b1111_1111);
}

#[test]
fn collision_wall_edge_is_free() {
    // An agent at the arena corner: probes pointing out of the grid
    // report free space; only the right, down and down-right probes
    // (bits 2, 5 and 7) land on pixels.
    let arena = Arena::new(100, 100, vec![255u8; 100 * 100]).unwrap();
    let h = agent(0, 0, SCALE, 0, SCALE, "a");
    assert_eq!(h.collision_wall(&arena), 0b1010_0100);
}

#[test]
fn collision_honses_identical_positions() {
    // Two agents at the same position (distinct headings, so they are
    // different participants): every probe of one lands within the
    // collision radius of the other.
    let a = agent(100 * SCALE, 100 * SCALE, SCALE, 0, SCALE, "a");
    let b = agent(100 * SCALE, 100 * SCALE, 0, SCALE, SCALE, "b");
    let roster = vec![a.clone(), b.clone()];
    assert_eq!(a.collision_honses(&roster), 0b1111_1111);
    assert_eq!(b.collision_honses(&roster), 0b1111_1111);
}

#[test]
fn collision_honses_excludes_self() {
    // A lone agent never collides with itself, wherever it stands.
    let spots: Vec<(i64, i64)> = vec![(0, 0), (100 * SCALE, 100 * SCALE), (-5 * SCALE, 77)];
    for &(x, y) in &spots {
        let a = agent(x, y, SCALE, 0, SCALE, "a");
        let roster = vec![a.clone()];
        assert_eq!(a.collision_honses(&roster), 0);
    }
}

#[test]
fn collision_carrots_exact_probe_point() {
    // The target placed exactly on the right-hand probe point.
    let a = agent(100 * SCALE, 100 * SCALE, SCALE, 0, SCALE, "a");
    let c = Carrots::new(Vec2 { x: 100 * SCALE + 36 * SCALE, y: 100 * SCALE });
    assert!(a.collision_carrots(&c));
    let far = Carrots::new(Vec2 { x: 100 * SCALE + 73 * SCALE, y: 100 * SCALE });
    assert!(!a.collision_carrots(&far));
}

#[test]
fn bounce_dir_steers_away() {
    // Only the rightward probe is blocked and there is no jitter: the
    // new heading is exactly one unit leftward.
    let prev = Vec2 { x: 0, y: SCALE };
    let d = bounce_dir(prev, 0b1000_0000, 0, 0);
    assert_eq!(d, Vec2 { x: -SCALE, y: 0 });
}

#[test]
fn bounce_dir_sums_ties() {
    // Left and right probes blocked together cancel out (the tie rule
    // is additive); the jitter alone decides, and the heading flees it.
    let prev = Vec2 { x: 0, y: SCALE };
    let d = bounce_dir(prev, 0b1100_0000, 0, 100);
    assert_eq!(d, Vec2 { x: 0, y: -SCALE });
}

#[test]
fn bounce_dir_zero_sum_keeps_heading() {
    // A jitter that exactly cancels the blocked direction leaves
    // nothing to normalize: the previous heading is kept.
    let prev = Vec2 { x: 1234, y: 4321 };
    let d = bounce_dir(prev, 0b1000_0000, -36 * SCALE, 0);
    assert_eq!(d, prev);
}

#[test]
fn bounce_dir_unit_length() {
    // The bounce heading is unit length up to fixed-point rounding,
    // even when the jittered sum is far smaller than a pixel.
    let prev = Vec2 { x: 0, y: SCALE };
    let cases: Vec<(u8, i64, i64)> = vec![
        (0b1000_0000, 0, 0),
        (0b0000_0001, 777, -12345),
        (0b1111_1111, 24 * SCALE, -24 * SCALE),
        (0b0010_0000, -3 * SCALE, 5 * SCALE),
        (0b0110_0001, 691057, -691055),
    ];
    for &(mask, jx, jy) in &cases {
        let d = bounce_dir(prev, mask, jx, jy);
        let len2 = d.x * d.x + d.y * d.y;
        assert!(len2 >= SCALE * SCALE - 4 * SCALE);
        assert!(len2 <= SCALE * SCALE + 2 * SCALE);
    }
}

#[test]
fn bounce_dir_subpixel_sum() {
    // Probes up-right, down and left sum to about (-10.5, +10.5) px;
    // this jitter cancels all but (1, 1) fixed-point units.  The
    // heading still comes out unit length, fleeing the tiny sum.
    let prev = Vec2 { x: 0, y: SCALE };
    let d = bounce_dir(prev, 0b0110_0001, 691057, -691055);
    assert_eq!(d, Vec2 { x: -46341, y: -46341 });
}

#[test]
fn bounce_resets_speed() {
    let mut h = agent(100 * SCALE, 100 * SCALE, SCALE, 0, 3 * SCALE, "a");
    h.bounce(0b1000_0000);
    assert!(h.speed >= SCALE && h.speed <= 2 * SCALE);
    assert_eq!(h.pos, Vec2 { x: 100 * SCALE, y: 100 * SCALE });
    let len2 = h.dir.x * h.dir.x + h.dir.y * h.dir.y;
    assert!(len2 >= SCALE * SCALE - 4 * SCALE);
    assert!(len2 <= SCALE * SCALE + 2 * SCALE);
}

#[test]
fn new_agent_starts_at_unit_speed() {
    let h = Horse::new(Vec2 { x: 7 * SCALE, y: 9 * SCALE }, payload("a"));
    assert_eq!(h.pos, Vec2 { x: 7 * SCALE, y: 9 * SCALE });
    assert_eq!(h.speed, SCALE);
    assert!(h.dir.x >= -SCALE && h.dir.x <= SCALE);
    assert!(h.dir.y >= -SCALE && h.dir.y <= SCALE);
    let len2 = h.dir.x * h.dir.x + h.dir.y * h.dir.y;
    assert!(len2 >= SCALE * SCALE - 4 * SCALE);
    assert!(len2 <= SCALE * SCALE + 2 * SCALE);
    assert_eq!(h.win_data.name, String::from("a"));
}

#[test]
fn arena_rejects_bad_dimensions() {
    // One byte per pixel, or no arena at all.
    assert!(Arena::new(10, 10, vec![0u8; 99]).is_none());
    assert!(Arena::new(40000, 1, vec![0u8; 40000]).is_none());
    assert!(Arena::new(10, 10, vec![0u8; 100]).is_some());
}
