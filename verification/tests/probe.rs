//! The probe table, the fixed-point helpers and the mask algebra,
//! exercised on concrete values.

use openhrt::dirs::DIR_WIDTH;
use openhrt::dirs::dirs;
use openhrt::mask::NO_COLLISION;
use openhrt::mask::fuse_collisions;
use openhrt::num::SCALE;
use openhrt::num::clamp_i64;
use openhrt::num::div_trunc;
use openhrt::num::isqrt;
use openhrt::num::normal;

#[test]
fn normal_test() {
    assert_eq!(11, normal(16));
}

#[test]
fn horse_normal_test() {
    assert_eq!(11, normal(16));
}

#[test]
fn fuse_collisions_test() {
    let c1: u8 = 0b0000_1110;
    let c2: u8 = 0b0001_1100;
    assert_eq!(fuse_collisions(c1, c2), 0b0001_1110);
}

#[test]
fn fuse_commutative_and_idempotent() {
    let samples: Vec<u8> = vec![0, 1, 37, 164, 255, 0b1010_0101];
    for &a in &samples {
        for &b in &samples {
            assert_eq!(fuse_collisions(a, b), fuse_collisions(b, a));
        }
        assert_eq!(fuse_collisions(a, a), a);
        assert_eq!(fuse_collisions(a, NO_COLLISION), a);
    }
}

#[test]
fn dirs_layout() {
    // Radius of three pixels: the axis offsets are exactly 3 px long and
    // the diagonal legs are floor(3 * 46340 / 65536) fixed-point units.
    let r: i64 = 3 * SCALE;
    let n: i64 = 3 * 46340;
    let ds = dirs(r);
    assert_eq!((ds[0].x, ds[0].y), (n, -n));
    assert_eq!((ds[1].x, ds[1].y), (-n, n));
    assert_eq!((ds[2].x, ds[2].y), (n, n));
    assert_eq!((ds[3].x, ds[3].y), (-n, -n));
    assert_eq!((ds[4].x, ds[4].y), (0, -r));
    assert_eq!((ds[5].x, ds[5].y), (0, r));
    assert_eq!((ds[6].x, ds[6].y), (-r, 0));
    assert_eq!((ds[7].x, ds[7].y), (r, 0));
    // The diagonal magnitude never exceeds the axis magnitude, and the
    // eight offsets are stable across calls.
    assert!(2 * n * n <= r * r);
    let again = dirs(r);
    for i in 0..8 {
        assert_eq!(ds[i], again[i]);
    }
}

#[test]
fn probe_radius_magnitudes() {
    // The race's own probe radius: all four diagonal probes land within
    // the collision radius, so a peer at the agent's own position is
    // seen by every probe.
    let n: i64 = normal(DIR_WIDTH);
    assert!(2 * n * n <= DIR_WIDTH * DIR_WIDTH);
}

#[test]
fn numeric_helpers() {
    assert_eq!(div_trunc(7, 2), 3);
    assert_eq!(div_trunc(-7, 2), -3);
    assert_eq!(clamp_i64(5, 0, 3), 3);
    assert_eq!(clamp_i64(-5, 0, 3), 0);
    assert_eq!(clamp_i64(2, 0, 3), 2);
    assert_eq!(isqrt(0), 0);
    assert_eq!(isqrt(15), 3);
    assert_eq!(isqrt(16), 4);
    assert_eq!(isqrt(2359296 * 2359296), 2359296);
}
