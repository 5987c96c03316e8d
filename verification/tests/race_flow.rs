//! The race state machine: phase sequencing, the frozen timer, the win
//! condition and the clock display.

use openhrt::arena::Arena;
use openhrt::data::GateData;
use openhrt::data::WinData;
use openhrt::horse::Horse;
use openhrt::num::SCALE;
use openhrt::race::Phase;
use openhrt::race::Race;
use openhrt::race::TickInput;
use openhrt::race::parse_time;
use openhrt::startup::Countdown;
use openhrt::vec2::Vec2;
use openhrt::victory::Carrots;
use openhrt::victory::Victory;

fn payload(name: &str) -> WinData {
    WinData { name: String::from(name), music: String::new(), screen: String::new() }
}

fn agent(x: i64, y: i64, dx: i64, dy: i64, name: &str) -> Horse {
    Horse { pos: Vec2 { x, y }, dir: Vec2 { x: dx, y: dy }, speed: SCALE, win_data: payload(name) }
}

fn gate() -> GateData {
    GateData {
        start: Vec2 { x: 0, y: 0 },
        end: Vec2 { x: 10 * SCALE, y: 10 * SCALE },
        sprite: String::new(),
    }
}

fn quiet_tick(elapsed: i64) -> TickInput {
    TickInput {
        elapsed,
        startup_audio_done: false,
        force_victory: false,
        screen_w: 640 * SCALE,
        screen_h: 480 * SCALE,
    }
}

fn open_race(carrot_x: i64, carrot_y: i64) -> Race {
    // A transparent 200 x 200 arena: no wall collisions anywhere.
    let arena = Arena::new(200, 200, vec![0u8; 200 * 200]).unwrap();
    let horses = vec![
        agent(50 * SCALE, 50 * SCALE, SCALE, 0, "first"),
        agent(150 * SCALE, 150 * SCALE, 0, SCALE, "second"),
    ];
    let carrots = Carrots::new(Vec2 { x: carrot_x, y: carrot_y });
    Race::new(arena, horses, gate(), carrots, 640 * SCALE, 480 * SCALE)
}

#[test]
fn skip_intro_starts_racing() {
    // Built with the skip flag, the race is in the Racing phase on its
    // very first tick.
    let mut race = open_race(190 * SCALE, 10 * SCALE);
    assert!(matches!(race.phase, Phase::Startup(_)));
    race.skip_intro(true);
    assert!(matches!(race.phase, Phase::Racing));
    let ev = race.update(quiet_tick(1092));
    assert!(!ev.victory_started);
    assert!(matches!(race.phase, Phase::Racing));
    assert_eq!(race.time, 1092);
}

#[test]
fn skip_intro_false_keeps_startup() {
    let mut race = open_race(190 * SCALE, 10 * SCALE);
    race.skip_intro(false);
    assert!(matches!(race.phase, Phase::Startup(_)));
}

#[test]
fn timer_frozen_outside_racing() {
    // The race clock does not advance during Startup; it starts
    // counting once the startup audio is done, and freezes again in
    // Victory.
    let mut race = open_race(190 * SCALE, 10 * SCALE);
    race.update(quiet_tick(3 * SCALE));
    assert_eq!(race.time, 0);
    let mut done = quiet_tick(3 * SCALE);
    done.startup_audio_done = true;
    race.update(done);
    assert_eq!(race.time, 0);
    assert!(matches!(race.phase, Phase::Racing));
    race.update(quiet_tick(3 * SCALE));
    assert_eq!(race.time, 3 * SCALE);
    let mut forced = quiet_tick(SCALE);
    forced.force_victory = true;
    race.update(forced);
    assert!(matches!(race.phase, Phase::Victory(_)));
    race.update(quiet_tick(5 * SCALE));
    assert_eq!(race.time, 3 * SCALE);
}

#[test]
fn target_touch_starts_victory() {
    // The carrot sits on the first agent's rightward probe point: the
    // first tick of racing ends in the Victory phase with that agent's
    // payload.
    let mut race = open_race(50 * SCALE + 36 * SCALE, 50 * SCALE);
    race.skip_intro(true);
    let ev = race.update(quiet_tick(0));
    assert!(ev.victory_started);
    match &race.phase {
        Phase::Victory(v) => {
            assert_eq!(v.name, String::from("first"));
            assert_eq!(v.time, 0);
        },
        _ => panic!("expected the Victory phase"),
    }
}

#[test]
fn first_winner_in_roster_order() {
    // Both agents touch the target at once; the winner is the first in
    // roster order.
    let arena = Arena::new(200, 200, vec![0u8; 200 * 200]).unwrap();
    let horses = vec![
        agent(50 * SCALE, 50 * SCALE, SCALE, 0, "first"),
        agent(50 * SCALE, 50 * SCALE, 0, SCALE, "second"),
    ];
    let carrots = Carrots::new(Vec2 { x: 50 * SCALE, y: 50 * SCALE });
    let mut race = Race::new(arena, horses, gate(), carrots, 640 * SCALE, 480 * SCALE);
    race.skip_intro(true);
    let ev = race.update(quiet_tick(0));
    assert!(ev.victory_started);
    // The two coincident agents also bounced off each other this tick.
    assert_eq!(ev.bounces, 2);
    match &race.phase {
        Phase::Victory(v) => assert_eq!(v.name, String::from("first")),
        _ => panic!("expected the Victory phase"),
    }
}

#[test]
fn forced_victory_crowns_first_agent() {
    let mut race = open_race(190 * SCALE, 10 * SCALE);
    let mut forced = quiet_tick(SCALE);
    forced.force_victory = true;
    let ev = race.update(forced);
    assert!(ev.victory_started);
    match &race.phase {
        Phase::Victory(v) => {
            assert_eq!(v.name, String::from("first"));
            assert_eq!(v.time, SCALE);
        },
        _ => panic!("expected the Victory phase"),
    }
}

#[test]
fn should_finish_needs_time_and_silence() {
    // Finishing needs both the minimum duration and stopped music.
    let mut v = Victory::new(String::from("w"), String::new(), String::new());
    v.update(13 * SCALE);
    assert!(!v.should_finish(true));
    assert!(!v.should_finish(false));
    v.update(SCALE / 2);
    assert!(v.should_finish(true));
    assert!(!v.should_finish(false));
    assert!(v.past_zoom());
}

#[test]
fn race_should_finish_only_in_victory() {
    let mut race = open_race(190 * SCALE, 10 * SCALE);
    assert!(!race.should_finish(true));
    let mut forced = quiet_tick(14 * SCALE);
    forced.force_victory = true;
    race.update(forced);
    assert!(race.should_finish(true));
    assert!(!race.should_finish(false));
}

#[test]
fn startup_keeps_horses_still() {
    let mut race = open_race(190 * SCALE, 10 * SCALE);
    let before = (race.horses[0].pos, race.horses[1].pos);
    race.update(quiet_tick(3 * SCALE));
    assert_eq!(race.horses[0].pos, before.0);
    assert_eq!(race.horses[1].pos, before.1);
}

#[test]
fn countdown_row_and_size() {
    // A banner driven directly: after 6.5 seconds the sprite strip
    // shows row 4, and the banner is a quarter of the screen wide and
    // a twelfth tall.
    let mut c = Countdown {
        pos: Vec2 { x: 320 * SCALE, y: 240 * SCALE },
        size: Vec2 { x: 0, y: 0 },
        direction: 0,
        time: 0,
        row: 0,
    };
    let half_tick: i64 = 6 * SCALE + SCALE / 2;
    c.update(half_tick, 640 * SCALE, 480 * SCALE);
    assert_eq!(c.time, half_tick);
    assert_eq!(c.row, 4);
    assert_eq!(c.size, Vec2 { x: 160 * SCALE, y: 40 * SCALE });
    // Direction 0 moves down-right by 24 px/s scaled by screen/300.
    assert_eq!(c.pos.x, 320 * SCALE + 38168166);
    assert_eq!(c.pos.y, 240 * SCALE + 38168166);
    assert_eq!(c.direction, 0);
}

#[test]
fn countdown_bounces_at_edges() {
    // A banner stuck at the left edge is nudged back inside and cycles
    // its direction.
    let mut c = Countdown {
        pos: Vec2 { x: 0, y: 240 * SCALE },
        size: Vec2 { x: 0, y: 0 },
        direction: 3,
        time: 0,
        row: 0,
    };
    c.update(0, 640 * SCALE, 480 * SCALE);
    assert_eq!(c.direction, 0);
    assert_eq!(c.pos, Vec2 { x: SCALE, y: 240 * SCALE });
}

#[test]
fn parse_time_formats_clock() {
    assert_eq!(parse_time(5472256), vec![48, 49, 58, 50, 51, 46, 53, 48]);
    assert_eq!(parse_time(0), vec![48, 48, 58, 48, 48, 46, 48, 48]);
}
