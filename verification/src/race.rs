//! The race state machine.
//!
//! A race owns the arena mask, the horse roster, the target and the
//! current phase: Startup (countdown, gated by an audio cue), Racing
//! (the simulation proper) or Victory (the winner's sequence).  One call
//! to [`Race::update`] is one simulation tick.  All outside signals come
//! in as plain values: the elapsed frame time, whether the startup audio
//! has finished, whether a debug shortcut forces the race to end, and
//! the screen size for the countdown banner; the returned events tell
//! the caller which collision sounds to fire and whether a victory
//! sequence has just begun.

use crate::arena::Arena;
use crate::data::GateData;
use crate::horse::Horse;
use crate::horse::JITTER_MAX;
use crate::horse::bounce_heading;
use crate::horse::carrot_hit;
use crate::horse::moved_coord;
use crate::horse::ne_spec;
use crate::horse::peer_hit;
use crate::horse::speed_after;
use crate::horse::wall_hit;
use crate::mask::NO_COLLISION;
use crate::mask::fuse_collisions;
use crate::mask::nth_bit;
use crate::num::ELAPSED_MAX;
use crate::num::SCALE;
use crate::num::TIME_CAP;
use crate::num::clamp_spec;
use crate::startup::Startup;
use crate::startup::cd_after_bounce;
use crate::startup::cd_after_size;
use crate::startup::cd_after_source;
use crate::vec2::COORD_LIMIT;
use crate::vec2::Vec2;
use crate::vec2::coords_within;
use crate::victory::Carrots;
use crate::victory::Victory;
use vstd::prelude::*;

verus! {

/// The race's current stage; exactly one is active at a time.
pub enum Phase {
    Startup(Startup),
    Racing,
    Victory(Victory),
}

/// The outside signals one tick consumes.
pub struct TickInput {
    /// Wall-clock time since the previous tick, in fixed-point seconds.
    pub elapsed: i64,
    /// Whether the starting-gate sound is done playing.
    pub startup_audio_done: bool,
    /// Debug shortcut: short-circuit straight to Victory.
    pub force_victory: bool,
    /// Screen width in fixed-point pixels, for the countdown banner.
    pub screen_w: i64,
    /// Screen height in fixed-point pixels.
    pub screen_h: i64,
}

/// What one tick asks of the caller.
pub struct TickEvents {
    /// A victory sequence has just begun: capture the frame and start
    /// the winner's music.
    pub victory_started: bool,
    /// How many agents bounced: fire that many collision sounds.
    pub bounces: usize,
}

/// Probe direction `b` of agent `h` is blocked by a wall or a peer.
pub open spec fn probe_blocked(h: Horse, hs: Seq<Horse>, arena: Arena, b: u8) -> bool {
    wall_hit(h, arena, b as int) || peer_hit(h, hs, b as int)
}

/// The fused wall-and-peer collision mask of agent `h`, over its first
/// `k` probe directions: bit `b` is set exactly when probe `b` is
/// blocked.
pub open spec fn collision_mask(h: Horse, hs: Seq<Horse>, arena: Arena, k: int) -> u8
    decreases k,
{
    if k <= 0 {
        0u8
    } else {
        collision_mask(h, hs, arena, k - 1) | (if probe_blocked(h, hs, arena, (k - 1) as u8) {
            1u8 << ((k - 1) as u8)
        } else {
            0u8
        })
    }
}

/// Bit `b` of `collision_mask(h, hs, arena, k)` is set exactly when
/// `b < k` and probe `b` is blocked.
pub proof fn lemma_collision_mask_bits(h: Horse, hs: Seq<Horse>, arena: Arena, k: int)
    requires
        0 <= k <= 8,
    ensures
        forall|b: u8|
            b < 8 ==> #[trigger] nth_bit(collision_mask(h, hs, arena, k), b) == (b < k
                && probe_blocked(h, hs, arena, b)),
    decreases k,
{
    if k == 0 {
        assert forall|b: u8| b < 8 implies #[trigger] nth_bit(collision_mask(h, hs, arena, k), b)
            == (b < k && probe_blocked(h, hs, arena, b)) by {
            assert(collision_mask(h, hs, arena, k) == 0u8);
            assert(((0u8 >> b) & 1) != 1) by (bit_vector);
        }
    } else {
        lemma_collision_mask_bits(h, hs, arena, k - 1);
        let m0 = collision_mask(h, hs, arena, k - 1);
        let i: u8 = (k - 1) as u8;
        if probe_blocked(h, hs, arena, i) {
            crate::mask::lemma_or_bit(m0, i);
        } else {
            crate::mask::lemma_or_zero(m0);
        }
        assert forall|b: u8| b < 8 implies #[trigger] nth_bit(collision_mask(h, hs, arena, k), b)
            == (b < k && probe_blocked(h, hs, arena, b)) by {
            assert(nth_bit(m0, b) == (b < k - 1 && probe_blocked(h, hs, arena, b)));
            if probe_blocked(h, hs, arena, i) {
                assert(nth_bit(m0 | (1u8 << i), b) == (nth_bit(m0, b) || b == i));
            }
        }
    }
}

/// Some probe direction of `h` is blocked: `h` bounces this tick.
pub open spec fn has_collision(h: Horse, hs: Seq<Horse>, arena: Arena) -> bool {
    exists|b: u8| b < 8 && probe_blocked(h, hs, arena, b)
}

/// How many of the first `k` agents bounce this tick.
pub open spec fn bounce_count(hs: Seq<Horse>, arena: Arena, k: int) -> int
    decreases k,
{
    if k <= 0 {
        0int
    } else {
        bounce_count(hs, arena, k - 1) + if has_collision(hs[k - 1], hs, arena) {
            1int
        } else {
            0int
        }
    }
}

/// An agent after its motion update, before any bounce.
pub open spec fn moved_horse(h: Horse, e: int) -> Horse {
    Horse {
        pos: Vec2 {
            x: moved_coord(h.pos.x as int, h.dir.x as int, h.speed as int, ne_spec(e)) as i64,
            y: moved_coord(h.pos.y as int, h.dir.y as int, h.speed as int, ne_spec(e)) as i64,
        },
        speed: speed_after(h.speed as int, ne_spec(e)) as i64,
        ..h
    }
}

/// How one agent changes in one Racing tick, given its fused collision
/// mask `m`: it always takes its motion update; with an empty mask that
/// is all, and with a non-empty mask it then bounces — the new heading
/// is `bounce_heading` of the mask under some jitter within range, and
/// the new speed is a value in `[1, 2]`.
pub open spec fn horse_stepped(h0: Horse, h1: Horse, m: u8, e: int) -> bool {
    let hm = moved_horse(h0, e);
    if m == 0 {
        h1 == hm
    } else {
        &&& h1.pos == hm.pos
        &&& h1.win_data == hm.win_data
        &&& SCALE <= h1.speed <= 2 * SCALE
        &&& exists|jx: int, jy: int|
            -JITTER_MAX <= jx <= JITTER_MAX && -JITTER_MAX <= jy <= JITTER_MAX && h1.dir
                == bounce_heading(m, jx, jy, hm.dir)
    }
}

/// Every agent of the new roster `hs1` is its counterpart of the
/// starting snapshot `hs0`, stepped by one Racing tick under its fused
/// collision mask.
pub open spec fn roster_stepped(hs0: Seq<Horse>, hs1: Seq<Horse>, arena: Arena, e: int) -> bool {
    forall|i: int|
        #![trigger hs1[i]]
        0 <= i < hs0.len() ==> horse_stepped(
            hs0[i],
            hs1[i],
            collision_mask(hs0[i], hs0, arena, 8),
            e,
        )
}

/// One race.
pub struct Race {
    pub time: i64,
    pub foreground: Arena,
    pub horses: Vec<Horse>,
    pub carrots: Carrots,
    pub phase: Phase,
}

impl Race {
    /// Well-formedness: a bounded race timer, a well-formed arena, at
    /// least one well-formed agent, a target in range and a well-formed
    /// phase.
    pub open spec fn wf(self) -> bool {
        &&& 0 <= self.time <= TIME_CAP
        &&& self.foreground.wf()
        &&& self.horses@.len() >= 1
        &&& forall|i: int| 0 <= i < self.horses@.len() ==> self.horses@[i].wf()
        &&& coords_within(self.carrots.pos, COORD_LIMIT as int)
        &&& match self.phase {
            Phase::Startup(s) => s.wf(),
            Phase::Racing => true,
            Phase::Victory(v) => v.wf(),
        }
    }

    /// Build a race over an arena mask, a roster, a gate and a target.
    /// It begins in the Startup phase with the timer at zero.
    pub fn new(
        foreground: Arena,
        horses: Vec<Horse>,
        gate: GateData,
        carrots: Carrots,
        screen_w: i64,
        screen_h: i64,
    ) -> (r: Race)
        requires
            foreground.wf(),
            horses@.len() >= 1,
            forall|i: int| 0 <= i < horses@.len() ==> horses@[i].wf(),
            coords_within(carrots.pos, COORD_LIMIT as int),
            coords_within(gate.start, COORD_LIMIT as int),
            coords_within(gate.end, COORD_LIMIT as int),
            0 <= screen_w <= COORD_LIMIT,
            0 <= screen_h <= COORD_LIMIT,
        ensures
            r.wf(),
            r.time == 0,
            r.horses == horses,
            r.carrots == carrots,
            r.foreground == foreground,
            r.phase is Startup,
            r.phase->Startup_0.gate.pos == gate.start,
            r.phase->Startup_0.gate.size.x == gate.end.x - gate.start.x,
            r.phase->Startup_0.gate.size.y == gate.end.y - gate.start.y,
            r.phase->Startup_0.countdown.time == 0,
    {
        Race {
            time: 0,
            foreground,
            horses,
            carrots,
            phase: Phase::Startup(Startup::new(gate, screen_w, screen_h)),
        }
    }

    /// Skip the Startup phase when asked to: the race then begins its
    /// first tick directly in the Racing phase.
    pub fn skip_intro(&mut self, skip: bool)
        requires
            old(self).wf(),
        ensures
            final(self).wf(),
            skip && old(self).phase is Startup ==> final(self).phase is Racing,
            !(skip && old(self).phase is Startup) ==> final(self).phase == old(self).phase,
            final(self).time == old(self).time,
            final(self).horses == old(self).horses,
            final(self).foreground == old(self).foreground,
            final(self).carrots == old(self).carrots,
    {
        if skip {
            match &self.phase {
                Phase::Startup(_) => {
                    self.phase = Phase::Racing;
                },
                _ => {},
            }
        }
    }

    /// One simulation tick.
    ///
    /// A forced end (the debug shortcut) begins the first agent's
    /// victory sequence at once, unless a victory is already playing.
    /// In Startup only the countdown banner animates and the race timer
    /// is frozen; the phase becomes Racing once the audio cue is done.
    /// In Victory only the victory timer advances; the race timer stays
    /// frozen.  In Racing the race timer advances; every agent's wall
    /// and peer collisions are probed against a snapshot of this tick's
    /// starting positions, each agent takes its motion update and
    /// bounces exactly when its fused mask is non-empty; then the first
    /// agent in roster order touching the target wins, and its victory
    /// sequence begins.
    #[verifier::rlimit(100)]
    pub fn update(&mut self, input: TickInput) -> (ev: TickEvents)
        requires
            old(self).wf(),
            0 <= input.elapsed <= ELAPSED_MAX,
            0 <= input.screen_w <= COORD_LIMIT,
            0 <= input.screen_h <= COORD_LIMIT,
        ensures
            final(self).wf(),
            final(self).foreground == old(self).foreground,
            final(self).carrots == old(self).carrots,
            final(self).horses@.len() == old(self).horses@.len(),
            ({
                let forced = input.force_victory && !(old(self).phase is Victory);
                &&& (forced ==> {
                    &&& final(self).phase is Victory
                    &&& final(self).phase->Victory_0.name == old(self).horses@[0].win_data.name
                    &&& final(self).phase->Victory_0.screen == old(self).horses@[0].win_data.screen
                    &&& final(self).phase->Victory_0.music == old(self).horses@[0].win_data.music
                    &&& final(self).phase->Victory_0.time == clamp_spec(
                        input.elapsed as int,
                        0,
                        TIME_CAP as int,
                    )
                    &&& final(self).time == old(self).time
                    &&& final(self).horses == old(self).horses
                    &&& ev.victory_started
                    &&& ev.bounces == 0
                })
                &&& (!forced && old(self).phase is Startup ==> {
                    &&& final(self).time == old(self).time
                    &&& final(self).horses == old(self).horses
                    &&& (input.startup_audio_done ==> final(self).phase is Racing)
                    &&& (!input.startup_audio_done ==> final(self).phase is Startup && final(self).phase->Startup_0.gate == old(self).phase->Startup_0.gate && final(self).phase->Startup_0.countdown == cd_after_bounce(
                        cd_after_size(
                            cd_after_source(
                                old(self).phase->Startup_0.countdown,
                                input.elapsed as int,
                            ),
                            input.screen_w as int,
                            input.screen_h as int,
                        ),
                        input.elapsed as int,
                        input.screen_w as int,
                        input.screen_h as int,
                    ))
                    &&& !ev.victory_started
                    &&& ev.bounces == 0
                })
                &&& (!forced && old(self).phase is Victory ==> {
                    &&& final(self).phase is Victory
                    &&& final(self).phase->Victory_0.time == clamp_spec(
                        old(self).phase->Victory_0.time + input.elapsed,
                        0,
                        TIME_CAP as int,
                    )
                    &&& final(self).phase->Victory_0.name == old(self).phase->Victory_0.name
                    &&& final(self).phase->Victory_0.screen == old(self).phase->Victory_0.screen
                    &&& final(self).phase->Victory_0.music == old(self).phase->Victory_0.music
                    &&& final(self).time == old(self).time
                    &&& final(self).horses == old(self).horses
                    &&& !ev.victory_started
                    &&& ev.bounces == 0
                })
                &&& (!forced && old(self).phase is Racing ==> {
                    let hs0 = old(self).horses@;
                    let len = hs0.len() as int;
                    &&& final(self).time == clamp_spec(
                        old(self).time + input.elapsed,
                        0,
                        TIME_CAP as int,
                    )
                    &&& roster_stepped(
                        hs0,
                        final(self).horses@,
                        old(self).foreground,
                        input.elapsed as int,
                    )
                    &&& ev.bounces == bounce_count(hs0, old(self).foreground, len)
                    &&& (ev.victory_started <==> exists|i: int|
                        0 <= i < len && carrot_hit(
                            #[trigger] final(self).horses@[i],
                            old(self).carrots,
                        ))
                    &&& (final(self).phase is Victory <==> ev.victory_started)
                    &&& (!ev.victory_started ==> final(self).phase is Racing)
                    &&& (ev.victory_started ==> exists|i: int|
                        {
                            &&& 0 <= i < len
                            &&& carrot_hit(#[trigger] final(self).horses@[i], old(self).carrots)
                            &&& forall|j: int|
                                0 <= j < i ==> !carrot_hit(
                                    #[trigger] final(self).horses@[j],
                                    old(self).carrots,
                                )
                            &&& final(self).phase->Victory_0.name == final(self).horses@[i].win_data.name
                            &&& final(self).phase->Victory_0.screen == final(self).horses@[i].win_data.screen
                            &&& final(self).phase->Victory_0.music == final(self).horses@[i].win_data.music
                            &&& final(self).phase->Victory_0.time == 0
                        })
                })
            }),
    {
        if input.force_victory {
            let already: bool = match &self.phase {
                Phase::Victory(_) => true,
                _ => false,
            };
            if !already {
                let win = self.horses[0].win_data.clone();
                let mut v: Victory = win.into_victory();
                v.update(input.elapsed);
                self.phase = Phase::Victory(v);
                return TickEvents { victory_started: true, bounces: 0 };
            }
        }
        let in_startup: bool = match &self.phase {
            Phase::Startup(_) => true,
            _ => false,
        };
        if in_startup {
            match &mut self.phase {
                Phase::Startup(s) => {
                    s.update(input.elapsed, input.screen_w, input.screen_h);
                },
                _ => {},
            }
            if input.startup_audio_done {
                self.phase = Phase::Racing;
            }
            return TickEvents { victory_started: false, bounces: 0 };
        }
        let in_victory: bool = match &self.phase {
            Phase::Victory(_) => true,
            _ => false,
        };
        if in_victory {
            match &mut self.phase {
                Phase::Victory(v) => {
                    v.update(input.elapsed);
                },
                _ => {},
            }
            return TickEvents { victory_started: false, bounces: 0 };
        }
        let t: i64 = self.time + input.elapsed;
        self.time = if t > TIME_CAP {
            TIME_CAP
        } else {
            t
        };
        let ghost hs0: Seq<Horse> = self.horses@;
        let ghost arena0: Arena = self.foreground;
        let n: usize = self.horses.len();
        let mut masks: Vec<u8> = Vec::new();
        let mut i: usize = 0;
        while i < n
            invariant
                i <= n,
                n == hs0.len(),
                masks@.len() == i as int,
                self.horses@ == hs0,
                self.foreground == arena0,
                self.foreground.wf(),
                forall|k: int| 0 <= k < hs0.len() ==> hs0[k].wf(),
                forall|k: int|
                    0 <= k < i ==> #[trigger] masks@[k] == collision_mask(
                        hs0[k],
                        hs0,
                        arena0,
                        8,
                    ),
            decreases n - i,
        {
            let w: u8 = self.horses[i].collision_wall(&self.foreground);
            let p: u8 = self.horses[i].collision_honses(self.horses.as_slice());
            let m: u8 = fuse_collisions(w, p);
            proof {
                lemma_collision_mask_bits(hs0[i as int], hs0, arena0, 8);
                assert forall|b: u8| b < 8 implies nth_bit(m, b) == nth_bit(
                    collision_mask(hs0[i as int], hs0, arena0, 8),
                    b,
                ) by {
                    assert(nth_bit(m, b) == probe_blocked(hs0[i as int], hs0, arena0, b));
                }
                crate::mask::lemma_mask_ext(m, collision_mask(hs0[i as int], hs0, arena0, 8));
            }
            masks.push(m);
            i = i + 1;
        }
        let mut updated: Vec<Horse> = Vec::new();
        let mut bounces: usize = 0;
        let mut j: usize = 0;
        while j < n
            invariant
                j <= n,
                n == hs0.len(),
                masks@.len() == n as int,
                self.horses@ == hs0,
                self.foreground == arena0,
                self.foreground.wf(),
                0 <= input.elapsed <= ELAPSED_MAX,
                forall|k: int| 0 <= k < hs0.len() ==> hs0[k].wf(),
                forall|k: int|
                    0 <= k < n ==> #[trigger] masks@[k] == collision_mask(
                        hs0[k],
                        hs0,
                        arena0,
                        8,
                    ),
                updated@.len() == j as int,
                forall|k: int|
                    0 <= k < j ==> horse_stepped(
                        hs0[k],
                        #[trigger] updated@[k],
                        masks@[k],
                        input.elapsed as int,
                    ),
                forall|k: int| 0 <= k < j ==> (#[trigger] updated@[k]).wf(),
                bounces <= j,
                bounces as int == bounce_count(hs0, arena0, j as int),
            decreases n - j,
        {
            let mut h: Horse = self.horses[j].clone();
            h.update(input.elapsed);
            proof {
                assert(h == moved_horse(hs0[j as int], input.elapsed as int));
            }
            let m: u8 = masks[j];
            proof {
                lemma_collision_mask_bits(hs0[j as int], hs0, arena0, 8);
            }
            if m != NO_COLLISION {
                h.bounce(m);
                bounces = bounces + 1;
                proof {
                    crate::mask::lemma_empty_mask(m);
                    let b = choose|b: u8| b < 8 && nth_bit(m, b);
                    assert(probe_blocked(hs0[j as int], hs0, arena0, b));
                    assert(has_collision(hs0[j as int], hs0, arena0));
                }
            } else {
                proof {
                    crate::mask::lemma_empty_mask(m);
                    assert forall|b: u8| b < 8 implies !probe_blocked(
                        hs0[j as int],
                        hs0,
                        arena0,
                        b,
                    ) by {
                        assert(!nth_bit(m, b));
                    }
                    assert(!has_collision(hs0[j as int], hs0, arena0));
                }
            }
            updated.push(h);
            j = j + 1;
        }
        proof {
            assert forall|i: int| #![trigger updated@[i]] 0 <= i < hs0.len() implies
                horse_stepped(
                hs0[i],
                updated@[i],
                collision_mask(hs0[i], hs0, arena0, 8),
                input.elapsed as int,
            ) by {
                assert(masks@[i] == collision_mask(hs0[i], hs0, arena0, 8));
                assert(horse_stepped(hs0[i], updated@[i], masks@[i], input.elapsed as int));
            }
            assert(roster_stepped(hs0, updated@, arena0, input.elapsed as int));
        }
        self.horses = updated;
        let mut winner: usize = n;
        let mut k: usize = 0;
        while k < n
            invariant
                k <= n,
                n == self.horses@.len(),
                self.time == clamp_spec(old(self).time + input.elapsed, 0, TIME_CAP as int),
                forall|q: int| 0 <= q < n ==> (#[trigger] self.horses@[q]).wf(),
                coords_within(self.carrots.pos, COORD_LIMIT as int),
                winner == n || 0 <= winner < k,
                winner == n ==> forall|q: int|
                    0 <= q < k ==> !carrot_hit(#[trigger] self.horses@[q], self.carrots),
                winner < n ==> carrot_hit(self.horses@[winner as int], self.carrots) && forall|
                    q: int,
                |
                    0 <= q < winner ==> !carrot_hit(#[trigger] self.horses@[q], self.carrots),
            decreases n - k,
        {
            if winner == n {
                let hit: bool = self.horses[k].collision_carrots(&self.carrots);
                if hit {
                    winner = k;
                }
            }
            k = k + 1;
        }
        let ev: TickEvents = if winner < n {
            let win = self.horses[winner].win_data.clone();
            self.phase = Phase::Victory(win.into_victory());
            TickEvents { victory_started: true, bounces }
        } else {
            TickEvents { victory_started: false, bounces }
        };
        ev
    }

    /// Whether the race is over: the Victory phase is active, its
    /// minimum duration has passed, and the victory music (polled by
    /// the caller) has stopped.
    pub fn should_finish(&self, music_stopped: bool) -> (b: bool)
        ensures
            b == match self.phase {
                Phase::Victory(v) => music_stopped && v.time > crate::victory::FULL_TIME,
                Phase::Startup(_) => false,
                Phase::Racing => false,
            },
    {
        match &self.phase {
            Phase::Victory(v) => v.should_finish(music_stopped),
            _ => false,
        }
    }
}

/// The ASCII digit for `n` (one decimal digit).
pub open spec fn digit_byte(n: int) -> u8 {
    (48 + n) as u8
}

/// The race clock formatted `MM:SS.cc`: minutes (shown up to 99),
/// seconds and centiseconds, all truncated, each two zero-padded
/// digits.
pub open spec fn time_text(time: int) -> Seq<u8> {
    let total = (time * 100) / 65536;
    let minutes = if total / 6000 > 99 {
        99int
    } else {
        total / 6000
    };
    let seconds = (total / 100) % 60;
    let centis = total % 100;
    seq![
        digit_byte(minutes / 10),
        digit_byte(minutes % 10),
        58u8,
        digit_byte(seconds / 10),
        digit_byte(seconds % 10),
        46u8,
        digit_byte(centis / 10),
        digit_byte(centis % 10),
    ]
}

/// Render a race clock as the eight ASCII bytes of `MM:SS.cc`.
pub fn parse_time(time: i64) -> (text: Vec<u8>)
    requires
        0 <= time <= TIME_CAP,
    ensures
        text@ == time_text(time as int),
{
    let total: u64 = (time as u64) * 100 / 65536;
    let m0: u64 = total / 6000;
    let minutes: u64 = if m0 > 99 {
        99
    } else {
        m0
    };
    let seconds: u64 = (total / 100) % 60;
    let centis: u64 = total % 100;
    let text: Vec<u8> = vec![
        48 + (minutes / 10) as u8,
        48 + (minutes % 10) as u8,
        58u8,
        48 + (seconds / 10) as u8,
        48 + (seconds % 10) as u8,
        46u8,
        48 + (centis / 10) as u8,
        48 + (centis % 10) as u8,
    ];
    proof {
        assert(text@ =~= time_text(time as int));
    }
    text
}

} // verus!
