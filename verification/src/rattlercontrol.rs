//! The rattle: the light strand on the solid state relay flashes faster the closer a
//! visitor gets, and stays on when nobody is near or someone is right at the table.
//!
//! The controller decides; the caller drives the relay pin with the level it returns.

use vstd::prelude::*;

verus! {

/// A level to drive the relay pin to.
#[derive(Clone, Copy, Debug, PartialEq, Eq, Structural)]
pub enum PinLevel {
    High,
    Low,
}

/// What a `RattleControl` holds: ticks per flip (`-1` and `0` are solid), ticks counted
/// since the last flip, and the lamp phase.
#[derive(Clone, Copy, Debug, PartialEq, Eq, Structural)]
pub struct RattleState {
    pub freq: i8,
    pub delay: i8,
    pub is_lit: bool,
}

/// The tick counter never runs past the flip count, and stays at zero when solid.
pub open spec fn rattle_wf(s: RattleState) -> bool {
    &&& 0 <= s.delay
    &&& s.freq > 0 ==> s.delay < s.freq
    &&& s.freq <= 0 ==> s.delay == 0
}

/// Ticks per flip for a distance: right at the table (0..=5 in) solid, close (6..=15)
/// every tick, approaching (16..=36) every fifth tick, otherwise (or no one) solid.
pub open spec fn rattle_freq(inches_to_target: Option<u8>) -> i8 {
    match inches_to_target {
        Some(d) => if d <= 5 {
            0
        } else if d <= 15 {
            1
        } else if d <= 36 {
            5
        } else {
            -1i8
        },
        None => -1i8,
    }
}

/// A new distance: when the flip count changes, restart the count, and peg the relay
/// high for the solid counts.
pub open spec fn set_distance(s: RattleState, inches_to_target: Option<u8>) -> (
    RattleState,
    Option<PinLevel>,
) {
    let f = rattle_freq(inches_to_target);
    if f != s.freq {
        (
            RattleState { freq: f, delay: 0, is_lit: s.is_lit },
            if f == -1 || f == 0 {
                Some(PinLevel::High)
            } else {
                None
            },
        )
    } else {
        (s, None)
    }
}

/// One tick: when flashing, count; on reaching the flip count drive the relay by the lamp
/// phase, flip the phase and restart the count.
pub open spec fn tick(s: RattleState) -> (RattleState, Option<PinLevel>) {
    if s.freq > 0 && s.delay != s.freq {
        if s.delay + 1 == s.freq {
            (
                RattleState { freq: s.freq, delay: 0, is_lit: !s.is_lit },
                Some(
                    if s.is_lit {
                        PinLevel::High
                    } else {
                        PinLevel::Low
                    },
                ),
            )
        } else {
            (RattleState { freq: s.freq, delay: (s.delay + 1) as i8, is_lit: s.is_lit }, None)
        }
    } else {
        (s, None)
    }
}

/// The state after `n` ticks.
pub open spec fn ticks(s: RattleState, n: nat) -> RattleState
    decreases n,
{
    if n == 0 {
        s
    } else {
        tick(ticks(s, (n - 1) as nat)).0
    }
}

/// The levels driven during `n` ticks, one entry per tick.
pub open spec fn tick_outputs(s: RattleState, n: nat) -> Seq<Option<PinLevel>>
    decreases n,
{
    if n == 0 {
        Seq::empty()
    } else {
        tick_outputs(s, (n - 1) as nat).push(tick(ticks(s, (n - 1) as nat)).1)
    }
}

/// Every step keeps the controller well formed.
pub proof fn lemma_steps_keep_wf(s: RattleState, d: Option<u8>)
    requires
        rattle_wf(s),
    ensures
        rattle_wf(tick(s).0),
        rattle_wf(set_distance(s, d).0),
{
}

/// The law of the solid states: with a flip count of `-1` or `0` the relay is never
/// driven and the controller does not change, however often it ticks.
pub proof fn lemma_solid_never_flips(s: RattleState, n: nat)
    requires
        s.freq <= 0,
    ensures
        ticks(s, n) == s,
        tick_outputs(s, n) == Seq::new(n, |i: int| None::<PinLevel>),
    decreases n,
{
    if n > 0 {
        lemma_solid_never_flips(s, (n - 1) as nat);
        assert(tick_outputs(s, n) =~= Seq::new(n, |i: int| None::<PinLevel>));
    } else {
        assert(tick_outputs(s, n) =~= Seq::new(n, |i: int| None::<PinLevel>));
    }
}

/// Ticking `a` times, then `b` times, is ticking `a + b` times.
pub proof fn lemma_ticks_compose(s: RattleState, a: nat, b: nat)
    ensures
        ticks(s, a + b) == ticks(ticks(s, a), b),
        tick_outputs(s, a + b) == tick_outputs(s, a) + tick_outputs(ticks(s, a), b),
    decreases b,
{
    if b == 0 {
        assert(tick_outputs(s, a) + tick_outputs(ticks(s, a), 0) =~= tick_outputs(s, a));
    } else {
        lemma_ticks_compose(s, a, (b - 1) as nat);
        assert((a + b - 1) as nat == a + (b - 1) as nat);
        assert(tick_outputs(s, a + b) =~= tick_outputs(s, a) + tick_outputs(ticks(s, a), b));
    }
}

/// While counting up to the flip count, the counter advances and nothing is driven.
proof fn lemma_counting(s: RattleState, k: nat)
    requires
        rattle_wf(s),
        s.freq > 0,
        s.delay + k < s.freq,
    ensures
        ticks(s, k) == (RattleState { freq: s.freq, delay: (s.delay + k) as i8, is_lit: s.is_lit }),
        tick_outputs(s, k) == Seq::new(k, |i: int| None::<PinLevel>),
    decreases k,
{
    if k > 0 {
        lemma_counting(s, (k - 1) as nat);
        assert(tick_outputs(s, k) =~= Seq::new(k, |i: int| None::<PinLevel>));
    } else {
        assert(tick_outputs(s, k) =~= Seq::new(k, |i: int| None::<PinLevel>));
    }
}

/// The level a flip drives the relay to: high from the lit phase, low otherwise.
pub open spec fn flip_level(is_lit: bool) -> PinLevel {
    if is_lit {
        PinLevel::High
    } else {
        PinLevel::Low
    }
}

/// The law of the flashing: from any count below the flip count, `freq` ticks drive the
/// relay exactly once, by the lamp phase, when the count comes round; afterwards the phase
/// has flipped and the count is back where it started. So the lights change every `freq`
/// ticks, alternating high and low.
pub proof fn lemma_flash_period(s: RattleState)
    requires
        rattle_wf(s),
        s.freq > 0,
    ensures
        ticks(s, s.freq as nat) == (RattleState {
            freq: s.freq,
            delay: s.delay,
            is_lit: !s.is_lit,
        }),
        tick_outputs(s, s.freq as nat) == Seq::new(
            s.freq as nat,
            |i: int|
                if i == s.freq - s.delay - 1 {
                    Some(flip_level(s.is_lit))
                } else {
                    None::<PinLevel>
                },
        ),
{
    let f = s.freq as nat;
    let d = s.delay as nat;
    let a = (f - d - 1) as nat;
    // Count up to the last tick before the flip.
    lemma_counting(s, a);
    let s1 = ticks(s, a);
    // The flip.
    let s2 = RattleState { freq: s.freq, delay: 0, is_lit: !s.is_lit };
    assert(s1.delay + 1 == s1.freq);
    assert(ticks(s1, 0) == s1);
    assert(tick_outputs(s1, 0) =~= Seq::<Option<PinLevel>>::empty());
    assert(tick(s1) == (s2, Some(flip_level(s.is_lit))));
    assert(ticks(s1, 1) == s2);
    assert(tick_outputs(s1, 1) =~= seq![Some(flip_level(s.is_lit))]);
    lemma_ticks_compose(s, a, 1);
    // Count back up to the starting count.
    lemma_counting(s2, d);
    lemma_ticks_compose(s, a + 1, d);
    assert(a + 1 + d == f);
    assert(tick_outputs(s, f) =~= Seq::new(
        f,
        |i: int|
            if i == s.freq - s.delay - 1 {
                Some(flip_level(s.is_lit))
            } else {
                None::<PinLevel>
            },
    ));
}

/// The law of the lamp phase: a distance reading never changes the phase; a tick flips
/// it exactly when it drives the relay, driving High from the lit phase and Low otherwise.
/// So the levels the relay is driven to by flips alternate High and Low, across band
/// changes too.
pub proof fn lemma_phase_alternates(s: RattleState, d: Option<u8>)
    ensures
        set_distance(s, d).0.is_lit == s.is_lit,
        set_distance(s, d).1 is Some ==> set_distance(s, d).1 == Some(PinLevel::High),
        tick(s).1 is Some ==> tick(s).1 == Some(if s.is_lit { PinLevel::High } else { PinLevel::Low })
            && tick(s).0.is_lit == !s.is_lit,
        tick(s).1 is None ==> tick(s).0.is_lit == s.is_lit,
{
}

/// The law of the distance bands, for any well-formed controller and reading `d` inches:
/// - right at the table (`d <= 5`), or beyond 36 inches: the lights go solid; they are
///   never driven again by ticks, and if they were flashing the relay is pegged High;
/// - close (6 to 15 inches): every tick flips the lights;
/// - approaching (16 to 36 inches): entering the band restarts the count, so the fifth
///   tick, and none before it, flips the lights.
/// No reading (`None`) is handled as far away.
pub proof fn lemma_distance_bands(s: RattleState, d: u8, n: nat)
    requires
        rattle_wf(s),
    ensures
        ({
            let (t, level) = set_distance(s, Some(d));
            &&& (d <= 5 || d > 36) ==> {
                &&& ticks(t, n) == t
                &&& tick_outputs(t, n) == Seq::new(n, |i: int| None::<PinLevel>)
                &&& (s.freq > 0 ==> level == Some(PinLevel::High))
            }
            &&& (6 <= d <= 15) ==> tick(t).1 == Some(
                if t.is_lit {
                    PinLevel::High
                } else {
                    PinLevel::Low
                },
            ) && level is None
            &&& (16 <= d <= 36) ==> level is None && (s.freq != 5 ==> tick_outputs(t, 5) == seq![
                None,
                None,
                None,
                None,
                Some(
                    if s.is_lit {
                        PinLevel::High
                    } else {
                        PinLevel::Low
                    },
                ),
            ])
        }),
        ({
            let (t, level) = set_distance(s, None);
            &&& ticks(t, n) == t
            &&& tick_outputs(t, n) == Seq::new(n, |i: int| None::<PinLevel>)
            &&& (s.freq > 0 ==> level == Some(PinLevel::High))
        }),
{
    let (t, level) = set_distance(s, Some(d));
    lemma_steps_keep_wf(s, Some(d));
    lemma_steps_keep_wf(s, None);
    if d <= 5 || d > 36 {
        lemma_solid_never_flips(t, n);
    }
    if 16 <= d <= 36 && s.freq != 5 {
        assert(t == RattleState { freq: 5, delay: 0, is_lit: s.is_lit });
        lemma_flash_period(t);
        assert(tick_outputs(t, 5) =~= seq![
            None,
            None,
            None,
            None,
            Some(
                if s.is_lit {
                    PinLevel::High
                } else {
                    PinLevel::Low
                },
            ),
        ]);
    }
    lemma_solid_never_flips(set_distance(s, None).0, n);
}

/// The law of repeated readings: a second reading in the same distance band changes
/// nothing and drives nothing, so the flashing keeps its rhythm.
pub proof fn lemma_same_band_keeps_rhythm(s: RattleState, d1: Option<u8>, d2: Option<u8>)
    requires
        rattle_freq(d1) == rattle_freq(d2),
    ensures
        set_distance(set_distance(s, d1).0, d2) == (set_distance(s, d1).0, None::<PinLevel>),
{
}

pub struct RattleControl {
    freq: i8,
    delay: i8,
    is_lit: bool,
}

impl View for RattleControl {
    type V = RattleState;

    closed spec fn view(&self) -> RattleState {
        RattleState { freq: self.freq, delay: self.delay, is_lit: self.is_lit }
    }
}

impl RattleControl {
    #[verifier::type_invariant]
    spec fn inv(self) -> bool {
        rattle_wf(self@)
    }

    /// A controller with the lights solid on; the relay is to be driven high.
    pub fn new() -> (r: (RattleControl, PinLevel))
        ensures
            r.0@ == (RattleState { freq: -1i8, delay: 0, is_lit: true }),
            r.1 == PinLevel::High,
    {
        (RattleControl { freq: -1, delay: 0, is_lit: true }, PinLevel::High)
    }

    /// Take a new distance reading (`None`: no one there). Returns the level to drive the
    /// relay to, if any.
    pub fn set_distance_as_inches(&mut self, inches_to_target: Option<u8>) -> (level: Option<
        PinLevel,
    >)
        ensures
            (final(self)@, level) == set_distance(old(self)@, inches_to_target),
            rattle_wf(final(self)@),
    {
        proof {
            use_type_invariant(&*self);
        }
        // Calculate the frequency we should be oscillating the christmas lights
        let current_freq: i8 = match inches_to_target {
            Some(d) => if d <= 5 {
                0
            } else if d <= 15 {
                1
            } else if d <= 36 {
                5
            } else {
                -1
            },
            None => -1i8,
        };

        // If they are 0 or -1 then we can just peg it and not have to set it every time.
        let mut level: Option<PinLevel> = None;
        if current_freq != self.freq {
            let is_lit = self.is_lit;
            // Reset the delay so it starts fresh
            *self = RattleControl { freq: current_freq, delay: 0, is_lit };
            if current_freq == -1 || current_freq == 0 {
                level = Some(PinLevel::High);
            }
        }
        level
    }

    /// One pass of the main loop: flip the lights when the count comes round. Returns the
    /// level to drive the relay to, if any.
    pub fn next_maybe_rattle(&mut self) -> (level: Option<PinLevel>)
        ensures
            (final(self)@, level) == tick(old(self)@),
            rattle_wf(final(self)@),
    {
        proof {
            use_type_invariant(&*self);
        }
        let mut level: Option<PinLevel> = None;
        // Based on the count of times being called flip the lights but only if it is
        // not 0 or -1 which are solid values
        if self.freq > 0 && self.delay != self.freq {
            let freq = self.freq;
            let delay = self.delay + 1;
            if delay == freq {
                level = Some(
                    if self.is_lit {
                        PinLevel::High
                    } else {
                        PinLevel::Low
                    },
                );
                let is_lit = !self.is_lit;
                *self = RattleControl { freq, delay: 0, is_lit };
            } else {
                let is_lit = self.is_lit;
                *self = RattleControl { freq, delay, is_lit };
            }
        }
        level
    }
}

} // verus!
