//! The activation gate and bounce animation: the state machine run once per
//! tick.
//!
//! Each tick the selector proposes a candidate expression. A candidate whose
//! threshold differs from the active expression's starts (or continues) a
//! pending switch, during which elapsed time accumulates; the switch is
//! committed once the active expression's release time and the candidate's
//! attack time have both passed. Once committed, the active expression's
//! bounce is played, one frame-rate-dependent step per tick.
//!
//! With no active expression, or with one that has since been removed from
//! the catalog, a candidate's waiting time accumulates as for any pending
//! switch, so that a first expression with an attack time can still become
//! active.
//!
//! A commit sets the `latched` flag, also when it needed no waiting time;
//! the flag stops the same switch from being committed again on every tick
//! and lets the bounce play. The bounce curve keeps the squared peak speed
//! of `2 (1 - t) t max_velocity^2`.

use vstd::prelude::*;
use crate::catalog::{find_id, ids_unique, lemma_find_unique, position_of_id};
use crate::expression::Expression;
use crate::motion::{bounce_velocity, interpolate_velocity};
use crate::selector::{select_expression, selection};

verus! {

/// Nanoseconds in a millisecond.
pub const NANOS_PER_MILLI: u128 = 1_000_000;

/// Nanoseconds in a second.
pub const NANOS_PER_SECOND: u128 = 1_000_000_000;

/// The state of the activation gate and of the bounce animation.
#[derive(Clone, Copy, Debug, PartialEq, Eq, Structural)]
pub struct Engine {
    /// The id of the expression on display.
    pub active: Option<u64>,
    /// Time that the pending switch has been waiting, in nanoseconds.
    pub pending_elapsed_ns: u128,
    /// Set when a switch is committed; cleared when a new one starts pending.
    pub latched: bool,
    /// Progress through the active expression's bounce.
    pub frame_counter: u32,
    /// The current vertical offset, in ten-thousandths of a pixel.
    pub velocity: u64,
    /// Peak speed of the active bounce, in hundredths of a pixel.
    pub max_velocity: u32,
    /// Length of the active bounce in frames.
    pub max_frames: u32,
}

/// What one tick reports to the renderer.
#[derive(Clone, Copy, Debug, PartialEq, Eq, Structural)]
pub struct TickResult {
    pub active_expression: Option<u64>,
    /// The avatar's vertical offset, in ten-thousandths of a pixel.
    pub vertical_offset: u64,
    pub needs_redraw: bool,
}

/// `ms` milliseconds in nanoseconds.
pub open spec fn ms_to_ns(ms: u64) -> int {
    ms as int * NANOS_PER_MILLI as int
}

/// `a + b`, held at `u128::MAX`.
pub open spec fn saturating_sum(a: u128, b: u128) -> u128 {
    if a + b > u128::MAX {
        u128::MAX
    } else {
        (a + b) as u128
    }
}

/// The frames that a tick of `dt` nanoseconds adds to a bounce: the frame
/// rate implied by the tick's length, `1 s / dt`, rounded to the nearest
/// integer (halves up). A tick of no length adds none.
pub open spec fn frame_step(dt: int) -> int {
    if dt <= 0 {
        0
    } else {
        (2 * NANOS_PER_SECOND as int + dt) / (2 * dt)
    }
}

/// The active expression as found in `s` by its id; `None` where there is
/// none or it has been removed from the catalog.
pub open spec fn active_in(e: Engine, s: Seq<Expression>) -> Option<Expression> {
    match e.active {
        None => None,
        Some(id) => match find_id(s, id) {
            None => None,
            Some(i) => Some(s[i]),
        },
    }
}

/// Whether candidate `c` would replace the shown expression `a`: there is
/// none, or their thresholds differ.
pub open spec fn is_switch(a: Option<Expression>, c: Expression) -> bool {
    match a {
        None => true,
        Some(x) => x.threshold != c.threshold,
    }
}

/// The state after accounting for a tick of `dt` with candidate `c`: a
/// pending switch accumulates time and stops any bounce; a committed
/// expression that is still the candidate has nothing pending.
pub open spec fn account(e: Engine, a: Option<Expression>, c: Expression, dt: u128) -> Engine {
    if is_switch(a, c) {
        Engine {
            pending_elapsed_ns: saturating_sum(e.pending_elapsed_ns, dt),
            latched: false,
            frame_counter: 0,
            velocity: 0,
            ..e
        }
    } else if e.latched {
        Engine { pending_elapsed_ns: 0, ..e }
    } else {
        e
    }
}

/// Whether candidate `c` becomes active: the shown expression's release
/// time has passed (or nothing is to be released), the candidate's attack
/// time has passed, and no switch has been committed since the last one
/// started pending.
pub open spec fn may_commit(e: Engine, a: Option<Expression>, c: Expression) -> bool {
    &&& !e.latched
    &&& match a {
        None => true,
        Some(x) => x.threshold == c.threshold || ms_to_ns(x.release_ms)
            <= e.pending_elapsed_ns,
    }
    &&& ms_to_ns(c.attack_ms) <= e.pending_elapsed_ns
}

/// The state once `c` has been made active.
pub open spec fn commit(e: Engine, c: Expression) -> Engine {
    Engine {
        active: Some(c.id),
        latched: true,
        pending_elapsed_ns: 0,
        max_velocity: if c.has_bounce() {
            c.max_velocity
        } else {
            0
        },
        max_frames: if c.has_bounce() {
            c.total_frames
        } else {
            0
        },
        ..e
    }
}

/// Whether the bounce of the shown expression `b` moves on this tick.
pub open spec fn may_advance(e: Engine, b: Option<Expression>) -> bool {
    &&& e.latched
    &&& b matches Some(x) && x.has_bounce()
    &&& e.frame_counter < e.max_frames
}

/// The state once the bounce has moved on by one tick of `dt`.
pub open spec fn advance(e: Engine, dt: u128) -> Engine {
    let f = if e.frame_counter + frame_step(dt as int) > e.max_frames {
        e.max_frames as int
    } else {
        e.frame_counter + frame_step(dt as int)
    };
    Engine {
        frame_counter: f as u32,
        velocity: bounce_velocity(e.max_velocity as int, f, e.max_frames as int) as u64,
        ..e
    }
}

/// One tick: the state after a tick of `dt` nanoseconds at audio level
/// `level` over the catalog `s`, and what the tick reports. Where `level` is
/// below every threshold nothing changes.
pub open spec fn step(e: Engine, s: Seq<Expression>, level: int, dt: u128) -> (Engine, TickResult) {
    match selection(s, level) {
        None => (
            e,
            TickResult {
                active_expression: e.active,
                vertical_offset: e.velocity,
                needs_redraw: false,
            },
        ),
        Some(ci) => {
            let c = s[ci];
            let a = active_in(e, s);
            let e1 = account(e, a, c, dt);
            let committed = may_commit(e1, a, c);
            let e2 = if committed {
                commit(e1, c)
            } else {
                e1
            };
            let shown = if committed {
                Some(c)
            } else {
                a
            };
            let advanced = may_advance(e2, shown);
            let e3 = if advanced {
                advance(e2, dt)
            } else {
                e2
            };
            (
                e3,
                TickResult {
                    active_expression: e3.active,
                    vertical_offset: e3.velocity,
                    needs_redraw: committed || advanced,
                },
            )
        },
    }
}

impl Engine {
    /// The bounce never runs past its last frame, and the offset is the
    /// bounce curve's value at the current frame; before a switch is
    /// committed no bounce has started.
    pub open spec fn wf(&self) -> bool {
        &&& self.frame_counter <= self.max_frames
        &&& !self.latched ==> self.frame_counter == 0
        &&& self.velocity == bounce_velocity(
            self.max_velocity as int,
            self.frame_counter as int,
            self.max_frames as int,
        )
    }

    /// The state before the first tick: nothing active, nothing pending.
    pub open spec fn initial() -> Engine {
        Engine {
            active: None,
            pending_elapsed_ns: 0,
            latched: false,
            frame_counter: 0,
            velocity: 0,
            max_velocity: 0,
            max_frames: 0,
        }
    }

    /// A gate with nothing active and nothing pending.
    pub fn new() -> (e: Engine)
        ensures
            e == Engine::initial(),
            e.wf(),
    {
        proof {
            crate::motion::lemma_velocity_zero_at_start(0, 0);
        }
        Engine {
            active: None,
            pending_elapsed_ns: 0,
            latched: false,
            frame_counter: 0,
            velocity: 0,
            max_velocity: 0,
            max_frames: 0,
        }
    }
}

fn frames_for_tick(dt: u128) -> (r: u64)
    ensures
        r == frame_step(dt as int),
        r <= NANOS_PER_SECOND,
{
    if dt == 0 {
        return 0;
    }
    if dt > 2 * NANOS_PER_SECOND {
        assert((2 * NANOS_PER_SECOND as int + dt) / (2 * dt) == 0) by (nonlinear_arith)
            requires
                dt > 2 * NANOS_PER_SECOND as int,
        ;
        return 0;
    }
    let r = (2 * NANOS_PER_SECOND + dt) / (2 * dt);
    assert(r <= NANOS_PER_SECOND) by (nonlinear_arith)
        requires
            dt >= 1,
            r == (2 * NANOS_PER_SECOND as int + dt) / (2 * dt),
    ;
    r as u64
}

impl Engine {
    /// Runs one tick of `dt_ns` nanoseconds at audio level `level` over the
    /// catalog `catalog`: selects the candidate, updates the activation gate and the
    /// bounce, and reports the active expression, the vertical offset and
    /// whether anything visible changed.
    pub fn tick(&mut self, catalog: &Vec<Expression>, level: i64, dt_ns: u128) -> (r: TickResult)
        requires
            old(self).wf(),
        ensures
            final(self).wf(),
            (*final(self), r) == step(*old(self), catalog@, level as int, dt_ns),
    {
        let ghost s = catalog@;
        let pick = select_expression(catalog, level);
        let ci = match pick {
            None => {
                return TickResult {
                    active_expression: self.active,
                    vertical_offset: self.velocity,
                    needs_redraw: false,
                };
            },
            Some(i) => i,
        };
        let c = &catalog[ci];
        let shown_at: Option<usize> = match self.active {
            None => None,
            Some(id) => position_of_id(catalog, id),
        };
        let ghost a = active_in(*old(self), s);
        assert(shown_at matches Some(i) ==> a == Some(s[i as int]));
        assert(shown_at is None ==> a is None);

        let switching = match shown_at {
            None => true,
            Some(ai) => catalog[ai].threshold != c.threshold,
        };
        if switching {
            self.pending_elapsed_ns = self.pending_elapsed_ns.saturating_add(dt_ns);
            self.latched = false;
            self.frame_counter = 0;
            self.velocity = 0;
            proof {
                crate::motion::lemma_velocity_zero_at_start(
                    self.max_velocity as int,
                    self.max_frames as int,
                );
            }
        } else if self.latched {
            self.pending_elapsed_ns = 0;
        }
        let ghost e1 = *self;
        assert(e1 == account(*old(self), a, *c, dt_ns));

        let release_ok = match shown_at {
            None => true,
            Some(ai) => catalog[ai].threshold == c.threshold || (catalog[ai].release_ms as u128)
                * NANOS_PER_MILLI <= self.pending_elapsed_ns,
        };
        let attack_ok = (c.attack_ms as u128) * NANOS_PER_MILLI <= self.pending_elapsed_ns;
        let committed = !self.latched && release_ok && attack_ok;
        if committed {
            let bounces = c.bounces();
            self.active = Some(c.id);
            self.latched = true;
            self.pending_elapsed_ns = 0;
            self.max_velocity = if bounces {
                c.max_velocity
            } else {
                0
            };
            self.max_frames = if bounces {
                c.total_frames
            } else {
                0
            };
            proof {
                crate::motion::lemma_velocity_zero_at_start(
                    self.max_velocity as int,
                    self.max_frames as int,
                );
            }
        }
        let shown_bounces = if committed {
            c.bounces()
        } else {
            match shown_at {
                None => false,
                Some(ai) => catalog[ai].bounces(),
            }
        };
        let advanced = self.latched && shown_bounces && self.frame_counter < self.max_frames;
        if advanced {
            let next = self.frame_counter as u64 + frames_for_tick(dt_ns);
            let f: u32 = if next > self.max_frames as u64 {
                self.max_frames
            } else {
                next as u32
            };
            self.frame_counter = f;
            self.velocity = interpolate_velocity(self.max_velocity, f, self.max_frames);
        }
        TickResult {
            active_expression: self.active,
            vertical_offset: self.velocity,
            needs_redraw: committed || advanced,
        }
    }
}

} // verus!
