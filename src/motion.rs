use vstd::prelude::*;
use crate::fixed::{SCALE, LIMIT, trunc_div, sat_i64, div_toward_zero, saturate_i64, lemma_mul_bound};
use crate::settings::FpsSettings;
use crate::input::{MovementInput, drained, intent_ok};

verus! {

/// Persistent vertical state of one controller: vertical velocity in
/// micro-units per second, and the microseconds left in which a jump is
/// still accepted.
#[derive(Clone, Copy, Debug, PartialEq, Eq)]
pub struct VerticalMotion {
    pub vertical_velocity: i64,
    pub grounded_timer: i64,
}

/// Desired displacement of one tick in the controller's local frame, in
/// micro-units, before the body's yaw turns it into world space.
#[derive(Clone, Copy, Debug, PartialEq, Eq)]
pub struct Translation {
    pub x: i128,
    pub y: i128,
    pub z: i128,
}

/// An absent grounded signal counts as not grounded.
pub open spec fn grounded_of(g: Option<bool>) -> bool {
    match g {
        Some(b) => b,
        None => false,
    }
}

/// An absent custom mass counts as 1.0.
pub open spec fn mass_of(m: Option<i64>) -> int {
    match m {
        Some(v) => v as int,
        None => SCALE as int,
    }
}

/// A custom mass within the representation's bound (absent counts as 1.0).
pub open spec fn mass_ok(m: Option<i64>) -> bool {
    -LIMIT <= mass_of(m) <= LIMIT
}

/// The jump velocity that the intent asks for: the jump speed when the flag
/// is set, else zero.
pub open spec fn jump_candidate(input: MovementInput, st: FpsSettings) -> int {
    if input.jump { st.jump_speed as int } else { 0 }
}

/// Ground contact re-arms the timer and stops vertical motion.
pub open spec fn ground_check(s: VerticalMotion, grounded: Option<bool>, st: FpsSettings) -> VerticalMotion {
    if grounded_of(grounded) {
        VerticalMotion { vertical_velocity: 0, grounded_timer: st.grounded_tolerance }
    } else {
        s
    }
}

/// While the timer runs it counts down by `dt`; a jump asked for meanwhile
/// sets the velocity to the candidate and spends the timer.
pub open spec fn jump_gate(s: VerticalMotion, candidate: int, dt: int) -> VerticalMotion {
    if s.grounded_timer > 0 {
        if candidate > 0 {
            VerticalMotion { vertical_velocity: candidate as i64, grounded_timer: 0 }
        } else {
            VerticalMotion {
                vertical_velocity: s.vertical_velocity,
                grounded_timer: (s.grounded_timer - dt) as i64,
            }
        }
    } else {
        s
    }
}

/// Velocity change that gravity brings in `dt`, at the given mass.
pub open spec fn gravity_delta(st: FpsSettings, dt: int, mass: Option<i64>) -> int {
    trunc_div(st.gravity * dt * mass_of(mass), SCALE * SCALE)
}

/// Horizontal speed along one axis for an intent component.
pub open spec fn horizontal_speed(c: int, st: FpsSettings) -> int {
    trunc_div(c * st.movement_speed, SCALE as int)
}

/// Displacement in `dt` at speed `v`.
pub open spec fn displacement(v: int, dt: int) -> int {
    trunc_div(v * dt, SCALE as int)
}

/// State after the ground check and the jump gate: its velocity is the one
/// that moves the body this tick.
pub open spec fn gated(
    s: VerticalMotion,
    input: MovementInput,
    dt: int,
    grounded: Option<bool>,
    st: FpsSettings,
) -> VerticalMotion {
    jump_gate(ground_check(s, grounded, st), jump_candidate(input, st), dt)
}

/// The state carried into the next tick: gravity added to the gated
/// velocity, saturating at the range of `i64`.
pub open spec fn next_state(
    s: VerticalMotion,
    input: MovementInput,
    dt: int,
    grounded: Option<bool>,
    mass: Option<i64>,
    st: FpsSettings,
) -> VerticalMotion {
    let g = gated(s, input, dt, grounded, st);
    VerticalMotion {
        vertical_velocity: sat_i64(g.vertical_velocity + gravity_delta(st, dt, mass)) as i64,
        grounded_timer: g.grounded_timer,
    }
}

/// The local translation of the tick.
pub open spec fn translation_of(
    s: VerticalMotion,
    input: MovementInput,
    dt: int,
    grounded: Option<bool>,
    st: FpsSettings,
) -> Translation {
    Translation {
        x: displacement(horizontal_speed(input.x as int, st), dt) as i128,
        y: displacement(gated(s, input, dt, grounded, st).vertical_velocity as int, dt) as i128,
        z: displacement(horizontal_speed(input.z as int, st), dt) as i128,
    }
}

impl VerticalMotion {
    /// At rest, with no jump available.
    pub fn new() -> (r: VerticalMotion)
        ensures
            r.vertical_velocity == 0,
            r.grounded_timer == 0,
            r.wf(),
    {
        VerticalMotion { vertical_velocity: 0, grounded_timer: 0 }
    }

    /// The timer stays within the representation's bound.
    pub open spec fn wf(&self) -> bool {
        -LIMIT <= self.grounded_timer <= LIMIT
    }

    /// One tick of vertical motion: reads the intent and drains it, applies
    /// the ground check and the jump gate, returns the tick's local
    /// translation at the gated velocity, and adds gravity for the next tick.
    pub fn player_movement(
        &mut self,
        input: &mut MovementInput,
        dt: i64,
        grounded: Option<bool>,
        custom_mass: Option<i64>,
        settings: &FpsSettings,
    ) -> (r: Translation)
        requires
            old(self).wf(),
            settings.wf(),
            intent_ok(*old(input)),
            0 <= dt <= LIMIT,
            mass_ok(custom_mass),
        ensures
            final(self).wf(),
            *final(input) == drained(),
            *final(self) == next_state(*old(self), *old(input), dt as int, grounded, custom_mass, *settings),
            r == translation_of(*old(self), *old(input), dt as int, grounded, *settings),
    {
        let ix = input.x as i128;
        let iz = input.z as i128;
        let jump_speed: i64 = if input.jump { settings.jump_speed } else { 0 };
        *input = MovementInput::zero();

        let on_ground = match grounded {
            Some(b) => b,
            None => false,
        };
        if on_ground {
            self.grounded_timer = settings.grounded_tolerance;
            self.vertical_velocity = 0;
        }
        if self.grounded_timer > 0 {
            self.grounded_timer = self.grounded_timer - dt;
            if jump_speed > 0 {
                self.vertical_velocity = jump_speed;
                self.grounded_timer = 0;
            }
        }
        let vy = self.vertical_velocity;

        let mass: i64 = match custom_mass {
            Some(m) => m,
            None => SCALE,
        };
        let speed = settings.movement_speed as i128;
        let d = dt as i128;
        let g = settings.gravity as i128;
        proof {
            lemma_mul_bound(ix as int, speed as int, 2 * SCALE as int, LIMIT as int);
            lemma_mul_bound(iz as int, speed as int, 2 * SCALE as int, LIMIT as int);
            lemma_mul_bound(g as int, d as int, LIMIT as int, LIMIT as int);
            lemma_mul_bound(g * d, mass as int, LIMIT * LIMIT, LIMIT as int);
            lemma_mul_bound(vy as int, d as int, i64::MAX as int + 1, LIMIT as int);
        }
        let hx = div_toward_zero(ix * speed, SCALE as i128);
        let hz = div_toward_zero(iz * speed, SCALE as i128);
        proof {
            lemma_mul_bound(hx as int, d as int, 2 * LIMIT as int, LIMIT as int);
            lemma_mul_bound(hz as int, d as int, 2 * LIMIT as int, LIMIT as int);
        }
        let dv = div_toward_zero(g * d * (mass as i128), (SCALE as i128) * (SCALE as i128));
        self.vertical_velocity = saturate_i64(vy as i128 + dv);

        Translation {
            x: div_toward_zero(hx * d, SCALE as i128),
            y: div_toward_zero(vy as i128 * d, SCALE as i128),
            z: div_toward_zero(hz * d, SCALE as i128),
        }
    }
}

/// A jump request with a positive jump speed is honored exactly when the
/// timer, as it stands after the ground check, is still running: it then
/// sets the velocity that moves the body this tick to the jump speed and
/// spends the timer. Otherwise the jump path leaves the velocity as it was,
/// and only gravity acts on it.
pub proof fn lemma_jump_gating(
    s: VerticalMotion,
    input: MovementInput,
    dt: int,
    grounded: Option<bool>,
    st: FpsSettings,
)
    requires
        st.wf(),
        input.jump,
        st.jump_speed > 0,
    ensures
        ground_check(s, grounded, st).grounded_timer > 0 ==> {
            &&& gated(s, input, dt, grounded, st).vertical_velocity == st.jump_speed
            &&& gated(s, input, dt, grounded, st).grounded_timer == 0
        },
        ground_check(s, grounded, st).grounded_timer <= 0 ==> gated(s, input, dt, grounded, st)
            == ground_check(s, grounded, st),
{
}

} // verus!
