use vstd::prelude::*;
use crate::fixed::{
    SCALE, LIMIT, trunc_div, clamp_int, sat_i64, div_toward_zero, clamp_i128, saturate_i64,
    lemma_mul_bound,
};
use crate::settings::FpsSettings;

verus! {

/// Component of a diagonal unit vector: the largest `d` with `2 d² <= SCALE²`.
pub const DIAG: i64 = 707_106;

/// Bound of the accumulated pitch, in micro-degrees (89.9 degrees).
pub const PITCH_LIMIT: i64 = 89_900_000;

/// Which logical keys are held this tick.
#[derive(Clone, Copy, Debug, PartialEq, Eq)]
pub struct KeyState {
    pub forward: bool,
    pub back: bool,
    pub left: bool,
    pub right: bool,
    pub sprint: bool,
    pub jump: bool,
}

/// Movement intent of one tick: a horizontal direction in fixed point
/// (`x` lateral, `z` depth) and the jump flag.
#[derive(Clone, Copy, Debug, PartialEq, Eq)]
pub struct MovementInput {
    pub x: i64,
    pub z: i64,
    pub jump: bool,
}

/// One mouse-motion sample, in micro-units of raw delta.
#[derive(Clone, Copy, Debug, PartialEq, Eq)]
pub struct MouseDelta {
    pub dx: i64,
    pub dy: i64,
}

/// Accumulated look angles in micro-degrees: `yaw` and `pitch`.
#[derive(Clone, Copy, Debug, PartialEq, Eq)]
pub struct LookInput {
    pub yaw: i64,
    pub pitch: i64,
}

impl MovementInput {
    /// The drained intent: no direction and no jump.
    pub fn zero() -> (r: MovementInput)
        ensures
            r == drained(),
    {
        MovementInput { x: 0, z: 0, jump: false }
    }
}

impl LookInput {
    /// Nothing accumulated yet.
    pub fn zero() -> (r: LookInput)
        ensures
            r.yaw == 0 && r.pitch == 0,
    {
        LookInput { yaw: 0, pitch: 0 }
    }
}

pub open spec fn drained() -> MovementInput {
    MovementInput { x: 0, z: 0, jump: false }
}

/// `+1` for the positive key, `-1` for the negative one; both cancel.
pub open spec fn key_axis(neg: bool, pos: bool) -> int {
    (if pos { 1int } else { 0int }) - (if neg { 1int } else { 0int })
}

/// Lateral key sum: left subtracts, right adds.
pub open spec fn axis_x(k: KeyState) -> int {
    key_axis(k.left, k.right)
}

/// Depth key sum: forward subtracts, back adds.
pub open spec fn axis_z(k: KeyState) -> int {
    key_axis(k.forward, k.back)
}

/// The key sums normalized to unit length, or zero: a diagonal takes the
/// fixed-point component `DIAG` on each axis.
pub open spec fn normalized(ax: int, az: int) -> (int, int) {
    if ax != 0 && az != 0 {
        (ax * DIAG, az * DIAG)
    } else {
        (ax * SCALE, az * SCALE)
    }
}

/// 2 with the sprint modifier held, else 1.
pub open spec fn sprint_factor(k: KeyState) -> int {
    if k.sprint { 2 } else { 1 }
}

/// The movement intent that the keys of one tick give.
pub open spec fn intent_of(k: KeyState) -> MovementInput {
    let (nx, nz) = normalized(axis_x(k), axis_z(k));
    MovementInput {
        x: (nx * sprint_factor(k)) as i64,
        z: (nz * sprint_factor(k)) as i64,
        jump: k.jump,
    }
}

/// Horizontal components that keys can give: at most twice a unit each.
pub open spec fn intent_ok(input: MovementInput) -> bool {
    -2 * SCALE <= input.x <= 2 * SCALE && -2 * SCALE <= input.z <= 2 * SCALE
}

/// Degrees (in micro-degrees) that a raw delta turns at sensitivity `sens`.
pub open spec fn turn(delta: int, sens: int) -> int {
    trunc_div(delta * sens, SCALE as int)
}

/// The look accumulator after one mouse sample: yaw saturates at the range of
/// `i64`, pitch is clamped to `[-PITCH_LIMIT, PITCH_LIMIT]`.
pub open spec fn look_step(l: LookInput, d: MouseDelta, sens: int) -> LookInput {
    LookInput {
        yaw: sat_i64(l.yaw - turn(d.dx as int, sens)) as i64,
        pitch: clamp_int(l.pitch - turn(d.dy as int, sens), -PITCH_LIMIT as int, PITCH_LIMIT as int)
            as i64,
    }
}

/// The look accumulator after the samples in order.
pub open spec fn look_fold(l: LookInput, ds: Seq<MouseDelta>, sens: int) -> LookInput
    decreases ds.len(),
{
    if ds.len() == 0 {
        l
    } else {
        look_step(look_fold(l, ds.drop_last(), sens), ds.last(), sens)
    }
}

fn axis(neg: bool, pos: bool) -> (r: i64)
    ensures
        r == key_axis(neg, pos),
{
    let mut a: i64 = 0;
    if neg {
        a = a - 1;
    }
    if pos {
        a = a + 1;
    }
    a
}

/// The movement intent of one tick from the keys held: the key sums
/// normalized or left at zero, doubled under sprint, and the jump flag.
pub fn movement_intent(keys: &KeyState) -> (r: MovementInput)
    ensures
        r == intent_of(*keys),
        intent_ok(r),
{
    let ax = axis(keys.left, keys.right);
    let az = axis(keys.forward, keys.back);
    let (mut x, mut z): (i64, i64) = if ax != 0 && az != 0 {
        (ax * DIAG, az * DIAG)
    } else {
        (ax * SCALE, az * SCALE)
    };
    if keys.sprint {
        x = x * 2;
        z = z * 2;
    }
    MovementInput { x, z, jump: keys.jump }
}

/// Applies one mouse sample to the look accumulator.
pub fn apply_mouse(look: &mut LookInput, d: &MouseDelta, sens: i64)
    requires
        -LIMIT <= sens <= LIMIT,
    ensures
        *final(look) == look_step(*old(look), *d, sens as int),
{
    let s = sens as i128;
    proof {
        lemma_mul_bound(d.dx as int, sens as int, i64::MAX as int + 1, LIMIT as int);
        lemma_mul_bound(d.dy as int, sens as int, i64::MAX as int + 1, LIMIT as int);
    }
    let tx = div_toward_zero(d.dx as i128 * s, SCALE as i128);
    let ty = div_toward_zero(d.dy as i128 * s, SCALE as i128);
    let yaw = saturate_i64(look.yaw as i128 - tx);
    let pitch = clamp_i128(look.pitch as i128 - ty, -PITCH_LIMIT as i128, PITCH_LIMIT as i128);
    *look = LookInput { yaw, pitch: pitch as i64 };
}

/// One pass of input aggregation: the movement intent is rebuilt from the
/// keys, and every mouse sample of the tick is applied to the look
/// accumulator in order.
pub fn handle_input(
    keys: &KeyState,
    movement: &mut MovementInput,
    look: &mut LookInput,
    mouse: &Vec<MouseDelta>,
    settings: &FpsSettings,
)
    requires
        settings.wf(),
    ensures
        *final(movement) == intent_of(*keys),
        intent_ok(*final(movement)),
        *final(look) == look_fold(*old(look), mouse@, settings.mouse_sensitivity as int),
{
    *movement = movement_intent(keys);
    let sens = settings.mouse_sensitivity;
    let ghost l0 = *look;
    let mut i: usize = 0;
    while i < mouse.len()
        invariant
            0 <= i <= mouse@.len(),
            -LIMIT <= sens <= LIMIT,
            sens == settings.mouse_sensitivity,
            *look == look_fold(l0, mouse@.subrange(0, i as int), sens as int),
        decreases mouse@.len() - i,
    {
        apply_mouse(look, &mouse[i], sens);
        proof {
            assert(mouse@.subrange(0, i + 1).drop_last() =~= mouse@.subrange(0, i as int));
        }
        i = i + 1;
    }
    proof {
        assert(mouse@.subrange(0, mouse@.len() as int) =~= mouse@);
    }
}

/// Squared length of a horizontal pair.
pub open spec fn len_sq(x: int, z: int) -> int {
    x * x + z * z
}

/// Before the sprint multiplier, every key combination gives a horizontal
/// intent of length at most one: zero exactly when the keys cancel, a unit
/// vector along an axis, or a diagonal whose components are the largest
/// fixed-point value that keeps the length within one.
pub proof fn lemma_intent_normalized(k: KeyState)
    ensures
        ({
            let (x, z) = normalized(axis_x(k), axis_z(k));
            &&& len_sq(x, z) <= SCALE * SCALE
            &&& (x == 0 && z == 0) <==> (axis_x(k) == 0 && axis_z(k) == 0)
            &&& (axis_x(k) == 0 || axis_z(k) == 0) ==> (len_sq(x, z) == 0 || len_sq(x, z) == SCALE * SCALE)
            &&& (axis_x(k) != 0 && axis_z(k) != 0) ==> {
                &&& (x == DIAG || x == -DIAG) && (z == DIAG || z == -DIAG)
                &&& 2 * DIAG * DIAG <= SCALE * SCALE < 2 * (DIAG + 1) * (DIAG + 1)
            }
        }),
{
    assert(2 * DIAG * DIAG <= SCALE * SCALE < 2 * (DIAG + 1) * (DIAG + 1));
    let ax = axis_x(k);
    let az = axis_z(k);
    let (x, z) = normalized(ax, az);
    assert(ax == -1 || ax == 0 || ax == 1);
    assert(az == -1 || az == 0 || az == 1);
    if ax != 0 && az != 0 {
        assert(x == DIAG || x == -DIAG);
        assert(z == DIAG || z == -DIAG);
        assert(x * x == DIAG * DIAG);
        assert(z * z == DIAG * DIAG);
    } else if ax != 0 {
        assert(x == SCALE || x == -SCALE);
        assert(x * x == SCALE * SCALE && z == 0);
    } else if az != 0 {
        assert(z == SCALE || z == -SCALE);
        assert(z * z == SCALE * SCALE && x == 0);
    }
}

/// Holding the sprint modifier doubles both horizontal components, and so
/// the length, of the intent that the same directional keys give without it;
/// the jump flag is the same.
pub proof fn lemma_sprint_doubles(k: KeyState)
    ensures
        ({
            let walk = intent_of(KeyState { sprint: false, ..k });
            let run = intent_of(KeyState { sprint: true, ..k });
            &&& run.x == 2 * walk.x
            &&& run.z == 2 * walk.z
            &&& len_sq(run.x as int, run.z as int) == 4 * len_sq(walk.x as int, walk.z as int)
            &&& run.jump == walk.jump
        }),
{
    let walk = intent_of(KeyState { sprint: false, ..k });
    let run = intent_of(KeyState { sprint: true, ..k });
    let (a, b) = (walk.x as int, walk.z as int);
    assert((2 * a) * (2 * a) + (2 * b) * (2 * b) == 4 * (a * a + b * b)) by (nonlinear_arith);
}

/// With no key held the intent is the drained one: an intent that was
/// consumed still reads zero at the next aggregation.
pub proof fn lemma_no_keys_drained(k: KeyState)
    requires
        !k.forward && !k.back && !k.left && !k.right && !k.jump,
    ensures
        intent_of(k) == drained(),
{
}

/// Every mouse sample leaves the pitch within `[-PITCH_LIMIT, PITCH_LIMIT]`,
/// and a sample that would take it below the floor leaves it exactly there.
pub proof fn lemma_pitch_clamped(l: LookInput, d: MouseDelta, sens: int)
    ensures
        -PITCH_LIMIT <= look_step(l, d, sens).pitch <= PITCH_LIMIT,
        l.pitch - turn(d.dy as int, sens) <= -PITCH_LIMIT ==> look_step(l, d, sens).pitch == -PITCH_LIMIT,
{
}

/// Once the pitch is at the floor, any number of further downward samples
/// leave it there.
pub proof fn lemma_pitch_stays_at_floor(l: LookInput, ds: Seq<MouseDelta>, sens: int)
    requires
        l.pitch == -PITCH_LIMIT,
        forall|i: int| 0 <= i < ds.len() ==> turn(#[trigger] ds[i].dy as int, sens) >= 0,
    ensures
        look_fold(l, ds, sens).pitch == -PITCH_LIMIT,
    decreases ds.len(),
{
    if ds.len() > 0 {
        let front = ds.drop_last();
        assert forall|i: int| 0 <= i < front.len() implies turn(#[trigger] front[i].dy as int, sens) >= 0 by {
            assert(front[i] == ds[i]);
        }
        lemma_pitch_stays_at_floor(l, front, sens);
        assert(turn(ds[ds.len() - 1].dy as int, sens) >= 0);
    }
}

} // verus!
