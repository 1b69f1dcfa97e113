//! Free-fly camera: orientation from accumulated pointer deltas, position
//! from discrete movement commands.
use vstd::prelude::*;
use crate::input::{MoveKeys, held_seq};

verus! {

/// One full turn in binary angle units.
pub const FULL_TURN: u64 = 0x1_0000_0000;

/// Pitch bound: 89.9 degrees in binary angle units, rounded toward zero,
/// so a clamped pitch lies strictly inside (-89.9, 89.9) degrees.
pub const PITCH_LIMIT: i32 = 1_072_548_477;

/// Look sensitivity: binary angle units per pointer pixel (0.002 radians).
pub const SENSITIVITY: i32 = 1_367_131;

/// Initial yaw: -90 degrees, i.e. three quarter turns, looking down -z.
pub const INITIAL_YAW: u32 = 0xC000_0000;

/// A basis vector component of length one, in millionths.
pub const AXIS_SCALE: i32 = 1_000_000;

/// Movement speed in micro-units per second (2.5 units per second).
pub const SPEED: u64 = 2_500_000;

/// Divisor that turns `component * SPEED * microseconds` into micro-units.
pub const TRAVEL_DIVISOR: u128 = 1_000_000_000_000;

/// Discrete movement commands.
#[derive(Clone, Copy, Debug, PartialEq, Eq, Structural)]
pub enum Direction {
    Forward,
    Backward,
    Left,
    Right,
    Up,
    Down,
}

/// A world-space point; each coordinate is in micro-units.
#[derive(Clone, Copy, Debug, PartialEq, Eq, Structural)]
pub struct Point3 {
    pub x: i64,
    pub y: i64,
    pub z: i64,
}

/// A basis vector; each component is in millionths.
#[derive(Clone, Copy, Debug, PartialEq, Eq, Structural)]
pub struct Axis3 {
    pub x: i32,
    pub y: i32,
    pub z: i32,
}

impl Axis3 {
    /// Every component lies in [-1, 1].
    pub open spec fn wf(self) -> bool {
        &&& -AXIS_SCALE <= self.x <= AXIS_SCALE
        &&& -AXIS_SCALE <= self.y <= AXIS_SCALE
        &&& -AXIS_SCALE <= self.z <= AXIS_SCALE
    }
}

/// The orientation basis derived from a camera's yaw and pitch:
/// `right = normalize(cross(world_up, direction))`, `up = cross(direction, right)`.
#[derive(Clone, Copy, Debug, PartialEq, Eq, Structural)]
pub struct Basis {
    pub direction: Axis3,
    pub right: Axis3,
    pub up: Axis3,
}

impl Basis {
    pub open spec fn wf(self) -> bool {
        self.direction.wf() && self.right.wf() && self.up.wf()
    }
}

/// What a camera holds: its position, yaw and pitch.
#[derive(Clone, Copy, Debug, PartialEq, Eq, Structural)]
pub struct Pose {
    pub position: Point3,
    pub yaw: u32,
    pub pitch: i32,
}

/// `v` limited to the range of `i64`.
pub open spec fn saturate(v: int) -> int {
    if v < i64::MIN {
        i64::MIN as int
    } else if v > i64::MAX {
        i64::MAX as int
    } else {
        v
    }
}

/// Distance in micro-units covered along a basis component `c` in `dt`
/// microseconds at `SPEED`, rounded toward zero.
pub open spec fn travel(c: int, dt: int) -> int {
    if c < 0 {
        -((-c) * SPEED * dt / (TRAVEL_DIVISOR as int))
    } else {
        c * SPEED * dt / (TRAVEL_DIVISOR as int)
    }
}

/// The basis vector a movement command translates along.
pub open spec fn axis_for(d: Direction, b: Basis) -> Axis3 {
    match d {
        Direction::Forward | Direction::Backward => b.direction,
        Direction::Left | Direction::Right => b.right,
        Direction::Up | Direction::Down => b.up,
    }
}

/// Whether a command adds its basis vector (else it subtracts it). `Left`
/// adds `right`: under this basis `right` points toward the camera's left.
pub open spec fn adds_axis(d: Direction) -> bool {
    match d {
        Direction::Forward | Direction::Left | Direction::Up => true,
        _ => false,
    }
}

/// The command that undoes `d`.
pub open spec fn opposite(d: Direction) -> Direction {
    match d {
        Direction::Forward => Direction::Backward,
        Direction::Backward => Direction::Forward,
        Direction::Left => Direction::Right,
        Direction::Right => Direction::Left,
        Direction::Up => Direction::Down,
        Direction::Down => Direction::Up,
    }
}

/// One coordinate after moving by `travel(c, dt)`, forward or back.
pub open spec fn shifted(p: int, c: int, forward: bool, dt: int) -> int {
    if forward {
        saturate(p + travel(c, dt))
    } else {
        saturate(p - travel(c, dt))
    }
}

/// Position after command `d` for `dt` microseconds under basis `b`.
pub open spec fn moved(p: Point3, d: Direction, b: Basis, dt: int) -> Point3 {
    let a = axis_for(d, b);
    let f = adds_axis(d);
    Point3 {
        x: shifted(p.x as int, a.x as int, f, dt) as i64,
        y: shifted(p.y as int, a.y as int, f, dt) as i64,
        z: shifted(p.z as int, a.z as int, f, dt) as i64,
    }
}

/// Whether command `d` moves `p` without reaching the edge of the `i64`
/// coordinate range.
pub open spec fn move_fits(p: Point3, d: Direction, b: Basis, dt: int) -> bool {
    let a = axis_for(d, b);
    let f = adds_axis(d);
    &&& shift_fits(p.x as int, a.x as int, f, dt)
    &&& shift_fits(p.y as int, a.y as int, f, dt)
    &&& shift_fits(p.z as int, a.z as int, f, dt)
}

/// Whether one coordinate's shift stays inside the `i64` range.
pub open spec fn shift_fits(p: int, c: int, forward: bool, dt: int) -> bool {
    let v = if forward { p + travel(c, dt) } else { p - travel(c, dt) };
    i64::MIN <= v <= i64::MAX
}

/// Position after the commands `ds`, applied in order.
pub open spec fn moved_all(p: Point3, ds: Seq<Direction>, b: Basis, dt: int) -> Point3
    decreases ds.len(),
{
    if ds.len() == 0 {
        p
    } else {
        moved(moved_all(p, ds.drop_last(), b, dt), ds.last(), b, dt)
    }
}

/// A yaw angle brought into one turn.
pub open spec fn wrap_turn(a: int) -> int {
    a % (FULL_TURN as int)
}

/// `p` limited to the pitch range.
pub open spec fn clamp_pitch(p: int) -> int {
    if p < -(PITCH_LIMIT as int) {
        -(PITCH_LIMIT as int)
    } else if p > PITCH_LIMIT as int {
        PITCH_LIMIT as int
    } else {
        p
    }
}

/// Yaw after a horizontal pointer delta of `dx` pixels.
pub open spec fn look_yaw(yaw: int, dx: int) -> int {
    wrap_turn(yaw + dx * SENSITIVITY)
}

/// Pitch after a vertical pointer delta of `dy` pixels: moving the pointer
/// up (negative `dy`) tilts the view up.
pub open spec fn look_pitch(pitch: int, dy: int) -> int {
    clamp_pitch(pitch - dy * SENSITIVITY)
}

/// Bounds on a scaled pointer delta.
proof fn lemma_scaled_delta(d: int)
    requires
        i32::MIN <= d <= i32::MAX,
    ensures
        -0x40_0000 * 0x1_0000_0000 < d * SENSITIVITY < 0x40_0000 * 0x1_0000_0000,
{
    assert(-0x8000_0000 * 1_367_131 <= d * 1_367_131 <= 0x7fff_ffff * 1_367_131)
        by (nonlinear_arith)
        requires
            -0x8000_0000 <= d <= 0x7fff_ffff,
    ;
}

/// Yaw after `dx`, computed without overflow.
fn turn_yaw(yaw: u32, dx: i32) -> (r: u32)
    ensures
        r == look_yaw(yaw as int, dx as int),
{
    // A multiple of a full turn that keeps the sum non-negative.
    let lift: i64 = 0x1_0000_0000 * 0x40_0000;
    proof {
        lemma_scaled_delta(dx as int);
    }
    let delta: i64 = dx as i64 * SENSITIVITY as i64;
    let sum: i64 = yaw as i64 + delta + lift;
    let wrapped: u64 = (sum as u64) % FULL_TURN;
    proof {
        let s = yaw as int + dx as int * SENSITIVITY as int;
        vstd::arithmetic::div_mod::lemma_mod_multiples_vanish(0x40_0000, s, FULL_TURN as int);
        assert(0x40_0000 * FULL_TURN as int + s == s + lift);
    }
    wrapped as u32
}

/// Pitch after `dy`, clamped.
fn tilt_pitch(pitch: i32, dy: i32) -> (r: i32)
    ensures
        r == look_pitch(pitch as int, dy as int),
{
    proof {
        lemma_scaled_delta(dy as int);
    }
    let p: i64 = pitch as i64 - dy as i64 * SENSITIVITY as i64;
    if p < -(PITCH_LIMIT as i64) {
        -PITCH_LIMIT
    } else if p > PITCH_LIMIT as i64 {
        PITCH_LIMIT
    } else {
        p as i32
    }
}

/// `travel(c, dt)`, computed without overflow.
fn travel_of(c: i32, dt: u32) -> (r: i64)
    requires
        -AXIS_SCALE <= c <= AXIS_SCALE,
    ensures
        r == travel(c as int, dt as int),
        -11_000_000_000 <= r <= 11_000_000_000,
{
    let m: u128 = if c < 0 {
        (-(c as i64)) as u128
    } else {
        c as u128
    };
    assert(m * SPEED <= 1_000_000 * 2_500_000) by (nonlinear_arith)
        requires
            m <= 1_000_000,
    ;
    let ms: u128 = m * SPEED as u128;
    assert(ms * dt <= 2_500_000_000_000 * 0xffff_ffff) by (nonlinear_arith)
        requires
            ms <= 2_500_000_000_000,
            dt <= 0xffff_ffff,
    ;
    let q: u128 = ms * dt as u128 / TRAVEL_DIVISOR;
    assert(q <= 11_000_000_000) by (nonlinear_arith)
        requires
            q == ms * dt / 1_000_000_000_000,
            ms * dt <= 2_500_000_000_000 * 0xffff_ffff,
    ;
    if c < 0 {
        -(q as i64)
    } else {
        q as i64
    }
}

/// `saturate(p + d)`, or `saturate(p - d)` when `forward` is false.
fn shift(p: i64, d: i64, forward: bool) -> (r: i64)
    requires
        -11_000_000_000 <= d <= 11_000_000_000,
    ensures
        forward ==> r == saturate(p + d),
        !forward ==> r == saturate(p - d),
{
    let v: i128 = if forward {
        p as i128 + d as i128
    } else {
        p as i128 - d as i128
    };
    if v < i64::MIN as i128 {
        i64::MIN
    } else if v > i64::MAX as i128 {
        i64::MAX
    } else {
        v as i64
    }
}

/// A free-fly camera. Its basis vectors are not stored: they are derived
/// from yaw and pitch whenever needed, so they cannot drift.
pub struct Camera {
    position: Point3,
    yaw: u32,
    pitch: i32,
}

impl View for Camera {
    type V = Pose;

    closed spec fn view(&self) -> Pose {
        Pose { position: self.position, yaw: self.yaw, pitch: self.pitch }
    }
}

impl Camera {
    /// Pitch lies within the clamp range.
    pub open spec fn wf(&self) -> bool {
        -PITCH_LIMIT <= self@.pitch <= PITCH_LIMIT
    }

    /// A camera at `position` looking down -z: yaw -90 degrees, pitch 0.
    pub fn new(position: Point3) -> (r: Camera)
        ensures
            r@ == (Pose { position, yaw: INITIAL_YAW, pitch: 0 }),
            r.wf(),
    {
        Camera { position, yaw: INITIAL_YAW, pitch: 0 }
    }

    pub fn pose(&self) -> (r: Pose)
        ensures
            r == self@,
    {
        Pose { position: self.position, yaw: self.yaw, pitch: self.pitch }
    }

    pub fn position(&self) -> (r: Point3)
        ensures
            r == self@.position,
    {
        self.position
    }

    pub fn yaw(&self) -> (r: u32)
        ensures
            r == self@.yaw,
    {
        self.yaw
    }

    pub fn pitch(&self) -> (r: i32)
        ensures
            r == self@.pitch,
    {
        self.pitch
    }

    /// Turns the camera by a pointer delta of (`xoffset`, `yoffset`) pixels.
    /// Yaw wraps around a full turn; pitch is clamped, whatever the delta.
    pub fn process_mouse(&mut self, xoffset: i32, yoffset: i32)
        ensures
            final(self)@.position == old(self)@.position,
            final(self)@.yaw == look_yaw(old(self)@.yaw as int, xoffset as int),
            final(self)@.pitch == look_pitch(old(self)@.pitch as int, yoffset as int),
            final(self).wf(),
    {
        self.yaw = turn_yaw(self.yaw, xoffset);
        self.pitch = tilt_pitch(self.pitch, yoffset);
    }

    /// Moves the camera by command `direction` for `delta` microseconds.
    /// `basis` is the orientation basis derived from the camera's current
    /// yaw and pitch.
    pub fn process_keyboard(&mut self, direction: Direction, basis: &Basis, delta: u32)
        requires
            basis.wf(),
        ensures
            final(self)@.position == moved(old(self)@.position, direction, *basis, delta as int),
            final(self)@.yaw == old(self)@.yaw,
            final(self)@.pitch == old(self)@.pitch,
    {
        let axis = match direction {
            Direction::Forward | Direction::Backward => basis.direction,
            Direction::Left | Direction::Right => basis.right,
            Direction::Up | Direction::Down => basis.up,
        };
        let forward = match direction {
            Direction::Forward | Direction::Left | Direction::Up => true,
            _ => false,
        };
        let p = self.position;
        self.position = Point3 {
            x: shift(p.x, travel_of(axis.x, delta), forward),
            y: shift(p.y, travel_of(axis.y, delta), forward),
            z: shift(p.z, travel_of(axis.z, delta), forward),
        };
    }

    /// Applies one frame of movement: every command held in `keys`, in the
    /// order forward, backward, left, right, up, down, each for `delta`
    /// microseconds. Simultaneous commands add up; a diagonal is not
    /// normalised.
    pub fn apply_moves(&mut self, keys: &MoveKeys, basis: &Basis, delta: u32)
        requires
            basis.wf(),
        ensures
            final(self)@.position == moved_all(old(self)@.position, held_seq(*keys), *basis, delta as int),
            final(self)@.yaw == old(self)@.yaw,
            final(self)@.pitch == old(self)@.pitch,
    {
        let ds = keys.held();
        let ghost start = self@;
        let mut i: usize = 0;
        while i < ds.len()
            invariant
                0 <= i <= ds@.len(),
                ds@ == held_seq(*keys),
                basis.wf(),
                self@.position == moved_all(start.position, ds@.take(i as int), *basis, delta as int),
                self@.yaw == start.yaw,
                self@.pitch == start.pitch,
            decreases ds@.len() - i,
        {
            self.process_keyboard(ds[i], basis, delta);
            assert(ds@.take(i as int + 1).drop_last() =~= ds@.take(i as int));
            i = i + 1;
        }
        assert(ds@.take(ds@.len() as int) =~= ds@);
    }
}

/// A move followed by the opposite move, with the same basis and time
/// step, returns the camera to where it started, provided the first move
/// stays inside the coordinate range.
pub proof fn lemma_move_then_opposite(p: Point3, d: Direction, b: Basis, dt: u32)
    requires
        move_fits(p, d, b, dt as int),
    ensures
        moved(moved(p, d, b, dt as int), opposite(d), b, dt as int) == p,
{
    let a = axis_for(d, b);
    let f = adds_axis(d);
    assert(axis_for(opposite(d), b) == a && adds_axis(opposite(d)) == !f);
    lemma_shift_back(p.x as int, a.x as int, f, dt as int);
    lemma_shift_back(p.y as int, a.y as int, f, dt as int);
    lemma_shift_back(p.z as int, a.z as int, f, dt as int);
}

/// One coordinate: a shift that stays in range is undone by the reverse shift.
proof fn lemma_shift_back(p: int, c: int, f: bool, dt: int)
    requires
        i64::MIN <= p <= i64::MAX,
        shift_fits(p, c, f, dt),
    ensures
        shifted(p, c, f, dt) as i64 == shifted(p, c, f, dt),
        shifted(shifted(p, c, f, dt), c, !f, dt) == p,
{
}

/// A look with a zero pointer delta leaves yaw and pitch as they are.
pub proof fn lemma_zero_look(yaw: u32, pitch: i32)
    requires
        -PITCH_LIMIT <= pitch <= PITCH_LIMIT,
    ensures
        look_yaw(yaw as int, 0) == yaw,
        look_pitch(pitch as int, 0) == pitch,
{
    vstd::arithmetic::div_mod::lemma_small_mod(yaw as nat, FULL_TURN as nat);
}

/// Whatever the pointer deltas, a look leaves the pitch inside the clamp range.
pub proof fn lemma_look_pitch_bounded(pitch: int, dy: int)
    ensures
        -PITCH_LIMIT <= look_pitch(pitch, dy) <= PITCH_LIMIT,
{
}

} // verus!
