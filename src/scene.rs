//! Geometry of the animated splash scene.
//!
//! Everything here is integer geometry keyed off the frame counter and the
//! client area. The parts that need trigonometry (where a motion line or an
//! orbiting dot lands on screen, the hover of the rocket) are left to the
//! caller, which hands in or applies the already rounded values.
use vstd::prelude::*;

verus! {

/// Background fill of the off-screen buffer (0x00BBGGRR).
pub const BACKGROUND_COLOR: u32 = 0x221133;

/// Outline pen and caption color.
pub const OUTLINE_COLOR: u32 = 0xFFFFFF;

/// Fill of the rocket body, nose, fins and porthole.
pub const BODY_COLOR: u32 = 0xCCCCCC;

/// Flame fill on even phases.
pub const FLAME_COLOR_EVEN: u32 = 0x0066FF;

/// Flame fill on odd phases.
pub const FLAME_COLOR_ODD: u32 = 0xFF6600;

/// Width of the outline pen.
pub const OUTLINE_WIDTH: i32 = 2;

/// Number of frames that each flame size is held for.
pub const FLAME_STEP: u32 = 5;

/// Number of distinct flame sizes.
pub const FLAME_PHASES: u32 = 4;

/// Number of evenly spaced directions a motion line may take.
pub const LINE_SLOTS: u32 = 12;

/// Longest a motion line grows.
pub const MAX_LINE_LENGTH: i32 = 25;

/// Frames of one motion-line sawtooth: ten rising, five falling.
pub const LINE_CYCLE: u32 = 15;

/// Distance from the center at which every motion line starts.
pub const LINE_START_DIST: i32 = 32;

/// Number of dots in the dots skin.
pub const DOT_COUNT: u32 = 8;

/// Radius of the circle the dots travel on.
pub const DOT_ORBIT_RADIUS: i32 = 50;

/// Radius of an ordinary dot.
pub const DOT_RADIUS: i32 = 5;

/// Radius of the highlighted dot.
pub const DOT_RADIUS_HIGHLIGHT: i32 = 8;

/// Frames for which one dot stays highlighted.
pub const HIGHLIGHT_STEP: u32 = 10;

#[derive(Clone, Copy, Debug, PartialEq, Eq, Structural)]
pub struct Point {
    pub x: i32,
    pub y: i32,
}

/// An axis-aligned box, also used as the bounding box of an ellipse.
#[derive(Clone, Copy, Debug, PartialEq, Eq, Structural)]
pub struct Bounds {
    pub left: i32,
    pub top: i32,
    pub right: i32,
    pub bottom: i32,
}

#[derive(Clone, Copy, Debug, PartialEq, Eq, Structural)]
pub struct Triangle {
    pub a: Point,
    pub b: Point,
    pub c: Point,
}

/// One radial motion line: it leaves the center in direction `angle_deg`
/// (degrees, clockwise on screen from the positive x axis), starts
/// `LINE_START_DIST` away from the center and is `length` long.
#[derive(Clone, Copy, Debug, PartialEq, Eq, Structural)]
pub struct MotionLine {
    pub slot: u32,
    pub angle_deg: u32,
    pub length: i32,
}

/// Everything the rocket skin draws for one frame.
#[derive(Debug)]
pub struct RocketScene {
    pub center: Point,
    pub body: Bounds,
    pub nose: Triangle,
    pub left_fin: Triangle,
    pub right_fin: Triangle,
    pub porthole: Bounds,
    pub flame: Triangle,
    pub flame_color: u32,
    pub lines: Vec<MotionLine>,
    pub caption: Point,
}

/// One dot of the dots skin: it sits at `slot` eighths of a turn ahead of the
/// moving base angle.
#[derive(Clone, Copy, Debug, PartialEq, Eq, Structural)]
pub struct Dot {
    pub slot: u32,
    pub radius: i32,
}

/// Everything the dots skin draws for one frame.
#[derive(Debug)]
pub struct DotsScene {
    pub center: Point,
    pub orbit_radius: i32,
    pub dots: Vec<Dot>,
}

pub open spec fn pt(x: int, y: int) -> Point {
    Point { x: x as i32, y: y as i32 }
}

pub open spec fn tri(a: Point, b: Point, c: Point) -> Triangle {
    Triangle { a, b, c }
}

pub open spec fn bounds(left: int, top: int, right: int, bottom: int) -> Bounds {
    Bounds { left: left as i32, top: top as i32, right: right as i32, bottom: bottom as i32 }
}

/// The flame phase of a frame: which of the four flame sizes is drawn.
pub open spec fn flame_phase_of(frame: nat) -> nat {
    (frame / 5) % 4
}

/// Index of the highlighted dot for a frame.
pub open spec fn highlight_of(frame: nat) -> nat {
    (frame / 10) % 8
}

/// Where in its sawtooth the motion line of `slot` is at `frame`.
pub open spec fn line_phase_of(frame: nat, slot: nat) -> nat {
    (frame + slot * 5) % 15
}

/// Length of a motion line at a sawtooth phase: it rises linearly over ten
/// frames and falls linearly over five.
pub open spec fn line_length_of(phase: nat) -> int {
    if phase < 10 {
        25 * phase as int / 10
    } else {
        25 * (15 - phase) / 5
    }
}

/// Direction of the motion line of `slot`, in degrees: twelve directions a
/// twelfth of a turn apart, the first at 45 degrees.
pub open spec fn line_angle_of(slot: nat) -> nat {
    slot * 30 + 45
}

/// A motion line is drawn only when its direction lies strictly between 30
/// and 330 degrees.
pub open spec fn line_shown(slot: nat) -> bool {
    30 < line_angle_of(slot) && line_angle_of(slot) < 330
}

/// The center of a client area of the given size.
pub open spec fn center_of(width: int, height: int) -> Point {
    pt(width / 2, height / 2)
}

/// The motion lines drawn at `frame`, in the order of their slots.
pub open spec fn lines_of(frame: nat) -> Seq<MotionLine> {
    Seq::new(10, |i: int| MotionLine {
        slot: i as u32,
        angle_deg: line_angle_of(i as nat) as u32,
        length: line_length_of(line_phase_of(frame, i as nat)) as i32,
    })
}

/// The rocket scene for `frame` in a client area of `width` by `height`,
/// with the rocket lifted by `2 * lift` pixels (screen y grows downwards, so
/// a positive `lift` moves it down).
pub open spec fn rocket_of(frame: nat, width: int, height: int, lift: int) -> (Point, Bounds, Triangle, Triangle, Triangle, Bounds, Triangle, u32, Seq<MotionLine>, Point) {
    let cx = width / 2;
    let cy = height / 2;
    let off = 2 * lift;
    let top = cy - 25 + off;
    let bottom = cy + 40 + off;
    let left = cx - 15;
    let right = cx + 15;
    let p = flame_phase_of(frame) as int;
    let fw = 20 + 2 * p;
    let fh = 25 + 3 * p;
    let wy = cy - 10 + off;
    (
        pt(cx, cy),
        bounds(left, top, right, bottom),
        tri(pt(cx, top - 30), pt(right, top), pt(left, top)),
        tri(pt(left, bottom - 20), pt(left - 15, bottom), pt(left, bottom)),
        tri(pt(right, bottom - 20), pt(right + 15, bottom), pt(right, bottom)),
        bounds(cx - 6, wy - 6, cx + 6, wy + 6),
        tri(pt(cx - fw / 2, bottom), pt(cx, bottom + fh), pt(cx + fw / 2, bottom)),
        if p % 2 == 0 { FLAME_COLOR_EVEN } else { FLAME_COLOR_ODD },
        lines_of(frame),
        pt(cx - 70, cy + 90 + off),
    )
}

/// The dots of the dots skin at `frame`, in the order of their slots.
pub open spec fn dots_of(frame: nat) -> Seq<Dot> {
    Seq::new(8, |i: int| Dot {
        slot: i as u32,
        radius: if i == highlight_of(frame) { DOT_RADIUS_HIGHLIGHT } else { DOT_RADIUS },
    })
}

impl RocketScene {
    /// The scene as the tuple that `rocket_of` describes.
    pub open spec fn parts(&self) -> (Point, Bounds, Triangle, Triangle, Triangle, Bounds, Triangle, u32, Seq<MotionLine>, Point) {
        (
            self.center,
            self.body,
            self.nose,
            self.left_fin,
            self.right_fin,
            self.porthole,
            self.flame,
            self.flame_color,
            self.lines@,
            self.caption,
        )
    }
}

/// The flame cycles through its four phases in order, each held for five
/// frames, and the whole sequence repeats every twenty frames.
pub proof fn lemma_flame_phase_cycle(frame: nat)
    ensures
        flame_phase_of(frame) == (frame % 20) / 5,
        flame_phase_of(frame + 20) == flame_phase_of(frame),
        flame_phase_of(frame) < 4,
{
    assert(flame_phase_of(frame) == (frame % 20) / 5) by (nonlinear_arith);
    assert(flame_phase_of(frame + 20) == flame_phase_of(frame)) by (nonlinear_arith);
}

/// The highlight moves to the next of the eight dots every ten frames and
/// returns to the first dot every eighty frames.
pub proof fn lemma_highlight_cycle(frame: nat)
    ensures
        highlight_of(frame) == (frame % 80) / 10,
        highlight_of(frame + 80) == highlight_of(frame),
        highlight_of(frame) < 8,
{
    assert(highlight_of(frame) == (frame % 80) / 10) by (nonlinear_arith);
    assert(highlight_of(frame + 80) == highlight_of(frame)) by (nonlinear_arith);
}

/// The whole rocket scene depends on the frame only through the frame
/// modulo sixty, the common period of the flame and the motion lines.
pub proof fn lemma_rocket_scene_cycle(frame: nat, width: int, height: int, lift: int)
    ensures
        rocket_of(frame + 60, width, height, lift) == rocket_of(frame, width, height, lift),
{
    assert(flame_phase_of(frame + 60) == flame_phase_of(frame)) by (nonlinear_arith);
    assert forall|i: nat| line_phase_of(frame + 60, i) == line_phase_of(frame, i) by {
        assert(line_phase_of(frame + 60, i) == line_phase_of(frame, i)) by (nonlinear_arith);
    }
    assert(lines_of(frame + 60) =~= lines_of(frame));
}

/// Building the rocket scene twice for the same frame, client area and hover
/// gives the same scene: nothing but these inputs decides what is drawn.
pub proof fn lemma_rocket_scene_deterministic(
    first: RocketScene,
    second: RocketScene,
    frame: nat,
    width: int,
    height: int,
    lift: int,
)
    requires
        first.parts() == rocket_of(frame, width, height, lift),
        second.parts() == rocket_of(frame, width, height, lift),
    ensures
        first.parts() == second.parts(),
        first.lines@ == second.lines@,
{
}

/// Building the dots scene twice for the same frame and client area gives the
/// same dots.
pub proof fn lemma_dots_scene_deterministic(first: DotsScene, second: DotsScene, frame: nat)
    requires
        first.dots@ == dots_of(frame),
        second.dots@ == dots_of(frame),
    ensures
        first.dots@ == second.dots@,
{
}

/// Returns the flame phase for `frame`.
pub fn flame_phase(frame: u32) -> (r: u32)
    ensures
        r as nat == flame_phase_of(frame as nat),
        r < FLAME_PHASES,
{
    (frame / FLAME_STEP) % FLAME_PHASES
}

/// Returns the index of the dot drawn larger at `frame`.
pub fn highlight_index(frame: u32) -> (r: u32)
    ensures
        r as nat == highlight_of(frame as nat),
        r < DOT_COUNT,
{
    (frame / HIGHLIGHT_STEP) % DOT_COUNT
}

/// Returns the length of the motion line in `slot` at `frame`.
pub fn line_length(frame: u32, slot: u32) -> (r: i32)
    requires
        slot < LINE_SLOTS,
    ensures
        r as int == line_length_of(line_phase_of(frame as nat, slot as nat)),
        0 <= r <= MAX_LINE_LENGTH,
{
    let phase: u32 = (frame % LINE_CYCLE + slot * 5) % LINE_CYCLE;
    assert(phase as nat == line_phase_of(frame as nat, slot as nat)) by (nonlinear_arith)
        requires
            phase == (frame % 15 + slot * 5) % 15,
    {
        vstd::arithmetic::div_mod::lemma_add_mod_noop(frame as int, slot as int * 5, 15);
        vstd::arithmetic::div_mod::lemma_mod_twice(frame as int, 15);
    }
    let p = phase as i32;
    if phase < 10 {
        MAX_LINE_LENGTH * p / 10
    } else {
        MAX_LINE_LENGTH * (15 - p) / 5
    }
}

/// Returns the motion lines drawn at `frame`: one per direction strictly
/// between 30 and 330 degrees, in the order of their slots.
pub fn motion_lines(frame: u32) -> (r: Vec<MotionLine>)
    ensures
        r@ == lines_of(frame as nat),
        forall|i: int| 0 <= i < r@.len() ==> line_shown(#[trigger] r@[i].slot as nat),
        forall|s: nat| s < LINE_SLOTS && line_shown(s) ==> s < r@.len(),
{
    let mut lines: Vec<MotionLine> = Vec::new();
    let mut slot: u32 = 0;
    while slot < LINE_SLOTS
        invariant
            slot <= LINE_SLOTS,
            lines@.len() == if slot <= 10 { slot as int } else { 10 },
            forall|i: int| 0 <= i < lines@.len() ==> lines@[i] == lines_of(frame as nat)[i],
        decreases LINE_SLOTS - slot,
    {
        let angle: u32 = slot * 30 + 45;
        if 30 < angle && angle < 330 {
            lines.push(MotionLine { slot, angle_deg: angle, length: line_length(frame, slot) });
        }
        slot = slot + 1;
    }
    assert(lines@ =~= lines_of(frame as nat));
    lines
}

/// Returns the rocket scene for `frame` in a client area of `width` by
/// `height`. `lift` is the sine of a tenth of the frame, rounded to the
/// nearest integer; the rocket hovers by twice that many pixels.
pub fn rocket_scene(frame: u32, width: i32, height: i32, lift: i32) -> (r: RocketScene)
    requires
        width >= 0,
        height >= 0,
        -1 <= lift <= 1,
    ensures
        r.parts() == rocket_of(frame as nat, width as int, height as int, lift as int),
{
    let cx = width / 2;
    let cy = height / 2;
    let off = 2 * lift;
    let top = cy - 25 + off;
    let bottom = cy + 40 + off;
    let left = cx - 15;
    let right = cx + 15;
    let p = flame_phase(frame) as i32;
    let fw = 20 + 2 * p;
    let fh = 25 + 3 * p;
    let wy = cy - 10 + off;
    let flame_color = if p % 2 == 0 { FLAME_COLOR_EVEN } else { FLAME_COLOR_ODD };
    RocketScene {
        center: Point { x: cx, y: cy },
        body: Bounds { left, top, right, bottom },
        nose: Triangle {
            a: Point { x: cx, y: top - 30 },
            b: Point { x: right, y: top },
            c: Point { x: left, y: top },
        },
        left_fin: Triangle {
            a: Point { x: left, y: bottom - 20 },
            b: Point { x: left - 15, y: bottom },
            c: Point { x: left, y: bottom },
        },
        right_fin: Triangle {
            a: Point { x: right, y: bottom - 20 },
            b: Point { x: right + 15, y: bottom },
            c: Point { x: right, y: bottom },
        },
        porthole: Bounds { left: cx - 6, top: wy - 6, right: cx + 6, bottom: wy + 6 },
        flame: Triangle {
            a: Point { x: cx - fw / 2, y: bottom },
            b: Point { x: cx, y: bottom + fh },
            c: Point { x: cx + fw / 2, y: bottom },
        },
        flame_color,
        lines: motion_lines(frame),
        caption: Point { x: cx - 70, y: cy + 90 + off },
    }
}

/// Returns the dots scene for `frame` in a client area of `width` by
/// `height`.
pub fn dots_scene(frame: u32, width: i32, height: i32) -> (r: DotsScene)
    requires
        width >= 0,
        height >= 0,
    ensures
        r.center == center_of(width as int, height as int),
        r.orbit_radius == DOT_ORBIT_RADIUS,
        r.dots@ == dots_of(frame as nat),
{
    let lit = highlight_index(frame);
    let mut dots: Vec<Dot> = Vec::new();
    let mut slot: u32 = 0;
    while slot < DOT_COUNT
        invariant
            slot <= DOT_COUNT,
            lit as nat == highlight_of(frame as nat),
            dots@.len() == slot,
            forall|i: int| 0 <= i < slot ==> dots@[i] == dots_of(frame as nat)[i],
        decreases DOT_COUNT - slot,
    {
        let radius = if slot == lit { DOT_RADIUS_HIGHLIGHT } else { DOT_RADIUS };
        dots.push(Dot { slot, radius });
        slot = slot + 1;
    }
    assert(dots@ =~= dots_of(frame as nat));
    DotsScene { center: Point { x: width / 2, y: height / 2 }, orbit_radius: DOT_ORBIT_RADIUS, dots }
}

} // verus!
