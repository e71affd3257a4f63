//! Camera-shake feedback: hits push shake events, and the camera jitters
//! around its resting position while the shake timer runs.

use vstd::prelude::*;
use crate::geom::Vec3;

verus! {

/// Shake state of the camera: its resting position, how long the shake
/// still runs (milli-seconds) and its current strength (milli).
#[derive(Clone, Copy, PartialEq, Eq, Structural, Debug)]
pub struct CameraState {
    pub original_position: Vec3,
    pub shake_duration: i64,
    pub shake_intensity: i64,
}

/// Fire-and-forget notification that a hit landed; its intensity (milli)
/// feeds the camera shake.
#[derive(Clone, Copy, PartialEq, Eq, Structural, Debug)]
pub struct CameraShakeEvent {
    pub intensity: i64,
}

/// Each shake event extends the shake by this many milli-seconds.
pub const SHAKE_DURATION_PER_HIT: i64 = 100;

/// The shake duration is clamped to `[0, SHAKE_DURATION_CAP]`.
pub const SHAKE_DURATION_CAP: i64 = 250;

/// The shake intensity is clamped to `[0, SHAKE_INTENSITY_CAP]` (milli).
pub const SHAKE_INTENSITY_CAP: i64 = 1500;

/// A shake offset draw is taken from `[-SHAKE_OFFSET_RANGE,
/// SHAKE_OFFSET_RANGE)` milli-units, then scaled by the intensity.
pub const SHAKE_OFFSET_RANGE: i64 = 100;

impl CameraState {
    /// Initial camera: resting above the playfield, not shaking.
    pub open spec fn spec_default() -> CameraState {
        CameraState {
            original_position: Vec3 { x: 0, y: 20000, z: 2000 },
            shake_duration: 0,
            shake_intensity: 0,
        }
    }
}

impl Default for CameraState {
    fn default() -> (r: Self)
        ensures
            r == CameraState::spec_default(),
    {
        CameraState {
            original_position: Vec3 { x: 0, y: 20000, z: 2000 },
            shake_duration: 0,
            shake_intensity: 0,
        }
    }
}

/// `v` clamped to `[lo, hi]`.
pub open spec fn spec_clamp(v: int, lo: i64, hi: i64) -> i64 {
    if v < lo {
        lo
    } else if v > hi {
        hi
    } else {
        v as i64
    }
}

/// One jitter offset: the drawn value (milli-units) scaled by the current
/// intensity (milli).
pub open spec fn spec_shake_offset(draw: i64, intensity: i64) -> i64 {
    if draw >= 0 {
        ((draw * intensity) / 1000) as i64
    } else {
        (-((-draw * intensity) / 1000)) as i64
    }
}

/// The camera and its shake state after this tick's motion: while the
/// shake timer runs the camera jitters around its position, and on the
/// timer running out it snaps back to rest and the intensity resets.
pub open spec fn spec_shake_motion(st: CameraState, pos: Vec3, dt: i64, rx: i64, rz: i64) -> (
    CameraState,
    Vec3,
) {
    if st.shake_duration > 0 {
        let d = (st.shake_duration - dt) as i64;
        if st.shake_duration - dt < 0 {
            (
                CameraState {
                    original_position: st.original_position,
                    shake_duration: d,
                    shake_intensity: 0,
                },
                st.original_position,
            )
        } else {
            (
                CameraState {
                    original_position: st.original_position,
                    shake_duration: d,
                    shake_intensity: st.shake_intensity,
                },
                Vec3 {
                    x: (pos.x + spec_shake_offset(rx, st.shake_intensity)) as i64,
                    y: pos.y,
                    z: (pos.z + spec_shake_offset(rz, st.shake_intensity)) as i64,
                },
            )
        }
    } else {
        (st, pos)
    }
}

/// Shake duration and intensity after absorbing the first `n` shake
/// events: each event adds a fixed duration and its intensity, both
/// clamped to prevent drastic camera movement.
pub open spec fn spec_shake_events(
    duration: i64,
    intensity: i64,
    events: Seq<CameraShakeEvent>,
    n: int,
) -> (i64, i64)
    decreases n,
{
    if n <= 0 {
        (duration, intensity)
    } else {
        let pre = spec_shake_events(duration, intensity, events, n - 1);
        (
            spec_clamp(pre.0 + SHAKE_DURATION_PER_HIT, 0, SHAKE_DURATION_CAP),
            spec_clamp(pre.1 + events[n - 1].intensity, 0, SHAKE_INTENSITY_CAP),
        )
    }
}

/// `post_*` is `pre_*` after one camera-shake tick under the draws.
pub open spec fn shaken_with(
    pre_st: CameraState,
    pre_pos: Vec3,
    post_st: CameraState,
    post_pos: Vec3,
    events: Seq<CameraShakeEvent>,
    dt: i64,
    rx: i64,
    rz: i64,
) -> bool {
    let moved = spec_shake_motion(pre_st, pre_pos, dt, rx, rz);
    let absorbed = spec_shake_events(
        moved.0.shake_duration,
        moved.0.shake_intensity,
        events,
        events.len() as int,
    );
    &&& -SHAKE_OFFSET_RANGE <= rx < SHAKE_OFFSET_RANGE
    &&& -SHAKE_OFFSET_RANGE <= rz < SHAKE_OFFSET_RANGE
    &&& post_st == CameraState {
        original_position: pre_st.original_position,
        shake_duration: absorbed.0,
        shake_intensity: absorbed.1,
    }
    &&& post_pos == moved.1
}

fn shake_offset(draw: i64, intensity: i64) -> (r: i64)
    requires
        -SHAKE_OFFSET_RANGE <= draw <= SHAKE_OFFSET_RANGE,
        0 <= intensity <= SHAKE_INTENSITY_CAP,
    ensures
        r == spec_shake_offset(draw, intensity),
        -150000 <= r <= 150000,
{
    let mag = if draw >= 0 {
        draw
    } else {
        -draw
    };
    proof {
        assert(0 <= mag * intensity <= 150000) by (nonlinear_arith)
            requires
                0 <= mag <= 100,
                0 <= intensity <= 1500,
        ;
        assert(0 <= (mag * intensity) as int / 1000 <= 150000) by (nonlinear_arith)
            requires
                0 <= mag * intensity <= 150000,
        ;
    }
    let off = mag * intensity / 1000;
    if draw >= 0 {
        off
    } else {
        -off
    }
}

/// One camera-shake tick with the jitter draws supplied by the caller:
/// run the shake motion, then absorb this tick's shake events into the
/// clamped duration and intensity.
pub fn on_hit_camera_shake_with(
    camera_state: &mut CameraState,
    camera: &mut Vec3,
    events: &Vec<CameraShakeEvent>,
    dt: i64,
    rx: i64,
    rz: i64,
)
    requires
        0 <= dt <= 60000,
        -SHAKE_OFFSET_RANGE <= rx < SHAKE_OFFSET_RANGE,
        -SHAKE_OFFSET_RANGE <= rz < SHAKE_OFFSET_RANGE,
        0 <= old(camera_state).shake_intensity <= SHAKE_INTENSITY_CAP,
        -1000000000000000 <= old(camera_state).shake_duration <= 1000000000000000,
        old(camera).in_bounds(crate::geom::COORD_LIMIT),
        old(camera_state).original_position.in_bounds(crate::geom::COORD_LIMIT),
        forall|k: int| 0 <= k < events@.len() ==> 0 <= (#[trigger] events@[k]).intensity
            <= 1000000,
    ensures
        shaken_with(
            *old(camera_state),
            *old(camera),
            *final(camera_state),
            *final(camera),
            events@,
            dt,
            rx,
            rz,
        ),
        0 <= final(camera_state).shake_intensity <= SHAKE_INTENSITY_CAP,
{
    if camera_state.shake_duration > 0 {
        let d = camera_state.shake_duration - dt;
        camera_state.shake_duration = d;
        if d < 0 {
            *camera = camera_state.original_position;
            camera_state.shake_intensity = 0;
        } else {
            let ox = shake_offset(rx, camera_state.shake_intensity);
            let oz = shake_offset(rz, camera_state.shake_intensity);
            *camera = Vec3 { x: camera.x + ox, y: camera.y, z: camera.z + oz };
        }
    }
    let ghost moved_st = *camera_state;
    let mut n: usize = 0;
    while n < events.len()
        invariant
            n <= events@.len(),
            forall|k: int| 0 <= k < events@.len() ==> 0 <= (#[trigger] events@[k]).intensity
                <= 1000000,
            camera_state.original_position == moved_st.original_position,
            (camera_state.shake_duration, camera_state.shake_intensity) == spec_shake_events(
                moved_st.shake_duration,
                moved_st.shake_intensity,
                events@,
                n as int,
            ),
            n > 0 ==> 0 <= camera_state.shake_duration <= SHAKE_DURATION_CAP,
            n > 0 ==> 0 <= camera_state.shake_intensity <= SHAKE_INTENSITY_CAP,
            n == 0 ==> -1000000000000000 - 60000 <= camera_state.shake_duration
                <= 1000000000000000,
            n == 0 ==> 0 <= camera_state.shake_intensity <= SHAKE_INTENSITY_CAP,
        decreases events@.len() - n,
    {
        let ev = events[n];
        let mut d = camera_state.shake_duration + SHAKE_DURATION_PER_HIT;
        if d < 0 {
            d = 0;
        }
        if d > SHAKE_DURATION_CAP {
            d = SHAKE_DURATION_CAP;
        }
        let mut i = camera_state.shake_intensity + ev.intensity;
        if i < 0 {
            i = 0;
        }
        if i > SHAKE_INTENSITY_CAP {
            i = SHAKE_INTENSITY_CAP;
        }
        camera_state.shake_duration = d;
        camera_state.shake_intensity = i;
        n = n + 1;
    }
}

/// One camera-shake tick, drawing the jitter offsets from the random
/// source.
pub fn on_hit_camera_shake(
    camera_state: &mut CameraState,
    camera: &mut Vec3,
    events: &Vec<CameraShakeEvent>,
    dt: i64,
)
    requires
        0 <= dt <= 60000,
        0 <= old(camera_state).shake_intensity <= SHAKE_INTENSITY_CAP,
        -1000000000000000 <= old(camera_state).shake_duration <= 1000000000000000,
        old(camera).in_bounds(crate::geom::COORD_LIMIT),
        old(camera_state).original_position.in_bounds(crate::geom::COORD_LIMIT),
        forall|k: int| 0 <= k < events@.len() ==> 0 <= (#[trigger] events@[k]).intensity
            <= 1000000,
    ensures
        exists|rx: i64, rz: i64| #[trigger] shaken_with(
            *old(camera_state),
            *old(camera),
            *final(camera_state),
            *final(camera),
            events@,
            dt,
            rx,
            rz,
        ),
        0 <= final(camera_state).shake_intensity <= SHAKE_INTENSITY_CAP,
{
    let rx = crate::rng::sample_range(-SHAKE_OFFSET_RANGE, SHAKE_OFFSET_RANGE);
    let rz = crate::rng::sample_range(-SHAKE_OFFSET_RANGE, SHAKE_OFFSET_RANGE);
    on_hit_camera_shake_with(camera_state, camera, events, dt, rx, rz);
}

} // verus!
