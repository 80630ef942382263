use vstd::prelude::*;
use crate::fixed::fits;
use crate::viewer::{Capabilities, PITCH_LIMIT, Viewer};

verus! {

/// Turn rate: 0.1 radian per pixel of mouse motion per second, that is
/// 100 picoradians per milli-pixel per microsecond.
pub const LOOK_SENSITIVITY: i128 = 100;

/// The angle in picoradians that `d` milli-pixels of motion turn the view
/// in a frame of `dt` microseconds.
pub open spec fn look_turn(d: int, dt: int) -> int {
    d * dt * LOOK_SENSITIVITY
}

/// `p` limited to `[-PITCH_LIMIT, PITCH_LIMIT]`.
pub open spec fn clamp_pitch(p: int) -> int {
    if p < -PITCH_LIMIT {
        -PITCH_LIMIT as int
    } else if p > PITCH_LIMIT {
        PITCH_LIMIT as int
    } else {
        p
    }
}

/// The pitch after adding `turn`, clamped where the capabilities say so.
pub open spec fn next_pitch(caps: Capabilities, pitch: int, turn: int) -> int {
    if caps.has_pitch_clamp {
        clamp_pitch(pitch + turn)
    } else {
        pitch + turn
    }
}

/// The viewer after one motion event `(dx, dy)` (milli-pixels) in a frame of
/// `dt` microseconds: motion to the right decreases yaw, motion down
/// increases pitch.
pub open spec fn look_event(v: Viewer, caps: Capabilities, ev: (i32, i32), dt: u32) -> Viewer {
    Viewer {
        yaw: (v.yaw - look_turn(ev.0 as int, dt as int)) as i64,
        pitch: next_pitch(caps, v.pitch as int, look_turn(ev.1 as int, dt as int)) as i64,
        ..v
    }
}

/// The viewer after the frame's motion events, applied in arrival order.
pub open spec fn look_events(v: Viewer, caps: Capabilities, events: Seq<(i32, i32)>, dt: u32) -> Viewer
    decreases events.len(),
{
    if events.len() == 0 {
        v
    } else {
        look_event(look_events(v, caps, events.drop_last(), dt), caps, events.last(), dt)
    }
}

/// The new angles of one motion event fit in `i64`.
pub open spec fn event_fits(v: Viewer, caps: Capabilities, ev: (i32, i32), dt: u32) -> bool {
    &&& fits(v.yaw - look_turn(ev.0 as int, dt as int))
    &&& fits(next_pitch(caps, v.pitch as int, look_turn(ev.1 as int, dt as int)))
}

/// Every angle along the frame's motion events fits in `i64`.
pub open spec fn look_fits(v: Viewer, caps: Capabilities, events: Seq<(i32, i32)>, dt: u32) -> bool
    decreases events.len(),
{
    events.len() == 0 || (look_fits(v, caps, events.drop_last(), dt) && event_fits(
        look_events(v, caps, events.drop_last(), dt),
        caps,
        events.last(),
        dt,
    ))
}

/// The pitch lies within the limits, where the capabilities clamp it.
pub open spec fn pitch_ok(v: Viewer, caps: Capabilities) -> bool {
    caps.has_pitch_clamp ==> -PITCH_LIMIT <= v.pitch <= PITCH_LIMIT
}

proof fn lemma_look_fits_prefix(v: Viewer, caps: Capabilities, events: Seq<(i32, i32)>, dt: u32, k: int)
    requires
        look_fits(v, caps, events, dt),
        0 <= k <= events.len(),
    ensures
        look_fits(v, caps, events.take(k), dt),
    decreases events.len(),
{
    if k < events.len() {
        lemma_look_fits_prefix(v, caps, events.drop_last(), dt, k);
        assert(events.drop_last().take(k) == events.take(k));
    } else {
        assert(events.take(k) == events);
    }
}

/// `d * dt * LOOK_SENSITIVITY`, computed without overflow.
fn turn_of(d: i32, dt: u32) -> (r: i128)
    ensures
        r == look_turn(d as int, dt as int),
        -0x40_0000_0000_0000_0000 < r < 0x40_0000_0000_0000_0000,
{
    assert(-0x8000_0000_0000_0000 <= d * dt <= 0x8000_0000_0000_0000) by (nonlinear_arith)
        requires
            -0x8000_0000 <= d < 0x8000_0000,
            0 <= dt < 0x1_0000_0000,
    ;
    let p: i128 = d as i128 * dt as i128;
    p * LOOK_SENSITIVITY
}

/// Applies one motion event to the viewer's yaw and pitch.
pub fn look_once(viewer: &mut Viewer, caps: Capabilities, ev: (i32, i32), dt: u32)
    requires
        event_fits(*old(viewer), caps, ev, dt),
    ensures
        *final(viewer) == look_event(*old(viewer), caps, ev, dt),
        pitch_ok(*final(viewer), caps),
{
    let turn_x = turn_of(ev.0, dt);
    let turn_y = turn_of(ev.1, dt);
    let yaw: i128 = viewer.yaw as i128 - turn_x;
    let raw: i128 = viewer.pitch as i128 + turn_y;
    let pitch: i128 = if caps.has_pitch_clamp {
        if raw < -(PITCH_LIMIT as i128) {
            -(PITCH_LIMIT as i128)
        } else if raw > PITCH_LIMIT as i128 {
            PITCH_LIMIT as i128
        } else {
            raw
        }
    } else {
        raw
    };
    viewer.yaw = yaw as i64;
    viewer.pitch = pitch as i64;
}

/// Look Controller: applies the frame's motion events in arrival order,
/// each turning yaw and pitch by `LOOK_SENSITIVITY * d * dt`. With no event
/// the viewer is unchanged; where pitch is clamped, it lies within the
/// limits after any event.
pub fn mouse_look(viewer: &mut Viewer, caps: Capabilities, events: &Vec<(i32, i32)>, dt: u32)
    requires
        look_fits(*old(viewer), caps, events@, dt),
    ensures
        *final(viewer) == look_events(*old(viewer), caps, events@, dt),
        events@.len() > 0 ==> pitch_ok(*final(viewer), caps),
        pitch_ok(*old(viewer), caps) ==> pitch_ok(*final(viewer), caps),
{
    let ghost start = *viewer;
    let mut i: usize = 0;
    while i < events.len()
        invariant
            i <= events@.len(),
            look_fits(start, caps, events@, dt),
            *viewer == look_events(start, caps, events@.take(i as int), dt),
            i > 0 ==> pitch_ok(*viewer, caps),
            pitch_ok(start, caps) ==> pitch_ok(*viewer, caps),
        decreases events@.len() - i,
    {
        proof {
            lemma_look_fits_prefix(start, caps, events@, dt, i + 1);
            assert(events@.take(i as int + 1).drop_last() == events@.take(i as int));
        }
        look_once(viewer, caps, events[i], dt);
        i = i + 1;
    }
    assert(events@.take(i as int) == events@);
}

} // verus!
