//! Panning and zooming the editor's camera.

use vstd::prelude::*;
use crate::geometry::{ratio, Transform};
use crate::input::MouseInput;
use crate::math::{mul_div, saturate, saturated};
use crate::util::Cursor;

verus! {

/// The zoom that the camera comes ever closer to, in thousandths.
pub const MAX_ZOOM: i64 = 10;

/// The part of the way to `MAX_ZOOM` that one notch of the wheel takes, as a
/// divisor of the wheel's turn in thousandths of a notch.
pub const ZOOM_DIVISOR: i64 = 10_000;

/// A camera: where it looks and how much of the world it shows.
#[derive(Clone, Copy, PartialEq, Eq, Debug, Structural)]
pub struct Camera {
    pub transform: Transform,
    /// World lengths per window length, in thousandths.
    pub scale: i64,
}

impl Camera {
    pub open spec fn spec_new() -> Camera {
        Camera { transform: Transform::spec_identity(), scale: 1000 }
    }

    /// A camera at the origin that shows the world at its own size.
    #[verifier::when_used_as_spec(spec_new)]
    pub fn new() -> (r: Camera)
        ensures
            r == Camera::spec_new(),
    {
        Camera { transform: Transform::identity(), scale: 1000 }
    }
}

/// The zoom after the wheel has turned by `y` thousandths of a notch: a tenth
/// of the way to `MAX_ZOOM` for each notch towards the user.
pub open spec fn zoom_step(scale: i64, y: i64) -> i64 {
    saturated(scale - ratio(y as int, saturated(scale - MAX_ZOOM) as int, ZOOM_DIVISOR as int))
}

/// The zoom after all the turns of the wheel, taken in order.
pub open spec fn zoomed(scale: i64, wheel: Seq<i64>) -> i64
    decreases wheel.len(),
{
    if wheel.len() == 0 {
        scale
    } else {
        zoom_step(zoomed(scale, wheel.drop_last()), wheel.last())
    }
}

/// The camera after a frame: panned by the pointer's way while the middle
/// button is held, and zoomed by the wheel.
pub open spec fn camera_after(camera: Camera, cursor: Cursor, mouse: MouseInput, wheel: Seq<i64>) -> Camera {
    Camera {
        transform: Transform {
            translation: if mouse.middle.spec_held() {
                camera.transform.translation.spec_plus(cursor.delta)
            } else {
                camera.transform.translation
            },
            ..camera.transform
        },
        scale: zoomed(camera.scale, wheel),
    }
}

/// Pans and zooms the camera. `mouse_wheel` holds the turns of the wheel in
/// this frame, in thousandths of a notch.
pub fn camera_movement(camera: &mut Camera, cursor: &Cursor, mouse_input: &MouseInput, mouse_wheel: &Vec<i64>)
    ensures
        *final(camera) == camera_after(*old(camera), *cursor, *mouse_input, mouse_wheel@),
{
    if mouse_input.middle.held() {
        camera.transform.translation = camera.transform.translation.plus(cursor.delta);
    }
    let mut i: usize = 0;
    while i < mouse_wheel.len()
        invariant
            0 <= i <= mouse_wheel@.len(),
            camera.transform == camera_after(*old(camera), *cursor, *mouse_input, mouse_wheel@).transform,
            camera.scale == zoomed(old(camera).scale, mouse_wheel@.take(i as int)),
        decreases mouse_wheel@.len() - i,
    {
        assert(mouse_wheel@.take(i + 1).drop_last() =~= mouse_wheel@.take(i as int));
        let dist_to_max: i64 = saturate(camera.scale as i128 - MAX_ZOOM as i128);
        let step: i64 = mul_div(mouse_wheel[i], dist_to_max, ZOOM_DIVISOR);
        camera.scale = saturate(camera.scale as i128 - step as i128);
        i = i + 1;
    }
    assert(mouse_wheel@.take(i as int) =~= mouse_wheel@);
}

} // verus!
