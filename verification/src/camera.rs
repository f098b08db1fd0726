//! The camera view: pose state crossing the boundary by value.
//!
//! The camera is a borrowed view of the engine's foreign instance. This layer
//! only marshals poses in and out — camera math (dolly, pan, rotations) is the
//! engine's own work. Coordinates and the view angle are double-precision
//! values carried as raw bit patterns (`u64`); the host layer owns the floats
//! and converts at the boundary.

use vstd::prelude::*;

verus! {

/// A camera pose, passed by value: position, focal point, view-up vector and
/// view angle, all as bit patterns.
#[derive(Clone, Copy, Debug)]
pub struct CameraState {
    /// The camera position.
    pub position: [u64; 3],
    /// The focal point.
    pub focal_point: [u64; 3],
    /// The view-up vector.
    pub view_up: [u64; 3],
    /// The view angle.
    pub view_angle: u64,
}

/// Field-wise equality of camera poses.
pub open spec fn camera_state_eq(a: CameraState, b: CameraState) -> bool {
    &&& a.position@ == b.position@
    &&& a.focal_point@ == b.focal_point@
    &&& a.view_up@ == b.view_up@
    &&& a.view_angle == b.view_angle
}

/// The camera state of one engine instance: the current pose and the pose
/// that a reset restores.
pub struct Camera {
    current: CameraState,
    default_state: CameraState,
}

impl Camera {
    /// The current pose.
    pub closed spec fn pose(&self) -> CameraState {
        self.current
    }

    /// The pose a reset restores.
    pub closed spec fn default_pose(&self) -> CameraState {
        self.default_state
    }

    /// A fresh camera with the zero pose as current and default.
    pub fn new() -> (r: Camera)
        ensures
            camera_state_eq(r.pose(), r.default_pose()),
            r.pose().position@ == seq![0u64, 0u64, 0u64],
            r.pose().focal_point@ == seq![0u64, 0u64, 0u64],
            r.pose().view_up@ == seq![0u64, 0u64, 0u64],
            r.pose().view_angle == 0,
    {
        let zero = CameraState {
            position: [0, 0, 0],
            focal_point: [0, 0, 0],
            view_up: [0, 0, 0],
            view_angle: 0,
        };
        let r = Camera { current: zero, default_state: zero };
        proof {
            assert(r.pose().position@ =~= seq![0u64, 0u64, 0u64]);
            assert(r.pose().focal_point@ =~= seq![0u64, 0u64, 0u64]);
            assert(r.pose().view_up@ =~= seq![0u64, 0u64, 0u64]);
        }
        r
    }

    /// Sets the camera position, as bit patterns.
    pub fn set_position(&mut self, pos: [u64; 3])
        ensures
            final(self).pose() == (CameraState { position: pos, ..old(self).pose() }),
            final(self).default_pose() == old(self).default_pose(),
    {
        self.current.position = pos;
    }

    /// The camera position, as bit patterns.
    pub fn get_position(&self) -> (r: [u64; 3])
        ensures
            r == self.pose().position,
    {
        self.current.position
    }

    /// Sets the focal point, as bit patterns.
    pub fn set_focal_point(&mut self, fp: [u64; 3])
        ensures
            final(self).pose() == (CameraState { focal_point: fp, ..old(self).pose() }),
            final(self).default_pose() == old(self).default_pose(),
    {
        self.current.focal_point = fp;
    }

    /// The focal point, as bit patterns.
    pub fn get_focal_point(&self) -> (r: [u64; 3])
        ensures
            r == self.pose().focal_point,
    {
        self.current.focal_point
    }

    /// Sets the view-up vector, as bit patterns.
    pub fn set_view_up(&mut self, vu: [u64; 3])
        ensures
            final(self).pose() == (CameraState { view_up: vu, ..old(self).pose() }),
            final(self).default_pose() == old(self).default_pose(),
    {
        self.current.view_up = vu;
    }

    /// The view-up vector, as bit patterns.
    pub fn get_view_up(&self) -> (r: [u64; 3])
        ensures
            r == self.pose().view_up,
    {
        self.current.view_up
    }

    /// Sets the view angle, as a bit pattern.
    pub fn set_view_angle(&mut self, angle_bits: u64)
        ensures
            final(self).pose() == (CameraState { view_angle: angle_bits, ..old(self).pose() }),
            final(self).default_pose() == old(self).default_pose(),
    {
        self.current.view_angle = angle_bits;
    }

    /// The view angle, as a bit pattern.
    pub fn get_view_angle(&self) -> (r: u64)
        ensures
            r == self.pose().view_angle,
    {
        self.current.view_angle
    }

    /// Copies the whole pose out by value.
    pub fn get_state(&self) -> (r: CameraState)
        ensures
            camera_state_eq(r, self.pose()),
    {
        self.current
    }

    /// Replaces the whole pose by value.
    pub fn set_state(&mut self, state: CameraState)
        ensures
            camera_state_eq(final(self).pose(), state),
            final(self).default_pose() == old(self).default_pose(),
    {
        self.current = state;
    }

    /// Makes the current pose the one a reset restores.
    pub fn set_current_as_default(&mut self)
        ensures
            camera_state_eq(final(self).default_pose(), old(self).pose()),
            final(self).pose() == old(self).pose(),
    {
        self.default_state = self.current;
    }

    /// Restores the default pose.
    pub fn reset_to_default(&mut self)
        ensures
            camera_state_eq(final(self).pose(), old(self).default_pose()),
            final(self).default_pose() == old(self).default_pose(),
    {
        self.current = self.default_state;
    }
}

} // verus!
