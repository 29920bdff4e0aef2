use vstd::prelude::*;

verus! {

/// The sideways move asked for this frame.
#[derive(Clone, Copy, Debug, PartialEq, Eq, Structural)]
pub enum Shift {
    NoShift,
    Left,
    Right,
}

impl Default for Shift {
    fn default() -> (r: Shift)
        ensures
            r == Shift::NoShift,
    {
        Shift::NoShift
    }
}

/// The rotation asked for this frame.
#[derive(Clone, Copy, Debug, PartialEq, Eq, Structural)]
pub enum Rotation {
    NoRotation,
    CW,
    CCW,
}

impl Default for Rotation {
    fn default() -> (r: Rotation)
        ensures
            r == Rotation::NoRotation,
    {
        Rotation::NoRotation
    }
}

/// A set of the two input flags: an immediate drop and a fast fall.
#[derive(Clone, Copy, Debug, PartialEq, Eq, Structural)]
pub struct InputFlags {
    pub drop: bool,
    pub fast_fall: bool,
}

impl InputFlags {
    /// The empty set.
    pub fn none() -> (r: InputFlags)
        ensures
            !r.drop && !r.fast_fall,
    {
        InputFlags { drop: false, fast_fall: false }
    }

    /// The set holding only the drop flag.
    pub fn drop() -> (r: InputFlags)
        ensures
            r.drop && !r.fast_fall,
    {
        InputFlags { drop: true, fast_fall: false }
    }

    /// The set holding only the fast-fall flag.
    pub fn fast_fall() -> (r: InputFlags)
        ensures
            !r.drop && r.fast_fall,
    {
        InputFlags { drop: false, fast_fall: true }
    }

    /// Whether every flag of `other` is in `self`.
    pub fn contains(self, other: InputFlags) -> (r: bool)
        ensures
            r == ((other.drop ==> self.drop) && (other.fast_fall ==> self.fast_fall)),
    {
        (!other.drop || self.drop) && (!other.fast_fall || self.fast_fall)
    }

    /// The flags of `self` together with those of `other`.
    pub fn union(self, other: InputFlags) -> (r: InputFlags)
        ensures
            r.drop == (self.drop || other.drop),
            r.fast_fall == (self.fast_fall || other.fast_fall),
    {
        InputFlags { drop: self.drop || other.drop, fast_fall: self.fast_fall || other.fast_fall }
    }
}

impl Default for InputFlags {
    fn default() -> (r: InputFlags)
        ensures
            !r.drop && !r.fast_fall,
    {
        InputFlags::none()
    }
}

/// What the player asks of the falling tetromino this frame.
#[derive(Clone, Copy, Debug, PartialEq, Eq, Structural)]
pub struct LogicalInputs {
    pub shift: Shift,
    pub rotation: Rotation,
    pub flags: InputFlags,
}

/// The sideways move asked for by the two shift keys: none when both or neither were
/// pressed.
pub open spec fn spec_shift_from_keys(left: bool, right: bool) -> Shift {
    if left && !right {
        Shift::Left
    } else if right && !left {
        Shift::Right
    } else {
        Shift::NoShift
    }
}

/// The rotation asked for by the two rotation keys: none when both or neither were pressed.
pub open spec fn spec_rotation_from_keys(cw: bool, ccw: bool) -> Rotation {
    if cw && !ccw {
        Rotation::CW
    } else if ccw && !cw {
        Rotation::CCW
    } else {
        Rotation::NoRotation
    }
}

impl LogicalInputs {
    pub fn shift(&self) -> (r: Shift)
        ensures
            r == self.shift,
    {
        self.shift
    }

    pub fn rotation(&self) -> (r: Rotation)
        ensures
            r == self.rotation,
    {
        self.rotation
    }

    pub fn flags(&self) -> (r: InputFlags)
        ensures
            r == self.flags,
    {
        self.flags
    }

    /// The inputs read from the keys: `shift_left`, `shift_right`, `rot_cw`, `rot_ccw` and
    /// `drop` tell whether those keys were just pressed, `fast_fall` whether that key is held.
    pub fn from_keys(
        shift_left: bool,
        shift_right: bool,
        rot_cw: bool,
        rot_ccw: bool,
        drop: bool,
        fast_fall: bool,
    ) -> (r: LogicalInputs)
        ensures
            r.shift == spec_shift_from_keys(shift_left, shift_right),
            r.rotation == spec_rotation_from_keys(rot_cw, rot_ccw),
            r.flags.drop == drop,
            r.flags.fast_fall == fast_fall,
    {
        let shift = match (shift_left, shift_right) {
            (true, true) | (false, false) => Shift::NoShift,
            (true, false) => Shift::Left,
            (false, true) => Shift::Right,
        };
        let rotation = match (rot_cw, rot_ccw) {
            (true, true) | (false, false) => Rotation::NoRotation,
            (true, false) => Rotation::CW,
            (false, true) => Rotation::CCW,
        };
        let drop_flag = if drop {
            InputFlags::drop()
        } else {
            InputFlags::none()
        };
        let fast_fall_flag = if fast_fall {
            InputFlags::fast_fall()
        } else {
            InputFlags::none()
        };
        LogicalInputs { shift, rotation, flags: drop_flag.union(fast_fall_flag) }
    }
}

impl Default for LogicalInputs {
    fn default() -> (r: LogicalInputs)
        ensures
            r.shift == Shift::NoShift,
            r.rotation == Rotation::NoRotation,
            !r.flags.drop && !r.flags.fast_fall,
    {
        LogicalInputs { shift: Shift::NoShift, rotation: Rotation::NoRotation, flags: InputFlags::none() }
    }
}

} // verus!
