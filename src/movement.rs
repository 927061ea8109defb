use vstd::prelude::*;

verus! {

/// Which of the camera controller's bound keys are held during one frame.
#[derive(Clone, Copy, Debug, PartialEq, Eq)]
pub struct HeldKeys {
    pub forward: bool,
    pub back: bool,
    pub left: bool,
    pub right: bool,
    pub up: bool,
    pub down: bool,
    pub run: bool,
}

/// Movement intent along the camera's local axes, one unit per key:
/// `x` is right (+) and left (-), `y` up and down, `z` forward and back.
#[derive(Clone, Copy, Debug, PartialEq, Eq, Structural)]
pub struct AxisInput {
    pub x: i8,
    pub y: i8,
    pub z: i8,
}

/// The contribution of a pair of opposed keys to one axis.
pub open spec fn key_axis(positive: bool, negative: bool) -> int {
    (if positive { 1int } else { 0int }) - (if negative { 1int } else { 0int })
}

/// The intent that a set of held keys gives.
pub open spec fn intent_of(keys: HeldKeys) -> AxisInput {
    AxisInput {
        x: key_axis(keys.right, keys.left) as i8,
        y: key_axis(keys.up, keys.down) as i8,
        z: key_axis(keys.forward, keys.back) as i8,
    }
}

proof fn lemma_unit_square(v: int)
    requires
        -1 <= v <= 1,
    ensures
        v * v == (if v != 0 { 1int } else { 0int }),
{
    if v == -1 {
        assert(v * v == 1);
    } else if v == 1 {
        assert(v * v == 1);
    } else {
        assert(v * v == 0);
    }
}

impl AxisInput {
    /// Each component is -1, 0 or 1.
    pub open spec fn wf(self) -> bool {
        &&& -1 <= self.x <= 1
        &&& -1 <= self.y <= 1
        &&& -1 <= self.z <= 1
    }

    pub open spec fn spec_is_zero(self) -> bool {
        self.x == 0 && self.y == 0 && self.z == 0
    }

    /// Squared Euclidean length of the intent vector.
    pub open spec fn spec_length_squared(self) -> int {
        self.x * self.x + self.y * self.y + self.z * self.z
    }

    /// Whether no axis is active.
    pub fn is_zero(&self) -> (r: bool)
        ensures
            r == self.spec_is_zero(),
    {
        self.x == 0 && self.y == 0 && self.z == 0
    }

    /// Squared length of the intent, which is the number of active axes.
    pub fn length_squared(&self) -> (r: u8)
        requires
            self.wf(),
        ensures
            r == self.spec_length_squared(),
            r <= 3,
    {
        proof {
            lemma_unit_square(self.x as int);
            lemma_unit_square(self.y as int);
            lemma_unit_square(self.z as int);
        }
        let ax: u8 = if self.x != 0 { 1 } else { 0 };
        let ay: u8 = if self.y != 0 { 1 } else { 0 };
        let az: u8 = if self.z != 0 { 1 } else { 0 };
        ax + ay + az
    }
}

/// Combines the held movement keys into a per-axis intent; opposed keys held
/// together cancel out.
pub fn axis_input(keys: &HeldKeys) -> (r: AxisInput)
    ensures
        r == intent_of(*keys),
        r.wf(),
{
    let mut x: i8 = 0;
    let mut y: i8 = 0;
    let mut z: i8 = 0;
    if keys.forward {
        z = z + 1;
    }
    if keys.back {
        z = z - 1;
    }
    if keys.right {
        x = x + 1;
    }
    if keys.left {
        x = x - 1;
    }
    if keys.up {
        y = y + 1;
    }
    if keys.down {
        y = y - 1;
    }
    AxisInput { x, y, z }
}

/// The speed a driven camera moves at.
#[derive(Clone, Copy, Debug, PartialEq, Eq, Structural)]
pub enum Gait {
    Walk,
    Run,
}

/// How the camera's velocity is updated in one frame.
#[derive(Clone, Copy, Debug, PartialEq, Eq, Structural)]
pub enum Motion {
    /// The velocity becomes the normalised intent, scaled by the gait's speed.
    Drive { axis: AxisInput, gait: Gait },
    /// No axis is active: the velocity decays by friction.
    Coast,
}

/// The motion that a set of held keys calls for.
pub open spec fn motion_of(keys: HeldKeys) -> Motion {
    if intent_of(keys).spec_is_zero() {
        Motion::Coast
    } else {
        Motion::Drive { axis: intent_of(keys), gait: if keys.run { Gait::Run } else { Gait::Walk } }
    }
}

/// Decides between driving the camera and letting it coast. A driven intent
/// is never zero, so normalising it is always defined.
pub fn motion(keys: &HeldKeys) -> (m: Motion)
    ensures
        m == motion_of(*keys),
        m matches Motion::Drive { axis, .. } ==> axis.wf() && 1 <= axis.spec_length_squared() <= 3,
{
    let axis = axis_input(keys);
    proof {
        lemma_unit_square(axis.x as int);
        lemma_unit_square(axis.y as int);
        lemma_unit_square(axis.z as int);
    }
    if axis.is_zero() {
        Motion::Coast
    } else {
        let gait = if keys.run { Gait::Run } else { Gait::Walk };
        Motion::Drive { axis, gait }
    }
}

} // verus!
