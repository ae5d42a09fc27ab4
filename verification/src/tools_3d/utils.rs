use vstd::prelude::*;

verus! {

/// The shape of the curve that a tween follows between its start and goal.
#[derive(Clone, Copy, Debug, PartialEq, Eq)]
pub enum EasingStyle {
    Linear,
    Sine,
    Quad,
    Cubic,
    Quart,
    Quint,
    Exponential,
    Circular,
    Back,
    Bounce,
    Elastic,
}

impl Default for EasingStyle {
    fn default() -> (style: Self)
        ensures
            style == EasingStyle::Linear,
    {
        EasingStyle::Linear
    }
}

/// Which end of the curve the easing style is applied to.
#[derive(Clone, Copy, Debug, PartialEq, Eq)]
pub enum EasingDirection {
    In,
    Out,
    InOut,
}

impl Default for EasingDirection {
    fn default() -> (direction: Self)
        ensures
            direction == EasingDirection::In,
    {
        EasingDirection::In
    }
}

} // verus!
