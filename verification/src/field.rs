use vstd::prelude::*;

verus! {

/// Shown under a required input that was touched and left without text.
pub const EMPTY: &'static str = "This field is required.";

/// One input widget: a piece of edited state beside a frozen baseline.
///
/// `update` takes a message and says whether the widget must be drawn again,
/// `reset` goes back to the baseline, `value` reads the current state as a
/// typed value, `has_changed` compares it with the baseline, and `view` says
/// what is to be drawn.
pub trait Field {
    type Msg;

    type Value;

    type View;

    fn update(&mut self, msg: Self::Msg) -> bool;

    fn reset(&mut self);

    fn value(&self) -> Self::Value;

    fn has_changed(&self) -> bool;

    fn view(&self, disabled: bool) -> Self::View;
}

} // verus!
