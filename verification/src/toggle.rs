use crate::field::Field;
use vstd::prelude::*;

verus! {

/// What is drawn for a switch.
pub struct ToggleView {
    pub label: String,
}

/// The mathematical content of a [`ToggleField`].
pub ghost struct ToggleModel {
    pub label: Seq<char>,
    pub value: bool,
    pub initial: bool,
}

impl ToggleModel {
    /// The switch stands otherwise than at first.
    pub open spec fn changed(self) -> bool {
        self.value != self.initial
    }

    /// The switch after it was flipped.
    pub open spec fn flipped(self) -> Self {
        ToggleModel { value: !self.value, ..self }
    }

    /// The switch after a reset.
    pub open spec fn restored(self) -> Self {
        ToggleModel { value: self.initial, ..self }
    }
}

/// A switch that is on or off.
pub struct ToggleField {
    label: String,
    value: bool,
    initial: bool,
}

impl ToggleField {
    pub closed spec fn model(&self) -> ToggleModel {
        ToggleModel { label: self.label@, value: self.value, initial: self.initial }
    }

    pub fn new(label: &str, initial: bool) -> (field: Self)
        ensures
            field.model() == (ToggleModel { label: label@, value: initial, initial }),
            !field.model().changed(),
    {
        ToggleField { label: label.to_owned(), value: initial, initial }
    }
}

impl Field for ToggleField {
    type Msg = ();

    type Value = bool;

    type View = ToggleView;

    /// Flips the switch; this always asks for a redraw.
    fn update(&mut self, msg: ()) -> (redraw: bool)
        ensures
            final(self).model() == old(self).model().flipped(),
            redraw,
    {
        self.value = !self.value;
        true
    }

    fn reset(&mut self)
        ensures
            final(self).model() == old(self).model().restored(),
            !final(self).model().changed(),
    {
        self.value = self.initial;
    }

    fn value(&self) -> (value: bool)
        ensures
            value == self.model().value,
    {
        self.value
    }

    fn has_changed(&self) -> (changed: bool)
        ensures
            changed == self.model().changed(),
    {
        self.value != self.initial
    }

    fn view(&self, disabled: bool) -> (view: ToggleView)
        ensures
            view.label@ == self.model().label,
    {
        ToggleView { label: self.label.clone() }
    }
}

/// A flip changes the value, and a second flip undoes the first.
pub proof fn flip_twice_is_identity(switch: ToggleModel)
    ensures
        switch.flipped().value != switch.value,
        switch.flipped().flipped() == switch,
        switch.flipped().changed() != switch.changed(),
{
}

/// After a reset the switch stands as at first, and has not changed.
pub proof fn reset_restores_initial(switch: ToggleModel)
    ensures
        switch.restored().value == switch.initial,
        !switch.restored().changed(),
        switch.restored().restored() == switch.restored(),
{
}

} // verus!
