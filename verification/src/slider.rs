use crate::field::Field;
use vstd::prelude::*;

verus! {

/// A number, held as the 64 bits of its IEEE 754 double-precision form.
#[derive(Clone, Copy, Debug, PartialEq, Eq, Structural)]
pub struct Number {
    pub bits: u64,
}

/// The bits of the number 1.
///
/// A position is a number between 0 and 1. The bits of such numbers are
/// ordered as the numbers are, and equal exactly where the numbers are, so
/// positions are compared by their bits as integers.
pub const FULL: u64 = 0x3FF0_0000_0000_0000;

/// The bits from here on carry the sign: they stand for numbers below 0, or
/// for no number.
pub const SIGNED: u64 = 0x8000_0000_0000_0000;

impl Number {
    /// The number lies between 0 and 1.
    pub open spec fn is_position(self) -> bool {
        self.bits <= FULL
    }

    /// The position nearest to the number: itself between 0 and 1, 1 above,
    /// and 0 below. Bits that stand for no number go by their sign.
    pub open spec fn clamped(self) -> Number {
        if self.bits <= FULL {
            self
        } else if self.bits < SIGNED {
            Number { bits: FULL }
        } else {
            Number { bits: 0 }
        }
    }

    pub fn clamp(self) -> (position: Number)
        ensures
            position == self.clamped(),
            position.is_position(),
    {
        if self.bits <= FULL {
            self
        } else if self.bits < SIGNED {
            Number { bits: FULL }
        } else {
            Number { bits: 0 }
        }
    }
}

/// Takes a position to the number that the slider stands for there.
///
/// A mapping may answer differently on each call, so its behaviour is given
/// as a relation: `maps(position, number)` holds of every `number` that it can
/// give at `position`. Closures are mappings; so is [`Linear`].
pub trait Mapping {
    /// The mapping can be called at every position.
    spec fn ready(&self) -> bool;

    /// `number` is an answer that the mapping can give at `position`.
    spec fn maps(&self, position: Number, number: Number) -> bool;

    fn apply(&self, position: Number) -> (number: Number)
        requires
            self.ready(),
            position.is_position(),
        ensures
            self.maps(position, number),
    ;
}

/// The mapping of a slider that stands for its position.
pub struct Linear;

impl Mapping for Linear {
    open spec fn ready(&self) -> bool {
        true
    }

    open spec fn maps(&self, position: Number, number: Number) -> bool {
        number == position
    }

    fn apply(&self, position: Number) -> (number: Number) {
        position
    }
}

impl<F: Fn(Number) -> Number> Mapping for F {
    open spec fn ready(&self) -> bool {
        forall|position: Number| position.is_position() ==> call_requires(*self, (position,))
    }

    open spec fn maps(&self, position: Number, number: Number) -> bool {
        call_ensures(*self, (position,), number)
    }

    fn apply(&self, position: Number) -> (number: Number) {
        self(position)
    }
}

/// What `ready` and `maps` say of a closure: it is ready where it can be
/// called at every position, and it maps as its own contract allows.
pub proof fn closure_mapping<F: Fn(Number) -> Number>(f: F)
    ensures
        f.ready() <==> forall|position: Number|
            position.is_position() ==> call_requires(f, (position,)),
        forall|position: Number, number: Number| #[trigger]
            f.maps(position, number) <==> call_ensures(f, (position,), number),
{
}

/// What is drawn for a slider.
pub struct SliderView {
    pub label: String,
    /// Where the handle stands.
    pub position: Number,
    /// The number shown beside the handle.
    pub number: Number,
}

/// The mathematical content of a [`SliderField`].
pub ghost struct SliderModel<M> {
    pub label: Seq<char>,
    pub mapper: M,
    pub value: Number,
    pub initial: Number,
}

impl<M: Mapping> SliderModel<M> {
    /// Both positions lie between 0 and 1, and the mapping can be called.
    pub open spec fn valid(self) -> bool {
        &&& self.mapper.ready()
        &&& self.value.is_position()
        &&& self.initial.is_position()
    }

    /// The handle stands otherwise than at first.
    pub open spec fn changed(self) -> bool {
        self.value != self.initial
    }

    /// `number` is a number that the slider can stand for: one that the
    /// mapping gives at the handle's position.
    pub open spec fn gives(self, number: Number) -> bool {
        self.mapper.maps(self.value, number)
    }

    /// The slider after its handle was moved towards `to`.
    pub open spec fn moved(self, to: Number) -> Self {
        SliderModel { value: to.clamped(), ..self }
    }

    /// The slider after a reset.
    pub open spec fn restored(self) -> Self {
        SliderModel { value: self.initial, ..self }
    }
}

/// A handle on a line from 0 to 1, and a mapping that says what number each
/// position stands for.
pub struct SliderField<M: Mapping = Linear> {
    label: String,
    mapper: M,
    value: Number,
    initial: Number,
}

impl<M: Mapping> SliderField<M> {
    pub closed spec fn model(&self) -> SliderModel<M> {
        SliderModel {
            label: self.label@,
            mapper: self.mapper,
            value: self.value,
            initial: self.initial,
        }
    }

    #[verifier::type_invariant]
    spec fn wf(&self) -> bool {
        self.model().valid()
    }
}

impl<F: Fn(Number) -> Number> SliderField<F> {
    /// A slider whose handle stands at the position nearest to `initial`.
    pub fn new(label: &str, initial: Number, mapper: F) -> (field: Self)
        requires
            forall|position: Number| position.is_position() ==> call_requires(mapper, (position,)),
        ensures
            field.model() == (SliderModel {
                label: label@,
                mapper,
                value: initial.clamped(),
                initial: initial.clamped(),
            }),
            field.model().mapper == mapper,
            field.model().valid(),
            !field.model().changed(),
    {
        let start = initial.clamp();
        SliderField { label: label.to_owned(), mapper, value: start, initial: start }
    }
}

impl SliderField<Linear> {
    /// A slider that stands for its position.
    pub fn linear(label: &str, initial: Number) -> (field: Self)
        ensures
            field.model() == (SliderModel {
                label: label@,
                mapper: Linear,
                value: initial.clamped(),
                initial: initial.clamped(),
            }),
            field.model().valid(),
            !field.model().changed(),
    {
        let start = initial.clamp();
        SliderField { label: label.to_owned(), mapper: Linear, value: start, initial: start }
    }
}

impl<M: Mapping> Field for SliderField<M> {
    type Msg = Number;

    type Value = Number;

    type View = SliderView;

    /// Moves the handle to the position nearest to `msg`, and asks for a
    /// redraw where that is another position.
    fn update(&mut self, msg: Number) -> (redraw: bool)
        ensures
            final(self).model() == old(self).model().moved(msg),
            final(self).model().valid(),
            redraw == (old(self).model().value != msg.clamped()),
    {
        proof {
            use_type_invariant(&*self);
        }
        let position = msg.clamp();
        let redraw = self.value.bits != position.bits;
        self.value = position;
        redraw
    }

    fn reset(&mut self)
        ensures
            final(self).model() == old(self).model().restored(),
            final(self).model().valid(),
            !final(self).model().changed(),
    {
        proof {
            use_type_invariant(&*self);
        }
        self.value = self.initial;
    }

    /// The number that the mapping gives at the handle's position.
    fn value(&self) -> (number: Number)
        ensures
            self.model().valid(),
            self.model().gives(number),
    {
        proof {
            use_type_invariant(self);
        }
        self.mapper.apply(self.value)
    }

    fn has_changed(&self) -> (changed: bool)
        ensures
            changed == self.model().changed(),
    {
        self.value.bits != self.initial.bits
    }

    fn view(&self, disabled: bool) -> (view: SliderView)
        ensures
            view.label@ == self.model().label,
            view.position == self.model().value,
            view.position.is_position(),
            self.model().gives(view.number),
    {
        proof {
            use_type_invariant(self);
        }
        SliderView {
            label: self.label.clone(),
            position: self.value,
            number: self.mapper.apply(self.value),
        }
    }
}

/// However the handle is moved, it stays between 0 and 1; a move to a
/// position between 0 and 1 arrives there.
pub proof fn handle_stays_in_range<M: Mapping>(slider: SliderModel<M>, to: Number)
    requires
        slider.valid(),
    ensures
        slider.moved(to).valid(),
        slider.restored().valid(),
        to.is_position() ==> slider.moved(to).value == to,
        to.clamped().clamped() == to.clamped(),
{
}

/// After a reset the handle stands as at first, and has not changed.
pub proof fn reset_restores_initial<M: Mapping>(slider: SliderModel<M>)
    ensures
        slider.restored().value == slider.initial,
        !slider.restored().changed(),
        slider.restored().restored() == slider.restored(),
{
}

} // verus!
