use crate::field::{Field, EMPTY};
use crate::validator::{Validator, Verbatim};
use core::fmt::{Debug, Display};
use vstd::prelude::*;
use vstd::string::to_string_from_display_ensures;

verus! {

/// What a text input can hold: nothing, a value, or an error message.
#[derive(Debug, Clone)]
pub enum State<T> {
    Empty,
    Value(T),
    Error(String),
}

pub enum Msg {
    /// The input lost the focus.
    Blur,
    /// The input holds this text now.
    Value(String),
}

/// What is drawn for a text input.
pub struct InputView {
    pub label: String,
    pub optional: bool,
    pub placeholder: String,
    pub disabled: bool,
    /// The input is marked as faulty.
    pub danger: bool,
    /// The message under the input; empty where there is none.
    pub error: String,
}

/// The mathematical content of an [`InputField`].
pub ghost struct InputModel<T, V> {
    pub label: Seq<char>,
    pub placeholder: Seq<char>,
    /// The text in the input.
    pub text: Seq<char>,
    pub initial: Option<T>,
    /// The text that stands for `initial`; empty where there is none.
    pub baseline: Seq<char>,
    pub validator: V,
    pub untouched: bool,
    pub optional: bool,
}

/// The value that a validator's answer stands for.
pub open spec fn accepted<T>(out: Result<T, String>) -> Option<T> {
    match out {
        Ok(value) => Some(value),
        Err(_) => None,
    }
}

/// The mark and the message that a validator's answer asks for.
pub open spec fn complaint<T>(out: Result<T, String>) -> (bool, Seq<char>) {
    match out {
        Ok(_) => (false, Seq::empty()),
        Err(message) => (true, message@),
    }
}

/// `text` is a text that `to_string` gives for `value`.
pub open spec fn written_as<T: Display>(value: T, text: Seq<char>) -> bool {
    exists|given: String| #[trigger] to_string_from_display_ensures::<T>(&value, given) && text == given@
}

impl<T: Display, V: Validator<T>> InputModel<T, V> {
    /// The validator takes any text, and the baseline is a text of the initial
    /// value, or empty where there is none.
    pub open spec fn valid(self) -> bool {
        &&& self.validator.ready()
        &&& match self.initial {
            Some(initial) => written_as(initial, self.baseline),
            None => self.baseline.len() == 0,
        }
    }

    /// The text differs from the baseline.
    pub open spec fn changed(self) -> bool {
        self.text != self.baseline
    }

    /// `value` is a value that the input can be read as: none where there is no
    /// text, else what the validator makes of the text.
    pub open spec fn yields(self, value: Option<T>) -> bool {
        if self.text.len() == 0 {
            value is None
        } else {
            exists|out: Result<T, String>| #[trigger]
                self.validator.admits(self.text, out) && value == accepted(out)
        }
    }

    /// `danger` and `error` are a mark and a message that the input can be drawn
    /// with. Nothing is shown on an untouched input, nor on an optional one
    /// without text; a required one without text shows [`EMPTY`]; one with text
    /// shows what the validator complains of.
    pub open spec fn shows(self, danger: bool, error: Seq<char>) -> bool {
        if self.untouched || (self.optional && self.text.len() == 0) {
            !danger && error.len() == 0
        } else if self.text.len() == 0 {
            danger && error == EMPTY@
        } else {
            exists|out: Result<T, String>| #[trigger]
                self.validator.admits(self.text, out) && (danger, error) == complaint(out)
        }
    }

    /// The input after its text became `text`.
    pub open spec fn typed(self, text: Seq<char>) -> Self {
        InputModel { text, untouched: false, ..self }
    }

    /// The input after it lost the focus.
    pub open spec fn blurred(self) -> Self {
        InputModel { untouched: false, ..self }
    }

    /// The input after it took `msg`.
    pub open spec fn updated(self, msg: Msg) -> Self {
        match msg {
            Msg::Value(text) => self.typed(text@),
            Msg::Blur => self.blurred(),
        }
    }

    /// `view` is what is drawn for the input, disabled as said.
    pub open spec fn draws(self, disabled: bool, view: InputView) -> bool {
        &&& view.label@ == self.label
        &&& view.optional == self.optional
        &&& view.placeholder@ == self.placeholder
        &&& view.disabled == disabled
        &&& self.shows(view.danger, view.error@)
    }

    /// The input after a reset.
    pub open spec fn restored(self) -> Self {
        InputModel { text: self.baseline, ..self }
    }

    /// `value` is a value that the baseline can be read as.
    pub open spec fn initially(self, value: Option<T>) -> bool {
        if self.baseline.len() == 0 {
            value is None
        } else {
            exists|out: Result<T, String>| #[trigger]
                self.validator.admits(self.baseline, out) && value == accepted(out)
        }
    }
}

impl InputModel<String, Verbatim> {
    /// A required plain text input without text, which was never touched.
    pub open spec fn fresh(label: Seq<char>) -> Self {
        InputModel {
            label,
            placeholder: Seq::empty(),
            text: Seq::empty(),
            initial: None,
            baseline: Seq::empty(),
            validator: Verbatim,
            untouched: true,
            optional: false,
        }
    }

    /// What a plain text input is read as: its text, and nothing where it has
    /// none.
    pub open spec fn read(self) -> Option<Seq<char>> {
        if self.text.len() == 0 {
            None
        } else {
            Some(self.text)
        }
    }
}

/// A line of text that is read as a `T`.
pub struct InputField<T: Display + Clone + PartialEq + Debug, V: Validator<T> = Verbatim> {
    label: String,
    placeholder: String,
    value: String,
    initial: Option<T>,
    baseline: String,
    validator: V,
    untouched: bool,
    optional: bool,
}

impl<T: Display + Clone + PartialEq + Debug, V: Validator<T>> InputField<T, V> {
    pub closed spec fn model(&self) -> InputModel<T, V> {
        InputModel {
            label: self.label@,
            placeholder: self.placeholder@,
            text: self.value@,
            initial: self.initial,
            baseline: self.baseline@,
            validator: self.validator,
            untouched: self.untouched,
            optional: self.optional,
        }
    }

    #[verifier::type_invariant]
    spec fn wf(&self) -> bool {
        self.model().valid()
    }

    /// Gives the input an initial value: its text becomes both the text and the
    /// baseline.
    pub fn initial(self, initial: T) -> (field: Self)
        ensures
            field.model() == (InputModel {
                text: field.model().baseline,
                baseline: field.model().baseline,
                initial: Some(initial),
                ..self.model()
            }),
            field.model().valid(),
            !field.model().changed(),
    {
        proof {
            use_type_invariant(&self);
        }
        let text = initial.to_string();
        assert(written_as(initial, text@)) by {
            assert(to_string_from_display_ensures::<T>(&initial, text));
        }
        InputField {
            label: self.label,
            placeholder: self.placeholder,
            value: text.clone(),
            initial: Some(initial),
            baseline: text,
            validator: self.validator,
            untouched: self.untouched,
            optional: self.optional,
        }
    }

    /// Lets the input stay without text.
    pub fn optional(self) -> (field: Self)
        ensures
            field.model() == (InputModel { optional: true, ..self.model() }),
            field.model().valid(),
            field.model().changed() == self.model().changed(),
    {
        proof {
            use_type_invariant(&self);
        }
        InputField {
            label: self.label,
            placeholder: self.placeholder,
            value: self.value,
            initial: self.initial,
            baseline: self.baseline,
            validator: self.validator,
            untouched: self.untouched,
            optional: true,
        }
    }

    pub fn placeholder(self, placeholder: &str) -> (field: Self)
        ensures
            field.model() == (InputModel { placeholder: placeholder@, ..self.model() }),
            field.model().valid(),
            field.model().changed() == self.model().changed(),
    {
        proof {
            use_type_invariant(&self);
        }
        InputField {
            label: self.label,
            placeholder: placeholder.to_owned(),
            value: self.value,
            initial: self.initial,
            baseline: self.baseline,
            validator: self.validator,
            untouched: self.untouched,
            optional: self.optional,
        }
    }
}

impl<T: Display + Clone + PartialEq + Debug, F: Fn(&str) -> Result<T, String>> InputField<T, F> {
    /// A fresh, required input without text, which was never touched.
    pub fn new(label: &str, validator: F) -> (field: Self)
        requires
            forall|text: &str| call_requires(validator, (text,)),
        ensures
            field.model() == (InputModel {
                label: label@,
                placeholder: Seq::<char>::empty(),
                text: Seq::<char>::empty(),
                initial: None::<T>,
                baseline: Seq::<char>::empty(),
                validator,
                untouched: true,
                optional: false,
            }),
            field.model().valid(),
            !field.model().changed(),
    {
        InputField {
            label: label.to_owned(),
            placeholder: String::new(),
            value: String::new(),
            initial: None,
            baseline: String::new(),
            validator,
            untouched: true,
            optional: false,
        }
    }
}

impl InputField<String, Verbatim> {
    /// An input whose value is its text.
    pub fn string(label: &str) -> (field: Self)
        ensures
            field.model() == InputModel::fresh(label@),
            field.model().valid(),
            !field.model().changed(),
    {
        InputField {
            label: label.to_owned(),
            placeholder: String::new(),
            value: String::new(),
            initial: None,
            baseline: String::new(),
            validator: Verbatim,
            untouched: true,
            optional: false,
        }
    }
}

/// The mark and the message for an input on whose text the validator gave
/// `out`.
pub fn judge<T>(out: Result<T, String>) -> (shown: (bool, String))
    ensures
        (shown.0, shown.1@) == complaint(out),
{
    match out {
        Ok(_) => (false, String::new()),
        Err(message) => (true, message),
    }
}

impl<T: Display + Clone + PartialEq + Debug, V: Validator<T>> Field for InputField<T, V> {
    type Msg = Msg;

    type Value = Option<T>;

    type View = InputView;

    /// Marks the input as touched and, on `Msg::Value`, takes the new text.
    /// Only a new text asks for a redraw. A blur asks for none, though an
    /// input that was untouched before may be drawn with an error after it:
    /// whoever draws the input draws it again on a blur.
    fn update(&mut self, msg: Msg) -> (redraw: bool)
        ensures
            final(self).model() == old(self).model().updated(msg),
            final(self).model().valid(),
            redraw == (msg is Value),
    {
        proof {
            use_type_invariant(&*self);
        }
        self.untouched = false;
        match msg {
            Msg::Value(text) => {
                self.value = text;
                true
            },
            Msg::Blur => false,
        }
    }

    fn reset(&mut self)
        ensures
            final(self).model() == old(self).model().restored(),
            final(self).model().valid(),
            !final(self).model().changed(),
    {
        proof {
            use_type_invariant(&*self);
        }
        self.value = self.baseline.clone();
    }

    fn value(&self) -> (value: Option<T>)
        ensures
            self.model().yields(value),
    {
        proof {
            use_type_invariant(self);
        }
        if self.value.as_str().is_empty() {
            None
        } else {
            self.validator.validate(self.value.as_str()).ok()
        }
    }

    fn has_changed(&self) -> (changed: bool)
        ensures
            changed == self.model().changed(),
    {
        !(self.value == self.baseline)
    }

    fn view(&self, disabled: bool) -> (view: InputView)
        ensures
            self.model().draws(disabled, view),
    {
        proof {
            use_type_invariant(self);
        }
        let empty = self.value.as_str().is_empty();
        let (danger, error) = if self.untouched || (self.optional && empty) {
            (false, String::new())
        } else if empty {
            (true, EMPTY.to_owned())
        } else {
            judge(self.validator.validate(self.value.as_str()))
        };
        InputView {
            label: self.label.clone(),
            optional: self.optional,
            placeholder: self.placeholder.clone(),
            disabled,
            danger,
            error,
        }
    }
}

/// A value is read from an input exactly where it holds text that the
/// validator accepts; it is then the accepted value.
pub proof fn value_iff_text_accepted<T: Display, V: Validator<T>>(
    input: InputModel<T, V>,
    value: Option<T>,
)
    requires
        input.yields(value),
    ensures
        value matches Some(v) ==> input.text.len() > 0 && input.validator.admits(input.text, Ok(v)),
        value is None ==> input.text.len() == 0 || exists|message: String| #[trigger]
            input.validator.admits(input.text, Err(message)),
{
    if input.text.len() > 0 {
        let out = choose|out: Result<T, String>| #[trigger]
            input.validator.admits(input.text, out) && value == accepted(out);
        match out {
            Ok(v) => {},
            Err(message) => {
                assert(input.validator.admits(input.text, Err(message)));
            },
        }
    }
}

/// A plain text input can be read in one way only: as `read` says.
pub proof fn text_value_is_text(input: InputModel<String, Verbatim>, value: Option<String>)
    ensures
        input.yields(value) <==> (match value {
            Some(text) => input.read() == Some(text@),
            None => input.read() is None,
        }),
{
    if input.text.len() > 0 {
        if let Some(text) = value {
            if text@ == input.text {
                assert(input.validator.admits(input.text, Ok(text)));
            }
        }
    }
}

/// Losing the focus changes nothing in what the input is read as.
pub proof fn blur_keeps_value<T: Display, V: Validator<T>>(input: InputModel<T, V>, value: Option<T>)
    ensures
        input.blurred().yields(value) <==> input.yields(value),
        input.blurred().changed() == input.changed(),
{
    let blurred = input.blurred();
    if input.text.len() > 0 {
        if input.yields(value) {
            let out = choose|out: Result<T, String>| #[trigger]
                input.validator.admits(input.text, out) && value == accepted(out);
            assert(blurred.validator.admits(blurred.text, out));
        }
        if blurred.yields(value) {
            let out = choose|out: Result<T, String>| #[trigger]
                blurred.validator.admits(blurred.text, out) && value == accepted(out);
            assert(input.validator.admits(input.text, out));
        }
    }
}

/// After a reset the input is read as its baseline is, and has not changed.
pub proof fn reset_restores_initial<T: Display, V: Validator<T>>(
    input: InputModel<T, V>,
    value: Option<T>,
)
    ensures
        input.restored().yields(value) <==> input.initially(value),
        !input.restored().changed(),
        input.restored().restored() == input.restored(),
{
    let restored = input.restored();
    if input.baseline.len() > 0 {
        if input.initially(value) {
            let out = choose|out: Result<T, String>| #[trigger]
                input.validator.admits(input.baseline, out) && value == accepted(out);
            assert(restored.validator.admits(restored.text, out));
        }
        if restored.yields(value) {
            let out = choose|out: Result<T, String>| #[trigger]
                restored.validator.admits(restored.text, out) && value == accepted(out);
            assert(input.validator.admits(input.baseline, out));
        }
    }
}

} // verus!
