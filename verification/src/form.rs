use crate::field::Field;
use crate::input::{text_value_is_text, InputField, InputModel, InputView, Msg};
use crate::text::{texts, texts_push};
use crate::validator::Verbatim;
use vstd::prelude::*;

verus! {

/// Several fields that are updated, reset, read and drawn as one.
pub trait Form {
    type Msg;

    type Value;

    type View;

    fn update(&mut self, msg: Self::Msg) -> bool;

    fn reset(&mut self);

    fn value(&self) -> Self::Value;

    fn view(&self) -> Self::View;

    fn has_changed(&self) -> bool;
}

/// A message for one field of a form.
pub struct FormMsg {
    /// The place of the field in the form.
    pub field: usize,
    pub msg: Msg,
}

/// The mathematical content of an [`InputForm`]: its inputs, in order.
pub ghost struct FormModel {
    pub fields: Seq<InputModel<String, Verbatim>>,
}

impl FormModel {
    /// A form of `count` fresh inputs, each with the label `name`.
    pub open spec fn blank(count: nat) -> Self {
        FormModel { fields: Seq::new(count, |i: int| InputModel::fresh("name"@)) }
    }

    /// Every input has a value.
    pub open spec fn complete(self) -> bool {
        forall|i: int| 0 <= i < self.fields.len() ==> (#[trigger] self.fields[i]).read() is Some
    }

    /// The texts of the inputs, in order.
    pub open spec fn record(self) -> Seq<Seq<char>> {
        self.fields.map_values(|input: InputModel<String, Verbatim>| input.text)
    }

    /// What the form is read as: the inputs' values where every input has
    /// one, else nothing.
    pub open spec fn value(self) -> Option<Seq<Seq<char>>> {
        if self.complete() {
            Some(self.record())
        } else {
            None
        }
    }

    /// Some input has changed.
    pub open spec fn changed(self) -> bool {
        exists|i: int| 0 <= i < self.fields.len() && (#[trigger] self.fields[i]).changed()
    }

    /// The form after `msg` went to the input at `field`. A message for an
    /// input that the form does not have changes nothing.
    pub open spec fn routed(self, field: int, msg: Msg) -> Self {
        if 0 <= field < self.fields.len() {
            FormModel { fields: self.fields.update(field, self.fields[field].updated(msg)) }
        } else {
            self
        }
    }

    /// The form after every input was reset.
    pub open spec fn restored(self) -> Self {
        FormModel {
            fields: self.fields.map_values(|input: InputModel<String, Verbatim>| input.restored()),
        }
    }

    /// `views` are what is drawn for the inputs, in order, none of them
    /// disabled.
    pub open spec fn draws(self, views: Seq<InputView>) -> bool {
        &&& views.len() == self.fields.len()
        &&& forall|i: int|
            0 <= i < views.len() ==> (#[trigger] self.fields[i]).draws(false, views[i])
    }
}

/// A form of plain text inputs.
pub struct InputForm {
    fields: Vec<InputField<String, Verbatim>>,
}

impl InputForm {
    pub closed spec fn model(&self) -> FormModel {
        FormModel {
            fields: self.fields@.map_values(|input: InputField<String, Verbatim>| input.model()),
        }
    }

    /// A form of `count` fresh inputs, each with the label `name`.
    pub fn new(count: usize) -> (form: Self)
        ensures
            form.model() == FormModel::blank(count as nat),
            !form.model().changed(),
    {
        let mut fields: Vec<InputField<String, Verbatim>> = Vec::new();
        let mut i: usize = 0;
        while i < count
            invariant
                i <= count,
                fields@.len() == i,
                forall|j: int|
                    0 <= j < i ==> (#[trigger] fields@[j]).model() == InputModel::fresh("name"@),
            decreases count - i,
        {
            fields.push(InputField::string("name"));
            i += 1;
        }
        let form = InputForm { fields };
        assert(form.model().fields =~= FormModel::blank(count as nat).fields);
        form
    }
}

impl Form for InputForm {
    type Msg = FormMsg;

    type Value = Option<Vec<String>>;

    type View = Vec<InputView>;

    /// Hands the message to the input that it is for, and asks for a redraw
    /// where that input does.
    fn update(&mut self, msg: FormMsg) -> (redraw: bool)
        ensures
            final(self).model() == old(self).model().routed(msg.field as int, msg.msg),
            redraw == (msg.field < old(self).model().fields.len() && msg.msg is Value),
    {
        if msg.field < self.fields.len() {
            let ghost before = self.fields@;
            let redraw = self.fields[msg.field].update(msg.msg);
            assert(self.fields@ =~= before.update(msg.field as int, self.fields@[msg.field as int]));
            assert(self.model().fields =~= old(self).model().routed(
                msg.field as int,
                msg.msg,
            ).fields);
            redraw
        } else {
            false
        }
    }

    fn reset(&mut self)
        ensures
            final(self).model() == old(self).model().restored(),
            !final(self).model().changed(),
    {
        let ghost before = self.fields@;
        let mut i: usize = 0;
        while i < self.fields.len()
            invariant
                i <= self.fields@.len(),
                self.fields@.len() == before.len(),
                forall|j: int|
                    0 <= j < i ==> (#[trigger] self.fields@[j]).model() == before[j].model().restored(),
                forall|j: int| i <= j < before.len() ==> #[trigger] self.fields@[j] == before[j],
            decreases self.fields@.len() - i,
        {
            let ghost current = self.fields@;
            self.fields[i].reset();
            assert(self.fields@ =~= current.update(i as int, self.fields@[i as int]));
            i += 1;
        }
        assert(self.model().fields =~= old(self).model().restored().fields);
    }

    /// The inputs' values in order where every input has one, else nothing.
    fn value(&self) -> (value: Option<Vec<String>>)
        ensures
            match value {
                Some(record) => self.model().value() == Some(texts(record@)),
                None => self.model().value() is None,
            },
    {
        let mut record: Vec<String> = Vec::new();
        let mut i: usize = 0;
        while i < self.fields.len()
            invariant
                i <= self.fields@.len(),
                record@.len() == i,
                forall|j: int|
                    0 <= j < i ==> (#[trigger] self.model().fields[j]).read() == Some(record@[j]@),
            decreases self.fields@.len() - i,
        {
            let value = self.fields[i].value();
            proof {
                text_value_is_text(self.model().fields[i as int], value);
            }
            match value {
                Some(text) => {
                    proof {
                        texts_push(record@, text);
                    }
                    record.push(text);
                },
                None => {
                    return None;
                },
            }
            i += 1;
        }
        assert(texts(record@) =~= self.model().record());
        Some(record)
    }

    /// What is drawn for each input, in order.
    fn view(&self) -> (views: Vec<InputView>)
        ensures
            self.model().draws(views@),
    {
        let mut views: Vec<InputView> = Vec::new();
        let mut i: usize = 0;
        while i < self.fields.len()
            invariant
                i <= self.fields@.len(),
                views@.len() == i,
                forall|j: int|
                    0 <= j < i ==> (#[trigger] self.model().fields[j]).draws(false, views@[j]),
            decreases self.fields@.len() - i,
        {
            let view = self.fields[i].view(false);
            views.push(view);
            i += 1;
        }
        views
    }

    fn has_changed(&self) -> (changed: bool)
        ensures
            changed == self.model().changed(),
    {
        let mut changed = false;
        let mut i: usize = 0;
        while i < self.fields.len()
            invariant
                i <= self.fields@.len(),
                changed == exists|j: int|
                    0 <= j < i && (#[trigger] self.model().fields[j]).changed(),
            decreases self.fields@.len() - i,
        {
            let here = self.fields[i].has_changed();
            assert(here == self.model().fields[i as int].changed());
            if here {
                changed = true;
            }
            i += 1;
        }
        changed
    }
}

/// A form has a value exactly where every one of its inputs has one, and the
/// value is then the inputs' values in order.
pub proof fn form_value_iff_all_present(form: FormModel)
    ensures
        form.value() is Some <==> (forall|i: int|
            0 <= i < form.fields.len() ==> !(#[trigger] form.fields[i]).yields(None)),
        form.value() matches Some(record) ==> record.len() == form.fields.len() && (forall|i: int|
            0 <= i < form.fields.len() ==> (#[trigger] form.fields[i]).read() == Some(record[i])),
{
    assert forall|i: int| 0 <= i < form.fields.len() implies ((#[trigger] form.fields[i]).read()
        is Some <==> !form.fields[i].yields(None)) by {
        text_value_is_text(form.fields[i], None);
    }
}

/// One input without a value leaves the form without one.
pub proof fn absent_field_empties_form(form: FormModel, field: int)
    requires
        0 <= field < form.fields.len(),
        form.fields[field].yields(None),
    ensures
        form.value() is None,
{
    text_value_is_text(form.fields[field], None);
}

/// Emptying any one input of a form leaves the form without a value,
/// whatever it had before.
pub proof fn emptied_field_empties_form(form: FormModel, field: int, text: String)
    requires
        0 <= field < form.fields.len(),
        text@.len() == 0,
    ensures
        form.routed(field, Msg::Value(text)).value() is None,
{
    let after = form.routed(field, Msg::Value(text));
    assert(after.fields[field].read() is None);
}

/// After a reset no input of the form has changed, nor has the form.
pub proof fn reset_restores_form(form: FormModel)
    ensures
        !form.restored().changed(),
        form.restored().restored() == form.restored(),
        form.restored().fields.len() == form.fields.len(),
{
    assert(form.restored().restored().fields =~= form.restored().fields);
}

} // verus!
