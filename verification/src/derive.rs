use crate::form::{FormModel, InputForm};
use vstd::prelude::*;
use vstd::string::{StrSliceExecFns, StringExecFns};

verus! {

/// The upper-case form of a character, which may be several characters.
pub uninterp spec fn uppercase(c: char) -> Seq<char>;

/// The upper-case form of `c`, by `char::to_uppercase`: the characters that
/// it gives, in order. What they are rests on Unicode's tables, so the result
/// has a name only.
#[verifier::external_body]
fn to_uppercase(c: char) -> (upper: String)
    ensures
        upper@ == uppercase(c),
{
    c.to_uppercase().collect()
}

/// A text without its first character; an empty text stays as it is.
pub open spec fn tail(text: Seq<char>) -> Seq<char> {
    if text.len() == 0 {
        text
    } else {
        text.subrange(1, text.len() as int)
    }
}

/// A text with its first character in upper case; an empty text stays as it
/// is.
pub open spec fn title_cased(text: Seq<char>) -> Seq<char> {
    if text.len() == 0 {
        text
    } else {
        uppercase(text[0]) + tail(text)
    }
}

/// `text` with `head` in place of its first character.
pub fn with_head(head: String, text: &str) -> (whole: String)
    ensures
        whole@ == head@ + tail(text@),
{
    let length = text.unicode_len();
    if length == 0 {
        assert(head@ + tail(text@) =~= head@);
        head
    } else {
        head.concat(text.substring_char(1, length))
    }
}

/// `text` with its first character in upper case.
pub fn title_case(text: &str) -> (titled: String)
    ensures
        titled@ == title_cased(text@),
{
    if text.unicode_len() == 0 {
        assert(text@ =~= Seq::<char>::empty());
        String::new()
    } else {
        with_head(to_uppercase(text.get_char(0)), text)
    }
}

/// What is known of one field of a record.
pub struct FieldInfo {
    pub name: String,
    /// The name of the field's messages: the field's name in title case.
    pub msg_name: String,
    /// The field's type, as it is written.
    pub ty: String,
    pub initial: Option<String>,
}

impl FieldInfo {
    /// The info describes the field `name` of type `ty`.
    pub open spec fn describes(self, name: Seq<char>, ty: Seq<char>) -> bool {
        &&& self.name@ == name
        &&& self.msg_name@ == title_cased(name)
        &&& self.ty@ == ty
        &&& self.initial is None
    }

    pub fn new(name: &str, ty: &str) -> (info: Self)
        ensures
            info.describes(name@, ty@),
    {
        FieldInfo {
            name: name.to_owned(),
            msg_name: title_case(name),
            ty: ty.to_owned(),
            initial: None,
        }
    }
}

/// What the form of a record is made from: the record's name, the name of
/// its form, and its fields in order.
pub struct Derivation {
    pub name: String,
    pub form_name: String,
    pub fields: Vec<FieldInfo>,
}

impl Derivation {
    /// The derivation is that of the record `name` with these fields, each a
    /// name and a type.
    pub open spec fn derives(self, name: Seq<char>, fields: Seq<(String, String)>) -> bool {
        &&& self.name@ == name
        &&& self.form_name@ == name + "Form"@
        &&& self.fields@.len() == fields.len()
        &&& forall|i: int|
            0 <= i < fields.len() ==> (#[trigger] self.fields@[i]).describes(
                fields[i].0@,
                fields[i].1@,
            )
    }

    /// The record's form: one fresh text input for each field.
    pub fn form(&self) -> (form: InputForm)
        ensures
            form.model() == FormModel::blank(self.fields@.len()),
    {
        InputForm::new(self.fields.len())
    }
}

/// The name of the form of the record `name`.
pub fn form_name(name: &str) -> (form_name: String)
    ensures
        form_name@ == name@ + "Form"@,
{
    name.to_owned().concat("Form")
}

/// Derives the form of the record `name` from its fields, each given by its
/// name and its type.
pub fn derive(name: &str, fields: &Vec<(String, String)>) -> (derivation: Derivation)
    ensures
        derivation.derives(name@, fields@),
{
    let mut infos: Vec<FieldInfo> = Vec::new();
    let mut i: usize = 0;
    while i < fields.len()
        invariant
            i <= fields@.len(),
            infos@.len() == i,
            forall|j: int|
                0 <= j < i ==> (#[trigger] infos@[j]).describes(fields@[j].0@, fields@[j].1@),
        decreases fields@.len() - i,
    {
        let info = FieldInfo::new(fields[i].0.as_str(), fields[i].1.as_str());
        infos.push(info);
        i += 1;
    }
    Derivation { name: name.to_owned(), form_name: form_name(name), fields: infos }
}

} // verus!
