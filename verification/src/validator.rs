use vstd::prelude::*;

verus! {

/// Turns the text of an input into a typed value or an error message.
///
/// A validator may answer differently on each call, so its behaviour is given
/// as a relation: `admits(text, out)` holds of every answer `out` that it can
/// give on `text`. Closures are validators; so is [`Verbatim`].
pub trait Validator<T> {
    /// The validator can be called on any text.
    spec fn ready(&self) -> bool;

    /// `out` is an answer that the validator can give on `text`.
    spec fn admits(&self, text: Seq<char>, out: Result<T, String>) -> bool;

    fn validate(&self, text: &str) -> (out: Result<T, String>)
        requires
            self.ready(),
        ensures
            self.admits(text@, out),
    ;
}

/// The validator of plain text inputs: every text is its own value.
pub struct Verbatim;

impl Validator<String> for Verbatim {
    open spec fn ready(&self) -> bool {
        true
    }

    open spec fn admits(&self, text: Seq<char>, out: Result<String, String>) -> bool {
        out matches Ok(value) && value@ == text
    }

    fn validate(&self, text: &str) -> (out: Result<String, String>) {
        Ok(text.to_owned())
    }
}

impl<T, F: Fn(&str) -> Result<T, String>> Validator<T> for F {
    open spec fn ready(&self) -> bool {
        forall|text: &str| call_requires(*self, (text,))
    }

    open spec fn admits(&self, text: Seq<char>, out: Result<T, String>) -> bool {
        exists|given: &str| given@ == text && #[trigger] call_ensures(*self, (given,), out)
    }

    fn validate(&self, text: &str) -> (out: Result<T, String>) {
        self(text)
    }
}

/// What `ready` and `admits` say of a closure: it is ready where it can be
/// called on every text, and it admits the answers that its own contract
/// allows.
pub proof fn closure_validator<T, F: Fn(&str) -> Result<T, String>>(f: F)
    ensures
        f.ready() <==> forall|text: &str| call_requires(f, (text,)),
        forall|text: Seq<char>, out: Result<T, String>| #[trigger]
            f.admits(text, out) <==> exists|given: &str|
                given@ == text && #[trigger] call_ensures(f, (given,), out),
{
}

} // verus!
