use crate::text::texts;
use std::rc::Rc;
use vstd::prelude::*;

verus! {

/// `class` where `flag` holds, and no class where it does not.
pub open spec fn when(flag: bool, class: Seq<char>) -> Seq<Seq<char>> {
    if flag {
        seq![class]
    } else {
        Seq::empty()
    }
}

/// What is drawn for a button.
pub struct ButtonView<C> {
    /// The classes of the button itself.
    pub classes: Vec<String>,
    pub disabled: bool,
    /// The button is there but not shown, so that what stands beside it stays
    /// in place.
    pub hidden: bool,
    /// The classes of the frame round the icon.
    pub icon_classes: Vec<String>,
    /// The classes that pick the icon.
    pub glyph_classes: Vec<String>,
    /// The words on the button, where it has any.
    pub text: Option<String>,
    /// What a click calls.
    pub on_click: Rc<C>,
}

/// The mathematical content of a [`Button`].
pub ghost struct ButtonModel<C> {
    pub text: Seq<char>,
    pub style: Seq<char>,
    pub icon: Seq<char>,
    pub large: bool,
    pub outlined: bool,
    pub light: bool,
    pub fullwidth: bool,
    pub rounded: bool,
    pub on_click: C,
}

impl<C> ButtonModel<C> {
    /// A button with these words, colour and icon, and with no flag set.
    pub open spec fn plain(text: Seq<char>, style: Seq<char>, icon: Seq<char>, on_click: C) -> Self {
        ButtonModel {
            text,
            style,
            icon,
            large: false,
            outlined: false,
            light: false,
            fullwidth: false,
            rounded: false,
            on_click,
        }
    }

    /// The classes of the button: `button`, its colour, and one for each of
    /// the flags for size, outline, lightness and width that is set.
    pub open spec fn classes(self) -> Seq<Seq<char>> {
        seq!["button"@, self.style] + when(self.large, "is-large"@) + when(
            self.outlined,
            "is-outlined"@,
        ) + when(self.light, "is-light"@) + when(self.fullwidth, "is-fullwidth"@)
    }

    /// The classes of the icon's frame: it is small unless the button is large.
    pub open spec fn icon_classes(self) -> Seq<Seq<char>> {
        seq!["icon"@] + when(!self.large, "is-small"@)
    }

    pub open spec fn glyph_classes(self) -> Seq<Seq<char>> {
        seq!["fas"@, self.icon]
    }

    /// The words on the button; none where the text is empty.
    pub open spec fn caption(self) -> Option<Seq<char>> {
        if self.text.len() == 0 {
            None
        } else {
            Some(self.text)
        }
    }

    /// `view` is what is drawn for the button, hidden and disabled as said.
    pub open spec fn draws(self, hidden: bool, disabled: bool, view: ButtonView<C>) -> bool {
        &&& texts(view.classes@) == self.classes()
        &&& view.disabled == disabled
        &&& view.hidden == hidden
        &&& texts(view.icon_classes@) == self.icon_classes()
        &&& texts(view.glyph_classes@) == self.glyph_classes()
        &&& match view.text {
            Some(text) => self.caption() == Some(text@),
            None => self.caption() is None,
        }
        &&& *view.on_click == self.on_click
    }
}

/// A button: words, a colour, an icon, some flags, and what a click calls.
pub struct Button<C> {
    text: String,
    style: String,
    icon: String,
    large: bool,
    outlined: bool,
    light: bool,
    fullwidth: bool,
    rounded: bool,
    on_click: Rc<C>,
}

/// Another handle on the same shared value, by `Rc::clone`: what it points to
/// is what `handle` points to.
#[verifier::external_body]
fn share<C>(handle: &Rc<C>) -> (shared: Rc<C>)
    ensures
        shared == *handle,
{
    Rc::clone(handle)
}

/// Adds `class` to `classes` where `flag` holds.
fn push_when(classes: &mut Vec<String>, flag: bool, class: &str)
    ensures
        texts(final(classes)@) == texts(old(classes)@) + when(flag, class@),
{
    let ghost before = classes@;
    if flag {
        classes.push(class.to_owned());
        assert(texts(classes@) =~= texts(before) + seq![class@]);
    } else {
        assert(texts(classes@) =~= texts(before) + Seq::<Seq<char>>::empty());
    }
}

impl<Msg, C: Fn() -> Msg> Button<C> {
    pub closed spec fn model(&self) -> ButtonModel<C> {
        ButtonModel {
            text: self.text@,
            style: self.style@,
            icon: self.icon@,
            large: self.large,
            outlined: self.outlined,
            light: self.light,
            fullwidth: self.fullwidth,
            rounded: self.rounded,
            on_click: *self.on_click,
        }
    }

    pub fn create(on_click: C) -> (button: Self)
        ensures
            button.model() == ButtonModel::plain("create"@, "is-success"@, "fa-plus"@, on_click),
    {
        Self::custom("create", "is-success", "fa-plus", on_click)
    }

    pub fn confirm(on_click: C) -> (button: Self)
        ensures
            button.model() == ButtonModel::plain("confirm"@, "is-success"@, "fa-check"@, on_click),
    {
        Self::custom("confirm", "is-success", "fa-check", on_click)
    }

    pub fn delete(on_click: C) -> (button: Self)
        ensures
            button.model() == ButtonModel::plain("delete"@, "is-danger"@, "fa-times"@, on_click),
    {
        Self::custom("delete", "is-danger", "fa-times", on_click)
    }

    pub fn trash(on_click: C) -> (button: Self)
        ensures
            button.model() == ButtonModel::plain(""@, "is-danger"@, "fa-trash"@, on_click),
    {
        Self::custom("", "is-danger", "fa-trash", on_click)
    }

    pub fn save(on_click: C) -> (button: Self)
        ensures
            button.model() == ButtonModel::plain(""@, "is-success"@, "fa-save"@, on_click),
    {
        Self::custom("", "is-success", "fa-save", on_click)
    }

    pub fn play(on_click: C) -> (button: Self)
        ensures
            button.model() == ButtonModel::plain("play"@, "is-success"@, "fa-play"@, on_click),
    {
        Self::custom("play", "is-success", "fa-play", on_click)
    }

    pub fn stop(on_click: C) -> (button: Self)
        ensures
            button.model() == ButtonModel::plain("stop"@, "is-danger"@, "fa-square"@, on_click),
    {
        Self::custom("stop", "is-danger", "fa-square", on_click)
    }

    pub fn pause(on_click: C) -> (button: Self)
        ensures
            button.model() == ButtonModel::plain("pause"@, ""@, "fa-pause"@, on_click),
    {
        Self::custom("pause", "", "fa-pause", on_click)
    }

    pub fn resume(on_click: C) -> (button: Self)
        ensures
            button.model() == ButtonModel::plain("resume"@, ""@, "fa-play"@, on_click),
    {
        Self::custom("resume", "", "fa-play", on_click)
    }

    pub fn next(on_click: C) -> (button: Self)
        ensures
            button.model() == ButtonModel::plain("next"@, "is-success"@, "fa-forward"@, on_click),
    {
        Self::custom("next", "is-success", "fa-forward", on_click)
    }

    pub fn custom(text: &str, style: &str, icon: &str, on_click: C) -> (button: Self)
        ensures
            button.model() == ButtonModel::plain(text@, style@, icon@, on_click),
    {
        Button {
            text: text.to_owned(),
            style: style.to_owned(),
            icon: icon.to_owned(),
            large: false,
            outlined: false,
            light: false,
            fullwidth: false,
            rounded: false,
            on_click: Rc::new(on_click),
        }
    }

    pub fn outlined(self) -> (button: Self)
        ensures
            button.model() == (ButtonModel { outlined: true, ..self.model() }),
    {
        let mut button = self;
        button.outlined = true;
        button
    }

    pub fn large(self) -> (button: Self)
        ensures
            button.model() == (ButtonModel { large: true, ..self.model() }),
    {
        let mut button = self;
        button.large = true;
        button
    }

    pub fn light(self) -> (button: Self)
        ensures
            button.model() == (ButtonModel { light: true, ..self.model() }),
    {
        let mut button = self;
        button.light = true;
        button
    }

    pub fn fullwidth(self) -> (button: Self)
        ensures
            button.model() == (ButtonModel { fullwidth: true, ..self.model() }),
    {
        let mut button = self;
        button.fullwidth = true;
        button
    }

    pub fn rounded(self) -> (button: Self)
        ensures
            button.model() == (ButtonModel { rounded: true, ..self.model() }),
    {
        let mut button = self;
        button.rounded = true;
        button
    }

    fn view(&self, hidden: bool, disabled: bool) -> (view: ButtonView<C>)
        ensures
            self.model().draws(hidden, disabled, view),
    {
        let mut classes: Vec<String> = Vec::new();
        classes.push("button".to_owned());
        classes.push(self.style.clone());
        assert(texts(classes@) =~= seq!["button"@, self.style@]);
        push_when(&mut classes, self.large, "is-large");
        push_when(&mut classes, self.outlined, "is-outlined");
        push_when(&mut classes, self.light, "is-light");
        push_when(&mut classes, self.fullwidth, "is-fullwidth");
        let mut icon_classes: Vec<String> = Vec::new();
        icon_classes.push("icon".to_owned());
        assert(texts(icon_classes@) =~= seq!["icon"@]);
        push_when(&mut icon_classes, !self.large, "is-small");
        let mut glyph_classes: Vec<String> = Vec::new();
        glyph_classes.push("fas".to_owned());
        glyph_classes.push(self.icon.clone());
        assert(texts(glyph_classes@) =~= seq!["fas"@, self.icon@]);
        let text = if self.text.as_str().is_empty() {
            None
        } else {
            Some(self.text.clone())
        };
        ButtonView {
            classes,
            disabled,
            hidden,
            icon_classes,
            glyph_classes,
            text,
            on_click: share(&self.on_click),
        }
    }

    /// The button as it is drawn in its place, disabled or not.
    pub fn disabled(&self, disabled: bool) -> (view: ButtonView<C>)
        ensures
            self.model().draws(false, disabled, view),
    {
        self.view(false, disabled)
    }

    /// The button as it is drawn enabled, hidden or not.
    pub fn hidden(&self, hidden: bool) -> (view: ButtonView<C>)
        ensures
            self.model().draws(hidden, false, view),
    {
        self.view(hidden, false)
    }

    /// The button as it is drawn in its place and enabled.
    pub fn shown(&self) -> (view: ButtonView<C>)
        ensures
            self.model().draws(false, false, view),
    {
        self.view(false, false)
    }
}

} // verus!
