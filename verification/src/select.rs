use crate::decimal::{parse, parsed};
use crate::field::Field;
use vstd::prelude::*;

verus! {

pub enum Msg {
    /// The entry with this id was picked.
    Value(i64),
    /// The list lost the focus.
    Blur,
}

/// The message for a pick that was read as `id`: none where it was read as
/// nothing.
pub open spec fn pick_of(id: Option<i64>) -> Option<Msg> {
    match id {
        Some(id) => Some(Msg::Value(id)),
        None => None,
    }
}

/// The message for the text that a list hands over when an entry is picked:
/// a pick of the id that the text writes, and none where it writes no id.
pub fn pick_text(text: &str) -> (msg: Option<Msg>)
    ensures
        msg == pick_of(parsed(text@)),
{
    match parse(text) {
        Some(id) => Some(Msg::Value(id)),
        None => None,
    }
}

/// One line of the list as it is drawn.
pub struct OptionView {
    pub id: i64,
    pub name: String,
    pub selected: bool,
}

/// What is drawn for a list.
pub struct SelectView {
    pub label: String,
    /// The list is marked as faulty.
    pub danger: bool,
    pub disabled: bool,
    pub options: Vec<OptionView>,
}

/// The mathematical content of a [`SelectField`].
pub ghost struct SelectModel {
    pub label: Seq<char>,
    /// The placeholder entry, which is drawn first and is no suggestion.
    pub default: Option<(i64, Seq<char>)>,
    pub initial: Option<i64>,
    pub value: Option<i64>,
    pub suggestions: Seq<(i64, Seq<char>)>,
    pub optional: bool,
    pub untouched: bool,
}

/// The entries of a list, each name as its characters.
pub open spec fn listed(entries: Seq<(i64, String)>) -> Seq<(i64, Seq<char>)> {
    entries.map_values(|entry: (i64, String)| (entry.0, entry.1@))
}

/// The id of the first of `entries`, if there is one.
pub open spec fn first_id(entries: Seq<(i64, Seq<char>)>) -> Option<i64> {
    if entries.len() > 0 {
        Some(entries[0].0)
    } else {
        None
    }
}

impl SelectModel {
    /// `id` is the id of a suggestion.
    pub open spec fn offers(self, id: i64) -> bool {
        exists|i: int| 0 <= i < self.suggestions.len() && (#[trigger] self.suggestions[i]).0 == id
    }

    /// What picking `id` selects: `id` where it is a suggestion's, else nothing.
    pub open spec fn chosen(self, id: i64) -> Option<i64> {
        if self.offers(id) {
            Some(id)
        } else {
            None
        }
    }

    /// The baseline: what the list stands at when it is built, what changes
    /// are told from, and where a reset goes. It is the initial selection
    /// where one was given, else the placeholder's id, else the first
    /// suggestion's id, else nothing.
    pub open spec fn home(self) -> Option<i64> {
        match self.initial {
            Some(initial) => Some(initial),
            None => match self.default {
                Some(entry) => Some(entry.0),
                None => first_id(self.suggestions),
            },
        }
    }

    /// The selection differs from the baseline.
    pub open spec fn changed(self) -> bool {
        self.value != self.home()
    }

    /// The list after `id` was picked.
    pub open spec fn picked(self, id: i64) -> Self {
        SelectModel { value: self.chosen(id), untouched: false, ..self }
    }

    /// The list after it lost the focus.
    pub open spec fn blurred(self) -> Self {
        SelectModel { untouched: false, ..self }
    }

    /// The list after a reset: it stands at the baseline.
    pub open spec fn restored(self) -> Self {
        SelectModel { value: self.home(), ..self }
    }

    /// The entries that are drawn: the placeholder, then the suggestions.
    pub open spec fn entries(self) -> Seq<(i64, Seq<char>)> {
        match self.default {
            Some(entry) => seq![entry] + self.suggestions,
            None => self.suggestions,
        }
    }

    /// `option` is the line drawn for `entry`: it is marked where the entry is
    /// the initial selection.
    pub open spec fn draws(self, entry: (i64, Seq<char>), option: OptionView) -> bool {
        &&& option.id == entry.0
        &&& option.name@ == entry.1
        &&& option.selected == (self.initial == Some(entry.0))
    }

    /// `options` are the lines drawn for the list, in order.
    pub open spec fn draws_all(self, options: Seq<OptionView>) -> bool {
        &&& options.len() == self.entries().len()
        &&& forall|i: int|
            0 <= i < options.len() ==> self.draws(self.entries()[i], #[trigger] options[i])
    }
}

/// A choice of one among numbered suggestions.
pub struct SelectField {
    label: String,
    default: Option<(i64, String)>,
    initial: Option<i64>,
    value: Option<i64>,
    suggestions: Vec<(i64, String)>,
    optional: bool,
    untouched: bool,
}

impl SelectField {
    pub closed spec fn model(&self) -> SelectModel {
        SelectModel {
            label: self.label@,
            default: match self.default {
                Some(entry) => Some((entry.0, entry.1@)),
                None => None,
            },
            initial: self.initial,
            value: self.value,
            suggestions: listed(self.suggestions@),
            optional: self.optional,
            untouched: self.untouched,
        }
    }

    /// A required list without placeholder or initial selection, on which the
    /// first suggestion is selected.
    pub fn new(label: &str, suggestions: Vec<(i64, String)>) -> (field: Self)
        ensures
            field.model() == (SelectModel {
                label: label@,
                default: None,
                initial: None,
                value: first_id(listed(suggestions@)),
                suggestions: listed(suggestions@),
                optional: false,
                untouched: true,
            }),
            !field.model().changed(),
    {
        let value = if suggestions.len() > 0 {
            Some(suggestions[0].0)
        } else {
            None
        };
        SelectField {
            label: label.to_owned(),
            default: None,
            initial: None,
            value,
            suggestions,
            optional: false,
            untouched: true,
        }
    }

    /// Selects `initial`, and makes it the baseline.
    pub fn initial(self, initial: i64) -> (field: Self)
        ensures
            field.model() == (SelectModel {
                initial: Some(initial),
                value: Some(initial),
                ..self.model()
            }),
            !field.model().changed(),
    {
        let mut field = self;
        field.initial = Some(initial);
        field.value = Some(initial);
        field
    }

    /// Gives the list a placeholder entry, and says whether it may stay
    /// without selection. A list without initial selection then stands at the
    /// placeholder, which is its baseline from now on; one with an initial
    /// selection keeps its selection and its baseline.
    pub fn default(self, id: i64, name: &str, optional: bool) -> (field: Self)
        ensures
            field.model() == (SelectModel {
                default: Some((id, name@)),
                optional,
                value: if self.model().initial is Some {
                    self.model().value
                } else {
                    Some(id)
                },
                ..self.model()
            }),
            field.model().changed() == (self.model().initial is Some && self.model().changed()),
    {
        let mut field = self;
        if field.initial.is_none() {
            field.value = Some(id);
        }
        field.default = Some((id, name.to_owned()));
        field.optional = optional;
        field
    }

    /// The baseline.
    fn home(&self) -> (home: Option<i64>)
        ensures
            home == self.model().home(),
    {
        match self.initial {
            Some(initial) => Some(initial),
            None => match &self.default {
                Some(entry) => Some(entry.0),
                None => if self.suggestions.len() > 0 {
                    Some(self.suggestions[0].0)
                } else {
                    None
                },
            },
        }
    }

    /// The line that is drawn for one entry.
    fn view_option(&self, suggestion: &(i64, String)) -> (option: OptionView)
        ensures
            self.model().draws((suggestion.0, suggestion.1@), option),
    {
        let selected = match self.initial {
            Some(initial) => initial == suggestion.0,
            None => false,
        };
        OptionView { id: suggestion.0, name: suggestion.1.clone(), selected }
    }

    /// The lines that are drawn: the placeholder's, then the suggestions'.
    fn view_options(&self) -> (options: Vec<OptionView>)
        ensures
            self.model().draws_all(options@),
    {
        let mut options: Vec<OptionView> = Vec::new();
        let ghost lead: int = 0;
        match &self.default {
            Some(entry) => {
                let option = self.view_option(entry);
                options.push(option);
                proof {
                    lead = 1;
                }
            },
            None => {},
        }
        let mut i: usize = 0;
        while i < self.suggestions.len()
            invariant
                i <= self.suggestions.len(),
                lead == (if self.model().default is Some { 1int } else { 0int }),
                options@.len() == lead + i,
                self.model().entries().len() == lead + self.suggestions.len(),
                forall|j: int|
                    0 <= j < options@.len() ==> self.model().draws(
                        self.model().entries()[j],
                        #[trigger] options@[j],
                    ),
            decreases self.suggestions.len() - i,
        {
            let option = self.view_option(&self.suggestions[i]);
            assert(self.model().entries()[lead + i] == (
                self.suggestions@[i as int].0,
                self.suggestions@[i as int].1@,
            ));
            options.push(option);
            i += 1;
        }
        options
    }

    /// The selection that picking `id` makes.
    fn lookup(&self, id: i64) -> (chosen: Option<i64>)
        ensures
            chosen == self.model().chosen(id),
    {
        let mut i: usize = 0;
        while i < self.suggestions.len()
            invariant
                i <= self.suggestions.len(),
                forall|j: int| 0 <= j < i ==> (#[trigger] self.model().suggestions[j]).0 != id,
                self.model().suggestions.len() == self.suggestions.len(),
            decreases self.suggestions.len() - i,
        {
            if self.suggestions[i].0 == id {
                assert(self.model().suggestions[i as int].0 == id);
                return Some(id);
            }
            i += 1;
        }
        None
    }
}

impl Field for SelectField {
    type Msg = Msg;

    type Value = Option<i64>;

    type View = SelectView;

    /// Marks the list as touched and, on `Msg::Value`, selects the id where
    /// it is a suggestion's and nothing where it is not. Only a pick asks for
    /// a redraw.
    fn update(&mut self, msg: Msg) -> (redraw: bool)
        ensures
            final(self).model() == match msg {
                Msg::Value(id) => old(self).model().picked(id),
                Msg::Blur => old(self).model().blurred(),
            },
            redraw == (msg is Value),
    {
        match msg {
            Msg::Value(id) => {
                let chosen = self.lookup(id);
                self.untouched = false;
                self.value = chosen;
                true
            },
            Msg::Blur => {
                self.untouched = false;
                false
            },
        }
    }

    /// Goes back to the baseline: the initial selection where one was given,
    /// else the placeholder's id, else the first suggestion's id, else nothing.
    fn reset(&mut self)
        ensures
            final(self).model() == old(self).model().restored(),
            !final(self).model().changed(),
    {
        let home = self.home();
        self.value = home;
    }

    fn value(&self) -> (value: Option<i64>)
        ensures
            value == self.model().value,
    {
        self.value
    }

    fn has_changed(&self) -> (changed: bool)
        ensures
            changed == self.model().changed(),
    {
        match (self.home(), self.value) {
            (Some(home), Some(value)) => home != value,
            (None, None) => false,
            _ => true,
        }
    }

    fn view(&self, readonly: bool) -> (view: SelectView)
        ensures
            view.label@ == self.model().label,
            view.danger == (self.model().value is None && !self.model().optional),
            view.disabled == readonly,
            self.model().draws_all(view.options@),
    {
        SelectView {
            label: self.label.clone(),
            danger: self.value.is_none() && !self.optional,
            disabled: readonly,
            options: self.view_options(),
        }
    }
}

/// Picking an id says what is selected by the id and the suggestions alone:
/// the id where it is a suggestion's, nothing where it is not.
pub proof fn pick_selects_known_only(list: SelectModel, id: i64)
    ensures
        list.offers(id) ==> list.picked(id).value == Some(id),
        !list.offers(id) ==> list.picked(id).value is None,
        list.picked(id).suggestions == list.suggestions,
{
}

/// Picking an id that is no suggestion's on a list without selection leaves
/// it without selection.
pub proof fn unknown_pick_keeps_none(list: SelectModel, id: i64)
    requires
        !list.offers(id),
        list.value is None,
    ensures
        list.picked(id).value == list.value,
{
}

/// Losing the focus changes nothing in the selection.
pub proof fn blur_keeps_selection(list: SelectModel)
    ensures
        list.blurred().value == list.value,
        list.blurred().changed() == list.changed(),
{
}

/// After a reset the list stands at its baseline, which is the initial
/// selection where one was given, and has not changed.
pub proof fn reset_goes_home(list: SelectModel)
    ensures
        list.restored().value == list.home(),
        list.initial is Some ==> list.restored().value == list.initial,
        !list.restored().changed(),
        list.restored().restored() == list.restored(),
{
}

/// Neither picks nor resets move the baseline.
pub proof fn baseline_is_frozen(list: SelectModel, id: i64)
    ensures
        list.picked(id).home() == list.home(),
        list.blurred().home() == list.home(),
        list.restored().home() == list.home(),
{
}

} // verus!
