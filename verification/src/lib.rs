//! Widgets for forms: text inputs, lists, sliders, switches and buttons, each a
//! small state machine that takes messages, is read as a value, and says what
//! is to be drawn for it; and forms, which are several inputs taken as one.
//!
//! Every widget has a mathematical model, and every function says in its
//! contract what it does to the model. Nothing here draws: a widget's `view`
//! gives plain values, which a renderer turns into nodes.

pub mod button;
pub mod decimal;
pub mod derive;
pub mod field;
pub mod form;
pub mod graph;
pub mod input;
pub mod select;
pub mod slider;
pub mod text;
pub mod toggle;
pub mod validator;

pub use button::{Button, ButtonView};
pub use crate::derive::{title_case, Derivation, FieldInfo};
pub use field::{Field, EMPTY};
pub use form::{Form, FormMsg, InputForm};
pub use graph::{Graph, GraphView};
pub use input::{InputField, InputView};
pub use select::{OptionView, SelectField, SelectView};
pub use slider::{Linear, Mapping, Number, SliderField, SliderView};
pub use toggle::{ToggleField, ToggleView};
pub use validator::{Validator, Verbatim};
