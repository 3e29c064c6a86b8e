use frontend::input::Msg;
use frontend::{Field, InputField, EMPTY};

fn whole_number(text: &str) -> Result<u32, String> {
    text.parse::<u32>().map_err(|_| "Must be a whole number.".to_owned())
}

#[test]
fn fresh_text_input_takes_a_name() {
    let mut field = InputField::string("name");
    assert_eq!(field.value(), None);
    assert!(!field.has_changed());
    assert!(field.update(Msg::Value("Ada".to_owned())));
    assert_eq!(field.value(), Some("Ada".to_owned()));
    assert!(field.has_changed());
}

#[test]
fn required_message_is_fixed() {
    assert_eq!(EMPTY, "This field is required.");
}

#[test]
fn new_inputs_have_not_changed() {
    assert!(!InputField::string("name").has_changed());
    assert!(!InputField::new("age", whole_number).has_changed());
    assert!(!InputField::new("age", whole_number).initial(42).has_changed());
    assert!(!InputField::string("name").optional().placeholder("your name").has_changed());
    assert!(!InputField::string("name").initial("Ada".to_owned()).has_changed());
}

#[test]
fn initial_value_is_the_first_text() {
    let field = InputField::new("age", whole_number).initial(42);
    assert_eq!(field.value(), Some(42));
    let field = InputField::string("name").initial("Ada".to_owned());
    assert_eq!(field.value(), Some("Ada".to_owned()));
}

#[test]
fn input_reset_goes_back_to_initial() {
    let mut field = InputField::new("age", whole_number).initial(42);
    field.update(Msg::Value("17".to_owned()));
    assert_eq!(field.value(), Some(17));
    assert!(field.has_changed());
    field.reset();
    assert_eq!(field.value(), Some(42));
    assert!(!field.has_changed());
}

#[test]
fn input_reset_without_initial_empties() {
    let mut field = InputField::string("name");
    field.update(Msg::Value("Ada".to_owned()));
    field.reset();
    assert_eq!(field.value(), None);
    assert!(!field.has_changed());
}

#[test]
fn input_reset_keeps_the_touch() {
    let mut field = InputField::string("name");
    field.update(Msg::Blur);
    field.reset();
    let view = field.view(false);
    assert!(view.danger);
    assert_eq!(view.error, EMPTY);
}

#[test]
fn value_is_there_where_text_is_accepted() {
    let mut field = InputField::new("age", whole_number);
    assert_eq!(field.value(), None);
    field.update(Msg::Value("12".to_owned()));
    assert_eq!(field.value(), Some(12));
    field.update(Msg::Value("twelve".to_owned()));
    assert_eq!(field.value(), None);
    field.update(Msg::Value(String::new()));
    assert_eq!(field.value(), None);
}

#[test]
fn empty_text_is_not_shown_to_the_validator() {
    let mut field = InputField::new("any", |text: &str| -> Result<usize, String> { Ok(text.len()) });
    assert_eq!(field.value(), None);
    field.update(Msg::Value("abc".to_owned()));
    assert_eq!(field.value(), Some(3));
    field.update(Msg::Value(String::new()));
    assert_eq!(field.value(), None);
}

#[test]
fn blur_keeps_the_value() {
    let mut field = InputField::new("age", whole_number);
    assert!(!field.update(Msg::Blur));
    assert_eq!(field.value(), None);
    assert!(!field.has_changed());
    field.update(Msg::Value("12".to_owned()));
    assert!(!field.update(Msg::Blur));
    assert_eq!(field.value(), Some(12));
    assert!(field.has_changed());
}

#[test]
fn every_new_text_asks_for_a_redraw() {
    let mut field = InputField::string("name");
    assert!(field.update(Msg::Value("Ada".to_owned())));
    assert!(field.update(Msg::Value("Ada".to_owned())));
    assert!(field.update(Msg::Value(String::new())));
}

#[test]
fn untouched_input_shows_no_error() {
    let field = InputField::new("age", whole_number);
    let view = field.view(false);
    assert!(!view.danger);
    assert_eq!(view.error, "");
    let field = InputField::new("age", |_: &str| -> Result<u32, String> { Err("never".to_owned()) })
        .initial(7);
    let view = field.view(false);
    assert!(!view.danger);
    assert_eq!(view.error, "");
}

#[test]
fn touched_required_empty_input_shows_required() {
    let mut field = InputField::new("age", whole_number);
    field.update(Msg::Blur);
    let view = field.view(false);
    assert!(view.danger);
    assert_eq!(view.error, "This field is required.");
}

#[test]
fn touched_optional_empty_input_shows_no_error() {
    let mut field = InputField::new("age", whole_number).optional();
    field.update(Msg::Blur);
    let view = field.view(false);
    assert!(!view.danger);
    assert_eq!(view.error, "");
    assert!(view.optional);
}

#[test]
fn touched_input_shows_what_the_validator_says() {
    let mut field = InputField::new("age", whole_number);
    field.update(Msg::Value("twelve".to_owned()));
    let view = field.view(false);
    assert!(view.danger);
    assert_eq!(view.error, "Must be a whole number.");
    field.update(Msg::Value("12".to_owned()));
    let view = field.view(false);
    assert!(!view.danger);
    assert_eq!(view.error, "");
}

#[test]
fn optional_input_with_text_is_still_validated() {
    let mut field = InputField::new("age", whole_number).optional();
    field.update(Msg::Value("twelve".to_owned()));
    let view = field.view(false);
    assert!(view.danger);
    assert_eq!(view.error, "Must be a whole number.");
}

#[test]
fn input_view_carries_the_settings() {
    let field = InputField::string("name").placeholder("your name");
    let view = field.view(true);
    assert_eq!(view.label, "name");
    assert_eq!(view.placeholder, "your name");
    assert!(view.disabled);
    assert!(!view.optional);
    let view = InputField::string("name").view(false);
    assert_eq!(view.placeholder, "");
    assert!(!view.disabled);
}

#[test]
fn boxed_validators_are_validators() {
    let check: Box<dyn Fn(&str) -> Result<u32, String>> = Box::new(whole_number);
    let mut field = InputField::new("age", check);
    field.update(Msg::Value("5".to_owned()));
    assert_eq!(field.value(), Some(5));
}
