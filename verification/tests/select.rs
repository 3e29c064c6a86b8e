use frontend::select::{pick_text, Msg};
use frontend::{Field, SelectField};

fn genders() -> Vec<(i64, String)> {
    vec![(1, "male".to_owned()), (2, "female".to_owned())]
}

#[test]
fn select_takes_known_ids_only() {
    let mut field = SelectField::new("gender", genders());
    assert_eq!(field.value(), Some(1));
    assert!(field.update(Msg::Value(2)));
    assert_eq!(field.value(), Some(2));
    assert!(field.update(Msg::Value(99)));
    assert_eq!(field.value(), None);
}

#[test]
fn unknown_id_on_empty_selection_keeps_it_empty() {
    let mut field = SelectField::new("gender", genders());
    field.update(Msg::Value(99));
    assert_eq!(field.value(), None);
    field.update(Msg::Value(-1));
    assert_eq!(field.value(), None);
    let mut field = SelectField::new("none", Vec::new());
    assert_eq!(field.value(), None);
    field.update(Msg::Value(1));
    assert_eq!(field.value(), None);
}

#[test]
fn select_without_suggestions_has_not_changed() {
    let field = SelectField::new("none", Vec::new());
    assert_eq!(field.value(), None);
    assert!(!field.has_changed());
}

#[test]
fn select_with_initial_has_not_changed() {
    let field = SelectField::new("gender", genders()).initial(2);
    assert_eq!(field.value(), Some(2));
    assert!(!field.has_changed());
    let field = SelectField::new("gender", genders()).initial(2).default(0, "enter gender", true);
    assert!(!field.has_changed());
}

#[test]
fn fresh_select_stands_at_the_first_suggestion_unchanged() {
    let field = SelectField::new("gender", genders());
    assert_eq!(field.value(), Some(1));
    assert!(!field.has_changed());
}

#[test]
fn select_with_placeholder_stands_at_it_unchanged() {
    let field = SelectField::new("gender", genders()).default(0, "enter gender", false);
    assert_eq!(field.value(), Some(0));
    assert!(!field.has_changed());
    let field = SelectField::new("none", Vec::new()).default(7, "nothing here", true);
    assert_eq!(field.value(), Some(7));
    assert!(!field.has_changed());
}

#[test]
fn placeholder_leaves_an_initial_selection() {
    let field = SelectField::new("gender", genders()).initial(2).default(0, "enter gender", false);
    assert_eq!(field.value(), Some(2));
    assert!(!field.has_changed());
    let field = SelectField::new("gender", genders()).default(0, "enter gender", false).initial(2);
    assert_eq!(field.value(), Some(2));
    assert!(!field.has_changed());
}

#[test]
fn select_change_is_told_from_the_first_suggestion() {
    let mut field = SelectField::new("gender", genders());
    field.update(Msg::Value(2));
    assert!(field.has_changed());
    field.update(Msg::Value(1));
    assert!(!field.has_changed());
    field.update(Msg::Value(99));
    assert!(field.has_changed());
}

#[test]
fn select_change_is_told_from_initial() {
    let mut field = SelectField::new("gender", genders()).initial(1);
    assert!(!field.has_changed());
    field.update(Msg::Value(2));
    assert!(field.has_changed());
    field.update(Msg::Value(1));
    assert!(!field.has_changed());
    field.update(Msg::Value(99));
    assert!(field.has_changed());
}

#[test]
fn select_reset_goes_to_initial() {
    let mut field = SelectField::new("g", vec![(1, "a".to_owned()), (2, "b".to_owned())]).initial(2);
    field.update(Msg::Value(1));
    assert_eq!(field.value(), Some(1));
    assert!(field.has_changed());
    field.reset();
    assert_eq!(field.value(), Some(2));
    assert!(!field.has_changed());
    let mut field = SelectField::new("gender", genders()).initial(2).default(0, "enter gender", false);
    field.update(Msg::Value(99));
    assert_eq!(field.value(), None);
    field.reset();
    assert_eq!(field.value(), Some(2));
    assert!(!field.has_changed());
}

#[test]
fn select_reset_goes_to_placeholder_without_initial() {
    let mut field = SelectField::new("gender", genders()).default(0, "enter gender", false);
    field.update(Msg::Value(2));
    assert!(field.has_changed());
    field.reset();
    assert_eq!(field.value(), Some(0));
    assert!(!field.has_changed());
}

#[test]
fn select_reset_goes_to_first_suggestion() {
    let mut field = SelectField::new("gender", genders());
    field.update(Msg::Value(2));
    field.reset();
    assert_eq!(field.value(), Some(1));
    assert!(!field.has_changed());
    field.update(Msg::Value(99));
    assert_eq!(field.value(), None);
    field.reset();
    assert_eq!(field.value(), Some(1));
    assert!(!field.has_changed());
}

#[test]
fn select_reset_without_entries_selects_nothing() {
    let mut field = SelectField::new("none", Vec::new());
    field.update(Msg::Value(3));
    field.reset();
    assert_eq!(field.value(), None);
    assert!(!field.has_changed());
    let mut field = SelectField::new("none", Vec::new()).initial(3);
    assert_eq!(field.value(), Some(3));
    field.update(Msg::Value(3));
    assert_eq!(field.value(), None);
    field.reset();
    assert_eq!(field.value(), Some(3));
    assert!(!field.has_changed());
}

#[test]
fn select_reset_twice_is_reset_once() {
    let mut field = SelectField::new("gender", genders()).initial(2);
    field.update(Msg::Value(1));
    field.reset();
    field.reset();
    assert_eq!(field.value(), Some(2));
    assert!(!field.has_changed());
}

#[test]
fn placeholder_is_no_suggestion() {
    let mut field = SelectField::new("gender", genders()).default(0, "enter gender", false);
    field.update(Msg::Value(0));
    assert_eq!(field.value(), None);
    assert!(field.has_changed());
}

#[test]
fn select_blur_keeps_the_selection() {
    let mut field = SelectField::new("gender", genders());
    assert!(!field.update(Msg::Blur));
    assert_eq!(field.value(), Some(1));
    field.update(Msg::Value(99));
    assert!(!field.update(Msg::Blur));
    assert_eq!(field.value(), None);
}

#[test]
fn select_view_lists_placeholder_then_suggestions() {
    let field = SelectField::new("gender", genders()).default(0, "enter gender", false).initial(2);
    let view = field.view(true);
    assert_eq!(view.label, "gender");
    assert!(view.disabled);
    assert!(!view.danger);
    let ids: Vec<i64> = view.options.iter().map(|option| option.id).collect();
    assert_eq!(ids, vec![0, 1, 2]);
    let names: Vec<&str> = view.options.iter().map(|option| option.name.as_str()).collect();
    assert_eq!(names, vec!["enter gender", "male", "female"]);
    let marks: Vec<bool> = view.options.iter().map(|option| option.selected).collect();
    assert_eq!(marks, vec![false, false, true]);
}

#[test]
fn select_view_marks_the_initial_entry_only() {
    let mut field = SelectField::new("gender", genders());
    let view = field.view(false);
    assert!(view.options.iter().all(|option| !option.selected));
    field.update(Msg::Value(2));
    let view = field.view(false);
    assert!(view.options.iter().all(|option| !option.selected));
    assert_eq!(view.options.len(), 2);
}

#[test]
fn select_without_selection_is_faulty_unless_optional() {
    let mut field = SelectField::new("gender", genders());
    assert!(!field.view(false).danger);
    field.update(Msg::Value(99));
    assert!(field.view(false).danger);
    let mut field = SelectField::new("gender", genders()).default(0, "enter gender", true);
    field.update(Msg::Value(99));
    assert!(!field.view(false).danger);
}

#[test]
fn picked_text_is_read_as_an_id() {
    assert!(matches!(pick_text("2"), Some(Msg::Value(2))));
    assert!(matches!(pick_text("-3"), Some(Msg::Value(-3))));
    assert!(matches!(pick_text("+7"), Some(Msg::Value(7))));
    assert!(matches!(pick_text("9223372036854775807"), Some(Msg::Value(i64::MAX))));
    assert!(pick_text("9223372036854775808").is_none());
    assert!(pick_text("").is_none());
    assert!(pick_text(" 2").is_none());
    assert!(pick_text("two").is_none());
    assert!(pick_text("2.0").is_none());
}
