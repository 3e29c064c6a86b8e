use frontend::{Field, ToggleField};

#[test]
fn toggle_flips_on_every_message() {
    let mut field = ToggleField::new("toggle", false);
    assert!(!field.value());
    assert!(!field.has_changed());
    assert!(field.update(()));
    assert!(field.value());
    assert!(field.has_changed());
    assert!(field.update(()));
    assert!(!field.value());
    assert!(!field.has_changed());
}

#[test]
fn toggle_reset_goes_back_to_initial() {
    let mut field = ToggleField::new("toggle", true);
    assert!(field.value());
    field.update(());
    field.reset();
    assert!(field.value());
    assert!(!field.has_changed());
    field.reset();
    assert!(field.value());
}

#[test]
fn toggle_view_carries_the_label() {
    let field = ToggleField::new("remember me", false);
    assert_eq!(field.view(false).label, "remember me");
    assert_eq!(field.view(true).label, "remember me");
}
