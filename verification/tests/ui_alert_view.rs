use lib::ui_alert_view::{
    add_button_index, button_title_index, first_other_button_index, show_dismiss_index,
    view_with_tag, TextFieldLookup, UIAlertViewHostObject, UIAlertViewStyleDefault,
    UIAlertViewStyleLoginAndPasswordInput, UIAlertViewStylePlainTextInput,
    UIAlertViewStyleSecureTextInput,
};

#[test]
fn allocated_defaults() {
    let a = UIAlertViewHostObject::new();
    assert_eq!(a.title, 0);
    assert_eq!(a.message, 0);
    assert_eq!(a.delegate, 0);
    assert_eq!(a.button_titles, 0);
    assert_eq!(a.cancel_button_index, -1);
    assert!(!a.is_visible());
    assert_eq!(a.alert_view_style, UIAlertViewStyleDefault);
    assert_eq!(a.tag, 0);
    assert_eq!(a.text_field, 0);
}

#[test]
fn style_constants() {
    assert_eq!(UIAlertViewStyleDefault, 0);
    assert_eq!(UIAlertViewStyleSecureTextInput, 1);
    assert_eq!(UIAlertViewStylePlainTextInput, 2);
    assert_eq!(UIAlertViewStyleLoginAndPasswordInput, 3);
}

#[test]
fn init_with_cancel_and_other_titles() {
    let mut a = UIAlertViewHostObject::new();
    let to_add = a.init_with_title(0x100, 0x200, 0x300, 0x400, 0, 0x500, 0x600);
    assert_eq!(to_add, vec![0x500, 0x600]);
    assert_eq!(a.title, 0x100);
    assert_eq!(a.message, 0x200);
    assert_eq!(a.delegate, 0x300);
    assert_eq!(a.button_titles, 0x400);
    assert_eq!(a.cancel_button_index, 0);
}

#[test]
fn init_without_cancel_title() {
    let mut a = UIAlertViewHostObject::new();
    let to_add = a.init_with_title(0x100, 0, 0, 0x400, 0, 0, 0x600);
    assert_eq!(to_add, vec![0x600]);
    assert_eq!(a.cancel_button_index, -1);
    let mut b = UIAlertViewHostObject::new();
    assert!(b.init_with_title(0, 0, 0, 0x400, 0, 0, 0).is_empty());
}

#[test]
fn first_other_index_cases() {
    assert_eq!(first_other_button_index(0, -1), -1);
    assert_eq!(first_other_button_index(0, 0), -1);
    assert_eq!(first_other_button_index(3, -1), 0);
    assert_eq!(first_other_button_index(3, 0), 1);
    assert_eq!(first_other_button_index(1, 0), -1);
    assert_eq!(first_other_button_index(2, 1), 0);
    let mut a = UIAlertViewHostObject::new();
    a.set_cancel_button_index(0);
    assert_eq!(a.first_other_button_index(2), 1);
}

#[test]
fn button_title_index_bounds() {
    assert_eq!(button_title_index(-1, 3), None);
    assert_eq!(button_title_index(3, 3), None);
    assert_eq!(button_title_index(0, 0), None);
    assert_eq!(button_title_index(2, 3), Some(2));
    assert_eq!(button_title_index(0, 1), Some(0));
}

#[test]
fn added_button_gets_next_index() {
    assert_eq!(add_button_index(0), 0);
    assert_eq!(add_button_index(2), 2);
}

#[test]
fn view_with_tag_matches_own_tag() {
    assert_eq!(view_with_tag(0x700, 5, 5), 0x700);
    assert_eq!(view_with_tag(0x700, 5, 6), 0);
}

#[test]
fn text_field_lookup() {
    let mut a = UIAlertViewHostObject::new();
    assert_eq!(a.text_field_at_index(0), TextFieldLookup::Nil);
    a.set_alert_view_style(UIAlertViewStylePlainTextInput);
    assert_eq!(a.text_field_at_index(1), TextFieldLookup::Nil);
    assert_eq!(a.text_field_at_index(0), TextFieldLookup::Create);
    a.set_text_field(0x900);
    assert_eq!(a.text_field_at_index(0), TextFieldLookup::Existing(0x900));
    assert_eq!(a.text_field_at_index(-1), TextFieldLookup::Nil);
}

#[test]
fn setters_return_old_objects() {
    let mut a = UIAlertViewHostObject::new();
    assert_eq!(a.set_title(0x10), 0);
    assert_eq!(a.set_title(0x20), 0x10);
    assert_eq!(a.title, 0x20);
    assert_eq!(a.set_message(0x30), 0);
    assert_eq!(a.set_message(0x40), 0x30);
    a.set_delegate(0x50);
    assert_eq!(a.delegate, 0x50);
    a.set_tag(7);
    assert_eq!(a.tag, 7);
}

#[test]
fn show_and_dismiss() {
    let mut a = UIAlertViewHostObject::new();
    a.show();
    assert!(a.is_visible());
    assert_eq!(a.dismiss_with_clicked_button_index(), None);
    assert!(!a.is_visible());
    a.set_delegate(0x50);
    a.show();
    assert_eq!(a.dismiss_with_clicked_button_index(), Some(0x50));
    assert!(!a.is_visible());
}

#[test]
fn dealloc_releases_owned_objects() {
    let mut a = UIAlertViewHostObject::new();
    a.init_with_title(0x100, 0x200, 0x300, 0x400, 0, 0, 0);
    a.set_text_field(0x900);
    assert_eq!(a.dealloc(), vec![0x100, 0x200, 0x400, 0x900]);
}

#[test]
fn blank_alerts_dismiss_themselves() {
    assert_eq!(show_dismiss_index("", "", -1), Some(0));
    assert_eq!(show_dismiss_index("  \n\t", "\u{3000}\u{a0}", 2), Some(2));
    assert_eq!(show_dismiss_index("", "", 0), Some(0));
}

#[test]
fn initializing_alerts_dismiss_themselves() {
    assert_eq!(show_dismiss_index("Initializing keyboard...", "x", 1), Some(1));
    assert_eq!(show_dismiss_index("x", "please wait, initializing", -1), Some(0));
    assert_eq!(show_dismiss_index("INITIALIZING KEYBOARD...", "", -5), Some(0));
}

#[test]
fn ordinary_alerts_stay() {
    assert_eq!(show_dismiss_index("Hello", "", -1), None);
    assert_eq!(show_dismiss_index("", "Game saved", 0), None);
    assert_eq!(show_dismiss_index("Initializ", "ing", 0), None);
    assert_eq!(show_dismiss_index("x", "\u{200b}", 0), None);
}
