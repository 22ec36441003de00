//! `UIAlertView`: the host-side record of an alert and the rules its
//! methods follow. Sending messages to other guest objects (the button
//! array, the delegate, new text fields) is left to the caller, which hands
//! in what those messages returned.

use vstd::prelude::*;

use crate::guest::Id;
use crate::guest::NSInteger;
use crate::guest::NSUInteger;
use crate::guest::NIL;
use crate::text::ascii_upper_seq;
use crate::text::ascii_uppercase;
use crate::text::chars_of;
use crate::text::contains;
use crate::text::has_substring;
use crate::text::is_blank;
use crate::text::is_blank_chars;

verus! {

pub type UIAlertViewStyle = NSInteger;

pub const UIAlertViewStyleDefault: UIAlertViewStyle = 0;

pub const UIAlertViewStyleSecureTextInput: UIAlertViewStyle = 1;

pub const UIAlertViewStylePlainTextInput: UIAlertViewStyle = 2;

pub const UIAlertViewStyleLoginAndPasswordInput: UIAlertViewStyle = 3;

/// The host object of a `UIAlertView` (beyond what every `UIView` keeps).
#[derive(Clone, Copy, PartialEq, Eq, Debug, Structural)]
pub struct UIAlertViewHostObject {
    pub title: Id,
    pub message: Id,
    pub delegate: Id,
    /// The `NSMutableArray` of button titles.
    pub button_titles: Id,
    pub cancel_button_index: NSInteger,
    pub visible: bool,
    pub alert_view_style: UIAlertViewStyle,
    pub tag: NSInteger,
    /// The text field handed out by `textFieldAtIndex:`, once created.
    pub text_field: Id,
}

/// What `textFieldAtIndex:` answers.
#[derive(Clone, Copy, PartialEq, Eq, Debug, Structural)]
pub enum TextFieldLookup {
    /// `nil`: no such field for this index or style.
    Nil,
    /// The field created earlier.
    Existing(Id),
    /// A new `UITextField` is to be created and recorded with
    /// [`UIAlertViewHostObject::set_text_field`].
    Create,
}

/// The alert as `+allocWithZone:` sets it up.
pub open spec fn allocated_alert() -> UIAlertViewHostObject {
    UIAlertViewHostObject {
        title: NIL,
        message: NIL,
        delegate: NIL,
        button_titles: NIL,
        cancel_button_index: -1i32,
        visible: false,
        alert_view_style: UIAlertViewStyleDefault,
        tag: 0,
        text_field: NIL,
    }
}

/// `-firstOtherButtonIndex` for `count` buttons: the first index that is not
/// the cancel button's, or -1.
pub open spec fn first_other_index(count: NSUInteger, cancel: NSInteger) -> NSInteger {
    if count == 0 {
        -1i32
    } else if cancel != 0 {
        0i32
    } else if count >= 2 {
        1i32
    } else {
        -1i32
    }
}

/// The button index an alert is dismissed with when it dismisses itself.
pub open spec fn self_dismiss_index(cancel: NSInteger) -> NSInteger {
    if cancel >= 0 {
        cancel
    } else {
        0
    }
}

/// The text mentions "INITIALIZING", in any ASCII letter case.
pub open spec fn mentions_initializing(s: Seq<char>) -> bool {
    has_substring(ascii_upper_seq(s), "INITIALIZING"@)
}

/// `-show` dismisses at once (with the returned button index) placeholder
/// alerts: those whose title and message are both blank, and transient
/// "INITIALIZING ..." alerts.
pub open spec fn show_dismissal(title: Seq<char>, message: Seq<char>, cancel: NSInteger) -> Option<
    NSInteger,
> {
    if (is_blank(title) && is_blank(message)) || mentions_initializing(title)
        || mentions_initializing(message) {
        Some(self_dismiss_index(cancel))
    } else {
        None
    }
}

/// Button `index` is the cancel button.
pub open spec fn is_cancel_button(index: int, cancel: NSInteger) -> bool {
    index == cancel
}

/// `-firstOtherButtonIndex` answers the least button index that is not the
/// cancel button's, or -1 when every button is the cancel button.
pub proof fn lemma_first_other_index_is_least(count: NSUInteger, cancel: NSInteger)
    ensures
        ({
            let r = first_other_index(count, cancel);
            &&& -1 <= r < count
            &&& r >= 0 ==> r != cancel && forall|k: int| 0 <= k < r ==> #[trigger] is_cancel_button(k, cancel)
            &&& r == -1 ==> forall|k: int| 0 <= k < count ==> #[trigger] is_cancel_button(k, cancel)
        }),
{
}

/// Placeholder alerts (blank title and message, or an "initializing"
/// notice) dismiss themselves when shown, with a valid (non-negative)
/// button index.
pub proof fn lemma_placeholder_alert_dismisses(title: Seq<char>, message: Seq<char>, cancel: NSInteger)
    requires
        (is_blank(title) && is_blank(message)) || mentions_initializing(title)
            || mentions_initializing(message),
    ensures
        show_dismissal(title, message, cancel) matches Some(i) && i >= 0,
{
}

/// `-show` dismisses the alert at once exactly when it is a placeholder:
/// title and message both blank (all whitespace), or title or message
/// containing "INITIALIZING" in any ASCII letter case. It then uses the
/// cancel button's index, or 0 when there is no cancel button; every other
/// alert stays shown.
pub proof fn lemma_show_dismisses_exactly_placeholders(
    title: Seq<char>,
    message: Seq<char>,
    cancel: NSInteger,
)
    ensures
        show_dismissal(title, message, cancel) is Some <==> (is_blank(title) && is_blank(message))
            || has_substring(ascii_upper_seq(title), "INITIALIZING"@) || has_substring(
            ascii_upper_seq(message),
            "INITIALIZING"@,
        ),
        show_dismissal(title, message, cancel) matches Some(i) ==> i == (if cancel >= 0 {
            cancel
        } else {
            0
        }),
{
}

/// A self-dismissing alert is dismissed with its cancel button when it has
/// one, else with button 0.
pub proof fn lemma_self_dismiss_index(cancel: NSInteger)
    ensures
        self_dismiss_index(cancel) >= 0,
        cancel >= 0 ==> self_dismiss_index(cancel) == cancel,
{
}

impl UIAlertViewHostObject {
    /// `+allocWithZone:`.
    pub fn new() -> (r: Self)
        ensures
            r == allocated_alert(),
    {
        UIAlertViewHostObject {
            title: NIL,
            message: NIL,
            delegate: NIL,
            button_titles: NIL,
            cancel_button_index: -1,
            visible: false,
            alert_view_style: UIAlertViewStyleDefault,
            tag: 0,
            text_field: NIL,
        }
    }

    /// `-initWithTitle:message:delegate:cancelButtonTitle:otherButtonTitles:`
    /// after the button array `button_titles` was created (holding
    /// `titles_count` titles). Records the alert and returns the titles to add
    /// to the array, in order; the cancel button gets the next index.
    pub fn init_with_title(
        &mut self,
        title: Id,
        message: Id,
        delegate: Id,
        button_titles: Id,
        titles_count: NSUInteger,
        cancel_title: Id,
        other_titles: Id,
    ) -> (r: Vec<Id>)
        ensures
            final(self).title == title,
            final(self).message == message,
            final(self).delegate == delegate,
            final(self).button_titles == button_titles,
            final(self).cancel_button_index == (if cancel_title != NIL {
                titles_count as NSInteger
            } else {
                old(self).cancel_button_index
            }),
            final(self).visible == old(self).visible,
            final(self).alert_view_style == old(self).alert_view_style,
            final(self).tag == old(self).tag,
            final(self).text_field == old(self).text_field,
            r@ == (if cancel_title != NIL { seq![cancel_title] } else { Seq::empty() }) + (
            if other_titles != NIL {
                seq![other_titles]
            } else {
                Seq::empty()
            }),
    {
        self.title = title;
        self.message = message;
        self.delegate = delegate;
        self.button_titles = button_titles;
        let mut to_add: Vec<Id> = Vec::new();
        if cancel_title != NIL {
            to_add.push(cancel_title);
            self.cancel_button_index = titles_count as NSInteger;
        }
        if other_titles != NIL {
            to_add.push(other_titles);
        }
        proof {
            assert(to_add@ =~= (if cancel_title != NIL { seq![cancel_title] } else { Seq::empty() })
                + (if other_titles != NIL { seq![other_titles] } else { Seq::empty() }));
        }
        to_add
    }

    /// `-dealloc`: the objects the alert releases.
    pub fn dealloc(&self) -> (r: Vec<Id>)
        ensures
            r@ == seq![self.title, self.message, self.button_titles, self.text_field],
    {
        let mut r: Vec<Id> = Vec::new();
        r.push(self.title);
        r.push(self.message);
        r.push(self.button_titles);
        r.push(self.text_field);
        r
    }

    /// `-setTitle:`: records the new title and returns the old one, which the
    /// caller releases (the new one is retained).
    pub fn set_title(&mut self, title: Id) -> (old_title: Id)
        ensures
            old_title == old(self).title,
            *final(self) == (UIAlertViewHostObject { title, ..*old(self) }),
    {
        let old_title = self.title;
        self.title = title;
        old_title
    }

    /// `-setMessage:`: records the new message and returns the old one, which
    /// the caller releases (the new one is retained).
    pub fn set_message(&mut self, message: Id) -> (old_message: Id)
        ensures
            old_message == old(self).message,
            *final(self) == (UIAlertViewHostObject { message, ..*old(self) }),
    {
        let old_message = self.message;
        self.message = message;
        old_message
    }

    /// `-setDelegate:` (the delegate is not retained).
    pub fn set_delegate(&mut self, delegate: Id)
        ensures
            *final(self) == (UIAlertViewHostObject { delegate, ..*old(self) }),
    {
        self.delegate = delegate;
    }

    /// `-setTag:`.
    pub fn set_tag(&mut self, tag: NSInteger)
        ensures
            *final(self) == (UIAlertViewHostObject { tag, ..*old(self) }),
    {
        self.tag = tag;
    }

    /// `-setAlertViewStyle:`.
    pub fn set_alert_view_style(&mut self, style: UIAlertViewStyle)
        ensures
            *final(self) == (UIAlertViewHostObject { alert_view_style: style, ..*old(self) }),
    {
        self.alert_view_style = style;
    }

    /// `-setCancelButtonIndex:`.
    pub fn set_cancel_button_index(&mut self, index: NSInteger)
        ensures
            *final(self) == (UIAlertViewHostObject { cancel_button_index: index, ..*old(self) }),
    {
        self.cancel_button_index = index;
    }

    /// `-isVisible`.
    pub fn is_visible(&self) -> (r: bool)
        ensures
            r == self.visible,
    {
        self.visible
    }

    /// `-firstOtherButtonIndex`, given the number of buttons.
    pub fn first_other_button_index(&self, count: NSUInteger) -> (r: NSInteger)
        ensures
            r == first_other_index(count, self.cancel_button_index),
    {
        first_other_button_index(count, self.cancel_button_index)
    }

    /// `-textFieldAtIndex:`: only index 0 of a styled alert has a field.
    pub fn text_field_at_index(&self, index: NSInteger) -> (r: TextFieldLookup)
        ensures
            r == (if index != 0 || self.alert_view_style == UIAlertViewStyleDefault {
                TextFieldLookup::Nil
            } else if self.text_field == NIL {
                TextFieldLookup::Create
            } else {
                TextFieldLookup::Existing(self.text_field)
            }),
    {
        if index != 0 {
            return TextFieldLookup::Nil;
        }
        if self.alert_view_style == UIAlertViewStyleDefault {
            return TextFieldLookup::Nil;
        }
        if self.text_field == NIL {
            TextFieldLookup::Create
        } else {
            TextFieldLookup::Existing(self.text_field)
        }
    }

    /// Records the text field created for `textFieldAtIndex:` (retained by
    /// the caller).
    pub fn set_text_field(&mut self, text_field: Id)
        ensures
            *final(self) == (UIAlertViewHostObject { text_field, ..*old(self) }),
    {
        self.text_field = text_field;
    }

    /// `-show`: marks the alert visible. The caller then tells the delegate
    /// (`alertViewWillPresent:`) and asks [`show_dismiss_index`] whether the
    /// alert dismisses itself.
    pub fn show(&mut self)
        ensures
            *final(self) == (UIAlertViewHostObject { visible: true, ..*old(self) }),
    {
        self.visible = true;
    }

    /// `-dismissWithClickedButtonIndex:animated:`: marks the alert hidden and
    /// returns the delegate to tell, if there is one.
    pub fn dismiss_with_clicked_button_index(&mut self) -> (r: Option<Id>)
        ensures
            *final(self) == (UIAlertViewHostObject { visible: false, ..*old(self) }),
            r == (if old(self).delegate != NIL { Some(old(self).delegate) } else { None }),
    {
        self.visible = false;
        if self.delegate != NIL {
            Some(self.delegate)
        } else {
            None
        }
    }
}

/// `-firstOtherButtonIndex` for `count` buttons and the cancel button index
/// `cancel`.
pub fn first_other_button_index(count: NSUInteger, cancel: NSInteger) -> (r: NSInteger)
    ensures
        r == first_other_index(count, cancel),
{
    let mut i: NSUInteger = 0;
    while i < count
        invariant
            i <= count,
            i == 0 || (i == 1 && cancel == 0),
        decreases count - i,
    {
        if i as NSInteger != cancel {
            return i as NSInteger;
        }
        i = i + 1;
    }
    -1
}

/// `-addButtonWithTitle:` on an alert with `count` buttons: the new button's
/// index.
pub fn add_button_index(count: NSUInteger) -> (r: NSInteger)
    ensures
        r == count as NSInteger,
{
    count as NSInteger
}

/// `-buttonTitleAtIndex:` with `count` buttons: the array index to read, or
/// `None` (answer `nil`) when out of range.
pub fn button_title_index(index: NSInteger, count: NSUInteger) -> (r: Option<NSUInteger>)
    ensures
        r == (if index < 0 || index >= count { None } else { Some(index as NSUInteger) }),
{
    if index < 0 || index as NSUInteger >= count {
        return None;
    }
    Some(index as NSUInteger)
}

/// `-viewWithTag:` on the alert `this` whose own tag is `own_tag`.
pub fn view_with_tag(this: Id, own_tag: NSInteger, tag: NSInteger) -> (r: Id)
    ensures
        r == (if own_tag == tag { this } else { NIL }),
{
    if own_tag == tag {
        return this;
    }
    NIL
}

/// Whether `-show` dismisses the alert at once, and with which button
/// index, given its title and message (empty for `nil`) and its cancel
/// button index.
pub fn show_dismiss_index(raw_title: &str, raw_message: &str, cancel_index: NSInteger) -> (r: Option<
    NSInteger,
>)
    ensures
        r == show_dismissal(raw_title@, raw_message@, cancel_index),
        r is Some <==> (is_blank(raw_title@) && is_blank(raw_message@)) || has_substring(
            ascii_upper_seq(raw_title@),
            "INITIALIZING"@,
        ) || has_substring(ascii_upper_seq(raw_message@), "INITIALIZING"@),
        r matches Some(i) ==> i == (if cancel_index >= 0 { cancel_index } else { 0 }),
{
    let title = chars_of(raw_title);
    let message = chars_of(raw_message);
    let dismiss_index = if cancel_index >= 0 {
        cancel_index
    } else {
        0
    };
    if is_blank_chars(title.as_slice()) && is_blank_chars(message.as_slice()) {
        return Some(dismiss_index);
    }
    let needle = chars_of("INITIALIZING");
    let upper_title = ascii_uppercase(title.as_slice());
    let upper_message = ascii_uppercase(message.as_slice());
    if contains(upper_title.as_slice(), needle.as_slice()) || contains(
        upper_message.as_slice(),
        needle.as_slice(),
    ) {
        return Some(dismiss_index);
    }
    None
}

} // verus!
