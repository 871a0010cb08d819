//! Small things the overlay shows: kinds of notifications, tabs, the words
//! of a Java modifier mask, and the mark of a local chat message.

use crate::text::{
    is_subtext, lowercase, push_text, str_contains, str_to_lowercase, string_of_chars,
};
use vstd::prelude::*;

verus! {

/// The kind of a notification.
#[derive(Clone, Copy, Debug, PartialEq, Eq, Structural)]
pub enum NotificationType {
    Info,
    Success,
    Warning,
    Error,
}

impl NotificationType {
    /// The name of the icon of this kind.
    pub open spec fn spec_icon_name(self) -> Seq<char> {
        match self {
            NotificationType::Info => "info"@,
            NotificationType::Success => "success"@,
            NotificationType::Warning => "warning"@,
            NotificationType::Error => "error"@,
        }
    }

    /// The name of the icon of this kind.
    pub fn icon_name(&self) -> (r: &'static str)
        ensures
            r@ == self.spec_icon_name(),
    {
        match self {
            NotificationType::Info => "info",
            NotificationType::Success => "success",
            NotificationType::Warning => "warning",
            NotificationType::Error => "error",
        }
    }
}

/// Where a notification stands on its way in and out.
#[derive(Clone, Copy, Debug, PartialEq, Eq, Structural)]
pub enum NotificationState {
    FadingIn,
    Visible,
    FadingOut,
}

/// The tabs of the main window.
#[derive(Clone, Copy, Debug, PartialEq, Eq, Structural)]
pub enum AppTab {
    SessionChanger,
    AccountManager,
}

impl Default for AppTab {
    fn default() -> (r: Self)
        ensures
            r == AppTab::SessionChanger,
    {
        AppTab::SessionChanger
    }
}

/// Sounds for chat messages.
#[derive(Clone, Copy, Debug)]
pub struct SoundNotification;

impl SoundNotification {
    /// Whether a chat message is a local one: it holds the mark `[L]`.
    pub fn is_local_message(text: &str) -> (r: bool)
        ensures
            r == is_subtext(text@, "[L]"@),
    {
        str_contains(text, "[L]")
    }
}

/// The bits of a Java modifier mask, in the order in which their words are
/// shown.
pub open spec fn modifier_bits() -> Seq<i32> {
    seq![0x0001i32, 0x0004, 0x0002, 0x0008, 0x0010, 0x0400, 0x0020, 0x0040, 0x0080, 0x0100, 0x0800, 0x0200]
}

/// The words of the modifiers, in the order of [`modifier_bits`].
pub open spec fn modifier_words() -> Seq<Seq<char>> {
    seq![
        "public"@,
        "protected"@,
        "private"@,
        "static"@,
        "final"@,
        "abstract"@,
        "synchronized"@,
        "volatile"@,
        "transient"@,
        "native"@,
        "strictfp"@,
        "interface"@,
    ]
}

/// Whether the word at `i` is shown for `modifiers`: its bit is set, and the
/// word `interface` is shown for classes only.
pub open spec fn word_shown(modifiers: i32, is_class: bool, i: int) -> bool {
    modifiers & modifier_bits()[i] != 0 && (i != 11 || is_class)
}

/// The first `upto` words that are shown, with a space between two words.
pub open spec fn spec_modifier_text(modifiers: i32, is_class: bool, upto: int) -> Seq<char>
    decreases upto,
{
    if upto <= 0 {
        Seq::<char>::empty()
    } else {
        let before = spec_modifier_text(modifiers, is_class, upto - 1);
        if word_shown(modifiers, is_class, upto - 1) {
            if before.len() > 0 {
                before + seq![' '] + modifier_words()[upto - 1]
            } else {
                modifier_words()[upto - 1]
            }
        } else {
            before
        }
    }
}

fn modifier_at(i: usize) -> (r: (i32, &'static str))
    requires
        i < 12,
    ensures
        r.0 == modifier_bits()[i as int],
        r.1@ == modifier_words()[i as int],
{
    if i == 0 {
        (0x0001, "public")
    } else if i == 1 {
        (0x0004, "protected")
    } else if i == 2 {
        (0x0002, "private")
    } else if i == 3 {
        (0x0008, "static")
    } else if i == 4 {
        (0x0010, "final")
    } else if i == 5 {
        (0x0400, "abstract")
    } else if i == 6 {
        (0x0020, "synchronized")
    } else if i == 7 {
        (0x0040, "volatile")
    } else if i == 8 {
        (0x0080, "transient")
    } else if i == 9 {
        (0x0100, "native")
    } else if i == 10 {
        (0x0800, "strictfp")
    } else {
        (0x0200, "interface")
    }
}

/// The words of a Java modifier mask, in a fixed order, with a space between
/// two of them: `public protected private static final abstract
/// synchronized volatile transient native strictfp`, and `interface` for a
/// class.
pub fn format_modifiers(modifiers: i32, is_class: bool) -> (s: String)
    ensures
        s@ == spec_modifier_text(modifiers, is_class, 12),
{
    let mut out: Vec<char> = Vec::new();
    let mut i: usize = 0;
    while i < 12
        invariant
            i <= 12,
            out@ == spec_modifier_text(modifiers, is_class, i as int),
        decreases 12 - i,
    {
        let (bit, word) = modifier_at(i);
        if modifiers & bit != 0 && (i != 11 || is_class) {
            if out.len() > 0 {
                out.push(' ');
            }
            push_text(&mut out, word);
        }
        i += 1;
    }
    string_of_chars(&out)
}

/// Whether a search finds a text: the empty search finds every text; any
/// other finds the texts that hold it, both taken in lower case.
pub fn matches_search(search: &str, text: &str) -> (r: bool)
    ensures
        r == (search@.len() == 0 || is_subtext(lowercase(text@), lowercase(search@))),
{
    if search.unicode_len() == 0 {
        return true;
    }
    let hay = str_to_lowercase(text);
    let needle = str_to_lowercase(search);
    str_contains(hay.as_str(), needle.as_str())
}

} // verus!
