//! Diagnostic rendering of keys and handles: the key, and — when a counter
//! is present — its current live-strength.
use vstd::prelude::*;

use crate::handle::Handle;
use crate::key::HandleKey;
use crate::key::KeyView;
use vstd::string::StringExecFns;

verus! {

/// The decimal digit for a value below ten.
pub open spec fn digit_char(d: nat) -> char {
    if d == 0 {
        '0'
    } else if d == 1 {
        '1'
    } else if d == 2 {
        '2'
    } else if d == 3 {
        '3'
    } else if d == 4 {
        '4'
    } else if d == 5 {
        '5'
    } else if d == 6 {
        '6'
    } else if d == 7 {
        '7'
    } else if d == 8 {
        '8'
    } else {
        '9'
    }
}

/// The decimal rendering of a number: most significant digit first, with no
/// leading zero except for the number zero itself.
pub open spec fn dec_digits(n: nat) -> Seq<char>
    decreases n,
{
    if n < 10 {
        seq![digit_char(n)]
    } else {
        dec_digits(n / 10).push(digit_char(n % 10))
    }
}

/// The one-character slice for a decimal digit.
fn digit_str(d: u8) -> (r: &'static str)
    requires
        d < 10,
    ensures
        r@ == seq![digit_char(d as nat)],
{
    proof {
        reveal_strlit("0");
        reveal_strlit("1");
        reveal_strlit("2");
        reveal_strlit("3");
        reveal_strlit("4");
        reveal_strlit("5");
        reveal_strlit("6");
        reveal_strlit("7");
        reveal_strlit("8");
        reveal_strlit("9");
    }
    match d {
        0 => "0",
        1 => "1",
        2 => "2",
        3 => "3",
        4 => "4",
        5 => "5",
        6 => "6",
        7 => "7",
        8 => "8",
        _ => "9",
    }
}

/// Renders a number in decimal.
pub fn to_decimal(n: usize) -> (r: String)
    ensures
        r@ == dec_digits(n as nat),
    decreases n,
{
    if n < 10 {
        digit_str(n as u8).to_owned()
    } else {
        let mut r = to_decimal(n / 10);
        r.append(digit_str((n % 10) as u8));
        r
    }
}

/// The rendering of a key: its variant's name around its payload.
pub open spec fn key_render(k: KeyView) -> Seq<char> {
    match k {
        KeyView::StaticLabel(s) => "Str(\""@ + s + "\")"@,
        KeyView::OwnedLabel(s) => "String(\""@ + s + "\")"@,
        KeyView::Index(n) => "Number("@ + dec_digits(n) + ")"@,
    }
}

impl HandleKey {
    /// Renders the key for diagnostics: the variant's name around the label
    /// or the index in decimal.
    pub fn render(&self) -> (r: String)
        ensures
            r@ == key_render(self@),
    {
        match self {
            HandleKey::Str(s) => {
                let mut r = "Str(\"".to_owned();
                r.append(s);
                r.append("\")");
                r
            },
            HandleKey::String(s) => {
                let mut r = "String(\"".to_owned();
                r.append(s.as_str());
                r.append("\")");
                r
            },
            HandleKey::Number(n) => {
                let mut r = "Number(".to_owned();
                let digits = to_decimal(*n);
                r.append(digits.as_str());
                r.append(")");
                r
            },
        }
    }
}

/// The rendering of a handle: its key, and the counter's live-strength — or
/// a note that nothing is tracked.
pub open spec fn handle_render(k: KeyView, strength: Option<usize>) -> Seq<char> {
    "Handle { key: "@ + key_render(k) + (match strength {
        Some(n) => ", references: "@ + dec_digits(n as nat),
        None => ", no tracking"@,
    }) + " }"@
}

/// Renders a handle from its parts.
pub fn render_handle(key: &HandleKey, strength: Option<usize>) -> (r: String)
    ensures
        r@ == handle_render(key@, strength),
{
    let mut r = "Handle { key: ".to_owned();
    let key_text = key.render();
    r.append(key_text.as_str());
    match strength {
        Some(n) => {
            r.append(", references: ");
            let digits = to_decimal(n);
            r.append(digits.as_str());
        },
        None => {
            r.append(", no tracking");
        },
    }
    r.append(" }");
    r
}

impl<T> Handle<T> {
    /// Renders the handle for diagnostics. The text is [`handle_render`]
    /// applied to this handle's key and — exactly when a counter is
    /// present — a live-strength of at least 1.
    pub fn describe(&self) -> (r: String)
        ensures
            self.count is None ==> r@ == handle_render(self.key@, None),
            self.count is Some ==> (exists|s: usize|
                1 <= s && r@ == handle_render(self.key@, Some(s))),
    {
        let strength = self.live_strength();
        render_handle(&self.key, strength)
    }
}

} // verus!
