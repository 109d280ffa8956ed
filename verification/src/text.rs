//! Small pieces of text that the messages and file names of this crate are made of.

use vstd::prelude::*;

verus! {

/// The character of the decimal digit `d`.
pub open spec fn digit(d: nat) -> char
    recommends
        d < 10,
{
    ('0' as nat + d) as char
}

/// The decimal notation of `n`, without leading zeros.
pub open spec fn decimal(n: nat) -> Seq<char>
    decreases n,
{
    if n < 10 {
        seq![digit(n)]
    } else {
        decimal(n / 10).push(digit(n % 10))
    }
}

fn digit_text(d: usize) -> (text: &'static str)
    requires
        d < 10,
    ensures
        text@ == seq![digit(d as nat)],
{
    proof {
        reveal_strlit("0");
        reveal_strlit("1");
        reveal_strlit("2");
        reveal_strlit("3");
        reveal_strlit("4");
        reveal_strlit("5");
        reveal_strlit("6");
        reveal_strlit("7");
        reveal_strlit("8");
        reveal_strlit("9");
    }
    let text = match d {
        0 => "0",
        1 => "1",
        2 => "2",
        3 => "3",
        4 => "4",
        5 => "5",
        6 => "6",
        7 => "7",
        8 => "8",
        _ => "9",
    };
    assert(text@ =~= seq![digit(d as nat)]);
    text
}

/// Writes `n` in decimal notation.
pub fn decimal_text(n: usize) -> (text: String)
    ensures
        text@ == decimal(n as nat),
    decreases n,
{
    if n < 10 {
        digit_text(n).to_owned()
    } else {
        let mut text = decimal_text(n / 10);
        text.append(digit_text(n % 10));
        assert(text@ =~= decimal(n as nat));
        text
    }
}

/// `head` followed by `tail`.
pub fn joined(head: &str, tail: &str) -> (text: String)
    ensures
        text@ == head@ + tail@,
{
    let mut text = head.to_owned();
    text.append(tail);
    text
}

/// The text that `str::to_lowercase` makes of `text`.
pub uninterp spec fn lowercase(text: Seq<char>) -> Seq<char>;

/// `text` in lower case: `str::to_lowercase`.
///
/// Believed, not proved: the result depends on `text` alone.
#[verifier::external_body]
pub(crate) fn to_lowercase(text: &str) -> (lowered: String)
    ensures
        lowered@ == lowercase(text@),
{
    text.to_lowercase()
}

/// Whether a setting switches a feature on: unset, it leaves the feature as it is by
/// default; set, it switches the feature on where its text, put in lower case, is `true`, and
/// off otherwise.
pub open spec fn switch_is_on(setting: Option<Seq<char>>, default: bool) -> bool {
    match setting {
        Some(value) => lowercase(value) == "true"@,
        None => default,
    }
}

/// The text of a setting, where it is set.
pub open spec fn setting_text(setting: Option<&str>) -> Option<Seq<char>> {
    match setting {
        Some(value) => Some(value@),
        None => None,
    }
}

/// The text of a setting, or `default` where it is unset.
pub open spec fn setting_or(setting: Option<&str>, default: Seq<char>) -> Seq<char> {
    match setting {
        Some(value) => value@,
        None => default,
    }
}

/// Whether a text that is in lower case reads `true`.
pub fn reads_true(lowered: &str) -> (yes: bool)
    ensures
        yes == (lowered@ == "true"@),
{
    let given = lowered.to_owned();
    let expected = "true".to_owned();
    given == expected
}

/// Reads a setting that switches a feature on or off.
pub fn switch(setting: Option<&str>, default: bool) -> (on: bool)
    ensures
        on == switch_is_on(setting_text(setting), default),
{
    match setting {
        Some(value) => {
            let lowered = to_lowercase(value);
            reads_true(lowered.as_str())
        },
        None => default,
    }
}

} // verus!
