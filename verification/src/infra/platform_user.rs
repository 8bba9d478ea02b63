//! The user as the chat platform describes them: a number, a full name and,
//! where the platform knows it, the code of the user's language.

use vstd::prelude::*;
use vstd::string::StringExecFns;

use crate::domain::user::{User, UserView};

verus! {

/// The English name of the language whose ISO 639-1 code is `code`; `None`
/// where no language has that code.
pub uninterp spec fn language_name_of_639_1(code: Seq<char>) -> Option<Seq<char>>;

/// The value of an optional text.
pub open spec fn text_view(text: Option<String>) -> Option<Seq<char>> {
    match text {
        Some(text) => Some(text@),
        None => None,
    }
}

/// Looks `code` up with `isolang::Language::from_639_1` and names the
/// language found with `isolang::Language::to_name`. Both read tables that
/// are fixed when the library is built, so the outcome depends on `code`
/// alone; nothing more is claimed of it.
#[verifier::external_body]
fn language_name(code: &str) -> (name: Option<String>)
    ensures
        text_view(name) == language_name_of_639_1(code@),
{
    match isolang::Language::from_639_1(code) {
        Some(language) => Some(language.to_name().to_owned()),
        None => None,
    }
}

/// The decimal digit of `d`, for `d` below ten.
pub open spec fn digit(d: nat) -> char {
    if d == 0 {
        '0'
    } else if d == 1 {
        '1'
    } else if d == 2 {
        '2'
    } else if d == 3 {
        '3'
    } else if d == 4 {
        '4'
    } else if d == 5 {
        '5'
    } else if d == 6 {
        '6'
    } else if d == 7 {
        '7'
    } else if d == 8 {
        '8'
    } else {
        '9'
    }
}

/// `n` written in decimal digits, without leading zeros.
pub open spec fn decimal(n: nat) -> Seq<char>
    decreases n,
{
    if n < 10 {
        seq![digit(n)]
    } else {
        decimal(n / 10).push(digit(n % 10))
    }
}

fn digit_text(d: u64) -> (text: &'static str)
    requires
        d < 10,
    ensures
        text@ == seq![digit(d as nat)],
{
    proof {
        reveal_strlit("0");
        reveal_strlit("1");
        reveal_strlit("2");
        reveal_strlit("3");
        reveal_strlit("4");
        reveal_strlit("5");
        reveal_strlit("6");
        reveal_strlit("7");
        reveal_strlit("8");
        reveal_strlit("9");
    }
    let text = if d == 0 {
        "0"
    } else if d == 1 {
        "1"
    } else if d == 2 {
        "2"
    } else if d == 3 {
        "3"
    } else if d == 4 {
        "4"
    } else if d == 5 {
        "5"
    } else if d == 6 {
        "6"
    } else if d == 7 {
        "7"
    } else if d == 8 {
        "8"
    } else {
        "9"
    };
    text
}

fn push_decimal(out: &mut String, n: u64)
    ensures
        final(out)@ == old(out)@ + decimal(n as nat),
    decreases n,
{
    if n >= 10 {
        push_decimal(out, n / 10);
    }
    out.append(digit_text(n % 10));
}

/// `n` written in decimal digits.
pub fn decimal_string(n: u64) -> (text: String)
    ensures
        text@ == decimal(n as nat),
{
    let mut text = String::new();
    push_decimal(&mut text, n);
    text
}

/// The user with the platform's number `id`, written in decimal, as their
/// identifier.
pub open spec fn platform_user(id: u64, name: Seq<char>, preferred_language: Option<Seq<char>>) -> UserView {
    UserView { id: decimal(id as nat), name, preferred_language }
}

impl User {
    /// The user that the platform knows under the number `id` and the full
    /// name `name`, with the language already named.
    pub fn with_language(id: u64, name: String, preferred_language: Option<String>) -> (user: User)
        ensures
            user@ == platform_user(id, name@, text_view(preferred_language)),
    {
        User { id: decimal_string(id), name, preferred_language }
    }

    /// The user that the platform knows under the number `id` and the full
    /// name `name`. Their preferred language is the English name of the
    /// language with the ISO 639-1 code `language_code`; they have none
    /// where the platform gave no code or no language has the code.
    pub fn from_platform(id: u64, name: String, language_code: Option<String>) -> (user: User)
        ensures
            user@ == platform_user(
                id,
                name@,
                match language_code {
                    Some(code) => language_name_of_639_1(code@),
                    None => None,
                },
            ),
    {
        let preferred_language = match language_code {
            Some(code) => language_name(code.as_str()),
            None => None,
        };
        User::with_language(id, name, preferred_language)
    }
}

} // verus!
