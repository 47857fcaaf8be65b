//! The reading of the operator's answers. Asking is left to the caller;
//! what an answer means is decided here. A run that is not interactive asks
//! nothing and takes the default.

use crate::text::{
    lowercase_of, parse_unsigned, same_text, trim, trimmed, written_number,
};
use vstd::prelude::*;

verus! {

/// Whether a text says yes.
pub open spec fn says_yes(word: Seq<char>) -> bool {
    word == "y"@ || word == "yes"@
}

/// What an answer to a yes-or-no question means: the default where nothing
/// but white space was typed, and otherwise yes where the answer says so in
/// any letter case.
pub open spec fn confirmed(answer: Seq<char>, default: bool) -> bool {
    if trimmed(answer).len() == 0 {
        default
    } else {
        says_yes(lowercase_of(trimmed(answer)))
    }
}

/// Reads the answer to a yes-or-no question.
pub fn confirm(answer: &str, default: bool) -> (r: bool)
    ensures
        r == confirmed(answer@, default),
{
    let typed = trim(answer);
    if typed.as_str().unicode_len() == 0 {
        default
    } else {
        let word = typed.as_str().to_lowercase();
        same_text(word.as_str(), "y") || same_text(word.as_str(), "yes")
    }
}

/// The answer to a question whose default is yes; `None` stands for a run
/// that is not interactive.
pub fn confirm_yes(answer: &Option<String>) -> (r: bool)
    ensures
        r == (match answer {
            Some(text) => confirmed(text@, true),
            None => true,
        }),
{
    match answer {
        Some(text) => confirm(text.as_str(), true),
        None => true,
    }
}

/// The answer to a question whose default is no; `None` stands for a run
/// that is not interactive.
pub fn confirm_no(answer: &Option<String>) -> (r: bool)
    ensures
        r == (match answer {
            Some(text) => confirmed(text@, false),
            None => false,
        }),
{
    match answer {
        Some(text) => confirm(text.as_str(), false),
        None => false,
    }
}

/// What was typed, without the white space around it, or the default where
/// nothing was typed or nothing was asked.
pub open spec fn input_or(answer: Option<Seq<char>>, default: Seq<char>) -> Seq<char> {
    match answer {
        Some(text) => if trimmed(text).len() == 0 {
            default
        } else {
            trimmed(text)
        },
        None => default,
    }
}

pub fn input_with_default(answer: &Option<String>, default: &str) -> (r: String)
    ensures
        r@ == input_or(crate::text::opt_text(*answer), default@),
{
    match answer {
        Some(text) => {
            let typed = trim(text.as_str());
            if typed.as_str().unicode_len() == 0 {
                default.to_owned()
            } else {
                typed
            }
        },
        None => default.to_owned(),
    }
}

/// What was typed, without the white space around it; empty where nothing
/// was asked.
pub fn input_optional(answer: &Option<String>) -> (r: String)
    ensures
        r@ == (match answer {
            Some(text) => trimmed(text@),
            None => Seq::<char>::empty(),
        }),
{
    match answer {
        Some(text) => trim(text.as_str()),
        None => String::new(),
    }
}

/// The position chosen from a menu of `count` entries numbered from 1: the
/// entry whose number was typed, the default for anything else.
pub open spec fn selected(answer: Option<Seq<char>>, count: nat, default_index: nat) -> nat {
    match answer {
        None => default_index,
        Some(text) => match written_number(trimmed(text)) {
            Some(n) => if 1 <= n <= count {
                (n - 1) as nat
            } else {
                default_index
            },
            None => default_index,
        },
    }
}

/// Reads the answer to a menu.
pub fn select(answer: &Option<String>, count: usize, default_index: usize) -> (r: usize)
    ensures
        r == selected(crate::text::opt_text(*answer), count as nat, default_index as nat),
{
    match answer {
        None => default_index,
        Some(text) => {
            let typed = trim(text.as_str());
            match parse_unsigned(typed.as_str()) {
                Some(n) => {
                    if n >= 1 && n <= count as u64 {
                        (n - 1) as usize
                    } else {
                        default_index
                    }
                },
                None => default_index,
            }
        },
    }
}

} // verus!
