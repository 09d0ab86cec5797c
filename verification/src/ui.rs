//! The answer style preference and its in-memory cache.

use crate::bytes::text_eq;
use crate::error::{ErrorKind, TrustError, TrustErrorView};
use crate::security::{AppState, AppStateView};
use vstd::prelude::*;
use vstd::string::StringExecFns;

verus! {

/// The style that is used where none was ever chosen.
pub const DEFAULT_STYLE: &'static str = "STAR";

/// Whether `style` is one of the answer styles.
pub open spec fn is_answer_style(style: Seq<char>) -> bool {
    style == "STAR"@ || style == "QUANT"@ || style == "HYBRID"@
}

/// The error for a style that is none of the answer styles.
pub open spec fn unknown_style_error(style: Seq<char>) -> TrustErrorView {
    TrustErrorView { kind: ErrorKind::Format, detail: "Unknown style: "@ + style }
}

/// The style that is in effect: the cached one, or else the stored one,
/// or else the default.
pub open spec fn style_in_effect(cached: Seq<char>, stored: Option<Seq<char>>) -> Seq<char> {
    if cached.len() > 0 {
        cached
    } else {
        match stored {
            Some(style) => style,
            None => DEFAULT_STYLE@,
        }
    }
}

/// Accepts `style` if it is one of the answer styles.
pub fn check_answer_style(style: &str) -> (checked: Result<(), TrustError>)
    ensures
        match checked {
            Ok(_) => is_answer_style(style@),
            Err(e) => !is_answer_style(style@) && e@ == unknown_style_error(style@),
        },
{
    if text_eq(style, "STAR") || text_eq(style, "QUANT") || text_eq(style, "HYBRID") {
        Ok(())
    } else {
        let mut detail = "Unknown style: ".to_owned();
        detail.append(style);
        Err(TrustError { kind: ErrorKind::Format, detail })
    }
}

/// Makes `style` the answer style in effect, if it is one of the answer
/// styles; leaves the state as it was otherwise.
pub fn set_answer_style(style: String, state: &mut AppState) -> (set: Result<(), TrustError>)
    ensures
        match set {
            Ok(_) => is_answer_style(style@) && final(state)@ == (AppStateView {
                answer_style: style@,
                ..old(state)@
            }),
            Err(e) => {
                &&& !is_answer_style(style@)
                &&& e@ == unknown_style_error(style@)
                &&& final(state)@ == old(state)@
            },
        },
{
    match check_answer_style(style.as_str()) {
        Ok(_) => {
            state.answer_style = style;
            Ok(())
        },
        Err(e) => Err(e),
    }
}

/// The cached answer style, if one is cached.
pub fn cached_answer_style(state: &AppState) -> (cached: Option<String>)
    ensures
        match cached {
            Some(style) => style@ == state@.answer_style && style@.len() > 0,
            None => state@.answer_style.len() == 0,
        },
{
    if state.answer_style.as_str().is_empty() {
        None
    } else {
        Some(state.answer_style.clone())
    }
}

/// The answer style in effect. The cached style wins; where none is
/// cached, the stored style, or the default where none is stored, is
/// cached and returned.
pub fn get_answer_style(stored: Option<String>, state: &mut AppState) -> (got: Result<
    String,
    TrustError,
>)
    ensures
        got matches Ok(style) && style@ == style_in_effect(
            old(state)@.answer_style,
            match stored {
                Some(s) => Some(s@),
                None => None,
            },
        ) && final(state)@ == (AppStateView { answer_style: style@, ..old(state)@ }),
{
    match cached_answer_style(state) {
        Some(style) => Ok(style),
        None => {
            let loaded = match stored {
                Some(style) => style,
                None => DEFAULT_STYLE.to_owned(),
            };
            state.answer_style = loaded.clone();
            Ok(loaded)
        },
    }
}

} // verus!
