//! Codes of securities as they are typed: trimming, lower case, and the
//! market prefix that every code carries.

use crate::text::{has_prefix, starts_with, to_chars, trim, trim_of};
use vstd::prelude::*;

verus! {

/// The lower-case form of a text.
pub uninterp spec fn lowercase_of(text: Seq<char>) -> Seq<char>;

/// `str::to_lowercase` of std: the text with every character replaced by
/// its lower-case mapping of Unicode. The result depends on the text alone.
#[verifier::external_body]
fn to_lowercase(text: &str) -> (lowered: String)
    ensures
        lowered@ == lowercase_of(text@),
{
    text.to_lowercase()
}

/// Why typed text is no code of a security.
#[derive(Debug, Clone, Copy, PartialEq, Eq, Structural)]
pub enum SymbolError {
    /// Nothing was typed.
    Empty,
    /// The text begins with no known market prefix.
    UnknownMarket,
}

/// A code typed with the prefix `us` is a code of the market `gb_`.
pub open spec fn market_alias(s: Seq<char>) -> Seq<char> {
    if starts_with(s, "us"@) {
        "gb_"@ + s.subrange(2, s.len() as int)
    } else {
        s
    }
}

/// Whether `s` begins with the prefix of a market that is served.
pub open spec fn known_market(s: Seq<char>) -> bool {
    starts_with(s, "sh"@) || starts_with(s, "sz"@) || starts_with(s, "bj"@) || starts_with(
        s,
        "hk"@,
    ) || starts_with(s, "gb_"@)
}

/// The code that trimmed lower-case text stands for.
pub open spec fn normalized(text: Seq<char>) -> Result<Seq<char>, SymbolError> {
    if text.len() == 0 {
        Err(SymbolError::Empty)
    } else if known_market(market_alias(text)) {
        Ok(market_alias(text))
    } else {
        Err(SymbolError::UnknownMarket)
    }
}

/// The code that typed text stands for: trimmed, in lower case, and
/// normalized.
pub open spec fn symbol_of_input(typed: Seq<char>) -> Result<Seq<char>, SymbolError> {
    normalized(lowercase_of(trim_of(typed)))
}

/// Normalizes trimmed lower-case text into the code of a security: the
/// prefix `us` becomes `gb_`, and the code has to begin with the prefix of
/// a market that is served.
pub fn normalize_symbol(text: &str) -> (symbol: Result<String, SymbolError>)
    ensures
        match symbol {
            Ok(s) => normalized(text@) == Ok::<Seq<char>, SymbolError>(s@),
            Err(e) => normalized(text@) == Err::<Seq<char>, SymbolError>(e),
        },
{
    let chars = to_chars(text);
    if chars.len() == 0 {
        return Err(SymbolError::Empty);
    }
    let aliased: String = if has_prefix(&chars, "us") {
        proof {
            reveal_strlit("us");
        }
        String::from_str("gb_").concat(text.substring_char(2, chars.len()))
    } else {
        String::from_str(text)
    };
    let code = to_chars(aliased.as_str());
    if has_prefix(&code, "sh") || has_prefix(&code, "sz") || has_prefix(&code, "bj") || has_prefix(
        &code,
        "hk",
    ) || has_prefix(&code, "gb_") {
        Ok(aliased)
    } else {
        Err(SymbolError::UnknownMarket)
    }
}

/// Reads the code of a security from what was typed.
pub fn parse_symbol(typed: &str) -> (symbol: Result<String, SymbolError>)
    ensures
        match symbol {
            Ok(s) => symbol_of_input(typed@) == Ok::<Seq<char>, SymbolError>(s@),
            Err(e) => symbol_of_input(typed@) == Err::<Seq<char>, SymbolError>(e),
        },
{
    let trimmed = trim(typed);
    let lowered = to_lowercase(trimmed.as_str());
    normalize_symbol(lowered.as_str())
}

} // verus!
