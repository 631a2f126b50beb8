use vstd::prelude::*;

verus! {

/// A character that a short Soroban symbol may hold: `a-z`, `A-Z`, `0-9` or `_`.
pub open spec fn is_symbol_char(c: char) -> bool {
    ||| c == '_'
    ||| ('0' <= c && c <= '9')
    ||| ('A' <= c && c <= 'Z')
    ||| ('a' <= c && c <= 'z')
}

/// Text that fits in a short Soroban symbol: at most nine characters, each one a
/// symbol character.
pub open spec fn is_short_symbol_text(text: Seq<char>) -> bool {
    &&& text.len() <= 9
    &&& forall|i: int| 0 <= i < text.len() ==> is_symbol_char(#[trigger] text[i])
}

} // verus!
