//! From query text to the expression that is handed to the matcher.
//!
//! A query of blanks holds nothing to search for and is never handed on.
//! The matcher has a grammar of its own, in which a hyphen is an operator.
//! A query of plain words that holds a hyphen is therefore searched for as
//! one literal phrase. Every other text reaches the matcher as written, so
//! that its operators stay available and its complaints are reported.

use vstd::prelude::*;
use vstd::string::*;

verus! {

/// The characters of which the matcher builds a bare word: ASCII letters
/// and digits, the underscore, and everything beyond ASCII.
pub open spec fn is_word_char(c: char) -> bool {
    ('0' <= c && c <= '9') || ('A' <= c && c <= 'Z') || ('a' <= c && c <= 'z') || c == '_' || c
        >= '\u{80}'
}

/// What plain words are written with: word characters, hyphens and spaces.
pub open spec fn is_plain_char(c: char) -> bool {
    is_word_char(c) || c == '-' || c == ' '
}

/// A text of plain words, at least one hyphen among them.
pub open spec fn is_hyphenated_text(text: Seq<char>) -> bool {
    (forall|i: int| 0 <= i < text.len() ==> is_plain_char(#[trigger] text[i])) && (exists|i: int|
        0 <= i < text.len() && #[trigger] text[i] == '-')
}

/// The expression that stands for a query text: hyphenated plain text in
/// double quotes, anything else unchanged.
pub open spec fn expression_of(text: Seq<char>) -> Seq<char> {
    if is_hyphenated_text(text) {
        seq!['"'] + text + seq!['"']
    } else {
        text
    }
}

/// The characters that the matcher passes over between words.
pub open spec fn is_blank_char(c: char) -> bool {
    c == ' ' || c == '\t' || c == '\n' || c == '\r'
}

/// A text that holds no word at all: the empty text, or blanks only.
pub open spec fn is_blank_text(text: Seq<char>) -> bool {
    forall|i: int| 0 <= i < text.len() ==> is_blank_char(#[trigger] text[i])
}

/// Whether a query holds nothing to search for.
pub fn is_blank(query: &str) -> (blank: bool)
    ensures
        blank == is_blank_text(query@),
{
    let n: usize = query.unicode_len();
    let mut i: usize = 0;
    while i < n
        invariant
            i <= n,
            n == query@.len(),
            forall|k: int| 0 <= k < i ==> is_blank_char(#[trigger] query@[k]),
        decreases n - i,
    {
        let c = query.get_char(i);
        if !(c == ' ' || c == '\t' || c == '\n' || c == '\r') {
            return false;
        }
        i += 1;
    }
    true
}

/// Whether `c` is written in plain words.
pub fn plain_char(c: char) -> (plain: bool)
    ensures
        plain == is_plain_char(c),
{
    ('0' <= c && c <= '9') || ('A' <= c && c <= 'Z') || ('a' <= c && c <= 'z') || c == '_' || c
        >= '\u{80}' || c == '-' || c == ' '
}

/// The expression handed to the matcher for a query text.
pub fn match_expression(query: &str) -> (expression: String)
    ensures
        expression@ == expression_of(query@),
{
    let n: usize = query.unicode_len();
    let mut plain = true;
    let mut hyphen = false;
    let mut i: usize = 0;
    while i < n
        invariant
            i <= n,
            n == query@.len(),
            plain == (forall|k: int| 0 <= k < i ==> is_plain_char(#[trigger] query@[k])),
            hyphen == (exists|k: int| 0 <= k < i && #[trigger] query@[k] == '-'),
        decreases n - i,
    {
        let c = query.get_char(i);
        if !plain_char(c) {
            plain = false;
        }
        if c == '-' {
            hyphen = true;
        }
        i += 1;
    }
    if plain && hyphen {
        proof {
            reveal_strlit("\"");
            assert("\""@ =~= seq!['"']);
        }
        String::from_str("\"").concat(query).concat("\"")
    } else {
        query.to_owned()
    }
}

/// A text without a hyphen reaches the matcher unchanged.
pub proof fn lemma_unhyphenated_unchanged(text: Seq<char>)
    requires
        forall|i: int| 0 <= i < text.len() ==> #[trigger] text[i] != '-',
    ensures
        expression_of(text) == text,
{
}

/// A text that holds a character of the matcher's grammar, such as a
/// double quote, reaches the matcher unchanged.
pub proof fn lemma_operators_unchanged(text: Seq<char>, i: int)
    requires
        0 <= i < text.len(),
        !is_plain_char(text[i]),
    ensures
        expression_of(text) == text,
{
}

} // verus!
