//! The lexer: from source text to a sequence of tokens.
//!
//! `lex` is the reference semantics, a total spec function over the character
//! sequence of the input; `tokenise` is the executable lexer, proved to return
//! exactly `lex` of its input. Lexing never fails: characters outside the
//! recognised classes are discarded, a word or number run ending at the end of
//! the input still yields its token, and an unterminated quote yields a
//! string literal holding the rest of the input.

use vstd::prelude::*;
use crate::scan::{lemma_scan_to_is, scan_to};
use vstd::string::StrSliceExecFns;
use vstd::string::StringExecFns;

verus! {

/// One lexical token of the DSL.
#[derive(Debug, PartialEq)]
pub enum Token {
    /// An unsigned numeral.
    Integer(u32),
    /// One of the literal spellings `true` / `True` / `false` / `False`.
    Boolean(bool),
    /// The text between a pair of double quotes, with no escape handling.
    StringLiteral(String),
    /// An identifier-like run of letters, `_`, `-`, `?`, `.`.
    Word(String),
    /// One of `( ) { } < > [ ]`.
    Encapsulator(char),
    /// One of `: , ;`.
    Split(char),
}

/// The mathematical value of a [`Token`]: the same shape, with text as a
/// character sequence.
pub enum SpecToken {
    Integer(u32),
    Boolean(bool),
    StringLiteral(Seq<char>),
    Word(Seq<char>),
    Encapsulator(char),
    Split(char),
}

impl View for Token {
    type V = SpecToken;

    open spec fn view(&self) -> SpecToken {
        match self {
            Token::Integer(n) => SpecToken::Integer(*n),
            Token::Boolean(b) => SpecToken::Boolean(*b),
            Token::StringLiteral(s) => SpecToken::StringLiteral(s@),
            Token::Word(s) => SpecToken::Word(s@),
            Token::Encapsulator(c) => SpecToken::Encapsulator(*c),
            Token::Split(c) => SpecToken::Split(*c),
        }
    }
}

impl DeepView for Token {
    type V = SpecToken;

    open spec fn deep_view(&self) -> SpecToken {
        self.view()
    }
}

impl Clone for Token {
    fn clone(&self) -> (res: Self)
        ensures
            res == *self,
    {
        match self {
            Token::Integer(n) => Token::Integer(*n),
            Token::Boolean(b) => Token::Boolean(*b),
            Token::StringLiteral(s) => Token::StringLiteral(s.clone()),
            Token::Word(s) => Token::Word(s.clone()),
            Token::Encapsulator(c) => Token::Encapsulator(*c),
            Token::Split(c) => Token::Split(*c),
        }
    }
}

/// A letter starts a word run.
pub open spec fn is_letter(c: char) -> bool {
    ('A' as u32 <= c as u32 && c as u32 <= 'Z' as u32) || ('a' as u32 <= c as u32 && c as u32
        <= 'z' as u32)
}

/// The characters that may continue a word run once a letter has started it.
pub open spec fn is_word_char(c: char) -> bool {
    is_letter(c) || c == '_' || c == '-' || c == '?' || c == '.'
}

/// An ASCII decimal digit.
pub open spec fn is_digit(c: char) -> bool {
    '0' as u32 <= c as u32 && c as u32 <= '9' as u32
}

/// A bracket-family delimiter.
pub open spec fn is_encapsulator(c: char) -> bool {
    c == '(' || c == ')' || c == '{' || c == '}' || c == '<' || c == '>' || c == '[' || c == ']'
}

/// A punctuation delimiter.
pub open spec fn is_split(c: char) -> bool {
    c == ':' || c == ',' || c == ';'
}

/// Stop predicate ending a word run.
pub open spec fn word_stop() -> spec_fn(char) -> bool {
    |c: char| !is_word_char(c)
}

/// Stop predicate ending a digit run.
pub open spec fn digit_stop() -> spec_fn(char) -> bool {
    |c: char| !is_digit(c)
}

/// Stop predicate ending a quoted run.
pub open spec fn quote_stop() -> spec_fn(char) -> bool {
    |c: char| c == '"'
}

/// How a completed word run is classified: the four boolean spellings become
/// boolean tokens, everything else is a word.
pub open spec fn classify_word(w: Seq<char>) -> SpecToken {
    if w == "True"@ || w == "true"@ {
        SpecToken::Boolean(true)
    } else if w == "False"@ || w == "false"@ {
        SpecToken::Boolean(false)
    } else {
        SpecToken::Word(w)
    }
}

/// The numeric value of a digit character.
pub open spec fn digit_val(c: char) -> u32 {
    (c as u32 - '0' as u32) as u32
}

/// The value of the digit run `s[i..j]`, accumulated left to right, reduced
/// modulo 2^32 at every step as the executable accumulation is.
pub open spec fn num_val(s: Seq<char>, i: int, j: int) -> u32
    decreases j - i,
{
    if i < j {
        (((num_val(s, i, j - 1) as int) * 10 + digit_val(s[j - 1]) as int) % 0x1_0000_0000) as u32
    } else {
        0
    }
}

/// The token sequence produced from position `i` of `s` onward.
pub open spec fn lex_from(s: Seq<char>, i: int) -> Seq<SpecToken>
    decreases s.len() - i,
    via lex_from_dec
{
    if !(0 <= i < s.len()) {
        Seq::empty()
    } else {
        let c = s[i];
        if is_letter(c) {
            let j = scan_to(s, i + 1, word_stop());
            seq![classify_word(s.subrange(i, j))] + lex_from(s, j)
        } else if c == '"' {
            let j = scan_to(s, i + 1, quote_stop());
            if j < s.len() {
                seq![SpecToken::StringLiteral(s.subrange(i + 1, j))] + lex_from(s, j + 1)
            } else {
                seq![SpecToken::StringLiteral(s.subrange(i + 1, j))]
            }
        } else if is_digit(c) {
            let j = scan_to(s, i + 1, digit_stop());
            seq![SpecToken::Integer(num_val(s, i, j))] + lex_from(s, j)
        } else if is_encapsulator(c) {
            seq![SpecToken::Encapsulator(c)] + lex_from(s, i + 1)
        } else if is_split(c) {
            seq![SpecToken::Split(c)] + lex_from(s, i + 1)
        } else {
            lex_from(s, i + 1)
        }
    }
}

#[via_fn]
proof fn lex_from_dec(s: Seq<char>, i: int) {
    if 0 <= i < s.len() {
        crate::scan::lemma_scan_to_bounds(s, i + 1, word_stop());
        crate::scan::lemma_scan_to_bounds(s, i + 1, quote_stop());
        crate::scan::lemma_scan_to_bounds(s, i + 1, digit_stop());
    }
}

/// The reference semantics of the lexer: the token sequence of `s`.
pub open spec fn lex(s: Seq<char>) -> Seq<SpecToken> {
    lex_from(s, 0)
}

/// Character-sequence equality of two string slices.
pub fn str_eq(a: &str, b: &str) -> (r: bool)
    ensures
        r == (a@ == b@),
{
    let sa = String::from_str(a);
    let sb = String::from_str(b);
    sa == sb
}

fn letter(c: char) -> (b: bool)
    ensures
        b == is_letter(c),
{
    let u = c as u32;
    ('A' as u32 <= u && u <= 'Z' as u32) || ('a' as u32 <= u && u <= 'z' as u32)
}

fn word_char(c: char) -> (b: bool)
    ensures
        b == is_word_char(c),
{
    letter(c) || c == '_' || c == '-' || c == '?' || c == '.'
}

fn digit(c: char) -> (b: bool)
    ensures
        b == is_digit(c),
{
    let u = c as u32;
    '0' as u32 <= u && u <= '9' as u32
}

fn encapsulator(c: char) -> (b: bool)
    ensures
        b == is_encapsulator(c),
{
    c == '(' || c == ')' || c == '{' || c == '}' || c == '<' || c == '>' || c == '[' || c == ']'
}

fn split(c: char) -> (b: bool)
    ensures
        b == is_split(c),
{
    c == ':' || c == ',' || c == ';'
}

/// The lexer. Total and deterministic: for any input it terminates and
/// returns exactly `lex` of the input's characters, so repeated calls on the
/// same text return the same token sequence.
pub fn tokenise(input: String) -> (r: Vec<Token>)
    ensures
        r.deep_view() == lex(input@),
{
    let s = input.as_str();
    let n = s.unicode_len();
    let mut r: Vec<Token> = Vec::new();
    let mut i: usize = 0;
    while i < n
        invariant
            s@ == input@,
            n == s@.len(),
            i <= n,
            lex(input@) =~= r.deep_view() + lex_from(s@, i as int),
        decreases n - i,
    {
        let ghost prev = r.deep_view();
        let c = s.get_char(i);
        if letter(c) {
            let mut j = i + 1;
            while j < n && word_char(s.get_char(j))
                invariant
                    s@ == input@,
                    n == s@.len(),
                    i < j <= n,
                    forall|k: int| i + 1 <= k < j ==> is_word_char(s@[k]),
                decreases n - j,
            {
                j += 1;
            }
            proof {
                lemma_scan_to_is(s@, i + 1, word_stop(), j as int);
            }
            let w = s.substring_char(i, j);
            let tok: Token = if str_eq(w, "True") || str_eq(w, "true") {
                Token::Boolean(true)
            } else if str_eq(w, "False") || str_eq(w, "false") {
                Token::Boolean(false)
            } else {
                Token::Word(String::from_str(w))
            };
            assert(tok.deep_view() == classify_word(s@.subrange(i as int, j as int)));
            r.push(tok);
            proof {
                assert(r.deep_view() =~= prev.push(classify_word(s@.subrange(i as int, j as int))));
                assert(lex(input@) =~= r.deep_view() + lex_from(s@, j as int));
            }
            i = j;
        } else if c == '"' {
            let mut j = i + 1;
            while j < n && s.get_char(j) != '"'
                invariant
                    s@ == input@,
                    n == s@.len(),
                    i + 1 <= j <= n,
                    forall|k: int| i + 1 <= k < j ==> s@[k] != '"',
                decreases n - j,
            {
                j += 1;
            }
            proof {
                lemma_scan_to_is(s@, i + 1, quote_stop(), j as int);
            }
            let content = s.substring_char(i + 1, j);
            let tok = Token::StringLiteral(String::from_str(content));
            r.push(tok);
            proof {
                assert(r.deep_view() =~= prev.push(
                    SpecToken::StringLiteral(s@.subrange(i as int + 1, j as int)),
                ));
            }
            if j < n {
                proof {
                    assert(lex(input@) =~= r.deep_view() + lex_from(s@, j as int + 1));
                }
                i = j + 1;
            } else {
                proof {
                    assert(lex_from(s@, i as int) =~= seq![
                        SpecToken::StringLiteral(s@.subrange(i as int + 1, j as int)),
                    ]);
                    assert(lex(input@) =~= r.deep_view() + lex_from(s@, n as int));
                }
                i = n;
            }
        } else if digit(c) {
            let mut j = i + 1;
            let mut acc: u32 = c as u32 - '0' as u32;
            assert(num_val(s@, i as int, i as int) == 0);
            assert(acc == num_val(s@, i as int, j as int));
            while j < n && digit(s.get_char(j))
                invariant
                    s@ == input@,
                    n == s@.len(),
                    i < j <= n,
                    forall|k: int| i + 1 <= k < j ==> is_digit(s@[k]),
                    is_digit(s@[i as int]),
                    acc == num_val(s@, i as int, j as int),
                decreases n - j,
            {
                let d = s.get_char(j) as u32 - '0' as u32;
                acc = ((acc as u64 * 10 + d as u64) % 0x1_0000_0000) as u32;
                j += 1;
            }
            proof {
                lemma_scan_to_is(s@, i + 1, digit_stop(), j as int);
            }
            r.push(Token::Integer(acc));
            proof {
                assert(r.deep_view() =~= prev.push(SpecToken::Integer(acc)));
                assert(lex(input@) =~= r.deep_view() + lex_from(s@, j as int));
            }
            i = j;
        } else if encapsulator(c) {
            r.push(Token::Encapsulator(c));
            proof {
                assert(r.deep_view() =~= prev.push(SpecToken::Encapsulator(c)));
                assert(lex(input@) =~= r.deep_view() + lex_from(s@, i as int + 1));
            }
            i = i + 1;
        } else if split(c) {
            r.push(Token::Split(c));
            proof {
                assert(r.deep_view() =~= prev.push(SpecToken::Split(c)));
                assert(lex(input@) =~= r.deep_view() + lex_from(s@, i as int + 1));
            }
            i = i + 1;
        } else {
            i = i + 1;
        }
    }
    proof {
        assert(r.deep_view() =~= r.deep_view() + lex_from(s@, n as int));
    }
    r
}

} // verus!
