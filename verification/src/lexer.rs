//! The lexer of the language's concrete syntax: characters into tokens.
use vstd::prelude::*;
use vstd::string::StrSliceExecFns;

verus! {


/// The characters of a string.
pub(crate) fn chars_of(s: &str) -> (v: Vec<char>)
    ensures
        v@ == s@,
{
    broadcast use vstd::string::group_string_axioms;

    let mut v: Vec<char> = Vec::new();
    for c in it: s.chars()
        invariant
            v@.len() == it.index(),
            forall|i: int| 0 <= i < v@.len() ==> v@[i] == it.seq()[i],
            it.seq() == s@,
    {
        v.push(c);
    }
    assert(v@ =~= s@);
    v
}

/// The tokens of the language. A name is the span of the program text it
/// covers, from its first character up to its end.
#[derive(Debug, PartialEq, Eq, Structural, Clone, Copy)]
pub enum Token {
    Number(i32),
    Name(usize, usize),
    Fun,
    If,
    Then,
    Else,
    Let,
    Be,
    In,
    Case,
    Of,
    True,
    False,
    Left,
    Right,
    Fst,
    Snd,
    NumType,
    BoolType,
    UnitType,
    LParen,
    RParen,
    Comma,
    Colon,
    Dot,
    Arrow,
    Plus,
    Minus,
    Star,
    Less,
    Greater,
    EqualTo,
    Question,
}

/// White space between tokens.
pub open spec fn is_space(c: char) -> bool {
    c == ' ' || c == '\t' || c == '\n' || c == '\r'
}

/// A decimal digit.
pub open spec fn is_digit(c: char) -> bool {
    '0' <= c && c <= '9'
}

/// A character that can begin a name or a keyword.
pub open spec fn is_name_start(c: char) -> bool {
    ('a' <= c && c <= 'z') || ('A' <= c && c <= 'Z') || c == '_'
}

/// A character that can continue a name or a keyword.
pub open spec fn is_name_char(c: char) -> bool {
    is_name_start(c) || is_digit(c)
}

/// How many characters from `pos` on are too far to be read: the distance
/// to the end of the text, 0 past it.
pub open spec fn chars_left(s: Seq<char>, pos: nat) -> nat {
    if pos < s.len() {
        (s.len() - pos) as nat
    } else {
        0
    }
}

/// The number of digits in a row from `pos` on.
pub open spec fn digit_run(s: Seq<char>, pos: nat) -> nat
    decreases chars_left(s, pos),
{
    if pos < s.len() && is_digit(s[pos as int]) {
        1 + digit_run(s, pos + 1)
    } else {
        0
    }
}

/// The number of name characters in a row from `pos` on.
pub open spec fn name_run(s: Seq<char>, pos: nat) -> nat
    decreases chars_left(s, pos),
{
    if pos < s.len() && is_name_char(s[pos as int]) {
        1 + name_run(s, pos + 1)
    } else {
        0
    }
}

/// The value of a digit.
pub open spec fn digit_value(c: char) -> nat {
    ((c as int) - ('0' as int)) as nat
}

/// The value of a sequence of decimal digits.
pub open spec fn digits_value(s: Seq<char>) -> nat
    decreases s.len(),
{
    if s.len() == 0 {
        0
    } else {
        digits_value(s.drop_last()) * 10 + digit_value(s.last())
    }
}

/// The keyword that a word is, if it is one.
pub open spec fn keyword(w: Seq<char>) -> Option<Token> {
    if w == "fun"@ {
        Some(Token::Fun)
    } else if w == "if"@ {
        Some(Token::If)
    } else if w == "then"@ {
        Some(Token::Then)
    } else if w == "else"@ {
        Some(Token::Else)
    } else if w == "let"@ {
        Some(Token::Let)
    } else if w == "be"@ {
        Some(Token::Be)
    } else if w == "in"@ {
        Some(Token::In)
    } else if w == "case"@ {
        Some(Token::Case)
    } else if w == "of"@ {
        Some(Token::Of)
    } else if w == "true"@ {
        Some(Token::True)
    } else if w == "false"@ {
        Some(Token::False)
    } else if w == "L"@ {
        Some(Token::Left)
    } else if w == "R"@ {
        Some(Token::Right)
    } else if w == "fst"@ {
        Some(Token::Fst)
    } else if w == "snd"@ {
        Some(Token::Snd)
    } else if w == "Num"@ {
        Some(Token::NumType)
    } else if w == "Bool"@ {
        Some(Token::BoolType)
    } else if w == "Unit"@ {
        Some(Token::UnitType)
    } else {
        None
    }
}

/// The token of a one-character symbol.
pub open spec fn symbol(c: char) -> Option<Token> {
    if c == '(' {
        Some(Token::LParen)
    } else if c == ')' {
        Some(Token::RParen)
    } else if c == ',' {
        Some(Token::Comma)
    } else if c == ':' {
        Some(Token::Colon)
    } else if c == '.' {
        Some(Token::Dot)
    } else if c == '+' {
        Some(Token::Plus)
    } else if c == '-' {
        Some(Token::Minus)
    } else if c == '*' {
        Some(Token::Star)
    } else if c == '<' {
        Some(Token::Less)
    } else if c == '>' {
        Some(Token::Greater)
    } else if c == '?' {
        Some(Token::Question)
    } else {
        None
    }
}

/// The message for a character that no token begins with.
pub open spec fn bad_char_text() -> Seq<char> {
    "Parsing error: unexpected character"@
}

/// The message for a number too large for a 32-bit integer.
pub open spec fn big_number_text() -> Seq<char> {
    "Parsing error: number out of range"@
}

/// `t` before the tokens of `rest`, or the error of `rest`.
pub open spec fn prepend(t: Token, rest: Result<Seq<Token>, Seq<char>>) -> Result<Seq<Token>, Seq<char>> {
    match rest {
        Ok(ts) => Ok(seq![t] + ts),
        Err(m) => Err(m),
    }
}

/// The tokens of the text from `pos` on. White space separates tokens; a
/// token is the longest one that the text begins with.
pub open spec fn lex_from(s: Seq<char>, pos: nat) -> Result<Seq<Token>, Seq<char>>
    decreases chars_left(s, pos),
{
    if pos >= s.len() {
        Ok(Seq::empty())
    } else {
        let c = s[pos as int];
        if is_space(c) {
            lex_from(s, pos + 1)
        } else if is_digit(c) {
            let end = pos + 1 + digit_run(s, pos + 1);
            let v = digits_value(s.subrange(pos as int, end as int));
            if v > i32::MAX {
                Err(big_number_text())
            } else {
                prepend(Token::Number(v as i32), lex_from(s, end))
            }
        } else if is_name_start(c) {
            let end = pos + 1 + name_run(s, pos + 1);
            let t = match keyword(s.subrange(pos as int, end as int)) {
                Some(k) => k,
                None => Token::Name(pos as usize, end as usize),
            };
            prepend(t, lex_from(s, end))
        } else if c == '-' && pos + 1 < s.len() && s[pos + 1int] == '>' {
            prepend(Token::Arrow, lex_from(s, pos + 2))
        } else if c == '=' && pos + 1 < s.len() && s[pos + 1int] == '?' {
            prepend(Token::EqualTo, lex_from(s, pos + 2))
        } else {
            match symbol(c) {
                Some(t) => prepend(t, lex_from(s, pos + 1)),
                None => Err(bad_char_text()),
            }
        }
    }
}

/// Every name token covers characters of a text of length `n`.
pub open spec fn tokens_within(toks: Seq<Token>, n: nat) -> bool {
    forall|i: int|
        0 <= i < toks.len() ==> (#[trigger] toks[i] matches Token::Name(a, b) ==> a <= b && b <= n)
}

/// Whether the characters of `s` from `start` up to `end` spell `lit`.
fn word_is(s: &Vec<char>, start: usize, end: usize, lit: &str) -> (r: bool)
    requires
        start <= end <= s@.len(),
    ensures
        r == (s@.subrange(start as int, end as int) == lit@),
{
    let n = lit.unicode_len();
    if end - start != n {
        assert(s@.subrange(start as int, end as int).len() != lit@.len());
        return false;
    }
    let mut i: usize = 0;
    while i < n
        invariant
            i <= n,
            n == end - start,
            n == lit@.len(),
            start <= end <= s@.len(),
            forall|j: int| 0 <= j < i ==> s@[start + j] == lit@[j],
        decreases n - i,
    {
        if s[start + i] != lit.get_char(i) {
            assert(s@.subrange(start as int, end as int)[i as int] != lit@[i as int]);
            return false;
        }
        i = i + 1;
    }
    assert(s@.subrange(start as int, end as int) =~= lit@);
    true
}

/// The keyword spelt by the characters of `s` from `start` up to `end`.
fn keyword_of(s: &Vec<char>, start: usize, end: usize) -> (r: Option<Token>)
    requires
        start <= end <= s@.len(),
    ensures
        r == keyword(s@.subrange(start as int, end as int)),
{
    if word_is(s, start, end, "fun") {
        Some(Token::Fun)
    } else if word_is(s, start, end, "if") {
        Some(Token::If)
    } else if word_is(s, start, end, "then") {
        Some(Token::Then)
    } else if word_is(s, start, end, "else") {
        Some(Token::Else)
    } else if word_is(s, start, end, "let") {
        Some(Token::Let)
    } else if word_is(s, start, end, "be") {
        Some(Token::Be)
    } else if word_is(s, start, end, "in") {
        Some(Token::In)
    } else if word_is(s, start, end, "case") {
        Some(Token::Case)
    } else if word_is(s, start, end, "of") {
        Some(Token::Of)
    } else if word_is(s, start, end, "true") {
        Some(Token::True)
    } else if word_is(s, start, end, "false") {
        Some(Token::False)
    } else if word_is(s, start, end, "L") {
        Some(Token::Left)
    } else if word_is(s, start, end, "R") {
        Some(Token::Right)
    } else if word_is(s, start, end, "fst") {
        Some(Token::Fst)
    } else if word_is(s, start, end, "snd") {
        Some(Token::Snd)
    } else if word_is(s, start, end, "Num") {
        Some(Token::NumType)
    } else if word_is(s, start, end, "Bool") {
        Some(Token::BoolType)
    } else if word_is(s, start, end, "Unit") {
        Some(Token::UnitType)
    } else {
        None
    }
}

fn char_is_space(c: char) -> (r: bool)
    ensures
        r == is_space(c),
{
    c == ' ' || c == '\t' || c == '\n' || c == '\r'
}

fn char_is_digit(c: char) -> (r: bool)
    ensures
        r == is_digit(c),
{
    '0' <= c && c <= '9'
}

fn char_is_name_start(c: char) -> (r: bool)
    ensures
        r == is_name_start(c),
{
    ('a' <= c && c <= 'z') || ('A' <= c && c <= 'Z') || c == '_'
}

fn char_is_name_char(c: char) -> (r: bool)
    ensures
        r == is_name_char(c),
{
    char_is_name_start(c) || char_is_digit(c)
}

fn symbol_of(c: char) -> (r: Option<Token>)
    ensures
        r == symbol(c),
{
    if c == '(' {
        Some(Token::LParen)
    } else if c == ')' {
        Some(Token::RParen)
    } else if c == ',' {
        Some(Token::Comma)
    } else if c == ':' {
        Some(Token::Colon)
    } else if c == '.' {
        Some(Token::Dot)
    } else if c == '+' {
        Some(Token::Plus)
    } else if c == '-' {
        Some(Token::Minus)
    } else if c == '*' {
        Some(Token::Star)
    } else if c == '<' {
        Some(Token::Less)
    } else if c == '>' {
        Some(Token::Greater)
    } else if c == '?' {
        Some(Token::Question)
    } else {
        None
    }
}

/// The tokens of the text `s`.
pub(crate) fn lex(s: &Vec<char>) -> (r: Result<Vec<Token>, String>)
    ensures
        match (r, lex_from(s@, 0)) {
            (Ok(t), Ok(u)) => t@ == u && tokens_within(u, s@.len()),
            (Err(m), Err(n)) => m@ == n,
            _ => false,
        },
{
    let n = s.len();
    let mut toks: Vec<Token> = Vec::new();
    let mut pos: usize = 0;
    while pos < n
        invariant
            pos <= n == s@.len(),
            lex_from(s@, 0) == match lex_from(s@, pos as nat) {
                Ok(rest) => Ok(toks@ + rest),
                Err(m) => Err::<Seq<Token>, Seq<char>>(m),
            },
            tokens_within(toks@, n as nat),
        decreases n - pos,
    {
        let c = s[pos];
        let ghost old_toks = toks@;
        let ghost p0 = pos as nat;
        if char_is_space(c) {
            pos = pos + 1;
            assert(lex_from(s@, p0) == lex_from(s@, pos as nat));
        } else if char_is_digit(c) {
            let start = pos;
            let mut end = pos + 1;
            let mut val: u64 = ((c as u32) - ('0' as u32)) as u64;
            let mut big = false;
            assert(s@.subrange(start as int, end as int).drop_last() =~= Seq::<char>::empty());
            assert(s@.subrange(start as int, end as int).last() == c);
            assert(digits_value(Seq::<char>::empty()) == 0);
            assert(digits_value(s@.subrange(start as int, end as int)) == digit_value(c));
            while end < n && char_is_digit(s[end])
                invariant
                    start < end <= n == s@.len(),
                    digit_run(s@, (start + 1) as nat) == (end - start - 1) + digit_run(s@, end as nat),
                    !big ==> val == digits_value(s@.subrange(start as int, end as int)) && val <= i32::MAX,
                    big ==> digits_value(s@.subrange(start as int, end as int)) > i32::MAX,
                decreases n - end,
            {
                let d = ((s[end] as u32) - ('0' as u32)) as u64;
                assert(s@.subrange(start as int, end + 1).drop_last() =~= s@.subrange(start as int, end as int));
                if !big {
                    let nv = val * 10 + d;
                    if nv > 0x7fff_ffff {
                        big = true;
                    } else {
                        val = nv;
                    }
                }
                end = end + 1;
            }
            pos = end;
            if big {
                return Err("Parsing error: number out of range".to_string());
            }
            toks.push(Token::Number(val as i32));
            assert(lex_from(s@, p0) == prepend(Token::Number(val as i32), lex_from(s@, pos as nat)));
        } else if char_is_name_start(c) {
            let start = pos;
            let mut end = pos + 1;
            while end < n && char_is_name_char(s[end])
                invariant
                    start < end <= n == s@.len(),
                    name_run(s@, (start + 1) as nat) == (end - start - 1) + name_run(s@, end as nat),
                decreases n - end,
            {
                end = end + 1;
            }
            let t = match keyword_of(s, start, end) {
                Some(k) => k,
                None => Token::Name(start, end),
            };
            toks.push(t);
            pos = end;
            assert(lex_from(s@, p0) == prepend(t, lex_from(s@, pos as nat)));
        } else if c == '-' && pos + 1 < n && s[pos + 1] == '>' {
            toks.push(Token::Arrow);
            pos = pos + 2;
            assert(lex_from(s@, p0) == prepend(Token::Arrow, lex_from(s@, pos as nat)));
        } else if c == '=' && pos + 1 < n && s[pos + 1] == '?' {
            toks.push(Token::EqualTo);
            pos = pos + 2;
            assert(lex_from(s@, p0) == prepend(Token::EqualTo, lex_from(s@, pos as nat)));
        } else {
            match symbol_of(c) {
                Some(t) => {
                    toks.push(t);
                    pos = pos + 1;
                    assert(lex_from(s@, p0) == prepend(t, lex_from(s@, pos as nat)));
                },
                None => {
                    return Err("Parsing error: unexpected character".to_string());
                },
            }
        }
        proof {
            if toks@.len() > old_toks.len() {
                assert(toks@ =~= old_toks + seq![toks@.last()]);
                if let Ok(rest) = lex_from(s@, pos as nat) {
                    assert(old_toks + (seq![toks@.last()] + rest) =~= toks@ + rest);
                }
            } else {
                assert(toks@ =~= old_toks);
            }
        }
    }
    assert(toks@ + Seq::<Token>::empty() =~= toks@);
    Ok(toks)
}

} // verus!
