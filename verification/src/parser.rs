//! The parser of the language's concrete syntax: characters are read into
//! tokens, tokens into a syntax tree whose names are spans of the program
//! text, and the tree into an `Expr`.
//!
//! The grammar, loosest binding first:
//!
//! ```text
//! expr    := add (("<" | ">" | "=?") add)*
//! add     := mul (("+" | "-") mul)*
//! mul     := unary ("*" unary)*
//! unary   := "-" unary | "L" unary | "R" unary | postfix
//! postfix := primary ("(" expr ")" | "(" expr "," expr ")" | "." "fst" | "." "snd")*
//! primary := number | "true" | "false" | "(" ")" | "(" expr ")" | "(" expr "," expr ")"
//!          | name | "fun" binder "->" expr | "if" expr "then" expr "else" expr
//!          | "let" binder "be" expr "in" expr
//!          | "case" expr "of" "L" "(" name ")" "->" expr "else" "R" "(" name ")" "->" expr
//! binder  := name | "(" name ":" type ")"
//! type    := tsum ("->" type)?
//! tsum    := tprod ("+" tprod)*
//! tprod   := tatom ("*" tatom)*
//! tatom   := "Num" | "Bool" | "Unit" | "?" | "(" type ")"
//! ```
use vstd::prelude::*;

use crate::ast::{t_arrow, t_product, t_sum, AlfaType, Expr, Id, Infix, Prefix};
use crate::lexer::{chars_of, lex, lex_from, tokens_within, Token};
use crate::typechecking::result_is;

verus! {

/// A parsed program whose names are still spans of the program text.
#[derive(Debug)]
pub enum Syntax {
    Num(i32),
    Bool(bool),
    Unit,
    Var(usize, usize),
    Fun(usize, usize, Option<AlfaType>, Box<Syntax>),
    If(Box<Syntax>, Box<Syntax>, Box<Syntax>),
    Case(Box<Syntax>, usize, usize, Box<Syntax>, usize, usize, Box<Syntax>),
    InjL(Box<Syntax>),
    InjR(Box<Syntax>),
    PrjL(Box<Syntax>),
    PrjR(Box<Syntax>),
    Let(usize, usize, Option<AlfaType>, Box<Syntax>, Box<Syntax>),
    Ap(Box<Syntax>, Box<Syntax>),
    BinOp(Box<Syntax>, Infix, Box<Syntax>),
    UnOp(Prefix, Box<Syntax>),
    Pair(Box<Syntax>, Box<Syntax>),
}

/// A parse of a part of the token sequence: what was parsed and how many
/// tokens it took, or a message.
pub type Parsed<T> = Result<(T, nat), Seq<char>>;

/// The message for a program that ends too early.
pub open spec fn end_of_input_text() -> Seq<char> {
    "Parsing error: unexpected end of input"@
}

/// The message for a token that the grammar does not allow where it stands.
pub open spec fn bad_token_text() -> Seq<char> {
    "Parsing error: unexpected token"@
}

/// The message for tokens left over after a whole expression.
pub open spec fn trailing_text() -> Seq<char> {
    "Parsing error: unexpected input after the end of the program"@
}

/// The message for a missing token at `pos`.
pub open spec fn missing_at(toks: Seq<Token>, pos: nat) -> Seq<char> {
    if pos >= toks.len() {
        end_of_input_text()
    } else {
        bad_token_text()
    }
}

/// Whether the token at `pos` is `t`.
pub open spec fn token_is(toks: Seq<Token>, pos: nat, t: Token) -> bool {
    pos < toks.len() && toks[pos as int] == t
}

/// How many tokens from `pos` on are too far to be read: the distance to the
/// end of the sequence, 0 past it.
pub open spec fn toks_left(toks: Seq<Token>, pos: nat) -> nat {
    if pos < toks.len() {
        (toks.len() - pos) as nat
    } else {
        0
    }
}

/// An atomic type: `Num`, `Bool`, `Unit`, `?` or a type in parentheses.
pub open spec fn type_atom(toks: Seq<Token>, pos: nat) -> Parsed<AlfaType>
    decreases toks_left(toks, pos), 0nat,
{
    if pos >= toks.len() {
        Err(end_of_input_text())
    } else {
        match toks[pos as int] {
            Token::NumType => Ok((AlfaType::Num, 1)),
            Token::BoolType => Ok((AlfaType::Bool, 1)),
            Token::UnitType => Ok((AlfaType::Unit, 1)),
            Token::Question => Ok((AlfaType::Dyn, 1)),
            Token::LParen => match type_expr(toks, pos + 1) {
                Err(m) => Err(m),
                Ok((t, c)) => if token_is(toks, pos + 1 + c, Token::RParen) {
                    Ok((t, c + 2))
                } else {
                    Err(missing_at(toks, pos + 1 + c))
                },
            },
            _ => Err(bad_token_text()),
        }
    }
}

/// The products that follow a type already parsed as `acc`.
pub open spec fn type_product_rest(toks: Seq<Token>, pos: nat, acc: AlfaType) -> Parsed<AlfaType>
    decreases toks_left(toks, pos), 1nat,
{
    if token_is(toks, pos, Token::Star) {
        match type_atom(toks, pos + 1) {
            Err(m) => Err(m),
            Ok((t, c)) => match type_product_rest(toks, pos + 1 + c, t_product(acc, t)) {
                Err(m) => Err(m),
                Ok((r, k)) => Ok((r, 1 + c + k)),
            },
        }
    } else {
        Ok((acc, 0))
    }
}

/// A product type, `*` grouping to the left.
pub open spec fn type_product(toks: Seq<Token>, pos: nat) -> Parsed<AlfaType>
    decreases toks_left(toks, pos), 2nat,
{
    match type_atom(toks, pos) {
        Err(m) => Err(m),
        Ok((t, c)) => match type_product_rest(toks, pos + c, t) {
            Err(m) => Err(m),
            Ok((r, k)) => Ok((r, c + k)),
        },
    }
}

/// The sums that follow a type already parsed as `acc`.
pub open spec fn type_sum_rest(toks: Seq<Token>, pos: nat, acc: AlfaType) -> Parsed<AlfaType>
    decreases toks_left(toks, pos), 3nat,
{
    if token_is(toks, pos, Token::Plus) {
        match type_product(toks, pos + 1) {
            Err(m) => Err(m),
            Ok((t, c)) => match type_sum_rest(toks, pos + 1 + c, t_sum(acc, t)) {
                Err(m) => Err(m),
                Ok((r, k)) => Ok((r, 1 + c + k)),
            },
        }
    } else {
        Ok((acc, 0))
    }
}

/// A sum type, `+` grouping to the left.
pub open spec fn type_sum(toks: Seq<Token>, pos: nat) -> Parsed<AlfaType>
    decreases toks_left(toks, pos), 4nat,
{
    match type_product(toks, pos) {
        Err(m) => Err(m),
        Ok((t, c)) => match type_sum_rest(toks, pos + c, t) {
            Err(m) => Err(m),
            Ok((r, k)) => Ok((r, c + k)),
        },
    }
}

/// A type, `->` grouping to the right.
pub open spec fn type_expr(toks: Seq<Token>, pos: nat) -> Parsed<AlfaType>
    decreases toks_left(toks, pos), 5nat,
{
    match type_sum(toks, pos) {
        Err(m) => Err(m),
        Ok((t, c)) => if token_is(toks, pos + c, Token::Arrow) {
            match type_expr(toks, pos + c + 1) {
                Err(m) => Err(m),
                Ok((r, k)) => Ok((t_arrow(t, r), c + 1 + k)),
            }
        } else {
            Ok((t, c))
        },
    }
}

/// The span of the name at `pos`, if a name stands there.
pub open spec fn name_at(toks: Seq<Token>, pos: nat) -> Option<(usize, usize)> {
    if pos < toks.len() {
        match toks[pos as int] {
            Token::Name(a, b) => Some((a, b)),
            _ => None,
        }
    } else {
        None
    }
}

/// A binder: a name, with a type annotation when in parentheses.
pub open spec fn binder(toks: Seq<Token>, pos: nat) -> Parsed<(usize, usize, Option<AlfaType>)> {
    if pos >= toks.len() {
        Err(end_of_input_text())
    } else {
        match toks[pos as int] {
            Token::Name(a, b) => Ok(((a, b, None), 1)),
            Token::LParen => match name_at(toks, pos + 1) {
                Some((a, b)) => if token_is(toks, pos + 2, Token::Colon) {
                    match type_expr(toks, pos + 3) {
                        Err(m) => Err(m),
                        Ok((t, c)) => if token_is(toks, pos + 3 + c, Token::RParen) {
                            Ok(((a, b, Some(t)), c + 4))
                        } else {
                            Err(missing_at(toks, pos + 3 + c))
                        },
                    }
                } else {
                    Err(missing_at(toks, pos + 2))
                },
                None => Err(missing_at(toks, pos + 1)),
            },
            _ => Err(bad_token_text()),
        }
    }
}

/// The binary operator of a comparison token.
pub open spec fn comparison_op(t: Token) -> Option<Infix> {
    match t {
        Token::Less => Some(Infix::LessThan),
        Token::Greater => Some(Infix::GreaterThan),
        Token::EqualTo => Some(Infix::EqualTo),
        _ => None,
    }
}

/// The binary operator of an additive token.
pub open spec fn additive_op(t: Token) -> Option<Infix> {
    match t {
        Token::Plus => Some(Infix::Plus),
        Token::Minus => Some(Infix::Minus),
        _ => None,
    }
}

/// The operator of the token at `pos`, by the given table.
pub open spec fn op_at(toks: Seq<Token>, pos: nat, table: spec_fn(Token) -> Option<Infix>) -> Option<Infix> {
    if pos < toks.len() {
        table(toks[pos as int])
    } else {
        None
    }
}

/// A primary expression: a literal, a name, a parenthesized expression or
/// pair, or one of the binding forms, which reach as far right as they can.
pub open spec fn primary(toks: Seq<Token>, pos: nat) -> Parsed<Syntax>
    decreases toks_left(toks, pos), 0nat,
{
    if pos >= toks.len() {
        Err(end_of_input_text())
    } else {
        match toks[pos as int] {
            Token::Number(n) => Ok((Syntax::Num(n), 1)),
            Token::True => Ok((Syntax::Bool(true), 1)),
            Token::False => Ok((Syntax::Bool(false), 1)),
            Token::Name(a, b) => Ok((Syntax::Var(a, b), 1)),
            Token::LParen => if token_is(toks, pos + 1, Token::RParen) {
                Ok((Syntax::Unit, 2))
            } else {
                match expr(toks, pos + 1) {
                    Err(m) => Err(m),
                    Ok((e, c)) => {
                        let q = pos + 1 + c;
                        if token_is(toks, q, Token::RParen) {
                            Ok((e, c + 2))
                        } else if token_is(toks, q, Token::Comma) {
                            match expr(toks, q + 1) {
                                Err(m) => Err(m),
                                Ok((f, d)) => if token_is(toks, q + 1 + d, Token::RParen) {
                                    Ok((Syntax::Pair(Box::new(e), Box::new(f)), c + d + 3))
                                } else {
                                    Err(missing_at(toks, q + 1 + d))
                                },
                            }
                        } else {
                            Err(missing_at(toks, q))
                        }
                    },
                }
            },
            Token::Fun => match binder(toks, pos + 1) {
                Err(m) => Err(m),
                Ok(((a, b, ann), c)) => {
                    let q = pos + 1 + c;
                    if token_is(toks, q, Token::Arrow) {
                        match expr(toks, q + 1) {
                            Err(m) => Err(m),
                            Ok((body, d)) => Ok((Syntax::Fun(a, b, ann, Box::new(body)), c + d + 2)),
                        }
                    } else {
                        Err(missing_at(toks, q))
                    }
                },
            },
            Token::If => match expr(toks, pos + 1) {
                Err(m) => Err(m),
                Ok((c, k1)) => {
                    let q1 = pos + 1 + k1;
                    if token_is(toks, q1, Token::Then) {
                        match expr(toks, q1 + 1) {
                            Err(m) => Err(m),
                            Ok((t, k2)) => {
                                let q2 = q1 + 1 + k2;
                                if token_is(toks, q2, Token::Else) {
                                    match expr(toks, q2 + 1) {
                                        Err(m) => Err(m),
                                        Ok((f, k3)) => Ok(
                                            (
                                                Syntax::If(Box::new(c), Box::new(t), Box::new(f)),
                                                k1 + k2 + k3 + 3,
                                            ),
                                        ),
                                    }
                                } else {
                                    Err(missing_at(toks, q2))
                                }
                            },
                        }
                    } else {
                        Err(missing_at(toks, q1))
                    }
                },
            },
            Token::Let => match binder(toks, pos + 1) {
                Err(m) => Err(m),
                Ok(((a, b, ann), c)) => {
                    let q = pos + 1 + c;
                    if token_is(toks, q, Token::Be) {
                        match expr(toks, q + 1) {
                            Err(m) => Err(m),
                            Ok((d, k1)) => {
                                let q1 = q + 1 + k1;
                                if token_is(toks, q1, Token::In) {
                                    match expr(toks, q1 + 1) {
                                        Err(m) => Err(m),
                                        Ok((body, k2)) => Ok(
                                            (
                                                Syntax::Let(a, b, ann, Box::new(d), Box::new(body)),
                                                c + k1 + k2 + 3,
                                            ),
                                        ),
                                    }
                                } else {
                                    Err(missing_at(toks, q1))
                                }
                            },
                        }
                    } else {
                        Err(missing_at(toks, q))
                    }
                },
            },
            Token::Case => match expr(toks, pos + 1) {
                Err(m) => Err(m),
                Ok((c, k1)) => {
                    let q1 = pos + 1 + k1;
                    match case_arm(toks, q1, Token::Of, Token::Left) {
                        Err(m) => Err(m),
                        Ok((la, lb)) => match expr(toks, q1 + 6) {
                            Err(m) => Err(m),
                            Ok((l, k2)) => {
                                let q2 = q1 + 6 + k2;
                                match case_arm(toks, q2, Token::Else, Token::Right) {
                                    Err(m) => Err(m),
                                    Ok((ra, rb)) => match expr(toks, q2 + 6) {
                                        Err(m) => Err(m),
                                        Ok((r, k3)) => Ok(
                                            (
                                                Syntax::Case(
                                                    Box::new(c),
                                                    la,
                                                    lb,
                                                    Box::new(l),
                                                    ra,
                                                    rb,
                                                    Box::new(r),
                                                ),
                                                k1 + k2 + k3 + 13,
                                            ),
                                        ),
                                    },
                                }
                            },
                        },
                    }
                },
            },
            _ => Err(bad_token_text()),
        }
    }
}

/// The six tokens that open an arm of a case: `word side ( name ) ->`,
/// giving the span of the name.
pub open spec fn case_arm(toks: Seq<Token>, pos: nat, word: Token, side: Token) -> Result<(usize, usize), Seq<char>> {
    if !token_is(toks, pos, word) {
        Err(missing_at(toks, pos))
    } else if !token_is(toks, pos + 1, side) {
        Err(missing_at(toks, pos + 1))
    } else if !token_is(toks, pos + 2, Token::LParen) {
        Err(missing_at(toks, pos + 2))
    } else {
        match name_at(toks, pos + 3) {
            None => Err(missing_at(toks, pos + 3)),
            Some((a, b)) => if !token_is(toks, pos + 4, Token::RParen) {
                Err(missing_at(toks, pos + 4))
            } else if !token_is(toks, pos + 5, Token::Arrow) {
                Err(missing_at(toks, pos + 5))
            } else {
                Ok((a, b))
            },
        }
    }
}

/// The applications and projections that follow an expression already
/// parsed as `acc`.
pub open spec fn postfix_rest(toks: Seq<Token>, pos: nat, acc: Syntax) -> Parsed<Syntax>
    decreases toks_left(toks, pos), 1nat,
{
    if token_is(toks, pos, Token::LParen) {
        match expr(toks, pos + 1) {
            Err(m) => Err(m),
            Ok((a, c)) => {
                let q = pos + 1 + c;
                if token_is(toks, q, Token::RParen) {
                    match postfix_rest(toks, q + 1, Syntax::Ap(Box::new(acc), Box::new(a))) {
                        Err(m) => Err(m),
                        Ok((e, k)) => Ok((e, c + 2 + k)),
                    }
                } else if token_is(toks, q, Token::Comma) {
                    match expr(toks, q + 1) {
                        Err(m) => Err(m),
                        Ok((b, d)) => if token_is(toks, q + 1 + d, Token::RParen) {
                            match postfix_rest(
                                toks,
                                q + 2 + d,
                                Syntax::Ap(Box::new(acc), Box::new(Syntax::Pair(Box::new(a), Box::new(b)))),
                            ) {
                                Err(m) => Err(m),
                                Ok((e, k)) => Ok((e, c + d + 3 + k)),
                            }
                        } else {
                            Err(missing_at(toks, q + 1 + d))
                        },
                    }
                } else {
                    Err(missing_at(toks, q))
                }
            },
        }
    } else if token_is(toks, pos, Token::Dot) {
        if token_is(toks, pos + 1, Token::Fst) {
            match postfix_rest(toks, pos + 2, Syntax::PrjL(Box::new(acc))) {
                Err(m) => Err(m),
                Ok((e, k)) => Ok((e, 2 + k)),
            }
        } else if token_is(toks, pos + 1, Token::Snd) {
            match postfix_rest(toks, pos + 2, Syntax::PrjR(Box::new(acc))) {
                Err(m) => Err(m),
                Ok((e, k)) => Ok((e, 2 + k)),
            }
        } else {
            Err(missing_at(toks, pos + 1))
        }
    } else {
        Ok((acc, 0))
    }
}

/// A primary expression with its applications and projections.
pub open spec fn postfix(toks: Seq<Token>, pos: nat) -> Parsed<Syntax>
    decreases toks_left(toks, pos), 2nat,
{
    match primary(toks, pos) {
        Err(m) => Err(m),
        Ok((e, c)) => match postfix_rest(toks, pos + c, e) {
            Err(m) => Err(m),
            Ok((f, k)) => Ok((f, c + k)),
        },
    }
}

/// A negation, an injection, or a postfix expression.
pub open spec fn unary(toks: Seq<Token>, pos: nat) -> Parsed<Syntax>
    decreases toks_left(toks, pos), 3nat,
{
    if token_is(toks, pos, Token::Minus) || token_is(toks, pos, Token::Left) || token_is(
        toks,
        pos,
        Token::Right,
    ) {
        match unary(toks, pos + 1) {
            Err(m) => Err(m),
            Ok((e, c)) => {
                let r = if token_is(toks, pos, Token::Minus) {
                    Syntax::UnOp(Prefix::Neg, Box::new(e))
                } else if token_is(toks, pos, Token::Left) {
                    Syntax::InjL(Box::new(e))
                } else {
                    Syntax::InjR(Box::new(e))
                };
                Ok((r, c + 1))
            },
        }
    } else {
        postfix(toks, pos)
    }
}

/// The products that follow an expression already parsed as `acc`.
pub open spec fn product_rest(toks: Seq<Token>, pos: nat, acc: Syntax) -> Parsed<Syntax>
    decreases toks_left(toks, pos), 4nat,
{
    if token_is(toks, pos, Token::Star) {
        match unary(toks, pos + 1) {
            Err(m) => Err(m),
            Ok((r, c)) => match product_rest(
                toks,
                pos + 1 + c,
                Syntax::BinOp(Box::new(acc), Infix::Times, Box::new(r)),
            ) {
                Err(m) => Err(m),
                Ok((e, k)) => Ok((e, 1 + c + k)),
            },
        }
    } else {
        Ok((acc, 0))
    }
}

/// A product, `*` grouping to the left.
pub open spec fn product_expr(toks: Seq<Token>, pos: nat) -> Parsed<Syntax>
    decreases toks_left(toks, pos), 5nat,
{
    match unary(toks, pos) {
        Err(m) => Err(m),
        Ok((e, c)) => match product_rest(toks, pos + c, e) {
            Err(m) => Err(m),
            Ok((f, k)) => Ok((f, c + k)),
        },
    }
}

/// The sums and differences that follow an expression already parsed as `acc`.
pub open spec fn sum_rest(toks: Seq<Token>, pos: nat, acc: Syntax) -> Parsed<Syntax>
    decreases toks_left(toks, pos), 6nat,
{
    match op_at(toks, pos, |t: Token| additive_op(t)) {
        Some(op) => match product_expr(toks, pos + 1) {
            Err(m) => Err(m),
            Ok((r, c)) => match sum_rest(toks, pos + 1 + c, Syntax::BinOp(Box::new(acc), op, Box::new(r))) {
                Err(m) => Err(m),
                Ok((e, k)) => Ok((e, 1 + c + k)),
            },
        },
        None => Ok((acc, 0)),
    }
}

/// A sum or difference, grouping to the left.
pub open spec fn sum_expr(toks: Seq<Token>, pos: nat) -> Parsed<Syntax>
    decreases toks_left(toks, pos), 7nat,
{
    match product_expr(toks, pos) {
        Err(m) => Err(m),
        Ok((e, c)) => match sum_rest(toks, pos + c, e) {
            Err(m) => Err(m),
            Ok((f, k)) => Ok((f, c + k)),
        },
    }
}

/// The comparisons that follow an expression already parsed as `acc`.
pub open spec fn comparison_rest(toks: Seq<Token>, pos: nat, acc: Syntax) -> Parsed<Syntax>
    decreases toks_left(toks, pos), 8nat,
{
    match op_at(toks, pos, |t: Token| comparison_op(t)) {
        Some(op) => match sum_expr(toks, pos + 1) {
            Err(m) => Err(m),
            Ok((r, c)) => match comparison_rest(
                toks,
                pos + 1 + c,
                Syntax::BinOp(Box::new(acc), op, Box::new(r)),
            ) {
                Err(m) => Err(m),
                Ok((e, k)) => Ok((e, 1 + c + k)),
            },
        },
        None => Ok((acc, 0)),
    }
}

/// An expression: comparisons, grouping to the left, of sums.
pub open spec fn expr(toks: Seq<Token>, pos: nat) -> Parsed<Syntax>
    decreases toks_left(toks, pos), 9nat,
{
    match sum_expr(toks, pos) {
        Err(m) => Err(m),
        Ok((e, c)) => match comparison_rest(toks, pos + c, e) {
            Err(m) => Err(m),
            Ok((f, k)) => Ok((f, c + k)),
        },
    }
}

/// The syntax tree of a whole program text.
pub open spec fn parse_text(s: Seq<char>) -> Result<Syntax, Seq<char>> {
    match lex_from(s, 0) {
        Err(m) => Err(m),
        Ok(toks) => match expr(toks, 0) {
            Err(m) => Err(m),
            Ok((e, c)) => if c == toks.len() {
                Ok(e)
            } else {
                Err(trailing_text())
            },
        },
    }
}

/// Whether an executable parse result is the given spec result: the same
/// tree and token count, or a message with the same text.
pub open spec fn parsed_is<T>(r: Result<(T, usize), String>, s: Parsed<T>) -> bool {
    match (r, s) {
        (Ok((a, c)), Ok((b, d))) => a == b && c as nat == d,
        (Err(m), Err(n)) => m@ == n,
        _ => false,
    }
}

/// Every name span of a syntax tree lies within a text of length `n`.
pub open spec fn spans_within(e: Syntax, n: nat) -> bool
    decreases e,
{
    match e {
        Syntax::Var(a, b) => a <= b && b <= n,
        Syntax::Fun(a, b, _, body) => a <= b && b <= n && spans_within(*body, n),
        Syntax::If(c, t, f) => spans_within(*c, n) && spans_within(*t, n) && spans_within(*f, n),
        Syntax::Case(c, la, lb, l, ra, rb, r) => spans_within(*c, n) && la <= lb && lb <= n && spans_within(
            *l,
            n,
        ) && ra <= rb && rb <= n && spans_within(*r, n),
        Syntax::InjL(x) => spans_within(*x, n),
        Syntax::InjR(x) => spans_within(*x, n),
        Syntax::PrjL(x) => spans_within(*x, n),
        Syntax::PrjR(x) => spans_within(*x, n),
        Syntax::Let(a, b, _, d, body) => a <= b && b <= n && spans_within(*d, n) && spans_within(*body, n),
        Syntax::Ap(f, x) => spans_within(*f, n) && spans_within(*x, n),
        Syntax::BinOp(l, _, r) => spans_within(*l, n) && spans_within(*r, n),
        Syntax::UnOp(_, x) => spans_within(*x, n),
        Syntax::Pair(a, b) => spans_within(*a, n) && spans_within(*b, n),
        _ => true,
    }
}

fn at(toks: &Vec<Token>, pos: usize, t: Token) -> (r: bool)
    ensures
        r == token_is(toks@, pos as nat, t),
{
    pos < toks.len() && toks[pos] == t
}

fn missing(toks: &Vec<Token>, pos: usize) -> (m: String)
    ensures
        m@ == missing_at(toks@, pos as nat),
{
    if pos >= toks.len() {
        "Parsing error: unexpected end of input".to_string()
    } else {
        "Parsing error: unexpected token".to_string()
    }
}

fn bad_token() -> (m: String)
    ensures
        m@ == bad_token_text(),
{
    "Parsing error: unexpected token".to_string()
}

fn end_of_input() -> (m: String)
    ensures
        m@ == end_of_input_text(),
{
    "Parsing error: unexpected end of input".to_string()
}

fn p_type_atom(toks: &Vec<Token>, pos: usize) -> (r: Result<(AlfaType, usize), String>)
    requires
        pos <= toks.len(),
    ensures
        parsed_is(r, type_atom(toks@, pos as nat)),
        r matches Ok((_, c)) ==> pos + c <= toks.len(),
    decreases toks_left(toks@, pos as nat), 0nat,
{
    if pos >= toks.len() {
        return Err(end_of_input());
    }
    match toks[pos] {
        Token::NumType => Ok((AlfaType::Num, 1)),
        Token::BoolType => Ok((AlfaType::Bool, 1)),
        Token::UnitType => Ok((AlfaType::Unit, 1)),
        Token::Question => Ok((AlfaType::Dyn, 1)),
        Token::LParen => {
            let (t, c) = p_type(toks, pos + 1)?;
            if at(toks, pos + 1 + c, Token::RParen) {
                Ok((t, c + 2))
            } else {
                Err(missing(toks, pos + 1 + c))
            }
        },
        _ => Err(bad_token()),
    }
}

fn p_type_product_rest(toks: &Vec<Token>, pos: usize, acc: AlfaType) -> (r: Result<(AlfaType, usize), String>)
    requires
        pos <= toks.len(),
    ensures
        parsed_is(r, type_product_rest(toks@, pos as nat, acc)),
        r matches Ok((_, c)) ==> pos + c <= toks.len(),
    decreases toks_left(toks@, pos as nat), 1nat,
{
    if at(toks, pos, Token::Star) {
        let (t, c) = p_type_atom(toks, pos + 1)?;
        let (r, k) = p_type_product_rest(toks, pos + 1 + c, crate::ast::product(acc, t))?;
        Ok((r, 1 + c + k))
    } else {
        Ok((acc, 0))
    }
}

fn p_type_product(toks: &Vec<Token>, pos: usize) -> (r: Result<(AlfaType, usize), String>)
    requires
        pos <= toks.len(),
    ensures
        parsed_is(r, type_product(toks@, pos as nat)),
        r matches Ok((_, c)) ==> pos + c <= toks.len(),
    decreases toks_left(toks@, pos as nat), 2nat,
{
    let (t, c) = p_type_atom(toks, pos)?;
    let (r, k) = p_type_product_rest(toks, pos + c, t)?;
    Ok((r, c + k))
}

fn p_type_sum_rest(toks: &Vec<Token>, pos: usize, acc: AlfaType) -> (r: Result<(AlfaType, usize), String>)
    requires
        pos <= toks.len(),
    ensures
        parsed_is(r, type_sum_rest(toks@, pos as nat, acc)),
        r matches Ok((_, c)) ==> pos + c <= toks.len(),
    decreases toks_left(toks@, pos as nat), 3nat,
{
    if at(toks, pos, Token::Plus) {
        let (t, c) = p_type_product(toks, pos + 1)?;
        let (r, k) = p_type_sum_rest(toks, pos + 1 + c, crate::ast::sum(acc, t))?;
        Ok((r, 1 + c + k))
    } else {
        Ok((acc, 0))
    }
}

fn p_type_sum(toks: &Vec<Token>, pos: usize) -> (r: Result<(AlfaType, usize), String>)
    requires
        pos <= toks.len(),
    ensures
        parsed_is(r, type_sum(toks@, pos as nat)),
        r matches Ok((_, c)) ==> pos + c <= toks.len(),
    decreases toks_left(toks@, pos as nat), 4nat,
{
    let (t, c) = p_type_product(toks, pos)?;
    let (r, k) = p_type_sum_rest(toks, pos + c, t)?;
    Ok((r, c + k))
}

fn p_type(toks: &Vec<Token>, pos: usize) -> (r: Result<(AlfaType, usize), String>)
    requires
        pos <= toks.len(),
    ensures
        parsed_is(r, type_expr(toks@, pos as nat)),
        r matches Ok((_, c)) ==> pos + c <= toks.len(),
    decreases toks_left(toks@, pos as nat), 5nat,
{
    let (t, c) = p_type_sum(toks, pos)?;
    if at(toks, pos + c, Token::Arrow) {
        let (r, k) = p_type(toks, pos + c + 1)?;
        Ok((crate::ast::arrow(t, r), c + 1 + k))
    } else {
        Ok((t, c))
    }
}

fn p_name_at(toks: &Vec<Token>, pos: usize) -> (r: Option<(usize, usize)>)
    ensures
        r == name_at(toks@, pos as nat),
{
    if pos < toks.len() {
        match toks[pos] {
            Token::Name(a, b) => Some((a, b)),
            _ => None,
        }
    } else {
        None
    }
}

fn p_binder(toks: &Vec<Token>, pos: usize, Ghost(n): Ghost<nat>) -> (r: Result<((usize, usize, Option<AlfaType>), usize), String>)
    requires
        pos <= toks.len(),
        tokens_within(toks@, n),
    ensures
        parsed_is(r, binder(toks@, pos as nat)),
        r matches Ok(((a, b, _), c)) ==> pos + c <= toks.len() && a <= b && b <= n,
{
    if pos >= toks.len() {
        return Err(end_of_input());
    }
    match toks[pos] {
        Token::Name(a, b) => Ok(((a, b, None), 1)),
        Token::LParen => match p_name_at(toks, pos + 1) {
            Some((a, b)) => {
                if at(toks, pos + 2, Token::Colon) {
                    let (t, c) = p_type(toks, pos + 3)?;
                    if at(toks, pos + 3 + c, Token::RParen) {
                        Ok(((a, b, Some(t)), c + 4))
                    } else {
                        Err(missing(toks, pos + 3 + c))
                    }
                } else {
                    Err(missing(toks, pos + 2))
                }
            },
            None => Err(missing(toks, pos + 1)),
        },
        _ => Err(bad_token()),
    }
}

fn p_primary(toks: &Vec<Token>, pos: usize, Ghost(n): Ghost<nat>) -> (r: Result<(Syntax, usize), String>)
    requires
        pos <= toks.len(),
        tokens_within(toks@, n),
    ensures
        parsed_is(r, primary(toks@, pos as nat)),
        r matches Ok((e, c)) ==> pos + c <= toks.len() && spans_within(e, n),
    decreases toks_left(toks@, pos as nat), 1nat,
{
    if pos >= toks.len() {
        return Err(end_of_input());
    }
    match toks[pos] {
        Token::Number(v) => Ok((Syntax::Num(v), 1)),
        Token::True => Ok((Syntax::Bool(true), 1)),
        Token::False => Ok((Syntax::Bool(false), 1)),
        Token::Name(a, b) => Ok((Syntax::Var(a, b), 1)),
        Token::LParen => p_parenthesized(toks, pos, Ghost(n)),
        Token::Fun => p_fun(toks, pos, Ghost(n)),
        Token::If => p_if(toks, pos, Ghost(n)),
        Token::Let => p_let(toks, pos, Ghost(n)),
        Token::Case => p_case(toks, pos, Ghost(n)),
        _ => Err(bad_token()),
    }
}

#[verifier::spinoff_prover]
#[verifier::rlimit(100)]
fn p_parenthesized(toks: &Vec<Token>, pos: usize, Ghost(n): Ghost<nat>) -> (r: Result<(Syntax, usize), String>)
    requires
        pos < toks.len(),
        toks@[pos as int] == Token::LParen,
        tokens_within(toks@, n),
    ensures
        parsed_is(r, primary(toks@, pos as nat)),
        r matches Ok((e, c)) ==> pos + c <= toks.len() && spans_within(e, n),
    decreases toks_left(toks@, pos as nat), 0nat,
{
    if at(toks, pos + 1, Token::RParen) {
        return Ok((Syntax::Unit, 2));
    }
    let (e, c) = p_expr(toks, pos + 1, Ghost(n))?;
    let q = pos + 1 + c;
    if at(toks, q, Token::RParen) {
        Ok((e, c + 2))
    } else if at(toks, q, Token::Comma) {
        let (f, d) = p_expr(toks, q + 1, Ghost(n))?;
        if at(toks, q + 1 + d, Token::RParen) {
            Ok((Syntax::Pair(Box::new(e), Box::new(f)), c + d + 3))
        } else {
            Err(missing(toks, q + 1 + d))
        }
    } else {
        Err(missing(toks, q))
    }
}

#[verifier::spinoff_prover]
#[verifier::rlimit(100)]
fn p_fun(toks: &Vec<Token>, pos: usize, Ghost(n): Ghost<nat>) -> (r: Result<(Syntax, usize), String>)
    requires
        pos < toks.len(),
        toks@[pos as int] == Token::Fun,
        tokens_within(toks@, n),
    ensures
        parsed_is(r, primary(toks@, pos as nat)),
        r matches Ok((e, c)) ==> pos + c <= toks.len() && spans_within(e, n),
    decreases toks_left(toks@, pos as nat), 0nat,
{
    let ((a, b, ann), c) = p_binder(toks, pos + 1, Ghost(n))?;
    let q = pos + 1 + c;
    if at(toks, q, Token::Arrow) {
        let (body, d) = p_expr(toks, q + 1, Ghost(n))?;
        Ok((Syntax::Fun(a, b, ann, Box::new(body)), c + d + 2))
    } else {
        Err(missing(toks, q))
    }
}

#[verifier::spinoff_prover]
#[verifier::rlimit(100)]
fn p_if(toks: &Vec<Token>, pos: usize, Ghost(n): Ghost<nat>) -> (r: Result<(Syntax, usize), String>)
    requires
        pos < toks.len(),
        toks@[pos as int] == Token::If,
        tokens_within(toks@, n),
    ensures
        parsed_is(r, primary(toks@, pos as nat)),
        r matches Ok((e, c)) ==> pos + c <= toks.len() && spans_within(e, n),
    decreases toks_left(toks@, pos as nat), 0nat,
{
    let (c, k1) = p_expr(toks, pos + 1, Ghost(n))?;
    let q1 = pos + 1 + k1;
    if !at(toks, q1, Token::Then) {
        return Err(missing(toks, q1));
    }
    let (t, k2) = p_expr(toks, q1 + 1, Ghost(n))?;
    let q2 = q1 + 1 + k2;
    if !at(toks, q2, Token::Else) {
        return Err(missing(toks, q2));
    }
    let (f, k3) = p_expr(toks, q2 + 1, Ghost(n))?;
    Ok((Syntax::If(Box::new(c), Box::new(t), Box::new(f)), k1 + k2 + k3 + 3))
}

#[verifier::spinoff_prover]
#[verifier::rlimit(100)]
fn p_let(toks: &Vec<Token>, pos: usize, Ghost(n): Ghost<nat>) -> (r: Result<(Syntax, usize), String>)
    requires
        pos < toks.len(),
        toks@[pos as int] == Token::Let,
        tokens_within(toks@, n),
    ensures
        parsed_is(r, primary(toks@, pos as nat)),
        r matches Ok((e, c)) ==> pos + c <= toks.len() && spans_within(e, n),
    decreases toks_left(toks@, pos as nat), 0nat,
{
    let ((a, b, ann), c) = p_binder(toks, pos + 1, Ghost(n))?;
    let q = pos + 1 + c;
    if !at(toks, q, Token::Be) {
        return Err(missing(toks, q));
    }
    let (d, k1) = p_expr(toks, q + 1, Ghost(n))?;
    let q1 = q + 1 + k1;
    if !at(toks, q1, Token::In) {
        return Err(missing(toks, q1));
    }
    let (body, k2) = p_expr(toks, q1 + 1, Ghost(n))?;
    Ok((Syntax::Let(a, b, ann, Box::new(d), Box::new(body)), c + k1 + k2 + 3))
}

#[verifier::spinoff_prover]
#[verifier::rlimit(100)]
fn p_case(toks: &Vec<Token>, pos: usize, Ghost(n): Ghost<nat>) -> (r: Result<(Syntax, usize), String>)
    requires
        pos < toks.len(),
        toks@[pos as int] == Token::Case,
        tokens_within(toks@, n),
    ensures
        parsed_is(r, primary(toks@, pos as nat)),
        r matches Ok((e, c)) ==> pos + c <= toks.len() && spans_within(e, n),
    decreases toks_left(toks@, pos as nat), 0nat,
{
    let (c, k1) = p_expr(toks, pos + 1, Ghost(n))?;
    let q1 = pos + 1 + k1;
    let (la, lb) = p_case_arm(toks, q1, Token::Of, Token::Left, Ghost(n))?;
    let (l, k2) = p_expr(toks, q1 + 6, Ghost(n))?;
    let q2 = q1 + 6 + k2;
    let (ra, rb) = p_case_arm(toks, q2, Token::Else, Token::Right, Ghost(n))?;
    let (r, k3) = p_expr(toks, q2 + 6, Ghost(n))?;
    Ok((Syntax::Case(Box::new(c), la, lb, Box::new(l), ra, rb, Box::new(r)), k1 + k2 + k3 + 13))
}

fn p_case_arm(toks: &Vec<Token>, pos: usize, word: Token, side: Token, Ghost(n): Ghost<nat>) -> (r: Result<(usize, usize), String>)
    requires
        pos <= toks.len(),
        tokens_within(toks@, n),
    ensures
        result_is(r, case_arm(toks@, pos as nat, word, side)),
        r matches Ok((a, b)) ==> pos + 6 <= toks.len() && a <= b && b <= n,
{
    if !at(toks, pos, word) {
        return Err(missing(toks, pos));
    }
    if !at(toks, pos + 1, side) {
        return Err(missing(toks, pos + 1));
    }
    if !at(toks, pos + 2, Token::LParen) {
        return Err(missing(toks, pos + 2));
    }
    match p_name_at(toks, pos + 3) {
        None => Err(missing(toks, pos + 3)),
        Some((a, b)) => {
            if !at(toks, pos + 4, Token::RParen) {
                Err(missing(toks, pos + 4))
            } else if !at(toks, pos + 5, Token::Arrow) {
                Err(missing(toks, pos + 5))
            } else {
                Ok((a, b))
            }
        },
    }
}

fn p_postfix_rest(toks: &Vec<Token>, pos: usize, acc: Syntax, Ghost(n): Ghost<nat>) -> (r: Result<(Syntax, usize), String>)
    requires
        pos <= toks.len(),
        tokens_within(toks@, n),
        spans_within(acc, n),
    ensures
        parsed_is(r, postfix_rest(toks@, pos as nat, acc)),
        r matches Ok((e, c)) ==> pos + c <= toks.len() && spans_within(e, n),
    decreases toks_left(toks@, pos as nat), 3nat,
{
    if at(toks, pos, Token::LParen) {
        p_application(toks, pos, acc, Ghost(n))
    } else if at(toks, pos, Token::Dot) {
        p_projection(toks, pos, acc, Ghost(n))
    } else {
        Ok((acc, 0))
    }
}

#[verifier::spinoff_prover]
#[verifier::rlimit(100)]
fn p_application(toks: &Vec<Token>, pos: usize, acc: Syntax, Ghost(n): Ghost<nat>) -> (r: Result<(Syntax, usize), String>)
    requires
        pos < toks.len(),
        toks@[pos as int] == Token::LParen,
        tokens_within(toks@, n),
        spans_within(acc, n),
    ensures
        parsed_is(r, postfix_rest(toks@, pos as nat, acc)),
        r matches Ok((e, c)) ==> pos + c <= toks.len() && spans_within(e, n),
    decreases toks_left(toks@, pos as nat), 2nat,
{
    let (a, c) = p_expr(toks, pos + 1, Ghost(n))?;
    let q = pos + 1 + c;
    if at(toks, q, Token::RParen) {
        let (e, k) = p_postfix_rest(toks, q + 1, Syntax::Ap(Box::new(acc), Box::new(a)), Ghost(n))?;
        Ok((e, c + 2 + k))
    } else if at(toks, q, Token::Comma) {
        let (b, d) = p_expr(toks, q + 1, Ghost(n))?;
        if at(toks, q + 1 + d, Token::RParen) {
            let arg = Syntax::Pair(Box::new(a), Box::new(b));
            let ghost arg_copy = arg;
            let applied = Syntax::Ap(Box::new(acc), Box::new(arg));
            assert(spans_within(arg_copy, n));
            let (e, k) = p_postfix_rest(toks, q + 2 + d, applied, Ghost(n))?;
            Ok((e, c + d + 3 + k))
        } else {
            Err(missing(toks, q + 1 + d))
        }
    } else {
        Err(missing(toks, q))
    }
}

#[verifier::spinoff_prover]
#[verifier::rlimit(100)]
fn p_projection(toks: &Vec<Token>, pos: usize, acc: Syntax, Ghost(n): Ghost<nat>) -> (r: Result<(Syntax, usize), String>)
    requires
        pos < toks.len(),
        toks@[pos as int] == Token::Dot,
        tokens_within(toks@, n),
        spans_within(acc, n),
    ensures
        parsed_is(r, postfix_rest(toks@, pos as nat, acc)),
        r matches Ok((e, c)) ==> pos + c <= toks.len() && spans_within(e, n),
    decreases toks_left(toks@, pos as nat), 2nat,
{
    if at(toks, pos + 1, Token::Fst) {
        let (e, k) = p_postfix_rest(toks, pos + 2, Syntax::PrjL(Box::new(acc)), Ghost(n))?;
        Ok((e, 2 + k))
    } else if at(toks, pos + 1, Token::Snd) {
        let (e, k) = p_postfix_rest(toks, pos + 2, Syntax::PrjR(Box::new(acc)), Ghost(n))?;
        Ok((e, 2 + k))
    } else {
        Err(missing(toks, pos + 1))
    }
}

fn p_postfix(toks: &Vec<Token>, pos: usize, Ghost(n): Ghost<nat>) -> (r: Result<(Syntax, usize), String>)
    requires
        pos <= toks.len(),
        tokens_within(toks@, n),
    ensures
        parsed_is(r, postfix(toks@, pos as nat)),
        r matches Ok((e, c)) ==> pos + c <= toks.len() && spans_within(e, n),
    decreases toks_left(toks@, pos as nat), 4nat,
{
    let (e, c) = p_primary(toks, pos, Ghost(n))?;
    let (f, k) = p_postfix_rest(toks, pos + c, e, Ghost(n))?;
    Ok((f, c + k))
}

fn p_unary(toks: &Vec<Token>, pos: usize, Ghost(n): Ghost<nat>) -> (r: Result<(Syntax, usize), String>)
    requires
        pos <= toks.len(),
        tokens_within(toks@, n),
    ensures
        parsed_is(r, unary(toks@, pos as nat)),
        r matches Ok((e, c)) ==> pos + c <= toks.len() && spans_within(e, n),
    decreases toks_left(toks@, pos as nat), 5nat,
{
    let neg = at(toks, pos, Token::Minus);
    let left = at(toks, pos, Token::Left);
    let right = at(toks, pos, Token::Right);
    if neg || left || right {
        let (e, c) = p_unary(toks, pos + 1, Ghost(n))?;
        let r = if neg {
            Syntax::UnOp(Prefix::Neg, Box::new(e))
        } else if left {
            Syntax::InjL(Box::new(e))
        } else {
            Syntax::InjR(Box::new(e))
        };
        Ok((r, c + 1))
    } else {
        p_postfix(toks, pos, Ghost(n))
    }
}

fn p_product_rest(toks: &Vec<Token>, pos: usize, acc: Syntax, Ghost(n): Ghost<nat>) -> (r: Result<(Syntax, usize), String>)
    requires
        pos <= toks.len(),
        tokens_within(toks@, n),
        spans_within(acc, n),
    ensures
        parsed_is(r, product_rest(toks@, pos as nat, acc)),
        r matches Ok((e, c)) ==> pos + c <= toks.len() && spans_within(e, n),
    decreases toks_left(toks@, pos as nat), 6nat,
{
    if at(toks, pos, Token::Star) {
        let (r, c) = p_unary(toks, pos + 1, Ghost(n))?;
        let (e, k) = p_product_rest(
            toks,
            pos + 1 + c,
            Syntax::BinOp(Box::new(acc), Infix::Times, Box::new(r)),
            Ghost(n),
        )?;
        Ok((e, 1 + c + k))
    } else {
        Ok((acc, 0))
    }
}

fn p_product(toks: &Vec<Token>, pos: usize, Ghost(n): Ghost<nat>) -> (r: Result<(Syntax, usize), String>)
    requires
        pos <= toks.len(),
        tokens_within(toks@, n),
    ensures
        parsed_is(r, product_expr(toks@, pos as nat)),
        r matches Ok((e, c)) ==> pos + c <= toks.len() && spans_within(e, n),
    decreases toks_left(toks@, pos as nat), 7nat,
{
    let (e, c) = p_unary(toks, pos, Ghost(n))?;
    let (f, k) = p_product_rest(toks, pos + c, e, Ghost(n))?;
    Ok((f, c + k))
}

fn p_additive_op(toks: &Vec<Token>, pos: usize) -> (r: Option<Infix>)
    ensures
        r == op_at(toks@, pos as nat, |t: Token| additive_op(t)),
{
    if pos < toks.len() {
        match toks[pos] {
            Token::Plus => Some(Infix::Plus),
            Token::Minus => Some(Infix::Minus),
            _ => None,
        }
    } else {
        None
    }
}

fn p_comparison_op(toks: &Vec<Token>, pos: usize) -> (r: Option<Infix>)
    ensures
        r == op_at(toks@, pos as nat, |t: Token| comparison_op(t)),
{
    if pos < toks.len() {
        match toks[pos] {
            Token::Less => Some(Infix::LessThan),
            Token::Greater => Some(Infix::GreaterThan),
            Token::EqualTo => Some(Infix::EqualTo),
            _ => None,
        }
    } else {
        None
    }
}

fn p_sum_rest(toks: &Vec<Token>, pos: usize, acc: Syntax, Ghost(n): Ghost<nat>) -> (r: Result<(Syntax, usize), String>)
    requires
        pos <= toks.len(),
        tokens_within(toks@, n),
        spans_within(acc, n),
    ensures
        parsed_is(r, sum_rest(toks@, pos as nat, acc)),
        r matches Ok((e, c)) ==> pos + c <= toks.len() && spans_within(e, n),
    decreases toks_left(toks@, pos as nat), 8nat,
{
    match p_additive_op(toks, pos) {
        Some(op) => {
            let (r, c) = p_product(toks, pos + 1, Ghost(n))?;
            let (e, k) = p_sum_rest(toks, pos + 1 + c, Syntax::BinOp(Box::new(acc), op, Box::new(r)), Ghost(n))?;
            Ok((e, 1 + c + k))
        },
        None => Ok((acc, 0)),
    }
}

fn p_sum(toks: &Vec<Token>, pos: usize, Ghost(n): Ghost<nat>) -> (r: Result<(Syntax, usize), String>)
    requires
        pos <= toks.len(),
        tokens_within(toks@, n),
    ensures
        parsed_is(r, sum_expr(toks@, pos as nat)),
        r matches Ok((e, c)) ==> pos + c <= toks.len() && spans_within(e, n),
    decreases toks_left(toks@, pos as nat), 9nat,
{
    let (e, c) = p_product(toks, pos, Ghost(n))?;
    let (f, k) = p_sum_rest(toks, pos + c, e, Ghost(n))?;
    Ok((f, c + k))
}

fn p_comparison_rest(toks: &Vec<Token>, pos: usize, acc: Syntax, Ghost(n): Ghost<nat>) -> (r: Result<(Syntax, usize), String>)
    requires
        pos <= toks.len(),
        tokens_within(toks@, n),
        spans_within(acc, n),
    ensures
        parsed_is(r, comparison_rest(toks@, pos as nat, acc)),
        r matches Ok((e, c)) ==> pos + c <= toks.len() && spans_within(e, n),
    decreases toks_left(toks@, pos as nat), 10nat,
{
    match p_comparison_op(toks, pos) {
        Some(op) => {
            let (r, c) = p_sum(toks, pos + 1, Ghost(n))?;
            let (e, k) = p_comparison_rest(toks, pos + 1 + c, Syntax::BinOp(Box::new(acc), op, Box::new(r)), Ghost(n))?;
            Ok((e, 1 + c + k))
        },
        None => Ok((acc, 0)),
    }
}

fn p_expr(toks: &Vec<Token>, pos: usize, Ghost(n): Ghost<nat>) -> (r: Result<(Syntax, usize), String>)
    requires
        pos <= toks.len(),
        tokens_within(toks@, n),
    ensures
        parsed_is(r, expr(toks@, pos as nat)),
        r matches Ok((e, c)) ==> pos + c <= toks.len() && spans_within(e, n),
    decreases toks_left(toks@, pos as nat), 11nat,
{
    let (e, c) = p_sum(toks, pos, Ghost(n))?;
    let (f, k) = p_comparison_rest(toks, pos + c, e, Ghost(n))?;
    Ok((f, c + k))
}

/// Whether `e` is the program that the syntax tree `syn` of the text `text`
/// stands for: the same tree, each name spelt by its span of the text.
pub open spec fn denotes(e: Expr, syn: Syntax, text: Seq<char>) -> bool
    decreases syn,
{
    match (syn, e) {
        (Syntax::Num(n), Expr::Num(m)) => n == m,
        (Syntax::Bool(b), Expr::Bool(c)) => b == c,
        (Syntax::Unit, Expr::Unit) => true,
        (Syntax::Var(a, b), Expr::Var(x)) => x.id@ == text.subrange(a as int, b as int),
        (Syntax::Fun(a, b, ann, body), Expr::Fun(x, ann2, body2)) => x.id@ == text.subrange(
            a as int,
            b as int,
        ) && ann == ann2 && denotes(*body2, *body, text),
        (Syntax::If(c, t, f), Expr::If(c2, t2, f2)) => denotes(*c2, *c, text) && denotes(*t2, *t, text)
            && denotes(*f2, *f, text),
        (Syntax::Case(c, la, lb, l, ra, rb, r), Expr::Case(c2, lx, l2, rx, r2)) => denotes(*c2, *c, text)
            && lx.id@ == text.subrange(la as int, lb as int) && denotes(*l2, *l, text) && rx.id@
            == text.subrange(ra as int, rb as int) && denotes(*r2, *r, text),
        (Syntax::InjL(x), Expr::InjL(x2)) => denotes(*x2, *x, text),
        (Syntax::InjR(x), Expr::InjR(x2)) => denotes(*x2, *x, text),
        (Syntax::PrjL(x), Expr::PrjL(x2)) => denotes(*x2, *x, text),
        (Syntax::PrjR(x), Expr::PrjR(x2)) => denotes(*x2, *x, text),
        (Syntax::Let(a, b, ann, d, body), Expr::Let(x, ann2, d2, body2)) => x.id@ == text.subrange(
            a as int,
            b as int,
        ) && ann == ann2 && denotes(*d2, *d, text) && denotes(*body2, *body, text),
        (Syntax::Ap(f, x), Expr::Ap(f2, x2)) => denotes(*f2, *f, text) && denotes(*x2, *x, text),
        (Syntax::BinOp(l, op, r), Expr::BinOp(l2, op2, r2)) => denotes(*l2, *l, text) && op == op2
            && denotes(*r2, *r, text),
        (Syntax::UnOp(op, x), Expr::UnOp(op2, x2)) => op == op2 && denotes(*x2, *x, text),
        (Syntax::Pair(a, b), Expr::Pair(a2, b2)) => denotes(*a2, *a, text) && denotes(*b2, *b, text),
        _ => false,
    }
}

/// The identifier spelt by the characters of `text` from `a` up to `b`.
fn name_of(text: &str, a: usize, b: usize) -> (x: Id)
    requires
        a <= b <= text@.len(),
    ensures
        x.id@ == text@.subrange(a as int, b as int),
{
    Id { id: text.substring_char(a, b).to_string() }
}

/// The program that a syntax tree of `text` stands for.
fn build(syn: Syntax, text: &str) -> (e: Expr)
    requires
        spans_within(syn, text@.len()),
    ensures
        denotes(e, syn, text@),
    decreases syn,
{
    match syn {
        Syntax::Num(n) => Expr::Num(n),
        Syntax::Bool(b) => Expr::Bool(b),
        Syntax::Unit => Expr::Unit,
        Syntax::Var(a, b) => Expr::Var(name_of(text, a, b)),
        Syntax::Fun(a, b, ann, body) => Expr::Fun(name_of(text, a, b), ann, Box::new(build(*body, text))),
        Syntax::If(c, t, f) => Expr::If(
            Box::new(build(*c, text)),
            Box::new(build(*t, text)),
            Box::new(build(*f, text)),
        ),
        Syntax::Case(c, la, lb, l, ra, rb, r) => Expr::Case(
            Box::new(build(*c, text)),
            name_of(text, la, lb),
            Box::new(build(*l, text)),
            name_of(text, ra, rb),
            Box::new(build(*r, text)),
        ),
        Syntax::InjL(x) => Expr::InjL(Box::new(build(*x, text))),
        Syntax::InjR(x) => Expr::InjR(Box::new(build(*x, text))),
        Syntax::PrjL(x) => Expr::PrjL(Box::new(build(*x, text))),
        Syntax::PrjR(x) => Expr::PrjR(Box::new(build(*x, text))),
        Syntax::Let(a, b, ann, d, body) => Expr::Let(
            name_of(text, a, b),
            ann,
            Box::new(build(*d, text)),
            Box::new(build(*body, text)),
        ),
        Syntax::Ap(f, x) => Expr::Ap(Box::new(build(*f, text)), Box::new(build(*x, text))),
        Syntax::BinOp(l, op, r) => Expr::BinOp(Box::new(build(*l, text)), op, Box::new(build(*r, text))),
        Syntax::UnOp(op, x) => Expr::UnOp(op, Box::new(build(*x, text))),
        Syntax::Pair(a, b) => Expr::Pair(Box::new(build(*a, text)), Box::new(build(*b, text))),
    }
}

/// What parsing gives back: the program, or a message.
pub type ParseResult = Result<Expr, String>;

/// Parses a whole program.
pub fn parse_alfa_program(prog: &str) -> (r: ParseResult)
    ensures
        match (r, parse_text(prog@)) {
            (Ok(e), Ok(syn)) => denotes(e, syn, prog@),
            (Err(m), Err(n)) => m@ == n,
            _ => false,
        },
{
    let chars = chars_of(prog);
    let toks = lex(&chars)?;
    let (syn, c) = p_expr(&toks, 0, Ghost(chars@.len()))?;
    if c != toks.len() {
        return Err("Parsing error: unexpected input after the end of the program".to_string());
    }
    Ok(build(syn, prog))
}

} // verus!
