//! Laws of the concrete syntax: what the written forms of the operators
//! parse back to.
use vstd::prelude::*;

use crate::ast::{infix_symbol, Expr, Infix, Prefix};
use crate::lexer::{digit_run, digits_value, lex_from, Token};
use crate::parser::{
    comparison_rest, denotes, expr, parse_text, postfix, postfix_rest, primary, product_expr, product_rest,
    sum_expr, sum_rest, unary, Syntax,
};

verus! {

/// The token that the written form of a binary operator is read as.
pub open spec fn infix_token(op: Infix) -> Token {
    match op {
        Infix::Plus => Token::Plus,
        Infix::Minus => Token::Minus,
        Infix::Times => Token::Star,
        Infix::LessThan => Token::Less,
        Infix::GreaterThan => Token::Greater,
        Infix::EqualTo => Token::EqualTo,
    }
}

/// The text `1 op 2`, with the operator written as programs write it.
pub open spec fn one_op_two(op: Infix) -> Seq<char> {
    "1 "@ + infix_symbol(op) + " 2"@
}

/// The syntax tree of `1 op 2`.
pub open spec fn one_op_two_tree(op: Infix) -> Syntax {
    Syntax::BinOp(Box::new(Syntax::Num(1)), op, Box::new(Syntax::Num(2)))
}

/// A digit `d` standing alone before a space or the end of the text is read
/// as the number it names.
proof fn lemma_lex_digit(s: Seq<char>, pos: nat, d: char, n: i32)
    requires
        pos < s.len(),
        s[pos as int] == d,
        '0' <= d <= '9',
        n == (d as int) - ('0' as int),
        pos + 1 == s.len() || s[pos + 1int] == ' ',
    ensures
        lex_from(s, pos) == match lex_from(s, pos + 1) {
            Ok(ts) => Ok::<Seq<Token>, Seq<char>>(seq![Token::Number(n)] + ts),
            Err(m) => Err(m),
        },
{
    assert(digit_run(s, pos + 1) == 0);
    let w = s.subrange(pos as int, pos + 1int);
    assert(w.drop_last() =~= Seq::<char>::empty());
    assert(digits_value(w.drop_last()) == 0);
    assert(digits_value(w) == n);
}

proof fn lemma_lex_one_op_two(op: Infix)
    ensures
        lex_from(one_op_two(op), 0) == Ok::<Seq<Token>, Seq<char>>(
            seq![Token::Number(1), infix_token(op), Token::Number(2)],
        ),
{
    reveal_strlit("1 ");
    reveal_strlit(" 2");
    reveal_strlit("+");
    reveal_strlit("-");
    reveal_strlit("*");
    reveal_strlit("<");
    reveal_strlit(">");
    reveal_strlit("=?");
    let s = one_op_two(op);
    let k = infix_symbol(op).len();
    let tok = infix_token(op);
    assert(s[0] == '1' && s[1] == ' ');
    assert(s.len() == k + 4);
    assert(s[k + 2int] == ' ' && s[k + 3int] == '2');
    assert(lex_from(s, k + 4) == Ok::<Seq<Token>, Seq<char>>(Seq::empty()));
    lemma_lex_digit(s, k + 3, '2', 2);
    assert(lex_from(s, k + 3) == Ok::<Seq<Token>, Seq<char>>(seq![Token::Number(2)]));
    assert(lex_from(s, k + 2) == lex_from(s, k + 3));
    assert(lex_from(s, 2) == Ok::<Seq<Token>, Seq<char>>(seq![tok] + seq![Token::Number(2)]));
    assert(lex_from(s, 1) == lex_from(s, 2));
    lemma_lex_digit(s, 0, '1', 1);
    assert(seq![Token::Number(1)] + (seq![tok] + seq![Token::Number(2)]) =~= seq![
        Token::Number(1),
        tok,
        Token::Number(2),
    ]);
}

/// The tokens of `1 op 2` parse to the operator applied to the two numbers.
#[verifier::spinoff_prover]
proof fn lemma_parse_one_op_two(op: Infix)
    ensures
        expr(seq![Token::Number(1), infix_token(op), Token::Number(2)], 0) == Ok::<(Syntax, nat), Seq<char>>(
            (one_op_two_tree(op), 3),
        ),
{
    let toks = seq![Token::Number(1), infix_token(op), Token::Number(2)];
    let one = Syntax::Num(1);
    let two = Syntax::Num(2);
    let b = one_op_two_tree(op);
    assert(primary(toks, 0) == Ok::<(Syntax, nat), Seq<char>>((one, 1)));
    assert(primary(toks, 2) == Ok::<(Syntax, nat), Seq<char>>((two, 1)));
    assert(postfix_rest(toks, 1, one) == Ok::<(Syntax, nat), Seq<char>>((one, 0)));
    assert(postfix_rest(toks, 3, two) == Ok::<(Syntax, nat), Seq<char>>((two, 0)));
    assert(postfix(toks, 0) == Ok::<(Syntax, nat), Seq<char>>((one, 1)));
    assert(postfix(toks, 2) == Ok::<(Syntax, nat), Seq<char>>((two, 1)));
    assert(unary(toks, 0) == Ok::<(Syntax, nat), Seq<char>>((one, 1)));
    assert(unary(toks, 2) == Ok::<(Syntax, nat), Seq<char>>((two, 1)));
    assert(product_rest(toks, 3, two) == Ok::<(Syntax, nat), Seq<char>>((two, 0)));
    assert(product_rest(toks, 3, b) == Ok::<(Syntax, nat), Seq<char>>((b, 0)));
    assert(sum_rest(toks, 3, two) == Ok::<(Syntax, nat), Seq<char>>((two, 0)));
    assert(sum_rest(toks, 3, b) == Ok::<(Syntax, nat), Seq<char>>((b, 0)));
    assert(comparison_rest(toks, 3, b) == Ok::<(Syntax, nat), Seq<char>>((b, 0)));
    assert(product_expr(toks, 2) == Ok::<(Syntax, nat), Seq<char>>((two, 1)));
    assert(sum_expr(toks, 2) == Ok::<(Syntax, nat), Seq<char>>((two, 1)));
    match op {
        Infix::Times => {
            assert(product_rest(toks, 1, one) == Ok::<(Syntax, nat), Seq<char>>((b, 2)));
            assert(product_expr(toks, 0) == Ok::<(Syntax, nat), Seq<char>>((b, 3)));
            assert(sum_expr(toks, 0) == Ok::<(Syntax, nat), Seq<char>>((b, 3)));
        },
        Infix::Plus | Infix::Minus => {
            assert(product_rest(toks, 1, one) == Ok::<(Syntax, nat), Seq<char>>((one, 0)));
            assert(product_expr(toks, 0) == Ok::<(Syntax, nat), Seq<char>>((one, 1)));
            assert(sum_rest(toks, 1, one) == Ok::<(Syntax, nat), Seq<char>>((b, 2)));
            assert(sum_expr(toks, 0) == Ok::<(Syntax, nat), Seq<char>>((b, 3)));
        },
        _ => {
            assert(product_rest(toks, 1, one) == Ok::<(Syntax, nat), Seq<char>>((one, 0)));
            assert(product_expr(toks, 0) == Ok::<(Syntax, nat), Seq<char>>((one, 1)));
            assert(sum_rest(toks, 1, one) == Ok::<(Syntax, nat), Seq<char>>((one, 0)));
            assert(sum_expr(toks, 0) == Ok::<(Syntax, nat), Seq<char>>((one, 1)));
            assert(comparison_rest(toks, 1, one) == Ok::<(Syntax, nat), Seq<char>>((b, 2)));
        },
    }
}

/// The text `1 op 2`, for each of the six binary operators written as
/// programs write it, parses to that operator applied to 1 and 2, and stands
/// for exactly the program `BinOp(Num(1), op, Num(2))`.
pub proof fn lemma_operator_round_trip(op: Infix)
    ensures
        parse_text(one_op_two(op)) == Ok::<Syntax, Seq<char>>(one_op_two_tree(op)),
        forall|e: Expr|
            denotes(e, one_op_two_tree(op), one_op_two(op)) <==> e == Expr::BinOp(
                Box::new(Expr::Num(1)),
                op,
                Box::new(Expr::Num(2)),
            ),
{
    lemma_lex_one_op_two(op);
    lemma_parse_one_op_two(op);
    assert forall|e: Expr|
        denotes(e, one_op_two_tree(op), one_op_two(op)) <==> e == Expr::BinOp(
            Box::new(Expr::Num(1)),
            op,
            Box::new(Expr::Num(2)),
        ) by {
        if denotes(e, one_op_two_tree(op), one_op_two(op)) {
            if let Expr::BinOp(l, o, r) = e {
                assert(denotes(*l, Syntax::Num(1), one_op_two(op)));
                assert(denotes(*r, Syntax::Num(2), one_op_two(op)));
                match *l {
                    Expr::Num(n) => assert(n == 1),
                    _ => assert(false),
                }
                match *r {
                    Expr::Num(n) => assert(n == 2),
                    _ => assert(false),
                }
            }
        }
        let b = Expr::BinOp(Box::new(Expr::Num(1)), op, Box::new(Expr::Num(2)));
        assert(denotes(Expr::Num(1), Syntax::Num(1), one_op_two(op)));
        assert(denotes(Expr::Num(2), Syntax::Num(2), one_op_two(op)));
        assert(denotes(b, one_op_two_tree(op), one_op_two(op)));
    }
}

/// A product of two unary expressions: whatever unary expression stands
/// after `*` (a negation or an injection among them) is its right operand.
pub proof fn lemma_product_of_unaries(toks: Seq<Token>, pos: nat, a: Syntax, c: nat, u: Syntax, d: nat)
    requires
        unary(toks, pos) == Ok::<(Syntax, nat), Seq<char>>((a, c)),
        crate::parser::token_is(toks, pos + c, Token::Star),
        unary(toks, pos + c + 1) == Ok::<(Syntax, nat), Seq<char>>((u, d)),
        !crate::parser::token_is(toks, pos + c + 1 + d, Token::Star),
    ensures
        product_expr(toks, pos) == Ok::<(Syntax, nat), Seq<char>>(
            (Syntax::BinOp(Box::new(a), Infix::Times, Box::new(u)), c + 1 + d),
        ),
{
    let b = Syntax::BinOp(Box::new(a), Infix::Times, Box::new(u));
    assert(product_rest(toks, pos + c + 1 + d, b) == Ok::<(Syntax, nat), Seq<char>>((b, 0)));
    assert(product_rest(toks, pos + c, a) == Ok::<(Syntax, nat), Seq<char>>((b, 1 + d)));
}

/// The syntax tree of the prefix operator token `p` applied to `s`.
pub open spec fn prefixed(p: Token, s: Syntax) -> Syntax {
    if p == Token::Minus {
        Syntax::UnOp(Prefix::Neg, Box::new(s))
    } else if p == Token::Left {
        Syntax::InjL(Box::new(s))
    } else {
        Syntax::InjR(Box::new(s))
    }
}

/// `n * -m`, `n * L m` and `n * R m` parse, for all numbers, to the product
/// of `n` and the negation or injection of `m`.
#[verifier::spinoff_prover]
pub proof fn lemma_prefix_operand_of_product(n: i32, p: Token, m: i32)
    requires
        p == Token::Minus || p == Token::Left || p == Token::Right,
    ensures
        expr(seq![Token::Number(n), Token::Star, p, Token::Number(m)], 0) == Ok::<(Syntax, nat), Seq<char>>(
            (Syntax::BinOp(Box::new(Syntax::Num(n)), Infix::Times, Box::new(prefixed(p, Syntax::Num(m)))), 4),
        ),
{
    let toks = seq![Token::Number(n), Token::Star, p, Token::Number(m)];
    let a = Syntax::Num(n);
    let two = Syntax::Num(m);
    let u = prefixed(p, two);
    let b = Syntax::BinOp(Box::new(a), Infix::Times, Box::new(u));
    assert(postfix_rest(toks, 1, a) == Ok::<(Syntax, nat), Seq<char>>((a, 0)));
    assert(postfix(toks, 0) == Ok::<(Syntax, nat), Seq<char>>((a, 1)));
    assert(unary(toks, 0) == Ok::<(Syntax, nat), Seq<char>>((a, 1)));
    assert(primary(toks, 3) == Ok::<(Syntax, nat), Seq<char>>((two, 1)));
    assert(postfix_rest(toks, 4, two) == Ok::<(Syntax, nat), Seq<char>>((two, 0)));
    assert(postfix(toks, 3) == Ok::<(Syntax, nat), Seq<char>>((two, 1)));
    assert(unary(toks, 3) == Ok::<(Syntax, nat), Seq<char>>((two, 1)));
    assert(unary(toks, 2) == Ok::<(Syntax, nat), Seq<char>>((u, 2)));
    lemma_product_of_unaries(toks, 0, a, 1, u, 2);
    assert(product_expr(toks, 0) == Ok::<(Syntax, nat), Seq<char>>((b, 4)));
    assert(sum_rest(toks, 4, b) == Ok::<(Syntax, nat), Seq<char>>((b, 0)));
    assert(sum_expr(toks, 0) == Ok::<(Syntax, nat), Seq<char>>((b, 4)));
    assert(comparison_rest(toks, 4, b) == Ok::<(Syntax, nat), Seq<char>>((b, 0)));
}

/// `-n * m` parses, for all numbers, to the product of the negation of `n`
/// and `m`: negation binds tighter than `*`.
#[verifier::spinoff_prover]
pub proof fn lemma_negated_left_operand_of_product(n: i32, m: i32)
    ensures
        expr(seq![Token::Minus, Token::Number(n), Token::Star, Token::Number(m)], 0) == Ok::<(Syntax, nat), Seq<char>>(
            (
                Syntax::BinOp(
                    Box::new(Syntax::UnOp(Prefix::Neg, Box::new(Syntax::Num(n)))),
                    Infix::Times,
                    Box::new(Syntax::Num(m)),
                ),
                4,
            ),
        ),
{
    let toks2 = seq![Token::Minus, Token::Number(n), Token::Star, Token::Number(m)];
    let neg = Syntax::UnOp(Prefix::Neg, Box::new(Syntax::Num(n)));
    let two = Syntax::Num(m);
    let b2 = Syntax::BinOp(Box::new(neg), Infix::Times, Box::new(two));
    assert(primary(toks2, 1) == Ok::<(Syntax, nat), Seq<char>>((Syntax::Num(n), 1)));
    assert(postfix_rest(toks2, 2, Syntax::Num(n)) == Ok::<(Syntax, nat), Seq<char>>((Syntax::Num(n), 0)));
    assert(postfix(toks2, 1) == Ok::<(Syntax, nat), Seq<char>>((Syntax::Num(n), 1)));
    assert(unary(toks2, 1) == Ok::<(Syntax, nat), Seq<char>>((Syntax::Num(n), 1)));
    assert(unary(toks2, 0) == Ok::<(Syntax, nat), Seq<char>>((neg, 2)));
    assert(primary(toks2, 3) == Ok::<(Syntax, nat), Seq<char>>((two, 1)));
    assert(postfix_rest(toks2, 4, two) == Ok::<(Syntax, nat), Seq<char>>((two, 0)));
    assert(postfix(toks2, 3) == Ok::<(Syntax, nat), Seq<char>>((two, 1)));
    assert(unary(toks2, 3) == Ok::<(Syntax, nat), Seq<char>>((two, 1)));
    lemma_product_of_unaries(toks2, 0, neg, 2, two, 1);
    assert(product_expr(toks2, 0) == Ok::<(Syntax, nat), Seq<char>>((b2, 4)));
    assert(sum_rest(toks2, 4, b2) == Ok::<(Syntax, nat), Seq<char>>((b2, 0)));
    assert(sum_expr(toks2, 0) == Ok::<(Syntax, nat), Seq<char>>((b2, 4)));
    assert(comparison_rest(toks2, 4, b2) == Ok::<(Syntax, nat), Seq<char>>((b2, 0)));
}

/// The text `a * -b`, for any two one-digit numbers `a` and `b`, parses to
/// the product of `a` and the negation of `b`.
pub proof fn lemma_times_negative_text(da: char, db: char)
    requires
        '0' <= da <= '9',
        '0' <= db <= '9',
    ensures
        parse_text(seq![da, ' ', '*', ' ', '-', db]) == Ok::<Syntax, Seq<char>>(
            Syntax::BinOp(
                Box::new(Syntax::Num(((da as int) - ('0' as int)) as i32)),
                Infix::Times,
                Box::new(Syntax::UnOp(Prefix::Neg, Box::new(Syntax::Num(((db as int) - ('0' as int)) as i32)))),
            ),
        ),
{
    let s = seq![da, ' ', '*', ' ', '-', db];
    let a = ((da as int) - ('0' as int)) as i32;
    let b = ((db as int) - ('0' as int)) as i32;
    assert(lex_from(s, 6) == Ok::<Seq<Token>, Seq<char>>(Seq::empty()));
    lemma_lex_digit(s, 5, db, b);
    assert(lex_from(s, 5) == Ok::<Seq<Token>, Seq<char>>(seq![Token::Number(b)]));
    assert(lex_from(s, 4) == Ok::<Seq<Token>, Seq<char>>(seq![Token::Minus] + seq![Token::Number(b)]));
    assert(lex_from(s, 3) == lex_from(s, 4));
    assert(lex_from(s, 2) == Ok::<Seq<Token>, Seq<char>>(
        seq![Token::Star] + (seq![Token::Minus] + seq![Token::Number(b)]),
    ));
    assert(lex_from(s, 1) == lex_from(s, 2));
    lemma_lex_digit(s, 0, da, a);
    let toks = seq![Token::Number(a), Token::Star, Token::Minus, Token::Number(b)];
    assert(seq![Token::Number(a)] + (seq![Token::Star] + (seq![Token::Minus] + seq![Token::Number(b)])) =~= toks);
    assert(lex_from(s, 0) == Ok::<Seq<Token>, Seq<char>>(toks));
    lemma_prefix_operand_of_product(a, Token::Minus, b);
}

} // verus!
