# alfa

An interpreter for a small gradually typed functional language, verified with Verus.

A program goes through three stages, each with a contract that states its
result exactly:

- `lexer` and `parser`: program text to an untyped `Expr`, by the grammar
  written at the top of `src/parser.rs`;
- `typechecking`: `Expr` to a `TypedExpr`, by the typing rules of
  `typecheck_in`, where the unknown type `?` is consistent with every type;
- `eval`: `TypedExpr` to an `AlfaValue`, inserting the casts of `cast` at
  function application, conditionals, case analysis, projection, bindings and
  arithmetic; `subst` puts values in place of variables.

`program::run_alfa_prog` runs the three stages in turn. `text` writes types,
expressions and values in the messages. The proof functions named `lemma_*`
state the laws of each stage, such as the symmetry of consistency, that a
successful cast has the type cast to, and that type checking a typed program
again gives it back. `safety` states what evaluation keeps: each value it
builds has the shape its type names, so a program that type checks fails at
run time only at a cast or at the step limit. `notation` states that each
binary operator's written form parses back to it, and `names` that what a
program does depends only on its parse and the text of its names, so that
`run_alfa_prog` gives the pipeline's result on the parser's own output.
`binding` states that type checking reads the context only at the names free
in the program, and that a free variable makes it fail.

Names in messages are written by std's `Debug` for strings, called from one
trusted wrapper in `src/text.rs` (`debug_str`); everything else is verified.

`app/main.rs` runs a few example programs and prints their results.
