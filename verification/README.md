# rink_core (expression printer)

Expression trees of the rink unit calculator's query language, their
constructors, and the printer that turns an expression into a sequence of
tagged text spans (plain text, unit names, numbers, ...), putting in only the
parentheses that operator precedence requires. Everything under `src/` is
verified with Verus:

- `src/span.rs`: token kinds and spans.
- `src/ast.rs`: numbers, operators, functions, temperature scales and date
  pieces, with the texts they print as.
- `src/expr.rs`: `Expr`, its constructors, deep copies, and the precedence
  levels.
- `src/print.rs`: the printer and its specification `expr_spans`.
- `src/laws.rs`: properties of the printer proved for every expression
  (parentheses exactly where needed, well-nested parentheses, operands of the
  same non-associative operator parenthesized, copies print alike).

`app/` holds copies of the tree types that derive serde's `Serialize`, with
conversions to and from the library's types.
