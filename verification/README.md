# rfmt

A Rust source formatter, verified with Verus.

The library (`src/`):

- `ast`: the parser's syntax tree as plain values.
- `tr`: the comment list, the comment tracker that hands each comment to
  the node it stands before or after, and the translator from the syntax
  tree to the formatter's IR; `translation` states, node by node, what the
  translator does with the comments.
- `ir`: the formatter's intermediate representation.
- `ts`: the typesetter, which lays text out in lines of a bounded width.
- `display`: the one-line text of IR nodes, which the layout decisions
  measure.
- `ft`: the formatter; `layout` states, node by node, what it writes.
- `driver`: the command's options, and what it does with a formatted file.

The command (`app/`) reads files, runs the parser, turns its syntax tree
into the library's, and writes or prints the result.
