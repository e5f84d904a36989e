# kosame_macro

The parsers and code generators behind the `kosame` macros, written in Verus
and verified: a SQL-like language of statements and queries is read from a
token stream and turned into the Rust code that builds its runtime
representation, its row structs and its SQL.

The library works on a token model of its own (`token`): identifiers,
punctuation, literals and groups, with spans as numbers. `app/` is the
procedural macro side: it turns compiler token streams into that model and
back, and reports the library's errors as compile errors.

Layout of `src/`:

- `token`, `error`, `path`, `common`, `data_type`: tokens, parse errors,
  paths, attributes and aliases, column data types.
- `expr`: expressions, parsed by precedence climbing; the precedence laws.
- `clause`, `command`: the clauses and the `select`, `insert`, `update` and
  `delete` commands.
- `attribute`: the `#[kosame(...)]` arguments and where each is allowed.
- `query`: the `query!` language (nodes, fields, `*`, clauses), its SQL and
  row structs, and the bind parameters; `row_query` is the compact query form.
- `visit`: collecting the bind parameters of a statement.
- `emit`, `repr`, `row`, `record_struct`, `derive`, `schema`, `sql`,
  `mssql`: the code generators.
- `message`: the text of every parse error, as the macros report it.
- `outside`: the calls into `syn` and `convert_case`, with their contracts.

Every parser is stated as a spec function over the token sequence and proved
to follow it; every generator is stated as the token sequence it appends.

What the crate does not have:

- The generator of the scope block, the module of column and table names that
  each command's code refers to through `scope::`, is not part of this
  project's sources; the generated commands are written without it, and an
  `update` is always built without a `with` clause, whose syntax is not
  defined here either.
- The generator of a query's runtime description (the `REPR` constant of the
  query module) is missing as well: `Query::to_module_tokens` takes it as an
  argument, and the `query!` entry of `app/` writes the row structs alone.
- The `table!` and `statement!` front ends (their attribute handling and the
  `schema` table type) are missing; `statement!` in `app/` reads one command.
