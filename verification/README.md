# planner_tables

Works out the tables that SQL statements define and the inserts that they make,
for a planner on top of DataFusion. The library is verified with Verus.

- `src/`: the library. `statement` starts from a statement; `columns`,
  `schema_draft` and `metadata` work out the columns; `from_options` and
  `settings` set up the table of a connector; `connector_table` and `table` hold
  the tables and what can be read from and written to them; `table_catalog` files
  tables under keys and takes the columns of an insert; `optimizer` gives the
  order of rewrites. `laws` states what holds across these.
- `app/`: runs the steps against DataFusion and the connectors.
- `tests/`: tests of the library.

What the query engine and the connectors compute is asked for step by step: each
step is a value that holds what the next outside call needs, and a `resume` or
`accept` that takes what came back.
