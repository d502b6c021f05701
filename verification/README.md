# coral

A verified SQL dialect translator: GaussDB / openGauss / Hive SQL in,
Spark SQL or Trino SQL out, with the pieces around it: a table catalog
with column checks and "did you mean" suggestions, Avro schema inference
for views, incremental (delta-table) forms of queries, statement graphs in
DOT and PlantUML, Spark plan predicate analysis, and the decisions of an
HTTP service and a command line.

Layout:

- `src/` — the library, written in Verus and verified. Text-level
  functions (preprocessing, date formats, pretty printing, registry,
  catalog, schema types, plan analysis, graphs) have exact contracts. The
  parser's syntax tree is opaque to Verus: it is taken apart and put
  together by small trusted functions in `src/sql/`, and the rewrite
  decisions over the parts are verified functions with exact contracts;
  what a whole pass does to a tree, and the SQL text printed from it, are
  not stated.
- `tests/` — tests of the library on concrete inputs.
- `app/` — the program around the library: the command line, the HTTP
  server, the HTTP metastore transport, Avro schemas as JSON, and the C
  interface.
