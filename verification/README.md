# rusqdrive

The verified core of the `Rusqdrive` derive, which gives a struct the methods
`create_table`, `read_count`, `read_all`, `insert_one`, `update_one` and
`delete_one` over a SQLite table.

- `src/` is the verified library. It works on a model of the
  annotated struct (`model.rs`): the table name attribute, the field names,
  the field types and the `#[rusqdrive(not_null = .., unique = ..)]`
  settings. From it, `derive.rs` decides the SQL text and the field-dependent
  pieces of code of each method, or the reason the struct is rejected;
  `utils.rs`, `field_types.rs`, `field_struct.rs` and `text.rs` hold the
  steps, `laws.rs` the properties proved of the whole.
- `app/` reads the struct with `syn`, hands the model to the library, writes
  the methods out with `quote`, and opens the connection pool with `r2d2`.
- `tests/` runs the library on concrete structs.
