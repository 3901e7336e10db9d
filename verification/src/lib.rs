//! Verified core of the `Rusqdrive` derive: from a model of the annotated
//! struct it decides the table name, the column types and constraints, the
//! SQL text and the pieces of code of the six generated CRUD methods, and it
//! rejects every struct the derive does not support.

pub mod create_table;
pub mod derive;
pub mod field_struct;
pub mod field_types;
pub mod laws;
pub mod model;
pub mod outcome;
pub mod sql_laws;
pub mod text;
pub mod utils;
