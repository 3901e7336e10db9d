use vstd::prelude::*;

use crate::model::FieldInput;
use crate::text::{decimal, decimal_string};

verus! {

/// The code that reads the column at `idx` of a row into the field `name`:
/// `name: row.get(idx)?,`.
pub open spec fn row_read_text(name: Seq<char>, idx: nat) -> Seq<char> {
    name + ": row.get("@ + decimal(idx) + "usize)?,"@
}

/// The code that passes the field `name` of `data` as a query parameter:
/// `data.name,`.
pub open spec fn param_text(name: Seq<char>) -> Seq<char> {
    "data."@ + name + ","@
}

/// A named field of the struct, from which the pieces of generated code that
/// mention it are made.
pub struct FieldStruct {
    ident: String,
}

impl View for FieldStruct {
    type V = Seq<char>;

    /// The name of the field.
    closed spec fn view(&self) -> Seq<char> {
        self.ident@
    }
}

impl FieldStruct {
    /// The holder of a named field.
    pub fn new(field: &FieldInput) -> (r: FieldStruct)
        requires
            field.ident is Some,
        ensures
            r@ == field.ident->Some_0@,
    {
        match &field.ident {
            Some(id) => FieldStruct { ident: id.clone() },
            None => FieldStruct { ident: String::new() },
        }
    }

    /// The code naming the field: its identifier.
    pub fn only_names(&self) -> (r: String)
        ensures
            r@ == self@,
    {
        self.ident.clone()
    }

    /// The code reading column `idx` of a row into the field.
    pub fn as_row_read_all(&self, idx: usize) -> (r: String)
        ensures
            r@ == row_read_text(self@, idx as nat),
    {
        let s = self.ident.clone().concat(": row.get(");
        let d = decimal_string(idx);
        s.concat(d.as_str()).concat("usize)?,")
    }

    /// The code passing the field of `data` as a query parameter.
    pub fn as_params(&self) -> (r: String)
        ensures
            r@ == param_text(self@),
    {
        String::from_str("data.").concat(self.ident.as_str()).concat(",")
    }
}

} // verus!
