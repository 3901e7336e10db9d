use vstd::prelude::*;

verus! {

/// One column definition of the `CREATE TABLE` query.
#[derive(Debug, Clone)]
pub struct CreateTable {
    pub col: String,
    pub typ: String,
    pub not_null: String,
    pub unique: String,
}

impl Default for CreateTable {
    fn default() -> (r: CreateTable)
        ensures
            r.col@ == Seq::<char>::empty(),
            r.typ@ == Seq::<char>::empty(),
            r.not_null@ == Seq::<char>::empty(),
            r.unique@ == Seq::<char>::empty(),
    {
        CreateTable {
            col: String::new(),
            typ: String::new(),
            not_null: String::new(),
            unique: String::new(),
        }
    }
}

/// The text of a column definition: `col typ not_null unique`.
pub open spec fn column_text(col: Seq<char>, typ: Seq<char>, not_null: Seq<char>, unique: Seq<char>) -> Seq<char> {
    col + " "@ + typ + " "@ + not_null + " "@ + unique
}

impl CreateTable {
    /// The text of this column definition.
    pub open spec fn text(&self) -> Seq<char> {
        column_text(self.col@, self.typ@, self.not_null@, self.unique@)
    }
}

} // verus!
