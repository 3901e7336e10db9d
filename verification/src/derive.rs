use vstd::prelude::*;

use crate::create_table::{CreateTable, column_text};
use crate::field_struct::{FieldStruct, param_text, row_read_text};
use crate::field_types::{struct_type_texts, struct_types_outcome};
use crate::model::{
    AttributeInput, DataInput, DeriveError, DeriveInputModel, FieldInput, FieldsInput, Rejection,
};
use crate::outcome::{
    after_first, collect_all, lemma_collect_ok_each, lemma_collect_step, lemma_take_full,
};
use crate::text::{
    decimal, decimal_string, join, join_strings, string_eq_str, texts, trim_end, trim_end_spec,
};
use crate::utils::{
    bools_to_texts, field_idents_outcome, field_struct_names, fields_view, filter_path_outcome,
    obtain_table_name, sql_types_outcome, table_name_outcome, try_convert_typ_struct_to_sql3_type,
    try_filter_path, try_obtain_fields_struct, try_obtain_table_name, vec_bool_to_vec_string,
};

verus! {

/// Whether a text has the outer shape of a Rust string literal: at least two
/// characters, the first and the last a double quote.
pub open spec fn quoted(lit: Seq<char>) -> bool {
    &&& lit.len() >= 2
    &&& lit[0] == '"'
    &&& lit.last() == '"'
}

/// A character that a Rust string literal holds as itself: a printable
/// ASCII character (space to `~`) other than the double quote and the
/// backslash.
pub open spec fn plain_char(c: char) -> bool {
    &&& ' ' <= c <= '~'
    &&& c != '"'
    &&& c != '\\'
}

/// A text made only of characters that need no escaping.
pub open spec fn plain_text(s: Seq<char>) -> bool {
    forall|i: int| 0 <= i < s.len() ==> plain_char(#[trigger] s[i])
}

/// What is known of the string literal `lit` written for `value`: it is
/// delimited by double quotes, and it is exactly `"value"` where `value`
/// needs no escaping.
pub open spec fn literal_of(value: Seq<char>, lit: Seq<char>) -> bool {
    &&& quoted(lit)
    &&& plain_text(value) ==> lit == seq!['"'] + value + seq!['"']
}

/// The literal of the empty string, `""`.
pub open spec fn empty_literal() -> Seq<char> {
    seq!['"', '"']
}

/// What is known of the literal `lit` written for the table name given by
/// the attributes `attrs`.
pub open spec fn table_literal(attrs: Seq<AttributeInput>, lit: Seq<char>) -> bool {
    match table_name_outcome(attrs) {
        Ok(t) => literal_of(t, lit),
        Err(_) => quoted(lit),
    }
}

/// `proc_macro2::Literal::string`, written out as Rust source: the string
/// literal token whose value is `value`, as `quote!` writes a `String`.
/// Claimed: the text starts and ends with a double quote, and where `value`
/// holds only printable ASCII characters other than `"` and `\` it is
/// `"value"`; both the compiler's literal (inside a procedural macro) and
/// proc-macro2's own (`escape_debug` of each character, `'` kept as it is)
/// leave those characters as they are. Not claimed: how `"`, `\` and other
/// characters are escaped, which differs between the two.
#[verifier::external_body]
fn string_literal(value: &str) -> (lit: String)
    ensures
        literal_of(value@, lit@),
{
    proc_macro2::Literal::string(value).to_string()
}

/// The column definitions made from the column names, types, `NOT NULL`
/// settings and `UNIQUE` settings, paired in order up to the shortest list.
pub open spec fn column_texts(
    names: Seq<Seq<char>>,
    types: Seq<Seq<char>>,
    not_nulls: Seq<Seq<char>>,
    uniques: Seq<Seq<char>>,
) -> Seq<Seq<char>> {
    let n = if names.len() <= types.len() { names.len() } else { types.len() };
    let n = if n <= not_nulls.len() { n } else { not_nulls.len() };
    let n = if n <= uniques.len() { n } else { uniques.len() };
    Seq::new(n, |i: int| column_text(names[i], types[i], not_nulls[i], uniques[i]))
}

/// The `CREATE TABLE` query for a table written as the literal `lit`, with an
/// `id` primary key followed by the column definitions.
pub open spec fn create_query_text(lit: Seq<char>, columns: Seq<Seq<char>>) -> Seq<char> {
    trim_end_spec(
        "CREATE TABLE IF NOT EXISTS "@ + lit
            + " (id INTEGER NOT NULL PRIMARY KEY AUTOINCREMENT UNIQUE,"@ + join(columns, ","@),
    ) + ");"@
}

/// The texts of column definitions.
pub open spec fn create_table_texts(rows: Seq<CreateTable>) -> Seq<Seq<char>> {
    rows.map_values(|c: CreateTable| c.text())
}

/// Pairs the column names, types, `NOT NULL` settings and `UNIQUE` settings
/// in order, up to the shortest list.
pub fn create_table_rows(
    names: &Vec<String>,
    types: &Vec<String>,
    not_nulls: &Vec<String>,
    uniques: &Vec<String>,
) -> (r: Vec<CreateTable>)
    ensures
        r@.len() == column_texts(
            texts(names@),
            texts(types@),
            texts(not_nulls@),
            texts(uniques@),
        ).len(),
        forall|i: int|
            #![trigger r@[i]]
            0 <= i < r@.len() ==> {
                &&& r@[i].col@ == names@[i]@
                &&& r@[i].typ@ == types@[i]@
                &&& r@[i].not_null@ == not_nulls@[i]@
                &&& r@[i].unique@ == uniques@[i]@
            },
        create_table_texts(r@) == column_texts(
            texts(names@),
            texts(types@),
            texts(not_nulls@),
            texts(uniques@),
        ),
{
    let mut n = if names.len() <= types.len() { names.len() } else { types.len() };
    if not_nulls.len() < n {
        n = not_nulls.len();
    }
    if uniques.len() < n {
        n = uniques.len();
    }
    let mut rows: Vec<CreateTable> = Vec::new();
    let mut i: usize = 0;
    while i < n
        invariant
            i <= n,
            n <= names@.len(),
            n <= types@.len(),
            n <= not_nulls@.len(),
            n <= uniques@.len(),
            rows@.len() == i,
            forall|j: int|
                #![trigger rows@[j]]
                0 <= j < i ==> {
                    &&& rows@[j].col@ == names@[j]@
                    &&& rows@[j].typ@ == types@[j]@
                    &&& rows@[j].not_null@ == not_nulls@[j]@
                    &&& rows@[j].unique@ == uniques@[j]@
                },
            forall|j: int|
                0 <= j < i ==> #[trigger] rows@[j].text() == column_text(
                    names@[j]@,
                    types@[j]@,
                    not_nulls@[j]@,
                    uniques@[j]@,
                ),
        decreases n - i,
    {
        rows.push(
            CreateTable {
                col: names[i].clone(),
                typ: types[i].clone(),
                not_null: not_nulls[i].clone(),
                unique: uniques[i].clone(),
            },
        );
        i = i + 1;
    }
    assert(create_table_texts(rows@) =~= column_texts(
        texts(names@),
        texts(types@),
        texts(not_nulls@),
        texts(uniques@),
    ));
    rows
}

/// The `CREATE TABLE IF NOT EXISTS` query for the table written as the
/// literal `table_literal` and the column definitions `rows`.
pub fn create_table_query(table_literal: &str, rows: &Vec<CreateTable>) -> (r: String)
    ensures
        r@ == create_query_text(table_literal@, create_table_texts(rows@)),
{
    let mut columns: Vec<String> = Vec::new();
    let mut i: usize = 0;
    while i < rows.len()
        invariant
            i <= rows@.len(),
            columns@.len() == i,
            forall|j: int| 0 <= j < i ==> #[trigger] columns@[j]@ == rows@[j].text(),
        decreases rows@.len() - i,
    {
        let r = &rows[i];
        let c = r.col.clone().concat(" ").concat(r.typ.as_str()).concat(" ").concat(
            r.not_null.as_str(),
        ).concat(" ").concat(r.unique.as_str());
        columns.push(c);
        i = i + 1;
    }
    assert(texts(columns@) =~= create_table_texts(rows@));
    let body = join_strings(&columns, ",");
    let head = String::from_str("CREATE TABLE IF NOT EXISTS ").concat(table_literal).concat(
        " (id INTEGER NOT NULL PRIMARY KEY AUTOINCREMENT UNIQUE,",
    ).concat(body.as_str());
    let trimmed = trim_end(head.as_str());
    trimmed.concat(");")
}

/// The placeholders `?1`, ..., `?k`.
pub open spec fn placeholder_items(k: nat) -> Seq<Seq<char>> {
    Seq::new(k, |i: int| "?"@ + decimal((i + 1) as nat))
}

/// The assignments `c1=?1`, ..., `ck=?k` of the columns.
pub open spec fn assignment_items(cols: Seq<Seq<char>>) -> Seq<Seq<char>> {
    Seq::new(cols.len(), |i: int| cols[i] + "=?"@ + decimal((i + 1) as nat))
}

/// The placeholders `?1,?2,...,?k`.
pub fn placeholders(k: usize) -> (r: String)
    ensures
        r@ == join(placeholder_items(k as nat), ","@),
{
    let mut items: Vec<String> = Vec::new();
    let mut i: usize = 0;
    while i < k
        invariant
            i <= k,
            items@.len() == i,
            forall|j: int|
                0 <= j < i ==> #[trigger] items@[j]@ == "?"@ + decimal((j + 1) as nat),
        decreases k - i,
    {
        let d = decimal_string(i + 1);
        items.push(String::from_str("?").concat(d.as_str()));
        i = i + 1;
    }
    assert(texts(items@) =~= placeholder_items(k as nat));
    join_strings(&items, ",")
}

/// The assignments `c1=?1,c2=?2,...` of the columns.
pub fn assignments(cols: &Vec<String>) -> (r: String)
    ensures
        r@ == join(assignment_items(texts(cols@)), ","@),
{
    let mut items: Vec<String> = Vec::new();
    let mut i: usize = 0;
    while i < cols.len()
        invariant
            i <= cols@.len(),
            items@.len() == i,
            forall|j: int|
                0 <= j < i ==> #[trigger] items@[j]@ == cols@[j]@ + "=?"@ + decimal(
                    (j + 1) as nat,
                ),
        decreases cols@.len() - i,
    {
        let d = decimal_string(i + 1);
        items.push(cols[i].clone().concat("=?").concat(d.as_str()));
        i = i + 1;
    }
    assert(texts(items@) =~= assignment_items(texts(cols@)));
    join_strings(&items, ",")
}

/// The content of one generated method, by its values.
pub enum CrudMethodSpec {
    CreateTable { query: Seq<char> },
    ReadCount { table_name: Seq<char> },
    ReadAll { struct_name: Seq<char>, table_name: Seq<char>, row_reads: Seq<Seq<char>> },
    InsertOne {
        struct_name: Seq<char>,
        table_name: Seq<char>,
        names: Seq<char>,
        values: Seq<char>,
        params: Seq<Seq<char>>,
    },
    UpdateOne {
        struct_name: Seq<char>,
        table_name: Seq<char>,
        names_and_values: Seq<char>,
        names_len: nat,
        params: Seq<Seq<char>>,
    },
    DeleteOne { table_name: Seq<char> },
}

/// What one generated CRUD method is made of: the SQL text and the pieces of
/// code that differ from one struct to another.
pub enum CrudMethod {
    /// `create_table`: runs `query`.
    CreateTable { query: String },
    /// `read_count`: counts the rows of `table_name`.
    ReadCount { table_name: String },
    /// `read_all`: reads every row of `table_name` into `struct_name`, one
    /// field reading (`name: row.get(i)?,`) per field.
    ReadAll { struct_name: String, table_name: String, row_reads: Vec<String> },
    /// `insert_one`: inserts into the columns `names` the `values`
    /// placeholders, bound to `params` (`data.name,` per column).
    InsertOne {
        struct_name: String,
        table_name: String,
        names: String,
        values: String,
        params: Vec<String>,
    },
    /// `update_one`: sets `names_and_values` (`name=?k`), bound to `params`,
    /// on the row whose `id` is the placeholder after the last one.
    UpdateOne {
        struct_name: String,
        table_name: String,
        names_and_values: String,
        names_len: usize,
        params: Vec<String>,
    },
    /// `delete_one`: deletes a row of `table_name` by `id`.
    DeleteOne { table_name: String },
}

impl View for CrudMethod {
    type V = CrudMethodSpec;

    open spec fn view(&self) -> CrudMethodSpec {
        match self {
            CrudMethod::CreateTable { query } => CrudMethodSpec::CreateTable { query: query@ },
            CrudMethod::ReadCount { table_name } => CrudMethodSpec::ReadCount {
                table_name: table_name@,
            },
            CrudMethod::ReadAll { struct_name, table_name, row_reads } => CrudMethodSpec::ReadAll {
                struct_name: struct_name@,
                table_name: table_name@,
                row_reads: texts(row_reads@),
            },
            CrudMethod::InsertOne { struct_name, table_name, names, values, params } =>
                CrudMethodSpec::InsertOne {
                struct_name: struct_name@,
                table_name: table_name@,
                names: names@,
                values: values@,
                params: texts(params@),
            },
            CrudMethod::UpdateOne {
                struct_name,
                table_name,
                names_and_values,
                names_len,
                params,
            } => CrudMethodSpec::UpdateOne {
                struct_name: struct_name@,
                table_name: table_name@,
                names_and_values: names_and_values@,
                names_len: *names_len as nat,
                params: texts(params@),
            },
            CrudMethod::DeleteOne { table_name } => CrudMethodSpec::DeleteOne {
                table_name: table_name@,
            },
        }
    }
}

/// The value of an executable method outcome.
pub open spec fn method_result(r: Result<CrudMethod, DeriveError>) -> Result<CrudMethodSpec, Rejection> {
    match r {
        Ok(m) => Ok(m@),
        Err(e) => Err(e@),
    }
}

/// The method `crud` for the struct `struct_name` stored in `table`, with
/// the field names `idents`, the fields `fs`, the type texts `types` of the
/// fields after `id`, and the table written as the literal `lit`.
pub open spec fn method_outcome(
    struct_name: Seq<char>,
    table: Seq<char>,
    idents: Seq<Seq<char>>,
    fs: Seq<FieldInput>,
    types: Seq<Seq<char>>,
    crud: Seq<char>,
    lit: Seq<char>,
) -> Result<CrudMethodSpec, Rejection> {
    let cols = after_first(idents);
    if crud == "create_table"@ {
        match filter_path_outcome("not_null"@, Some(fs)) {
            Err(e) => Err(e),
            Ok(nn) => match filter_path_outcome("unique"@, Some(fs)) {
                Err(e) => Err(e),
                Ok(u) => match sql_types_outcome(types) {
                    Err(e) => Err(e),
                    Ok(st) => Ok(
                        CrudMethodSpec::CreateTable {
                            query: create_query_text(
                                lit,
                                column_texts(
                                    cols,
                                    st,
                                    bools_to_texts(nn, "NOT NULL"@, ""@),
                                    bools_to_texts(u, "UNIQUE"@, ""@),
                                ),
                            ),
                        },
                    ),
                },
            },
        }
    } else if crud == "read_count"@ {
        Ok(CrudMethodSpec::ReadCount { table_name: table })
    } else if crud == "read_all"@ {
        Ok(
            CrudMethodSpec::ReadAll {
                struct_name,
                table_name: table,
                row_reads: Seq::new(idents.len(), |i: int| row_read_text(idents[i], i as nat)),
            },
        )
    } else if crud == "insert_one"@ {
        if cols.len() == 0 {
            Err(Rejection::NoColumnToInsert)
        } else {
            Ok(
                CrudMethodSpec::InsertOne {
                    struct_name,
                    table_name: table,
                    names: join(cols, ","@),
                    values: join(placeholder_items(cols.len()), ","@),
                    params: cols.map_values(|c: Seq<char>| param_text(c)),
                },
            )
        }
    } else if crud == "update_one"@ {
        Ok(
            CrudMethodSpec::UpdateOne {
                struct_name,
                table_name: table,
                names_and_values: join(assignment_items(cols), ","@),
                names_len: cols.len(),
                params: cols.map_values(|c: Seq<char>| param_text(c)),
            },
        )
    } else if crud == "delete_one"@ {
        Ok(CrudMethodSpec::DeleteOne { table_name: table })
    } else {
        Err(Rejection::UnknownOperation)
    }
}

/// The outcome of [`mount_struct`] with the table written as the literal `lit`.
pub open spec fn mount_outcome(
    struct_name: Seq<char>,
    fields: Option<Seq<FieldInput>>,
    attrs: Seq<AttributeInput>,
    crud: Seq<char>,
    lit: Seq<char>,
) -> Result<CrudMethodSpec, Rejection> {
    match table_name_outcome(attrs) {
        Err(e) => Err(e),
        Ok(table) => match field_idents_outcome(fields) {
            Err(e) => Err(e),
            Ok(idents) => match struct_types_outcome(fields.unwrap()) {
                Err(e) => Err(e),
                Ok(types) => method_outcome(
                    struct_name,
                    table,
                    idents,
                    fields.unwrap(),
                    types,
                    crud,
                    lit,
                ),
            },
        },
    }
}

fn column_names(fields: &Vec<FieldStruct>) -> (r: Vec<String>)
    ensures
        texts(r@) == after_first(field_struct_names(fields@)),
{
    let mut out: Vec<String> = Vec::new();
    if fields.len() == 0 {
        assert(texts(out@) =~= after_first(field_struct_names(fields@)));
        return out;
    }
    let mut i: usize = 1;
    while i < fields.len()
        invariant
            1 <= i <= fields@.len(),
            out@.len() == i - 1,
            forall|j: int| 0 <= j < i - 1 ==> #[trigger] out@[j]@ == fields@[j + 1]@,
        decreases fields@.len() - i,
    {
        out.push(fields[i].only_names());
        i = i + 1;
    }
    assert(texts(out@) =~= after_first(field_struct_names(fields@)));
    out
}

fn row_reads(fields: &Vec<FieldStruct>) -> (r: Vec<String>)
    ensures
        texts(r@) == Seq::new(
            fields@.len(),
            |i: int| row_read_text(field_struct_names(fields@)[i], i as nat),
        ),
{
    let mut out: Vec<String> = Vec::new();
    let mut i: usize = 0;
    while i < fields.len()
        invariant
            i <= fields@.len(),
            out@.len() == i,
            forall|j: int|
                0 <= j < i ==> #[trigger] out@[j]@ == row_read_text(fields@[j]@, j as nat),
        decreases fields@.len() - i,
    {
        out.push(fields[i].as_row_read_all(i));
        i = i + 1;
    }
    assert(texts(out@) =~= Seq::new(
        fields@.len(),
        |i: int| row_read_text(field_struct_names(fields@)[i], i as nat),
    ));
    out
}

fn params_of(fields: &Vec<FieldStruct>) -> (r: Vec<String>)
    ensures
        texts(r@) == after_first(field_struct_names(fields@)).map_values(
            |c: Seq<char>| param_text(c),
        ),
{
    let mut out: Vec<String> = Vec::new();
    if fields.len() == 0 {
        assert(texts(out@) =~= after_first(field_struct_names(fields@)).map_values(
            |c: Seq<char>| param_text(c),
        ));
        return out;
    }
    let mut i: usize = 1;
    while i < fields.len()
        invariant
            1 <= i <= fields@.len(),
            out@.len() == i - 1,
            forall|j: int| 0 <= j < i - 1 ==> #[trigger] out@[j]@ == param_text(fields@[j + 1]@),
        decreases fields@.len() - i,
    {
        out.push(fields[i].as_params());
        i = i + 1;
    }
    assert(texts(out@) =~= after_first(field_struct_names(fields@)).map_values(
        |c: Seq<char>| param_text(c),
    ));
    out
}

/// The content of the method `crud_name`, or the first reason to reject the
/// struct; the table is written in the `CREATE TABLE` query as the literal
/// `table_literal`.
pub fn try_mount_struct_with_literal(
    ast: &DeriveInputModel,
    fields: Option<&Vec<FieldInput>>,
    struct_attrs: &Vec<AttributeInput>,
    crud_name: &String,
    table_literal: &str,
) -> (r: Result<CrudMethod, DeriveError>)
    ensures
        method_result(r) == mount_outcome(
            ast.ident@,
            fields_view(fields),
            struct_attrs@,
            crud_name@,
            table_literal@,
        ),
{
    let table = match try_obtain_table_name(struct_attrs) {
        Ok(t) => t,
        Err(e) => {
            return Err(e);
        },
    };
    let struct_fields = match try_obtain_fields_struct(fields) {
        Ok(v) => v,
        Err(e) => {
            return Err(e);
        },
    };
    let fs = match fields {
        Some(fs) => fs,
        None => {
            return Err(DeriveError::MissingFields);
        },
    };
    let types = match struct_type_texts(fs) {
        Ok(t) => t,
        Err(e) => {
            return Err(e);
        },
    };
    let ghost idents = field_struct_names(struct_fields@);
    let struct_name = ast.ident.clone();
    if string_eq_str(crud_name, "create_table") {
        let cols = column_names(&struct_fields);
        let nn = match try_filter_path("not_null", Some(fs)) {
            Ok(v) => v,
            Err(e) => {
                return Err(e);
            },
        };
        let nn_texts = vec_bool_to_vec_string(nn, "NOT NULL", "");
        let u = match try_filter_path("unique", Some(fs)) {
            Ok(v) => v,
            Err(e) => {
                return Err(e);
            },
        };
        let u_texts = vec_bool_to_vec_string(u, "UNIQUE", "");
        let sql_types = match try_convert_typ_struct_to_sql3_type(types) {
            Ok(v) => v,
            Err(e) => {
                return Err(e);
            },
        };
        let rows = create_table_rows(&cols, &sql_types, &nn_texts, &u_texts);
        let query = create_table_query(table_literal, &rows);
        Ok(CrudMethod::CreateTable { query })
    } else if string_eq_str(crud_name, "read_count") {
        Ok(CrudMethod::ReadCount { table_name: table })
    } else if string_eq_str(crud_name, "read_all") {
        let reads = row_reads(&struct_fields);
        Ok(CrudMethod::ReadAll { struct_name, table_name: table, row_reads: reads })
    } else if string_eq_str(crud_name, "insert_one") {
        if struct_fields.len() < 2 {
            return Err(DeriveError::NoColumnToInsert);
        }
        let cols = column_names(&struct_fields);
        let names = join_strings(&cols, ",");
        let values = placeholders(cols.len());
        let params = params_of(&struct_fields);
        Ok(CrudMethod::InsertOne { struct_name, table_name: table, names, values, params })
    } else if string_eq_str(crud_name, "update_one") {
        let cols = column_names(&struct_fields);
        let names_and_values = assignments(&cols);
        let params = params_of(&struct_fields);
        Ok(
            CrudMethod::UpdateOne {
                struct_name,
                table_name: table,
                names_and_values,
                names_len: cols.len(),
                params,
            },
        )
    } else if string_eq_str(crud_name, "delete_one") {
        Ok(CrudMethod::DeleteOne { table_name: table })
    } else {
        Err(DeriveError::UnknownOperation)
    }
}


/// The content of the method `crud_name` for the struct `ast`, whose named
/// fields are `fields` and whose attributes are `struct_attrs`, the table
/// being written in the `CREATE TABLE` query as the literal `table_literal`.
pub fn mount_struct_with_literal(
    ast: &DeriveInputModel,
    fields: Option<&Vec<FieldInput>>,
    struct_attrs: &Vec<AttributeInput>,
    crud_name: &String,
    table_literal: &str,
) -> (r: CrudMethod)
    requires
        mount_outcome(
            ast.ident@,
            fields_view(fields),
            struct_attrs@,
            crud_name@,
            table_literal@,
        ) is Ok,
    ensures
        mount_outcome(ast.ident@, fields_view(fields), struct_attrs@, crud_name@, table_literal@)
            == Ok::<CrudMethodSpec, Rejection>(r@),
{
    match try_mount_struct_with_literal(ast, fields, struct_attrs, crud_name, table_literal) {
        Ok(m) => m,
        Err(_) => CrudMethod::DeleteOne { table_name: String::new() },
    }
}

/// Whether the derive accepts the method `crud` for a struct: whatever the
/// table literal, the outcome is the same success or the same rejection.
pub open spec fn mount_accepts(
    struct_name: Seq<char>,
    fields: Option<Seq<FieldInput>>,
    attrs: Seq<AttributeInput>,
    crud: Seq<char>,
) -> bool {
    mount_outcome(struct_name, fields, attrs, crud, empty_literal()) is Ok
}

/// Whether a struct is accepted, and which rejection it gets, does not depend
/// on how the table name is written as a literal.
pub proof fn lemma_rejection_ignores_literal(
    struct_name: Seq<char>,
    fields: Option<Seq<FieldInput>>,
    attrs: Seq<AttributeInput>,
    crud: Seq<char>,
    l1: Seq<char>,
    l2: Seq<char>,
)
    ensures
        (mount_outcome(struct_name, fields, attrs, crud, l1) is Ok) == (mount_outcome(
            struct_name,
            fields,
            attrs,
            crud,
            l2,
        ) is Ok),
        mount_outcome(struct_name, fields, attrs, crud, l1) is Err ==> mount_outcome(
            struct_name,
            fields,
            attrs,
            crud,
            l1,
        ) == mount_outcome(struct_name, fields, attrs, crud, l2),
{
}

/// The content of the method `crud_name` for the struct `ast`, whose named
/// fields are `fields` and whose attributes are `struct_attrs`. The table
/// name is written into the `CREATE TABLE` query as the Rust string literal
/// for it.
pub fn mount_struct(
    ast: &DeriveInputModel,
    fields: Option<&Vec<FieldInput>>,
    struct_attrs: &Vec<AttributeInput>,
    crud_name: String,
) -> (r: CrudMethod)
    requires
        mount_accepts(ast.ident@, fields_view(fields), struct_attrs@, crud_name@),
    ensures
        exists|lit: Seq<char>|
            table_literal(struct_attrs@, lit) && #[trigger] mount_outcome(
                ast.ident@,
                fields_view(fields),
                struct_attrs@,
                crud_name@,
                lit,
            ) == Ok::<CrudMethodSpec, Rejection>(r@),
{
    let table = obtain_table_name(struct_attrs);
    let lit = string_literal(table.as_str());
    proof {
        lemma_rejection_ignores_literal(
            ast.ident@,
            fields_view(fields),
            struct_attrs@,
            crud_name@,
            empty_literal(),
            lit@,
        );
    }
    let r = mount_struct_with_literal(ast, fields, struct_attrs, &crud_name, lit.as_str());
    assert(table_literal(struct_attrs@, lit@));
    r
}

/// The outcome of [`obtain_data_from_struct`] with the table written as `lit`:
/// the struct must have named fields, the first of them `id`.
pub open spec fn data_outcome(
    struct_name: Seq<char>,
    fields: FieldsInput,
    attrs: Seq<AttributeInput>,
    crud: Seq<char>,
    lit: Seq<char>,
) -> Result<CrudMethodSpec, Rejection> {
    match fields {
        FieldsInput::Named(fs) => if fs@.len() == 0 {
            Err(Rejection::EmptyStruct)
        } else {
            match fs@[0].ident {
                None => Err(Rejection::UnnamedField),
                Some(id) => if id@ != "id"@ {
                    Err(Rejection::FirstFieldNotId)
                } else {
                    mount_outcome(struct_name, Some(fs@), attrs, crud, lit)
                },
            }
        },
        _ => Err(Rejection::NotNamedStruct),
    }
}

/// The method `crud_name` for a struct with the fields `fields`, which are
/// named, the first of them `id`.
pub fn obtain_data_from_struct(
    ast: &DeriveInputModel,
    fields: &FieldsInput,
    struct_attrs: &Vec<AttributeInput>,
    crud_name: String,
) -> (r: CrudMethod)
    requires
        data_outcome(ast.ident@, *fields, struct_attrs@, crud_name@, empty_literal()) is Ok,
    ensures
        exists|lit: Seq<char>|
            table_literal(struct_attrs@, lit) && #[trigger] data_outcome(
                ast.ident@,
                *fields,
                struct_attrs@,
                crud_name@,
                lit,
            ) == Ok::<CrudMethodSpec, Rejection>(r@),
{
    match fields {
        FieldsInput::Named(fs) => {
            let r = mount_struct(ast, Some(fs), struct_attrs, crud_name);
            let ghost lit = choose|lit: Seq<char>|
                table_literal(struct_attrs@, lit) && #[trigger] mount_outcome(
                    ast.ident@,
                    Some(fs@),
                    struct_attrs@,
                    crud_name@,
                    lit,
                ) == Ok::<CrudMethodSpec, Rejection>(r@);
            assert(data_outcome(ast.ident@, *fields, struct_attrs@, crud_name@, lit) == Ok::<
                CrudMethodSpec,
                Rejection,
            >(r@));
            r
        },
        _ => {
            proof {
                assert(false);
            }
            CrudMethod::DeleteOne { table_name: String::new() }
        },
    }
}

/// The outcome of [`obtain_struct`] with the table written as `lit`: the
/// input must be a struct.
pub open spec fn struct_outcome(
    ast: DeriveInputModel,
    attrs: Seq<AttributeInput>,
    crud: Seq<char>,
    lit: Seq<char>,
) -> Result<CrudMethodSpec, Rejection> {
    match ast.data {
        DataInput::Struct(fields) => data_outcome(ast.ident@, fields, attrs, crud, lit),
        _ => Err(Rejection::NotStruct),
    }
}

/// The method `crud_name` for the derive input `ast`, a struct.
pub fn obtain_struct(ast: &DeriveInputModel, struct_attrs: &Vec<AttributeInput>, crud_name: String) -> (r:
    CrudMethod)
    requires
        struct_outcome(*ast, struct_attrs@, crud_name@, empty_literal()) is Ok,
    ensures
        exists|lit: Seq<char>|
            table_literal(struct_attrs@, lit) && #[trigger] struct_outcome(
                *ast,
                struct_attrs@,
                crud_name@,
                lit,
            ) == Ok::<CrudMethodSpec, Rejection>(r@),
{
    match &ast.data {
        DataInput::Struct(ds) => {
            let r = obtain_data_from_struct(ast, ds, struct_attrs, crud_name);
            let ghost lit = choose|lit: Seq<char>|
                table_literal(struct_attrs@, lit) && #[trigger] data_outcome(
                    ast.ident@,
                    *ds,
                    struct_attrs@,
                    crud_name@,
                    lit,
                ) == Ok::<CrudMethodSpec, Rejection>(r@);
            assert(struct_outcome(*ast, struct_attrs@, crud_name@, lit) == Ok::<
                CrudMethodSpec,
                Rejection,
            >(r@));
            r
        },
        _ => {
            proof {
                assert(false);
            }
            CrudMethod::DeleteOne { table_name: String::new() }
        },
    }
}

/// The method `crud_name` for the derive input `ast`, or the first reason to
/// reject it; the table is written as `""`.
fn try_struct_method(ast: &DeriveInputModel, crud_name: &String) -> (r: Result<CrudMethod, DeriveError>)
    ensures
        method_result(r) == struct_outcome(*ast, ast.attrs@, crud_name@, empty_literal()),
{
    let fs = match &ast.data {
        DataInput::Struct(FieldsInput::Named(fs)) => fs,
        DataInput::Struct(_) => {
            return Err(DeriveError::NotNamedStruct);
        },
        _ => {
            return Err(DeriveError::NotStruct);
        },
    };
    if fs.len() == 0 {
        return Err(DeriveError::EmptyStruct);
    }
    match &fs[0].ident {
        None => {
            return Err(DeriveError::UnnamedField);
        },
        Some(id) => {
            if !string_eq_str(id, "id") {
                return Err(DeriveError::FirstFieldNotId);
            }
        },
    }
    let empty = "\"\"";
    proof {
        reveal_strlit("\"\"");
    }
    assert(empty@ == empty_literal());
    try_mount_struct_with_literal(ast, Some(fs), &ast.attrs, crud_name, empty)
}

/// The six methods the derive generates, in order.
pub open spec fn crud_names() -> Seq<Seq<char>> {
    seq![
        "create_table"@,
        "read_count"@,
        "read_all"@,
        "insert_one"@,
        "update_one"@,
        "delete_one"@,
    ]
}

/// The six method names are pairwise different.
pub proof fn lemma_crud_names_distinct()
    ensures
        "create_table"@ != "read_count"@,
        "create_table"@ != "read_all"@,
        "create_table"@ != "insert_one"@,
        "create_table"@ != "update_one"@,
        "create_table"@ != "delete_one"@,
        "read_count"@ != "read_all"@,
        "read_count"@ != "insert_one"@,
        "read_count"@ != "update_one"@,
        "read_count"@ != "delete_one"@,
        "read_all"@ != "insert_one"@,
        "read_all"@ != "update_one"@,
        "read_all"@ != "delete_one"@,
        "insert_one"@ != "update_one"@,
        "insert_one"@ != "delete_one"@,
        "update_one"@ != "delete_one"@,
{
    reveal_strlit("create_table");
    reveal_strlit("read_count");
    reveal_strlit("read_all");
    reveal_strlit("insert_one");
    reveal_strlit("update_one");
    reveal_strlit("delete_one");
    assert("create_table"@.len() == 12);
    assert("read_all"@.len() == 8);
    assert("read_count"@[0] == 'r' && "insert_one"@[0] == 'i' && "update_one"@[0] == 'u'
        && "delete_one"@[0] == 'd');
}

/// An outcome of one method as an outcome of a list of methods.
pub open spec fn single(r: Result<CrudMethodSpec, Rejection>) -> Result<Seq<CrudMethodSpec>, Rejection> {
    match r {
        Ok(m) => Ok(seq![m]),
        Err(e) => Err(e),
    }
}

/// The outcomes of the six methods for `ast`, the table written as `lit`.
pub open spec fn crud_outcomes(ast: DeriveInputModel, lit: Seq<char>) -> Seq<
    Result<Seq<CrudMethodSpec>, Rejection>,
> {
    crud_names().map_values(|op: Seq<char>| single(struct_outcome(ast, ast.attrs@, op, lit)))
}

/// The six methods for `ast`, or the first rejection.
pub open spec fn crud_outcome(ast: DeriveInputModel, lit: Seq<char>) -> Result<
    Seq<CrudMethodSpec>,
    Rejection,
> {
    collect_all(crud_outcomes(ast, lit))
}

/// Only the `create_table` method depends on how the table name is written
/// as a literal.
pub proof fn lemma_literal_only_in_create_table(
    ast: DeriveInputModel,
    attrs: Seq<AttributeInput>,
    op: Seq<char>,
    l1: Seq<char>,
    l2: Seq<char>,
)
    requires
        op != "create_table"@,
    ensures
        struct_outcome(ast, attrs, op, l1) == struct_outcome(ast, attrs, op, l2),
{
}

/// Whether `#[derive(Rusqdrive)]` accepts `ast`.
pub open spec fn derive_accepts(ast: DeriveInputModel) -> bool {
    crud_outcome(ast, empty_literal()) is Ok
}

/// Whether the derive accepts `ast`, or the first reason it rejects it: the
/// rejection the derive meets first when it generates the six methods in
/// order.
pub fn check_derive_input(ast: &DeriveInputModel) -> (r: Result<(), DeriveError>)
    ensures
        match r {
            Ok(_) => derive_accepts(*ast),
            Err(e) => crud_outcome(*ast, empty_literal()) == Err::<Seq<CrudMethodSpec>, Rejection>(
                e@,
            ),
        },
{
    let ops: [&str; 6] = [
        "create_table",
        "read_count",
        "read_all",
        "insert_one",
        "update_one",
        "delete_one",
    ];
    assert(ops@.map_values(|o: &str| o@) =~= crud_names());
    let ghost rs = crud_outcomes(*ast, empty_literal());
    let ghost mut acc: Seq<CrudMethodSpec> = seq![];
    let mut i: usize = 0;
    assert(rs.take(0) =~= Seq::<Result<Seq<CrudMethodSpec>, Rejection>>::empty());
    while i < 6
        invariant
            i <= 6,
            ops@.map_values(|o: &str| o@) == crud_names(),
            rs == crud_outcomes(*ast, empty_literal()),
            collect_all(rs.take(i as int)) == Ok::<Seq<CrudMethodSpec>, Rejection>(acc),
        decreases 6 - i,
    {
        let op = String::from_str(ops[i]);
        assert(op@ == crud_names()[i as int]);
        let r = try_struct_method(ast, &op);
        proof {
            lemma_collect_step(rs, i as int, acc);
            assert(rs[i as int] == single(method_result(r)));
        }
        match r {
            Ok(m) => {
                proof {
                    acc = acc + seq![m@];
                }
            },
            Err(e) => {
                return Err(e);
            },
        }
        i = i + 1;
    }
    proof {
        lemma_take_full(rs);
    }
    Ok(())
}

/// The six methods that `#[derive(Rusqdrive)]` adds to `ast`, in the order
/// `create_table`, `read_count`, `read_all`, `insert_one`, `update_one`,
/// `delete_one`; the input must be one the derive accepts.
pub fn crud_methods(ast: &DeriveInputModel) -> (r: Vec<CrudMethod>)
    requires
        derive_accepts(*ast),
    ensures
        exists|lit: Seq<char>|
            table_literal(ast.attrs@, lit) && #[trigger] crud_outcome(*ast, lit) == Ok::<
                Seq<CrudMethodSpec>,
                Rejection,
            >(r@.map_values(|m: CrudMethod| m@)),
{
    let ops: [&str; 6] = [
        "create_table",
        "read_count",
        "read_all",
        "insert_one",
        "update_one",
        "delete_one",
    ];
    assert(ops@.map_values(|o: &str| o@) =~= crud_names());
    proof {
        lemma_collect_ok_each(crud_outcomes(*ast, empty_literal()));
    }
    let ghost mut lit: Seq<char> = empty_literal();
    let mut out: Vec<CrudMethod> = Vec::new();
    let mut i: usize = 0;
    assert(crud_outcomes(*ast, lit).take(0) =~= Seq::<
        Result<Seq<CrudMethodSpec>, Rejection>,
    >::empty());
    assert(out@.map_values(|m: CrudMethod| m@) =~= Seq::<CrudMethodSpec>::empty());
    while i < 6
        invariant
            i <= 6,
            ops@.map_values(|o: &str| o@) == crud_names(),
            forall|k: int|
                0 <= k < 6 ==> #[trigger] crud_outcomes(*ast, empty_literal())[k] is Ok,
            i > 0 ==> table_literal(ast.attrs@, lit),
            collect_all(crud_outcomes(*ast, lit).take(i as int)) == Ok::<
                Seq<CrudMethodSpec>,
                Rejection,
            >(out@.map_values(|m: CrudMethod| m@)),
        decreases 6 - i,
    {
        let op = ops[i];
        assert(op@ == crud_names()[i as int]);
        assert(crud_outcomes(*ast, empty_literal())[i as int] == single(
            struct_outcome(*ast, ast.attrs@, op@, empty_literal()),
        ));
        let m = obtain_struct(ast, &ast.attrs, String::from_str(op));
        let ghost li = choose|l: Seq<char>|
            table_literal(ast.attrs@, l) && #[trigger] struct_outcome(*ast, ast.attrs@, op@, l)
                == Ok::<CrudMethodSpec, Rejection>(m@);
        proof {
            if i == 0 {
                lit = li;
                assert(crud_outcomes(*ast, lit).take(0) =~= Seq::<
                    Result<Seq<CrudMethodSpec>, Rejection>,
                >::empty());
            } else {
                lemma_crud_names_distinct();
                assert(op@ != "create_table"@);
                lemma_literal_only_in_create_table(*ast, ast.attrs@, op@, li, lit);
            }
            lemma_collect_step(
                crud_outcomes(*ast, lit),
                i as int,
                out@.map_values(|m: CrudMethod| m@),
            );
            assert(crud_outcomes(*ast, lit)[i as int] == single(
                Ok::<CrudMethodSpec, Rejection>(m@),
            ));
        }
        let ghost prev = out@;
        out.push(m);
        assert(out@.map_values(|m: CrudMethod| m@) =~= prev.map_values(|m: CrudMethod| m@) + seq![
            m@,
        ]);
        i = i + 1;
    }
    proof {
        lemma_take_full(crud_outcomes(*ast, lit));
    }
    assert(table_literal(ast.attrs@, lit) && crud_outcome(*ast, lit) == Ok::<
        Seq<CrudMethodSpec>,
        Rejection,
    >(out@.map_values(|m: CrudMethod| m@)));
    out
}

} // verus!
