use vstd::prelude::*;

use crate::model::{AttributeInput, FieldInput, LitInput, MetaInput, Rejection, path_is_ident};
use crate::outcome::{collect_all, lemma_collect_ok_each};
use crate::utils::{attr_selection, field_selection, filter_path_outcome, meta_selection};
use crate::laws::{
    expected_column, first_field_is_id, law_create_table_one_column_per_field,
    law_one_flag_per_column, law_table_name_from_tablename, one_setting, one_type_each,
    tablename_value,
};
use crate::derive::{CrudMethodSpec, create_table_texts, mount_outcome, placeholder_items, struct_outcome};
use crate::create_table::CreateTable;
use crate::field_types::field_type_texts;
use crate::model::{DataInput, DeriveInputModel, FieldsInput};
use crate::outcome::after_first;
use crate::text::{decimal, digit_char, is_white_space, join, trim_end_spec};
use crate::utils::sql_type_of;

verus! {

/// A successful part of a successful collection is no longer than the
/// whole, and is the whole when it is as long.
proof fn lemma_collect_part<A>(rs: Seq<Result<Seq<A>, Rejection>>, j: int)
    requires
        collect_all(rs) is Ok,
        0 <= j < rs.len(),
        rs[j] is Ok,
    ensures
        rs[j]->Ok_0.len() <= collect_all(rs)->Ok_0.len(),
        rs[j]->Ok_0.len() == collect_all(rs)->Ok_0.len() ==> rs[j]->Ok_0 == collect_all(rs)->Ok_0,
    decreases rs.len(),
{
    let d = rs.drop_last();
    let a = collect_all(d)->Ok_0;
    let b = rs.last()->Ok_0;
    assert(collect_all(rs)->Ok_0 == a + b);
    if j == rs.len() - 1 {
        if b.len() == a.len() + b.len() {
            assert(a + b =~= b);
        }
    } else {
        assert(d[j] == rs[j]);
        lemma_collect_part(d, j);
        if rs[j]->Ok_0.len() == a.len() + b.len() {
            assert(a + b =~= a);
        }
    }
}

/// A non-empty successful collection has a non-empty part.
proof fn lemma_collect_source<A>(rs: Seq<Result<Seq<A>, Rejection>>) -> (j: int)
    requires
        collect_all(rs) is Ok,
        collect_all(rs)->Ok_0.len() > 0,
    ensures
        0 <= j < rs.len(),
        rs[j] is Ok,
        rs[j]->Ok_0.len() > 0,
    decreases rs.len(),
{
    let d = rs.drop_last();
    let b = rs.last()->Ok_0;
    if b.len() > 0 {
        rs.len() - 1
    } else {
        let j = lemma_collect_source(d);
        assert(d[j] == rs[j]);
        j
    }
}

/// Whether the `m`-th meta of the `j`-th attribute of `f` is the pair
/// `name = b`, with `b` a bool literal.
pub open spec fn setting_at(f: FieldInput, j: int, m: int, name: Seq<char>, b: bool) -> bool {
    0 <= j < f.attrs@.len() && match f.attrs@[j].args {
        Some(ms) => 0 <= m < ms@.len() && match ms@[m] {
            MetaInput::NameValue(p, LitInput::Bool(c)) => path_is_ident(p, name) && c == b,
            _ => false,
        },
        None => false,
    }
}

/// Whether an attribute of `f` holds the pair `name = b`.
pub open spec fn written_setting(f: FieldInput, name: Seq<char>, b: bool) -> bool {
    exists|j: int, m: int| #[trigger] setting_at(f, j, m, name, b)
}

/// A field with one setting for `name` selects the value written there.
proof fn lemma_flag_from_setting(f: FieldInput, name: Seq<char>, j: int, m: int, b: bool)
    requires
        one_setting(f, name),
        setting_at(f, j, m, name, b),
    ensures
        field_selection(f, name)->Ok_0 == seq![b],
{
    let ars = f.attrs@.map_values(|a: AttributeInput| attr_selection(f.ident, a, name));
    assert(field_selection(f, name) == collect_all(ars));
    lemma_collect_ok_each(ars);
    assert(ars[j] == attr_selection(f.ident, f.attrs@[j], name));
    let ms = f.attrs@[j].args->Some_0;
    let mrs = ms@.map_values(|x: MetaInput| meta_selection(x, name));
    assert(ars[j] == collect_all(mrs));
    lemma_collect_ok_each(mrs);
    assert(mrs[m] == meta_selection(ms@[m], name));
    assert(mrs[m]->Ok_0 == seq![b]);
    lemma_collect_part(mrs, m);
    lemma_collect_part(ars, j);
}

/// The value a field with one setting for `name` selects is written in one
/// of its attributes.
proof fn lemma_flag_is_written(f: FieldInput, name: Seq<char>)
    requires
        one_setting(f, name),
    ensures
        written_setting(f, name, field_selection(f, name)->Ok_0[0]),
{
    let ars = f.attrs@.map_values(|a: AttributeInput| attr_selection(f.ident, a, name));
    assert(field_selection(f, name) == collect_all(ars));
    let j = lemma_collect_source(ars);
    lemma_collect_part(ars, j);
    assert(ars[j] == attr_selection(f.ident, f.attrs@[j], name));
    let ms = f.attrs@[j].args->Some_0;
    let mrs = ms@.map_values(|x: MetaInput| meta_selection(x, name));
    assert(ars[j] == collect_all(mrs));
    let m = lemma_collect_source(mrs);
    lemma_collect_part(mrs, m);
    assert(mrs[m] == meta_selection(ms@[m], name));
    let c = field_selection(f, name)->Ok_0[0];
    assert(setting_at(f, j, m, name, c));
}

/// A field with one setting for `name` selects `true` exactly when an
/// attribute of it holds `name = true`.
proof fn lemma_flag_iff_true(f: FieldInput, name: Seq<char>)
    requires
        one_setting(f, name),
    ensures
        field_selection(f, name)->Ok_0[0] == written_setting(f, name, true),
{
    lemma_flag_is_written(f, name);
    if written_setting(f, name, true) {
        let (j, m) = choose|j: int, m: int| #[trigger] setting_at(f, j, m, name, true);
        lemma_flag_from_setting(f, name, j, m, true);
    }
}

/// For fields whose first is `id` and whose selection of `name` is accepted,
/// the k-th flag is `b` whenever the (k + 1)-th field holds the pair
/// `name = b` in its `#[rusqdrive(...)]`: the value written is the value
/// read, for `not_null` and `unique` alike.
pub proof fn law_flag_is_written_value(
    fs: Seq<FieldInput>,
    name: Seq<char>,
    k: int,
    j: int,
    m: int,
    b: bool,
)
    requires
        filter_path_outcome(name, Some(fs)) is Ok,
        first_field_is_id(fs),
        0 <= k < fs.len() - 1,
        setting_at(fs[k + 1], j, m, name, b),
    ensures
        filter_path_outcome(name, Some(fs))->Ok_0[k] == b,
{
    law_one_flag_per_column(fs, name);
    crate::laws::law_accepted_fields_carry_only_rusqdrive(name, fs);
    assert(one_setting(fs[k + 1], name));
    lemma_flag_from_setting(fs[k + 1], name, j, m, b);
    assert(filter_path_outcome(name, Some(fs))->Ok_0[k] == field_selection(fs[k + 1], name)->Ok_0[0]);
}

/// For fields whose first is `id` and whose selection of `name` is accepted,
/// the k-th flag is `true` exactly when the (k + 1)-th field holds
/// `name = true`.
pub proof fn law_flag_true_iff_written_true(fs: Seq<FieldInput>, name: Seq<char>, k: int)
    requires
        filter_path_outcome(name, Some(fs)) is Ok,
        first_field_is_id(fs),
        0 <= k < fs.len() - 1,
    ensures
        filter_path_outcome(name, Some(fs))->Ok_0[k] == written_setting(fs[k + 1], name, true),
{
    law_one_flag_per_column(fs, name);
    crate::laws::law_accepted_fields_carry_only_rusqdrive(name, fs);
    assert(one_setting(fs[k + 1], name));
    lemma_flag_iff_true(fs[k + 1], name);
}


/// The table a generated method works on; `create_table` writes it as a
/// literal inside its query instead.
pub open spec fn method_table(m: CrudMethodSpec) -> Option<Seq<char>> {
    match m {
        CrudMethodSpec::CreateTable { .. } => None,
        CrudMethodSpec::ReadCount { table_name } => Some(table_name),
        CrudMethodSpec::ReadAll { table_name, .. } => Some(table_name),
        CrudMethodSpec::InsertOne { table_name, .. } => Some(table_name),
        CrudMethodSpec::UpdateOne { table_name, .. } => Some(table_name),
        CrudMethodSpec::DeleteOne { table_name } => Some(table_name),
    }
}

/// Every generated method but `create_table` (`read_count`, `read_all`,
/// `insert_one`, `update_one`, `delete_one`) works on the table named by the
/// string value of the struct's `#[tablename = "..."]` attribute.
pub proof fn law_methods_use_the_tablename_table(
    struct_name: Seq<char>,
    fields: Option<Seq<FieldInput>>,
    attrs: Seq<AttributeInput>,
    crud: Seq<char>,
    lit: Seq<char>,
)
    requires
        mount_outcome(struct_name, fields, attrs, crud, lit) is Ok,
        crud != "create_table"@,
    ensures
        method_table(mount_outcome(struct_name, fields, attrs, crud, lit)->Ok_0) matches Some(v)
            && tablename_value(attrs, v),
{
    law_table_name_from_tablename(attrs);
}

/// The number that a text of decimal digits reads as.
pub open spec fn digits_value(s: Seq<char>) -> int
    decreases s.len(),
{
    if s.len() == 0 {
        0
    } else {
        digits_value(s.drop_last()) * 10 + (s.last() as int - 48)
    }
}

/// The decimal text of `n` is made of the digits `0` to `9`, starts with no
/// `0` unless it is `0`, and reads back as `n`.
pub proof fn law_decimal_reads_back(n: nat)
    ensures
        decimal(n).len() >= 1,
        forall|i: int| 0 <= i < decimal(n).len() ==> '0' <= #[trigger] decimal(n)[i] <= '9',
        n >= 1 ==> decimal(n)[0] != '0',
        digits_value(decimal(n)) == n,
    decreases n,
{
    if n < 10 {
        assert(digit_char(n) as int == 48 + n);
        assert(decimal(n).drop_last() =~= Seq::<char>::empty());
        assert(digits_value(Seq::<char>::empty()) == 0);
        assert(digits_value(decimal(n)) == digits_value(decimal(n).drop_last()) * 10 + (decimal(n).last() as int - 48));
    } else {
        let q = n / 10;
        let r = n % 10;
        law_decimal_reads_back(q);
        assert(digit_char(r) as int == 48 + r);
        let d = decimal(n);
        assert(d.drop_last() =~= decimal(q));
        assert(d.last() == digit_char(r));
        assert(digits_value(d) == digits_value(decimal(q)) * 10 + r);
        assert(d[0] == decimal(q)[0]);
        assert(q * 10 + r == n) by (nonlinear_arith)
            requires
                q == n / 10,
                r == n % 10,
        ;
        assert(forall|i: int| 0 <= i < decimal(q).len() ==> d[i] == decimal(q)[i]);
        assert(digits_value(d) == n);
    }
}

/// The placeholders of `insert_one` are `?1`, `?2`, ..., `?k`: the i-th is a
/// question mark followed by the decimal digits of i + 1.
pub proof fn law_placeholders_count_from_one(k: nat)
    ensures
        placeholder_items(k).len() == k,
        forall|i: int|
            0 <= i < k ==> {
                &&& (#[trigger] placeholder_items(k)[i])[0] == '?'
                &&& placeholder_items(k)[i] == "?"@ + decimal((i + 1) as nat)
                &&& digits_value(placeholder_items(k)[i].subrange(1, placeholder_items(k)[i].len() as int)) == i + 1
            },
{
    assert forall|i: int| 0 <= i < k implies {
        &&& (#[trigger] placeholder_items(k)[i])[0] == '?'
        &&& placeholder_items(k)[i] == "?"@ + decimal((i + 1) as nat)
        &&& digits_value(placeholder_items(k)[i].subrange(1, placeholder_items(k)[i].len() as int)) == i + 1
    } by {
        reveal_strlit("?");
        let t = placeholder_items(k)[i];
        assert(t == "?"@ + decimal((i + 1) as nat));
        assert(t.subrange(1, t.len() as int) =~= decimal((i + 1) as nat));
        law_decimal_reads_back((i + 1) as nat);
    }
}


/// Whether `t` is one of the field types the derive stores.
pub open spec fn stored_type_text(t: Seq<char>) -> bool {
    t == "bool"@ || t == "u8"@ || t == "Option<u8>"@ || t == "u16"@ || t == "Option<u16>"@ || t == "u32"@ || t == "Option<u32>"@ || t == "u64"@ || t == "Option<u64>"@ || t == "i8"@ || t == "Option<i8>"@ || t == "i16"@ || t == "Option<i16>"@ || t == "i32"@ || t == "Option<i32>"@ || t == "i64"@ || t == "Option<i64>"@ || t == "f32"@ || t == "Option<f32>"@ || t == "f64"@ || t == "Option<f64>"@ || t == "String"@ || t == "Option<String>"@ || t == "DateTime<Utc>"@ || t == "Option<DateTime<Utc>>"@
}

/// The SQLite column type of each field type: `bool` is `BOOLEAN`; `u8`,
/// `u16`, `u32`, `u64`, `i8`, `i16`, `i32`, `i64` and their `Option` are
/// `INTEGER`; `f32`, `f64` and their `Option` are `DOUBLE`; `String` and
/// `Option<String>` are `TEXT`; `DateTime<Utc>` and `Option<DateTime<Utc>>`
/// are `DATETIME`; any other type has none.
pub proof fn law_sql_type_table()
    ensures
        sql_type_of("bool"@) == Some("BOOLEAN"@),
        sql_type_of("u8"@) == Some("INTEGER"@),
        sql_type_of("Option<u8>"@) == Some("INTEGER"@),
        sql_type_of("u16"@) == Some("INTEGER"@),
        sql_type_of("Option<u16>"@) == Some("INTEGER"@),
        sql_type_of("u32"@) == Some("INTEGER"@),
        sql_type_of("Option<u32>"@) == Some("INTEGER"@),
        sql_type_of("u64"@) == Some("INTEGER"@),
        sql_type_of("Option<u64>"@) == Some("INTEGER"@),
        sql_type_of("i8"@) == Some("INTEGER"@),
        sql_type_of("Option<i8>"@) == Some("INTEGER"@),
        sql_type_of("i16"@) == Some("INTEGER"@),
        sql_type_of("Option<i16>"@) == Some("INTEGER"@),
        sql_type_of("i32"@) == Some("INTEGER"@),
        sql_type_of("Option<i32>"@) == Some("INTEGER"@),
        sql_type_of("i64"@) == Some("INTEGER"@),
        sql_type_of("Option<i64>"@) == Some("INTEGER"@),
        sql_type_of("f32"@) == Some("DOUBLE"@),
        sql_type_of("Option<f32>"@) == Some("DOUBLE"@),
        sql_type_of("f64"@) == Some("DOUBLE"@),
        sql_type_of("Option<f64>"@) == Some("DOUBLE"@),
        sql_type_of("String"@) == Some("TEXT"@),
        sql_type_of("Option<String>"@) == Some("TEXT"@),
        sql_type_of("DateTime<Utc>"@) == Some("DATETIME"@),
        sql_type_of("Option<DateTime<Utc>>"@) == Some("DATETIME"@),
        forall|t: Seq<char>| !stored_type_text(t) ==> sql_type_of(t) is None,
{
    reveal_strlit("bool");
    reveal_strlit("u8");
    reveal_strlit("Option<u8>");
    reveal_strlit("u16");
    reveal_strlit("Option<u16>");
    reveal_strlit("u32");
    reveal_strlit("Option<u32>");
    reveal_strlit("u64");
    reveal_strlit("Option<u64>");
    reveal_strlit("i8");
    reveal_strlit("Option<i8>");
    reveal_strlit("i16");
    reveal_strlit("Option<i16>");
    reveal_strlit("i32");
    reveal_strlit("Option<i32>");
    reveal_strlit("i64");
    reveal_strlit("Option<i64>");
    reveal_strlit("f32");
    reveal_strlit("Option<f32>");
    reveal_strlit("f64");
    reveal_strlit("Option<f64>");
    reveal_strlit("String");
    reveal_strlit("Option<String>");
    reveal_strlit("DateTime<Utc>");
    reveal_strlit("Option<DateTime<Utc>>");
    assert("bool"@.len() == 4 && "bool"@[0] == 'b');
    assert("u8"@.len() == 2 && "u8"@[0] == 'u');
    assert("Option<u8>"@.len() == 10 && "Option<u8>"@[0] == 'O' && "Option<u8>"@[7] == 'u');
    assert("u16"@.len() == 3 && "u16"@[0] == 'u');
    assert("Option<u16>"@.len() == 11 && "Option<u16>"@[0] == 'O' && "Option<u16>"@[7] == 'u');
    assert("u32"@.len() == 3 && "u32"@[0] == 'u');
    assert("Option<u32>"@.len() == 11 && "Option<u32>"@[0] == 'O' && "Option<u32>"@[7] == 'u');
    assert("u64"@.len() == 3 && "u64"@[0] == 'u');
    assert("Option<u64>"@.len() == 11 && "Option<u64>"@[0] == 'O' && "Option<u64>"@[7] == 'u');
    assert("i8"@.len() == 2 && "i8"@[0] == 'i');
    assert("Option<i8>"@.len() == 10 && "Option<i8>"@[0] == 'O' && "Option<i8>"@[7] == 'i');
    assert("i16"@.len() == 3 && "i16"@[0] == 'i');
    assert("Option<i16>"@.len() == 11 && "Option<i16>"@[0] == 'O' && "Option<i16>"@[7] == 'i');
    assert("i32"@.len() == 3 && "i32"@[0] == 'i');
    assert("Option<i32>"@.len() == 11 && "Option<i32>"@[0] == 'O' && "Option<i32>"@[7] == 'i');
    assert("i64"@.len() == 3 && "i64"@[0] == 'i');
    assert("Option<i64>"@.len() == 11 && "Option<i64>"@[0] == 'O' && "Option<i64>"@[7] == 'i');
    assert("f32"@.len() == 3 && "f32"@[0] == 'f');
    assert("Option<f32>"@.len() == 11 && "Option<f32>"@[0] == 'O' && "Option<f32>"@[7] == 'f');
    assert("f64"@.len() == 3 && "f64"@[0] == 'f');
    assert("Option<f64>"@.len() == 11 && "Option<f64>"@[0] == 'O' && "Option<f64>"@[7] == 'f');
    assert("String"@.len() == 6 && "String"@[0] == 'S');
    assert("Option<String>"@.len() == 14 && "Option<String>"@[0] == 'O' && "Option<String>"@[7] == 'S');
    assert("DateTime<Utc>"@.len() == 13 && "DateTime<Utc>"@[0] == 'D');
    assert("Option<DateTime<Utc>>"@.len() == 21 && "Option<DateTime<Utc>>"@[0] == 'O' && "Option<DateTime<Utc>>"@[7] == 'D');
}


/// The column definition of a field after `id`, written out: its name, its
/// SQLite type, `NOT NULL` where it holds `not_null = true` and `UNIQUE`
/// where it holds `unique = true`, separated by single spaces.
pub open spec fn sqlite_column(f: FieldInput) -> Seq<char> {
    f.ident->Some_0@ + " "@ + sql_type_of(field_type_texts(f.ty)->Ok_0[0])->Some_0 + " "@ + (if written_setting(
        f,
        "not_null"@,
        true,
    ) {
        "NOT NULL"@
    } else {
        ""@
    }) + " "@ + (if written_setting(f, "unique"@, true) {
        "UNIQUE"@
    } else {
        ""@
    })
}

/// The text of each column definition row is `col typ not_null unique`, the
/// four parts separated by single spaces.
pub proof fn law_column_row_text(rows: Seq<CreateTable>)
    ensures
        create_table_texts(rows).len() == rows.len(),
        forall|k: int|
            0 <= k < rows.len() ==> #[trigger] create_table_texts(rows)[k] == rows[k].col@ + " "@
                + rows[k].typ@ + " "@ + rows[k].not_null@ + " "@ + rows[k].unique@,
{
}

/// When the type of every field but `id` is looked up by one text, the
/// `CREATE TABLE` query of an accepted struct is
/// `CREATE TABLE IF NOT EXISTS <lit> (id INTEGER NOT NULL PRIMARY KEY
/// AUTOINCREMENT UNIQUE,<columns>);`, trailing white space before `);`
/// removed, with one column definition per field after `id`, in order; a
/// column says `UNIQUE` exactly when its field holds `unique = true`, and
/// `NOT NULL` exactly when it holds `not_null = true`.
pub proof fn law_create_table_query(ast: DeriveInputModel, fs: Vec<FieldInput>, lit: Seq<char>)
    requires
        ast.data == DataInput::Struct(FieldsInput::Named(fs)),
        one_type_each(fs@),
        struct_outcome(ast, ast.attrs@, "create_table"@, lit) is Ok,
    ensures
        struct_outcome(ast, ast.attrs@, "create_table"@, lit)->Ok_0 == (CrudMethodSpec::CreateTable {
            query: trim_end_spec(
                "CREATE TABLE IF NOT EXISTS "@ + lit
                    + " (id INTEGER NOT NULL PRIMARY KEY AUTOINCREMENT UNIQUE,"@ + join(
                    after_first(fs@).map_values(|f: FieldInput| sqlite_column(f)),
                    ","@,
                ),
            ) + ");"@,
        }),
{
    law_create_table_one_column_per_field(ast, fs, lit);
    let fsq = fs@;
    assert(first_field_is_id(fsq));
    assert(filter_path_outcome("not_null"@, Some(fsq)) is Ok);
    assert(filter_path_outcome("unique"@, Some(fsq)) is Ok);
    crate::laws::law_accepted_fields_carry_only_rusqdrive("not_null"@, fsq);
    crate::laws::law_accepted_fields_carry_only_rusqdrive("unique"@, fsq);
    let e = after_first(fsq).map_values(|f: FieldInput| expected_column(f));
    let c = after_first(fsq).map_values(|f: FieldInput| sqlite_column(f));
    assert forall|k: int| 0 <= k < e.len() implies e[k] == c[k] by {
        let f = fsq[k + 1];
        assert(after_first(fsq)[k] == f);
        assert(one_setting(f, "not_null"@));
        assert(one_setting(f, "unique"@));
        lemma_flag_iff_true(f, "not_null"@);
        lemma_flag_iff_true(f, "unique"@);
    }
    assert(e =~= c);
}


/// Trimming the end of `s` keeps its longest prefix that does not end in
/// white space: what is cut is all white space.
pub proof fn law_trim_end_cuts_white_space(s: Seq<char>)
    ensures
        trim_end_spec(s).len() <= s.len(),
        trim_end_spec(s) == s.subrange(0, trim_end_spec(s).len() as int),
        trim_end_spec(s).len() > 0 ==> !is_white_space(trim_end_spec(s).last()),
        forall|i: int| trim_end_spec(s).len() <= i < s.len() ==> is_white_space(#[trigger] s[i]),
    decreases s.len(),
{
    if s.len() > 0 && is_white_space(s.last()) {
        let d = s.drop_last();
        law_trim_end_cuts_white_space(d);
        let t = trim_end_spec(d);
        assert(t == s.subrange(0, t.len() as int)) by {
            assert(t =~= s.subrange(0, t.len() as int));
        }
        assert forall|i: int| t.len() <= i < s.len() implies is_white_space(#[trigger] s[i]) by {
            if i < d.len() {
                assert(s[i] == d[i]);
            }
        }
    } else {
        assert(s =~= s.subrange(0, s.len() as int));
    }
}

} // verus!
