use vstd::prelude::*;

use crate::derive::{
    CrudMethodSpec, lemma_crud_names_distinct, crud_names, crud_outcome, crud_outcomes, method_outcome,
    mount_outcome, single, struct_outcome,
};
use crate::field_struct::row_read_text;
use crate::model::{AttributeInput, DataInput, DeriveInputModel, FieldInput, FieldsInput};
use crate::outcome::{
    after_first, collect_all, lemma_collect_ok_each, lemma_collect_prepend, lemma_collect_singles,
};
use crate::text::{decimal, join};
use crate::create_table::column_text;
use crate::derive::{create_query_text, column_texts};
use crate::field_types::{field_type_texts, struct_types_outcome};
use crate::model::{LitInput, MetaInput, path_is_ident};
use crate::text::texts;
use crate::utils::{
    attr_selection, bools_to_texts, field_flags, field_idents_outcome, field_selection, fields_flags,
    filter_path_outcome, meta_path, meta_selection, sql_type_of, sql_type_outcome, sql_types_outcome,
    table_name_outcome,
};

verus! {

/// The kind of method a generated method is, as the name it is generated by.
pub open spec fn method_name(m: CrudMethodSpec) -> Seq<char> {
    match m {
        CrudMethodSpec::CreateTable { .. } => "create_table"@,
        CrudMethodSpec::ReadCount { .. } => "read_count"@,
        CrudMethodSpec::ReadAll { .. } => "read_all"@,
        CrudMethodSpec::InsertOne { .. } => "insert_one"@,
        CrudMethodSpec::UpdateOne { .. } => "update_one"@,
        CrudMethodSpec::DeleteOne { .. } => "delete_one"@,
    }
}

proof fn lemma_method_kind(
    struct_name: Seq<char>,
    table: Seq<char>,
    idents: Seq<Seq<char>>,
    fs: Seq<FieldInput>,
    types: Seq<Seq<char>>,
    crud: Seq<char>,
    lit: Seq<char>,
)
    requires
        method_outcome(struct_name, table, idents, fs, types, crud, lit) is Ok,
    ensures
        method_name(method_outcome(struct_name, table, idents, fs, types, crud, lit)->Ok_0)
            == crud,
{
}

/// The derive generates, for a struct it accepts, exactly the six methods
/// `create_table`, `read_count`, `read_all`, `insert_one`, `update_one`,
/// `delete_one`, in this order.
pub proof fn law_derive_generates_six_methods(ast: DeriveInputModel, lit: Seq<char>)
    requires
        crud_outcome(ast, lit) is Ok,
    ensures
        crud_outcome(ast, lit)->Ok_0.len() == 6,
        forall|i: int|
            0 <= i < 6 ==> method_name(#[trigger] crud_outcome(ast, lit)->Ok_0[i])
                == crud_names()[i],
{
    let rs = crud_outcomes(ast, lit);
    lemma_collect_ok_each(rs);
    assert forall|i: int| 0 <= i < rs.len() implies (#[trigger] rs[i] matches Ok(v) ==> v.len()
        == 1) by {
        assert(rs[i] == single(struct_outcome(ast, ast.attrs@, crud_names()[i], lit)));
    }
    lemma_collect_singles(rs);
    assert forall|i: int|
        0 <= i < 6 implies method_name(#[trigger] crud_outcome(ast, lit)->Ok_0[i])
        == crud_names()[i] by {
        assert(rs[i] is Ok);
        let op = crud_names()[i];
        assert(rs[i] == single(struct_outcome(ast, ast.attrs@, op, lit)));
        match ast.data {
            DataInput::Struct(FieldsInput::Named(fs)) => {
                let fsv = Some(fs@);
                let table = crate::utils::table_name_outcome(ast.attrs@)->Ok_0;
                let idents = field_idents_outcome(fsv)->Ok_0;
                let types = crate::field_types::struct_types_outcome(fs@)->Ok_0;
                lemma_method_kind(ast.ident@, table, idents, fs@, types, op, lit);
            },
            _ => {},
        }
    }
}

/// Whether the first of the fields is named `id`.
pub open spec fn first_field_is_id(fs: Seq<FieldInput>) -> bool {
    fs.len() > 0 && (fs[0].ident matches Some(id) && id@ == "id"@)
}

/// The derive accepts only a struct with named fields whose first field is
/// `id`.
pub proof fn law_derive_requires_id_first(ast: DeriveInputModel, lit: Seq<char>)
    requires
        crud_outcome(ast, lit) is Ok,
    ensures
        ast.data matches DataInput::Struct(FieldsInput::Named(fs)) && first_field_is_id(fs@),
{
    let rs = crud_outcomes(ast, lit);
    lemma_collect_ok_each(rs);
    assert(rs[0] == single(struct_outcome(ast, ast.attrs@, crud_names()[0], lit)));
}


/// The names of named fields.
pub open spec fn field_names(fs: Seq<FieldInput>) -> Seq<Seq<char>> {
    fs.map_values(|f: FieldInput| f.ident->Some_0@)
}

proof fn lemma_field_names(fs: Seq<FieldInput>)
    requires
        field_idents_outcome(Some(fs)) is Ok,
    ensures
        field_idents_outcome(Some(fs))->Ok_0 == field_names(fs),
        forall|i: int| 0 <= i < fs.len() ==> #[trigger] fs[i].ident is Some,
{
    let rs = fs.map_values(|f: FieldInput| crate::utils::field_ident_outcome(f));
    lemma_collect_ok_each(rs);
    assert forall|i: int| 0 <= i < rs.len() implies (#[trigger] rs[i] matches Ok(v) ==> v.len()
        == 1) by {
        assert(rs[i] == crate::utils::field_ident_outcome(fs[i]));
    }
    lemma_collect_singles(rs);
    assert forall|i: int| 0 <= i < fs.len() implies #[trigger] fs[i].ident is Some by {
        assert(rs[i] == crate::utils::field_ident_outcome(fs[i]));
    }
    assert(field_idents_outcome(Some(fs)) == collect_all(rs));
    let v = collect_all(rs)->Ok_0;
    assert forall|i: int| 0 <= i < fs.len() implies v[i] == #[trigger] field_names(fs)[i] by {
        assert(rs[i] == crate::utils::field_ident_outcome(fs[i]));
    }
    assert(v =~= field_names(fs));
}

/// The `INSERT` statement names every field but `id` once, in order, gives
/// exactly as many placeholders `?1`, ..., `?k`, and binds exactly as many
/// parameters, the k-th being `data.<k-th column>,`, for the struct
/// `struct_name`.
pub proof fn law_insert_binds_each_column_once(
    struct_name: Seq<char>,
    fs: Seq<FieldInput>,
    attrs: Seq<AttributeInput>,
    lit: Seq<char>,
)
    requires
        mount_outcome(struct_name, Some(fs), attrs, "insert_one"@, lit) is Ok,
    ensures
        ({
            let cols = after_first(field_names(fs));
            &&& cols.len() == fs.len() - 1
            &&& cols.len() >= 1
            &&& mount_outcome(struct_name, Some(fs), attrs, "insert_one"@, lit)->Ok_0
                matches CrudMethodSpec::InsertOne { struct_name: sn, names, values, params, .. }
            &&& sn == struct_name
            &&& names == join(cols, ","@)
            &&& values == join(Seq::new(cols.len(), |k: int| "?"@ + decimal((k + 1) as nat)), ","@)
            &&& params.len() == cols.len()
            &&& forall|k: int| 0 <= k < cols.len() ==> #[trigger] params[k] == "data."@ + cols[k] + ","@
        }),
{
    lemma_crud_names_distinct();
    assert(field_idents_outcome(Some(fs)) is Ok);
    lemma_field_names(fs);
}

/// The `UPDATE` statement sets every field but `id` once, in order, the k-th
/// to the placeholder `?k`, and binds exactly as many parameters; so the
/// `id` of the `WHERE` clause, placeholder `names_len + 1`, is the parameter
/// bound after them.
pub proof fn law_update_binds_each_column_once(
    struct_name: Seq<char>,
    fs: Seq<FieldInput>,
    attrs: Seq<AttributeInput>,
    lit: Seq<char>,
)
    requires
        mount_outcome(struct_name, Some(fs), attrs, "update_one"@, lit) is Ok,
    ensures
        ({
            let cols = after_first(field_names(fs));
            &&& mount_outcome(struct_name, Some(fs), attrs, "update_one"@, lit)->Ok_0
                matches CrudMethodSpec::UpdateOne { struct_name: sn, names_and_values, names_len, params, .. }
            &&& sn == struct_name
            &&& names_and_values == join(
                Seq::new(cols.len(), |k: int| cols[k] + "=?"@ + decimal((k + 1) as nat)),
                ","@,
            )
            &&& names_len == cols.len()
            &&& params.len() == names_len
            &&& forall|k: int| 0 <= k < cols.len() ==> #[trigger] params[k] == "data."@ + cols[k] + ","@
        }),
{
    lemma_crud_names_distinct();
    assert(field_idents_outcome(Some(fs)) is Ok);
    lemma_field_names(fs);
}

/// `read_all` reads every field, `id` included, from the column at its
/// position: `name: row.get(k usize)?,` for the k-th field, into the struct
/// `struct_name`.
pub proof fn law_read_all_reads_every_field(
    struct_name: Seq<char>,
    fs: Seq<FieldInput>,
    attrs: Seq<AttributeInput>,
    lit: Seq<char>,
)
    requires
        mount_outcome(struct_name, Some(fs), attrs, "read_all"@, lit) is Ok,
    ensures
        mount_outcome(struct_name, Some(fs), attrs, "read_all"@, lit)->Ok_0
            matches CrudMethodSpec::ReadAll { struct_name: sn, row_reads, .. } && sn == struct_name
            && row_reads.len() == fs.len() && (forall|k: int|
            0 <= k < fs.len() ==> #[trigger] row_reads[k] == field_names(fs)[k] + ": row.get("@
                + decimal(k as nat) + "usize)?,"@),
{
    lemma_crud_names_distinct();
    assert(field_idents_outcome(Some(fs)) is Ok);
    lemma_field_names(fs);
}


/// Fields whose selection is accepted carry nothing but `#[rusqdrive(...)]`
/// attributes with a list of metas, the `id` field carries none at all, and
/// every field but the first holds exactly one meta named `name`.
pub proof fn law_accepted_fields_carry_only_rusqdrive(name: Seq<char>, fs: Seq<FieldInput>)
    requires
        filter_path_outcome(name, Some(fs)) is Ok,
    ensures
        forall|i: int, j: int|
            0 <= i < fs.len() && 0 <= j < fs[i].attrs@.len() ==> {
                &&& path_is_ident(#[trigger] fs[i].attrs@[j].path, "rusqdrive"@)
                &&& fs[i].attrs@[j].args is Some
                &&& fs[i].ident matches Some(id) && id@ != "id"@
            },
        forall|k: int| 1 <= k < fs.len() ==> #[trigger] one_setting(fs[k], name),
{
    let rs = fields_flags(fs, name);
    lemma_collect_ok_each(rs);
    assert forall|i: int, j: int| 0 <= i < fs.len() && 0 <= j < fs[i].attrs@.len() implies {
        &&& path_is_ident(#[trigger] fs[i].attrs@[j].path, "rusqdrive"@)
        &&& fs[i].attrs@[j].args is Some
        &&& fs[i].ident matches Some(id) && id@ != "id"@
    } by {
        assert(rs[i] == field_flags(fs[i], name, i == 0));
        let f = fs[i];
        let ars = f.attrs@.map_values(|a: AttributeInput| attr_selection(f.ident, a, name));
        assert(field_selection(f, name) == collect_all(ars));
        lemma_collect_ok_each(ars);
        assert(ars[j] == attr_selection(f.ident, f.attrs@[j], name));
    }
    assert forall|k: int| 1 <= k < fs.len() implies #[trigger] one_setting(fs[k], name) by {
        assert(rs[k] == field_flags(fs[k], name, k == 0));
    }
}

/// Whether the `#[rusqdrive(...)]` attributes of a field hold exactly one
/// meta named `name`.
pub open spec fn one_setting(f: FieldInput, name: Seq<char>) -> bool {
    field_selection(f, name) matches Ok(v) && v.len() == 1
}

/// Whether the type of a field is looked up by exactly one text.
pub open spec fn one_type(f: FieldInput) -> bool {
    field_type_texts(f.ty) matches Ok(v) && v.len() == 1
}

/// Whether the type of every field but the first is looked up by exactly
/// one text.
pub open spec fn one_type_each(fs: Seq<FieldInput>) -> bool {
    forall|k: int| 1 <= k < fs.len() ==> one_type(#[trigger] fs[k])
}

/// The column definition of a field other than `id`.
pub open spec fn expected_column(f: FieldInput) -> Seq<char> {
    column_text(
        f.ident->Some_0@,
        sql_type_of(field_type_texts(f.ty)->Ok_0[0])->Some_0,
        if field_selection(f, "not_null"@)->Ok_0[0] {
            "NOT NULL"@
        } else {
            ""@
        },
        if field_selection(f, "unique"@)->Ok_0[0] {
            "UNIQUE"@
        } else {
            ""@
        },
    )
}

/// For fields whose first is `id`, an accepted selection of `name` holds one
/// flag per field after `id`, in order: the k-th is the value of `name` in
/// the attribute of the (k + 1)-th field.
pub proof fn law_one_flag_per_column(fs: Seq<FieldInput>, name: Seq<char>)
    requires
        filter_path_outcome(name, Some(fs)) is Ok,
        first_field_is_id(fs),
    ensures
        filter_path_outcome(name, Some(fs))->Ok_0.len() == fs.len() - 1,
        forall|k: int|
            0 <= k < fs.len() - 1 ==> filter_path_outcome(name, Some(fs))->Ok_0[k]
                == #[trigger] field_selection(fs[k + 1], name)->Ok_0[0],
{
    law_accepted_fields_carry_only_rusqdrive(name, fs);
    let rs = fields_flags(fs, name);
    let rest = rs.subrange(1, rs.len() as int);
    assert(rs =~= seq![rs[0]] + rest);
    assert(fs[0].attrs@.len() == 0) by {
        if fs[0].attrs@.len() > 0 {
            assert(path_is_ident(fs[0].attrs@[0].path, "rusqdrive"@));
        }
    }
    let ars0 = fs[0].attrs@.map_values(|a: AttributeInput| attr_selection(fs[0].ident, a, name));
    assert(ars0 =~= Seq::<Result<Seq<bool>, crate::model::Rejection>>::empty());
    assert(rs[0] == field_flags(fs[0], name, true));
    assert(rs[0] == Ok::<Seq<bool>, crate::model::Rejection>(seq![]));
    lemma_collect_prepend(rs[0], rest);
    assert(collect_all(rs) is Ok);
    assert(collect_all(rest) is Ok);
    assert forall|i: int| 0 <= i < rest.len() implies (#[trigger] rest[i] matches Ok(v) ==> v.len()
        == 1) by {
        assert(rest[i] == field_flags(fs[i + 1], name, false));
        assert(one_setting(fs[i + 1], name));
    }
    lemma_collect_singles(rest);
    assert(collect_all(rs)->Ok_0 =~= collect_all(rest)->Ok_0);
    assert forall|k: int| 0 <= k < fs.len() - 1 implies filter_path_outcome(name, Some(fs))->Ok_0[k]
        == #[trigger] field_selection(fs[k + 1], name)->Ok_0[0] by {
        assert(rest[k] == field_flags(fs[k + 1], name, false));
        assert(one_setting(fs[k + 1], name));
    }
}

proof fn lemma_regular_types(fs: Seq<FieldInput>)
    requires
        struct_types_outcome(fs) is Ok,
        fs.len() >= 1,
        forall|k: int| 1 <= k < fs.len() ==> one_type(#[trigger] fs[k]),
    ensures
        struct_types_outcome(fs)->Ok_0.len() == fs.len() - 1,
        forall|k: int|
            0 <= k < fs.len() - 1 ==> struct_types_outcome(fs)->Ok_0[k]
                == #[trigger] field_type_texts(fs[k + 1].ty)->Ok_0[0],
{
    let rs = after_first(fs).map_values(|f: FieldInput| field_type_texts(f.ty));
    assert(struct_types_outcome(fs) == collect_all(rs));
    assert forall|i: int| 0 <= i < rs.len() implies (#[trigger] rs[i] matches Ok(v) ==> v.len()
        == 1) by {
        assert(rs[i] == field_type_texts(fs[i + 1].ty));
    }
    lemma_collect_singles(rs);
    assert forall|k: int| 0 <= k < fs.len() - 1 implies struct_types_outcome(fs)->Ok_0[k]
        == #[trigger] field_type_texts(fs[k + 1].ty)->Ok_0[0] by {
        assert(rs[k] == field_type_texts(fs[k + 1].ty));
    }
}

proof fn lemma_sql_types_each(types: Seq<Seq<char>>)
    requires
        sql_types_outcome(types) is Ok,
    ensures
        sql_types_outcome(types)->Ok_0.len() == types.len(),
        forall|k: int|
            0 <= k < types.len() ==> sql_type_of(types[k]) is Some && sql_types_outcome(types)->Ok_0[k]
                == sql_type_of(#[trigger] types[k])->Some_0,
{
    let rs = types.map_values(|t: Seq<char>| sql_type_outcome(t));
    lemma_collect_ok_each(rs);
    assert forall|i: int| 0 <= i < rs.len() implies (#[trigger] rs[i] matches Ok(v) ==> v.len()
        == 1) by {
        assert(rs[i] == sql_type_outcome(types[i]));
    }
    lemma_collect_singles(rs);
    assert forall|k: int| 0 <= k < types.len() implies sql_type_of(types[k]) is Some
        && sql_types_outcome(types)->Ok_0[k] == sql_type_of(#[trigger] types[k])->Some_0 by {
        assert(rs[k] == sql_type_outcome(types[k]));
    }
}

/// When the type of every field but `id` is looked up by one text, the
/// `CREATE TABLE` query of an accepted struct has, after the `id` key,
/// exactly one column definition per such field, in order: its name, its
/// SQLite type, `NOT NULL` where set and `UNIQUE` where set.
pub proof fn law_create_table_one_column_per_field(
    ast: DeriveInputModel,
    fs: Vec<FieldInput>,
    lit: Seq<char>,
)
    requires
        ast.data == DataInput::Struct(FieldsInput::Named(fs)),
        one_type_each(fs@),
        struct_outcome(ast, ast.attrs@, "create_table"@, lit) is Ok,
    ensures
        struct_outcome(ast, ast.attrs@, "create_table"@, lit)->Ok_0 == (CrudMethodSpec::CreateTable {
            query: create_query_text(
                lit,
                after_first(fs@).map_values(|f: FieldInput| expected_column(f)),
            ),
        }),
{
    let fs = fs@;
    let attrs = ast.attrs@;
    assert(first_field_is_id(fs));
    assert(field_idents_outcome(Some(fs)) is Ok);
    lemma_field_names(fs);
    let idents = field_names(fs);
    let cols = after_first(idents);
    let types = struct_types_outcome(fs)->Ok_0;
    let nn = filter_path_outcome("not_null"@, Some(fs))->Ok_0;
    let u = filter_path_outcome("unique"@, Some(fs))->Ok_0;
    let st = sql_types_outcome(types)->Ok_0;
    law_one_flag_per_column(fs, "not_null"@);
    law_one_flag_per_column(fs, "unique"@);
    lemma_regular_types(fs);
    lemma_sql_types_each(types);
    let c = column_texts(
        cols,
        st,
        bools_to_texts(nn, "NOT NULL"@, ""@),
        bools_to_texts(u, "UNIQUE"@, ""@),
    );
    let e = after_first(fs).map_values(|f: FieldInput| expected_column(f));
    assert(c.len() == e.len());
    assert forall|k: int| 0 <= k < c.len() implies c[k] == e[k] by {
        assert(cols[k] == idents[k + 1]);
        assert(nn[k] == field_selection(fs[k + 1], "not_null"@)->Ok_0[0]);
        assert(u[k] == field_selection(fs[k + 1], "unique"@)->Ok_0[0]);
        assert(types[k] == field_type_texts(fs[k + 1].ty)->Ok_0[0]);
    }
    assert(c =~= e);
}


/// The metas of a list that are named `name`, in order.
pub open spec fn named_metas(ms: Seq<MetaInput>, name: Seq<char>) -> Seq<MetaInput>
    decreases ms.len(),
{
    if ms.len() == 0 {
        ms
    } else {
        let rest = named_metas(ms.drop_last(), name);
        if path_is_ident(meta_path(ms.last()), name) {
            rest.push(ms.last())
        } else {
            rest
        }
    }
}

proof fn lemma_selection_of_named_metas(ms: Seq<MetaInput>, name: Seq<char>)
    ensures
        collect_all(ms.map_values(|m: MetaInput| meta_selection(m, name))) == collect_all(
            named_metas(ms, name).map_values(|m: MetaInput| meta_selection(m, name)),
        ),
    decreases ms.len(),
{
    let sel = |m: MetaInput| meta_selection(m, name);
    if ms.len() == 0 {
        assert(ms.map_values(sel) =~= named_metas(ms, name).map_values(sel));
    } else {
        let dl = ms.drop_last();
        lemma_selection_of_named_metas(dl, name);
        assert(ms.map_values(sel).drop_last() =~= dl.map_values(sel));
        let nm = named_metas(dl, name);
        if path_is_ident(meta_path(ms.last()), name) {
            assert(named_metas(ms, name).map_values(sel).drop_last() =~= nm.map_values(sel));
        } else {
            assert(named_metas(ms, name) == nm);
            match collect_all(dl.map_values(sel)) {
                Ok(a) => {
                    assert(a + Seq::<bool>::empty() =~= a);
                },
                Err(_) => {},
            }
        }
    }
}

/// Whether two fields read the same for the metas named `name`: the same
/// name, attributes with the same paths, arguments that parse for both or
/// for neither, and the same metas named `name` in each; metas under other
/// names may differ.
pub open spec fn same_selection(f1: FieldInput, f2: FieldInput, name: Seq<char>) -> bool {
    &&& f1.ident == f2.ident
    &&& f1.attrs@.len() == f2.attrs@.len()
    &&& forall|j: int|
        #![trigger f1.attrs@[j]]
        0 <= j < f1.attrs@.len() ==> {
            &&& f1.attrs@[j].path == f2.attrs@[j].path
            &&& (f1.attrs@[j].args is Some) == (f2.attrs@[j].args is Some)
            &&& f1.attrs@[j].args is Some ==> named_metas(f1.attrs@[j].args->Some_0@, name)
                == named_metas(f2.attrs@[j].args->Some_0@, name)
        }
}

/// The flags selected for `name` depend only on the metas named `name`:
/// metas under other names are ignored, wherever they stand.
pub proof fn law_filter_path_ignores_other_names(
    name: Seq<char>,
    fs1: Seq<FieldInput>,
    fs2: Seq<FieldInput>,
)
    requires
        fs1.len() == fs2.len(),
        forall|i: int| 0 <= i < fs1.len() ==> same_selection(#[trigger] fs1[i], fs2[i], name),
    ensures
        filter_path_outcome(name, Some(fs1)) == filter_path_outcome(name, Some(fs2)),
{
    assert forall|i: int| 0 <= i < fs1.len() implies #[trigger] field_selection(fs1[i], name)
        == field_selection(fs2[i], name) by {
        let f1 = fs1[i];
        let f2 = fs2[i];
        assert(same_selection(f1, f2, name));
        let r1 = f1.attrs@.map_values(|a: AttributeInput| attr_selection(f1.ident, a, name));
        let r2 = f2.attrs@.map_values(|a: AttributeInput| attr_selection(f2.ident, a, name));
        assert forall|j: int| 0 <= j < r1.len() implies r1[j] == r2[j] by {
            let a1 = f1.attrs@[j];
            let a2 = f2.attrs@[j];
            if a1.args is Some {
                lemma_selection_of_named_metas(a1.args->Some_0@, name);
                lemma_selection_of_named_metas(a2.args->Some_0@, name);
            }
            assert(r1[j] == attr_selection(f1.ident, a1, name));
            assert(r2[j] == attr_selection(f2.ident, a2, name));
        }
        assert(r1 =~= r2);
    }
    assert forall|i: int| 0 <= i < fs1.len() implies #[trigger] fields_flags(fs1, name)[i]
        == fields_flags(fs2, name)[i] by {
        assert(field_selection(fs1[i], name) == field_selection(fs2[i], name));
    }
    assert(fields_flags(fs1, name) =~= fields_flags(fs2, name));
}

/// Whether `m` is a `CREATE TABLE` whose columns after `id` are named `cols`,
/// in order.
pub open spec fn create_names_columns(m: CrudMethodSpec, lit: Seq<char>, cols: Seq<Seq<char>>) -> bool {
    match m {
        CrudMethodSpec::CreateTable { query } => exists|
            st: Seq<Seq<char>>,
            nn: Seq<Seq<char>>,
            u: Seq<Seq<char>>,
        |
            #![trigger column_texts(cols, st, nn, u)]
            query == create_query_text(lit, column_texts(cols, st, nn, u)),
        _ => false,
    }
}

/// Whether `m` is a `read_all` that reads `cols[k]` from column `k + 1`.
pub open spec fn read_all_reads_columns(m: CrudMethodSpec, cols: Seq<Seq<char>>) -> bool {
    match m {
        CrudMethodSpec::ReadAll { row_reads, .. } => row_reads.len() == cols.len() + 1 && forall|
            k: int,
        |
            0 <= k < cols.len() ==> #[trigger] row_reads[k + 1] == row_read_text(
                cols[k],
                (k + 1) as nat,
            ),
        _ => false,
    }
}

/// Whether `m` is an `insert_one` into the columns `cols`, in order.
pub open spec fn insert_names_columns(m: CrudMethodSpec, cols: Seq<Seq<char>>) -> bool {
    match m {
        CrudMethodSpec::InsertOne { names, .. } => names == join(cols, ","@),
        _ => false,
    }
}

/// Whether `m` is an `update_one` setting the columns `cols`, in order.
pub open spec fn update_sets_columns(m: CrudMethodSpec, cols: Seq<Seq<char>>) -> bool {
    match m {
        CrudMethodSpec::UpdateOne { names_and_values, .. } => names_and_values == join(
            Seq::new(cols.len(), |k: int| cols[k] + "=?"@ + decimal((k + 1) as nat)),
            ","@,
        ),
        _ => false,
    }
}

/// The four methods that name the columns name the same columns in the same
/// order, the fields other than `id` in the order they are declared:
/// `create_table` defines them, `read_all` reads the k-th from column k + 1
/// (column 0 being `id`), `insert_one` inserts into them and `update_one`
/// sets them.
pub proof fn law_columns_in_declaration_order(ast: DeriveInputModel, fs: Vec<FieldInput>, lit: Seq<char>)
    requires
        ast.data == DataInput::Struct(FieldsInput::Named(fs)),
        crud_outcome(ast, lit) is Ok,
    ensures
        ({
            let ms = crud_outcome(ast, lit)->Ok_0;
            let cols = after_first(field_names(fs@));
            &&& create_names_columns(ms[0], lit, cols)
            &&& read_all_reads_columns(ms[2], cols)
            &&& insert_names_columns(ms[3], cols)
            &&& update_sets_columns(ms[4], cols)
        }),
{
    law_derive_generates_six_methods(ast, lit);
    law_derive_requires_id_first(ast, lit);
    let rs = crud_outcomes(ast, lit);
    let ms = crud_outcome(ast, lit)->Ok_0;
    lemma_collect_ok_each(rs);
    assert forall|i: int| 0 <= i < rs.len() implies (#[trigger] rs[i] matches Ok(v) ==> v.len()
        == 1) by {
        assert(rs[i] == single(struct_outcome(ast, ast.attrs@, crud_names()[i], lit)));
    }
    lemma_collect_singles(rs);
    let name = ast.ident@;
    let attrs = ast.attrs@;
    let f = Some(fs@);
    assert forall|i: int| 0 <= i < 6 implies ms[i] == mount_outcome(name, f, attrs, crud_names()[i], lit)->Ok_0
        && #[trigger] mount_outcome(name, f, attrs, crud_names()[i], lit) is Ok by {
        assert(rs[i] == single(struct_outcome(ast, ast.attrs@, crud_names()[i], lit)));
    }
    assert(mount_outcome(name, f, attrs, crud_names()[2], lit) is Ok);
    assert(mount_outcome(name, f, attrs, crud_names()[3], lit) is Ok);
    assert(mount_outcome(name, f, attrs, crud_names()[4], lit) is Ok);
    assert(mount_outcome(name, f, attrs, crud_names()[0], lit) is Ok);
    law_read_all_reads_every_field(name, fs@, attrs, lit);
    law_insert_binds_each_column_once(name, fs@, attrs, lit);
    law_update_binds_each_column_once(name, fs@, attrs, lit);
    assert(field_idents_outcome(f) is Ok);
    lemma_field_names(fs@);
    let cols = after_first(field_names(fs@));
    let ra = ms[2];
    assert(read_all_reads_columns(ra, cols)) by {
        let rr = ra->ReadAll_row_reads;
        assert forall|k: int| 0 <= k < cols.len() implies #[trigger] rr[k + 1] == row_read_text(
            cols[k],
            (k + 1) as nat,
        ) by {
            assert(cols[k] == field_names(fs@)[k + 1]);
        }
    }
    let types = struct_types_outcome(fs@)->Ok_0;
    let nn = filter_path_outcome("not_null"@, f)->Ok_0;
    let u = filter_path_outcome("unique"@, f)->Ok_0;
    let st = sql_types_outcome(types)->Ok_0;
    let nt = bools_to_texts(nn, "NOT NULL"@, ""@);
    let ut = bools_to_texts(u, "UNIQUE"@, ""@);
    assert(ms[0] == (CrudMethodSpec::CreateTable {
        query: create_query_text(lit, column_texts(cols, st, nt, ut)),
    }));
    assert(create_names_columns(ms[0], lit, cols));
}


/// Whether an attribute of the struct has the path `tablename`.
pub open spec fn is_tablename(a: AttributeInput) -> bool {
    path_is_ident(a.path, "tablename"@)
}

/// Whether `v` is the string value of the first attribute of the struct
/// whose path is `tablename`, that attribute being `tablename = "v"`.
pub open spec fn tablename_value(attrs: Seq<AttributeInput>, v: Seq<char>) -> bool {
    exists|i: int|
        0 <= i < attrs.len() && #[trigger] is_tablename(attrs[i]) && (forall|j: int|
            0 <= j < i ==> !is_tablename(#[trigger] attrs[j])) && (attrs[i].meta matches Some(
            MetaInput::NameValue(_, LitInput::Str(s)),
        ) && s@ == v)
}

/// An accepted table name is the string value of the first attribute of the
/// struct whose path is `tablename`; no other attribute (a doc comment, an
/// attribute of another derive) gives it.
pub proof fn law_table_name_from_tablename(attrs: Seq<AttributeInput>)
    requires
        table_name_outcome(attrs) is Ok,
    ensures
        tablename_value(attrs, table_name_outcome(attrs)->Ok_0),
    decreases attrs.len(),
{
    if is_tablename(attrs[0]) {
        assert(is_tablename(attrs[0]));
    } else {
        let rest = attrs.subrange(1, attrs.len() as int);
        law_table_name_from_tablename(rest);
        let i = choose|i: int|
            0 <= i < rest.len() && #[trigger] is_tablename(rest[i]) && (forall|j: int|
                0 <= j < i ==> !is_tablename(#[trigger] rest[j])) && (rest[i].meta matches Some(
                MetaInput::NameValue(_, LitInput::Str(s)),
            ) && s@ == table_name_outcome(rest)->Ok_0);
        assert(attrs[i + 1] == rest[i]);
        assert forall|j: int| 0 <= j < i + 1 implies !is_tablename(#[trigger] attrs[j]) by {
            if j > 0 {
                assert(attrs[j] == rest[j - 1]);
            }
        }
        assert(is_tablename(attrs[i + 1]));
    }
}

} // verus!
