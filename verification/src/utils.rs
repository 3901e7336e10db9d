use vstd::prelude::*;

use crate::model::{
    AttributeInput, DeriveError, FieldInput, LitInput, MetaInput, PathInput, Rejection,
    path_is_ident,
};
use crate::outcome::{collect_all, lemma_collect_step, lemma_take_full, seq_result};
use crate::field_struct::FieldStruct;
use crate::text::{string_eq_str, texts};

verus! {

/// Each flag as `t` where it is set and as `f` where it is not.
pub open spec fn bools_to_texts(input: Seq<bool>, t: Seq<char>, f: Seq<char>) -> Seq<Seq<char>> {
    input.map_values(|b: bool| if b { t } else { f })
}

/// Makes a `Vec<String>` out of a `Vec<bool>`: `output_true` for each `true`,
/// `output_false` for each `false`, in order.
pub fn vec_bool_to_vec_string(input: Vec<bool>, output_true: &str, output_false: &str) -> (r: Vec<String>)
    ensures
        texts(r@) == bools_to_texts(input@, output_true@, output_false@),
{
    let mut out: Vec<String> = Vec::new();
    let mut i: usize = 0;
    while i < input.len()
        invariant
            i <= input@.len(),
            out@.len() == i,
            forall|j: int|
                0 <= j < i ==> #[trigger] out@[j]@ == (if input@[j] {
                    output_true@
                } else {
                    output_false@
                }),
        decreases input@.len() - i,
    {
        if input[i] {
            out.push(String::from_str(output_true));
        } else {
            out.push(String::from_str(output_false));
        }
        i = i + 1;
    }
    assert(texts(out@) =~= bools_to_texts(input@, output_true@, output_false@));
    out
}

/// The SQLite column type of a field type written as text, if it has one.
pub open spec fn sql_type_of(t: Seq<char>) -> Option<Seq<char>> {
    if t == "bool"@ {
        Some("BOOLEAN"@)
    } else if t == "u8"@ || t == "Option<u8>"@ || t == "u16"@ || t == "Option<u16>"@ || t
        == "u32"@ || t == "Option<u32>"@ || t == "u64"@ || t == "Option<u64>"@ || t == "i8"@
        || t == "Option<i8>"@ || t == "i16"@ || t == "Option<i16>"@ || t == "i32"@ || t
        == "Option<i32>"@ || t == "i64"@ || t == "Option<i64>"@ {
        Some("INTEGER"@)
    } else if t == "f32"@ || t == "Option<f32>"@ || t == "f64"@ || t == "Option<f64>"@ {
        Some("DOUBLE"@)
    } else if t == "String"@ || t == "Option<String>"@ {
        Some("TEXT"@)
    } else if t == "DateTime<Utc>"@ || t == "Option<DateTime<Utc>>"@ {
        Some("DATETIME"@)
    } else {
        None
    }
}

/// The outcome of converting one field type.
pub open spec fn sql_type_outcome(t: Seq<char>) -> Result<Seq<Seq<char>>, Rejection> {
    match sql_type_of(t) {
        Some(s) => Ok(seq![s]),
        None => Err(Rejection::UnsupportedType(t)),
    }
}

/// The column types of the field types, or the first type that has none.
pub open spec fn sql_types_outcome(types: Seq<Seq<char>>) -> Result<Seq<Seq<char>>, Rejection> {
    collect_all(types.map_values(|t: Seq<char>| sql_type_outcome(t)))
}

/// The values of a result of strings.
pub open spec fn texts_result(r: Result<Vec<String>, DeriveError>) -> Result<
    Seq<Seq<char>>,
    Rejection,
> {
    match r {
        Ok(v) => Ok(texts(v@)),
        Err(e) => Err(e@),
    }
}

fn is_one_of(t: &String, options: &[&str]) -> (r: bool)
    ensures
        r == exists|i: int| 0 <= i < options@.len() && t@ == options@[i]@,
{
    let mut i: usize = 0;
    while i < options.len()
        invariant
            i <= options@.len(),
            forall|j: int| 0 <= j < i ==> t@ != options@[j]@,
        decreases options@.len() - i,
    {
        if string_eq_str(t, options[i]) {
            return true;
        }
        i = i + 1;
    }
    false
}

/// The SQLite column type of one field type.
pub fn sql_type(t: &String) -> (r: Option<String>)
    ensures
        match r {
            Some(s) => sql_type_of(t@) == Some(s@),
            None => sql_type_of(t@) is None,
        },
{
    if string_eq_str(t, "bool") {
        return Some(String::from_str("BOOLEAN"));
    }
    let integers = [
        "u8",
        "Option<u8>",
        "u16",
        "Option<u16>",
        "u32",
        "Option<u32>",
        "u64",
        "Option<u64>",
        "i8",
        "Option<i8>",
        "i16",
        "Option<i16>",
        "i32",
        "Option<i32>",
        "i64",
        "Option<i64>",
    ];
    if is_one_of(t, &integers) {
        return Some(String::from_str("INTEGER"));
    }
    let doubles = ["f32", "Option<f32>", "f64", "Option<f64>"];
    if is_one_of(t, &doubles) {
        return Some(String::from_str("DOUBLE"));
    }
    let text_types = ["String", "Option<String>"];
    if is_one_of(t, &text_types) {
        return Some(String::from_str("TEXT"));
    }
    let date_times = ["DateTime<Utc>", "Option<DateTime<Utc>>"];
    if is_one_of(t, &date_times) {
        return Some(String::from_str("DATETIME"));
    }
    None
}

/// Converts the field types, written as text, to SQLite column types, or
/// reports the first type that has none.
pub fn try_convert_typ_struct_to_sql3_type(input: Vec<String>) -> (r: Result<Vec<String>, DeriveError>)
    ensures
        texts_result(r) == sql_types_outcome(texts(input@)),
{
    let ghost rs = texts(input@).map_values(|t: Seq<char>| sql_type_outcome(t));
    let mut out: Vec<String> = Vec::new();
    let mut i: usize = 0;
    assert(rs.take(0) =~= Seq::<Result<Seq<Seq<char>>, Rejection>>::empty());
    assert(texts(out@) =~= Seq::<Seq<char>>::empty());
    while i < input.len()
        invariant
            i <= input@.len(),
            rs == texts(input@).map_values(|t: Seq<char>| sql_type_outcome(t)),
            collect_all(rs.take(i as int)) == Ok::<Seq<Seq<char>>, Rejection>(texts(out@)),
        decreases input@.len() - i,
    {
        proof {
            lemma_collect_step(rs, i as int, texts(out@));
        }
        match sql_type(&input[i]) {
            Some(s) => {
                let ghost prev = out@;
                out.push(s);
                assert(texts(out@) =~= texts(prev) + seq![s@]);
                i = i + 1;
            },
            None => {
                return Err(DeriveError::UnsupportedType(input[i].clone()));
            },
        }
    }
    proof {
        lemma_take_full(rs);
    }
    Ok(out)
}


/// The path of a meta item.
pub open spec fn meta_path(m: MetaInput) -> PathInput {
    match m {
        MetaInput::Path(p) => p,
        MetaInput::List(p) => p,
        MetaInput::NameValue(p, _) => p,
    }
}

/// What one meta of a `#[rusqdrive(...)]` attribute contributes when the
/// metas named `name` are selected: nothing when it has another name, its
/// flag when it is `name = true` or `name = false`, a rejection otherwise.
pub open spec fn meta_selection(m: MetaInput, name: Seq<char>) -> Result<Seq<bool>, Rejection> {
    if !path_is_ident(meta_path(m), name) {
        Ok(seq![])
    } else {
        match m {
            MetaInput::NameValue(_, LitInput::Bool(b)) => Ok(seq![b]),
            MetaInput::NameValue(_, _) => Err(Rejection::NonBoolValue),
            _ => Err(Rejection::NotNameValue),
        }
    }
}

/// What one attribute of a field contributes.
pub open spec fn attr_selection(field_ident: Option<String>, a: AttributeInput, name: Seq<char>) -> Result<
    Seq<bool>,
    Rejection,
> {
    match field_ident {
        None => Err(Rejection::UnnamedField),
        Some(id) => if id@ == "id"@ && path_is_ident(a.path, "rusqdrive"@) {
            Err(Rejection::AttributeOnId)
        } else if path_is_ident(a.path, "rusqdrive"@) {
            match a.args {
                None => Err(Rejection::MalformedAttributeArgs),
                Some(ms) => collect_all(ms@.map_values(|m: MetaInput| meta_selection(m, name))),
            }
        } else {
            Err(Rejection::ForeignAttribute)
        },
    }
}

/// What the attributes of one field contribute, in order.
pub open spec fn field_selection(f: FieldInput, name: Seq<char>) -> Result<Seq<bool>, Rejection> {
    collect_all(f.attrs@.map_values(|a: AttributeInput| attr_selection(f.ident, a, name)))
}

/// What one field contributes: the flags its attributes select; a field
/// other than the first (`id`) must select exactly one.
pub open spec fn field_flags(f: FieldInput, name: Seq<char>, first: bool) -> Result<
    Seq<bool>,
    Rejection,
> {
    match field_selection(f, name) {
        Err(e) => Err(e),
        Ok(v) => if first || v.len() == 1 {
            Ok(v)
        } else if v.len() == 0 {
            Err(Rejection::MissingRusqdriveAttributes)
        } else {
            Err(Rejection::DuplicateSetting)
        },
    }
}

/// The outcomes of the fields, in order.
pub open spec fn fields_flags(fs: Seq<FieldInput>, name: Seq<char>) -> Seq<
    Result<Seq<bool>, Rejection>,
> {
    Seq::new(fs.len(), |k: int| field_flags(fs[k], name, k == 0))
}

/// The flag of the meta named `name` in the `#[rusqdrive(...)]` attributes
/// of each field but the first, in order, or the first reason to reject the
/// fields.
pub open spec fn filter_path_outcome(name: Seq<char>, fields: Option<Seq<FieldInput>>) -> Result<
    Seq<bool>,
    Rejection,
> {
    match fields {
        None => Err(Rejection::MissingFields),
        Some(fs) => collect_all(fields_flags(fs, name)),
    }
}

impl MetaInput {
    /// The path of this meta.
    pub fn path(&self) -> (r: &PathInput)
        ensures
            *r == meta_path(*self),
    {
        match self {
            MetaInput::Path(p) => p,
            MetaInput::List(p) => p,
            MetaInput::NameValue(p, _) => p,
        }
    }
}

fn meta_selection_exec(m: &MetaInput, name: &str) -> (r: Result<Vec<bool>, DeriveError>)
    ensures
        seq_result(r) == meta_selection(*m, name@),
{
    if !m.path().is_ident(name) {
        return Ok(Vec::new());
    }
    match m {
        MetaInput::NameValue(_, LitInput::Bool(b)) => {
            let mut v = Vec::new();
            v.push(*b);
            Ok(v)
        },
        MetaInput::NameValue(_, _) => Err(DeriveError::NonBoolValue),
        _ => Err(DeriveError::NotNameValue),
    }
}

fn attr_selection_exec(field_ident: &Option<String>, a: &AttributeInput, name: &str) -> (r: Result<
    Vec<bool>,
    DeriveError,
>)
    ensures
        seq_result(r) == attr_selection(*field_ident, *a, name@),
{
    let id = match field_ident {
        None => {
            return Err(DeriveError::UnnamedField);
        },
        Some(id) => id,
    };
    let is_rusqdrive = a.path.is_ident("rusqdrive");
    if string_eq_str(id, "id") && is_rusqdrive {
        return Err(DeriveError::AttributeOnId);
    }
    if !is_rusqdrive {
        return Err(DeriveError::ForeignAttribute);
    }
    let metas = match &a.args {
        None => {
            return Err(DeriveError::MalformedAttributeArgs);
        },
        Some(ms) => ms,
    };
    let ghost rs = metas@.map_values(|m: MetaInput| meta_selection(m, name@));
    assert(attr_selection(*field_ident, *a, name@) == collect_all(rs));
    let mut out: Vec<bool> = Vec::new();
    let mut i: usize = 0;
    assert(rs.take(0) =~= Seq::<Result<Seq<bool>, Rejection>>::empty());
    while i < metas.len()
        invariant
            i <= metas@.len(),
            rs == metas@.map_values(|m: MetaInput| meta_selection(m, name@)),
            attr_selection(*field_ident, *a, name@) == collect_all(rs),
            collect_all(rs.take(i as int)) == Ok::<Seq<bool>, Rejection>(out@),
        decreases metas@.len() - i,
    {
        proof {
            lemma_collect_step(rs, i as int, out@);
        }
        let mut step = match meta_selection_exec(&metas[i], name) {
            Ok(v) => v,
            Err(e) => {
                return Err(e);
            },
        };
        out.append(&mut step);
        i = i + 1;
    }
    proof {
        lemma_take_full(rs);
    }
    Ok(out)
}

fn field_selection_exec(f: &FieldInput, name: &str) -> (r: Result<Vec<bool>, DeriveError>)
    ensures
        seq_result(r) == field_selection(*f, name@),
{
    let ghost rs = f.attrs@.map_values(|a: AttributeInput| attr_selection(f.ident, a, name@));
    let mut out: Vec<bool> = Vec::new();
    let mut i: usize = 0;
    assert(rs.take(0) =~= Seq::<Result<Seq<bool>, Rejection>>::empty());
    while i < f.attrs.len()
        invariant
            i <= f.attrs@.len(),
            rs == f.attrs@.map_values(|a: AttributeInput| attr_selection(f.ident, a, name@)),
            collect_all(rs.take(i as int)) == Ok::<Seq<bool>, Rejection>(out@),
        decreases f.attrs@.len() - i,
    {
        proof {
            lemma_collect_step(rs, i as int, out@);
        }
        let mut step = match attr_selection_exec(&f.ident, &f.attrs[i], name) {
            Ok(v) => v,
            Err(e) => {
                return Err(e);
            },
        };
        out.append(&mut step);
        i = i + 1;
    }
    proof {
        lemma_take_full(rs);
    }
    Ok(out)
}

/// The flag of the meta named `ident_name` in the `#[rusqdrive(...)]`
/// attributes of each field but the first, in order, or the first reason to
/// reject the fields: fields missing, a field without a name that carries an
/// attribute, `#[rusqdrive(...)]` on `id`, an attribute other than
/// `#[rusqdrive(...)]`, arguments that are no list of metas, a selected meta
/// that is not `ident_name = true|false`, a field but the first with no meta
/// named `ident_name` or with more than one.
pub fn try_filter_path(ident_name: &str, fields: Option<&Vec<FieldInput>>) -> (r: Result<
    Vec<bool>,
    DeriveError,
>)
    ensures
        seq_result(r) == filter_path_outcome(
            ident_name@,
            match fields {
                Some(fs) => Some(fs@),
                None => None,
            },
        ),
{
    let fs = match fields {
        None => {
            return Err(DeriveError::MissingFields);
        },
        Some(fs) => fs,
    };
    let ghost rs = fields_flags(fs@, ident_name@);
    let mut out: Vec<bool> = Vec::new();
    let mut i: usize = 0;
    assert(rs.take(0) =~= Seq::<Result<Seq<bool>, Rejection>>::empty());
    while i < fs.len()
        invariant
            i <= fs@.len(),
            rs == fields_flags(fs@, ident_name@),
            fields == Some(fs),
            collect_all(rs.take(i as int)) == Ok::<Seq<bool>, Rejection>(out@),
        decreases fs@.len() - i,
    {
        proof {
            lemma_collect_step(rs, i as int, out@);
        }
        let mut step = match field_selection_exec(&fs[i], ident_name) {
            Ok(v) => v,
            Err(e) => {
                return Err(e);
            },
        };
        if i > 0 {
            if step.len() == 0 {
                return Err(DeriveError::MissingRusqdriveAttributes);
            }
            if step.len() > 1 {
                return Err(DeriveError::DuplicateSetting);
            }
        }
        out.append(&mut step);
        i = i + 1;
    }
    proof {
        lemma_take_full(rs);
    }
    Ok(out)
}


/// The value of the table name, from the first attribute of the struct whose
/// path is `tablename`, which must be `tablename = "value"`; the attributes
/// before it (doc comments, other derives' attributes) are passed over.
pub open spec fn table_name_outcome(attrs: Seq<AttributeInput>) -> Result<Seq<char>, Rejection>
    decreases attrs.len(),
{
    if attrs.len() == 0 {
        Err(Rejection::MissingTableName)
    } else if path_is_ident(attrs[0].path, "tablename"@) {
        match attrs[0].meta {
            None => Err(Rejection::MalformedTableName),
            Some(MetaInput::NameValue(_, LitInput::Str(s))) => Ok(s@),
            Some(MetaInput::NameValue(_, _)) => Err(Rejection::TableNameNotString),
            Some(_) => Err(Rejection::TableNameNotNameValue),
        }
    } else {
        table_name_outcome(attrs.subrange(1, attrs.len() as int))
    }
}

/// The value of an executable text outcome.
pub open spec fn text_result(r: Result<String, DeriveError>) -> Result<Seq<char>, Rejection> {
    match r {
        Ok(s) => Ok(s@),
        Err(e) => Err(e@),
    }
}

/// The value of `#[tablename = "users"]`, or the reason there is no such
/// attribute of the form `tablename = "string"`.
pub fn try_obtain_table_name(attrs: &Vec<AttributeInput>) -> (r: Result<String, DeriveError>)
    ensures
        text_result(r) == table_name_outcome(attrs@),
{
    let mut i: usize = 0;
    assert(attrs@.subrange(0, attrs@.len() as int) =~= attrs@);
    while i < attrs.len()
        invariant
            i <= attrs@.len(),
            table_name_outcome(attrs@) == table_name_outcome(
                attrs@.subrange(i as int, attrs@.len() as int),
            ),
        decreases attrs@.len() - i,
    {
        let ghost rest = attrs@.subrange(i as int, attrs@.len() as int);
        if attrs[i].path.is_ident("tablename") {
            assert(rest[0] == attrs@[i as int]);
            return match &attrs[i].meta {
                None => Err(DeriveError::MalformedTableName),
                Some(MetaInput::NameValue(_, LitInput::Str(s))) => Ok(s.clone()),
                Some(MetaInput::NameValue(_, _)) => Err(DeriveError::TableNameNotString),
                Some(_) => Err(DeriveError::TableNameNotNameValue),
            };
        }
        assert(rest.subrange(1, rest.len() as int) =~= attrs@.subrange(
            i + 1,
            attrs@.len() as int,
        ));
        i = i + 1;
    }
    Err(DeriveError::MissingTableName)
}

/// What one field contributes to the list of field names.
pub open spec fn field_ident_outcome(f: FieldInput) -> Result<Seq<Seq<char>>, Rejection> {
    match f.ident {
        Some(s) => Ok(seq![s@]),
        None => Err(Rejection::UnnamedField),
    }
}

/// The names of all the fields, or the rejection of an unnamed one.
pub open spec fn field_idents_outcome(fields: Option<Seq<FieldInput>>) -> Result<
    Seq<Seq<char>>,
    Rejection,
> {
    match fields {
        None => Err(Rejection::MissingFields),
        Some(fs) => collect_all(fs.map_values(|f: FieldInput| field_ident_outcome(f))),
    }
}

/// The names of field holders.
pub open spec fn field_struct_names(v: Seq<FieldStruct>) -> Seq<Seq<char>> {
    v.map_values(|f: FieldStruct| f@)
}

/// One [`FieldStruct`] per field, in order, or the rejection of a field
/// without a name.
pub fn try_obtain_fields_struct(fields: Option<&Vec<FieldInput>>) -> (r: Result<
    Vec<FieldStruct>,
    DeriveError,
>)
    ensures
        match r {
            Ok(v) => field_idents_outcome(
                match fields {
                    Some(fs) => Some(fs@),
                    None => None,
                },
            ) == Ok::<Seq<Seq<char>>, Rejection>(field_struct_names(v@)),
            Err(e) => field_idents_outcome(
                match fields {
                    Some(fs) => Some(fs@),
                    None => None,
                },
            ) == Err::<Seq<Seq<char>>, Rejection>(e@),
        },
{
    let fs = match fields {
        None => {
            return Err(DeriveError::MissingFields);
        },
        Some(fs) => fs,
    };
    let ghost rs = fs@.map_values(|f: FieldInput| field_ident_outcome(f));
    let mut out: Vec<FieldStruct> = Vec::new();
    let mut i: usize = 0;
    assert(rs.take(0) =~= Seq::<Result<Seq<Seq<char>>, Rejection>>::empty());
    assert(field_struct_names(out@) =~= Seq::<Seq<char>>::empty());
    while i < fs.len()
        invariant
            i <= fs@.len(),
            rs == fs@.map_values(|f: FieldInput| field_ident_outcome(f)),
            fields == Some(fs),
            collect_all(rs.take(i as int)) == Ok::<Seq<Seq<char>>, Rejection>(
                field_struct_names(out@),
            ),
        decreases fs@.len() - i,
    {
        proof {
            lemma_collect_step(rs, i as int, field_struct_names(out@));
        }
        if fs[i].ident.is_none() {
            return Err(DeriveError::UnnamedField);
        }
        let f = FieldStruct::new(&fs[i]);
        let ghost prev = out@;
        out.push(f);
        assert(field_struct_names(out@) =~= field_struct_names(prev) + seq![f@]);
        i = i + 1;
    }
    proof {
        lemma_take_full(rs);
    }
    Ok(out)
}


/// The fields as an optional sequence.
pub open spec fn fields_view(fields: Option<&Vec<FieldInput>>) -> Option<Seq<FieldInput>> {
    match fields {
        Some(fs) => Some(fs@),
        None => None,
    }
}

/// Converts the field types, written as text, to SQLite column types:
/// `bool` to `BOOLEAN`, the integer types up to 64 bits (and `Option` of
/// them) to `INTEGER`, `f32`/`f64` (and `Option` of them) to `DOUBLE`,
/// `String` and `Option<String>` to `TEXT`, `DateTime<Utc>` and
/// `Option<DateTime<Utc>>` to `DATETIME`. Every type must be one of these.
pub fn convert_typ_struct_to_sql3_type(input: Vec<String>) -> (r: Vec<String>)
    requires
        sql_types_outcome(texts(input@)) is Ok,
    ensures
        texts(r@) == sql_types_outcome(texts(input@))->Ok_0,
{
    match try_convert_typ_struct_to_sql3_type(input) {
        Ok(v) => v,
        Err(_) => Vec::new(),
    }
}

/// The flag of the meta named `ident_name` in the `#[rusqdrive(...)]`
/// attributes of each field but the first (`id`), in order. The fields must
/// be given; every attribute of every field must be `#[rusqdrive(...)]` with
/// a list of metas, on a named field other than `id`; every meta named
/// `ident_name` must be `ident_name = true` or `ident_name = false`; and each
/// field but the first must have exactly one such meta.
pub fn filter_path(ident_name: &str, fields: Option<&Vec<FieldInput>>) -> (r: Vec<bool>)
    requires
        filter_path_outcome(ident_name@, fields_view(fields)) is Ok,
    ensures
        r@ == filter_path_outcome(ident_name@, fields_view(fields))->Ok_0,
{
    match try_filter_path(ident_name, fields) {
        Ok(v) => v,
        Err(_) => Vec::new(),
    }
}

/// The value of `#[tablename = "users"]`: the string value of the first
/// attribute of the struct named `tablename`, which must be
/// `tablename = "string"`.
pub fn obtain_table_name(attrs: &Vec<AttributeInput>) -> (r: String)
    requires
        table_name_outcome(attrs@) is Ok,
    ensures
        r@ == table_name_outcome(attrs@)->Ok_0,
{
    match try_obtain_table_name(attrs) {
        Ok(t) => t,
        Err(_) => String::new(),
    }
}

/// One [`FieldStruct`] per field, in order; the fields must be given and
/// all be named.
pub fn obtain_fields_struct(fields: Option<&Vec<FieldInput>>) -> (r: Vec<FieldStruct>)
    requires
        field_idents_outcome(fields_view(fields)) is Ok,
    ensures
        field_struct_names(r@) == field_idents_outcome(fields_view(fields))->Ok_0,
{
    match try_obtain_fields_struct(fields) {
        Ok(v) => v,
        Err(_) => Vec::new(),
    }
}

} // verus!
