use rusqdrive::create_table::CreateTable;
use rusqdrive::derive::{
    assignments, check_derive_input, create_table_query, create_table_rows, crud_methods,
    mount_struct, mount_struct_with_literal, obtain_data_from_struct, obtain_struct, placeholders,
    CrudMethod,
};
use rusqdrive::field_struct::FieldStruct;
use rusqdrive::model::{
    AttributeInput, DataInput, DeriveError, DeriveInputModel, FieldInput, FieldsInput,
    GenericArgumentInput, LitInput, MetaInput, PathArgumentsInput, PathInput, PathSegmentInput,
    TypeInput,
};
use rusqdrive::text::{decimal_string, join_strings, trim_end};
use rusqdrive::utils::{
    convert_typ_struct_to_sql3_type, filter_path, obtain_fields_struct, obtain_table_name,
    sql_type, try_filter_path, try_obtain_table_name, vec_bool_to_vec_string,
};

fn ident_path(name: &str) -> PathInput {
    PathInput {
        leading_colon: false,
        segments: vec![PathSegmentInput {
            ident: name.to_string(),
            arguments: PathArgumentsInput::Empty,
        }],
    }
}

fn generic_path(name: &str, args: Vec<TypeInput>) -> PathInput {
    PathInput {
        leading_colon: false,
        segments: vec![PathSegmentInput {
            ident: name.to_string(),
            arguments: PathArgumentsInput::AngleBracketed(
                args.into_iter().map(GenericArgumentInput::Type).collect(),
            ),
        }],
    }
}

fn ty(name: &str) -> TypeInput {
    TypeInput::Path(ident_path(name))
}

fn generic(name: &str, args: Vec<TypeInput>) -> TypeInput {
    TypeInput::Path(generic_path(name, args))
}

fn name_value_bool(name: &str, value: bool) -> MetaInput {
    MetaInput::NameValue(ident_path(name), LitInput::Bool(value))
}

fn rusqdrive_attr(metas: Vec<MetaInput>) -> AttributeInput {
    AttributeInput { path: ident_path("rusqdrive"), meta: None, args: Some(metas) }
}

fn settings(not_null: bool, unique: bool) -> AttributeInput {
    rusqdrive_attr(vec![name_value_bool("not_null", not_null), name_value_bool("unique", unique)])
}

fn field(name: &str, t: TypeInput, attrs: Vec<AttributeInput>) -> FieldInput {
    FieldInput { ident: Some(name.to_string()), ty: t, attrs }
}

fn tablename_attr(value: &str) -> AttributeInput {
    AttributeInput {
        path: ident_path("tablename"),
        meta: Some(MetaInput::NameValue(
            ident_path("tablename"),
            LitInput::Str(value.to_string()),
        )),
        args: None,
    }
}

/// The fields of the `User` example: id, name, age, alive, created_at, updated_at.
fn user_fields(not_null_name: bool) -> Vec<FieldInput> {
    vec![
        field("id", generic("Option", vec![ty("i32")]), vec![]),
        field("name", generic("Option", vec![ty("String")]), vec![settings(not_null_name, false)]),
        field("age", ty("u8"), vec![settings(false, false)]),
        field("alive", ty("bool"), vec![settings(false, false)]),
        field("created_at", generic("DateTime", vec![ty("Utc")]), vec![settings(false, false)]),
        field(
            "updated_at",
            generic("Option", vec![generic("DateTime", vec![ty("Utc")])]),
            vec![settings(false, false)],
        ),
    ]
}

fn user(not_null_name: bool) -> DeriveInputModel {
    DeriveInputModel {
        ident: "User".to_string(),
        attrs: vec![tablename_attr("users")],
        data: DataInput::Struct(FieldsInput::Named(user_fields(not_null_name))),
    }
}

fn strings(v: &[&str]) -> Vec<String> {
    v.iter().map(|s| s.to_string()).collect()
}


/// A struct named `User` stored in `users`, with the given fields.
fn with_fields(fields: Vec<FieldInput>) -> DeriveInputModel {
    DeriveInputModel {
        ident: "User".to_string(),
        attrs: vec![tablename_attr("users")],
        data: DataInput::Struct(FieldsInput::Named(fields)),
    }
}

/// The `User` example with one more field.
fn user_plus(extra: FieldInput) -> DeriveInputModel {
    let mut fs = user_fields(false);
    fs.push(extra);
    with_fields(fs)
}

fn rejection(ast: &DeriveInputModel) -> DeriveError {
    check_derive_input(ast).unwrap_err()
}

fn create_query(ast: &DeriveInputModel) -> String {
    match &crud_methods(ast)[0] {
        CrudMethod::CreateTable { query } => query.clone(),
        _ => panic!("expected create_table"),
    }
}

#[test]
fn vec_bool_to_vec_string_maps_each_flag() {
    let r = vec_bool_to_vec_string(vec![true, false, true], "NOT NULL", "");
    assert_eq!(r, strings(&["NOT NULL", "", "NOT NULL"]));
    assert!(vec_bool_to_vec_string(vec![], "UNIQUE", "").is_empty());
}

#[test]
fn convert_types_to_sqlite_types() {
    let input = strings(&[
        "bool",
        "u8",
        "Option<i64>",
        "f32",
        "Option<f64>",
        "String",
        "Option<String>",
        "DateTime<Utc>",
        "Option<DateTime<Utc>>",
    ]);
    let r = convert_typ_struct_to_sql3_type(input);
    assert_eq!(
        r,
        strings(&[
            "BOOLEAN", "INTEGER", "INTEGER", "DOUBLE", "DOUBLE", "TEXT", "TEXT", "DATETIME",
            "DATETIME"
        ])
    );
    assert_eq!(sql_type(&"Option<bool>".to_string()), None);
    assert_eq!(sql_type(&"usize".to_string()), None);
    assert_eq!(sql_type(&"i32".to_string()), Some("INTEGER".to_string()));
}

#[test]
fn unsupported_type_is_rejected_by_its_text() {
    let ast = user_plus(field("tags", generic("Vec", vec![ty("u8")]), vec![settings(false, false)]));
    assert_eq!(rejection(&ast), DeriveError::UnsupportedType("Vec<u8>".to_string()));
    let ast = user_plus(field("flag", generic("Option", vec![ty("bool")]), vec![settings(false, false)]));
    assert_eq!(rejection(&ast), DeriveError::UnsupportedType("Option<bool>".to_string()));
    let ast = user_plus(field(
        "pair",
        generic("Result", vec![ty("i32"), ty("String")]),
        vec![settings(false, false)],
    ));
    assert_eq!(rejection(&ast), DeriveError::UnsupportedType("Result<i32>".to_string()));
}

#[test]
fn filter_path_selects_named_flags_in_order() {
    let fs = user_fields(true);
    assert_eq!(filter_path("not_null", Some(&fs)), vec![true, false, false, false, false]);
    assert_eq!(filter_path("unique", Some(&fs)), vec![false; 5]);
    assert_eq!(try_filter_path("other", Some(&fs)), Err(DeriveError::MissingRusqdriveAttributes));
    let mut extra = user_fields(true);
    extra[1].attrs[0].args.as_mut().unwrap().push(name_value_bool("indexed", true));
    assert_eq!(filter_path("not_null", Some(&extra)), vec![true, false, false, false, false]);
}

#[test]
fn attribute_rejections() {
    let mut on_id = user_fields(false);
    on_id[0].attrs.push(settings(true, true));
    assert_eq!(rejection(&with_fields(on_id)), DeriveError::AttributeOnId);

    let foreign = user_plus(field(
        "note",
        ty("String"),
        vec![AttributeInput { path: ident_path("serde"), meta: None, args: Some(vec![]) }],
    ));
    assert_eq!(rejection(&foreign), DeriveError::ForeignAttribute);

    let malformed = user_plus(field(
        "note",
        ty("String"),
        vec![AttributeInput { path: ident_path("rusqdrive"), meta: None, args: None }],
    ));
    assert_eq!(rejection(&malformed), DeriveError::MalformedAttributeArgs);

    let not_bool = user_plus(field(
        "note",
        ty("String"),
        vec![rusqdrive_attr(vec![MetaInput::NameValue(
            ident_path("not_null"),
            LitInput::Str("yes".to_string()),
        )])],
    ));
    assert_eq!(rejection(&not_bool), DeriveError::NonBoolValue);

    let not_name_value = user_plus(field(
        "note",
        ty("String"),
        vec![rusqdrive_attr(vec![MetaInput::Path(ident_path("not_null"))])],
    ));
    assert_eq!(rejection(&not_name_value), DeriveError::NotNameValue);

    let missing = user_plus(field("note", ty("String"), vec![]));
    assert_eq!(rejection(&missing), DeriveError::MissingRusqdriveAttributes);

    let unnamed = user_plus(FieldInput { ident: None, ty: ty("u8"), attrs: vec![settings(true, true)] });
    assert_eq!(rejection(&unnamed), DeriveError::UnnamedField);
}

#[test]
fn table_name_rejections() {
    assert_eq!(obtain_table_name(&vec![tablename_attr("users")]), "users");
    let mut ast = user(false);
    ast.attrs = vec![];
    assert_eq!(rejection(&ast), DeriveError::MissingTableName);
    ast.attrs = vec![AttributeInput { path: ident_path("tablename"), meta: None, args: None }];
    assert_eq!(rejection(&ast), DeriveError::MalformedTableName);
    ast.attrs = vec![AttributeInput {
        path: ident_path("tablename"),
        meta: Some(MetaInput::NameValue(ident_path("tablename"), LitInput::Bool(true))),
        args: None,
    }];
    assert_eq!(rejection(&ast), DeriveError::TableNameNotString);
    ast.attrs = vec![AttributeInput {
        path: ident_path("tablename"),
        meta: Some(MetaInput::List(ident_path("tablename"))),
        args: Some(vec![]),
    }];
    assert_eq!(rejection(&ast), DeriveError::TableNameNotNameValue);
}

fn doc_attr(text: &str) -> AttributeInput {
    AttributeInput {
        path: ident_path("doc"),
        meta: Some(MetaInput::NameValue(ident_path("doc"), LitInput::Str(text.to_string()))),
        args: None,
    }
}

#[test]
fn table_name_comes_from_tablename_only() {
    let attrs = vec![doc_attr(" A user"), tablename_attr("users")];
    assert_eq!(obtain_table_name(&attrs), "users");
    assert_eq!(try_obtain_table_name(&vec![doc_attr(" A user")]), Err(DeriveError::MissingTableName));
    let mut ast = user(false);
    ast.attrs = vec![doc_attr(" A user"), tablename_attr("people")];
    assert!(create_query(&ast).starts_with("CREATE TABLE IF NOT EXISTS \"people\" (id"));
    ast.attrs = vec![doc_attr(" A user")];
    assert_eq!(rejection(&ast), DeriveError::MissingTableName);
}

#[test]
fn each_setting_once_per_field() {
    let only_not_null = user_plus(field(
        "note",
        ty("String"),
        vec![rusqdrive_attr(vec![name_value_bool("not_null", true)])],
    ));
    assert_eq!(rejection(&only_not_null), DeriveError::MissingRusqdriveAttributes);

    let twice_in_one = user_plus(field(
        "note",
        ty("String"),
        vec![rusqdrive_attr(vec![
            name_value_bool("not_null", true),
            name_value_bool("unique", false),
            name_value_bool("not_null", false),
        ])],
    ));
    assert_eq!(rejection(&twice_in_one), DeriveError::DuplicateSetting);

    let shifted = || {
        let mut fs = user_fields(false);
        fs[1].attrs.push(settings(true, true));
        fs[2].attrs.clear();
        fs
    };
    assert_eq!(rejection(&with_fields(shifted())), DeriveError::DuplicateSetting);
    assert_eq!(try_filter_path("unique", Some(&shifted())), Err(DeriveError::DuplicateSetting));

    let mut bare = user_fields(false);
    bare[3].attrs.clear();
    assert_eq!(try_filter_path("not_null", Some(&bare)), Err(DeriveError::MissingRusqdriveAttributes));
}

#[test]
fn field_struct_code_pieces() {
    let f = FieldStruct::new(&field("name", ty("String"), vec![]));
    assert_eq!(f.only_names(), "name");
    assert_eq!(f.as_row_read_all(3), "name: row.get(3usize)?,");
    assert_eq!(f.as_row_read_all(12), "name: row.get(12usize)?,");
    assert_eq!(f.as_params(), "data.name,");
}

#[test]
fn obtain_fields_struct_keeps_order() {
    let fs = user_fields(false);
    let v = obtain_fields_struct(Some(&fs));
    let names: Vec<String> = v.iter().map(|f| f.only_names()).collect();
    assert_eq!(names, strings(&["id", "name", "age", "alive", "created_at", "updated_at"]));
}

#[test]
fn date_time_of_any_zone_in_option_is_datetime() {
    let ast = user_plus(field(
        "seen_at",
        generic("Option", vec![generic("DateTime", vec![ty("Local")])]),
        vec![settings(false, false)],
    ));
    assert!(create_query(&ast).ends_with(",seen_at DATETIME);"));
}

#[test]
fn field_type_rejections() {
    let other = user_plus(field("pair", TypeInput::Other, vec![settings(false, false)]));
    assert_eq!(rejection(&other), DeriveError::OnlyPrimitiveTypes);
    let two_segments = || {
        TypeInput::Path(PathInput {
            leading_colon: false,
            segments: vec![
                PathSegmentInput { ident: "chrono".to_string(), arguments: PathArgumentsInput::Empty },
                PathSegmentInput { ident: "Utc".to_string(), arguments: PathArgumentsInput::Empty },
            ],
        })
    };
    let ast = user_plus(field("zone", two_segments(), vec![settings(false, false)]));
    assert_eq!(rejection(&ast), DeriveError::TypeNotAllowed);
    let ast = user_plus(field("zone", generic("Option", vec![two_segments()]), vec![settings(false, false)]));
    assert_eq!(rejection(&ast), DeriveError::OnlyPrimitiveOrOption);
    let ast = user_plus(field("d", generic("Option", vec![ty("DateTime")]), vec![settings(false, false)]));
    assert_eq!(rejection(&ast), DeriveError::UnsupportedDateTimeShape);
    let ast = user_plus(field(
        "d",
        generic("Option", vec![generic("DateTime", vec![])]),
        vec![settings(false, false)],
    ));
    assert_eq!(rejection(&ast), DeriveError::EmptyDateTimeArguments);
    let ast = user_plus(field("d", generic("Option", vec![TypeInput::Other]), vec![settings(false, false)]));
    assert_eq!(rejection(&ast), DeriveError::UnexpectedTypeShape);
    let parenthesized = TypeInput::Path(PathInput {
        leading_colon: false,
        segments: vec![PathSegmentInput {
            ident: "Fn".to_string(),
            arguments: PathArgumentsInput::Parenthesized,
        }],
    });
    let ast = user_plus(field("f", parenthesized, vec![settings(false, false)]));
    assert_eq!(rejection(&ast), DeriveError::UnexpectedTypeShape);
    let leading = TypeInput::Path(PathInput { leading_colon: true, ..ident_path("u8") });
    let ast = user_plus(field("n", leading, vec![settings(false, false)]));
    assert_eq!(rejection(&ast), DeriveError::TypeNotAllowed);
}

#[test]
fn text_helpers() {
    assert_eq!(decimal_string(0), "0");
    assert_eq!(decimal_string(7), "7");
    assert_eq!(decimal_string(10), "10");
    assert_eq!(decimal_string(12345), "12345");
    assert_eq!(decimal_string(usize::MAX), usize::MAX.to_string());
    assert_eq!(trim_end("abc  \t\n"), "abc");
    assert_eq!(trim_end("a b\u{3000}\u{2009}"), "a b");
    assert_eq!(trim_end("   "), "");
    assert_eq!(trim_end("x,"), "x,");
    assert_eq!(join_strings(&strings(&["a", "b", "c"]), ","), "a,b,c");
    assert_eq!(join_strings(&strings(&["a"]), ","), "a");
    assert_eq!(join_strings(&vec![], ","), "");
    assert_eq!(placeholders(3), "?1,?2,?3");
    assert_eq!(placeholders(1), "?1");
    assert_eq!(placeholders(0), "");
    assert_eq!(assignments(&strings(&["name", "age"])), "name=?1,age=?2");
}

#[test]
fn create_table_rows_pair_up_to_shortest() {
    let rows = create_table_rows(
        &strings(&["a", "b", "c"]),
        &strings(&["TEXT", "INTEGER"]),
        &strings(&["NOT NULL", "", ""]),
        &strings(&["", "UNIQUE", ""]),
    );
    assert_eq!(rows.len(), 2);
    assert_eq!(rows[0].not_null, "NOT NULL");
    assert_eq!(rows[1].col, "b");
    assert_eq!(rows[1].typ, "INTEGER");
    assert_eq!(rows[1].not_null, "");
    assert_eq!(rows[1].unique, "UNIQUE");
    let d = CreateTable::default();
    assert_eq!(d.col, "");
    assert_eq!(d.unique, "");
}

#[test]
fn create_table_query_text() {
    let rows = create_table_rows(
        &strings(&["name", "age"]),
        &strings(&["TEXT", "INTEGER"]),
        &strings(&["NOT NULL", ""]),
        &strings(&["", ""]),
    );
    assert_eq!(
        create_table_query("\"people\"", &rows),
        "CREATE TABLE IF NOT EXISTS \"people\" (id INTEGER NOT NULL PRIMARY KEY AUTOINCREMENT UNIQUE,name TEXT NOT NULL ,age INTEGER);"
    );
    assert_eq!(
        create_table_query("\"t\"", &vec![]),
        "CREATE TABLE IF NOT EXISTS \"t\" (id INTEGER NOT NULL PRIMARY KEY AUTOINCREMENT UNIQUE,);"
    );
}

#[test]
fn mount_struct_create_table_for_user() {
    let ast = user(true);
    let fs = user_fields(true);
    match mount_struct(&ast, Some(&fs), &ast.attrs, "create_table".to_string()) {
        CrudMethod::CreateTable { query } => assert_eq!(
            query,
            "CREATE TABLE IF NOT EXISTS \"users\" (id INTEGER NOT NULL PRIMARY KEY AUTOINCREMENT UNIQUE,name TEXT NOT NULL ,age INTEGER  ,alive BOOLEAN  ,created_at DATETIME  ,updated_at DATETIME);"
        ),
        _ => panic!("expected create_table"),
    }
    let plain = user(false);
    assert_eq!(
        create_query(&plain),
        "CREATE TABLE IF NOT EXISTS \"users\" (id INTEGER NOT NULL PRIMARY KEY AUTOINCREMENT UNIQUE,name TEXT  ,age INTEGER  ,alive BOOLEAN  ,created_at DATETIME  ,updated_at DATETIME);"
    );
}

#[test]
fn table_literal_escapes_quotes() {
    let mut ast = user(false);
    ast.attrs = vec![tablename_attr("my \"t\"")];
    assert!(create_query(&ast).starts_with("CREATE TABLE IF NOT EXISTS \"my \\\"t\\\"\" (id"));
}

#[test]
fn table_literal_keeps_printable_ascii() {
    let mut ast = user(false);
    ast.attrs = vec![tablename_attr("my-table.v2 'x'")];
    assert!(create_query(&ast).starts_with("CREATE TABLE IF NOT EXISTS \"my-table.v2 'x'\" (id"));
}

#[test]
fn mount_struct_with_literal_uses_given_literal() {
    let ast = user(false);
    let fs = user_fields(false);
    match mount_struct_with_literal(&ast, Some(&fs), &ast.attrs, &"create_table".to_string(), "[users]") {
        CrudMethod::CreateTable { query } => assert!(query.starts_with("CREATE TABLE IF NOT EXISTS [users] (id")),
        _ => panic!("expected create_table"),
    }
}

#[test]
fn mount_struct_other_methods_for_user() {
    let ast = user(false);
    let fs = user_fields(false);
    let cols = strings(&["name", "age", "alive", "created_at", "updated_at"]);
    let params: Vec<String> = cols.iter().map(|c| format!("data.{},", c)).collect();
    match mount_struct(&ast, Some(&fs), &ast.attrs, "read_count".to_string()) {
        CrudMethod::ReadCount { table_name } => assert_eq!(table_name, "users"),
        _ => panic!("expected read_count"),
    }
    match mount_struct(&ast, Some(&fs), &ast.attrs, "read_all".to_string()) {
        CrudMethod::ReadAll { struct_name, table_name, row_reads } => {
            assert_eq!(struct_name, "User");
            assert_eq!(table_name, "users");
            assert_eq!(
                row_reads,
                strings(&[
                    "id: row.get(0usize)?,",
                    "name: row.get(1usize)?,",
                    "age: row.get(2usize)?,",
                    "alive: row.get(3usize)?,",
                    "created_at: row.get(4usize)?,",
                    "updated_at: row.get(5usize)?,",
                ])
            );
        },
        _ => panic!("expected read_all"),
    }
    match mount_struct(&ast, Some(&fs), &ast.attrs, "insert_one".to_string()) {
        CrudMethod::InsertOne { struct_name, table_name, names, values, params: p } => {
            assert_eq!(struct_name, "User");
            assert_eq!(table_name, "users");
            assert_eq!(names, "name,age,alive,created_at,updated_at");
            assert_eq!(values, "?1,?2,?3,?4,?5");
            assert_eq!(p, params);
        },
        _ => panic!("expected insert_one"),
    }
    match mount_struct(&ast, Some(&fs), &ast.attrs, "update_one".to_string()) {
        CrudMethod::UpdateOne { names_and_values, names_len, params: p, .. } => {
            assert_eq!(names_and_values, "name=?1,age=?2,alive=?3,created_at=?4,updated_at=?5");
            assert_eq!(names_len, 5);
            assert_eq!(p, params);
        },
        _ => panic!("expected update_one"),
    }
    match mount_struct(&ast, Some(&fs), &ast.attrs, "delete_one".to_string()) {
        CrudMethod::DeleteOne { table_name } => assert_eq!(table_name, "users"),
        _ => panic!("expected delete_one"),
    }
}

fn tag_fields() -> Vec<FieldInput> {
    vec![field("id", ty("i32"), vec![]), field("name", ty("String"), vec![settings(false, false)])]
}

#[test]
fn insert_one_with_one_column() {
    let fs = tag_fields();
    let ast = DeriveInputModel {
        ident: "Tag".to_string(),
        attrs: vec![tablename_attr("tags")],
        data: DataInput::Struct(FieldsInput::Named(tag_fields())),
    };
    assert!(check_derive_input(&ast).is_ok());
    match mount_struct(&ast, Some(&fs), &ast.attrs, "insert_one".to_string()) {
        CrudMethod::InsertOne { names, values, params, .. } => {
            assert_eq!(names, "name");
            assert_eq!(values, "?1");
            assert_eq!(params, strings(&["data.name,"]));
        },
        _ => panic!("expected insert_one"),
    }
}

#[test]
fn insert_one_needs_a_column() {
    let only_id = with_fields(vec![field("id", ty("i32"), vec![])]);
    assert_eq!(rejection(&only_id), DeriveError::NoColumnToInsert);
}

#[test]
fn crud_methods_generates_six_in_order() {
    let ast = user(false);
    assert!(check_derive_input(&ast).is_ok());
    let ms = crud_methods(&ast);
    assert_eq!(ms.len(), 6);
    assert!(matches!(ms[0], CrudMethod::CreateTable { .. }));
    assert!(matches!(ms[1], CrudMethod::ReadCount { .. }));
    assert!(matches!(ms[2], CrudMethod::ReadAll { .. }));
    assert!(matches!(ms[3], CrudMethod::InsertOne { .. }));
    assert!(matches!(ms[4], CrudMethod::UpdateOne { .. }));
    assert!(matches!(ms[5], CrudMethod::DeleteOne { .. }));
}

#[test]
fn struct_shape_rejections() {
    let mut ast = user(false);
    ast.data = DataInput::Enum;
    assert_eq!(rejection(&ast), DeriveError::NotStruct);
    ast.data = DataInput::Union;
    assert_eq!(rejection(&ast), DeriveError::NotStruct);
    ast.data = DataInput::Struct(FieldsInput::Unnamed);
    assert_eq!(rejection(&ast), DeriveError::NotNamedStruct);
    ast.data = DataInput::Struct(FieldsInput::Unit);
    assert_eq!(rejection(&ast), DeriveError::NotNamedStruct);
    ast.data = DataInput::Struct(FieldsInput::Named(vec![]));
    assert_eq!(rejection(&ast), DeriveError::EmptyStruct);
    ast.data = DataInput::Struct(FieldsInput::Named(vec![field("key", ty("i32"), vec![])]));
    assert_eq!(rejection(&ast), DeriveError::FirstFieldNotId);
    ast.data = DataInput::Struct(FieldsInput::Named(vec![FieldInput {
        ident: None,
        ty: ty("i32"),
        attrs: vec![],
    }]));
    assert_eq!(rejection(&ast), DeriveError::UnnamedField);
}

#[test]
fn obtain_struct_and_data_for_user() {
    let ast = user(false);
    assert!(matches!(
        obtain_struct(&ast, &ast.attrs, "delete_one".to_string()),
        CrudMethod::DeleteOne { .. }
    ));
    let fields = FieldsInput::Named(user_fields(false));
    match obtain_data_from_struct(&ast, &fields, &ast.attrs, "read_count".to_string()) {
        CrudMethod::ReadCount { table_name } => assert_eq!(table_name, "users"),
        _ => panic!("expected read_count"),
    }
}

#[test]
fn path_ident_rules() {
    assert_eq!(ident_path("rusqdrive").get_ident(), Some("rusqdrive".to_string()));
    assert!(ident_path("rusqdrive").is_ident("rusqdrive"));
    assert!(!ident_path("rusqdrive").is_ident("tablename"));
    let leading = PathInput { leading_colon: true, ..ident_path("rusqdrive") };
    assert_eq!(leading.get_ident(), None);
    assert!(!leading.is_ident("rusqdrive"));
    let with_args = generic_path("Option", vec![ty("u8")]);
    assert_eq!(with_args.get_ident(), None);
    let meta = name_value_bool("unique", true);
    assert!(meta.path().is_ident("unique"));
}
