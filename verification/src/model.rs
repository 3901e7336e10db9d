use vstd::prelude::*;

verus! {

/// Why a struct is rejected by the derive.
#[derive(Debug, PartialEq, Eq)]
pub enum DeriveError {
    /// The named fields of the struct were not handed over.
    MissingFields,
    /// A field has no name.
    UnnamedField,
    /// The `id` field carries a `#[rusqdrive(...)]` attribute.
    AttributeOnId,
    /// The arguments of a `#[rusqdrive(...)]` attribute are not a comma separated list of metas.
    MalformedAttributeArgs,
    /// A selected `name = value` pair has a value that is not `true` or `false`.
    NonBoolValue,
    /// A selected meta is not a `name = value` pair.
    NotNameValue,
    /// A field carries an attribute other than `#[rusqdrive(...)]`.
    ForeignAttribute,
    /// A field other than `id` without the selected setting (`not_null` or
    /// `unique`) in its `#[rusqdrive(...)]` attributes.
    MissingRusqdriveAttributes,
    /// A field other than `id` with the selected setting given twice or more.
    DuplicateSetting,
    /// The `tablename` attribute of the struct is not a meta.
    MalformedTableName,
    /// The `tablename` attribute is `tablename = value` with a value that is no string.
    TableNameNotString,
    /// The `tablename` attribute is not a `tablename = value` pair.
    TableNameNotNameValue,
    /// The struct has no `tablename` attribute.
    MissingTableName,
    /// A field type has no SQLite column type; the type as text.
    UnsupportedType(String),
    /// A field type is a path that is not a single identifier.
    TypeNotAllowed,
    /// A generic argument is a path that is not a single identifier.
    OnlyPrimitiveOrOption,
    /// A `DateTime` segment without angle bracketed arguments.
    UnsupportedDateTimeShape,
    /// A field type that is not a path.
    OnlyPrimitiveTypes,
    /// Any other type shape the derive does not walk.
    UnexpectedTypeShape,
    /// `DateTime<>` with no argument.
    EmptyDateTimeArguments,
    /// The struct has no field.
    EmptyStruct,
    /// The first field is not named `id`.
    FirstFieldNotId,
    /// The struct has unnamed fields or none.
    NotNamedStruct,
    /// The input is an enum or a union.
    NotStruct,
    /// An operation name that the derive does not know.
    UnknownOperation,
    /// `insert_one` on a struct with no field besides `id`: there is no
    /// column to insert into.
    NoColumnToInsert,
}

/// The mathematical value of a [`DeriveError`].
pub enum Rejection {
    MissingFields,
    UnnamedField,
    AttributeOnId,
    MalformedAttributeArgs,
    NonBoolValue,
    NotNameValue,
    ForeignAttribute,
    MissingRusqdriveAttributes,
    DuplicateSetting,
    MalformedTableName,
    TableNameNotString,
    TableNameNotNameValue,
    MissingTableName,
    UnsupportedType(Seq<char>),
    TypeNotAllowed,
    OnlyPrimitiveOrOption,
    UnsupportedDateTimeShape,
    OnlyPrimitiveTypes,
    UnexpectedTypeShape,
    EmptyDateTimeArguments,
    EmptyStruct,
    FirstFieldNotId,
    NotNamedStruct,
    NotStruct,
    UnknownOperation,
    NoColumnToInsert,
}

impl View for DeriveError {
    type V = Rejection;

    open spec fn view(&self) -> Rejection {
        match self {
            DeriveError::MissingFields => Rejection::MissingFields,
            DeriveError::UnnamedField => Rejection::UnnamedField,
            DeriveError::AttributeOnId => Rejection::AttributeOnId,
            DeriveError::MalformedAttributeArgs => Rejection::MalformedAttributeArgs,
            DeriveError::NonBoolValue => Rejection::NonBoolValue,
            DeriveError::NotNameValue => Rejection::NotNameValue,
            DeriveError::ForeignAttribute => Rejection::ForeignAttribute,
            DeriveError::MissingRusqdriveAttributes => Rejection::MissingRusqdriveAttributes,
            DeriveError::DuplicateSetting => Rejection::DuplicateSetting,
            DeriveError::MalformedTableName => Rejection::MalformedTableName,
            DeriveError::TableNameNotString => Rejection::TableNameNotString,
            DeriveError::TableNameNotNameValue => Rejection::TableNameNotNameValue,
            DeriveError::MissingTableName => Rejection::MissingTableName,
            DeriveError::UnsupportedType(t) => Rejection::UnsupportedType(t@),
            DeriveError::TypeNotAllowed => Rejection::TypeNotAllowed,
            DeriveError::OnlyPrimitiveOrOption => Rejection::OnlyPrimitiveOrOption,
            DeriveError::UnsupportedDateTimeShape => Rejection::UnsupportedDateTimeShape,
            DeriveError::OnlyPrimitiveTypes => Rejection::OnlyPrimitiveTypes,
            DeriveError::UnexpectedTypeShape => Rejection::UnexpectedTypeShape,
            DeriveError::EmptyDateTimeArguments => Rejection::EmptyDateTimeArguments,
            DeriveError::EmptyStruct => Rejection::EmptyStruct,
            DeriveError::FirstFieldNotId => Rejection::FirstFieldNotId,
            DeriveError::NotNamedStruct => Rejection::NotNamedStruct,
            DeriveError::NotStruct => Rejection::NotStruct,
            DeriveError::UnknownOperation => Rejection::UnknownOperation,
            DeriveError::NoColumnToInsert => Rejection::NoColumnToInsert,
        }
    }
}

/// A path such as `Option<i32>` or `rusqdrive`: an optional leading `::` and its segments.
pub struct PathInput {
    pub leading_colon: bool,
    pub segments: Vec<PathSegmentInput>,
}

/// One segment of a path: its identifier and its arguments.
pub struct PathSegmentInput {
    pub ident: String,
    pub arguments: PathArgumentsInput,
}

/// The arguments of a path segment.
pub enum PathArgumentsInput {
    Empty,
    AngleBracketed(Vec<GenericArgumentInput>),
    Parenthesized,
}

/// A generic argument: a type, or anything else (lifetime, constant, binding).
pub enum GenericArgumentInput {
    Type(TypeInput),
    Other,
}

/// The type of a field: a path type, or any other kind of type.
pub enum TypeInput {
    Path(PathInput),
    Other,
}

/// A literal inside an attribute.
pub enum LitInput {
    Bool(bool),
    /// A string literal, by its value.
    Str(String),
    Other,
}

/// A meta item: `path`, `path(...)` or `path = literal`.
pub enum MetaInput {
    Path(PathInput),
    List(PathInput),
    NameValue(PathInput, LitInput),
}

/// An attribute: its path, the attribute read as one meta (`None` where that
/// does not parse), and its parenthesized arguments read as a comma separated
/// list of metas (`None` where they do not parse).
pub struct AttributeInput {
    pub path: PathInput,
    pub meta: Option<MetaInput>,
    pub args: Option<Vec<MetaInput>>,
}

/// A field of the struct.
pub struct FieldInput {
    pub ident: Option<String>,
    pub ty: TypeInput,
    pub attrs: Vec<AttributeInput>,
}

/// The fields of a struct.
pub enum FieldsInput {
    Named(Vec<FieldInput>),
    Unnamed,
    Unit,
}

/// The body of the derive input.
pub enum DataInput {
    Struct(FieldsInput),
    Enum,
    Union,
}

/// The item the derive is applied to.
pub struct DeriveInputModel {
    pub ident: String,
    pub attrs: Vec<AttributeInput>,
    pub data: DataInput,
}

/// The identifier that a path is, if it is one: no leading `::`, a single
/// segment, and no arguments on it.
pub open spec fn path_ident(p: PathInput) -> Option<Seq<char>> {
    if !p.leading_colon && p.segments@.len() == 1
        && p.segments@[0].arguments is Empty {
        Some(p.segments@[0].ident@)
    } else {
        None
    }
}

/// Whether a path is the identifier `name`.
pub open spec fn path_is_ident(p: PathInput, name: Seq<char>) -> bool {
    path_ident(p) == Some(name)
}

impl PathInput {
    /// The identifier that this path is, if it is one.
    pub fn get_ident(&self) -> (r: Option<String>)
        ensures
            match r {
                Some(s) => path_ident(*self) == Some(s@),
                None => path_ident(*self) is None,
            },
    {
        if !self.leading_colon && self.segments.len() == 1 {
            match &self.segments[0].arguments {
                PathArgumentsInput::Empty => Some(self.segments[0].ident.clone()),
                _ => None,
            }
        } else {
            None
        }
    }

    /// Whether this path is the identifier `name`.
    pub fn is_ident(&self, name: &str) -> (r: bool)
        ensures
            r == path_is_ident(*self, name@),
    {
        match self.get_ident() {
            Some(s) => crate::text::string_eq_str(&s, name),
            None => false,
        }
    }
}

} // verus!
