use vstd::prelude::*;

use crate::model::{
    DeriveError, FieldInput, GenericArgumentInput, PathArgumentsInput, PathInput,
    PathSegmentInput, Rejection, TypeInput, path_ident,
};
use crate::outcome::{after_first, collect_all, lemma_collect_step, lemma_take_full};
use crate::text::{string_eq_str, texts};
use crate::utils::texts_result;

verus! {

/// What a segment of a type inside angle brackets contributes, `option`
/// being the identifier of the outer segment: `DateTime<X>` with `X` a single
/// identifier gives `Option<DateTime<Utc>>`; any other segment gives
/// `option<T>` where the inner path is the single identifier `T`.
pub open spec fn inner_segment_types(option: Seq<char>, inner: PathInput, seg: PathSegmentInput) -> Result<
    Seq<Seq<char>>,
    Rejection,
> {
    if seg.ident@ == "DateTime"@ {
        match seg.arguments {
            PathArgumentsInput::AngleBracketed(args) => if args@.len() == 0 {
                Err(Rejection::EmptyDateTimeArguments)
            } else {
                match args@[0] {
                    GenericArgumentInput::Type(TypeInput::Path(tp)) => if path_ident(tp) is Some {
                        Ok(seq!["Option<DateTime<Utc>>"@])
                    } else {
                        Err(Rejection::TypeNotAllowed)
                    },
                    _ => Err(Rejection::UnexpectedTypeShape),
                }
            },
            _ => Err(Rejection::UnsupportedDateTimeShape),
        }
    } else {
        match path_ident(inner) {
            Some(id) => Ok(seq![option + "<"@ + id + ">"@]),
            None => Err(Rejection::OnlyPrimitiveOrOption),
        }
    }
}

/// What a generic argument of the outer segment `option` contributes.
pub open spec fn generic_argument_types(option: Seq<char>, ga: GenericArgumentInput) -> Result<
    Seq<Seq<char>>,
    Rejection,
> {
    match ga {
        GenericArgumentInput::Type(TypeInput::Path(tp)) => collect_all(
            tp.segments@.map_values(|seg: PathSegmentInput| inner_segment_types(option, tp, seg)),
        ),
        _ => Err(Rejection::UnexpectedTypeShape),
    }
}

/// What a segment of the field type `outer` contributes.
pub open spec fn segment_types(outer: PathInput, seg: PathSegmentInput) -> Result<
    Seq<Seq<char>>,
    Rejection,
> {
    match seg.arguments {
        PathArgumentsInput::AngleBracketed(args) => collect_all(
            args@.map_values(|ga: GenericArgumentInput| generic_argument_types(seg.ident@, ga)),
        ),
        PathArgumentsInput::Empty => match path_ident(outer) {
            Some(id) => Ok(seq![id]),
            None => Err(Rejection::TypeNotAllowed),
        },
        PathArgumentsInput::Parenthesized => Err(Rejection::UnexpectedTypeShape),
    }
}

/// The texts by which the type of a field is looked up: `i32`,
/// `Option<String>`, `Option<DateTime<Utc>>`, ... (one per generic argument
/// of a generic type).
pub open spec fn field_type_texts(ty: TypeInput) -> Result<Seq<Seq<char>>, Rejection> {
    match ty {
        TypeInput::Path(tp) => collect_all(
            tp.segments@.map_values(|seg: PathSegmentInput| segment_types(tp, seg)),
        ),
        TypeInput::Other => Err(Rejection::OnlyPrimitiveTypes),
    }
}

/// The type texts of all fields but the first (`id`), in order.
pub open spec fn struct_types_outcome(fields: Seq<FieldInput>) -> Result<Seq<Seq<char>>, Rejection> {
    collect_all(after_first(fields).map_values(|f: FieldInput| field_type_texts(f.ty)))
}

fn inner_segment_types_exec(option: &String, inner: &PathInput, seg: &PathSegmentInput) -> (r: Result<
    Vec<String>,
    DeriveError,
>)
    ensures
        texts_result(r) == inner_segment_types(option@, *inner, *seg),
{
    if string_eq_str(&seg.ident, "DateTime") {
        match &seg.arguments {
            PathArgumentsInput::AngleBracketed(args) => {
                if args.len() == 0 {
                    return Err(DeriveError::EmptyDateTimeArguments);
                }
                match &args[0] {
                    GenericArgumentInput::Type(TypeInput::Path(tp)) => {
                        match tp.get_ident() {
                            Some(_) => {
                                let mut v = Vec::new();
                                v.push(String::from_str("Option<DateTime<Utc>>"));
                                assert(texts(v@) =~= seq!["Option<DateTime<Utc>>"@]);
                                Ok(v)
                            },
                            None => Err(DeriveError::TypeNotAllowed),
                        }
                    },
                    _ => Err(DeriveError::UnexpectedTypeShape),
                }
            },
            _ => Err(DeriveError::UnsupportedDateTimeShape),
        }
    } else {
        match inner.get_ident() {
            Some(id) => {
                let t = option.clone().concat("<").concat(id.as_str()).concat(">");
                let mut v = Vec::new();
                v.push(t);
                assert(texts(v@) =~= seq![t@]);
                Ok(v)
            },
            None => Err(DeriveError::OnlyPrimitiveOrOption),
        }
    }
}

fn generic_argument_types_exec(option: &String, ga: &GenericArgumentInput) -> (r: Result<
    Vec<String>,
    DeriveError,
>)
    ensures
        texts_result(r) == generic_argument_types(option@, *ga),
{
    let tp = match ga {
        GenericArgumentInput::Type(TypeInput::Path(tp)) => tp,
        _ => {
            return Err(DeriveError::UnexpectedTypeShape);
        },
    };
    let ghost rs = tp.segments@.map_values(
        |seg: PathSegmentInput| inner_segment_types(option@, *tp, seg),
    );
    assert(generic_argument_types(option@, *ga) == collect_all(rs));
    let mut out: Vec<String> = Vec::new();
    let mut i: usize = 0;
    assert(rs.take(0) =~= Seq::<Result<Seq<Seq<char>>, Rejection>>::empty());
    assert(texts(out@) =~= Seq::<Seq<char>>::empty());
    while i < tp.segments.len()
        invariant
            i <= tp.segments@.len(),
            rs == tp.segments@.map_values(
                |seg: PathSegmentInput| inner_segment_types(option@, *tp, seg),
            ),
            generic_argument_types(option@, *ga) == collect_all(rs),
            collect_all(rs.take(i as int)) == Ok::<Seq<Seq<char>>, Rejection>(texts(out@)),
        decreases tp.segments@.len() - i,
    {
        proof {
            lemma_collect_step(rs, i as int, texts(out@));
        }
        let mut step = match inner_segment_types_exec(option, tp, &tp.segments[i]) {
            Ok(v) => v,
            Err(e) => {
                return Err(e);
            },
        };
        let ghost prev = out@;
        let ghost added = step@;
        out.append(&mut step);
        assert(texts(out@) =~= texts(prev) + texts(added));
        i = i + 1;
    }
    proof {
        lemma_take_full(rs);
    }
    Ok(out)
}

fn segment_types_exec(outer: &PathInput, seg: &PathSegmentInput) -> (r: Result<
    Vec<String>,
    DeriveError,
>)
    ensures
        texts_result(r) == segment_types(*outer, *seg),
{
    let args = match &seg.arguments {
        PathArgumentsInput::AngleBracketed(args) => args,
        PathArgumentsInput::Empty => {
            return match outer.get_ident() {
                Some(id) => {
                    let mut v = Vec::new();
                    v.push(id);
                    assert(texts(v@) =~= seq![v@[0]@]);
                    Ok(v)
                },
                None => Err(DeriveError::TypeNotAllowed),
            };
        },
        PathArgumentsInput::Parenthesized => {
            return Err(DeriveError::UnexpectedTypeShape);
        },
    };
    let ghost rs = args@.map_values(
        |ga: GenericArgumentInput| generic_argument_types(seg.ident@, ga),
    );
    assert(segment_types(*outer, *seg) == collect_all(rs));
    let mut out: Vec<String> = Vec::new();
    let mut i: usize = 0;
    assert(rs.take(0) =~= Seq::<Result<Seq<Seq<char>>, Rejection>>::empty());
    assert(texts(out@) =~= Seq::<Seq<char>>::empty());
    while i < args.len()
        invariant
            i <= args@.len(),
            rs == args@.map_values(
                |ga: GenericArgumentInput| generic_argument_types(seg.ident@, ga),
            ),
            segment_types(*outer, *seg) == collect_all(rs),
            collect_all(rs.take(i as int)) == Ok::<Seq<Seq<char>>, Rejection>(texts(out@)),
        decreases args@.len() - i,
    {
        proof {
            lemma_collect_step(rs, i as int, texts(out@));
        }
        let mut step = match generic_argument_types_exec(&seg.ident, &args[i]) {
            Ok(v) => v,
            Err(e) => {
                return Err(e);
            },
        };
        let ghost prev = out@;
        let ghost added = step@;
        out.append(&mut step);
        assert(texts(out@) =~= texts(prev) + texts(added));
        i = i + 1;
    }
    proof {
        lemma_take_full(rs);
    }
    Ok(out)
}

/// The type texts of one field type, or the reason it is rejected.
pub(crate) fn field_type_texts_exec(ty: &TypeInput) -> (r: Result<Vec<String>, DeriveError>)
    ensures
        texts_result(r) == field_type_texts(*ty),
{
    let tp = match ty {
        TypeInput::Path(tp) => tp,
        TypeInput::Other => {
            return Err(DeriveError::OnlyPrimitiveTypes);
        },
    };
    let ghost rs = tp.segments@.map_values(|seg: PathSegmentInput| segment_types(*tp, seg));
    assert(field_type_texts(*ty) == collect_all(rs));
    let mut out: Vec<String> = Vec::new();
    let mut i: usize = 0;
    assert(rs.take(0) =~= Seq::<Result<Seq<Seq<char>>, Rejection>>::empty());
    assert(texts(out@) =~= Seq::<Seq<char>>::empty());
    while i < tp.segments.len()
        invariant
            i <= tp.segments@.len(),
            rs == tp.segments@.map_values(|seg: PathSegmentInput| segment_types(*tp, seg)),
            field_type_texts(*ty) == collect_all(rs),
            collect_all(rs.take(i as int)) == Ok::<Seq<Seq<char>>, Rejection>(texts(out@)),
        decreases tp.segments@.len() - i,
    {
        proof {
            lemma_collect_step(rs, i as int, texts(out@));
        }
        let mut step = match segment_types_exec(tp, &tp.segments[i]) {
            Ok(v) => v,
            Err(e) => {
                return Err(e);
            },
        };
        let ghost prev = out@;
        let ghost added = step@;
        out.append(&mut step);
        assert(texts(out@) =~= texts(prev) + texts(added));
        i = i + 1;
    }
    proof {
        lemma_take_full(rs);
    }
    Ok(out)
}

/// The type texts of all fields but the first, in order, or the first
/// rejection.
pub(crate) fn struct_type_texts(fields: &Vec<FieldInput>) -> (r: Result<Vec<String>, DeriveError>)
    ensures
        texts_result(r) == struct_types_outcome(fields@),
{
    let ghost rest = after_first(fields@);
    let ghost rs = rest.map_values(|f: FieldInput| field_type_texts(f.ty));
    let mut out: Vec<String> = Vec::new();
    if fields.len() == 0 {
        assert(rs =~= Seq::<Result<Seq<Seq<char>>, Rejection>>::empty());
        assert(texts(out@) =~= Seq::<Seq<char>>::empty());
        return Ok(out);
    }
    let mut i: usize = 1;
    assert(rs.take(0) =~= Seq::<Result<Seq<Seq<char>>, Rejection>>::empty());
    assert(texts(out@) =~= Seq::<Seq<char>>::empty());
    while i < fields.len()
        invariant
            1 <= i <= fields@.len(),
            rest == after_first(fields@),
            rs == rest.map_values(|f: FieldInput| field_type_texts(f.ty)),
            collect_all(rs.take(i - 1)) == Ok::<Seq<Seq<char>>, Rejection>(texts(out@)),
        decreases fields@.len() - i,
    {
        proof {
            lemma_collect_step(rs, i - 1, texts(out@));
        }
        let mut step = match field_type_texts_exec(&fields[i].ty) {
            Ok(v) => v,
            Err(e) => {
                return Err(e);
            },
        };
        let ghost prev = out@;
        let ghost added = step@;
        out.append(&mut step);
        assert(texts(out@) =~= texts(prev) + texts(added));
        i = i + 1;
    }
    proof {
        lemma_take_full(rs);
    }
    Ok(out)
}

} // verus!
