//! The canonical signature of a format: a text that is derived from the
//! structure of the format alone and by which helpers are told apart.

use vstd::prelude::*;
use vstd::pervasive::unreached;
use vstd::string::StringExecFns;
use crate::format::{all_resolved, format_views, Format, FormatView};
use crate::text::{decimal, join, join_strings, push_decimal, string_views};

verus! {

/// The name of a primitive kind, as it occurs in the names of the runtime's
/// writers and readers.
pub open spec fn primitive_name(format: FormatView) -> Seq<char> {
    match format {
        FormatView::Unit => "unit"@,
        FormatView::Bool => "bool"@,
        FormatView::I8 => "i8"@,
        FormatView::I16 => "i16"@,
        FormatView::I32 => "i32"@,
        FormatView::I64 => "i64"@,
        FormatView::I128 => "i128"@,
        FormatView::U8 => "u8"@,
        FormatView::U16 => "u16"@,
        FormatView::U32 => "u32"@,
        FormatView::U64 => "u64"@,
        FormatView::U128 => "u128"@,
        FormatView::F32 => "f32"@,
        FormatView::F64 => "f64"@,
        FormatView::Char => "char"@,
        FormatView::Str => "str"@,
        FormatView::Bytes => "bytes"@,
        _ => Seq::empty(),
    }
}

/// The signature of a format. A reference is signed by the name it refers to,
/// a primitive kind by its name, and a composite shape by its kind together
/// with the signatures of its parts.
pub open spec fn signature(format: FormatView) -> Seq<char>
    decreases format,
{
    match format {
        FormatView::Variable => Seq::empty(),
        FormatView::TypeName(name) => name,
        FormatView::Option(inner) => "option_"@ + signature(*inner),
        FormatView::Sequence(inner) => "vector_"@ + signature(*inner),
        FormatView::Mapping { key, value } => "map_"@ + signature(*key) + "_to_"@ + signature(
            *value,
        ),
        FormatView::Tuple(formats) => "tuple"@ + decimal(formats.len()) + "_"@ + join(
            signatures(formats),
            "_"@,
        ),
        FormatView::TupleArray { content, size } => "array"@ + decimal(size) + "_"@ + signature(
            *content,
        ) + "_array"@,
        _ => primitive_name(format),
    }
}

/// The signatures of a list of formats, in order.
pub open spec fn signatures(formats: Seq<FormatView>) -> Seq<Seq<char>>
    decreases formats,
{
    Seq::new(
        formats.len(),
        |i: int|
            if 0 <= i < formats.len() {
                signature(formats[i])
            } else {
                Seq::empty()
            },
    )
}

/// The name of the primitive kind of `format`, if it is one.
pub fn primitive_name_of(format: &Format) -> (r: Option<&'static str>)
    ensures
        match r {
            Some(name) => format@.is_primitive() && name@ == primitive_name(format@),
            None => !format@.is_primitive(),
        },
{
    match format {
        Format::Unit => Some("unit"),
        Format::Bool => Some("bool"),
        Format::I8 => Some("i8"),
        Format::I16 => Some("i16"),
        Format::I32 => Some("i32"),
        Format::I64 => Some("i64"),
        Format::I128 => Some("i128"),
        Format::U8 => Some("u8"),
        Format::U16 => Some("u16"),
        Format::U32 => Some("u32"),
        Format::U64 => Some("u64"),
        Format::U128 => Some("u128"),
        Format::F32 => Some("f32"),
        Format::F64 => Some("f64"),
        Format::Char => Some("char"),
        Format::Str => Some("str"),
        Format::Bytes => Some("bytes"),
        _ => None,
    }
}

/// The signature of `format`.
pub fn mangle_type(format: &Format) -> (r: String)
    requires
        format@.is_resolved(),
    ensures
        r@ == signature(format@),
    decreases format,
{
    match format {
        Format::Variable => unreached(),
        Format::TypeName(name) => name.clone(),
        Format::Option(inner) => {
            let mut s = String::from_str("option_");
            let t = mangle_type(inner);
            s.append(t.as_str());
            s
        },
        Format::Sequence(inner) => {
            let mut s = String::from_str("vector_");
            let t = mangle_type(inner);
            s.append(t.as_str());
            s
        },
        Format::Mapping { key, value } => {
            let mut s = String::from_str("map_");
            let k = mangle_type(key);
            s.append(k.as_str());
            s.append("_to_");
            let v = mangle_type(value);
            s.append(v.as_str());
            s
        },
        Format::Tuple(formats) => {
            let mut s = String::from_str("tuple");
            push_decimal(&mut s, formats.len() as u64);
            s.append("_");
            let parts = mangle_types(formats);
            let joined = join_strings(&parts, "_");
            s.append(joined.as_str());
            s
        },
        Format::TupleArray { content, size } => {
            let mut s = String::from_str("array");
            push_decimal(&mut s, *size as u64);
            s.append("_");
            let t = mangle_type(content);
            s.append(t.as_str());
            s.append("_array");
            s
        },
        _ => {
            match primitive_name_of(format) {
                Some(name) => String::from_str(name),
                None => unreached(),
            }
        },
    }
}

/// The signatures of the formats of the list, in order.
pub fn mangle_types(formats: &Vec<Format>) -> (r: Vec<String>)
    requires
        all_resolved(format_views(formats@)),
    ensures
        string_views(r@) == signatures(format_views(formats@)),
    decreases formats,
{
    let mut out: Vec<String> = Vec::new();
    let mut i: usize = 0;
    while i < formats.len()
        invariant
            i <= formats.len(),
            all_resolved(format_views(formats@)),
            string_views(out@) == signatures(format_views(formats@)).take(i as int),
        decreases formats.len() - i,
    {
        let ghost before = string_views(out@);
        assert(format_views(formats@)[i as int].is_resolved());
        let t = mangle_type(&formats[i]);
        out.push(t);
        i += 1;
        assert(string_views(out@) =~= before.push(signature(formats@[i - 1]@)));
        assert(string_views(out@) =~= signatures(format_views(formats@)).take(i as int));
    }
    assert(signatures(format_views(formats@)).take(i as int) =~= signatures(
        format_views(formats@),
    ));
    out
}

} // verus!
