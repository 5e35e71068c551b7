//! The type mapper: from a format to the Dart type of its values.

use vstd::prelude::*;
use vstd::pervasive::unreached;
use vstd::string::StringExecFns;
use crate::config::{qualified_name, DefinitionsView};
use crate::emitter::DartEmitter;
use crate::format::{all_resolved, format_views, Format, FormatView};
use crate::schema::SchemaError;
use crate::text::{decimal, join, join_strings, push_decimal, string_views};

verus! {

/// The Dart type of the values of a primitive kind. Integers of up to 64 bits
/// and characters are `int`; 128-bit integers have a type of their own.
pub open spec fn primitive_type(format: FormatView) -> Seq<char> {
    match format {
        FormatView::Unit => "Unit"@,
        FormatView::Bool => "bool"@,
        FormatView::I128 | FormatView::U128 => "Int128"@,
        FormatView::F32 => "float"@,
        FormatView::F64 => "double"@,
        FormatView::Str => "String"@,
        FormatView::Bytes => "Bytes"@,
        _ => "int"@,
    }
}

/// The Dart type of the values of a format. An optional value has the
/// wrapper type `Optional`, never a nullable type; a sequence and a fixed-size
/// array both are a `List`; a tuple of `n` parts is a `Tuple<n>`; a reference
/// is the class of that name, qualified where `d` declares it externally.
pub open spec fn type_expr(d: Seq<DefinitionsView>, format: FormatView) -> Seq<char>
    decreases format,
{
    match format {
        FormatView::Variable => Seq::empty(),
        FormatView::TypeName(name) => qualified_name(d, name),
        FormatView::Option(inner) => "Optional<"@ + type_expr(d, *inner) + ">"@,
        FormatView::Sequence(inner) => "List<"@ + type_expr(d, *inner) + ">"@,
        FormatView::Mapping { key, value } => "Map<"@ + type_expr(d, *key) + ", "@ + type_expr(
            d,
            *value,
        ) + ">"@,
        FormatView::Tuple(formats) => "Tuple"@ + decimal(formats.len()) + "<"@ + join(
            type_exprs(d, formats),
            ", "@,
        ) + ">"@,
        FormatView::TupleArray { content, size } => "List<"@ + type_expr(d, *content) + ">"@,
        _ => primitive_type(format),
    }
}

/// The Dart types of a list of formats, in order.
pub open spec fn type_exprs(d: Seq<DefinitionsView>, formats: Seq<FormatView>) -> Seq<Seq<char>>
    decreases formats,
{
    Seq::new(
        formats.len(),
        |i: int|
            if 0 <= i < formats.len() {
                type_expr(d, formats[i])
            } else {
                Seq::empty()
            },
    )
}

/// The Dart type of the values of a primitive kind.
fn primitive_type_of(format: &Format) -> (r: &'static str)
    requires
        format@.is_primitive(),
    ensures
        r@ == primitive_type(format@),
{
    match format {
        Format::Unit => "Unit",
        Format::Bool => "bool",
        Format::I128 | Format::U128 => "Int128",
        Format::F32 => "float",
        Format::F64 => "double",
        Format::Str => "String",
        Format::Bytes => "Bytes",
        _ => "int",
    }
}

impl<'a> DartEmitter<'a> {
    /// The Dart type of the values of `format`, or the error for a format in
    /// which a placeholder occurs.
    pub fn quote_type(&self, format: &Format) -> (r: Result<String, SchemaError>)
        ensures
            match r {
                Ok(text) => format@.is_resolved() && text@ == type_expr(self@.definitions(), format@),
                Err(e) => !format@.is_resolved() && e == SchemaError::UnresolvedFormat,
            },
    {
        if format.is_resolved() {
            Ok(self.type_text(format))
        } else {
            Err(SchemaError::UnresolvedFormat)
        }
    }

    /// The Dart type of the values of a format without placeholders.
    pub fn type_text(&self, format: &Format) -> (r: String)
        requires
            format@.is_resolved(),
        ensures
            r@ == type_expr(self@.definitions(), format@),
        decreases format,
    {
        match format {
            Format::Variable => unreached(),
            Format::TypeName(name) => self.quote_qualified_name(name.as_str()),
            Format::Option(inner) => {
                let mut s = String::from_str("Optional<");
                let t = self.type_text(inner);
                s.append(t.as_str());
                s.append(">");
                s
            },
            Format::Sequence(inner) => {
                let mut s = String::from_str("List<");
                let t = self.type_text(inner);
                s.append(t.as_str());
                s.append(">");
                s
            },
            Format::Mapping { key, value } => {
                let mut s = String::from_str("Map<");
                let k = self.type_text(key);
                s.append(k.as_str());
                s.append(", ");
                let v = self.type_text(value);
                s.append(v.as_str());
                s.append(">");
                s
            },
            Format::Tuple(formats) => {
                let mut s = String::from_str("Tuple");
                push_decimal(&mut s, formats.len() as u64);
                s.append("<");
                let joined = self.quote_types(formats);
                s.append(joined.as_str());
                s.append(">");
                s
            },
            Format::TupleArray { content, size } => {
                let mut s = String::from_str("List<");
                let t = self.type_text(content);
                s.append(t.as_str());
                s.append(">");
                s
            },
            _ => String::from_str(primitive_type_of(format)),
        }
    }

    /// The Dart types of the formats of the list, separated by commas.
    pub fn quote_types(&self, formats: &Vec<Format>) -> (r: String)
        requires
            all_resolved(format_views(formats@)),
        ensures
            r@ == join(type_exprs(self@.definitions(), format_views(formats@)), ", "@),
        decreases formats,
    {
        let mut parts: Vec<String> = Vec::new();
        let mut i: usize = 0;
        while i < formats.len()
            invariant
                i <= formats.len(),
                all_resolved(format_views(formats@)),
                string_views(parts@) == type_exprs(self@.definitions(), format_views(formats@)).take(i as int),
            decreases formats.len() - i,
        {
            let ghost before = string_views(parts@);
            assert(format_views(formats@)[i as int].is_resolved());
            let t = self.type_text(&formats[i]);
            parts.push(t);
            i += 1;
            assert(string_views(parts@) =~= before.push(type_expr(self@.definitions(), formats@[i - 1]@)));
            assert(string_views(parts@) =~= type_exprs(self@.definitions(), format_views(formats@)).take(i as int));
        }
        assert(type_exprs(self@.definitions(), format_views(formats@)).take(i as int) =~= type_exprs(self@.definitions(), 
            format_views(formats@),
        ));
        join_strings(&parts, ", ")
    }
}

} // verus!
