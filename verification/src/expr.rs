//! The expression emitter: the Dart statement that writes a value of a format,
//! the expression that reads one, and the two halves of the JSON bridge.

use vstd::prelude::*;
use vstd::string::StringExecFns;
use crate::config::{qualified_name, DefinitionsView};
use crate::emitter::DartEmitter;
use crate::format::{FieldView, Format, FormatView, Named};
use crate::signature::{mangle_type, primitive_name, primitive_name_of, signature};
use crate::types::type_expr;

verus! {

/// The statement that writes the value `value` of the given format. A
/// reference is written by the method of its class, a primitive kind by its
/// one writer, and every other shape by the helper of its signature in the
/// class of the helpers.
pub open spec fn serialize_statement(value: Seq<char>, format: FormatView) -> Seq<char> {
    if format is TypeName {
        value + ".serialize(serializer);"@
    } else if format.is_primitive() {
        "serializer.serialize_"@ + primitive_name(format) + "("@ + value + ");"@
    } else {
        "TraitHelpers.serialize_"@ + signature(format) + "("@ + value + ", serializer);"@
    }
}

/// The expression that reads a value of the given format. A reference is read
/// by the constructor of its class, a primitive kind by its one reader, and
/// every other shape by the helper of its signature in the class of the
/// helpers.
pub open spec fn deserialize_expression(d: Seq<DefinitionsView>, format: FormatView) -> Seq<char> {
    if format is TypeName {
        qualified_name(d, format->TypeName_0) + ".deserialize(deserializer)"@
    } else if format.is_primitive() {
        "deserializer.deserialize_"@ + primitive_name(format) + "()"@
    } else {
        "TraitHelpers.deserialize_"@ + signature(format) + "(deserializer)"@
    }
}

/// The JSON entry for a field: its key and the value that stands for it.
pub open spec fn json_entry(field: FieldView) -> Seq<char> {
    let name = field.name;
    match field.value {
        FormatView::TypeName(_) | FormatView::Bytes | FormatView::Mapping { .. } => "\""@ + name
            + "\" : "@ + name + ".toJson() "@,
        FormatView::Option(_) => "\""@ + name + "\" : "@ + name + ".isEmpty?null:"@ + name
            + ".value "@,
        FormatView::Sequence(inner) => if *inner is TypeName {
            "'"@ + name + "' : "@ + name + ".map((f) => f.toJson()).toList()"@
        } else {
            "'"@ + name + "' : "@ + name
        },
        _ => "\""@ + name + "\" : "@ + name + " "@,
    }
}

/// The initializer that sets a field from the JSON entry of its name. Every
/// field is read from the entry `json['name']`: a reference and a byte
/// sequence by the constructor of their class; an optional value, a map and a
/// fixed-size array by a constructor of the field's own type, which takes
/// null for an absent value; everything else as the entry itself.
pub open spec fn json_initializer(d: Seq<DefinitionsView>, field: FieldView) -> Seq<char> {
    let name = field.name;
    match field.value {
        FormatView::Bytes => name + " = Bytes.fromJson(json['"@ + name + "'])"@,
        FormatView::TypeName(class) => name + " = "@ + class + ".fromJson(json['"@ + name
            + "'])"@,
        FormatView::Option(_) => name + " = "@ + type_expr(d, field.value)
            + ".ofNullable(json['"@ + name + "'])"@,
        FormatView::Mapping { .. } | FormatView::TupleArray { .. } => name + " = "@ + type_expr(
            d,
            field.value,
        ) + ".from(json['"@ + name + "'])"@,
        FormatView::Sequence(inner) => if *inner is TypeName {
            name + " = List<"@ + inner->TypeName_0 + ">.from(json['"@ + name
                + "'].map((f) => "@ + inner->TypeName_0 + ".fromJson(f)).toList())"@
        } else {
            name + " = json['"@ + name + "']"@
        },
        _ => name + " = json['"@ + name + "']"@,
    }
}

impl<'a> DartEmitter<'a> {
    /// The statement that writes the value `value` of the given format.
    pub fn quote_serialize_value(&self, value: &str, format: &Format) -> (r: String)
        requires
            format@.is_resolved(),
        ensures
            r@ == serialize_statement(value@, format@),
    {
        match format {
            Format::TypeName(_) => {
                let mut s = String::from_str(value);
                s.append(".serialize(serializer);");
                s
            },
            _ => {
                match primitive_name_of(format) {
                    Some(name) => {
                        let mut s = String::from_str("serializer.serialize_");
                        s.append(name);
                        s.append("(");
                        s.append(value);
                        s.append(");");
                        s
                    },
                    None => {
                        let mut s = String::from_str("TraitHelpers.serialize_");
                        let name = mangle_type(format);
                        s.append(name.as_str());
                        s.append("(");
                        s.append(value);
                        s.append(", serializer);");
                        s
                    },
                }
            },
        }
    }

    /// The expression that reads a value of the given format.
    pub fn quote_deserialize(&self, format: &Format) -> (r: String)
        requires
            format@.is_resolved(),
        ensures
            r@ == deserialize_expression(self@.definitions(), format@),
    {
        match format {
            Format::TypeName(name) => {
                let mut s = self.quote_qualified_name(name.as_str());
                s.append(".deserialize(deserializer)");
                s
            },
            _ => {
                match primitive_name_of(format) {
                    Some(name) => {
                        let mut s = String::from_str("deserializer.deserialize_");
                        s.append(name);
                        s.append("()");
                        s
                    },
                    None => {
                        let mut s = String::from_str("TraitHelpers.deserialize_");
                        let name = mangle_type(format);
                        s.append(name.as_str());
                        s.append("(deserializer)");
                        s
                    },
                }
            },
        }
    }

    /// The JSON entry for a field.
    pub fn to_json(&self, format: &Named<Format>) -> (r: String)
        requires
            format@.value.is_resolved(),
        ensures
            r@ == json_entry(format@),
    {
        let name = format.name.as_str();
        match &format.value {
            Format::TypeName(_) | Format::Bytes | Format::Mapping { .. } => {
                let mut s = String::from_str("\"");
                s.append(name);
                s.append("\" : ");
                s.append(name);
                s.append(".toJson() ");
                s
            },
            Format::Option(_) => {
                let mut s = String::from_str("\"");
                s.append(name);
                s.append("\" : ");
                s.append(name);
                s.append(".isEmpty?null:");
                s.append(name);
                s.append(".value ");
                s
            },
            Format::Sequence(inner) => {
                let mut s = String::from_str("'");
                s.append(name);
                s.append("' : ");
                s.append(name);
                match &**inner {
                    Format::TypeName(_) => {
                        assert(inner@ is TypeName);
                        s.append(".map((f) => f.toJson()).toList()");
                    },
                    _ => {
                        assert(!(inner@ is TypeName));
                    },
                }
                s
            },
            _ => {
                let mut s = String::from_str("\"");
                s.append(name);
                s.append("\" : ");
                s.append(name);
                s.append(" ");
                s
            },
        }
    }

    /// The initializer that sets a field from the JSON entry of its name.
    pub fn from_json(&self, format: &Named<Format>) -> (r: String)
        requires
            format@.value.is_resolved(),
        ensures
            r@ == json_initializer(self@.definitions(), format@),
    {
        let name = format.name.as_str();
        let mut s = String::from_str(name);
        match &format.value {
            Format::Bytes => {
                s.append(" = Bytes.fromJson(json['");
                s.append(name);
                s.append("'])");
            },
            Format::TypeName(class) => {
                s.append(" = ");
                s.append(class.as_str());
                s.append(".fromJson(json['");
                s.append(name);
                s.append("'])");
            },
            Format::Option(_) => {
                s.append(" = ");
                let t = self.type_text(&format.value);
                s.append(t.as_str());
                s.append(".ofNullable(json['");
                s.append(name);
                s.append("'])");
            },
            Format::Mapping { .. } | Format::TupleArray { .. } => {
                s.append(" = ");
                let t = self.type_text(&format.value);
                s.append(t.as_str());
                s.append(".from(json['");
                s.append(name);
                s.append("'])");
            },
            Format::Sequence(inner) => {
                match &**inner {
                    Format::TypeName(class) => {
                        assert(inner@ == FormatView::TypeName(class@));
                        s.append(" = List<");
                        s.append(class.as_str());
                        s.append(">.from(json['");
                        s.append(name);
                        s.append("'].map((f) => ");
                        s.append(class.as_str());
                        s.append(".fromJson(f)).toList())");
                    },
                    _ => {
                        assert(!(inner@ is TypeName));
                        s.append(" = json['");
                        s.append(name);
                        s.append("']");
                    },
                }
            },
            _ => {
                s.append(" = json['");
                s.append(name);
                s.append("']");
            },
        }
        s
    }
}

} // verus!
