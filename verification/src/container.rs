//! The container emitter: the Dart class of a struct-like container or of one
//! variant of an enum.

use vstd::prelude::*;
use vstd::string::StringExecFns;
use crate::casing::{camel_case, to_camel_case};
use crate::config::Encoding;
use crate::emitter::{DartEmitter, EmitterView};
use crate::expr::{deserialize_expression, json_entry, json_initializer, serialize_statement};
use crate::format::{field_views, fields_resolved, FieldView, Format, Named};
use crate::types::type_expr;

verus! {

/// What is emitted for each field of a class, in the order of declaration.
#[derive(Clone, Copy, Debug, PartialEq, Eq, Structural)]
pub enum FieldPart {
    /// The declaration of the field.
    Declaration,
    /// The parameter of the constructor, after a comma where it is not the first.
    Parameter,
    /// The constructor's check that the argument is not null.
    NullCheck,
    /// The constructor's assignment of the argument to the field.
    Assignment,
    /// The statement that writes the field.
    Serialize,
    /// The statement that reads the field into a variable of its name.
    Deserialize,
    /// The variable of the field's name, after a comma where it is not the first.
    Argument,
    /// The comparison of the field in the equality operator.
    Equality,
    /// The step of the hash code that takes the field in.
    Hash,
    /// The initializer that sets the field from JSON.
    FromJson,
    /// The JSON entry of the field.
    ToJson,
}

/// How the serialization of a class is offered for the active encodings.
#[derive(Clone, Copy, Debug, PartialEq, Eq, Structural)]
pub enum EncodingPart {
    /// The operation that encodes to bytes, for each encoding.
    Serialize,
    /// The operation that decodes from bytes, for each encoding.
    Deserialize,
    /// Both operations, encoding by encoding.
    Both,
}

/// What a class is emitted from.
pub struct ClassView {
    /// For a variant, the name of the class of its enum.
    pub variant_base: Option<Seq<char>>,
    /// For a variant, its tag.
    pub variant_index: Option<nat>,
    /// The name of the class.
    pub name: Seq<char>,
    /// The fields, in the order of declaration.
    pub fields: Seq<FieldView>,
    /// The class wraps its one field, and its JSON form is that of the field.
    pub redefine: bool,
    /// For a variant, its name within the enum.
    pub actual_name: Seq<char>,
}

/// The text of an optional string.
pub open spec fn text_of(s: Option<&str>) -> Option<Seq<char>> {
    match s {
        Some(s) => Some(s@),
        None => None,
    }
}

/// The number of an optional tag.
pub open spec fn tag_of(index: Option<u32>) -> Option<nat> {
    match index {
        Some(index) => Some(index as nat),
        None => None,
    }
}

/// The class that the arguments of the emitter describe.
pub open spec fn class_view(
    variant_base: Option<&str>,
    variant_index: Option<u32>,
    name: Seq<char>,
    fields: Seq<FieldView>,
    redefine: bool,
    actual_name: Seq<char>,
) -> ClassView {
    ClassView {
        variant_base: text_of(variant_base),
        variant_index: tag_of(variant_index),
        name,
        fields,
        redefine,
        actual_name,
    }
}

/// The comparison of one field in the equality operator. Lists are compared
/// element by element, everything else by `==`.
pub open spec fn equality_term(field: FieldView) -> Seq<char> {
    if field.value is Sequence || field.value is TupleArray {
        " isListsEqual(this."@ + field.name + " , other."@ + field.name + ") "@
    } else {
        " this."@ + field.name + " == other."@ + field.name + " "@
    }
}

/// The guard of the operation that decodes from bytes: input bytes that are
/// left unread once the value is read make the operation fail.
pub open spec fn trailing_bytes_guard() -> Seq<char> {
    "if (deserializer.get_buffer_offset() < input.length) {\n         throw new Exception(\"Some input bytes were not read\");\n    }"@
}

impl EmitterView {
    /// The state after one part is emitted for the field at index `i`.
    pub open spec fn field_part(self, fields: Seq<FieldView>, i: int, part: FieldPart)
        -> EmitterView {
        let field = fields[i];
        let name = field.name;
        let last = i == fields.len() - 1;
        match part {
            FieldPart::Declaration => self.put(type_expr(self.definitions(), field.value)).put(" "@).put(name).put(
                ";\n"@,
            ),
            FieldPart::Parameter => (if i > 0 {
                self.put(", "@)
            } else {
                self
            }).put(type_expr(self.definitions(), field.value)).put(" "@).put(name),
            FieldPart::NullCheck => self.put("assert ("@).put(name).put(" != null);\n"@),
            FieldPart::Assignment => self.put("this."@).put(name).put(" = "@).put(name).put(
                ";\n"@,
            ),
            FieldPart::Serialize => self.put(serialize_statement(name, field.value)).put("\n"@),
            FieldPart::Deserialize => self.put("var "@).put(name).put(" = "@).put(
                deserialize_expression(self.definitions(), field.value),
            ).put(";\n"@),
            FieldPart::Argument => (if i > 0 {
                self.put(","@)
            } else {
                self
            }).put(name),
            FieldPart::Equality => self.put(" "@).put(equality_term(field)).put(
                if last {
                    " ){\n"@
                } else {
                    " &&\n"@
                },
            ),
            FieldPart::Hash => self.put("value = 31 * value + (this."@).put(name).put(
                " != null ? this."@,
            ).put(name).put(".hashCode : 0);\n"@),
            FieldPart::FromJson => self.put(json_initializer(self.definitions(), field)).put(
                if last {
                    " ;\n"@
                } else {
                    " ,\n"@
                },
            ),
            FieldPart::ToJson => self.put(json_entry(field)).put(",\n"@),
        }
    }

    /// The state after one part is emitted for each of the first `n` fields.
    pub open spec fn fields_upto(self, fields: Seq<FieldView>, n: nat, part: FieldPart)
        -> EmitterView
        decreases n,
    {
        if n == 0 {
            self
        } else {
            self.fields_upto(fields, (n - 1) as nat, part).field_part(fields, n - 1, part)
        }
    }

    /// The state after one part is emitted for every field, in order.
    pub open spec fn all_fields(self, fields: Seq<FieldView>, part: FieldPart) -> EmitterView {
        self.fields_upto(fields, fields.len(), part)
    }

    /// The state after the operation that encodes a value to bytes: it
    /// serializes into a fresh serializer of the encoding and returns the bytes.
    pub open spec fn class_serialize(self, encoding: Seq<char>, prefix: Seq<char>)
        -> EmitterView {
        self.put("\nUint8List "@).put(encoding).put(
            "Serialize() {\n    var serializer = new "@,
        ).put(prefix).put(
            "Serializer();\n    serialize(serializer);\n    return serializer.get_bytes();\n}"@,
        ).put("\n"@)
    }

    /// The state after the operation that decodes a value of the class `name`
    /// from bytes: it reads the value from a deserializer over the input,
    /// and then the guard against trailing bytes stands before the return.
    pub open spec fn class_deserialize(self, name: Seq<char>, encoding: Seq<char>, prefix: Seq<char>)
        -> EmitterView {
        self.put("\nstatic "@).put(name).put(" "@).put(encoding).put(
            "Deserialize(Uint8List input)  {\n   var deserializer = new "@,
        ).put(prefix).put("Deserializer(input);\n    "@).put(name).put(
            " value = deserialize(deserializer);\n    "@,
        ).put(trailing_bytes_guard()).put("\n    return value;\n}"@).put("\n"@)
    }

    /// The state after the operations of one encoding.
    pub open spec fn encoding_part(self, name: Seq<char>, encoding: Encoding, part: EncodingPart)
        -> EmitterView {
        let short = encoding.spec_name();
        let prefix = camel_case(short);
        match part {
            EncodingPart::Serialize => self.class_serialize(short, prefix),
            EncodingPart::Deserialize => self.class_deserialize(name, short, prefix),
            EncodingPart::Both => self.class_serialize(short, prefix).class_deserialize(
                name,
                short,
                prefix,
            ),
        }
    }

    /// The state after the operations of the first `n` active encodings.
    pub open spec fn encodings_upto(self, name: Seq<char>, n: nat, part: EncodingPart)
        -> EmitterView
        decreases n,
    {
        if n == 0 {
            self
        } else {
            self.encodings_upto(name, (n - 1) as nat, part).encoding_part(
                name,
                self.config.encodings[n - 1],
                part,
            )
        }
    }

    /// The state after the operations of every active encoding, in order.
    pub open spec fn all_encodings(self, name: Seq<char>, part: EncodingPart) -> EmitterView {
        self.encodings_upto(name, self.config.encodings.len(), part)
    }

    /// The state after the head of the class and the declarations of its fields.
    pub open spec fn class_opening(
        self,
        variant_base: Option<Seq<char>>,
        name: Seq<char>,
        fields: Seq<FieldView>,
    ) -> EmitterView {
        let headed = match variant_base {
            Some(base) => self.put("\n"@).put("class "@).put(name).put(" extends "@).put(
                base,
            ).put(" {\n"@),
            None => self.put("\n"@).put("class "@).put(name).put(" {\n"@),
        };
        let declared = headed.enter_class(name).all_fields(fields, FieldPart::Declaration);
        if fields.len() > 0 {
            declared.put("\n"@)
        } else {
            declared
        }
    }

    /// The state after the constructor, which takes one argument for each
    /// field, rejects null and assigns.
    pub open spec fn constructor(self, name: Seq<char>, fields: Seq<FieldView>) -> EmitterView {
        self.put(name).put("("@).all_fields(fields, FieldPart::Parameter).put(
            ") {\n"@,
        ).indent().all_fields(fields, FieldPart::NullCheck).all_fields(
            fields,
            FieldPart::Assignment,
        ).unindent().put("}\n"@)
    }

    /// The state after the `serialize` method: for a variant the tag first,
    /// then every field in the order of declaration; for a class that is not a
    /// variant, the operations that encode to bytes follow. Nothing is
    /// emitted where the configuration asks for no serialization code.
    pub open spec fn serialize_method(
        self,
        variant_index: Option<nat>,
        name: Seq<char>,
        fields: Seq<FieldView>,
    ) -> EmitterView {
        if self.config.serialization {
            let opened = self.put("\nvoid serialize(BinarySerializer serializer){\n"@).indent();
            let tagged = match variant_index {
                Some(index) => opened.put("serializer.serialize_variant_index("@).put_number(
                    index,
                ).put(");\n"@),
                None => opened,
            };
            let closed = tagged.all_fields(fields, FieldPart::Serialize).unindent().put("}\n"@);
            if variant_index is None {
                closed.all_encodings(name, EncodingPart::Serialize)
            } else {
                closed
            }
        } else {
            self
        }
    }

    /// The state after the method that reads a value: `deserialize` for a
    /// class of its own, `load` for a variant, whose tag was read before. It
    /// reads every field in the order of declaration and constructs the
    /// value; for a class that is not a variant, the operations that decode
    /// from bytes follow. Nothing is emitted where the configuration asks for
    /// no serialization code.
    pub open spec fn deserialize_method(
        self,
        variant_index: Option<nat>,
        name: Seq<char>,
        fields: Seq<FieldView>,
    ) -> EmitterView {
        if self.config.serialization {
            let opened = self.put("\nstatic "@).put(name).put(
                if variant_index is None {
                    " deserialize(BinaryDeserializer deserializer){\n"@
                } else {
                    " load(BinaryDeserializer deserializer){\n"@
                },
            ).indent();
            let closed = opened.all_fields(fields, FieldPart::Deserialize).put(
                "return new "@,
            ).put(name).put("("@).all_fields(fields, FieldPart::Argument).put(
                ");\n"@,
            ).unindent().put("}\n"@);
            if variant_index is None {
                closed.all_encodings(name, EncodingPart::Deserialize)
            } else {
                closed
            }
        } else {
            self
        }
    }

    /// The state after the equality operator, which holds where every field
    /// compares equal.
    pub open spec fn equality_operator(self, name: Seq<char>, fields: Seq<FieldView>)
        -> EmitterView {
        let opened = self.put("\n@override"@).put("\nbool operator ==(covariant "@).put(
            name,
        ).put(" other) {"@).indent().put("\nif (other == null) return false;\n"@);
        let compared = if fields.len() > 0 {
            opened.put("\nif ("@).all_fields(fields, FieldPart::Equality).put(
                "return true;}\n"@,
            ).put("else return false;\n"@)
        } else {
            opened.put("return true;\n"@)
        };
        compared.unindent().put("}\n"@)
    }

    /// The state after the hash code, which takes every field in.
    pub open spec fn hash_code(self, fields: Seq<FieldView>) -> EmitterView {
        self.put("\n@override"@).put("\nint get hashCode {\n"@).indent().put(
            "int value = 7;\n"@,
        ).all_fields(fields, FieldPart::Hash).put("return value;\n"@).unindent().put("}\n"@)
    }

    /// The state after the constructor from JSON: `fromJson` for a class of
    /// its own, `loadJson` for a variant. A class that wraps its one field
    /// takes the JSON value as that field.
    pub open spec fn json_decoding(
        self,
        variant_index: Option<nat>,
        name: Seq<char>,
        fields: Seq<FieldView>,
        redefine: bool,
    ) -> EmitterView {
        let opened = self.put("\n"@).put(name).put(
            if variant_index is None {
                ".fromJson(dynamic json)"@
            } else {
                ".loadJson(dynamic json)"@
            },
        );
        if fields.len() > 0 {
            let inside = opened.put(" :\n"@).indent();
            (if redefine {
                inside.put(fields[0].name).put(" = json ;\n"@)
            } else {
                inside.all_fields(fields, FieldPart::FromJson)
            }).unindent()
        } else {
            opened.put(";\n"@)
        }
    }

    /// The state after `toJson`: one entry for each field and, for a variant,
    /// its tag and name. A class that wraps its one field gives the field.
    pub open spec fn json_encoding(
        self,
        variant_index: Option<nat>,
        fields: Seq<FieldView>,
        redefine: bool,
        actual_name: Seq<char>,
    ) -> EmitterView {
        if !redefine {
            let listed = self.put("\ndynamic toJson() => {\n"@).indent().all_fields(
                fields,
                FieldPart::ToJson,
            );
            (match variant_index {
                Some(index) => listed.put("\"type\" : "@).put_number(index).put(",\n"@).put(
                    "\"type_name\" : \""@,
                ).put(actual_name).put("\"\n"@),
                None => listed,
            }).unindent().put("};\n"@)
        } else if fields.len() > 0 {
            self.put("\ndynamic toJson() => "@).put(fields[0].name).put(";\n"@)
        } else {
            self
        }
    }

    /// The state after the end of the class.
    pub open spec fn class_closing(self) -> EmitterView {
        self.unindent().leave_class().put("}\n"@)
    }

    /// The state after the whole class.
    pub open spec fn struct_or_variant(self, c: ClassView) -> EmitterView {
        self.class_opening(c.variant_base, c.name, c.fields).constructor(
            c.name,
            c.fields,
        ).serialize_method(c.variant_index, c.name, c.fields).deserialize_method(
            c.variant_index,
            c.name,
            c.fields,
        ).equality_operator(c.name, c.fields).hash_code(c.fields).json_decoding(
            c.variant_index,
            c.name,
            c.fields,
            c.redefine,
        ).json_encoding(c.variant_index, c.fields, c.redefine, c.actual_name).class_closing()
    }
}

impl<'a> DartEmitter<'a> {
    /// Emits one part for the field at index `i`.
    pub fn output_field_part(&mut self, fields: &Vec<Named<Format>>, i: usize, part: FieldPart)
        requires
            i < fields.len(),
            fields_resolved(field_views(fields@)),
        ensures
            final(self)@ == old(self)@.field_part(field_views(fields@), i as int, part),
    {
        let field = &fields[i];
        let name = field.name.as_str();
        let last = i == fields.len() - 1;
        assert(field@ == field_views(fields@)[i as int]);
        assert(field_views(fields@)[i as int].value.is_resolved());
        match part {
            FieldPart::Declaration => {
                let t = self.type_text(&field.value);
                self.write(t.as_str());
                self.write(" ");
                self.write(name);
                self.write(";\n");
            },
            FieldPart::Parameter => {
                if i > 0 {
                    self.write(", ");
                }
                let t = self.type_text(&field.value);
                self.write(t.as_str());
                self.write(" ");
                self.write(name);
            },
            FieldPart::NullCheck => {
                self.write("assert (");
                self.write(name);
                self.write(" != null);\n");
            },
            FieldPart::Assignment => {
                self.write("this.");
                self.write(name);
                self.write(" = ");
                self.write(name);
                self.write(";\n");
            },
            FieldPart::Serialize => {
                let statement = self.quote_serialize_value(name, &field.value);
                self.write(statement.as_str());
                self.write("\n");
            },
            FieldPart::Deserialize => {
                self.write("var ");
                self.write(name);
                self.write(" = ");
                let expression = self.quote_deserialize(&field.value);
                self.write(expression.as_str());
                self.write(";\n");
            },
            FieldPart::Argument => {
                if i > 0 {
                    self.write(",");
                }
                self.write(name);
            },
            FieldPart::Equality => {
                self.write(" ");
                let term = equality_term_of(field);
                self.write(term.as_str());
                if last {
                    self.write(" ){\n");
                } else {
                    self.write(" &&\n");
                }
            },
            FieldPart::Hash => {
                self.write("value = 31 * value + (this.");
                self.write(name);
                self.write(" != null ? this.");
                self.write(name);
                self.write(".hashCode : 0);\n");
            },
            FieldPart::FromJson => {
                let initializer = self.from_json(field);
                self.write(initializer.as_str());
                if last {
                    self.write(" ;\n");
                } else {
                    self.write(" ,\n");
                }
            },
            FieldPart::ToJson => {
                let entry = self.to_json(field);
                self.write(entry.as_str());
                self.write(",\n");
            },
        }
    }

    /// Emits one part for every field, in the order of declaration.
    pub fn output_fields(&mut self, fields: &Vec<Named<Format>>, part: FieldPart)
        requires
            fields_resolved(field_views(fields@)),
        ensures
            final(self)@ == old(self)@.all_fields(field_views(fields@), part),
    {
        let mut i: usize = 0;
        while i < fields.len()
            invariant
                i <= fields.len(),
                fields_resolved(field_views(fields@)),
                self@ == old(self)@.fields_upto(field_views(fields@), i as nat, part),
            decreases fields.len() - i,
        {
            self.output_field_part(fields, i, part);
            i += 1;
        }
    }
}

/// The comparison of one field in the equality operator.
fn equality_term_of(field: &Named<Format>) -> (r: String)
    ensures
        r@ == equality_term(field@),
{
    let name = field.name.as_str();
    match &field.value {
        Format::Sequence(_) | Format::TupleArray { .. } => {
            let mut s = String::from_str(" isListsEqual(this.");
            s.append(name);
            s.append(" , other.");
            s.append(name);
            s.append(") ");
            s
        },
        _ => {
            let mut s = String::from_str(" this.");
            s.append(name);
            s.append(" == other.");
            s.append(name);
            s.append(" ");
            s
        },
    }
}

impl<'a> DartEmitter<'a> {
    /// Emits the operation that encodes a value to bytes under the encoding
    /// of the given name, whose serializer class has the given prefix.
    pub fn output_class_serialize_named(&mut self, encoding: &str, prefix: &str)
        ensures
            final(self)@ == old(self)@.class_serialize(encoding@, prefix@),
    {
        self.write("\nUint8List ");
        self.write(encoding);
        self.write("Serialize() {\n    var serializer = new ");
        self.write(prefix);
        self.write(
            "Serializer();\n    serialize(serializer);\n    return serializer.get_bytes();\n}",
        );
        self.write("\n");
    }

    /// Emits the operation that encodes a value to bytes under `encoding`.
    pub fn output_class_serialize_for_encoding(&mut self, encoding: Encoding)
        ensures
            final(self)@ == old(self)@.class_serialize(
                encoding.spec_name(),
                camel_case(encoding.spec_name()),
            ),
    {
        let prefix = to_camel_case(encoding.name());
        self.output_class_serialize_named(encoding.name(), prefix.as_str());
    }

    /// Emits the operation that decodes a value of the class `name` from
    /// bytes under the encoding of the given name, whose deserializer class
    /// has the given prefix.
    pub fn output_class_deserialize_named(&mut self, name: &str, encoding: &str, prefix: &str)
        ensures
            final(self)@ == old(self)@.class_deserialize(name@, encoding@, prefix@),
    {
        self.write("\nstatic ");
        self.write(name);
        self.write(" ");
        self.write(encoding);
        self.write("Deserialize(Uint8List input)  {\n   var deserializer = new ");
        self.write(prefix);
        self.write("Deserializer(input);\n    ");
        self.write(name);
        self.write(" value = deserialize(deserializer);\n    ");
        self.write(
            "if (deserializer.get_buffer_offset() < input.length) {\n         throw new Exception(\"Some input bytes were not read\");\n    }",
        );
        self.write("\n    return value;\n}");
        self.write("\n");
    }

    /// Emits the operation that decodes a value of the class `name` from
    /// bytes under `encoding`.
    pub fn output_class_deserialize_for_encoding(&mut self, name: &str, encoding: Encoding)
        ensures
            final(self)@ == old(self)@.class_deserialize(
                name@,
                encoding.spec_name(),
                camel_case(encoding.spec_name()),
            ),
    {
        let prefix = to_camel_case(encoding.name());
        self.output_class_deserialize_named(name, encoding.name(), prefix.as_str());
    }

    /// Emits the operations of every active encoding, in order.
    pub fn output_encodings(&mut self, name: &str, part: EncodingPart)
        ensures
            final(self)@ == old(self)@.all_encodings(name@, part),
    {
        let encodings = self.generator().config().encodings();
        let mut i: usize = 0;
        while i < encodings.len()
            invariant
                i <= encodings.len(),
                encodings@ == old(self)@.config.encodings,
                self@ == old(self)@.encodings_upto(name@, i as nat, part),
            decreases encodings.len() - i,
        {
            let encoding = encodings[i];
            match part {
                EncodingPart::Serialize => {
                    self.output_class_serialize_for_encoding(encoding);
                },
                EncodingPart::Deserialize => {
                    self.output_class_deserialize_for_encoding(name, encoding);
                },
                EncodingPart::Both => {
                    self.output_class_serialize_for_encoding(encoding);
                    self.output_class_deserialize_for_encoding(name, encoding);
                },
            }
            i += 1;
        }
    }

    /// Emits the head of the class and the declarations of its fields.
    pub fn output_class_opening(
        &mut self,
        variant_base: Option<&str>,
        name: &str,
        fields: &Vec<Named<Format>>,
    )
        requires
            fields_resolved(field_views(fields@)),
        ensures
            final(self)@ == old(self)@.class_opening(
                text_of(variant_base),
                name@,
                field_views(fields@),
            ),
    {
        self.write("\n");
        self.write("class ");
        self.write(name);
        match variant_base {
            Some(base) => {
                self.write(" extends ");
                self.write(base);
            },
            None => {},
        }
        self.write(" {\n");
        self.enter_class(name);
        self.output_fields(fields, FieldPart::Declaration);
        if fields.len() > 0 {
            self.write("\n");
        }
    }

    /// Emits the constructor.
    pub fn output_constructor(&mut self, name: &str, fields: &Vec<Named<Format>>)
        requires
            fields_resolved(field_views(fields@)),
        ensures
            final(self)@ == old(self)@.constructor(name@, field_views(fields@)),
    {
        self.write(name);
        self.write("(");
        self.output_fields(fields, FieldPart::Parameter);
        self.write(") {\n");
        self.indent();
        self.output_fields(fields, FieldPart::NullCheck);
        self.output_fields(fields, FieldPart::Assignment);
        self.unindent();
        self.write("}\n");
    }

    /// Emits the `serialize` method and, for a class that is not a variant,
    /// the operations that encode to bytes.
    pub fn output_serialize_method(
        &mut self,
        variant_index: Option<u32>,
        name: &str,
        fields: &Vec<Named<Format>>,
    )
        requires
            fields_resolved(field_views(fields@)),
        ensures
            final(self)@ == old(self)@.serialize_method(
                tag_of(variant_index),
                name@,
                field_views(fields@),
            ),
    {
        if self.generator().config().serialization() {
            self.write("\nvoid serialize(BinarySerializer serializer){\n");
            self.indent();
            match variant_index {
                Some(index) => {
                    self.write("serializer.serialize_variant_index(");
                    self.write_number(index as u64);
                    self.write(");\n");
                },
                None => {},
            }
            self.output_fields(fields, FieldPart::Serialize);
            self.unindent();
            self.write("}\n");
            if variant_index.is_none() {
                self.output_encodings(name, EncodingPart::Serialize);
            }
        }
    }

    /// Emits the method that reads a value and, for a class that is not a
    /// variant, the operations that decode from bytes.
    pub fn output_deserialize_method(
        &mut self,
        variant_index: Option<u32>,
        name: &str,
        fields: &Vec<Named<Format>>,
    )
        requires
            fields_resolved(field_views(fields@)),
        ensures
            final(self)@ == old(self)@.deserialize_method(
                tag_of(variant_index),
                name@,
                field_views(fields@),
            ),
    {
        if self.generator().config().serialization() {
            self.write("\nstatic ");
            self.write(name);
            if variant_index.is_none() {
                self.write(" deserialize(BinaryDeserializer deserializer){\n");
            } else {
                self.write(" load(BinaryDeserializer deserializer){\n");
            }
            self.indent();
            self.output_fields(fields, FieldPart::Deserialize);
            self.write("return new ");
            self.write(name);
            self.write("(");
            self.output_fields(fields, FieldPart::Argument);
            self.write(");\n");
            self.unindent();
            self.write("}\n");
            if variant_index.is_none() {
                self.output_encodings(name, EncodingPart::Deserialize);
            }
        }
    }

    /// Emits the equality operator.
    pub fn output_equality_operator(&mut self, name: &str, fields: &Vec<Named<Format>>)
        requires
            fields_resolved(field_views(fields@)),
        ensures
            final(self)@ == old(self)@.equality_operator(name@, field_views(fields@)),
    {
        self.write("\n@override");
        self.write("\nbool operator ==(covariant ");
        self.write(name);
        self.write(" other) {");
        self.indent();
        self.write("\nif (other == null) return false;\n");
        if fields.len() > 0 {
            self.write("\nif (");
            self.output_fields(fields, FieldPart::Equality);
            self.write("return true;}\n");
            self.write("else return false;\n");
        } else {
            self.write("return true;\n");
        }
        self.unindent();
        self.write("}\n");
    }

    /// Emits the hash code.
    pub fn output_hash_code(&mut self, fields: &Vec<Named<Format>>)
        requires
            fields_resolved(field_views(fields@)),
        ensures
            final(self)@ == old(self)@.hash_code(field_views(fields@)),
    {
        self.write("\n@override");
        self.write("\nint get hashCode {\n");
        self.indent();
        self.write("int value = 7;\n");
        self.output_fields(fields, FieldPart::Hash);
        self.write("return value;\n");
        self.unindent();
        self.write("}\n");
    }

    /// Emits the constructor from JSON.
    pub fn output_json_decoding(
        &mut self,
        variant_index: Option<u32>,
        name: &str,
        fields: &Vec<Named<Format>>,
        redefine: bool,
    )
        requires
            fields_resolved(field_views(fields@)),
        ensures
            final(self)@ == old(self)@.json_decoding(
                tag_of(variant_index),
                name@,
                field_views(fields@),
                redefine,
            ),
    {
        self.write("\n");
        self.write(name);
        if variant_index.is_none() {
            self.write(".fromJson(dynamic json)");
        } else {
            self.write(".loadJson(dynamic json)");
        }
        if fields.len() > 0 {
            self.write(" :\n");
            self.indent();
            if redefine {
                self.write(fields[0].name.as_str());
                self.write(" = json ;\n");
            } else {
                self.output_fields(fields, FieldPart::FromJson);
            }
            self.unindent();
        } else {
            self.write(";\n");
        }
    }

    /// Emits `toJson`.
    pub fn output_json_encoding(
        &mut self,
        variant_index: Option<u32>,
        fields: &Vec<Named<Format>>,
        redefine: bool,
        actual_name: &str,
    )
        requires
            fields_resolved(field_views(fields@)),
        ensures
            final(self)@ == old(self)@.json_encoding(
                tag_of(variant_index),
                field_views(fields@),
                redefine,
                actual_name@,
            ),
    {
        if !redefine {
            self.write("\ndynamic toJson() => {\n");
            self.indent();
            self.output_fields(fields, FieldPart::ToJson);
            match variant_index {
                Some(index) => {
                    self.write("\"type\" : ");
                    self.write_number(index as u64);
                    self.write(",\n");
                    self.write("\"type_name\" : \"");
                    self.write(actual_name);
                    self.write("\"\n");
                },
                None => {},
            }
            self.unindent();
            self.write("};\n");
        } else if fields.len() > 0 {
            self.write("\ndynamic toJson() => ");
            self.write(fields[0].name.as_str());
            self.write(";\n");
        }
    }

    /// Emits the class of a struct-like container or of one variant of an
    /// enum: the declarations of the fields, the constructor, the methods that
    /// write and read a value, equality and hash code, and the JSON bridge.
    pub fn output_struct_or_variant_container(
        &mut self,
        variant_base: Option<&str>,
        variant_index: Option<u32>,
        name: &str,
        fields: &Vec<Named<Format>>,
        redefine: bool,
        actual_name: &str,
    )
        requires
            fields_resolved(field_views(fields@)),
        ensures
            final(self)@ == old(self)@.struct_or_variant(
                class_view(
                    variant_base,
                    variant_index,
                    name@,
                    field_views(fields@),
                    redefine,
                    actual_name@,
                ),
            ),
    {
        self.output_class_opening(variant_base, name, fields);
        self.output_constructor(name, fields);
        self.output_serialize_method(variant_index, name, fields);
        self.output_deserialize_method(variant_index, name, fields);
        self.output_equality_operator(name, fields);
        self.output_hash_code(fields);
        self.output_json_decoding(variant_index, name, fields, redefine);
        self.output_json_encoding(variant_index, fields, redefine, actual_name);
        self.unindent();
        self.leave_class();
        self.write("}\n");
    }
}

} // verus!
