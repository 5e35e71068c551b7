//! The shared class of helpers: for every entry of the helper table one
//! routine that writes a value of the shape and one that reads it.

use vstd::prelude::*;
use vstd::pervasive::unreached;
use vstd::string::StringExecFns;
use crate::emitter::{DartEmitter, EmitterView};
use crate::expr::{deserialize_expression, serialize_statement};
use crate::format::{all_resolved, format_views, registry_view, Format, FormatView, Registry};
use crate::helpers::{helper_table, helper_views, helpers_valid, HelperTable, HelperView};
use crate::text::{decimal, push_decimal};
use crate::types::type_expr;
use crate::walk::registry_resolved;

verus! {

/// What the routine that writes a map does once every entry is written: the
/// serializer puts the entries, whose places in the buffer were recorded as
/// they were written, in the order of the bytes of their keys.
pub open spec fn canonical_order_of_entries() -> Seq<char> {
    "serializer.sort_map_entries(offsets);"@
}

/// What the routine that reads a map does with every key but the first: the
/// deserializer is given the places of the bytes of the previous key and of
/// this key, and fails unless the bytes increase strictly.
pub open spec fn key_order_check() -> Seq<char> {
    "if (i > 0) {\n        deserializer.check_that_key_slices_are_increasing(\n            new Slice(previous_key_start, previous_key_end),\n            new Slice(key_start, key_end));\n    }"@
}

impl EmitterView {
    /// The state after the statements that write the first `n` parts of a
    /// tuple, each by its position, which counts from one.
    pub open spec fn tuple_writers(self, formats: Seq<FormatView>, n: nat) -> EmitterView
        decreases n,
    {
        if n == 0 {
            self
        } else {
            self.tuple_writers(formats, (n - 1) as nat).put(
                serialize_statement("value.item"@ + decimal(n), formats[n - 1]),
            ).put("\n"@)
        }
    }

    /// The state after the expressions that read the first `n` parts of a
    /// tuple, each on a line of its own, with commas between them.
    pub open spec fn tuple_readers(self, formats: Seq<FormatView>, n: nat) -> EmitterView
        decreases n,
    {
        if n == 0 {
            self
        } else {
            let before = self.tuple_readers(formats, (n - 1) as nat);
            (if n > 1 {
                before.put(","@)
            } else {
                before
            }).put("\n    "@).put(deserialize_expression(self.definitions(), formats[n - 1]))
        }
    }

    /// The state after the body of the routine that writes a value of a
    /// composite shape.
    ///
    /// An optional value is a presence tag and, where present, the value. A
    /// sequence is its length and its elements in order. A map is its length
    /// and its entries, key before value, which the serializer then puts in
    /// the order of the bytes of their keys. A tuple is its parts in order. A
    /// fixed-size array is its elements in order, after a check of its length.
    pub open spec fn serialization_body(self, format: FormatView) -> EmitterView {
        match format {
            FormatView::Option(inner) => self.put(
                "\nif (value.isPresent) {\n    serializer.serialize_option_tag(true);\n    "@,
            ).put(serialize_statement("value.value"@, *inner)).put(
                "\n} else {\n    serializer.serialize_option_tag(false);\n}\n"@,
            ),
            FormatView::Sequence(inner) => self.put(
                "\nserializer.serialize_len(value.length);\nfor ("@,
            ).put(type_expr(self.definitions(), *inner)).put(" item in value) {\n    "@).put(
                serialize_statement("item"@, *inner),
            ).put("\n}\n"@),
            FormatView::Mapping { key, value } => self.put(
                "\nserializer.serialize_len(value.length);\nList<int> offsets = new List<int>();\nint count = 0;\nfor (Map.Entry<"@,
            ).put(type_expr(self.definitions(), *key)).put(", "@).put(type_expr(self.definitions(), *value)).put(
                "> entry : value.entrySet()) {\n    offsets[count++] = serializer.get_buffer_offset();\n    "@,
            ).put(serialize_statement("entry.getKey()"@, *key)).put("\n    "@).put(
                serialize_statement("entry.getValue()"@, *value),
            ).put("\n}\n"@).put(canonical_order_of_entries()).put("\n"@),
            FormatView::Tuple(formats) => self.put("\n"@).tuple_writers(formats, formats.len()),
            FormatView::TupleArray { content, size } => self.put(
                "\nassert (value.length == "@,
            ).put_number(size).put(");\nfor ("@).put(type_expr(self.definitions(), *content)).put(
                " item in value) {\n    "@,
            ).put(serialize_statement("item"@, *content)).put("\n}\n"@),
            _ => self,
        }
    }

    /// The state after the routine that writes a value of a composite shape.
    pub open spec fn serialization_helper(self, name: Seq<char>, format: FormatView)
        -> EmitterView {
        self.put("static void serialize_"@).put(name).put("("@).put(type_expr(self.definitions(), format)).put(
            " value, BinarySerializer serializer) {"@,
        ).indent().serialization_body(format).unindent().put("}\n\n"@)
    }

    /// The state after the body of the routine that reads a value of a
    /// composite shape.
    ///
    /// An optional value is read as its tag and, where the tag says so, the
    /// value. A sequence is read as its length and that many elements. A map
    /// is read as its length and that many entries; from the second entry on,
    /// the deserializer is given the bytes of the previous key and of this
    /// key and rejects the input unless they increase. A tuple is read part
    /// by part. A fixed-size array is read as the declared number of elements.
    pub open spec fn deserialization_body(self, format: FormatView) -> EmitterView {
        match format {
            FormatView::Option(inner) => self.put(
                "\nbool tag = deserializer.deserialize_option_tag();\nif (!tag) {\n    return Optional.empty();\n} else {\n    return Optional.of("@,
            ).put(deserialize_expression(self.definitions(), *inner)).put(");\n}\n"@),
            FormatView::Sequence(inner) => self.put(
                "\nint length = deserializer.deserialize_len();\nList<"@,
            ).put(type_expr(self.definitions(), *inner)).put("> obj = new List<"@).put(type_expr(self.definitions(), *inner)).put(
                ">(length);\nfor (int i = 0; i < length; i++) {\n    obj[i]="@,
            ).put(deserialize_expression(self.definitions(), *inner)).put(";\n}\nreturn obj;\n"@),
            FormatView::Mapping { key, value } => self.put(
                "\nint length = deserializer.deserialize_len();\nMap<"@,
            ).put(type_expr(self.definitions(), *key)).put(", "@).put(type_expr(self.definitions(), *value)).put(
                "> obj = new HashMap<"@,
            ).put(type_expr(self.definitions(), *key)).put(", "@).put(type_expr(self.definitions(), *value)).put(
                ">();\nint previous_key_start = 0;\nint previous_key_end = 0;\nfor (int i = 0; i < length; i++) {\n    int key_start = deserializer.get_buffer_offset();\n    "@,
            ).put(type_expr(self.definitions(), *key)).put(" key = "@).put(deserialize_expression(self.definitions(), *key)).put(
                ";\n    int key_end = deserializer.get_buffer_offset();\n    "@,
            ).put(key_order_check()).put(
                "\n    previous_key_start = key_start;\n    previous_key_end = key_end;\n    "@,
            ).put(type_expr(self.definitions(), *value)).put(" value = "@).put(deserialize_expression(self.definitions(), *value)).put(
                ";\n    obj.put(key, value);\n}\nreturn obj;\n"@,
            ),
            FormatView::Tuple(formats) => self.put("\nreturn new "@).put(type_expr(self.definitions(), format)).put(
                "("@,
            ).tuple_readers(formats, formats.len()).put("\n);\n"@),
            FormatView::TupleArray { content, size } => self.put("\nList<"@).put(
                type_expr(self.definitions(), *content),
            ).put("> obj = new List<"@).put(type_expr(self.definitions(), *content)).put(">.filled("@).put_number(
                size,
            ).put(", 0);\nfor (int i = 0; i < "@).put_number(size).put(
                "; i++) {\n    obj[i] = "@,
            ).put(deserialize_expression(self.definitions(), *content)).put(";\n}\nreturn obj;\n"@),
            _ => self,
        }
    }

    /// The state after the routine that reads a value of a composite shape.
    pub open spec fn deserialization_helper(self, name: Seq<char>, format: FormatView)
        -> EmitterView {
        self.put("static "@).put(type_expr(self.definitions(), format)).put(" deserialize_"@).put(name).put(
            "(BinaryDeserializer deserializer) {"@,
        ).indent().deserialization_body(format).unindent().put("}\n\n"@)
    }

    /// The state after the pairs of routines of the first `n` entries of the table.
    pub open spec fn helpers_upto(self, table: Seq<HelperView>, n: nat) -> EmitterView
        decreases n,
    {
        if n == 0 {
            self
        } else {
            self.helpers_upto(table, (n - 1) as nat).serialization_helper(
                table[n - 1].name,
                table[n - 1].format,
            ).deserialization_helper(table[n - 1].name, table[n - 1].format)
        }
    }

    /// The state after the class that holds one pair of routines for every
    /// entry of the table, in the order of the table.
    pub open spec fn trait_helpers(self, table: Seq<HelperView>) -> EmitterView {
        self.put("class TraitHelpers {\n"@).enter_class("TraitHelpers"@).helpers_upto(
            table,
            table.len(),
        ).leave_class().put("}\n\n"@)
    }
}

impl<'a> DartEmitter<'a> {
    /// Emits the statements that write the parts of a tuple.
    pub fn output_tuple_writers(&mut self, formats: &Vec<Format>)
        requires
            all_resolved(format_views(formats@)),
        ensures
            final(self)@ == old(self)@.tuple_writers(format_views(formats@), formats@.len()),
    {
        let mut i: usize = 0;
        while i < formats.len()
            invariant
                i <= formats.len(),
                all_resolved(format_views(formats@)),
                self@.config == old(self)@.config,
                self@ == old(self)@.tuple_writers(format_views(formats@), i as nat),
            decreases formats.len() - i,
        {
            assert(format_views(formats@)[i as int].is_resolved());
            let mut expr = String::from_str("value.item");
            push_decimal(&mut expr, (i + 1) as u64);
            let statement = self.quote_serialize_value(expr.as_str(), &formats[i]);
            self.write(statement.as_str());
            self.write("\n");
            i += 1;
        }
    }

    /// Emits the expressions that read the parts of a tuple.
    pub fn output_tuple_readers(&mut self, formats: &Vec<Format>)
        requires
            all_resolved(format_views(formats@)),
        ensures
            final(self)@ == old(self)@.tuple_readers(format_views(formats@), formats@.len()),
    {
        let mut i: usize = 0;
        while i < formats.len()
            invariant
                i <= formats.len(),
                all_resolved(format_views(formats@)),
                self@.config == old(self)@.config,
                self@ == old(self)@.tuple_readers(format_views(formats@), i as nat),
            decreases formats.len() - i,
        {
            assert(format_views(formats@)[i as int].is_resolved());
            if i > 0 {
                self.write(",");
            }
            self.write("\n    ");
            let expression = self.quote_deserialize(&formats[i]);
            self.write(expression.as_str());
            i += 1;
        }
    }

    /// Emits the routine that writes a value of the composite shape
    /// `format0`, under the name that ends in `name`.
    pub fn output_serialization_helper(&mut self, name: &str, format0: &Format)
        requires
            format0@.is_resolved(),
            format0@.needs_helper(),
        ensures
            final(self)@ == old(self)@.serialization_helper(name@, format0@),
    {
        self.write("static void serialize_");
        self.write(name);
        self.write("(");
        let ty = self.type_text(format0);
        self.write(ty.as_str());
        self.write(" value, BinarySerializer serializer) {");
        self.indent();
        match format0 {
            Format::Option(format) => {
                self.write(
                    "\nif (value.isPresent) {\n    serializer.serialize_option_tag(true);\n    ",
                );
                let statement = self.quote_serialize_value("value.value", format);
                self.write(statement.as_str());
                self.write("\n} else {\n    serializer.serialize_option_tag(false);\n}\n");
            },
            Format::Sequence(format) => {
                self.write("\nserializer.serialize_len(value.length);\nfor (");
                let item = self.type_text(format);
                self.write(item.as_str());
                self.write(" item in value) {\n    ");
                let statement = self.quote_serialize_value("item", format);
                self.write(statement.as_str());
                self.write("\n}\n");
            },
            Format::Mapping { key, value } => {
                self.write(
                    "\nserializer.serialize_len(value.length);\nList<int> offsets = new List<int>();\nint count = 0;\nfor (Map.Entry<",
                );
                let key_type = self.type_text(key);
                self.write(key_type.as_str());
                self.write(", ");
                let value_type = self.type_text(value);
                self.write(value_type.as_str());
                self.write(
                    "> entry : value.entrySet()) {\n    offsets[count++] = serializer.get_buffer_offset();\n    ",
                );
                let key_statement = self.quote_serialize_value("entry.getKey()", key);
                self.write(key_statement.as_str());
                self.write("\n    ");
                let value_statement = self.quote_serialize_value("entry.getValue()", value);
                self.write(value_statement.as_str());
                self.write("\n}\n");
                self.write("serializer.sort_map_entries(offsets);");
                self.write("\n");
            },
            Format::Tuple(formats) => {
                self.write("\n");
                self.output_tuple_writers(formats);
            },
            Format::TupleArray { content, size } => {
                self.write("\nassert (value.length == ");
                self.write_number(*size as u64);
                self.write(");\nfor (");
                let item = self.type_text(content);
                self.write(item.as_str());
                self.write(" item in value) {\n    ");
                let statement = self.quote_serialize_value("item", content);
                self.write(statement.as_str());
                self.write("\n}\n");
            },
            _ => unreached(),
        }
        self.unindent();
        self.write("}\n\n");
    }

    /// Emits the routine that reads a value of the composite shape `format0`,
    /// under the name that ends in `name`.
    pub fn output_deserialization_helper(&mut self, name: &str, format0: &Format)
        requires
            format0@.is_resolved(),
            format0@.needs_helper(),
        ensures
            final(self)@ == old(self)@.deserialization_helper(name@, format0@),
    {
        self.write("static ");
        let ty = self.type_text(format0);
        self.write(ty.as_str());
        self.write(" deserialize_");
        self.write(name);
        self.write("(BinaryDeserializer deserializer) {");
        self.indent();
        match format0 {
            Format::Option(format) => {
                self.write(
                    "\nbool tag = deserializer.deserialize_option_tag();\nif (!tag) {\n    return Optional.empty();\n} else {\n    return Optional.of(",
                );
                let expression = self.quote_deserialize(format);
                self.write(expression.as_str());
                self.write(");\n}\n");
            },
            Format::Sequence(format) => {
                let item = self.type_text(format);
                self.write("\nint length = deserializer.deserialize_len();\nList<");
                self.write(item.as_str());
                self.write("> obj = new List<");
                self.write(item.as_str());
                self.write(">(length);\nfor (int i = 0; i < length; i++) {\n    obj[i]=");
                let expression = self.quote_deserialize(format);
                self.write(expression.as_str());
                self.write(";\n}\nreturn obj;\n");
            },
            Format::Mapping { key, value } => {
                let key_type = self.type_text(key);
                let value_type = self.type_text(value);
                self.write("\nint length = deserializer.deserialize_len();\nMap<");
                self.write(key_type.as_str());
                self.write(", ");
                self.write(value_type.as_str());
                self.write("> obj = new HashMap<");
                self.write(key_type.as_str());
                self.write(", ");
                self.write(value_type.as_str());
                self.write(
                    ">();\nint previous_key_start = 0;\nint previous_key_end = 0;\nfor (int i = 0; i < length; i++) {\n    int key_start = deserializer.get_buffer_offset();\n    ",
                );
                self.write(key_type.as_str());
                self.write(" key = ");
                let key_expression = self.quote_deserialize(key);
                self.write(key_expression.as_str());
                self.write(";\n    int key_end = deserializer.get_buffer_offset();\n    ");
                self.write(
                    "if (i > 0) {\n        deserializer.check_that_key_slices_are_increasing(\n            new Slice(previous_key_start, previous_key_end),\n            new Slice(key_start, key_end));\n    }",
                );
                self.write(
                    "\n    previous_key_start = key_start;\n    previous_key_end = key_end;\n    ",
                );
                self.write(value_type.as_str());
                self.write(" value = ");
                let value_expression = self.quote_deserialize(value);
                self.write(value_expression.as_str());
                self.write(";\n    obj.put(key, value);\n}\nreturn obj;\n");
            },
            Format::Tuple(formats) => {
                self.write("\nreturn new ");
                self.write(ty.as_str());
                self.write("(");
                self.output_tuple_readers(formats);
                self.write("\n);\n");
            },
            Format::TupleArray { content, size } => {
                let item = self.type_text(content);
                self.write("\nList<");
                self.write(item.as_str());
                self.write("> obj = new List<");
                self.write(item.as_str());
                self.write(">.filled(");
                self.write_number(*size as u64);
                self.write(", 0);\nfor (int i = 0; i < ");
                self.write_number(*size as u64);
                self.write("; i++) {\n    obj[i] = ");
                let expression = self.quote_deserialize(content);
                self.write(expression.as_str());
                self.write(";\n}\nreturn obj;\n");
            },
            _ => unreached(),
        }
        self.unindent();
        self.write("}\n\n");
    }

    /// Emits the class that holds one pair of routines for every entry of
    /// the table, in the order of the table.
    pub fn output_helpers(&mut self, table: &HelperTable)
        requires
            table.wf(),
        ensures
            final(self)@ == old(self)@.trait_helpers(table@),
    {
        self.write("class TraitHelpers {\n");
        self.enter_class("TraitHelpers");
        let ghost opened = self@;
        let entries = table.entries();
        let mut i: usize = 0;
        while i < entries.len()
            invariant
                i <= entries.len(),
                helper_views(entries@) == table@,
                helpers_valid(table@),
                self@ == opened.helpers_upto(table@, i as nat),
            decreases entries.len() - i,
        {
            assert(table@[i as int] == entries@[i as int]@);
            assert(table@[i as int].format.needs_helper());
            let name = entries[i].name.as_str();
            self.output_serialization_helper(name, &entries[i].format);
            self.output_deserialization_helper(name, &entries[i].format);
            i += 1;
        }
        self.leave_class();
        self.write("}\n\n");
    }

    /// Emits the class of helpers for the registry: exactly one pair of
    /// routines for every distinct composite shape that occurs in it.
    pub fn output_trait_helpers(&mut self, registry: &Registry)
        requires
            registry_resolved(registry_view(registry@)),
        ensures
            final(self)@ == old(self)@.trait_helpers(helper_table(registry_view(registry@))),
    {
        let table = HelperTable::build(registry);
        self.output_helpers(&table);
    }
}

} // verus!
