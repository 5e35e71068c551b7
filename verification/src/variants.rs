//! The enum emitter and the dispatch on the kind of a container: the abstract
//! class of an enum with its tag dispatch, and one class for each variant.

use vstd::prelude::*;
use vstd::pervasive::unreached;
use vstd::string::StringExecFns;
use crate::container::{ClassView, EncodingPart};
use crate::emitter::{DartEmitter, EmitterView};
use crate::format::{
    clone_fields, clone_format, field_views, format_views, variant_views, variants_resolved,
    ContainerFormat, ContainerView, FieldView, Format, FormatView, Named, VariantEntryView,
    VariantFormat, VariantView,
};
use crate::text::{decimal, push_decimal};

verus! {

/// The one field of a class that wraps a value.
pub open spec fn wrapped_field(format: FormatView) -> Seq<FieldView> {
    seq![FieldView { name: "value"@, value: format }]
}

/// The fields of a class with unnamed fields: each is named by its position,
/// which counts from zero.
pub open spec fn tuple_fields(formats: Seq<FormatView>) -> Seq<FieldView> {
    Seq::new(
        formats.len(),
        |i: int| FieldView { name: "field"@ + decimal(i as nat), value: formats[i] },
    )
}

/// The fields of the class of a struct-like container.
pub open spec fn container_fields(container: ContainerView) -> Seq<FieldView> {
    match container {
        ContainerView::NewTypeStruct(inner) => wrapped_field(inner),
        ContainerView::TupleStruct(formats) => tuple_fields(formats),
        ContainerView::Struct(fields) => fields,
        _ => Seq::empty(),
    }
}

/// The fields of the class of a variant.
pub open spec fn variant_fields(variant: VariantView) -> Seq<FieldView> {
    match variant {
        VariantView::NewType(inner) => wrapped_field(inner),
        VariantView::Tuple(formats) => tuple_fields(formats),
        VariantView::Struct(fields) => fields,
        _ => Seq::empty(),
    }
}

/// The name of the class of a variant of the enum `base`.
pub open spec fn variant_class_name(base: Seq<char>, variant: Seq<char>) -> Seq<char> {
    base + variant + "Item"@
}

/// The class of a variant of the enum `base`: it extends the class of the
/// enum, writes its tag before its fields and is read by `load`.
pub open spec fn variant_class(base: Seq<char>, entry: VariantEntryView) -> ClassView {
    ClassView {
        variant_base: Some(base),
        variant_index: Some(entry.index),
        name: variant_class_name(base, entry.name),
        fields: variant_fields(entry.value),
        redefine: false,
        actual_name: entry.name,
    }
}

/// The class of a struct-like container. A container that wraps one value is
/// transparent in JSON.
pub open spec fn struct_class(name: Seq<char>, container: ContainerView) -> ClassView {
    ClassView {
        variant_base: None,
        variant_index: None,
        name,
        fields: container_fields(container),
        redefine: container is NewTypeStruct,
        actual_name: name,
    }
}

impl EmitterView {
    /// The state after the cases of the first `n` variants in a dispatch on
    /// the tag: each tag selects the routine of its variant's class that reads
    /// the fields, from bytes or from JSON.
    pub open spec fn cases_upto(
        self,
        name: Seq<char>,
        variants: Seq<VariantEntryView>,
        n: nat,
        json: bool,
    ) -> EmitterView
        decreases n,
    {
        if n == 0 {
            self
        } else {
            self.cases_upto(name, variants, (n - 1) as nat, json).put("case "@).put_number(
                variants[n - 1].index,
            ).put(": return "@).put(name).put(variants[n - 1].name).put(
                if json {
                    "Item.loadJson(json);\n"@
                } else {
                    "Item.load(deserializer);\n"@
                },
            )
        }
    }

    /// The state after the last case of a dispatch on the tag: a tag that is
    /// the tag of no variant makes the dispatch fail. No variant stands in
    /// for an unknown tag.
    pub open spec fn unknown_tag(self, name: Seq<char>, json: bool) -> EmitterView {
        if json {
            self.put("default: throw new Exception(\"Unknown type for "@).put(name).put(
                ": \" + type.toString());\n"@,
            )
        } else {
            self.put("default: throw new Exception(\"Unknown variant index for "@).put(name).put(
                ": \" + index.toString());\n"@,
            )
        }
    }

    /// The state after the dispatchers of an enum, which are emitted where the
    /// configuration asks for serialization code: the declaration of
    /// `serialize`; `deserialize`, which reads the tag and switches over the
    /// tags of the variants, throwing on any other; the operations of every
    /// active encoding; and the same dispatch for JSON.
    pub open spec fn enum_dispatch(self, name: Seq<char>, variants: Seq<VariantEntryView>)
        -> EmitterView {
        if self.config.serialization {
            self.put("\nvoid serialize(BinarySerializer serializer);\n"@).put("\nstatic "@).put(
                name,
            ).put(" deserialize(BinaryDeserializer deserializer) {"@).indent().put(
                "\nint index = deserializer.deserialize_variant_index();\nswitch (index) {\n"@,
            ).indent().cases_upto(name, variants, variants.len(), false).unknown_tag(
                name,
                false,
            ).unindent().put(
                "}\n"@,
            ).unindent().put("}\n"@).all_encodings(name, EncodingPart::Both).put(
                "\nstatic "@,
            ).put(name).put(
                " fromJson(dynamic json){\n  final type = json['type'] as int;\n  switch (type) {\n"@,
            ).indent().indent().cases_upto(name, variants, variants.len(), true).unknown_tag(
                name,
                true,
            ).unindent().put(
                "}\n"@,
            ).unindent().put("}\n"@).put("\ndynamic toJson();\n"@)
        } else {
            self
        }
    }

    /// The state after the classes of the first `n` variants.
    pub open spec fn variants_upto(
        self,
        base: Seq<char>,
        variants: Seq<VariantEntryView>,
        n: nat,
    ) -> EmitterView
        decreases n,
    {
        if n == 0 {
            self
        } else {
            self.variants_upto(base, variants, (n - 1) as nat).struct_or_variant(
                variant_class(base, variants[n - 1]),
            )
        }
    }

    /// The state after the abstract class of an enum and the classes of its
    /// variants, in the order of the variants.
    pub open spec fn enum_container(self, name: Seq<char>, variants: Seq<VariantEntryView>)
        -> EmitterView {
        self.put("\n"@).put("abstract class "@).put(name).put(" {\n"@).enter_class(name).put(
            name,
        ).put("();\n"@).enum_dispatch(name, variants).unindent().unindent().put(
            "}\n\n"@,
        ).variants_upto(name, variants, variants.len()).leave_class()
    }

    /// The state after everything that is emitted for a container.
    pub open spec fn container(self, name: Seq<char>, container: ContainerView) -> EmitterView {
        match container {
            ContainerView::Enum(variants) => self.enum_container(name, variants),
            _ => self.struct_or_variant(struct_class(name, container)),
        }
    }
}

/// The one field of a class that wraps a value of the given format.
pub fn wrapped_field_of(format: &Format) -> (r: Vec<Named<Format>>)
    ensures
        field_views(r@) == wrapped_field(format@),
{
    let mut fields: Vec<Named<Format>> = Vec::new();
    fields.push(Named { name: String::from_str("value"), value: clone_format(format) });
    assert(field_views(fields@) =~= wrapped_field(format@));
    fields
}

/// The fields of a class with unnamed fields of the given formats.
pub fn tuple_fields_of(formats: &Vec<Format>) -> (r: Vec<Named<Format>>)
    ensures
        field_views(r@) == tuple_fields(format_views(formats@)),
{
    let mut fields: Vec<Named<Format>> = Vec::new();
    let mut i: usize = 0;
    while i < formats.len()
        invariant
            i <= formats.len(),
            field_views(fields@) == tuple_fields(format_views(formats@)).take(i as int),
        decreases formats.len() - i,
    {
        let ghost before = field_views(fields@);
        let mut name = String::from_str("field");
        push_decimal(&mut name, i as u64);
        fields.push(Named { name, value: clone_format(&formats[i]) });
        assert(field_views(fields@) =~= before.push(
            tuple_fields(format_views(formats@))[i as int],
        ));
        i += 1;
        assert(field_views(fields@) =~= tuple_fields(format_views(formats@)).take(i as int));
    }
    assert(tuple_fields(format_views(formats@)).take(i as int) =~= tuple_fields(
        format_views(formats@),
    ));
    fields
}

impl<'a> DartEmitter<'a> {
    /// Emits the cases of a dispatch on the tag of an enum.
    pub fn output_dispatch_cases(
        &mut self,
        name: &str,
        variants: &Vec<(u32, Named<VariantFormat>)>,
        json: bool,
    )
        ensures
            final(self)@ == old(self)@.cases_upto(
                name@,
                variant_views(variants@),
                variants@.len(),
                json,
            ),
    {
        let mut i: usize = 0;
        while i < variants.len()
            invariant
                i <= variants.len(),
                self@ == old(self)@.cases_upto(name@, variant_views(variants@), i as nat, json),
            decreases variants.len() - i,
        {
            self.write("case ");
            self.write_number(variants[i].0 as u64);
            self.write(": return ");
            self.write(name);
            self.write(variants[i].1.name.as_str());
            if json {
                self.write("Item.loadJson(json);\n");
            } else {
                self.write("Item.load(deserializer);\n");
            }
            i += 1;
        }
    }

    /// Emits the last case of a dispatch on the tag, which rejects every tag
    /// that is the tag of no variant.
    pub fn output_unknown_tag(&mut self, name: &str, json: bool)
        ensures
            final(self)@ == old(self)@.unknown_tag(name@, json),
    {
        if json {
            self.write("default: throw new Exception(\"Unknown type for ");
            self.write(name);
            self.write(": \" + type.toString());\n");
        } else {
            self.write("default: throw new Exception(\"Unknown variant index for ");
            self.write(name);
            self.write(": \" + index.toString());\n");
        }
    }

    /// Emits the dispatchers of an enum.
    pub fn output_enum_dispatch(&mut self, name: &str, variants: &Vec<(u32, Named<VariantFormat>)>)
        ensures
            final(self)@ == old(self)@.enum_dispatch(name@, variant_views(variants@)),
    {
        if self.generator().config().serialization() {
            self.write("\nvoid serialize(BinarySerializer serializer);\n");
            self.write("\nstatic ");
            self.write(name);
            self.write(" deserialize(BinaryDeserializer deserializer) {");
            self.indent();
            self.write(
                "\nint index = deserializer.deserialize_variant_index();\nswitch (index) {\n",
            );
            self.indent();
            self.output_dispatch_cases(name, variants, false);
            self.output_unknown_tag(name, false);
            self.unindent();
            self.write("}\n");
            self.unindent();
            self.write("}\n");
            self.output_encodings(name, EncodingPart::Both);
            self.write("\nstatic ");
            self.write(name);
            self.write(
                " fromJson(dynamic json){\n  final type = json['type'] as int;\n  switch (type) {\n",
            );
            self.indent();
            self.indent();
            self.output_dispatch_cases(name, variants, true);
            self.output_unknown_tag(name, true);
            self.unindent();
            self.write("}\n");
            self.unindent();
            self.write("}\n");
            self.write("\ndynamic toJson();\n");
        }
    }

    /// Emits the class of one variant of the enum `base`.
    pub fn output_variant(
        &mut self,
        base: &str,
        index: u32,
        name: &str,
        variant: &VariantFormat,
        actual_name: &str,
    )
        requires
            variant@.is_resolved(),
        ensures
            final(self)@ == old(self)@.struct_or_variant(
                (ClassView {
                    variant_base: Some(base@),
                    variant_index: Some(index as nat),
                    name: name@,
                    fields: variant_fields(variant@),
                    redefine: false,
                    actual_name: actual_name@,
                }),
            ),
    {
        let fields = match variant {
            VariantFormat::Unit => Vec::new(),
            VariantFormat::NewType(format) => wrapped_field_of(format),
            VariantFormat::Tuple(formats) => tuple_fields_of(formats),
            VariantFormat::Struct(fields) => clone_fields(fields),
            VariantFormat::Variable => unreached(),
        };
        proof {
            let views = field_views(fields@);
            assert(views =~= variant_fields(variant@));
            assert forall|i: int| 0 <= i < views.len() implies (#[trigger] views[i]).value.is_resolved() by {
                match variant@ {
                    VariantView::Tuple(formats) => {
                        assert(formats[i].is_resolved());
                    },
                    _ => {},
                }
            }
        }
        self.output_struct_or_variant_container(
            Some(base),
            Some(index),
            name,
            &fields,
            false,
            actual_name,
        );
    }

    /// Emits the classes of the variants of the enum `base`, in order.
    pub fn output_variants(&mut self, base: &str, variants: &Vec<(u32, Named<VariantFormat>)>)
        requires
            variants_resolved(variant_views(variants@)),
        ensures
            final(self)@ == old(self)@.variants_upto(
                base@,
                variant_views(variants@),
                variants@.len(),
            ),
    {
        let mut i: usize = 0;
        while i < variants.len()
            invariant
                i <= variants.len(),
                variants_resolved(variant_views(variants@)),
                self@ == old(self)@.variants_upto(base@, variant_views(variants@), i as nat),
            decreases variants.len() - i,
        {
            assert(variant_views(variants@)[i as int].value.is_resolved());
            let variant = &variants[i].1;
            let mut name = String::from_str(base);
            name.append(variant.name.as_str());
            name.append("Item");
            self.output_variant(
                base,
                variants[i].0,
                name.as_str(),
                &variant.value,
                variant.name.as_str(),
            );
            i += 1;
        }
    }

    /// Emits the abstract class of an enum, which dispatches on the tag, and
    /// the classes of its variants.
    pub fn output_enum_container(
        &mut self,
        name: &str,
        variants: &Vec<(u32, Named<VariantFormat>)>,
    )
        requires
            variants_resolved(variant_views(variants@)),
        ensures
            final(self)@ == old(self)@.enum_container(name@, variant_views(variants@)),
    {
        self.write("\n");
        self.write("abstract class ");
        self.write(name);
        self.write(" {\n");
        self.enter_class(name);
        self.write(name);
        self.write("();\n");
        self.output_enum_dispatch(name, variants);
        self.unindent();
        self.unindent();
        self.write("}\n\n");
        self.output_variants(name, variants);
        self.leave_class();
    }

    /// Emits everything for the container `name`: one class for a struct-like
    /// container; for an enum its abstract class and one class for each variant.
    pub fn output_container(&mut self, name: &str, format: &ContainerFormat)
        requires
            format@.is_resolved(),
        ensures
            final(self)@ == old(self)@.container(name@, format@),
    {
        let fields = match format {
            ContainerFormat::UnitStruct => Vec::new(),
            ContainerFormat::NewTypeStruct(inner) => wrapped_field_of(inner),
            ContainerFormat::TupleStruct(formats) => tuple_fields_of(formats),
            ContainerFormat::Struct(fields) => clone_fields(fields),
            ContainerFormat::Enum(variants) => {
                self.output_enum_container(name, variants);
                return ;
            },
        };
        let redefine = match format {
            ContainerFormat::NewTypeStruct(_) => true,
            _ => false,
        };
        proof {
            let views = field_views(fields@);
            assert(views =~= container_fields(format@));
            assert forall|i: int| 0 <= i < views.len() implies (#[trigger] views[i]).value.is_resolved() by {
                match format@ {
                    ContainerView::TupleStruct(formats) => {
                        assert(formats[i].is_resolved());
                    },
                    _ => {},
                }
            }
        }
        self.output_struct_or_variant_container(None, None, name, &fields, redefine, name);
    }
}

} // verus!
