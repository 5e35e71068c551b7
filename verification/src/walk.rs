//! The depth-first walk of a registry: every format that occurs in it, the
//! parts of a shape before the shape itself.

use vstd::prelude::*;
use crate::format::{ContainerView, EntryView, FieldView, FormatView, VariantEntryView, VariantView};

verus! {

/// The formats met on a depth-first walk of `format`: the parts of a shape
/// before the shape itself.
pub open spec fn visit(format: FormatView) -> Seq<FormatView>
    decreases format, 0nat,
{
    match format {
        FormatView::Option(inner) => visit(*inner).push(format),
        FormatView::Sequence(inner) => visit(*inner).push(format),
        FormatView::Mapping { key, value } => (visit(*key) + visit(*value)).push(format),
        FormatView::Tuple(formats) => visit_formats(formats, formats.len()).push(format),
        FormatView::TupleArray { content, size } => visit(*content).push(format),
        _ => seq![format],
    }
}

/// The formats met on a walk of the first `n` formats of a list, in order.
pub open spec fn visit_formats(formats: Seq<FormatView>, n: nat) -> Seq<FormatView>
    decreases formats, n,
{
    if n == 0 || n > formats.len() {
        Seq::empty()
    } else {
        visit_formats(formats, (n - 1) as nat) + visit(formats[n - 1])
    }
}

/// The formats met on a walk of the first `n` fields of a list, in order.
pub open spec fn visit_fields(fields: Seq<FieldView>, n: nat) -> Seq<FormatView>
    decreases n,
{
    if n == 0 || n > fields.len() {
        Seq::empty()
    } else {
        visit_fields(fields, (n - 1) as nat) + visit(fields[n - 1].value)
    }
}

/// The formats met on a walk of a variant.
pub open spec fn visit_variant(variant: VariantView) -> Seq<FormatView> {
    match variant {
        VariantView::Variable => Seq::empty(),
        VariantView::Unit => Seq::empty(),
        VariantView::NewType(inner) => visit(inner),
        VariantView::Tuple(formats) => visit_formats(formats, formats.len()),
        VariantView::Struct(fields) => visit_fields(fields, fields.len()),
    }
}

/// The formats met on a walk of the first `n` variants of an enum, in order.
pub open spec fn visit_variants(variants: Seq<VariantEntryView>, n: nat) -> Seq<FormatView>
    decreases n,
{
    if n == 0 || n > variants.len() {
        Seq::empty()
    } else {
        visit_variants(variants, (n - 1) as nat) + visit_variant(variants[n - 1].value)
    }
}

/// The formats met on a walk of a container.
pub open spec fn visit_container(container: ContainerView) -> Seq<FormatView> {
    match container {
        ContainerView::UnitStruct => Seq::empty(),
        ContainerView::NewTypeStruct(inner) => visit(inner),
        ContainerView::TupleStruct(formats) => visit_formats(formats, formats.len()),
        ContainerView::Struct(fields) => visit_fields(fields, fields.len()),
        ContainerView::Enum(variants) => visit_variants(variants, variants.len()),
    }
}

/// The formats met on a walk of the first `n` containers of a registry, in order.
pub open spec fn visit_registry(registry: Seq<EntryView>, n: nat) -> Seq<FormatView>
    decreases n,
{
    if n == 0 || n > registry.len() {
        Seq::empty()
    } else {
        visit_registry(registry, (n - 1) as nat) + visit_container(registry[n - 1].format)
    }
}

/// Every container of the registry is free of placeholders.
pub open spec fn registry_resolved(registry: Seq<EntryView>) -> bool {
    forall|i: int| 0 <= i < registry.len() ==> (#[trigger] registry[i]).format.is_resolved()
}

/// The parts that a shape is made of, in order. A format that is no
/// composite shape has none.
pub open spec fn parts(format: FormatView) -> Seq<FormatView> {
    match format {
        FormatView::Option(inner) => seq![*inner],
        FormatView::Sequence(inner) => seq![*inner],
        FormatView::Mapping { key, value } => seq![*key, *value],
        FormatView::Tuple(formats) => formats,
        FormatView::TupleArray { content, size } => seq![*content],
        _ => Seq::empty(),
    }
}

} // verus!
