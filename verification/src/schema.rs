//! What makes a registry unfit for generation.

use vstd::prelude::*;
use vstd::string::StringExecFns;
use crate::config::{
    contains_string, declares_types, definition_views, CodeGeneratorConfig, DefinitionsView,
};
use crate::format::{
    field_views, format_views, registry_view, variant_views, ContainerFormat, ContainerView,
    EntryView, FieldView, Format, FormatView, Named, Registry, VariantEntryView, VariantFormat,
    VariantView,
};
use crate::text::string_views;
use crate::walk::{
    registry_resolved, visit, visit_container, visit_fields, visit_formats, visit_registry,
    visit_variant, visit_variants,
};

verus! {

/// Why a schema is rejected.
#[derive(Clone, Copy, Debug, PartialEq, Eq, Structural)]
pub enum SchemaError {
    /// A placeholder for an unknown format occurs in the schema.
    UnresolvedFormat,
    /// A name is referred to that is neither in the registry nor declared externally.
    DanglingReference,
    /// Two variants of one enum have the same tag.
    DuplicateTag,
    /// The variants of an enum do not come in the order of their tags.
    UnorderedTags,
    /// Two containers, two fields of one container or two variants of one enum
    /// have the same name.
    DuplicateName,
}

impl SchemaError {
    /// A sentence that describes the error.
    pub fn message(&self) -> (r: String)
        ensures
            r@ == match *self {
                SchemaError::UnresolvedFormat => "the schema holds a format that is not known"@,
                SchemaError::DanglingReference => "the schema refers to a name that is not defined"@,
                SchemaError::DuplicateTag => "two variants of an enum have the same tag"@,
                SchemaError::UnorderedTags => "the variants of an enum are not in the order of their tags"@,
                SchemaError::DuplicateName => "a name is defined twice in one scope"@,
            },
    {
        match self {
            SchemaError::UnresolvedFormat => String::from_str(
                "the schema holds a format that is not known",
            ),
            SchemaError::DanglingReference => String::from_str(
                "the schema refers to a name that is not defined",
            ),
            SchemaError::DuplicateTag => String::from_str(
                "two variants of an enum have the same tag",
            ),
            SchemaError::UnorderedTags => String::from_str(
                "the variants of an enum are not in the order of their tags",
            ),
            SchemaError::DuplicateName => String::from_str("a name is defined twice in one scope"),
        }
    }
}

/// The names of the containers of a registry, in order.
pub open spec fn entry_names(registry: Seq<EntryView>) -> Seq<Seq<char>> {
    Seq::new(registry.len(), |i: int| registry[i].name)
}

/// The names of the fields of a list, in order.
pub open spec fn field_names(fields: Seq<FieldView>) -> Seq<Seq<char>> {
    Seq::new(fields.len(), |i: int| fields[i].name)
}

/// The names of the variants of an enum, in order.
pub open spec fn variant_names(variants: Seq<VariantEntryView>) -> Seq<Seq<char>> {
    Seq::new(variants.len(), |i: int| variants[i].name)
}

/// The tags of the variants of an enum, in order.
pub open spec fn variant_tags(variants: Seq<VariantEntryView>) -> Seq<nat> {
    Seq::new(variants.len(), |i: int| variants[i].index)
}

/// The names of the types declared under the first `n` namespaces of the
/// external definitions, in order.
pub open spec fn external_names(definitions: Seq<DefinitionsView>, n: nat) -> Seq<Seq<char>>
    decreases n,
{
    if n == 0 || n > definitions.len() {
        Seq::empty()
    } else {
        external_names(definitions, (n - 1) as nat) + if declares_types(definitions[n - 1]) {
            definitions[n - 1].names
        } else {
            Seq::empty()
        }
    }
}

/// The names that a reference may refer to: those of the containers of the
/// registry and those declared externally, under whatever namespace.
pub open spec fn known_names(registry: Seq<EntryView>, definitions: Seq<DefinitionsView>) -> Seq<
    Seq<char>,
> {
    entry_names(registry) + external_names(definitions, definitions.len())
}

/// Every reference among the formats of `visited` is to one of the names of `known`.
pub open spec fn all_known(visited: Seq<FormatView>, known: Seq<Seq<char>>) -> bool {
    forall|k: int|
        0 <= k < visited.len() ==> ((#[trigger] visited[k]) matches FormatView::TypeName(name)
            ==> known.contains(name))
}

/// Every reference that occurs in the registry is to a container of the
/// registry or to a name declared externally.
pub open spec fn references_defined(registry: Seq<EntryView>, definitions: Seq<DefinitionsView>)
    -> bool {
    all_known(visit_registry(registry, registry.len()), known_names(registry, definitions))
}

/// No two variants of the container have the same tag.
pub open spec fn tags_unique(container: ContainerView) -> bool {
    container matches ContainerView::Enum(variants) ==> variant_tags(variants).no_duplicates()
}

/// The variants of the container come in the strict order of their tags.
pub open spec fn tags_ascending(container: ContainerView) -> bool {
    container matches ContainerView::Enum(variants) ==> forall|i: int, j: int|
        0 <= i < j < variants.len() ==> (#[trigger] variants[i]).index < (
        #[trigger] variants[j]).index
}

/// No two fields of the variant have the same name.
pub open spec fn variant_names_unique(variant: VariantView) -> bool {
    variant matches VariantView::Struct(fields) ==> field_names(fields).no_duplicates()
}

/// No two fields of the container, no two of its variants and no two fields
/// of one of its variants have the same name.
pub open spec fn names_unique(container: ContainerView) -> bool {
    match container {
        ContainerView::Struct(fields) => field_names(fields).no_duplicates(),
        ContainerView::Enum(variants) => {
            &&& variant_names(variants).no_duplicates()
            &&& forall|i: int|
                0 <= i < variants.len() ==> variant_names_unique((#[trigger] variants[i]).value)
        },
        _ => true,
    }
}

/// No enum of the registry has two variants with the same tag.
pub open spec fn all_tags_unique(registry: Seq<EntryView>) -> bool {
    forall|i: int| 0 <= i < registry.len() ==> tags_unique((#[trigger] registry[i]).format)
}

/// The variants of every enum of the registry come in the strict order of
/// their tags.
pub open spec fn all_tags_ascending(registry: Seq<EntryView>) -> bool {
    forall|i: int| 0 <= i < registry.len() ==> tags_ascending((#[trigger] registry[i]).format)
}

/// No name is defined twice in one scope of the registry.
pub open spec fn all_names_unique(registry: Seq<EntryView>) -> bool {
    &&& entry_names(registry).no_duplicates()
    &&& forall|i: int| 0 <= i < registry.len() ==> names_unique((#[trigger] registry[i]).format)
}

/// What makes the registry unfit for generation, if anything does: a
/// placeholder; else a reference to a name that is not defined; else a tag
/// that occurs twice in one enum; else an enum whose variants do not come in
/// the order of their tags; else a name that occurs twice in one scope.
pub open spec fn schema_error(registry: Seq<EntryView>, definitions: Seq<DefinitionsView>)
    -> Option<SchemaError> {
    if !registry_resolved(registry) {
        Some(SchemaError::UnresolvedFormat)
    } else if !references_defined(registry, definitions) {
        Some(SchemaError::DanglingReference)
    } else if !all_tags_unique(registry) {
        Some(SchemaError::DuplicateTag)
    } else if !all_tags_ascending(registry) {
        Some(SchemaError::UnorderedTags)
    } else if !all_names_unique(registry) {
        Some(SchemaError::DuplicateName)
    } else {
        None
    }
}

proof fn lemma_all_known_concat(a: Seq<FormatView>, b: Seq<FormatView>, known: Seq<Seq<char>>)
    ensures
        all_known(a + b, known) <==> all_known(a, known) && all_known(b, known),
{
    if all_known(a + b, known) {
        assert forall|k: int| 0 <= k < a.len() implies ((#[trigger] a[k]) matches FormatView::TypeName(
            name,
        ) ==> known.contains(name)) by {
            assert((a + b)[k] == a[k]);
        }
        assert forall|k: int| 0 <= k < b.len() implies ((#[trigger] b[k]) matches FormatView::TypeName(
            name,
        ) ==> known.contains(name)) by {
            assert((a + b)[a.len() + k] == b[k]);
        }
    }
    if all_known(a, known) && all_known(b, known) {
        assert forall|k: int| 0 <= k < (a + b).len() implies ((#[trigger] (a + b)[k]) matches FormatView::TypeName(
            name,
        ) ==> known.contains(name)) by {
            if k < a.len() {
                assert((a + b)[k] == a[k]);
            } else {
                assert((a + b)[k] == b[k - a.len()]);
            }
        }
    }
}

proof fn lemma_all_known_push(a: Seq<FormatView>, f: FormatView, known: Seq<Seq<char>>)
    ensures
        all_known(a.push(f), known) <==> all_known(a, known) && (f matches FormatView::TypeName(
            name,
        ) ==> known.contains(name)),
{
    assert(a.push(f) =~= a + seq![f]);
    lemma_all_known_concat(a, seq![f], known);
    if all_known(seq![f], known) {
        assert(seq![f][0] == f);
    }
}

/// Whether every reference met on a walk of `format` is to one of `known`.
fn format_known(format: &Format, known: &Vec<String>) -> (r: bool)
    ensures
        r == all_known(visit(format@), string_views(known@)),
    decreases format,
{
    let ghost names = string_views(known@);
    match format {
        Format::TypeName(name) => {
            let r = contains_string(known, name);
            proof {
                lemma_all_known_push(Seq::empty(), format@, names);
                assert(Seq::<FormatView>::empty().push(format@) =~= seq![format@]);
            }
            r
        },
        Format::Option(inner) => {
            proof {
                lemma_all_known_push(visit(inner@), format@, names);
            }
            format_known(inner, known)
        },
        Format::Sequence(inner) => {
            proof {
                lemma_all_known_push(visit(inner@), format@, names);
            }
            format_known(inner, known)
        },
        Format::Mapping { key, value } => {
            proof {
                lemma_all_known_concat(visit(key@), visit(value@), names);
                lemma_all_known_push(visit(key@) + visit(value@), format@, names);
            }
            format_known(key, known) && format_known(value, known)
        },
        Format::Tuple(formats) => {
            proof {
                let parts = format_views(formats@);
                lemma_all_known_push(visit_formats(parts, parts.len()), format@, names);
            }
            formats_known(formats, known)
        },
        Format::TupleArray { content, size } => {
            proof {
                lemma_all_known_push(visit(content@), format@, names);
            }
            format_known(content, known)
        },
        _ => {
            proof {
                lemma_all_known_push(Seq::empty(), format@, names);
                assert(Seq::<FormatView>::empty().push(format@) =~= seq![format@]);
            }
            true
        },
    }
}

/// Whether every reference met on a walk of the formats is to one of `known`.
fn formats_known(formats: &Vec<Format>, known: &Vec<String>) -> (r: bool)
    ensures
        r == all_known(
            visit_formats(format_views(formats@), formats@.len()),
            string_views(known@),
        ),
    decreases formats,
{
    let ghost parts = format_views(formats@);
    let ghost names = string_views(known@);
    let mut i: usize = 0;
    while i < formats.len()
        invariant
            i <= formats.len(),
            parts == format_views(formats@),
            names == string_views(known@),
            all_known(visit_formats(parts, i as nat), names),
        decreases formats.len() - i,
    {
        let ok = format_known(&formats[i], known);
        proof {
            lemma_all_known_concat(visit_formats(parts, i as nat), visit(parts[i as int]), names);
        }
        if !ok {
            proof {
                lemma_known_formats_prefix(parts, (i + 1) as nat, names);
            }
            return false;
        }
        i += 1;
    }
    true
}

/// Where a walk of the first `n` formats meets an unknown reference, so does
/// the walk of them all.
proof fn lemma_known_formats_prefix(parts: Seq<FormatView>, n: nat, names: Seq<Seq<char>>)
    requires
        n <= parts.len(),
        !all_known(visit_formats(parts, n), names),
    ensures
        !all_known(visit_formats(parts, parts.len()), names),
    decreases parts.len() - n,
{
    if n < parts.len() {
        lemma_all_known_concat(visit_formats(parts, n), visit(parts[n as int]), names);
        lemma_known_formats_prefix(parts, n + 1, names);
    }
}

proof fn lemma_known_fields_prefix(parts: Seq<FieldView>, n: nat, names: Seq<Seq<char>>)
    requires
        n <= parts.len(),
        !all_known(visit_fields(parts, n), names),
    ensures
        !all_known(visit_fields(parts, parts.len()), names),
    decreases parts.len() - n,
{
    if n < parts.len() {
        lemma_all_known_concat(visit_fields(parts, n), visit(parts[n as int].value), names);
        lemma_known_fields_prefix(parts, n + 1, names);
    }
}

proof fn lemma_known_variants_prefix(parts: Seq<VariantEntryView>, n: nat, names: Seq<Seq<char>>)
    requires
        n <= parts.len(),
        !all_known(visit_variants(parts, n), names),
    ensures
        !all_known(visit_variants(parts, parts.len()), names),
    decreases parts.len() - n,
{
    if n < parts.len() {
        lemma_all_known_concat(
            visit_variants(parts, n),
            visit_variant(parts[n as int].value),
            names,
        );
        lemma_known_variants_prefix(parts, n + 1, names);
    }
}

proof fn lemma_known_registry_prefix(parts: Seq<EntryView>, n: nat, names: Seq<Seq<char>>)
    requires
        n <= parts.len(),
        !all_known(visit_registry(parts, n), names),
    ensures
        !all_known(visit_registry(parts, parts.len()), names),
    decreases parts.len() - n,
{
    if n < parts.len() {
        lemma_all_known_concat(
            visit_registry(parts, n),
            visit_container(parts[n as int].format),
            names,
        );
        lemma_known_registry_prefix(parts, n + 1, names);
    }
}

/// Whether every reference met on a walk of the fields is to one of `known`.
fn fields_known(fields: &Vec<Named<Format>>, known: &Vec<String>) -> (r: bool)
    ensures
        r == all_known(visit_fields(field_views(fields@), fields@.len()), string_views(known@)),
{
    let ghost parts = field_views(fields@);
    let ghost names = string_views(known@);
    let mut i: usize = 0;
    while i < fields.len()
        invariant
            i <= fields.len(),
            parts == field_views(fields@),
            names == string_views(known@),
            all_known(visit_fields(parts, i as nat), names),
        decreases fields.len() - i,
    {
        let ok = format_known(&fields[i].value, known);
        proof {
            lemma_all_known_concat(
                visit_fields(parts, i as nat),
                visit(parts[i as int].value),
                names,
            );
        }
        if !ok {
            proof {
                lemma_known_fields_prefix(parts, (i + 1) as nat, names);
            }
            return false;
        }
        i += 1;
    }
    true
}

/// Whether every reference met on a walk of the variant is to one of `known`.
fn variant_known(variant: &VariantFormat, known: &Vec<String>) -> (r: bool)
    ensures
        r == all_known(visit_variant(variant@), string_views(known@)),
{
    match variant {
        VariantFormat::Variable => true,
        VariantFormat::Unit => true,
        VariantFormat::NewType(inner) => format_known(inner, known),
        VariantFormat::Tuple(formats) => formats_known(formats, known),
        VariantFormat::Struct(fields) => fields_known(fields, known),
    }
}

/// Whether every reference met on a walk of the variants is to one of `known`.
fn variants_known(variants: &Vec<(u32, Named<VariantFormat>)>, known: &Vec<String>) -> (r: bool)
    ensures
        r == all_known(
            visit_variants(variant_views(variants@), variants@.len()),
            string_views(known@),
        ),
{
    let ghost parts = variant_views(variants@);
    let ghost names = string_views(known@);
    let mut i: usize = 0;
    while i < variants.len()
        invariant
            i <= variants.len(),
            parts == variant_views(variants@),
            names == string_views(known@),
            all_known(visit_variants(parts, i as nat), names),
        decreases variants.len() - i,
    {
        let ok = variant_known(&variants[i].1.value, known);
        proof {
            lemma_all_known_concat(
                visit_variants(parts, i as nat),
                visit_variant(parts[i as int].value),
                names,
            );
        }
        if !ok {
            proof {
                lemma_known_variants_prefix(parts, (i + 1) as nat, names);
            }
            return false;
        }
        i += 1;
    }
    true
}

/// Whether every reference met on a walk of the container is to one of `known`.
fn container_known(container: &ContainerFormat, known: &Vec<String>) -> (r: bool)
    ensures
        r == all_known(visit_container(container@), string_views(known@)),
{
    match container {
        ContainerFormat::UnitStruct => true,
        ContainerFormat::NewTypeStruct(inner) => format_known(inner, known),
        ContainerFormat::TupleStruct(formats) => formats_known(formats, known),
        ContainerFormat::Struct(fields) => fields_known(fields, known),
        ContainerFormat::Enum(variants) => variants_known(variants, known),
    }
}

/// Whether every reference met on a walk of the registry is to one of `known`.
fn registry_known(registry: &Registry, known: &Vec<String>) -> (r: bool)
    ensures
        r == all_known(
            visit_registry(registry_view(registry@), registry@.len()),
            string_views(known@),
        ),
{
    let ghost parts = registry_view(registry@);
    let ghost names = string_views(known@);
    let mut i: usize = 0;
    while i < registry.len()
        invariant
            i <= registry.len(),
            parts == registry_view(registry@),
            names == string_views(known@),
            all_known(visit_registry(parts, i as nat), names),
        decreases registry.len() - i,
    {
        let ok = container_known(&registry[i].1, known);
        proof {
            lemma_all_known_concat(
                visit_registry(parts, i as nat),
                visit_container(parts[i as int].format),
                names,
            );
        }
        if !ok {
            proof {
                lemma_known_registry_prefix(parts, (i + 1) as nat, names);
            }
            return false;
        }
        i += 1;
    }
    true
}

/// The names that a reference may refer to.
fn known_names_of(registry: &Registry, definitions: &Vec<(String, Vec<String>)>) -> (r: Vec<
    String,
>)
    ensures
        string_views(r@) == known_names(registry_view(registry@), definition_views(definitions@)),
{
    let ghost entries = registry_view(registry@);
    let ghost defs = definition_views(definitions@);
    let import = String::from_str("import");
    let mut out = entry_name_list(registry);
    let mut d: usize = 0;
    assert(string_views(out@) =~= entry_names(entries) + external_names(defs, 0));
    while d < definitions.len()
        invariant
            d <= definitions.len(),
            import@ == "import"@,
            defs == definition_views(definitions@),
            string_views(out@) == entry_names(entries) + external_names(defs, d as nat),
        decreases definitions.len() - d,
    {
        let ghost start = string_views(out@);
        if definitions[d].0 != import {
            let names = &definitions[d].1;
            let mut j: usize = 0;
            assert(start =~= start + string_views(names@).take(0));
            while j < names.len()
                invariant
                    j <= names.len(),
                    string_views(out@) == start + string_views(names@).take(j as int),
                decreases names.len() - j,
            {
                let ghost before = string_views(out@);
                out.push(names[j].clone());
                assert(string_views(out@) =~= before.push(names@[j as int]@));
                j += 1;
                assert(string_views(out@) =~= start + string_views(names@).take(j as int));
            }
            assert(string_views(names@).take(j as int) =~= string_views(names@));
            assert(defs[d as int].names == string_views(names@));
        } else {
            assert(start =~= start + Seq::<Seq<char>>::empty());
        }
        assert(defs[d as int].namespace == definitions@[d as int].0@);
        d += 1;
        assert(string_views(out@) =~= entry_names(entries) + external_names(defs, d as nat));
    }
    out
}

/// Whether no two strings of the list are equal.
fn strings_distinct(names: &Vec<String>) -> (r: bool)
    ensures
        r == string_views(names@).no_duplicates(),
{
    let ghost views = string_views(names@);
    let mut i: usize = 0;
    while i < names.len()
        invariant
            i <= names.len(),
            views == string_views(names@),
            forall|a: int, b: int| 0 <= a < b < i ==> views[a] != views[b],
        decreases names.len() - i,
    {
        let mut j: usize = 0;
        while j < i
            invariant
                j <= i,
                i < names.len(),
                views == string_views(names@),
                forall|a: int| 0 <= a < j ==> views[a] != views[i as int],
            decreases i - j,
        {
            if names[j] == names[i] {
                assert(views[j as int] == views[i as int]);
                return false;
            }
            j += 1;
        }
        i += 1;
    }
    assert forall|a: int, b: int|
        0 <= a < views.len() && 0 <= b < views.len() && a != b implies views[a] != views[b] by {
        if a < b {
        } else {
            assert(views[b] != views[a]);
        }
    }
    true
}

/// The names of the containers of the registry.
fn entry_name_list(registry: &Registry) -> (r: Vec<String>)
    ensures
        string_views(r@) == entry_names(registry_view(registry@)),
{
    let mut out: Vec<String> = Vec::new();
    let mut i: usize = 0;
    while i < registry.len()
        invariant
            i <= registry.len(),
            string_views(out@) == entry_names(registry_view(registry@)).take(i as int),
        decreases registry.len() - i,
    {
        let ghost before = string_views(out@);
        out.push(registry[i].0.clone());
        assert(string_views(out@) =~= before.push(registry_view(registry@)[i as int].name));
        i += 1;
        assert(string_views(out@) =~= entry_names(registry_view(registry@)).take(i as int));
    }
    assert(entry_names(registry_view(registry@)).take(i as int) =~= entry_names(
        registry_view(registry@),
    ));
    out
}

/// The names of the fields of the list.
fn field_name_list(fields: &Vec<Named<Format>>) -> (r: Vec<String>)
    ensures
        string_views(r@) == field_names(field_views(fields@)),
{
    let mut out: Vec<String> = Vec::new();
    let mut i: usize = 0;
    while i < fields.len()
        invariant
            i <= fields.len(),
            string_views(out@) == field_names(field_views(fields@)).take(i as int),
        decreases fields.len() - i,
    {
        let ghost before = string_views(out@);
        out.push(fields[i].name.clone());
        assert(string_views(out@) =~= before.push(field_views(fields@)[i as int].name));
        i += 1;
        assert(string_views(out@) =~= field_names(field_views(fields@)).take(i as int));
    }
    assert(field_names(field_views(fields@)).take(i as int) =~= field_names(field_views(fields@)));
    out
}

/// The names of the variants of the enum.
fn variant_name_list(variants: &Vec<(u32, Named<VariantFormat>)>) -> (r: Vec<String>)
    ensures
        string_views(r@) == variant_names(variant_views(variants@)),
{
    let mut out: Vec<String> = Vec::new();
    let mut i: usize = 0;
    while i < variants.len()
        invariant
            i <= variants.len(),
            string_views(out@) == variant_names(variant_views(variants@)).take(i as int),
        decreases variants.len() - i,
    {
        let ghost before = string_views(out@);
        out.push(variants[i].1.name.clone());
        assert(string_views(out@) =~= before.push(variant_views(variants@)[i as int].name));
        i += 1;
        assert(string_views(out@) =~= variant_names(variant_views(variants@)).take(i as int));
    }
    assert(variant_names(variant_views(variants@)).take(i as int) =~= variant_names(
        variant_views(variants@),
    ));
    out
}

/// Whether no two variants of the enum have the same tag.
fn variant_tags_distinct(variants: &Vec<(u32, Named<VariantFormat>)>) -> (r: bool)
    ensures
        r == variant_tags(variant_views(variants@)).no_duplicates(),
{
    let ghost tags = variant_tags(variant_views(variants@));
    let mut i: usize = 0;
    while i < variants.len()
        invariant
            i <= variants.len(),
            tags == variant_tags(variant_views(variants@)),
            forall|a: int, b: int| 0 <= a < b < i ==> tags[a] != tags[b],
        decreases variants.len() - i,
    {
        let mut j: usize = 0;
        while j < i
            invariant
                j <= i,
                i < variants.len(),
                tags == variant_tags(variant_views(variants@)),
                forall|a: int| 0 <= a < j ==> tags[a] != tags[i as int],
            decreases i - j,
        {
            if variants[j].0 == variants[i].0 {
                assert(tags[j as int] == tags[i as int]);
                return false;
            }
            j += 1;
        }
        i += 1;
    }
    assert forall|a: int, b: int|
        0 <= a < tags.len() && 0 <= b < tags.len() && a != b implies tags[a] != tags[b] by {
        if a < b {
        } else {
            assert(tags[b] != tags[a]);
        }
    }
    true
}

/// Whether the variants of the enum come in the strict order of their tags.
fn variant_tags_ascending(variants: &Vec<(u32, Named<VariantFormat>)>) -> (r: bool)
    ensures
        r == (forall|i: int, j: int|
            0 <= i < j < variants@.len() ==> (#[trigger] variant_views(variants@)[i]).index < (
            #[trigger] variant_views(variants@)[j]).index),
{
    let ghost views = variant_views(variants@);
    let mut i: usize = 1;
    while i < variants.len()
        invariant
            1 <= i,
            views == variant_views(variants@),
            forall|a: int, b: int|
                0 <= a < b < i && b < views.len() ==> (#[trigger] views[a]).index < (
                #[trigger] views[b]).index,
        decreases variants.len() - i,
    {
        if variants[i - 1].0 >= variants[i].0 {
            assert(!(views[i - 1].index < views[i as int].index));
            return false;
        }
        assert forall|a: int, b: int| 0 <= a < b < i + 1 && b < views.len() implies (
        #[trigger] views[a]).index < (#[trigger] views[b]).index by {
            if b == i {
                if a < i - 1 {
                    assert(views[a].index < views[i - 1].index);
                }
            }
        }
        i += 1;
    }
    true
}

/// Whether the variants of the container come in the strict order of their tags.
fn container_tags_ascending(container: &ContainerFormat) -> (r: bool)
    ensures
        r == tags_ascending(container@),
{
    match container {
        ContainerFormat::Enum(variants) => variant_tags_ascending(variants),
        _ => true,
    }
}

/// Whether no two variants of the container have the same tag.
fn container_tags_unique(container: &ContainerFormat) -> (r: bool)
    ensures
        r == tags_unique(container@),
{
    match container {
        ContainerFormat::Enum(variants) => variant_tags_distinct(variants),
        _ => true,
    }
}

/// Whether no two fields of one variant of the enum have the same name.
fn variant_fields_unique(variants: &Vec<(u32, Named<VariantFormat>)>) -> (r: bool)
    ensures
        r == (forall|i: int|
            0 <= i < variants@.len() ==> variant_names_unique(
                (#[trigger] variant_views(variants@)[i]).value,
            )),
{
    let mut i: usize = 0;
    while i < variants.len()
        invariant
            i <= variants.len(),
            forall|k: int|
                0 <= k < i ==> variant_names_unique((#[trigger] variant_views(variants@)[k]).value),
        decreases variants.len() - i,
    {
        let ok = match &variants[i].1.value {
            VariantFormat::Struct(fields) => {
                let names = field_name_list(fields);
                strings_distinct(&names)
            },
            _ => true,
        };
        if !ok {
            assert(!variant_names_unique(variant_views(variants@)[i as int].value));
            return false;
        }
        assert(variant_names_unique(variant_views(variants@)[i as int].value));
        i += 1;
    }
    true
}

/// Whether no name is defined twice in one scope of the container.
fn container_names_unique(container: &ContainerFormat) -> (r: bool)
    ensures
        r == names_unique(container@),
{
    match container {
        ContainerFormat::Struct(fields) => {
            let names = field_name_list(fields);
            strings_distinct(&names)
        },
        ContainerFormat::Enum(variants) => {
            let names = variant_name_list(variants);
            strings_distinct(&names) && variant_fields_unique(variants)
        },
        _ => true,
    }
}

/// Whether every container of the registry is free of placeholders.
pub fn registry_is_resolved(registry: &Registry) -> (r: bool)
    ensures
        r == registry_resolved(registry_view(registry@)),
{
    let mut i: usize = 0;
    while i < registry.len()
        invariant
            i <= registry.len(),
            forall|k: int|
                0 <= k < i ==> (#[trigger] registry_view(registry@)[k]).format.is_resolved(),
        decreases registry.len() - i,
    {
        if !registry[i].1.is_resolved() {
            assert(!registry_view(registry@)[i as int].format.is_resolved());
            return false;
        }
        i += 1;
    }
    true
}

/// Whether no enum of the registry has two variants with the same tag.
fn registry_tags_unique(registry: &Registry) -> (r: bool)
    ensures
        r == all_tags_unique(registry_view(registry@)),
{
    let ghost entries = registry_view(registry@);
    let mut i: usize = 0;
    while i < registry.len()
        invariant
            i <= registry.len(),
            entries == registry_view(registry@),
            forall|k: int| 0 <= k < i ==> tags_unique((#[trigger] entries[k]).format),
        decreases registry.len() - i,
    {
        if !container_tags_unique(&registry[i].1) {
            assert(!tags_unique(entries[i as int].format));
            return false;
        }
        i += 1;
    }
    true
}

/// Whether the variants of every enum of the registry come in the strict
/// order of their tags.
fn registry_tags_ascending(registry: &Registry) -> (r: bool)
    ensures
        r == all_tags_ascending(registry_view(registry@)),
{
    let ghost entries = registry_view(registry@);
    let mut i: usize = 0;
    while i < registry.len()
        invariant
            i <= registry.len(),
            entries == registry_view(registry@),
            forall|k: int| 0 <= k < i ==> tags_ascending((#[trigger] entries[k]).format),
        decreases registry.len() - i,
    {
        if !container_tags_ascending(&registry[i].1) {
            assert(!tags_ascending(entries[i as int].format));
            return false;
        }
        i += 1;
    }
    true
}

/// Whether no name is defined twice in one scope of the registry.
fn registry_names_unique(registry: &Registry) -> (r: bool)
    ensures
        r == all_names_unique(registry_view(registry@)),
{
    let ghost entries = registry_view(registry@);
    let names = entry_name_list(registry);
    if !strings_distinct(&names) {
        return false;
    }
    let mut i: usize = 0;
    while i < registry.len()
        invariant
            i <= registry.len(),
            entries == registry_view(registry@),
            entry_names(entries).no_duplicates(),
            forall|k: int| 0 <= k < i ==> names_unique((#[trigger] entries[k]).format),
        decreases registry.len() - i,
    {
        if !container_names_unique(&registry[i].1) {
            assert(!names_unique(entries[i as int].format));
            return false;
        }
        i += 1;
    }
    true
}

/// Checks that the registry is fit for generation with the names that the
/// configuration declares externally, and says what is wrong where it is not.
pub fn check_registry(registry: &Registry, config: &CodeGeneratorConfig) -> (r: Result<
    (),
    SchemaError,
>)
    ensures
        match r {
            Ok(_) => schema_error(registry_view(registry@), config@.external_definitions) is None,
            Err(e) => schema_error(registry_view(registry@), config@.external_definitions)
                == Some(e),
        },
{
    if !registry_is_resolved(registry) {
        return Err(SchemaError::UnresolvedFormat);
    }
    let known = known_names_of(registry, config.external_definitions());
    if !registry_known(registry, &known) {
        return Err(SchemaError::DanglingReference);
    }
    if !registry_tags_unique(registry) {
        return Err(SchemaError::DuplicateTag);
    }
    if !registry_tags_ascending(registry) {
        return Err(SchemaError::UnorderedTags);
    }
    if !registry_names_unique(registry) {
        return Err(SchemaError::DuplicateName);
    }
    Ok(())
}

} // verus!
