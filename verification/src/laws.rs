//! What holds of every registry and of everything that is emitted for it.
//!
//! - The helper table holds exactly one helper for each distinct signature
//!   of a composite shape of the registry, in the order of the signatures;
//!   every field of every class and every part of every helper finds the
//!   helper that it calls.
//! - Whatever a class emits field by field, it emits in the order in which
//!   the fields are declared; the statements that write the fields and the
//!   statements that read them are two cases of this.
//! - The dispatch of an enum has one case for each variant.
//! - The statements for a composite shape call its helpers by the names
//!   under which they are emitted; the initializer of every field reads the
//!   JSON entry of the field.
//! - Signatures tell shapes apart as far as their parts do; a fixed-size
//!   array has the type of a sequence; made-up field names differ.

use vstd::prelude::*;
use crate::config::DefinitionsView;
use crate::container::{equality_term, FieldPart};
use crate::emitter::EmitterView;
use crate::expr::{deserialize_expression, json_entry, json_initializer, serialize_statement};
use crate::format::{
    ContainerView, EntryView, FieldView, FormatView, VariantEntryView, VariantView,
};
use crate::helpers::{
    has_name, helper_table, lemma_position, lemma_with_helper_sorted, position, sorted_by_name,
    with_helper, with_helpers, HelperView,
};
use crate::indent::lemma_put_concat;
use crate::schema::{
    all_names_unique, all_tags_ascending, all_tags_unique, references_defined, schema_error,
};
use crate::signature::signature;
use crate::text::{decimal, lemma_decimal_injective, lemma_lex_irreflexive, lex_lt};
use crate::types::type_expr;
use crate::variants::{container_fields, tuple_fields, variant_fields};
use crate::walk::{
    parts, registry_resolved, visit, visit_container, visit_fields, visit_formats,
    visit_registry, visit_variant, visit_variants,
};

verus! {

/// The entry is one of the composite shapes of `visited`, under its own signature.
pub open spec fn comes_from(entry: HelperView, visited: Seq<FormatView>) -> bool {
    &&& visited.contains(entry.format)
    &&& entry.format.needs_helper()
    &&& entry.name == signature(entry.format)
}

/// Meeting a format loses no entry, and a composite shape has an entry
/// under its signature afterwards.
proof fn lemma_with_helper_names(table: Seq<HelperView>, format: FormatView)
    ensures
        forall|name: Seq<char>| has_name(table, name) ==> has_name(with_helper(table, format), name),
        format.needs_helper() ==> has_name(with_helper(table, format), signature(format)),
{
    let name = signature(format);
    let p = position(table, name) as int;
    let after = with_helper(table, format);
    lemma_position(table, name);
    if after != table {
        let entry = HelperView { name, format };
        assert(after == table.insert(p, entry));
        assert(after[p].name == name);
        assert forall|other: Seq<char>| has_name(table, other) implies has_name(after, other) by {
            let i = choose|i: int| 0 <= i < table.len() && (#[trigger] table[i]).name == other;
            if i < p {
                assert(after[i] == table[i]);
            } else {
                assert(after[i + 1] == table[i]);
            }
        }
    } else if format.needs_helper() {
        assert(table[p].name == name);
    }
}

/// Every entry after a format is met was there before or is the format itself.
proof fn lemma_with_helper_entries(table: Seq<HelperView>, format: FormatView)
    ensures
        forall|i: int|
            0 <= i < with_helper(table, format).len() ==> {
                ||| table.contains(#[trigger] with_helper(table, format)[i])
                ||| (format.needs_helper() && with_helper(table, format)[i] == (HelperView {
                    name: signature(format),
                    format,
                }))
            },
{
    let name = signature(format);
    let p = position(table, name) as int;
    let after = with_helper(table, format);
    lemma_position(table, name);
    assert forall|i: int| 0 <= i < after.len() implies {
        ||| table.contains(#[trigger] after[i])
        ||| (format.needs_helper() && after[i] == (HelperView { name, format }))
    } by {
        if after != table {
            if i < p {
                assert(after[i] == table[i]);
            } else if i > p {
                assert(after[i] == table[i - 1]);
            }
        } else {
            assert(after[i] == table[i]);
        }
    }
}

/// The helper table is in the strict order of its signatures.
pub proof fn lemma_with_helpers_sorted(visited: Seq<FormatView>)
    ensures
        sorted_by_name(with_helpers(Seq::empty(), visited)),
    decreases visited.len(),
{
    if visited.len() > 0 {
        lemma_with_helpers_sorted(visited.drop_last());
        lemma_with_helper_sorted(with_helpers(Seq::empty(), visited.drop_last()), visited.last());
    }
}

/// Every composite shape that is met has an entry under its signature.
pub proof fn lemma_with_helpers_complete(visited: Seq<FormatView>, k: int)
    requires
        0 <= k < visited.len(),
        visited[k].needs_helper(),
    ensures
        has_name(with_helpers(Seq::empty(), visited), signature(visited[k])),
    decreases visited.len(),
{
    let before = with_helpers(Seq::empty(), visited.drop_last());
    lemma_with_helper_names(before, visited.last());
    if k < visited.len() - 1 {
        assert(visited.drop_last()[k] == visited[k]);
        lemma_with_helpers_complete(visited.drop_last(), k);
    }
}

/// Every entry is one of the composite shapes that were met, under its own signature.
pub proof fn lemma_with_helpers_sound(visited: Seq<FormatView>, i: int)
    requires
        0 <= i < with_helpers(Seq::empty(), visited).len(),
    ensures
        comes_from(with_helpers(Seq::empty(), visited)[i], visited),
    decreases visited.len(),
{
    if visited.len() > 0 {
        let before = with_helpers(Seq::<HelperView>::empty(), visited.drop_last());
        let after = with_helpers(Seq::<HelperView>::empty(), visited);
        lemma_with_helper_entries(before, visited.last());
        if before.contains(after[i]) {
            let j = choose|j: int| 0 <= j < before.len() && before[j] == after[i];
            lemma_with_helpers_sound(visited.drop_last(), j);
            let f = after[i].format;
            let k = choose|k: int| 0 <= k < visited.drop_last().len() && visited.drop_last()[k] == f;
            assert(visited[k] == f);
        } else {
            assert(visited[visited.len() - 1] == visited.last());
        }
    }
}

/// No two entries of the helper table of a registry have the same signature:
/// there is exactly one helper for each distinct composite shape.
pub proof fn lemma_one_helper_for_each_signature(registry: Seq<EntryView>, i: int, j: int)
    requires
        0 <= i < helper_table(registry).len(),
        0 <= j < helper_table(registry).len(),
        i != j,
    ensures
        helper_table(registry)[i].name != helper_table(registry)[j].name,
{
    let table = helper_table(registry);
    lemma_with_helpers_sorted(visit_registry(registry, registry.len()));
    if i < j {
        assert(lex_lt(table[i].name, table[j].name));
        lemma_lex_irreflexive(table[i].name);
    } else {
        assert(lex_lt(table[j].name, table[i].name));
        lemma_lex_irreflexive(table[j].name);
    }
}

/// The helper table of a registry is in the strict order of its signatures.
pub proof fn lemma_helper_table_sorted(registry: Seq<EntryView>)
    ensures
        sorted_by_name(helper_table(registry)),
{
    lemma_with_helpers_sorted(visit_registry(registry, registry.len()));
}

/// Every composite shape met on the walk of a registry has a helper under
/// its signature, which is the name that every occurrence of the shape calls.
pub proof fn lemma_every_composite_shape_has_a_helper(registry: Seq<EntryView>, k: int)
    requires
        0 <= k < visit_registry(registry, registry.len()).len(),
        visit_registry(registry, registry.len())[k].needs_helper(),
    ensures
        has_name(
            helper_table(registry),
            signature(visit_registry(registry, registry.len())[k]),
        ),
{
    lemma_with_helpers_complete(visit_registry(registry, registry.len()), k);
}

/// Every helper of a registry is for a composite shape that is met on the
/// walk of the registry, and is named by the signature of that shape.
pub proof fn lemma_every_helper_is_needed(registry: Seq<EntryView>, i: int)
    requires
        0 <= i < helper_table(registry).len(),
    ensures
        comes_from(helper_table(registry)[i], visit_registry(registry, registry.len())),
{
    lemma_with_helpers_sound(visit_registry(registry, registry.len()), i);
}

/// What follows a common beginning decides whether two texts are equal.
proof fn lemma_cancel_prefix(prefix: Seq<char>, a: Seq<char>, b: Seq<char>)
    ensures
        (prefix + a == prefix + b) <==> a == b,
{
    if prefix + a == prefix + b {
        assert(a =~= (prefix + a).skip(prefix.len() as int));
        assert(b =~= (prefix + b).skip(prefix.len() as int));
    }
}

/// Two optional shapes have the same signature exactly where their contents do.
pub proof fn lemma_option_signatures(a: FormatView, b: FormatView)
    ensures
        signature(FormatView::Option(Box::new(a))) == signature(FormatView::Option(Box::new(b)))
            <==> signature(a) == signature(b),
{
    lemma_cancel_prefix("option_"@, signature(a), signature(b));
}

/// Two sequences have the same signature exactly where their elements do.
pub proof fn lemma_sequence_signatures(a: FormatView, b: FormatView)
    ensures
        signature(FormatView::Sequence(Box::new(a))) == signature(
            FormatView::Sequence(Box::new(b)),
        ) <==> signature(a) == signature(b),
{
    lemma_cancel_prefix("vector_"@, signature(a), signature(b));
}

/// A fixed-size array has the type of a sequence of the same elements,
/// whatever its size.
pub proof fn lemma_array_type_is_sequence_type(
    d: Seq<DefinitionsView>,
    content: FormatView,
    size: nat,
)
    ensures
        type_expr(d, FormatView::TupleArray { content: Box::new(content), size }) == type_expr(
            d,
            FormatView::Sequence(Box::new(content)),
        ),
{
}

/// The text that is emitted for the field at index `i`.
pub open spec fn field_text(
    d: Seq<DefinitionsView>,
    fields: Seq<FieldView>,
    i: int,
    part: FieldPart,
) -> Seq<char> {
    let field = fields[i];
    let name = field.name;
    let last = i == fields.len() - 1;
    match part {
        FieldPart::Declaration => type_expr(d, field.value) + " "@ + name + ";\n"@,
        FieldPart::Parameter => (if i > 0 {
            ", "@
        } else {
            Seq::empty()
        }) + type_expr(d, field.value) + " "@ + name,
        FieldPart::NullCheck => "assert ("@ + name + " != null);\n"@,
        FieldPart::Assignment => "this."@ + name + " = "@ + name + ";\n"@,
        FieldPart::Serialize => serialize_statement(name, field.value) + "\n"@,
        FieldPart::Deserialize => "var "@ + name + " = "@ + deserialize_expression(d, field.value)
            + ";\n"@,
        FieldPart::Argument => (if i > 0 {
            ","@
        } else {
            Seq::empty()
        }) + name,
        FieldPart::Equality => " "@ + equality_term(field) + (if last {
            " ){\n"@
        } else {
            " &&\n"@
        }),
        FieldPart::Hash => "value = 31 * value + (this."@ + name + " != null ? this."@ + name
            + ".hashCode : 0);\n"@,
        FieldPart::FromJson => json_initializer(d, field) + (if last {
            " ;\n"@
        } else {
            " ,\n"@
        }),
        FieldPart::ToJson => json_entry(field) + ",\n"@,
    }
}

/// The texts that are emitted for the first `n` fields, one after the other
/// in the order of declaration.
pub open spec fn fields_text(
    d: Seq<DefinitionsView>,
    fields: Seq<FieldView>,
    n: nat,
    part: FieldPart,
) -> Seq<char>
    decreases n,
{
    if n == 0 {
        Seq::empty()
    } else {
        fields_text(d, fields, (n - 1) as nat, part) + field_text(d, fields, n - 1, part)
    }
}

/// Emitting a text in two parts is emitting it at once.
pub proof fn lemma_emit_concat(e: EmitterView, a: Seq<char>, b: Seq<char>)
    ensures
        e.put(a).put(b) == e.put(a + b),
{
    lemma_put_concat(e.page, a, b);
}

proof fn lemma_emit3(e: EmitterView, a: Seq<char>, b: Seq<char>, c: Seq<char>)
    ensures
        e.put(a).put(b).put(c) == e.put(a + b + c),
{
    lemma_emit_concat(e, a, b);
    lemma_emit_concat(e, a + b, c);
}

proof fn lemma_emit4(e: EmitterView, a: Seq<char>, b: Seq<char>, c: Seq<char>, d: Seq<char>)
    ensures
        e.put(a).put(b).put(c).put(d) == e.put(a + b + c + d),
{
    lemma_emit3(e, a, b, c);
    lemma_emit_concat(e, a + b + c, d);
}

proof fn lemma_emit5(
    e: EmitterView,
    a: Seq<char>,
    b: Seq<char>,
    c: Seq<char>,
    d: Seq<char>,
    f: Seq<char>,
)
    ensures
        e.put(a).put(b).put(c).put(d).put(f) == e.put(a + b + c + d + f),
{
    lemma_emit4(e, a, b, c, d);
    lemma_emit_concat(e, a + b + c + d, f);
}

/// What is emitted for one field is one text, which depends on the field and
/// on its place among the fields alone.
pub proof fn lemma_field_part_text(e: EmitterView, fields: Seq<FieldView>, i: int, part: FieldPart)
    ensures
        e.field_part(fields, i, part) == e.put(field_text(e.definitions(), fields, i, part)),
{
    let field = fields[i];
    let name = field.name;
    let last = i == fields.len() - 1;
    match part {
        FieldPart::Declaration => {
            lemma_emit4(e, type_expr(e.definitions(), field.value), " "@, name, ";\n"@);
        },
        FieldPart::Parameter => {
            if i > 0 {
                lemma_emit4(e, ", "@, type_expr(e.definitions(), field.value), " "@, name);
            } else {
                lemma_emit3(e, type_expr(e.definitions(), field.value), " "@, name);
                assert(Seq::<char>::empty() + type_expr(e.definitions(), field.value) =~= type_expr(e.definitions(), field.value));
            }
        },
        FieldPart::NullCheck => {
            lemma_emit3(e, "assert ("@, name, " != null);\n"@);
        },
        FieldPart::Assignment => {
            lemma_emit5(e, "this."@, name, " = "@, name, ";\n"@);
        },
        FieldPart::Serialize => {
            lemma_emit_concat(e, serialize_statement(name, field.value), "\n"@);
        },
        FieldPart::Deserialize => {
            lemma_emit5(e, "var "@, name, " = "@, deserialize_expression(e.definitions(), field.value), ";\n"@);
        },
        FieldPart::Argument => {
            if i > 0 {
                lemma_emit_concat(e, ","@, name);
            } else {
                assert(Seq::<char>::empty() + name =~= name);
            }
        },
        FieldPart::Equality => {
            let end = if last {
                " ){\n"@
            } else {
                " &&\n"@
            };
            lemma_emit3(e, " "@, equality_term(field), end);
        },
        FieldPart::Hash => {
            lemma_emit5(
                e,
                "value = 31 * value + (this."@,
                name,
                " != null ? this."@,
                name,
                ".hashCode : 0);\n"@,
            );
        },
        FieldPart::FromJson => {
            let end = if last {
                " ;\n"@
            } else {
                " ,\n"@
            };
            lemma_emit_concat(e, json_initializer(e.definitions(), field), end);
        },
        FieldPart::ToJson => {
            lemma_emit_concat(e, json_entry(field), ",\n"@);
        },
    }
}

/// Every part of a class that is emitted field by field is the texts of the
/// fields in the order of their declaration. The statements that write the
/// fields and the statements that read them are two such parts, so a value
/// is written and read in one and the same order.
pub proof fn lemma_fields_in_declared_order(
    e: EmitterView,
    fields: Seq<FieldView>,
    n: nat,
    part: FieldPart,
)
    ensures
        e.fields_upto(fields, n, part) == e.put(fields_text(e.definitions(), fields, n, part)),
    decreases n,
{
    if n > 0 {
        let before = e.fields_upto(fields, (n - 1) as nat, part);
        lemma_fields_in_declared_order(e, fields, (n - 1) as nat, part);
        lemma_field_part_text(before, fields, n - 1, part);
        lemma_emit_concat(
            e,
            fields_text(e.definitions(), fields, (n - 1) as nat, part),
            field_text(e.definitions(), fields, n - 1, part),
        );
    }
}

/// The text of one case of a dispatch on the tag.
pub open spec fn case_text(name: Seq<char>, entry: VariantEntryView, json: bool) -> Seq<char> {
    "case "@ + decimal(entry.index) + ": return "@ + name + entry.name + (if json {
        "Item.loadJson(json);\n"@
    } else {
        "Item.load(deserializer);\n"@
    })
}

/// The texts of the cases of the first `n` variants, in order.
pub open spec fn cases_text(name: Seq<char>, variants: Seq<VariantEntryView>, n: nat, json: bool)
    -> Seq<char>
    decreases n,
{
    if n == 0 {
        Seq::empty()
    } else {
        cases_text(name, variants, (n - 1) as nat, json) + case_text(name, variants[n - 1], json)
    }
}

/// The dispatch of an enum has exactly one case for each variant, in the
/// order of the variants, and each selects the class of its variant by the
/// variant's tag.
pub proof fn lemma_one_case_for_each_variant(
    e: EmitterView,
    name: Seq<char>,
    variants: Seq<VariantEntryView>,
    n: nat,
    json: bool,
)
    ensures
        e.cases_upto(name, variants, n, json) == e.put(cases_text(name, variants, n, json)),
    decreases n,
{
    if n > 0 {
        let before = e.cases_upto(name, variants, (n - 1) as nat, json);
        lemma_one_case_for_each_variant(e, name, variants, (n - 1) as nat, json);
        let entry = variants[n - 1];
        let end = if json {
            "Item.loadJson(json);\n"@
        } else {
            "Item.load(deserializer);\n"@
        };
        lemma_emit5(before, "case "@, decimal(entry.index), ": return "@, name, entry.name);
        lemma_emit_concat(
            before,
            "case "@ + decimal(entry.index) + ": return "@ + name + entry.name,
            end,
        );
        lemma_emit_concat(
            e,
            cases_text(name, variants, (n - 1) as nat, json),
            case_text(name, entry, json),
        );
    }
}

/// The names that are made up for unnamed fields differ from one another.
pub proof fn lemma_tuple_field_names_differ(formats: Seq<FormatView>, i: int, j: int)
    requires
        0 <= i < formats.len(),
        0 <= j < formats.len(),
        i != j,
    ensures
        tuple_fields(formats)[i].name != tuple_fields(formats)[j].name,
{
    lemma_decimal_injective(i as nat, j as nat);
    lemma_cancel_prefix("field"@, decimal(i as nat), decimal(j as nat));
}

/// A registry is fit for generation exactly where it holds no placeholder,
/// every reference in it is defined, the variants of every enum come in the
/// strict order of their tags and no scope has a name twice.
pub proof fn lemma_fit_registry(registry: Seq<EntryView>, definitions: Seq<DefinitionsView>)
    ensures
        schema_error(registry, definitions) is None <==> {
            &&& registry_resolved(registry)
            &&& references_defined(registry, definitions)
            &&& all_tags_unique(registry)
            &&& all_tags_ascending(registry)
            &&& all_names_unique(registry)
        },
{
}

proof fn lemma_in_concat(a: Seq<FormatView>, b: Seq<FormatView>, x: FormatView)
    ensures
        (a + b).contains(x) <==> a.contains(x) || b.contains(x),
{
    if a.contains(x) {
        let k = choose|k: int| 0 <= k < a.len() && a[k] == x;
        assert((a + b)[k] == x);
    }
    if b.contains(x) {
        let k = choose|k: int| 0 <= k < b.len() && b[k] == x;
        assert((a + b)[a.len() + k] == x);
    }
    if (a + b).contains(x) {
        let k = choose|k: int| 0 <= k < (a + b).len() && (a + b)[k] == x;
        if k < a.len() {
            assert(a[k] == x);
        } else {
            assert(b[k - a.len()] == x);
        }
    }
}

/// The walk of a format ends with the format itself.
pub proof fn lemma_walk_ends_with_the_format(format: FormatView)
    ensures
        visit(format).len() > 0,
        visit(format).last() == format,
        visit(format).contains(format),
{
    assert(visit(format)[visit(format).len() - 1] == format);
}

proof fn lemma_walk_of_formats_holds(formats: Seq<FormatView>, n: nat, k: int, x: FormatView)
    requires
        0 <= k < n <= formats.len(),
        visit(formats[k]).contains(x),
    ensures
        visit_formats(formats, n).contains(x),
    decreases n,
{
    lemma_in_concat(visit_formats(formats, (n - 1) as nat), visit(formats[n - 1]), x);
    if k < n - 1 {
        lemma_walk_of_formats_holds(formats, (n - 1) as nat, k, x);
    }
}

proof fn lemma_walk_of_fields_holds(fields: Seq<FieldView>, n: nat, k: int, x: FormatView)
    requires
        0 <= k < n <= fields.len(),
        visit(fields[k].value).contains(x),
    ensures
        visit_fields(fields, n).contains(x),
    decreases n,
{
    lemma_in_concat(visit_fields(fields, (n - 1) as nat), visit(fields[n - 1].value), x);
    if k < n - 1 {
        lemma_walk_of_fields_holds(fields, (n - 1) as nat, k, x);
    }
}

proof fn lemma_walk_of_variants_holds(
    variants: Seq<VariantEntryView>,
    n: nat,
    k: int,
    x: FormatView,
)
    requires
        0 <= k < n <= variants.len(),
        visit_variant(variants[k].value).contains(x),
    ensures
        visit_variants(variants, n).contains(x),
    decreases n,
{
    lemma_in_concat(
        visit_variants(variants, (n - 1) as nat),
        visit_variant(variants[n - 1].value),
        x,
    );
    if k < n - 1 {
        lemma_walk_of_variants_holds(variants, (n - 1) as nat, k, x);
    }
}

proof fn lemma_walk_of_registry_upto(registry: Seq<EntryView>, n: nat, i: int, x: FormatView)
    requires
        0 <= i < n <= registry.len(),
        visit_container(registry[i].format).contains(x),
    ensures
        visit_registry(registry, n).contains(x),
    decreases n,
{
    lemma_in_concat(
        visit_registry(registry, (n - 1) as nat),
        visit_container(registry[n - 1].format),
        x,
    );
    if i < n - 1 {
        lemma_walk_of_registry_upto(registry, (n - 1) as nat, i, x);
    }
}

/// The format of every field of a class is met on the walk of the fields.
proof fn lemma_walk_holds_fields(fields: Seq<FieldView>, j: int)
    requires
        0 <= j < fields.len(),
    ensures
        visit_fields(fields, fields.len()).contains(fields[j].value),
{
    lemma_walk_ends_with_the_format(fields[j].value);
    lemma_walk_of_fields_holds(fields, fields.len(), j, fields[j].value);
}

/// The format of every field of a struct-like container is met on the walk
/// of the container.
proof fn lemma_walk_holds_container_fields(container: ContainerView, j: int)
    requires
        !(container is Enum),
        0 <= j < container_fields(container).len(),
    ensures
        visit_container(container).contains(container_fields(container)[j].value),
{
    match container {
        ContainerView::NewTypeStruct(inner) => {
            lemma_walk_ends_with_the_format(inner);
        },
        ContainerView::TupleStruct(formats) => {
            lemma_walk_ends_with_the_format(formats[j]);
            lemma_walk_of_formats_holds(formats, formats.len(), j, formats[j]);
        },
        ContainerView::Struct(fields) => {
            lemma_walk_holds_fields(fields, j);
        },
        _ => {},
    }
}

/// The format of every field of a variant is met on the walk of the variant.
proof fn lemma_walk_holds_variant_fields(variant: VariantView, j: int)
    requires
        0 <= j < variant_fields(variant).len(),
    ensures
        visit_variant(variant).contains(variant_fields(variant)[j].value),
{
    match variant {
        VariantView::NewType(inner) => {
            lemma_walk_ends_with_the_format(inner);
        },
        VariantView::Tuple(formats) => {
            lemma_walk_ends_with_the_format(formats[j]);
            lemma_walk_of_formats_holds(formats, formats.len(), j, formats[j]);
        },
        VariantView::Struct(fields) => {
            lemma_walk_holds_fields(fields, j);
        },
        _ => {},
    }
}

/// A composite shape that is met on the walk of a registry has a helper
/// under its signature.
pub proof fn lemma_helper_of_a_met_shape(registry: Seq<EntryView>, shape: FormatView)
    requires
        visit_registry(registry, registry.len()).contains(shape),
        shape.needs_helper(),
    ensures
        has_name(helper_table(registry), signature(shape)),
{
    let visited = visit_registry(registry, registry.len());
    let k = choose|k: int| 0 <= k < visited.len() && visited[k] == shape;
    lemma_with_helpers_complete(visited, k);
}

/// Every field of a struct-like container of a registry whose shape is
/// composite has its helper in the table of the registry: the helper that
/// the statements for the field call exists, whichever container the shape
/// was first met in.
pub proof fn lemma_helper_for_every_field(registry: Seq<EntryView>, i: int, j: int)
    requires
        0 <= i < registry.len(),
        !(registry[i].format is Enum),
        0 <= j < container_fields(registry[i].format).len(),
        container_fields(registry[i].format)[j].value.needs_helper(),
    ensures
        has_name(
            helper_table(registry),
            signature(container_fields(registry[i].format)[j].value),
        ),
{
    let shape = container_fields(registry[i].format)[j].value;
    lemma_walk_holds_container_fields(registry[i].format, j);
    lemma_walk_of_registry_upto(registry, registry.len(), i, shape);
    lemma_helper_of_a_met_shape(registry, shape);
}

/// Every field of a variant of an enum of a registry whose shape is composite
/// has its helper in the table of the registry.
pub proof fn lemma_helper_for_every_variant_field(
    registry: Seq<EntryView>,
    i: int,
    v: int,
    j: int,
)
    requires
        0 <= i < registry.len(),
        registry[i].format is Enum,
        0 <= v < registry[i].format->Enum_0.len(),
        0 <= j < variant_fields(registry[i].format->Enum_0[v].value).len(),
        variant_fields(registry[i].format->Enum_0[v].value)[j].value.needs_helper(),
    ensures
        has_name(
            helper_table(registry),
            signature(variant_fields(registry[i].format->Enum_0[v].value)[j].value),
        ),
{
    let variants = registry[i].format->Enum_0;
    let shape = variant_fields(variants[v].value)[j].value;
    lemma_walk_holds_variant_fields(variants[v].value, j);
    lemma_walk_of_variants_holds(variants, variants.len(), v, shape);
    lemma_walk_of_registry_upto(registry, registry.len(), i, shape);
    lemma_helper_of_a_met_shape(registry, shape);
}

proof fn lemma_in_push(a: Seq<FormatView>, last: FormatView, x: FormatView)
    ensures
        a.push(last).contains(x) <==> a.contains(x) || x == last,
{
    assert(a.push(last) =~= a + seq![last]);
    lemma_in_concat(a, seq![last], x);
    if x == last {
        assert(seq![last][0] == x);
    }
}

/// Where a format is met on the walk of the first `n` formats of a list, it
/// is met on the walk of one of them.
proof fn lemma_met_in_one_format(formats: Seq<FormatView>, n: nat, x: FormatView) -> (k: int)
    requires
        n <= formats.len(),
        visit_formats(formats, n).contains(x),
    ensures
        0 <= k < n,
        visit(formats[k]).contains(x),
    decreases n,
{
    if n == 0 {
        assert(false);
        0
    } else {
        lemma_in_concat(visit_formats(formats, (n - 1) as nat), visit(formats[n - 1]), x);
        if visit(formats[n - 1]).contains(x) {
            n - 1
        } else {
            lemma_met_in_one_format(formats, (n - 1) as nat, x)
        }
    }
}

proof fn lemma_met_in_one_field(fields: Seq<FieldView>, n: nat, x: FormatView) -> (k: int)
    requires
        n <= fields.len(),
        visit_fields(fields, n).contains(x),
    ensures
        0 <= k < n,
        visit(fields[k].value).contains(x),
    decreases n,
{
    if n == 0 {
        assert(false);
        0
    } else {
        lemma_in_concat(visit_fields(fields, (n - 1) as nat), visit(fields[n - 1].value), x);
        if visit(fields[n - 1].value).contains(x) {
            n - 1
        } else {
            lemma_met_in_one_field(fields, (n - 1) as nat, x)
        }
    }
}

proof fn lemma_met_in_one_variant(variants: Seq<VariantEntryView>, n: nat, x: FormatView) -> (k:
    int)
    requires
        n <= variants.len(),
        visit_variants(variants, n).contains(x),
    ensures
        0 <= k < n,
        visit_variant(variants[k].value).contains(x),
    decreases n,
{
    if n == 0 {
        assert(false);
        0
    } else {
        lemma_in_concat(
            visit_variants(variants, (n - 1) as nat),
            visit_variant(variants[n - 1].value),
            x,
        );
        if visit_variant(variants[n - 1].value).contains(x) {
            n - 1
        } else {
            lemma_met_in_one_variant(variants, (n - 1) as nat, x)
        }
    }
}

proof fn lemma_met_in_one_container(registry: Seq<EntryView>, n: nat, x: FormatView) -> (k: int)
    requires
        n <= registry.len(),
        visit_registry(registry, n).contains(x),
    ensures
        0 <= k < n,
        visit_container(registry[k].format).contains(x),
    decreases n,
{
    if n == 0 {
        assert(false);
        0
    } else {
        lemma_in_concat(
            visit_registry(registry, (n - 1) as nat),
            visit_container(registry[n - 1].format),
            x,
        );
        if visit_container(registry[n - 1].format).contains(x) {
            n - 1
        } else {
            lemma_met_in_one_container(registry, (n - 1) as nat, x)
        }
    }
}

/// The parts of a shape are met on the walk of the shape.
pub proof fn lemma_walk_holds_the_parts(format: FormatView, k: int)
    requires
        0 <= k < parts(format).len(),
    ensures
        visit(format).contains(parts(format)[k]),
{
    let part = parts(format)[k];
    lemma_walk_ends_with_the_format(part);
    match format {
        FormatView::Option(inner) => {
            lemma_in_push(visit(*inner), format, part);
        },
        FormatView::Sequence(inner) => {
            lemma_in_push(visit(*inner), format, part);
        },
        FormatView::Mapping { key, value } => {
            lemma_in_concat(visit(*key), visit(*value), part);
            lemma_in_push(visit(*key) + visit(*value), format, part);
        },
        FormatView::Tuple(formats) => {
            lemma_walk_of_formats_holds(formats, formats.len(), k, part);
            lemma_in_push(visit_formats(formats, formats.len()), format, part);
        },
        FormatView::TupleArray { content, size } => {
            lemma_in_push(visit(*content), format, part);
        },
        _ => {},
    }
}

/// Whatever is met on the walk of a format, its parts are met on that walk too.
pub proof fn lemma_walk_of_a_format_is_closed(format: FormatView, x: FormatView, k: int)
    requires
        visit(format).contains(x),
        0 <= k < parts(x).len(),
    ensures
        visit(format).contains(parts(x)[k]),
    decreases format,
{
    let part = parts(x)[k];
    if x == format {
        lemma_walk_holds_the_parts(format, k);
    } else {
        match format {
            FormatView::Option(inner) => {
                lemma_in_push(visit(*inner), format, x);
                lemma_walk_of_a_format_is_closed(*inner, x, k);
                lemma_in_push(visit(*inner), format, part);
            },
            FormatView::Sequence(inner) => {
                lemma_in_push(visit(*inner), format, x);
                lemma_walk_of_a_format_is_closed(*inner, x, k);
                lemma_in_push(visit(*inner), format, part);
            },
            FormatView::Mapping { key, value } => {
                lemma_in_push(visit(*key) + visit(*value), format, x);
                lemma_in_concat(visit(*key), visit(*value), x);
                if visit(*key).contains(x) {
                    lemma_walk_of_a_format_is_closed(*key, x, k);
                } else {
                    lemma_walk_of_a_format_is_closed(*value, x, k);
                }
                lemma_in_concat(visit(*key), visit(*value), part);
                lemma_in_push(visit(*key) + visit(*value), format, part);
            },
            FormatView::Tuple(formats) => {
                lemma_in_push(visit_formats(formats, formats.len()), format, x);
                let i = lemma_met_in_one_format(formats, formats.len(), x);
                lemma_walk_of_a_format_is_closed(formats[i], x, k);
                lemma_walk_of_formats_holds(formats, formats.len(), i, part);
                lemma_in_push(visit_formats(formats, formats.len()), format, part);
            },
            FormatView::TupleArray { content, size } => {
                lemma_in_push(visit(*content), format, x);
                lemma_walk_of_a_format_is_closed(*content, x, k);
                lemma_in_push(visit(*content), format, part);
            },
            _ => {
                assert(visit(format) =~= seq![format]);
                assert(seq![format][0] == format);
            },
        }
    }
}

proof fn lemma_walk_of_fields_is_closed(fields: Seq<FieldView>, x: FormatView, k: int)
    requires
        visit_fields(fields, fields.len()).contains(x),
        0 <= k < parts(x).len(),
    ensures
        visit_fields(fields, fields.len()).contains(parts(x)[k]),
{
    let i = lemma_met_in_one_field(fields, fields.len(), x);
    lemma_walk_of_a_format_is_closed(fields[i].value, x, k);
    lemma_walk_of_fields_holds(fields, fields.len(), i, parts(x)[k]);
}

proof fn lemma_walk_of_formats_is_closed(formats: Seq<FormatView>, x: FormatView, k: int)
    requires
        visit_formats(formats, formats.len()).contains(x),
        0 <= k < parts(x).len(),
    ensures
        visit_formats(formats, formats.len()).contains(parts(x)[k]),
{
    let i = lemma_met_in_one_format(formats, formats.len(), x);
    lemma_walk_of_a_format_is_closed(formats[i], x, k);
    lemma_walk_of_formats_holds(formats, formats.len(), i, parts(x)[k]);
}

proof fn lemma_walk_of_a_variant_is_closed(variant: VariantView, x: FormatView, k: int)
    requires
        visit_variant(variant).contains(x),
        0 <= k < parts(x).len(),
    ensures
        visit_variant(variant).contains(parts(x)[k]),
{
    match variant {
        VariantView::NewType(inner) => lemma_walk_of_a_format_is_closed(inner, x, k),
        VariantView::Tuple(formats) => lemma_walk_of_formats_is_closed(formats, x, k),
        VariantView::Struct(fields) => lemma_walk_of_fields_is_closed(fields, x, k),
        _ => {},
    }
}

proof fn lemma_walk_of_a_container_is_closed(container: ContainerView, x: FormatView, k: int)
    requires
        visit_container(container).contains(x),
        0 <= k < parts(x).len(),
    ensures
        visit_container(container).contains(parts(x)[k]),
{
    match container {
        ContainerView::NewTypeStruct(inner) => lemma_walk_of_a_format_is_closed(inner, x, k),
        ContainerView::TupleStruct(formats) => lemma_walk_of_formats_is_closed(formats, x, k),
        ContainerView::Struct(fields) => lemma_walk_of_fields_is_closed(fields, x, k),
        ContainerView::Enum(variants) => {
            let v = lemma_met_in_one_variant(variants, variants.len(), x);
            lemma_walk_of_a_variant_is_closed(variants[v].value, x, k);
            lemma_walk_of_variants_holds(variants, variants.len(), v, parts(x)[k]);
        },
        _ => {},
    }
}

/// Whatever is met on the walk of a registry, its parts are met on that walk too.
pub proof fn lemma_walk_of_a_registry_is_closed(registry: Seq<EntryView>, x: FormatView, k: int)
    requires
        visit_registry(registry, registry.len()).contains(x),
        0 <= k < parts(x).len(),
    ensures
        visit_registry(registry, registry.len()).contains(parts(x)[k]),
{
    let i = lemma_met_in_one_container(registry, registry.len(), x);
    lemma_walk_of_a_container_is_closed(registry[i].format, x, k);
    lemma_walk_of_registry_upto(registry, registry.len(), i, parts(x)[k]);
}

/// Every part of the shape of a helper that is itself a composite shape has a
/// helper of its own in the table: a helper always finds the helper that it
/// calls for a part.
pub proof fn lemma_helpers_of_the_parts(registry: Seq<EntryView>, i: int, k: int)
    requires
        0 <= i < helper_table(registry).len(),
        0 <= k < parts(helper_table(registry)[i].format).len(),
        parts(helper_table(registry)[i].format)[k].needs_helper(),
    ensures
        has_name(
            helper_table(registry),
            signature(parts(helper_table(registry)[i].format)[k]),
        ),
{
    let shape = helper_table(registry)[i].format;
    lemma_every_helper_is_needed(registry, i);
    lemma_walk_of_a_registry_is_closed(registry, shape, k);
    lemma_helper_of_a_met_shape(registry, parts(shape)[k]);
}

/// The statements for a composite shape call the helpers of the shape's
/// signature in the class of the helpers, whatever is declared externally:
/// the names that they call are the names under which the helpers of the
/// shape are emitted.
pub proof fn lemma_helper_calls_name_the_helpers(
    d: Seq<DefinitionsView>,
    value: Seq<char>,
    shape: FormatView,
)
    requires
        shape.needs_helper(),
    ensures
        serialize_statement(value, shape) == "TraitHelpers.serialize_"@ + signature(shape) + "("@
            + value + ", serializer);"@,
        deserialize_expression(d, shape) == "TraitHelpers.deserialize_"@ + signature(shape)
            + "(deserializer)"@,
{
}

/// The text sets the field `name` from an expression over the JSON entry of
/// that name.
pub open spec fn reads_entry(text: Seq<char>, name: Seq<char>) -> bool {
    exists|before: Seq<char>, after: Seq<char>|
        text == #[trigger] (name + " = "@ + before + "json['"@ + name + "']"@ + after)
}

/// The initializer of a field, of whatever kind, sets the field from the JSON
/// entry of its name.
pub proof fn lemma_initializer_reads_the_entry(d: Seq<DefinitionsView>, field: FieldView)
    ensures
        reads_entry(json_initializer(d, field), field.name),
{
    let name = field.name;
    let text = json_initializer(d, field);
    reveal_strlit(" = ");
    reveal_strlit("json['");
    reveal_strlit("']");
    reveal_strlit("'])");
    reveal_strlit(")");
    let none = Seq::<char>::empty();
    match field.value {
        FormatView::Bytes => {
            reveal_strlit(" = Bytes.fromJson(json['");
            reveal_strlit("Bytes.fromJson(");
            let before = "Bytes.fromJson("@;
            assert(text =~= name + " = "@ + before + "json['"@ + name + "']"@ + ")"@);
        },
        FormatView::TypeName(class) => {
            reveal_strlit(".fromJson(json['");
            reveal_strlit(".fromJson(");
            let before = class + ".fromJson("@;
            assert(text =~= name + " = "@ + before + "json['"@ + name + "']"@ + ")"@);
        },
        FormatView::Option(_) => {
            reveal_strlit(".ofNullable(json['");
            reveal_strlit(".ofNullable(");
            let before = type_expr(d, field.value) + ".ofNullable("@;
            assert(text =~= name + " = "@ + before + "json['"@ + name + "']"@ + ")"@);
        },
        FormatView::Mapping { .. } | FormatView::TupleArray { .. } => {
            reveal_strlit(".from(json['");
            reveal_strlit(".from(");
            let before = type_expr(d, field.value) + ".from("@;
            assert(text =~= name + " = "@ + before + "json['"@ + name + "']"@ + ")"@);
        },
        FormatView::Sequence(inner) => {
            if *inner is TypeName {
                reveal_strlit(" = List<");
                reveal_strlit("List<");
                reveal_strlit(">.from(json['");
                reveal_strlit(">.from(");
                reveal_strlit("'].map((f) => ");
                reveal_strlit(".map((f) => ");
                let class = inner->TypeName_0;
                let before = "List<"@ + class + ">.from("@;
                let after = ".map((f) => "@ + class + ".fromJson(f)).toList())"@;
                assert(text =~= name + " = "@ + before + "json['"@ + name + "']"@ + after);
            } else {
                reveal_strlit(" = json['");
                assert(text =~= name + " = "@ + none + "json['"@ + name + "']"@ + none);
            }
        },
        _ => {
            reveal_strlit(" = json['");
            assert(text =~= name + " = "@ + none + "json['"@ + name + "']"@ + none);
        },
    }
}

} // verus!
