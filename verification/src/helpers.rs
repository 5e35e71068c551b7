//! The helper table: one entry for every distinct composite shape that occurs
//! anywhere in a registry, found by its signature and kept in the order of
//! the signatures.

use vstd::prelude::*;
use crate::format::{
    all_resolved, clone_format, field_views, fields_resolved, format_views, registry_view,
    variant_views, variants_resolved, ContainerFormat, EntryView, Format, FormatView, Named,
    Registry, VariantFormat,
};
use crate::signature::{mangle_type, signature};
use crate::text::{chars_of, lemma_lex_total, lemma_lex_transitive, lex_less, lex_lt};
use crate::walk::{
    registry_resolved, visit, visit_container, visit_fields, visit_formats, visit_registry,
    visit_variant, visit_variants,
};

verus! {

/// One entry of the helper table: a composite shape and its signature.
#[derive(Debug, PartialEq, Eq)]
pub struct Helper {
    /// The signature of the shape.
    pub name: String,
    /// The shape.
    pub format: Format,
}

/// The mathematical value of a [`Helper`].
pub struct HelperView {
    pub name: Seq<char>,
    pub format: FormatView,
}

impl View for Helper {
    type V = HelperView;

    open spec fn view(&self) -> HelperView {
        HelperView { name: self.name@, format: self.format@ }
    }
}

impl Clone for Helper {
    fn clone(&self) -> (r: Self)
        ensures
            r@ == self@,
    {
        Helper { name: self.name.clone(), format: clone_format(&self.format) }
    }
}

/// The views of the entries of a table, in order.
pub open spec fn helper_views(table: Seq<Helper>) -> Seq<HelperView> {
    Seq::new(table.len(), |i: int| table[i]@)
}

/// The index of the first entry whose signature does not come before `name`,
/// or the length of the table where every signature comes before it.
pub open spec fn position(table: Seq<HelperView>, name: Seq<char>) -> nat
    decreases table.len(),
{
    if table.len() == 0 {
        0
    } else if lex_lt(table[0].name, name) {
        1 + position(table.drop_first(), name)
    } else {
        0
    }
}

/// The table after `format` is met: a composite shape whose signature the
/// table does not hold yet enters at the place of its signature; anything
/// else leaves the table as it is.
pub open spec fn with_helper(table: Seq<HelperView>, format: FormatView) -> Seq<HelperView> {
    let name = signature(format);
    let p = position(table, name) as int;
    if !format.needs_helper() || (p < table.len() && table[p].name == name) {
        table
    } else {
        table.insert(p, HelperView { name, format })
    }
}

/// The table after the formats of `visited` are met, in order.
pub open spec fn with_helpers(table: Seq<HelperView>, visited: Seq<FormatView>) -> Seq<
    HelperView,
>
    decreases visited.len(),
{
    if visited.len() == 0 {
        table
    } else {
        with_helper(with_helpers(table, visited.drop_last()), visited.last())
    }
}

/// The helper table of a registry.
pub open spec fn helper_table(registry: Seq<EntryView>) -> Seq<HelperView> {
    with_helpers(Seq::empty(), visit_registry(registry, registry.len()))
}

/// Every entry holds a composite shape without placeholders under its own
/// signature.
pub open spec fn helpers_valid(table: Seq<HelperView>) -> bool {
    forall|i: int|
        0 <= i < table.len() ==> {
            &&& (#[trigger] table[i]).format.needs_helper()
            &&& table[i].format.is_resolved()
            &&& table[i].name == signature(table[i].format)
        }
}

/// Meeting the formats of two walks one after the other is meeting the
/// formats of the joined walk.
pub proof fn lemma_with_helpers_concat(
    table: Seq<HelperView>,
    a: Seq<FormatView>,
    b: Seq<FormatView>,
)
    ensures
        with_helpers(table, a + b) == with_helpers(with_helpers(table, a), b),
    decreases b.len(),
{
    if b.len() == 0 {
        assert(a + b =~= a);
    } else {
        assert((a + b).drop_last() =~= a + b.drop_last());
        lemma_with_helpers_concat(table, a, b.drop_last());
    }
}

/// Meeting one more format after a walk.
pub proof fn lemma_with_helpers_push(
    table: Seq<HelperView>,
    visited: Seq<FormatView>,
    format: FormatView,
)
    ensures
        with_helpers(table, visited.push(format)) == with_helper(
            with_helpers(table, visited),
            format,
        ),
{
    assert(visited.push(format).drop_last() =~= visited);
}

/// The signatures of the table increase strictly from each entry to every later one.
pub open spec fn sorted_by_name(table: Seq<HelperView>) -> bool {
    forall|i: int, j: int|
        0 <= i < j < table.len() ==> lex_lt(#[trigger] table[i].name, #[trigger] table[j].name)
}

/// The table holds an entry under `name`.
pub open spec fn has_name(table: Seq<HelperView>, name: Seq<char>) -> bool {
    exists|i: int| 0 <= i < table.len() && (#[trigger] table[i]).name == name
}

/// Every signature before the position of `name` comes before `name`, and
/// the signature at the position, if there is one, does not.
pub proof fn lemma_position(table: Seq<HelperView>, name: Seq<char>)
    ensures
        position(table, name) <= table.len(),
        forall|k: int| 0 <= k < position(table, name) ==> lex_lt((#[trigger] table[k]).name, name),
        position(table, name) < table.len() ==> !lex_lt(
            table[position(table, name) as int].name,
            name,
        ),
    decreases table.len(),
{
    if table.len() > 0 && lex_lt(table[0].name, name) {
        let rest = table.drop_first();
        lemma_position(rest, name);
        assert forall|k: int| 0 <= k < position(table, name) implies lex_lt(
            (#[trigger] table[k]).name,
            name,
        ) by {
            if k > 0 {
                assert(table[k] == rest[k - 1]);
            }
        }
        if position(table, name) < table.len() {
            assert(table[position(table, name) as int] == rest[position(rest, name) as int]);
        }
    }
}

/// Meeting a format keeps a table in the order of its signatures.
pub proof fn lemma_with_helper_sorted(table: Seq<HelperView>, format: FormatView)
    requires
        sorted_by_name(table),
    ensures
        sorted_by_name(with_helper(table, format)),
{
    let name = signature(format);
    let p = position(table, name) as int;
    let after = with_helper(table, format);
    lemma_position(table, name);
    if after != table {
        let entry = HelperView { name, format };
        assert(after == table.insert(p, entry));
        assert forall|i: int, j: int| 0 <= i < j < after.len() implies lex_lt(
            #[trigger] after[i].name,
            #[trigger] after[j].name,
        ) by {
            if j < p {
                assert(after[i] == table[i] && after[j] == table[j]);
            } else if j == p {
                assert(after[i] == table[i]);
            } else if i == p {
                assert(after[j] == table[j - 1]);
                lemma_lex_total(table[p].name, name);
                if j - 1 > p {
                    assert(lex_lt(table[p].name, table[j - 1].name));
                    lemma_lex_transitive(name, table[p].name, table[j - 1].name);
                }
            } else if i < p {
                assert(after[i] == table[i] && after[j] == table[j - 1]);
                if j - 1 == p {
                    lemma_lex_total(table[p].name, name);
                    lemma_lex_transitive(table[i].name, name, table[p].name);
                } else {
                    assert(lex_lt(table[i].name, table[j - 1].name));
                }
            } else {
                assert(after[i] == table[i - 1] && after[j] == table[j - 1]);
            }
        }
    }
}

/// The helper table: the composite shapes met so far, each once, in the
/// order of their signatures.
pub struct HelperTable {
    entries: Vec<Helper>,
}

impl View for HelperTable {
    type V = Seq<HelperView>;

    closed spec fn view(&self) -> Seq<HelperView> {
        helper_views(self.entries@)
    }
}

impl HelperTable {
    /// The entries are in the strict order of their signatures, and each
    /// holds a composite shape without placeholders under its own signature.
    pub open spec fn wf(&self) -> bool {
        sorted_by_name(self@) && helpers_valid(self@)
    }

    /// The table of no shapes.
    pub fn new() -> (r: Self)
        ensures
            r@ == Seq::<HelperView>::empty(),
            r.wf(),
    {
        let r = HelperTable { entries: Vec::new() };
        assert(helper_views(r.entries@) =~= Seq::empty());
        r
    }

    /// The entries, in the order of their signatures.
    pub fn entries(&self) -> (r: &Vec<Helper>)
        ensures
            helper_views(r@) == self@,
    {
        &self.entries
    }

    /// The number of entries.
    pub fn len(&self) -> (r: usize)
        ensures
            r == self@.len(),
    {
        self.entries.len()
    }

    /// The index of the first entry whose signature does not come before
    /// `name`, or the number of entries where there is none.
    pub fn position_of(&self, name: &str) -> (r: usize)
        ensures
            r == position(self@, name@),
            r <= self@.len(),
    {
        let key = chars_of(name);
        let ghost views = helper_views(self.entries@);
        let mut i: usize = 0;
        let mut found = false;
        assert(views.skip(0) =~= views);
        while i < self.entries.len() && !found
            invariant
                i <= self.entries.len(),
                views == helper_views(self.entries@),
                key@ == name@,
                position(views, name@) == i + position(views.skip(i as int), name@),
                found ==> i < self.entries.len() && !lex_lt(views[i as int].name, name@),
            decreases self.entries.len() - i + if found { 0int } else { 1int },
        {
            let entry = chars_of(self.entries[i].name.as_str());
            proof {
                assert(views.skip(i as int)[0] == views[i as int]);
                assert(views.skip(i as int).drop_first() =~= views.skip(i + 1));
            }
            if lex_less(&entry, &key) {
                i += 1;
            } else {
                found = true;
            }
        }
        i
    }

    /// The entry under the signature `name`, if the table holds one.
    pub fn find(&self, name: &str) -> (r: Option<&Helper>)
        ensures
            match r {
                Some(helper) => helper@.name == name@ && self@.contains(helper@),
                None => !has_name(self@, name@),
            },
    {
        let wanted = name.to_owned();
        let mut i: usize = 0;
        while i < self.entries.len()
            invariant
                i <= self.entries.len(),
                wanted@ == name@,
                forall|k: int| 0 <= k < i ==> (#[trigger] self@[k]).name != name@,
            decreases self.entries.len() - i,
        {
            if self.entries[i].name == wanted {
                assert(self@[i as int] == self.entries@[i as int]@);
                return Some(&self.entries[i]);
            }
            i += 1;
        }
        None
    }

    /// Records `format` if it is a composite shape whose signature the table
    /// does not hold yet. Anything else leaves the table as it is.
    pub fn record(&mut self, format: &Format)
        requires
            old(self).wf(),
            format@.is_resolved(),
        ensures
            final(self)@ == with_helper(old(self)@, format@),
            final(self).wf(),
    {
        if !format.needs_helper() {
            return ;
        }
        let name = mangle_type(format);
        let p = self.position_of(name.as_str());
        let ghost views = helper_views(self.entries@);
        if p < self.entries.len() && self.entries[p].name == name {
            return ;
        }
        proof {
            lemma_with_helper_sorted(views, format@);
        }
        let entry = Helper { name, format: clone_format(format) };
        self.entries.insert(p, entry);
        proof {
            let after = helper_views(self.entries@);
            assert(after =~= views.insert(
                p as int,
                HelperView { name: signature(format@), format: format@ },
            ));
            assert forall|k: int| 0 <= k < after.len() implies {
                &&& (#[trigger] after[k]).format.needs_helper()
                &&& after[k].format.is_resolved()
                &&& after[k].name == signature(after[k].format)
            } by {
                if k < p {
                    assert(after[k] == views[k]);
                } else if k > p {
                    assert(after[k] == views[k - 1]);
                }
            }
        }
    }

    /// Records the composite shapes met on a walk of `format`.
    pub fn collect(&mut self, format: &Format)
        requires
            old(self).wf(),
            format@.is_resolved(),
        ensures
            final(self)@ == with_helpers(old(self)@, visit(format@)),
            final(self).wf(),
        decreases format,
    {
        let ghost before = self@;
        match format {
            Format::Option(inner) => {
                self.collect(inner);
                self.record(format);
                proof {
                    lemma_with_helpers_push(before, visit(inner@), format@);
                }
            },
            Format::Sequence(inner) => {
                self.collect(inner);
                self.record(format);
                proof {
                    lemma_with_helpers_push(before, visit(inner@), format@);
                }
            },
            Format::Mapping { key, value } => {
                self.collect(key);
                self.collect(value);
                self.record(format);
                proof {
                    lemma_with_helpers_concat(before, visit(key@), visit(value@));
                    lemma_with_helpers_push(before, visit(key@) + visit(value@), format@);
                }
            },
            Format::Tuple(formats) => {
                self.collect_formats(formats);
                self.record(format);
                proof {
                    let parts = format_views(formats@);
                    lemma_with_helpers_push(before, visit_formats(parts, parts.len()), format@);
                }
            },
            Format::TupleArray { content, size } => {
                self.collect(content);
                self.record(format);
                proof {
                    lemma_with_helpers_push(before, visit(content@), format@);
                }
            },
            _ => {
                self.record(format);
                proof {
                    lemma_with_helpers_push(before, Seq::empty(), format@);
                    assert(Seq::<FormatView>::empty().push(format@) =~= seq![format@]);
                }
            },
        }
    }

    /// Records the composite shapes met on a walk of the formats of a list.
    pub fn collect_formats(&mut self, formats: &Vec<Format>)
        requires
            old(self).wf(),
            all_resolved(format_views(formats@)),
        ensures
            final(self)@ == with_helpers(
                old(self)@,
                visit_formats(format_views(formats@), formats@.len()),
            ),
            final(self).wf(),
        decreases formats,
    {
        let ghost before = self@;
        let ghost parts = format_views(formats@);
        let mut i: usize = 0;
        while i < formats.len()
            invariant
                i <= formats.len(),
                parts == format_views(formats@),
                all_resolved(parts),
                self.wf(),
                self@ == with_helpers(before, visit_formats(parts, i as nat)),
            decreases formats.len() - i,
        {
            assert(parts[i as int].is_resolved());
            self.collect(&formats[i]);
            proof {
                lemma_with_helpers_concat(
                    before,
                    visit_formats(parts, i as nat),
                    visit(parts[i as int]),
                );
            }
            i += 1;
        }
    }

    /// Records the composite shapes met on a walk of the fields of a list.
    pub fn collect_fields(&mut self, fields: &Vec<Named<Format>>)
        requires
            old(self).wf(),
            fields_resolved(field_views(fields@)),
        ensures
            final(self)@ == with_helpers(
                old(self)@,
                visit_fields(field_views(fields@), fields@.len()),
            ),
            final(self).wf(),
    {
        let ghost before = self@;
        let ghost parts = field_views(fields@);
        let mut i: usize = 0;
        while i < fields.len()
            invariant
                i <= fields.len(),
                parts == field_views(fields@),
                fields_resolved(parts),
                self.wf(),
                self@ == with_helpers(before, visit_fields(parts, i as nat)),
            decreases fields.len() - i,
        {
            assert(parts[i as int].value.is_resolved());
            self.collect(&fields[i].value);
            proof {
                lemma_with_helpers_concat(
                    before,
                    visit_fields(parts, i as nat),
                    visit(parts[i as int].value),
                );
            }
            i += 1;
        }
    }

    /// Records the composite shapes met on a walk of a variant.
    pub fn collect_variant(&mut self, variant: &VariantFormat)
        requires
            old(self).wf(),
            variant@.is_resolved(),
        ensures
            final(self)@ == with_helpers(old(self)@, visit_variant(variant@)),
            final(self).wf(),
    {
        match variant {
            VariantFormat::Variable => {},
            VariantFormat::Unit => {},
            VariantFormat::NewType(inner) => self.collect(inner),
            VariantFormat::Tuple(formats) => self.collect_formats(formats),
            VariantFormat::Struct(fields) => self.collect_fields(fields),
        }
    }

    /// Records the composite shapes met on a walk of the variants of an enum.
    pub fn collect_variants(&mut self, variants: &Vec<(u32, Named<VariantFormat>)>)
        requires
            old(self).wf(),
            variants_resolved(variant_views(variants@)),
        ensures
            final(self)@ == with_helpers(
                old(self)@,
                visit_variants(variant_views(variants@), variants@.len()),
            ),
            final(self).wf(),
    {
        let ghost before = self@;
        let ghost parts = variant_views(variants@);
        let mut i: usize = 0;
        while i < variants.len()
            invariant
                i <= variants.len(),
                parts == variant_views(variants@),
                variants_resolved(parts),
                self.wf(),
                self@ == with_helpers(before, visit_variants(parts, i as nat)),
            decreases variants.len() - i,
        {
            assert(parts[i as int].value.is_resolved());
            self.collect_variant(&variants[i].1.value);
            proof {
                lemma_with_helpers_concat(
                    before,
                    visit_variants(parts, i as nat),
                    visit_variant(parts[i as int].value),
                );
            }
            i += 1;
        }
    }

    /// Records the composite shapes met on a walk of a container.
    pub fn collect_container(&mut self, container: &ContainerFormat)
        requires
            old(self).wf(),
            container@.is_resolved(),
        ensures
            final(self)@ == with_helpers(old(self)@, visit_container(container@)),
            final(self).wf(),
    {
        match container {
            ContainerFormat::UnitStruct => {},
            ContainerFormat::NewTypeStruct(inner) => self.collect(inner),
            ContainerFormat::TupleStruct(formats) => self.collect_formats(formats),
            ContainerFormat::Struct(fields) => self.collect_fields(fields),
            ContainerFormat::Enum(variants) => self.collect_variants(variants),
        }
    }

    /// The helper table of a registry: one entry for every distinct
    /// signature of a composite shape that occurs in it.
    pub fn build(registry: &Registry) -> (table: Self)
        requires
            registry_resolved(registry_view(registry@)),
        ensures
            table@ == helper_table(registry_view(registry@)),
            table.wf(),
    {
        let mut table = HelperTable::new();
        let ghost parts = registry_view(registry@);
        let mut i: usize = 0;
        while i < registry.len()
            invariant
                i <= registry.len(),
                parts == registry_view(registry@),
                registry_resolved(parts),
                table.wf(),
                table@ == with_helpers(Seq::empty(), visit_registry(parts, i as nat)),
            decreases registry.len() - i,
        {
            assert(parts[i as int].format.is_resolved());
            table.collect_container(&registry[i].1);
            proof {
                lemma_with_helpers_concat(
                    Seq::empty(),
                    visit_registry(parts, i as nat),
                    visit_container(parts[i as int].format),
                );
            }
            i += 1;
        }
        table
    }
}

} // verus!
