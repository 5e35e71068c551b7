//! The format grammar and the registry of containers, with their mathematical views.

use vstd::prelude::*;

verus! {

/// The shape of an unnamed value.
#[derive(Debug, PartialEq, Eq)]
pub enum Format {
    /// A placeholder whose shape is not known. Generation rejects it.
    Variable,
    /// A reference, by name, to a container.
    TypeName(String),
    Unit,
    Bool,
    I8,
    I16,
    I32,
    I64,
    I128,
    U8,
    U16,
    U32,
    U64,
    U128,
    F32,
    F64,
    Char,
    Str,
    Bytes,
    /// A value that may be absent.
    Option(Box<Format>),
    /// A sequence of any length.
    Sequence(Box<Format>),
    /// A map from keys to values.
    Mapping { key: Box<Format>, value: Box<Format> },
    /// A tuple of a fixed list of shapes.
    Tuple(Vec<Format>),
    /// A sequence whose length is fixed by the schema.
    TupleArray { content: Box<Format>, size: usize },
}

/// A value together with its name.
#[derive(Debug, PartialEq, Eq)]
pub struct Named<T> {
    pub name: String,
    pub value: T,
}

/// The shape of one variant of an enum.
#[derive(Debug, PartialEq, Eq)]
pub enum VariantFormat {
    /// A placeholder whose shape is not known. Generation rejects it.
    Variable,
    Unit,
    NewType(Box<Format>),
    Tuple(Vec<Format>),
    Struct(Vec<Named<Format>>),
}

/// The shape of a named container.
#[derive(Debug, PartialEq, Eq)]
pub enum ContainerFormat {
    UnitStruct,
    NewTypeStruct(Box<Format>),
    TupleStruct(Vec<Format>),
    Struct(Vec<Named<Format>>),
    /// The variants of an enum, each with its tag. A registry is fit for
    /// generation only where they come in the strict order of their tags.
    Enum(Vec<(u32, Named<VariantFormat>)>),
}

/// The containers of one generation run, each with its name, in the order of emission.
pub type Registry = Vec<(String, ContainerFormat)>;

/// The mathematical value of a [`Format`].
pub enum FormatView {
    Variable,
    TypeName(Seq<char>),
    Unit,
    Bool,
    I8,
    I16,
    I32,
    I64,
    I128,
    U8,
    U16,
    U32,
    U64,
    U128,
    F32,
    F64,
    Char,
    Str,
    Bytes,
    Option(Box<FormatView>),
    Sequence(Box<FormatView>),
    Mapping { key: Box<FormatView>, value: Box<FormatView> },
    Tuple(Seq<FormatView>),
    TupleArray { content: Box<FormatView>, size: nat },
}

/// The mathematical value of a named field.
pub struct FieldView {
    pub name: Seq<char>,
    pub value: FormatView,
}

/// The mathematical value of a [`VariantFormat`].
pub enum VariantView {
    Variable,
    Unit,
    NewType(FormatView),
    Tuple(Seq<FormatView>),
    Struct(Seq<FieldView>),
}

/// The mathematical value of one entry of an enum: tag, name and shape.
pub struct VariantEntryView {
    pub index: nat,
    pub name: Seq<char>,
    pub value: VariantView,
}

/// The mathematical value of a [`ContainerFormat`].
pub enum ContainerView {
    UnitStruct,
    NewTypeStruct(FormatView),
    TupleStruct(Seq<FormatView>),
    Struct(Seq<FieldView>),
    Enum(Seq<VariantEntryView>),
}

/// The mathematical value of one entry of a registry.
pub struct EntryView {
    pub name: Seq<char>,
    pub format: ContainerView,
}

/// The mathematical value of a format.
pub open spec fn format_view(format: Format) -> FormatView
    decreases format,
{
    match format {
        Format::Variable => FormatView::Variable,
        Format::TypeName(name) => FormatView::TypeName(name@),
        Format::Unit => FormatView::Unit,
        Format::Bool => FormatView::Bool,
        Format::I8 => FormatView::I8,
        Format::I16 => FormatView::I16,
        Format::I32 => FormatView::I32,
        Format::I64 => FormatView::I64,
        Format::I128 => FormatView::I128,
        Format::U8 => FormatView::U8,
        Format::U16 => FormatView::U16,
        Format::U32 => FormatView::U32,
        Format::U64 => FormatView::U64,
        Format::U128 => FormatView::U128,
        Format::F32 => FormatView::F32,
        Format::F64 => FormatView::F64,
        Format::Char => FormatView::Char,
        Format::Str => FormatView::Str,
        Format::Bytes => FormatView::Bytes,
        Format::Option(inner) => FormatView::Option(Box::new(format_view(*inner))),
        Format::Sequence(inner) => FormatView::Sequence(Box::new(format_view(*inner))),
        Format::Mapping { key, value } => FormatView::Mapping {
            key: Box::new(format_view(*key)),
            value: Box::new(format_view(*value)),
        },
        Format::Tuple(formats) => FormatView::Tuple(format_views(formats@)),
        Format::TupleArray { content, size } => FormatView::TupleArray {
            content: Box::new(format_view(*content)),
            size: size as nat,
        },
    }
}

/// The views of a list of formats, in order.
pub open spec fn format_views(formats: Seq<Format>) -> Seq<FormatView>
    decreases formats,
{
    Seq::new(
        formats.len(),
        |i: int|
            if 0 <= i < formats.len() {
                format_view(formats[i])
            } else {
                FormatView::Unit
            },
    )
}

impl View for Format {
    type V = FormatView;

    open spec fn view(&self) -> FormatView {
        format_view(*self)
    }
}

impl View for Named<Format> {
    type V = FieldView;

    open spec fn view(&self) -> FieldView {
        FieldView { name: self.name@, value: self.value@ }
    }
}

/// The views of a list of named fields, in order.
pub open spec fn field_views(fields: Seq<Named<Format>>) -> Seq<FieldView> {
    Seq::new(fields.len(), |i: int| fields[i]@)
}

impl View for VariantFormat {
    type V = VariantView;

    open spec fn view(&self) -> VariantView {
        match self {
            VariantFormat::Variable => VariantView::Variable,
            VariantFormat::Unit => VariantView::Unit,
            VariantFormat::NewType(inner) => VariantView::NewType(inner@),
            VariantFormat::Tuple(formats) => VariantView::Tuple(format_views(formats@)),
            VariantFormat::Struct(fields) => VariantView::Struct(field_views(fields@)),
        }
    }
}

/// The view of one entry of an enum.
pub open spec fn variant_entry_view(entry: (u32, Named<VariantFormat>)) -> VariantEntryView {
    VariantEntryView { index: entry.0 as nat, name: entry.1.name@, value: entry.1.value@ }
}

/// The views of the entries of an enum, in order.
pub open spec fn variant_views(variants: Seq<(u32, Named<VariantFormat>)>) -> Seq<
    VariantEntryView,
> {
    Seq::new(variants.len(), |i: int| variant_entry_view(variants[i]))
}

impl View for ContainerFormat {
    type V = ContainerView;

    open spec fn view(&self) -> ContainerView {
        match self {
            ContainerFormat::UnitStruct => ContainerView::UnitStruct,
            ContainerFormat::NewTypeStruct(inner) => ContainerView::NewTypeStruct(inner@),
            ContainerFormat::TupleStruct(formats) => ContainerView::TupleStruct(
                format_views(formats@),
            ),
            ContainerFormat::Struct(fields) => ContainerView::Struct(field_views(fields@)),
            ContainerFormat::Enum(variants) => ContainerView::Enum(variant_views(variants@)),
        }
    }
}

/// The views of the entries of a registry, in order.
pub open spec fn registry_view(registry: Seq<(String, ContainerFormat)>) -> Seq<EntryView> {
    Seq::new(registry.len(), |i: int| EntryView { name: registry[i].0@, format: registry[i].1@ })
}

impl FormatView {
    /// No placeholder occurs in the format, at any depth.
    pub open spec fn is_resolved(self) -> bool
        decreases self,
    {
        match self {
            FormatView::Variable => false,
            FormatView::Option(inner) => inner.is_resolved(),
            FormatView::Sequence(inner) => inner.is_resolved(),
            FormatView::Mapping { key, value } => key.is_resolved() && value.is_resolved(),
            FormatView::Tuple(formats) => all_resolved(formats),
            FormatView::TupleArray { content, size } => content.is_resolved(),
            _ => true,
        }
    }

    /// The format is one of the primitive kinds, each of which has one writer and
    /// one reader of its own.
    pub open spec fn is_primitive(self) -> bool {
        match self {
            FormatView::Unit
            | FormatView::Bool
            | FormatView::I8
            | FormatView::I16
            | FormatView::I32
            | FormatView::I64
            | FormatView::I128
            | FormatView::U8
            | FormatView::U16
            | FormatView::U32
            | FormatView::U64
            | FormatView::U128
            | FormatView::F32
            | FormatView::F64
            | FormatView::Char
            | FormatView::Str
            | FormatView::Bytes => true,
            _ => false,
        }
    }

    /// The format is a composite shape, which is written and read by a helper.
    pub open spec fn needs_helper(self) -> bool {
        match self {
            FormatView::Option(_)
            | FormatView::Sequence(_)
            | FormatView::Mapping { .. }
            | FormatView::Tuple(_)
            | FormatView::TupleArray { .. } => true,
            _ => false,
        }
    }
}

/// No placeholder occurs in any format of the list.
pub open spec fn all_resolved(formats: Seq<FormatView>) -> bool
    decreases formats,
{
    forall|i: int| 0 <= i < formats.len() ==> (#[trigger] formats[i]).is_resolved()
}

/// No placeholder occurs in the format of any field of the list.
pub open spec fn fields_resolved(fields: Seq<FieldView>) -> bool {
    forall|i: int| 0 <= i < fields.len() ==> (#[trigger] fields[i]).value.is_resolved()
}

impl VariantView {
    /// The variant is known and no placeholder occurs in it.
    pub open spec fn is_resolved(self) -> bool {
        match self {
            VariantView::Variable => false,
            VariantView::Unit => true,
            VariantView::NewType(inner) => inner.is_resolved(),
            VariantView::Tuple(formats) => all_resolved(formats),
            VariantView::Struct(fields) => fields_resolved(fields),
        }
    }
}

/// Every variant of the list is known and free of placeholders.
pub open spec fn variants_resolved(variants: Seq<VariantEntryView>) -> bool {
    forall|i: int| 0 <= i < variants.len() ==> (#[trigger] variants[i]).value.is_resolved()
}

impl ContainerView {
    /// No placeholder occurs in the container.
    pub open spec fn is_resolved(self) -> bool {
        match self {
            ContainerView::UnitStruct => true,
            ContainerView::NewTypeStruct(inner) => inner.is_resolved(),
            ContainerView::TupleStruct(formats) => all_resolved(formats),
            ContainerView::Struct(fields) => fields_resolved(fields),
            ContainerView::Enum(variants) => variants_resolved(variants),
        }
    }
}

/// A copy of the format.
pub fn clone_format(format: &Format) -> (r: Format)
    ensures
        r@ == format@,
    decreases format,
{
    match format {
        Format::Variable => Format::Variable,
        Format::TypeName(name) => Format::TypeName(name.clone()),
        Format::Unit => Format::Unit,
        Format::Bool => Format::Bool,
        Format::I8 => Format::I8,
        Format::I16 => Format::I16,
        Format::I32 => Format::I32,
        Format::I64 => Format::I64,
        Format::I128 => Format::I128,
        Format::U8 => Format::U8,
        Format::U16 => Format::U16,
        Format::U32 => Format::U32,
        Format::U64 => Format::U64,
        Format::U128 => Format::U128,
        Format::F32 => Format::F32,
        Format::F64 => Format::F64,
        Format::Char => Format::Char,
        Format::Str => Format::Str,
        Format::Bytes => Format::Bytes,
        Format::Option(inner) => Format::Option(Box::new(clone_format(inner))),
        Format::Sequence(inner) => Format::Sequence(Box::new(clone_format(inner))),
        Format::Mapping { key, value } => Format::Mapping {
            key: Box::new(clone_format(key)),
            value: Box::new(clone_format(value)),
        },
        Format::Tuple(formats) => Format::Tuple(clone_formats(formats)),
        Format::TupleArray { content, size } => Format::TupleArray {
            content: Box::new(clone_format(content)),
            size: *size,
        },
    }
}

/// A copy of the list of formats.
pub fn clone_formats(formats: &Vec<Format>) -> (r: Vec<Format>)
    ensures
        format_views(r@) == format_views(formats@),
    decreases formats,
{
    let mut out: Vec<Format> = Vec::new();
    let mut i: usize = 0;
    while i < formats.len()
        invariant
            i <= formats.len(),
            format_views(out@) == format_views(formats@).take(i as int),
        decreases formats.len() - i,
    {
        let ghost before = format_views(out@);
        out.push(clone_format(&formats[i]));
        i += 1;
        assert(format_views(out@) =~= before.push(formats@[i - 1]@));
        assert(format_views(out@) =~= format_views(formats@).take(i as int));
    }
    assert(format_views(formats@).take(i as int) =~= format_views(formats@));
    out
}

/// A copy of the list of named fields.
pub fn clone_fields(fields: &Vec<Named<Format>>) -> (r: Vec<Named<Format>>)
    ensures
        field_views(r@) == field_views(fields@),
{
    let mut out: Vec<Named<Format>> = Vec::new();
    let mut i: usize = 0;
    while i < fields.len()
        invariant
            i <= fields.len(),
            field_views(out@) == field_views(fields@).take(i as int),
        decreases fields.len() - i,
    {
        let ghost before = field_views(out@);
        out.push(Named { name: fields[i].name.clone(), value: clone_format(&fields[i].value) });
        i += 1;
        assert(field_views(out@) =~= before.push(fields@[i - 1]@));
        assert(field_views(out@) =~= field_views(fields@).take(i as int));
    }
    assert(field_views(fields@).take(i as int) =~= field_views(fields@));
    out
}

impl Clone for Format {
    fn clone(&self) -> (r: Self)
        ensures
            r@ == self@,
    {
        clone_format(self)
    }
}

impl Clone for Named<Format> {
    fn clone(&self) -> (r: Self)
        ensures
            r@ == self@,
    {
        Named { name: self.name.clone(), value: clone_format(&self.value) }
    }
}

/// A copy of the variant.
pub fn clone_variant(variant: &VariantFormat) -> (r: VariantFormat)
    ensures
        r@ == variant@,
{
    match variant {
        VariantFormat::Variable => VariantFormat::Variable,
        VariantFormat::Unit => VariantFormat::Unit,
        VariantFormat::NewType(inner) => VariantFormat::NewType(Box::new(clone_format(inner))),
        VariantFormat::Tuple(formats) => VariantFormat::Tuple(clone_formats(formats)),
        VariantFormat::Struct(fields) => VariantFormat::Struct(clone_fields(fields)),
    }
}

impl Clone for VariantFormat {
    fn clone(&self) -> (r: Self)
        ensures
            r@ == self@,
    {
        clone_variant(self)
    }
}

impl Clone for Named<VariantFormat> {
    fn clone(&self) -> (r: Self)
        ensures
            r.name@ == self.name@,
            r.value@ == self.value@,
    {
        Named { name: self.name.clone(), value: clone_variant(&self.value) }
    }
}

/// A copy of the variants of an enum.
pub fn clone_variants(variants: &Vec<(u32, Named<VariantFormat>)>) -> (r: Vec<
    (u32, Named<VariantFormat>),
>)
    ensures
        variant_views(r@) == variant_views(variants@),
{
    let mut out: Vec<(u32, Named<VariantFormat>)> = Vec::new();
    let mut i: usize = 0;
    while i < variants.len()
        invariant
            i <= variants.len(),
            variant_views(out@) == variant_views(variants@).take(i as int),
        decreases variants.len() - i,
    {
        let ghost before = variant_views(out@);
        let name = variants[i].1.name.clone();
        let value = clone_variant(&variants[i].1.value);
        out.push((variants[i].0, Named { name, value }));
        assert(variant_views(out@) =~= before.push(variant_views(variants@)[i as int]));
        i += 1;
        assert(variant_views(out@) =~= variant_views(variants@).take(i as int));
    }
    assert(variant_views(variants@).take(i as int) =~= variant_views(variants@));
    out
}

/// A copy of the container.
pub fn clone_container(container: &ContainerFormat) -> (r: ContainerFormat)
    ensures
        r@ == container@,
{
    match container {
        ContainerFormat::UnitStruct => ContainerFormat::UnitStruct,
        ContainerFormat::NewTypeStruct(inner) => ContainerFormat::NewTypeStruct(
            Box::new(clone_format(inner)),
        ),
        ContainerFormat::TupleStruct(formats) => ContainerFormat::TupleStruct(
            clone_formats(formats),
        ),
        ContainerFormat::Struct(fields) => ContainerFormat::Struct(clone_fields(fields)),
        ContainerFormat::Enum(variants) => ContainerFormat::Enum(clone_variants(variants)),
    }
}

impl Clone for ContainerFormat {
    fn clone(&self) -> (r: Self)
        ensures
            r@ == self@,
    {
        clone_container(self)
    }
}

impl Format {
    /// Whether no placeholder occurs in the format, at any depth.
    pub fn is_resolved(&self) -> (r: bool)
        ensures
            r == self@.is_resolved(),
        decreases self,
    {
        match self {
            Format::Variable => false,
            Format::Option(inner) => inner.is_resolved(),
            Format::Sequence(inner) => inner.is_resolved(),
            Format::Mapping { key, value } => key.is_resolved() && value.is_resolved(),
            Format::Tuple(formats) => formats_resolved(formats),
            Format::TupleArray { content, size } => content.is_resolved(),
            _ => true,
        }
    }

    /// Whether the format is a composite shape, written and read by a helper.
    pub fn needs_helper(&self) -> (r: bool)
        ensures
            r == self@.needs_helper(),
    {
        match self {
            Format::Option(_)
            | Format::Sequence(_)
            | Format::Mapping { .. }
            | Format::Tuple(_)
            | Format::TupleArray { .. } => true,
            _ => false,
        }
    }
}

/// Whether no placeholder occurs in any format of the list.
pub fn formats_resolved(formats: &Vec<Format>) -> (r: bool)
    ensures
        r == all_resolved(format_views(formats@)),
    decreases formats,
{
    let mut i: usize = 0;
    while i < formats.len()
        invariant
            i <= formats.len(),
            forall|k: int| 0 <= k < i ==> (#[trigger] format_views(formats@)[k]).is_resolved(),
        decreases formats.len() - i,
    {
        if !formats[i].is_resolved() {
            assert(!format_views(formats@)[i as int].is_resolved());
            return false;
        }
        i += 1;
    }
    true
}

/// Whether no placeholder occurs in the format of any field of the list.
pub fn named_resolved(fields: &Vec<Named<Format>>) -> (r: bool)
    ensures
        r == fields_resolved(field_views(fields@)),
{
    let mut i: usize = 0;
    while i < fields.len()
        invariant
            i <= fields.len(),
            forall|k: int| 0 <= k < i ==> (#[trigger] field_views(fields@)[k]).value.is_resolved(),
        decreases fields.len() - i,
    {
        if !fields[i].value.is_resolved() {
            assert(!field_views(fields@)[i as int].value.is_resolved());
            return false;
        }
        i += 1;
    }
    true
}

impl VariantFormat {
    /// Whether the variant is known and free of placeholders.
    pub fn is_resolved(&self) -> (r: bool)
        ensures
            r == self@.is_resolved(),
    {
        match self {
            VariantFormat::Variable => false,
            VariantFormat::Unit => true,
            VariantFormat::NewType(inner) => inner.is_resolved(),
            VariantFormat::Tuple(formats) => formats_resolved(formats),
            VariantFormat::Struct(fields) => named_resolved(fields),
        }
    }
}

impl ContainerFormat {
    /// Whether no placeholder occurs in the container.
    pub fn is_resolved(&self) -> (r: bool)
        ensures
            r == self@.is_resolved(),
    {
        match self {
            ContainerFormat::UnitStruct => true,
            ContainerFormat::NewTypeStruct(inner) => inner.is_resolved(),
            ContainerFormat::TupleStruct(formats) => formats_resolved(formats),
            ContainerFormat::Struct(fields) => named_resolved(fields),
            ContainerFormat::Enum(variants) => entries_resolved(variants),
        }
    }
}

/// Whether every variant of the list is known and free of placeholders.
pub fn entries_resolved(variants: &Vec<(u32, Named<VariantFormat>)>) -> (r: bool)
    ensures
        r == variants_resolved(variant_views(variants@)),
{
    let mut i: usize = 0;
    while i < variants.len()
        invariant
            i <= variants.len(),
            forall|k: int|
                0 <= k < i ==> (#[trigger] variant_views(variants@)[k]).value.is_resolved(),
        decreases variants.len() - i,
    {
        if !variants[i].1.value.is_resolved() {
            assert(!variant_views(variants@)[i as int].value.is_resolved());
            return false;
        }
        i += 1;
    }
    true
}

} // verus!
