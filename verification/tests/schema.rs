use serde_generate_dart::config::CodeGeneratorConfig;
use serde_generate_dart::format::{ContainerFormat, Format, Named, VariantFormat};
use serde_generate_dart::schema::{check_registry, SchemaError};

fn boxed(f: Format) -> Box<Format> {
    Box::new(f)
}

fn named<T>(name: &str, value: T) -> Named<T> {
    Named { name: name.to_string(), value }
}

fn reference(name: &str) -> Format {
    Format::TypeName(name.to_string())
}

fn check(registry: &Vec<(String, ContainerFormat)>) -> Result<(), SchemaError> {
    check_registry(registry, &CodeGeneratorConfig::new("example".to_string()))
}

fn entry(name: &str, format: ContainerFormat) -> (String, ContainerFormat) {
    (name.to_string(), format)
}

#[test]
fn an_empty_registry_is_fit() {
    assert_eq!(check(&vec![]), Ok(()));
}

#[test]
fn a_closed_registry_is_fit() {
    let registry = vec![
        entry("A", ContainerFormat::Struct(vec![named("b", reference("B")), named("n", Format::U8)])),
        entry(
            "B",
            ContainerFormat::Enum(vec![
                (0, named("X", VariantFormat::NewType(boxed(Format::Sequence(boxed(reference("A"))))))),
                (1, named("Y", VariantFormat::Struct(vec![named("b", Format::U8), named("n", Format::U8)]))),
                (5, named("Z", VariantFormat::Unit)),
            ]),
        ),
        entry("C", ContainerFormat::TupleStruct(vec![reference("C"), reference("A")])),
    ];
    assert_eq!(check(&registry), Ok(()));
}

#[test]
fn a_container_may_refer_to_itself() {
    let registry = vec![entry(
        "Tree",
        ContainerFormat::Struct(vec![named("children", Format::Sequence(boxed(reference("Tree"))))]),
    )];
    assert_eq!(check(&registry), Ok(()));
}

#[test]
fn a_placeholder_is_rejected_wherever_it_stands() {
    let cases = vec![
        ContainerFormat::NewTypeStruct(boxed(Format::Variable)),
        ContainerFormat::TupleStruct(vec![Format::U8, Format::Option(boxed(Format::Variable))]),
        ContainerFormat::Struct(vec![named(
            "m",
            Format::Mapping { key: boxed(Format::U8), value: boxed(Format::Variable) },
        )]),
        ContainerFormat::Struct(vec![named("t", Format::Tuple(vec![Format::Variable]))]),
        ContainerFormat::Struct(vec![named(
            "a",
            Format::TupleArray { content: boxed(Format::Variable), size: 2 },
        )]),
        ContainerFormat::Enum(vec![(0, named("V", VariantFormat::Variable))]),
        ContainerFormat::Enum(vec![(0, named("V", VariantFormat::NewType(boxed(Format::Variable))))]),
        ContainerFormat::Enum(vec![(0, named("V", VariantFormat::Tuple(vec![Format::Variable])))]),
        ContainerFormat::Enum(vec![(
            0,
            named("V", VariantFormat::Struct(vec![named("x", Format::Variable)])),
        )]),
    ];
    for format in cases {
        let registry = vec![entry("Fine", ContainerFormat::UnitStruct), entry("A", format)];
        assert_eq!(check(&registry), Err(SchemaError::UnresolvedFormat));
    }
}

#[test]
fn a_reference_to_an_unknown_name_is_rejected() {
    let registry = vec![
        entry("A", ContainerFormat::UnitStruct),
        entry("B", ContainerFormat::Struct(vec![named("x", Format::Option(boxed(reference("C"))))])),
    ];
    assert_eq!(check(&registry), Err(SchemaError::DanglingReference));
    let in_variant = vec![entry(
        "E",
        ContainerFormat::Enum(vec![(
            0,
            named("V", VariantFormat::Tuple(vec![Format::U8, reference("Nowhere")])),
        )]),
    )];
    assert_eq!(check(&in_variant), Err(SchemaError::DanglingReference));
    let in_map_key = vec![entry(
        "M",
        ContainerFormat::NewTypeStruct(boxed(Format::Mapping {
            key: boxed(reference("K")),
            value: boxed(Format::U8),
        })),
    )];
    assert_eq!(check(&in_map_key), Err(SchemaError::DanglingReference));
}

#[test]
fn a_reference_to_a_name_declared_externally_is_accepted() {
    let registry = vec![entry(
        "A",
        ContainerFormat::Struct(vec![named("x", reference("Foreign")), named("y", reference("Other"))]),
    )];
    assert_eq!(check(&registry), Err(SchemaError::DanglingReference));
    let one = CodeGeneratorConfig::new("example".to_string()).with_external_definitions(vec![(
        "elsewhere".to_string(),
        vec!["Foreign".to_string()],
    )]);
    assert_eq!(check_registry(&registry, &one), Err(SchemaError::DanglingReference));
    let both = CodeGeneratorConfig::new("example".to_string()).with_external_definitions(vec![
        ("elsewhere".to_string(), vec!["Unused".to_string(), "Foreign".to_string()]),
        ("nowhere".to_string(), vec![]),
        ("there".to_string(), vec!["Other".to_string()]),
    ]);
    assert_eq!(check_registry(&registry, &both), Ok(()));
}

#[test]
fn a_tag_that_occurs_twice_is_rejected() {
    let registry = vec![entry(
        "E",
        ContainerFormat::Enum(vec![
            (0, named("A", VariantFormat::Unit)),
            (1, named("B", VariantFormat::Unit)),
            (0, named("C", VariantFormat::Unit)),
        ]),
    )];
    assert_eq!(check(&registry), Err(SchemaError::DuplicateTag));
}

#[test]
fn variants_out_of_the_order_of_their_tags_are_rejected() {
    let descending = vec![entry(
        "E",
        ContainerFormat::Enum(vec![
            (1, named("A", VariantFormat::Unit)),
            (0, named("B", VariantFormat::Unit)),
        ]),
    )];
    assert_eq!(check(&descending), Err(SchemaError::UnorderedTags));
    let late = vec![
        entry("Fine", ContainerFormat::Enum(vec![(7, named("A", VariantFormat::Unit))])),
        entry(
            "E",
            ContainerFormat::Enum(vec![
                (0, named("A", VariantFormat::Unit)),
                (5, named("B", VariantFormat::Unit)),
                (9, named("C", VariantFormat::Unit)),
                (8, named("D", VariantFormat::Unit)),
            ]),
        ),
    ];
    assert_eq!(check(&late), Err(SchemaError::UnorderedTags));
    let ascending = vec![entry(
        "E",
        ContainerFormat::Enum(vec![
            (0, named("A", VariantFormat::Unit)),
            (5, named("B", VariantFormat::Unit)),
            (4000000000, named("C", VariantFormat::Unit)),
        ]),
    )];
    assert_eq!(check(&ascending), Ok(()));
    let none = vec![entry("E", ContainerFormat::Enum(vec![]))];
    assert_eq!(check(&none), Ok(()));
}

#[test]
fn the_files_to_import_are_no_names_of_types() {
    let registry = vec![entry(
        "A",
        ContainerFormat::Struct(vec![named("x", reference("Foreign"))]),
    )];
    let only_import = CodeGeneratorConfig::new("example".to_string()).with_external_definitions(
        vec![("import".to_string(), vec!["Foreign".to_string(), "other.dart".to_string()])],
    );
    assert_eq!(check_registry(&registry, &only_import), Err(SchemaError::DanglingReference));
    assert_eq!(only_import.qualified_name("Foreign"), "Foreign");
    assert_eq!(only_import.qualified_name("other.dart"), "other.dart");
    let both = CodeGeneratorConfig::new("example".to_string()).with_external_definitions(vec![
        ("elsewhere".to_string(), vec!["Foreign".to_string()]),
        ("import".to_string(), vec!["Foreign".to_string()]),
    ]);
    assert_eq!(check_registry(&registry, &both), Ok(()));
    assert_eq!(both.qualified_name("Foreign"), "elsewhere.Foreign");
}

#[test]
fn a_name_that_occurs_twice_in_one_scope_is_rejected() {
    let containers = vec![
        entry("A", ContainerFormat::UnitStruct),
        entry("B", ContainerFormat::UnitStruct),
        entry("A", ContainerFormat::NewTypeStruct(boxed(Format::U8))),
    ];
    assert_eq!(check(&containers), Err(SchemaError::DuplicateName));
    let fields = vec![entry(
        "A",
        ContainerFormat::Struct(vec![named("x", Format::U8), named("x", Format::Str)]),
    )];
    assert_eq!(check(&fields), Err(SchemaError::DuplicateName));
    let variants = vec![entry(
        "E",
        ContainerFormat::Enum(vec![
            (0, named("A", VariantFormat::Unit)),
            (1, named("A", VariantFormat::Unit)),
        ]),
    )];
    assert_eq!(check(&variants), Err(SchemaError::DuplicateName));
    let variant_fields = vec![entry(
        "E",
        ContainerFormat::Enum(vec![
            (0, named("A", VariantFormat::Struct(vec![named("x", Format::U8)]))),
            (
                1,
                named(
                    "B",
                    VariantFormat::Struct(vec![
                        named("x", Format::U8),
                        named("y", Format::U8),
                        named("x", Format::U8),
                    ]),
                ),
            ),
        ]),
    )];
    assert_eq!(check(&variant_fields), Err(SchemaError::DuplicateName));
}

#[test]
fn one_name_in_two_scopes_is_accepted() {
    let registry = vec![
        entry("A", ContainerFormat::Struct(vec![named("x", Format::U8), named("A", Format::U8)])),
        entry("B", ContainerFormat::Struct(vec![named("x", Format::U8)])),
        entry(
            "E",
            ContainerFormat::Enum(vec![
                (0, named("A", VariantFormat::Struct(vec![named("x", Format::U8)]))),
                (1, named("B", VariantFormat::Struct(vec![named("x", Format::U8)]))),
            ]),
        ),
    ];
    assert_eq!(check(&registry), Ok(()));
}

#[test]
fn errors_are_reported_in_a_fixed_order() {
    let placeholder = entry("P", ContainerFormat::NewTypeStruct(boxed(Format::Variable)));
    let dangling = entry("D", ContainerFormat::NewTypeStruct(boxed(reference("Missing"))));
    let tags = entry(
        "T",
        ContainerFormat::Enum(vec![
            (3, named("A", VariantFormat::Unit)),
            (3, named("B", VariantFormat::Unit)),
        ]),
    );
    let order = entry(
        "O",
        ContainerFormat::Enum(vec![
            (2, named("A", VariantFormat::Unit)),
            (1, named("B", VariantFormat::Unit)),
        ]),
    );
    let names = entry(
        "N",
        ContainerFormat::Struct(vec![named("x", Format::U8), named("x", Format::U8)]),
    );
    let all = |parts: Vec<&(String, ContainerFormat)>| -> Vec<(String, ContainerFormat)> {
        parts.into_iter().map(|(n, f)| (n.clone(), f.clone())).collect()
    };
    assert_eq!(
        check(&all(vec![&names, &order, &tags, &dangling, &placeholder])),
        Err(SchemaError::UnresolvedFormat)
    );
    assert_eq!(
        check(&all(vec![&names, &order, &tags, &dangling])),
        Err(SchemaError::DanglingReference)
    );
    assert_eq!(check(&all(vec![&names, &order, &tags])), Err(SchemaError::DuplicateTag));
    assert_eq!(check(&all(vec![&names, &order])), Err(SchemaError::UnorderedTags));
    assert_eq!(check(&all(vec![&names])), Err(SchemaError::DuplicateName));
}

#[test]
fn each_error_has_a_message() {
    let errors = [
        SchemaError::UnresolvedFormat,
        SchemaError::DanglingReference,
        SchemaError::DuplicateTag,
        SchemaError::UnorderedTags,
        SchemaError::DuplicateName,
    ];
    let messages: Vec<String> = errors.iter().map(|e| e.message()).collect();
    assert_eq!(messages[0], "the schema holds a format that is not known");
    assert_eq!(messages[1], "the schema refers to a name that is not defined");
    assert_eq!(messages[2], "two variants of an enum have the same tag");
    assert_eq!(messages[3], "the variants of an enum are not in the order of their tags");
    assert_eq!(messages[4], "a name is defined twice in one scope");
}
