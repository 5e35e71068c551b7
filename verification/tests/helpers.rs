use serde_generate_dart::config::CodeGeneratorConfig;
use serde_generate_dart::emitter::DartEmitter;
use serde_generate_dart::format::{ContainerFormat, Format, Named, VariantFormat};
use serde_generate_dart::generator::CodeGenerator;
use serde_generate_dart::helpers::{Helper, HelperTable};

fn boxed(f: Format) -> Box<Format> {
    Box::new(f)
}

fn field(name: &str, value: Format) -> Named<Format> {
    Named { name: name.to_string(), value }
}

fn names(table: &Vec<Helper>) -> Vec<String> {
    table.iter().map(|h| h.name.clone()).collect()
}

fn build_helper_table(registry: &Vec<(String, ContainerFormat)>) -> Vec<Helper> {
    HelperTable::build(registry).entries().clone()
}

fn emit(f: impl FnOnce(&mut DartEmitter)) -> String {
    let config = CodeGeneratorConfig::new("example".to_string());
    let generator = CodeGenerator::new(&config);
    let mut emitter = DartEmitter::new(&generator, vec![]);
    f(&mut emitter);
    emitter.into_text()
}

fn count(text: &str, pattern: &str) -> usize {
    text.matches(pattern).count()
}

#[test]
fn helper_table_of_an_empty_registry_is_empty() {
    assert!(build_helper_table(&vec![]).is_empty());
}

#[test]
fn primitives_and_references_need_no_helper() {
    let registry = vec![(
        "A".to_string(),
        ContainerFormat::Struct(vec![
            field("x", Format::U8),
            field("y", Format::TypeName("B".to_string())),
        ]),
    )];
    assert!(build_helper_table(&registry).is_empty());
}

#[test]
fn one_helper_for_a_shape_shared_by_two_containers() {
    let registry = vec![
        (
            "First".to_string(),
            ContainerFormat::Struct(vec![field("a", Format::Option(boxed(Format::U32)))]),
        ),
        (
            "Second".to_string(),
            ContainerFormat::Struct(vec![
                field("b", Format::Str),
                field("c", Format::Option(boxed(Format::U32))),
            ]),
        ),
    ];
    let table = build_helper_table(&registry);
    assert_eq!(
        table,
        vec![Helper { name: "option_u32".to_string(), format: Format::Option(boxed(Format::U32)) }]
    );
    let text = emit(|e| e.output_trait_helpers(&registry));
    assert_eq!(count(&text, "static void serialize_option_u32("), 1);
    assert_eq!(count(&text, "static Optional<int> deserialize_option_u32("), 1);
    assert_eq!(count(&text, "static "), 2);
}

#[test]
fn both_call_sites_refer_to_the_one_helper() {
    let shared = Format::Option(boxed(Format::U32));
    let text = emit(|e| {
        e.output_container(
            "First",
            &ContainerFormat::Struct(vec![field("a", Format::Option(boxed(Format::U32)))]),
        );
        e.output_container(
            "Second",
            &ContainerFormat::Struct(vec![field("c", Format::Option(boxed(Format::U32)))]),
        );
    });
    assert!(text.contains("TraitHelpers.serialize_option_u32(a, serializer);"));
    assert!(text.contains("TraitHelpers.serialize_option_u32(c, serializer);"));
    assert_eq!(count(&text, "TraitHelpers.deserialize_option_u32(deserializer)"), 2);
    let table = build_helper_table(&vec![("X".to_string(), ContainerFormat::NewTypeStruct(boxed(shared)))]);
    assert_eq!(names(&table), vec!["option_u32".to_string()]);
}

#[test]
fn parts_of_a_shape_have_helpers_of_their_own() {
    let registry = vec![(
        "A".to_string(),
        ContainerFormat::NewTypeStruct(boxed(Format::Sequence(boxed(Format::Option(boxed(
            Format::Mapping {
                key: boxed(Format::Str),
                value: boxed(Format::Tuple(vec![
                    Format::U8,
                    Format::TupleArray { content: boxed(Format::Bool), size: 2 },
                ])),
            },
        )))))),
    )];
    assert_eq!(
        names(&build_helper_table(&registry)),
        vec![
            "array2_bool_array".to_string(),
            "map_str_to_tuple2_u8_array2_bool_array".to_string(),
            "option_map_str_to_tuple2_u8_array2_bool_array".to_string(),
            "tuple2_u8_array2_bool_array".to_string(),
            "vector_option_map_str_to_tuple2_u8_array2_bool_array".to_string(),
        ]
    );
}

#[test]
fn helpers_are_kept_in_the_order_of_their_signatures() {
    let registry = vec![
        ("Z".to_string(), ContainerFormat::TupleStruct(vec![
            Format::Sequence(boxed(Format::U8)),
            Format::Option(boxed(Format::U8)),
        ])),
        ("A".to_string(), ContainerFormat::Enum(vec![
            (0, Named { name: "V".to_string(), value: VariantFormat::NewType(boxed(Format::Mapping {
                key: boxed(Format::U8),
                value: boxed(Format::U8),
            })) }),
            (1, Named { name: "W".to_string(), value: VariantFormat::Tuple(vec![
                Format::TupleArray { content: boxed(Format::U8), size: 3 },
                Format::Option(boxed(Format::U8)),
            ]) }),
            (2, Named { name: "X".to_string(), value: VariantFormat::Struct(vec![
                field("t", Format::Tuple(vec![Format::U8])),
            ]) }),
            (3, Named { name: "Y".to_string(), value: VariantFormat::Unit }),
        ])),
    ];
    let table = build_helper_table(&registry);
    let got = names(&table);
    assert_eq!(
        got,
        vec![
            "array3_u8_array".to_string(),
            "map_u8_to_u8".to_string(),
            "option_u8".to_string(),
            "tuple1_u8".to_string(),
            "vector_u8".to_string(),
        ]
    );
    let mut sorted = got.clone();
    sorted.sort();
    sorted.dedup();
    assert_eq!(got, sorted);
}

#[test]
fn the_first_shape_met_under_a_signature_is_kept() {
    let registry = vec![(
        "A".to_string(),
        ContainerFormat::TupleStruct(vec![
            Format::Option(boxed(Format::TypeName("u8".to_string()))),
            Format::Option(boxed(Format::U8)),
        ]),
    )];
    assert_eq!(
        build_helper_table(&registry),
        vec![Helper {
            name: "option_u8".to_string(),
            format: Format::Option(boxed(Format::TypeName("u8".to_string()))),
        }]
    );
}

#[test]
fn helper_of_an_optional_value() {
    let text = emit(|e| {
        e.output_serialization_helper("option_u64", &Format::Option(boxed(Format::U64)));
        e.output_deserialization_helper("option_u64", &Format::Option(boxed(Format::U64)));
    });
    let expected = [
        "static void serialize_option_u64(Optional<int> value, BinarySerializer serializer) {",
        "  if (value.isPresent) {",
        "      serializer.serialize_option_tag(true);",
        "      serializer.serialize_u64(value.value);",
        "  } else {",
        "      serializer.serialize_option_tag(false);",
        "  }",
        "}",
        "",
        "static Optional<int> deserialize_option_u64(BinaryDeserializer deserializer) {",
        "  bool tag = deserializer.deserialize_option_tag();",
        "  if (!tag) {",
        "      return Optional.empty();",
        "  } else {",
        "      return Optional.of(deserializer.deserialize_u64());",
        "  }",
        "}",
        "",
        "",
    ]
    .join("\n");
    assert_eq!(text, expected);
}

#[test]
fn helper_of_a_sequence() {
    let format = Format::Sequence(boxed(Format::TypeName("Point".to_string())));
    let text = emit(|e| {
        e.output_serialization_helper("vector_Point", &format);
        e.output_deserialization_helper("vector_Point", &format);
    });
    let expected = [
        "static void serialize_vector_Point(List<Point> value, BinarySerializer serializer) {",
        "  serializer.serialize_len(value.length);",
        "  for (Point item in value) {",
        "      item.serialize(serializer);",
        "  }",
        "}",
        "",
        "static List<Point> deserialize_vector_Point(BinaryDeserializer deserializer) {",
        "  int length = deserializer.deserialize_len();",
        "  List<Point> obj = new List<Point>(length);",
        "  for (int i = 0; i < length; i++) {",
        "      obj[i]=Point.deserialize(deserializer);",
        "  }",
        "  return obj;",
        "}",
        "",
        "",
    ]
    .join("\n");
    assert_eq!(text, expected);
}

#[test]
fn helper_of_a_map_writes_keys_in_order_and_checks_them_when_reading() {
    let format = Format::Mapping { key: boxed(Format::Str), value: boxed(Format::U8) };
    let text = emit(|e| {
        e.output_serialization_helper("map_str_to_u8", &format);
        e.output_deserialization_helper("map_str_to_u8", &format);
    });
    let expected = [
        "static void serialize_map_str_to_u8(Map<String, int> value, BinarySerializer serializer) {",
        "  serializer.serialize_len(value.length);",
        "  List<int> offsets = new List<int>();",
        "  int count = 0;",
        "  for (Map.Entry<String, int> entry : value.entrySet()) {",
        "      offsets[count++] = serializer.get_buffer_offset();",
        "      serializer.serialize_str(entry.getKey());",
        "      serializer.serialize_u8(entry.getValue());",
        "  }",
        "  serializer.sort_map_entries(offsets);",
        "}",
        "",
        "static Map<String, int> deserialize_map_str_to_u8(BinaryDeserializer deserializer) {",
        "  int length = deserializer.deserialize_len();",
        "  Map<String, int> obj = new HashMap<String, int>();",
        "  int previous_key_start = 0;",
        "  int previous_key_end = 0;",
        "  for (int i = 0; i < length; i++) {",
        "      int key_start = deserializer.get_buffer_offset();",
        "      String key = deserializer.deserialize_str();",
        "      int key_end = deserializer.get_buffer_offset();",
        "      if (i > 0) {",
        "          deserializer.check_that_key_slices_are_increasing(",
        "              new Slice(previous_key_start, previous_key_end),",
        "              new Slice(key_start, key_end));",
        "      }",
        "      previous_key_start = key_start;",
        "      previous_key_end = key_end;",
        "      int value = deserializer.deserialize_u8();",
        "      obj.put(key, value);",
        "  }",
        "  return obj;",
        "}",
        "",
        "",
    ]
    .join("\n");
    assert_eq!(text, expected);
}

#[test]
fn helper_of_a_tuple_counts_its_parts_from_one() {
    let format = Format::Tuple(vec![Format::U8, Format::Option(boxed(Format::Str)), Format::Bool]);
    let text = emit(|e| {
        e.output_serialization_helper("tuple3_u8_option_str_bool", &format);
        e.output_deserialization_helper("tuple3_u8_option_str_bool", &format);
    });
    let expected = [
        "static void serialize_tuple3_u8_option_str_bool(Tuple3<int, Optional<String>, bool> value, BinarySerializer serializer) {",
        "  serializer.serialize_u8(value.item1);",
        "  TraitHelpers.serialize_option_str(value.item2, serializer);",
        "  serializer.serialize_bool(value.item3);",
        "}",
        "",
        "static Tuple3<int, Optional<String>, bool> deserialize_tuple3_u8_option_str_bool(BinaryDeserializer deserializer) {",
        "  return new Tuple3<int, Optional<String>, bool>(",
        "      deserializer.deserialize_u8(),",
        "      TraitHelpers.deserialize_option_str(deserializer),",
        "      deserializer.deserialize_bool()",
        "  );",
        "}",
        "",
        "",
    ]
    .join("\n");
    assert_eq!(text, expected);
}

#[test]
fn helper_of_an_empty_tuple() {
    let format = Format::Tuple(vec![]);
    let text = emit(|e| {
        e.output_serialization_helper("tuple0_", &format);
        e.output_deserialization_helper("tuple0_", &format);
    });
    let expected = [
        "static void serialize_tuple0_(Tuple0<> value, BinarySerializer serializer) {",
        "}",
        "",
        "static Tuple0<> deserialize_tuple0_(BinaryDeserializer deserializer) {",
        "  return new Tuple0<>(",
        "  );",
        "}",
        "",
        "",
    ]
    .join("\n");
    assert_eq!(text, expected);
}

#[test]
fn helper_of_a_fixed_size_array_checks_the_length_and_reads_that_many() {
    let format = Format::TupleArray { content: boxed(Format::U8), size: 32 };
    let text = emit(|e| {
        e.output_serialization_helper("array32_u8_array", &format);
        e.output_deserialization_helper("array32_u8_array", &format);
    });
    let expected = [
        "static void serialize_array32_u8_array(List<int> value, BinarySerializer serializer) {",
        "  assert (value.length == 32);",
        "  for (int item in value) {",
        "      serializer.serialize_u8(item);",
        "  }",
        "}",
        "",
        "static List<int> deserialize_array32_u8_array(BinaryDeserializer deserializer) {",
        "  List<int> obj = new List<int>.filled(32, 0);",
        "  for (int i = 0; i < 32; i++) {",
        "      obj[i] = deserializer.deserialize_u8();",
        "  }",
        "  return obj;",
        "}",
        "",
        "",
    ]
    .join("\n");
    assert_eq!(text, expected);
}

#[test]
fn class_of_helpers_for_a_registry() {
    let registry = vec![(
        "A".to_string(),
        ContainerFormat::Struct(vec![field("x", Format::Option(boxed(Format::Bool)))]),
    )];
    let text = emit(|e| e.output_trait_helpers(&registry));
    let expected = [
        "class TraitHelpers {",
        "  static void serialize_option_bool(Optional<bool> value, BinarySerializer serializer) {",
        "    if (value.isPresent) {",
        "        serializer.serialize_option_tag(true);",
        "        serializer.serialize_bool(value.value);",
        "    } else {",
        "        serializer.serialize_option_tag(false);",
        "    }",
        "  }",
        "",
        "  static Optional<bool> deserialize_option_bool(BinaryDeserializer deserializer) {",
        "    bool tag = deserializer.deserialize_option_tag();",
        "    if (!tag) {",
        "        return Optional.empty();",
        "    } else {",
        "        return Optional.of(deserializer.deserialize_bool());",
        "    }",
        "  }",
        "",
        "}",
        "",
        "",
    ]
    .join("\n");
    assert_eq!(text, expected);
}

#[test]
fn class_of_helpers_for_a_registry_without_composite_shapes() {
    let registry = vec![("A".to_string(), ContainerFormat::UnitStruct)];
    let text = emit(|e| e.output_trait_helpers(&registry));
    assert_eq!(text, "class TraitHelpers {\n}\n\n");
}

#[test]
fn recording_a_shape_twice_changes_nothing() {
    let mut table = HelperTable::new();
    assert_eq!(table.len(), 0);
    table.record(&Format::Option(boxed(Format::U32)));
    let once = table.entries().clone();
    table.record(&Format::Option(boxed(Format::U32)));
    assert_eq!(table.entries(), &once);
    assert_eq!(table.len(), 1);
    table.record(&Format::U32);
    table.record(&Format::TypeName("option_u32".to_string()));
    assert_eq!(table.entries(), &once);
}

#[test]
fn recording_keeps_the_order_of_the_signatures_whatever_the_order_of_arrival() {
    let shapes = vec![
        Format::Sequence(boxed(Format::U8)),
        Format::Option(boxed(Format::U8)),
        Format::TupleArray { content: boxed(Format::U8), size: 3 },
        Format::Tuple(vec![Format::U8]),
        Format::Mapping { key: boxed(Format::U8), value: boxed(Format::U8) },
    ];
    let mut forward = HelperTable::new();
    for shape in &shapes {
        forward.record(shape);
    }
    let mut backward = HelperTable::new();
    for shape in shapes.iter().rev() {
        backward.record(shape);
    }
    assert_eq!(forward.entries(), backward.entries());
    assert_eq!(
        names(forward.entries()),
        vec![
            "array3_u8_array".to_string(),
            "map_u8_to_u8".to_string(),
            "option_u8".to_string(),
            "tuple1_u8".to_string(),
            "vector_u8".to_string(),
        ]
    );
}

#[test]
fn record_takes_the_shape_alone_and_collect_its_parts_too() {
    let nested = Format::Option(boxed(Format::Sequence(boxed(Format::U8))));
    let mut recorded = HelperTable::new();
    recorded.record(&nested);
    assert_eq!(names(recorded.entries()), vec!["option_vector_u8".to_string()]);
    let mut collected = HelperTable::new();
    collected.collect(&nested);
    assert_eq!(
        names(collected.entries()),
        vec!["option_vector_u8".to_string(), "vector_u8".to_string()]
    );
}

#[test]
fn entries_are_found_by_signature() {
    let mut table = HelperTable::new();
    table.collect(&Format::Mapping {
        key: boxed(Format::Option(boxed(Format::Str))),
        value: boxed(Format::Sequence(boxed(Format::U8))),
    });
    assert_eq!(
        table.find("option_str"),
        Some(&Helper { name: "option_str".to_string(), format: Format::Option(boxed(Format::Str)) })
    );
    assert_eq!(table.find("vector_u8").map(|h| h.name.as_str()), Some("vector_u8"));
    assert_eq!(table.find("map_option_str_to_vector_u8").map(|h| h.format.needs_helper()), Some(true));
    assert_eq!(table.find("option_u8"), None);
    assert_eq!(table.find(""), None);
    assert_eq!(table.find("zzz"), None);
    assert_eq!(table.position_of(""), 0);
    assert_eq!(table.position_of("map_option_str_to_vector_u8"), 0);
    assert_eq!(table.position_of("n"), 1);
    assert_eq!(table.position_of("option_str"), 1);
    assert_eq!(table.position_of("vector_u8"), 2);
    assert_eq!(table.position_of("zzz"), 3);
}

#[test]
fn walks_of_containers_and_variants() {
    let mut table = HelperTable::new();
    table.collect_container(&ContainerFormat::UnitStruct);
    table.collect_variant(&VariantFormat::Unit);
    assert_eq!(table.len(), 0);
    table.collect_variant(&VariantFormat::Struct(vec![field("x", Format::Tuple(vec![]))]));
    table.collect_fields(&vec![field("y", Format::Option(boxed(Format::Bool)))]);
    table.collect_formats(&vec![Format::U8, Format::Sequence(boxed(Format::Bool))]);
    table.collect_variants(&vec![(
        0,
        Named { name: "V".to_string(), value: VariantFormat::NewType(boxed(Format::Tuple(vec![]))) },
    )]);
    assert_eq!(
        names(table.entries()),
        vec!["option_bool".to_string(), "tuple0_".to_string(), "vector_bool".to_string()]
    );
}

#[test]
fn helpers_are_emitted_from_a_table() {
    let registry = vec![(
        "A".to_string(),
        ContainerFormat::Struct(vec![field("x", Format::Option(boxed(Format::Bool)))]),
    )];
    let table = HelperTable::build(&registry);
    let from_table = emit(|e| e.output_helpers(&table));
    let from_registry = emit(|e| e.output_trait_helpers(&registry));
    assert_eq!(from_table, from_registry);
    let none = emit(|e| e.output_helpers(&HelperTable::new()));
    assert_eq!(none, "class TraitHelpers {\n}\n\n");
}
