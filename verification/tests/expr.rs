use serde_generate_dart::config::CodeGeneratorConfig;
use serde_generate_dart::emitter::DartEmitter;
use serde_generate_dart::format::{Format, Named};
use serde_generate_dart::generator::CodeGenerator;

fn boxed(f: Format) -> Box<Format> {
    Box::new(f)
}

fn field(name: &str, value: Format) -> Named<Format> {
    Named { name: name.to_string(), value }
}

fn serialize(value: &str, format: &Format) -> String {
    let config = CodeGeneratorConfig::new("example".to_string());
    let generator = CodeGenerator::new(&config);
    DartEmitter::new(&generator, vec![]).quote_serialize_value(value, format)
}

fn deserialize(format: &Format) -> String {
    let config = CodeGeneratorConfig::new("example".to_string());
    let generator = CodeGenerator::new(&config);
    DartEmitter::new(&generator, vec![]).quote_deserialize(format)
}

fn to_json(f: &Named<Format>) -> String {
    let config = CodeGeneratorConfig::new("example".to_string());
    let generator = CodeGenerator::new(&config);
    DartEmitter::new(&generator, vec![]).to_json(f)
}

fn from_json(f: &Named<Format>) -> String {
    let config = CodeGeneratorConfig::new("example".to_string());
    let generator = CodeGenerator::new(&config);
    DartEmitter::new(&generator, vec![]).from_json(f)
}

fn primitives() -> Vec<(Format, &'static str)> {
    vec![
        (Format::Unit, "unit"),
        (Format::Bool, "bool"),
        (Format::I8, "i8"),
        (Format::I16, "i16"),
        (Format::I32, "i32"),
        (Format::I64, "i64"),
        (Format::I128, "i128"),
        (Format::U8, "u8"),
        (Format::U16, "u16"),
        (Format::U32, "u32"),
        (Format::U64, "u64"),
        (Format::U128, "u128"),
        (Format::F32, "f32"),
        (Format::F64, "f64"),
        (Format::Char, "char"),
        (Format::Str, "str"),
        (Format::Bytes, "bytes"),
    ]
}

#[test]
fn each_primitive_kind_has_one_writer() {
    for (format, name) in primitives() {
        assert_eq!(serialize("x", &format), format!("serializer.serialize_{}(x);", name));
    }
}

#[test]
fn each_primitive_kind_has_one_reader() {
    for (format, name) in primitives() {
        assert_eq!(deserialize(&format), format!("deserializer.deserialize_{}()", name));
    }
}

#[test]
fn a_reference_is_written_and_read_by_its_class() {
    let format = Format::TypeName("Account".to_string());
    assert_eq!(serialize("owner", &format), "owner.serialize(serializer);");
    assert_eq!(deserialize(&format), "Account.deserialize(deserializer)");
}

#[test]
fn composite_shapes_are_written_and_read_by_helpers() {
    let option = Format::Option(boxed(Format::U64));
    assert_eq!(
        serialize("value.value", &option),
        "TraitHelpers.serialize_option_u64(value.value, serializer);"
    );
    assert_eq!(deserialize(&option), "TraitHelpers.deserialize_option_u64(deserializer)");
    let nested = Format::Sequence(boxed(Format::Mapping {
        key: boxed(Format::Str),
        value: boxed(Format::Tuple(vec![Format::U8, Format::U8])),
    }));
    assert_eq!(
        serialize("item", &nested),
        "TraitHelpers.serialize_vector_map_str_to_tuple2_u8_u8(item, serializer);"
    );
    assert_eq!(
        deserialize(&nested),
        "TraitHelpers.deserialize_vector_map_str_to_tuple2_u8_u8(deserializer)"
    );
    let array = Format::TupleArray { content: boxed(Format::U8), size: 16 };
    assert_eq!(serialize("a", &array), "TraitHelpers.serialize_array16_u8_array(a, serializer);");
    assert_eq!(deserialize(&array), "TraitHelpers.deserialize_array16_u8_array(deserializer)");
}

#[test]
fn two_occurrences_of_one_shape_call_one_helper() {
    let a = Format::Option(boxed(Format::U32));
    let b = Format::Option(boxed(Format::U32));
    assert_eq!(serialize("v", &a), serialize("v", &b));
    assert_eq!(deserialize(&a), deserialize(&b));
    let other = Format::Option(boxed(Format::Str));
    assert_ne!(deserialize(&a), deserialize(&other));
}

#[test]
fn json_entry_of_each_kind_of_field() {
    assert_eq!(to_json(&field("n", Format::U8)), "\"n\" : n ");
    assert_eq!(to_json(&field("s", Format::Str)), "\"s\" : s ");
    assert_eq!(to_json(&field("c", Format::Char)), "\"c\" : c ");
    assert_eq!(to_json(&field("u", Format::Unit)), "\"u\" : u ");
    assert_eq!(to_json(&field("b", Format::Bytes)), "\"b\" : b.toJson() ");
    assert_eq!(to_json(&field("t", Format::TypeName("T".to_string()))), "\"t\" : t.toJson() ");
    assert_eq!(
        to_json(&field("m", Format::Mapping { key: boxed(Format::U8), value: boxed(Format::U8) })),
        "\"m\" : m.toJson() "
    );
    assert_eq!(
        to_json(&field("o", Format::Option(boxed(Format::U8)))),
        "\"o\" : o.isEmpty?null:o.value "
    );
    assert_eq!(
        to_json(&field("l", Format::Sequence(boxed(Format::TypeName("T".to_string()))))),
        "'l' : l.map((f) => f.toJson()).toList()"
    );
    assert_eq!(to_json(&field("l", Format::Sequence(boxed(Format::U8)))), "'l' : l");
    assert_eq!(to_json(&field("p", Format::Tuple(vec![Format::U8]))), "\"p\" : p ");
    assert_eq!(
        to_json(&field("a", Format::TupleArray { content: boxed(Format::U8), size: 2 })),
        "\"a\" : a "
    );
}

#[test]
fn json_initializer_of_each_kind_of_field() {
    assert_eq!(from_json(&field("n", Format::U8)), "n = json['n']");
    assert_eq!(from_json(&field("s", Format::Str)), "s = json['s']");
    assert_eq!(from_json(&field("f", Format::F32)), "f = json['f']");
    assert_eq!(from_json(&field("b", Format::Bytes)), "b = Bytes.fromJson(json['b'])");
    assert_eq!(
        from_json(&field("m", Format::Mapping { key: boxed(Format::Str), value: boxed(Format::U8) })),
        "m = Map<String, int>.from(json['m'])"
    );
    assert_eq!(
        from_json(&field("t", Format::TypeName("Thing".to_string()))),
        "t = Thing.fromJson(json['t'])"
    );
    assert_eq!(
        from_json(&field("o", Format::Option(boxed(Format::U8)))),
        "o = Optional<int>.ofNullable(json['o'])"
    );
    assert_eq!(
        from_json(&field("l", Format::Sequence(boxed(Format::TypeName("T".to_string()))))),
        "l = List<T>.from(json['l'].map((f) => T.fromJson(f)).toList())"
    );
    assert_eq!(from_json(&field("l", Format::Sequence(boxed(Format::U8)))), "l = json['l']");
    assert_eq!(from_json(&field("p", Format::Tuple(vec![Format::U8]))), "p = json['p']");
    assert_eq!(
        from_json(&field(
            "a",
            Format::TupleArray { content: boxed(Format::Option(boxed(Format::Str))), size: 2 }
        )),
        "a = List<Optional<String>>.from(json['a'])"
    );
}

#[test]
fn every_json_initializer_reads_the_entry_of_the_field() {
    let kinds = vec![
        Format::Unit,
        Format::Bool,
        Format::I64,
        Format::U128,
        Format::F64,
        Format::Char,
        Format::Str,
        Format::Bytes,
        Format::TypeName("T".to_string()),
        Format::Option(boxed(Format::Str)),
        Format::Sequence(boxed(Format::U8)),
        Format::Sequence(boxed(Format::TypeName("T".to_string()))),
        Format::Mapping { key: boxed(Format::U8), value: boxed(Format::Bool) },
        Format::Tuple(vec![Format::U8, Format::Str]),
        Format::Tuple(vec![]),
        Format::TupleArray { content: boxed(Format::U8), size: 4 },
    ];
    for kind in kinds {
        let text = from_json(&field("x", kind));
        assert!(text.starts_with("x = "));
        assert!(text.contains("json['x']"));
        assert_ne!(text, "x = x");
    }
}

#[test]
fn composite_fields_are_decoded_to_their_own_type() {
    let nested = Format::Option(boxed(Format::Mapping {
        key: boxed(Format::Str),
        value: boxed(Format::Sequence(boxed(Format::TypeName("T".to_string())))),
    }));
    assert_eq!(
        from_json(&field("n", nested)),
        "n = Optional<Map<String, List<T>>>.ofNullable(json['n'])"
    );
    assert_eq!(
        from_json(&field(
            "m",
            Format::Mapping { key: boxed(Format::U64), value: boxed(Format::Option(boxed(Format::Bytes))) }
        )),
        "m = Map<int, Optional<Bytes>>.from(json['m'])"
    );
}

#[test]
fn helpers_are_called_in_their_class_whatever_is_declared_externally() {
    let config = CodeGeneratorConfig::new("example".to_string()).with_external_definitions(vec![(
        "ns".to_string(),
        vec!["TraitHelpers".to_string(), "Foreign".to_string()],
    )]);
    let generator = CodeGenerator::new(&config);
    let emitter = DartEmitter::new(&generator, vec![]);
    let shape = Format::Option(boxed(Format::U32));
    assert_eq!(
        emitter.quote_serialize_value("x", &shape),
        "TraitHelpers.serialize_option_u32(x, serializer);"
    );
    assert_eq!(emitter.quote_deserialize(&shape), "TraitHelpers.deserialize_option_u32(deserializer)");
    assert_eq!(
        emitter.quote_deserialize(&Format::TypeName("Foreign".to_string())),
        "ns.Foreign.deserialize(deserializer)"
    );
}
