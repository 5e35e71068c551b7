use serde_generate_dart::config::{CodeGeneratorConfig, Encoding};
use serde_generate_dart::container::{EncodingPart, FieldPart};
use serde_generate_dart::emitter::DartEmitter;
use serde_generate_dart::format::{ContainerFormat, Format, Named};
use serde_generate_dart::generator::CodeGenerator;

fn boxed(f: Format) -> Box<Format> {
    Box::new(f)
}

fn field(name: &str, value: Format) -> Named<Format> {
    Named { name: name.to_string(), value }
}

fn emit_with(config: &CodeGeneratorConfig, f: impl FnOnce(&mut DartEmitter)) -> String {
    let generator = CodeGenerator::new(config);
    let mut emitter = DartEmitter::new(&generator, vec![]);
    f(&mut emitter);
    emitter.into_text()
}

fn emit(f: impl FnOnce(&mut DartEmitter)) -> String {
    emit_with(&CodeGeneratorConfig::new("example".to_string()), f)
}

fn point() -> Vec<Named<Format>> {
    vec![field("a", Format::U8), field("b", Format::Str)]
}

#[test]
fn preamble_names_the_library() {
    assert_eq!(emit(|e| e.output_preamble()), "part of example_types;\n");
}

#[test]
fn a_name_of_the_registry_stands_for_itself() {
    let config = CodeGeneratorConfig::new("example".to_string());
    let generator = CodeGenerator::new(&config);
    let emitter = DartEmitter::new(&generator, vec!["example".to_string()]);
    assert_eq!(emitter.quote_qualified_name("TraitHelpers"), "TraitHelpers");
    assert_eq!(emitter.quote_qualified_name("Point"), "Point");
    assert_eq!(emitter.quote_qualified_name(""), "");
}

#[test]
fn a_name_declared_externally_is_qualified_by_its_namespace() {
    let config = CodeGeneratorConfig::new("example".to_string()).with_external_definitions(vec![
        ("first".to_string(), vec!["Shared".to_string(), "Foreign".to_string()]),
        ("second".to_string(), vec!["Other".to_string(), "Shared".to_string()]),
        ("empty".to_string(), vec![]),
    ]);
    assert_eq!(config.qualified_name("Foreign"), "first.Foreign");
    assert_eq!(config.qualified_name("Other"), "second.Other");
    assert_eq!(config.qualified_name("Shared"), "second.Shared");
    assert_eq!(config.qualified_name("Local"), "Local");
    assert_eq!(config.qualified_name("first"), "first");
    let generator = CodeGenerator::new(&config);
    let emitter = DartEmitter::new(&generator, vec![]);
    assert_eq!(emitter.quote_qualified_name("Foreign"), "first.Foreign");
    assert_eq!(emitter.quote_qualified_name("Local"), "Local");
    let foreign = Format::Option(boxed(Format::TypeName("Foreign".to_string())));
    assert_eq!(emitter.quote_type(&foreign), Ok("Optional<first.Foreign>".to_string()));
    assert_eq!(
        emitter.quote_deserialize(&Format::TypeName("Other".to_string())),
        "second.Other.deserialize(deserializer)"
    );
    assert_eq!(
        emitter.quote_serialize_value("x", &Format::TypeName("Other".to_string())),
        "x.serialize(serializer);"
    );
    assert_eq!(
        emitter.quote_serialize_value("x", &foreign),
        "TraitHelpers.serialize_option_Foreign(x, serializer);"
    );
    let text = emit_with(&config, |e| {
        e.output_container(
            "Holder",
            &ContainerFormat::Struct(vec![field("f", Format::TypeName("Foreign".to_string()))]),
        )
    });
    assert!(text.contains("class Holder {\n  first.Foreign f;\n\n  Holder(first.Foreign f) {\n"));
    assert!(text.contains("    var f = first.Foreign.deserialize(deserializer);\n"));
    assert!(text.contains("    f = Foreign.fromJson(json['f']) ;\n"));
}

#[test]
fn entering_and_leaving_a_class_changes_the_indentation() {
    let text = emit(|e| {
        e.write("a\n");
        e.enter_class("A");
        e.write("b\n");
        e.enter_class("B");
        e.write("c\n");
        e.leave_class();
        e.write("d\n");
        e.leave_class();
        e.leave_class();
        e.write("e\n");
    });
    assert_eq!(text, "a\n  b\n    c\n  d\ne\n");
}

#[test]
fn write_number_writes_decimal() {
    assert_eq!(emit(|e| { e.write("n="); e.write_number(1234567890123); }), "n=1234567890123");
}

#[test]
fn each_part_of_a_field() {
    let fields = point();
    let part = |i: usize, p: FieldPart| emit(|e| { e.write("|"); e.output_field_part(&fields, i, p) });
    assert_eq!(part(0, FieldPart::Declaration), "|int a;\n");
    assert_eq!(part(0, FieldPart::Parameter), "|int a");
    assert_eq!(part(1, FieldPart::Parameter), "|, String b");
    assert_eq!(part(1, FieldPart::NullCheck), "|assert (b != null);\n");
    assert_eq!(part(1, FieldPart::Assignment), "|this.b = b;\n");
    assert_eq!(part(0, FieldPart::Serialize), "|serializer.serialize_u8(a);\n");
    assert_eq!(part(1, FieldPart::Deserialize), "|var b = deserializer.deserialize_str();\n");
    assert_eq!(part(0, FieldPart::Argument), "|a");
    assert_eq!(part(1, FieldPart::Argument), "|,b");
    assert_eq!(part(0, FieldPart::Equality), "|  this.a == other.a  &&\n");
    assert_eq!(part(1, FieldPart::Equality), "|  this.b == other.b  ){\n");
    assert_eq!(part(0, FieldPart::Hash), "|value = 31 * value + (this.a != null ? this.a.hashCode : 0);\n");
    assert_eq!(part(0, FieldPart::FromJson), "|a = json['a'] ,\n");
    assert_eq!(part(1, FieldPart::FromJson), "|b = json['b'] ;\n");
    assert_eq!(part(1, FieldPart::ToJson), "|\"b\" : b ,\n");
}

#[test]
fn lists_are_compared_element_by_element() {
    let fields = vec![
        field("xs", Format::Sequence(boxed(Format::U8))),
        field("ys", Format::TupleArray { content: boxed(Format::U8), size: 2 }),
        field("o", Format::Option(boxed(Format::U8))),
    ];
    let text = emit(|e| e.output_fields(&fields, FieldPart::Equality));
    assert_eq!(
        text,
        "  isListsEqual(this.xs , other.xs)  &&\n  isListsEqual(this.ys , other.ys)  &&\n  this.o == other.o  ){\n"
    );
}

#[test]
fn fields_are_written_and_read_in_the_order_of_declaration() {
    let fields = point();
    let written = emit(|e| e.output_fields(&fields, FieldPart::Serialize));
    let read = emit(|e| e.output_fields(&fields, FieldPart::Deserialize));
    assert_eq!(written, "serializer.serialize_u8(a);\nserializer.serialize_str(b);\n");
    assert_eq!(
        read,
        "var a = deserializer.deserialize_u8();\nvar b = deserializer.deserialize_str();\n"
    );
    let swapped = vec![field("b", Format::Str), field("a", Format::U8)];
    let written_swapped = emit(|e| e.output_fields(&swapped, FieldPart::Serialize));
    assert_eq!(written_swapped, "serializer.serialize_str(b);\nserializer.serialize_u8(a);\n");
    assert_ne!(written, written_swapped);
}

#[test]
fn encode_to_bytes_for_one_encoding() {
    let text = emit(|e| e.output_class_serialize_for_encoding(Encoding::Bincode));
    let expected = [
        "",
        "Uint8List bincodeSerialize() {",
        "    var serializer = new BincodeSerializer();",
        "    serialize(serializer);",
        "    return serializer.get_bytes();",
        "}",
        "",
    ]
    .join("\n");
    assert_eq!(text, expected);
    let named = emit(|e| e.output_class_serialize_named("bincode", "Bincode"));
    assert_eq!(named, expected);
}

#[test]
fn decode_from_bytes_fails_on_trailing_bytes() {
    let text = emit(|e| e.output_class_deserialize_for_encoding("Point", Encoding::Bcs));
    let expected = [
        "",
        "static Point bcsDeserialize(Uint8List input)  {",
        "   var deserializer = new BcsDeserializer(input);",
        "    Point value = deserialize(deserializer);",
        "    if (deserializer.get_buffer_offset() < input.length) {",
        "         throw new Exception(\"Some input bytes were not read\");",
        "    }",
        "    return value;",
        "}",
        "",
    ]
    .join("\n");
    assert_eq!(text, expected);
    let named = emit(|e| e.output_class_deserialize_named("Point", "bcs", "Bcs"));
    assert_eq!(named, expected);
}

#[test]
fn the_prefix_of_the_runtime_classes_is_the_capitalized_name() {
    let text = emit(|e| e.output_class_serialize_for_encoding(Encoding::Bcs));
    assert!(text.contains("new BcsSerializer();"));
    assert!(!text.contains("new bcsSerializer();"));
    assert!(text.contains("Uint8List bcsSerialize()"));
}

#[test]
fn operations_of_every_active_encoding() {
    let config = CodeGeneratorConfig::new("example".to_string())
        .with_encodings(vec![Encoding::Bcs, Encoding::Bincode]);
    let serialize = emit_with(&config, |e| e.output_encodings("P", EncodingPart::Serialize));
    let both = emit_with(&config, |e| e.output_encodings("P", EncodingPart::Both));
    let positions = |text: &str, patterns: &[&str]| -> Vec<usize> {
        patterns.iter().map(|p| text.find(p).unwrap()).collect()
    };
    let p = positions(&serialize, &["bincodeSerialize", "bcsSerialize"]);
    assert!(p[0] < p[1]);
    assert!(!serialize.contains("Deserialize"));
    let p = positions(
        &both,
        &["bincodeSerialize", "bincodeDeserialize", "bcsSerialize", "bcsDeserialize"],
    );
    assert!(p[0] < p[1] && p[1] < p[2] && p[2] < p[3]);
    let none = emit(|e| e.output_encodings("P", EncodingPart::Both));
    assert_eq!(none, "");
}

fn point_class() -> String {
    [
        "",
        "class Point {",
        "  int a;",
        "  String b;",
        "",
        "  Point(int a, String b) {",
        "    assert (a != null);",
        "    assert (b != null);",
        "    this.a = a;",
        "    this.b = b;",
        "  }",
        "",
        "  void serialize(BinarySerializer serializer){",
        "    serializer.serialize_u8(a);",
        "    serializer.serialize_str(b);",
        "  }",
        "",
        "  Uint8List bcsSerialize() {",
        "      var serializer = new BcsSerializer();",
        "      serialize(serializer);",
        "      return serializer.get_bytes();",
        "  }",
        "",
        "  static Point deserialize(BinaryDeserializer deserializer){",
        "    var a = deserializer.deserialize_u8();",
        "    var b = deserializer.deserialize_str();",
        "    return new Point(a,b);",
        "  }",
        "",
        "  static Point bcsDeserialize(Uint8List input)  {",
        "     var deserializer = new BcsDeserializer(input);",
        "      Point value = deserialize(deserializer);",
        "      if (deserializer.get_buffer_offset() < input.length) {",
        "           throw new Exception(\"Some input bytes were not read\");",
        "      }",
        "      return value;",
        "  }",
        "",
        "  @override",
        "  bool operator ==(covariant Point other) {",
        "    if (other == null) return false;",
        "",
        "    if (  this.a == other.a  &&",
        "      this.b == other.b  ){",
        "    return true;}",
        "    else return false;",
        "  }",
        "",
        "  @override",
        "  int get hashCode {",
        "    int value = 7;",
        "    value = 31 * value + (this.a != null ? this.a.hashCode : 0);",
        "    value = 31 * value + (this.b != null ? this.b.hashCode : 0);",
        "    return value;",
        "  }",
        "",
        "  Point.fromJson(dynamic json) :",
        "    a = json['a'] ,",
        "    b = json['b'] ;",
        "",
        "  dynamic toJson() => {",
        "    \"a\" : a ,",
        "    \"b\" : b ,",
        "  };",
        "}",
        "",
    ]
    .join("\n")
}

#[test]
fn class_of_a_struct() {
    let config = CodeGeneratorConfig::new("example".to_string()).with_encodings(vec![Encoding::Bcs]);
    let text = emit_with(&config, |e| {
        e.output_container("Point", &ContainerFormat::Struct(point()))
    });
    assert_eq!(text, point_class());
}

#[test]
fn class_of_a_struct_from_its_fields() {
    let config = CodeGeneratorConfig::new("example".to_string()).with_encodings(vec![Encoding::Bcs]);
    let text = emit_with(&config, |e| {
        e.output_struct_or_variant_container(None, None, "Point", &point(), false, "Point")
    });
    assert_eq!(text, point_class());
}

#[test]
fn class_of_a_struct_is_made_of_its_sections() {
    let config = CodeGeneratorConfig::new("example".to_string()).with_encodings(vec![Encoding::Bcs]);
    let fields = point();
    let text = emit_with(&config, |e| {
        e.output_class_opening(None, "Point", &fields);
        e.output_constructor("Point", &fields);
        e.output_serialize_method(None, "Point", &fields);
        e.output_deserialize_method(None, "Point", &fields);
        e.output_equality_operator("Point", &fields);
        e.output_hash_code(&fields);
        e.output_json_decoding(None, "Point", &fields, false);
        e.output_json_encoding(None, &fields, false, "Point");
        e.unindent();
        e.leave_class();
        e.write("}\n");
    });
    assert_eq!(text, point_class());
}

#[test]
fn class_without_serialization_code() {
    let config = CodeGeneratorConfig::new("example".to_string())
        .with_encodings(vec![Encoding::Bcs])
        .with_serialization(false);
    let text = emit_with(&config, |e| {
        e.output_container("Point", &ContainerFormat::Struct(point()))
    });
    assert!(!text.contains("serialize"));
    assert!(!text.contains("Serializer"));
    assert!(text.contains("class Point {\n  int a;\n  String b;\n"));
    assert!(text.contains("  Point.fromJson(dynamic json) :\n"));
    assert!(text.contains("  int get hashCode {\n"));
}

#[test]
fn class_of_a_unit_struct() {
    let text = emit(|e| e.output_container("Nothing", &ContainerFormat::UnitStruct));
    let expected = [
        "",
        "class Nothing {",
        "  Nothing() {",
        "  }",
        "",
        "  void serialize(BinarySerializer serializer){",
        "  }",
        "",
        "  static Nothing deserialize(BinaryDeserializer deserializer){",
        "    return new Nothing();",
        "  }",
        "",
        "  @override",
        "  bool operator ==(covariant Nothing other) {",
        "    if (other == null) return false;",
        "    return true;",
        "  }",
        "",
        "  @override",
        "  int get hashCode {",
        "    int value = 7;",
        "    return value;",
        "  }",
        "",
        "  Nothing.fromJson(dynamic json);",
        "",
        "  dynamic toJson() => {",
        "  };",
        "}",
        "",
    ]
    .join("\n");
    assert_eq!(text, expected);
}

#[test]
fn class_that_wraps_one_value_is_transparent_in_json() {
    let text = emit(|e| {
        e.output_container(
            "Wrapper",
            &ContainerFormat::NewTypeStruct(boxed(Format::Option(boxed(Format::U32)))),
        )
    });
    let expected = [
        "",
        "class Wrapper {",
        "  Optional<int> value;",
        "",
        "  Wrapper(Optional<int> value) {",
        "    assert (value != null);",
        "    this.value = value;",
        "  }",
        "",
        "  void serialize(BinarySerializer serializer){",
        "    TraitHelpers.serialize_option_u32(value, serializer);",
        "  }",
        "",
        "  static Wrapper deserialize(BinaryDeserializer deserializer){",
        "    var value = TraitHelpers.deserialize_option_u32(deserializer);",
        "    return new Wrapper(value);",
        "  }",
        "",
        "  @override",
        "  bool operator ==(covariant Wrapper other) {",
        "    if (other == null) return false;",
        "",
        "    if (  this.value == other.value  ){",
        "    return true;}",
        "    else return false;",
        "  }",
        "",
        "  @override",
        "  int get hashCode {",
        "    int value = 7;",
        "    value = 31 * value + (this.value != null ? this.value.hashCode : 0);",
        "    return value;",
        "  }",
        "",
        "  Wrapper.fromJson(dynamic json) :",
        "    value = json ;",
        "",
        "  dynamic toJson() => value;",
        "}",
        "",
    ]
    .join("\n");
    assert_eq!(text, expected);
}

#[test]
fn fields_of_a_tuple_struct_are_named_by_position() {
    let text = emit(|e| {
        e.output_container(
            "Pair",
            &ContainerFormat::TupleStruct(vec![Format::Bool, Format::TypeName("Point".to_string())]),
        )
    });
    assert!(text.contains("class Pair {\n  bool field0;\n  Point field1;\n\n"));
    assert!(text.contains("  Pair(bool field0, Point field1) {\n"));
    assert!(text.contains(
        "    serializer.serialize_bool(field0);\n    field1.serialize(serializer);\n"
    ));
    assert!(text.contains(
        "    var field0 = deserializer.deserialize_bool();\n    var field1 = Point.deserialize(deserializer);\n    return new Pair(field0,field1);\n"
    ));
    assert!(text.contains(
        "  Pair.fromJson(dynamic json) :\n    field0 = json['field0'] ,\n    field1 = Point.fromJson(json['field1']) ;\n"
    ));
    assert!(text.contains(
        "  dynamic toJson() => {\n    \"field0\" : field0 ,\n    \"field1\" : field1.toJson() ,\n  };\n"
    ));
}

#[test]
fn many_unnamed_fields_are_numbered_in_decimal() {
    let formats: Vec<Format> = (0..12).map(|_| Format::U8).collect();
    let text = emit(|e| e.output_container("Wide", &ContainerFormat::TupleStruct(formats)));
    assert!(text.contains("  int field9;\n  int field10;\n  int field11;\n\n"));
}
