use serde_generate_dart::config::{CodeGeneratorConfig, Encoding};
use serde_generate_dart::emitter::DartEmitter;
use serde_generate_dart::format::{ContainerFormat, Format, Named, VariantFormat};
use serde_generate_dart::generator::CodeGenerator;

fn boxed(f: Format) -> Box<Format> {
    Box::new(f)
}

fn named<T>(name: &str, value: T) -> Named<T> {
    Named { name: name.to_string(), value }
}

fn emit_with(config: &CodeGeneratorConfig, f: impl FnOnce(&mut DartEmitter)) -> String {
    let generator = CodeGenerator::new(config);
    let mut emitter = DartEmitter::new(&generator, vec![]);
    f(&mut emitter);
    emitter.into_text()
}

fn emit(f: impl FnOnce(&mut DartEmitter)) -> String {
    emit_with(&CodeGeneratorConfig::new("example".to_string()), f)
}

fn shape() -> Vec<(u32, Named<VariantFormat>)> {
    vec![
        (0, named("Circle", VariantFormat::NewType(boxed(Format::U64)))),
        (
            1,
            named(
                "Rect",
                VariantFormat::Struct(vec![named("w", Format::U32), named("h", Format::Str)]),
            ),
        ),
        (2, named("Empty", VariantFormat::Unit)),
    ]
}

fn circle_class() -> String {
    [
        "",
        "class ShapeCircleItem extends Shape {",
        "  int value;",
        "",
        "  ShapeCircleItem(int value) {",
        "    assert (value != null);",
        "    this.value = value;",
        "  }",
        "",
        "  void serialize(BinarySerializer serializer){",
        "    serializer.serialize_variant_index(0);",
        "    serializer.serialize_u64(value);",
        "  }",
        "",
        "  static ShapeCircleItem load(BinaryDeserializer deserializer){",
        "    var value = deserializer.deserialize_u64();",
        "    return new ShapeCircleItem(value);",
        "  }",
        "",
        "  @override",
        "  bool operator ==(covariant ShapeCircleItem other) {",
        "    if (other == null) return false;",
        "",
        "    if (  this.value == other.value  ){",
        "    return true;}",
        "    else return false;",
        "  }",
        "",
        "  @override",
        "  int get hashCode {",
        "    int value = 7;",
        "    value = 31 * value + (this.value != null ? this.value.hashCode : 0);",
        "    return value;",
        "  }",
        "",
        "  ShapeCircleItem.loadJson(dynamic json) :",
        "    value = json['value'] ;",
        "",
        "  dynamic toJson() => {",
        "    \"value\" : value ,",
        "    \"type\" : 0,",
        "    \"type_name\" : \"Circle\"",
        "  };",
        "}",
        "",
    ]
    .join("\n")
}

fn empty_class() -> String {
    [
        "",
        "class ShapeEmptyItem extends Shape {",
        "  ShapeEmptyItem() {",
        "  }",
        "",
        "  void serialize(BinarySerializer serializer){",
        "    serializer.serialize_variant_index(2);",
        "  }",
        "",
        "  static ShapeEmptyItem load(BinaryDeserializer deserializer){",
        "    return new ShapeEmptyItem();",
        "  }",
        "",
        "  @override",
        "  bool operator ==(covariant ShapeEmptyItem other) {",
        "    if (other == null) return false;",
        "    return true;",
        "  }",
        "",
        "  @override",
        "  int get hashCode {",
        "    int value = 7;",
        "    return value;",
        "  }",
        "",
        "  ShapeEmptyItem.loadJson(dynamic json);",
        "",
        "  dynamic toJson() => {",
        "    \"type\" : 2,",
        "    \"type_name\" : \"Empty\"",
        "  };",
        "}",
        "",
    ]
    .join("\n")
}

fn shape_base() -> String {
    [
        "",
        "abstract class Shape {",
        "  Shape();",
        "",
        "  void serialize(BinarySerializer serializer);",
        "",
        "  static Shape deserialize(BinaryDeserializer deserializer) {",
        "    int index = deserializer.deserialize_variant_index();",
        "    switch (index) {",
        "      case 0: return ShapeCircleItem.load(deserializer);",
        "      case 1: return ShapeRectItem.load(deserializer);",
        "      case 2: return ShapeEmptyItem.load(deserializer);",
        "      default: throw new Exception(\"Unknown variant index for Shape: \" + index.toString());",
        "    }",
        "  }",
        "",
        "  static Shape fromJson(dynamic json){",
        "    final type = json['type'] as int;",
        "    switch (type) {",
        "      case 0: return ShapeCircleItem.loadJson(json);",
        "      case 1: return ShapeRectItem.loadJson(json);",
        "      case 2: return ShapeEmptyItem.loadJson(json);",
        "      default: throw new Exception(\"Unknown type for Shape: \" + type.toString());",
        "    }",
        "  }",
        "",
        "  dynamic toJson();",
        "}",
        "",
        "",
    ]
    .join("\n")
}

#[test]
fn class_of_a_variant_that_wraps_a_value() {
    let text = emit(|e| {
        e.output_variant(
            "Shape",
            0,
            "ShapeCircleItem",
            &VariantFormat::NewType(boxed(Format::U64)),
            "Circle",
        )
    });
    assert_eq!(text, circle_class());
}

#[test]
fn class_of_a_variant_without_fields() {
    let text = emit(|e| e.output_variant("Shape", 2, "ShapeEmptyItem", &VariantFormat::Unit, "Empty"));
    assert_eq!(text, empty_class());
}

#[test]
fn a_variant_writes_its_tag_before_its_fields() {
    let text = emit(|e| {
        e.output_variant(
            "Shape",
            1,
            "ShapeRectItem",
            &VariantFormat::Struct(vec![named("w", Format::U32), named("h", Format::Str)]),
            "Rect",
        )
    });
    assert!(text.contains(
        "  void serialize(BinarySerializer serializer){\n    serializer.serialize_variant_index(1);\n    serializer.serialize_u32(w);\n    serializer.serialize_str(h);\n  }\n"
    ));
    assert!(text.contains(
        "  static ShapeRectItem load(BinaryDeserializer deserializer){\n    var w = deserializer.deserialize_u32();\n    var h = deserializer.deserialize_str();\n    return new ShapeRectItem(w,h);\n  }\n"
    ));
    assert!(!text.contains("static ShapeRectItem deserialize("));
}

#[test]
fn a_variant_has_no_operations_on_bytes_of_its_own() {
    let config = CodeGeneratorConfig::new("example".to_string()).with_encodings(vec![Encoding::Bcs]);
    let text = emit_with(&config, |e| {
        e.output_variant("Shape", 2, "ShapeEmptyItem", &VariantFormat::Unit, "Empty")
    });
    assert_eq!(text, empty_class());
}

#[test]
fn unnamed_fields_of_a_variant_are_named_by_position() {
    let text = emit(|e| {
        e.output_variant(
            "E",
            7,
            "ETItem",
            &VariantFormat::Tuple(vec![Format::Bool, Format::Bytes]),
            "T",
        )
    });
    assert!(text.contains("class ETItem extends E {\n  bool field0;\n  Bytes field1;\n\n"));
    assert!(text.contains("    serializer.serialize_variant_index(7);\n"));
    assert!(text.contains("    \"type\" : 7,\n    \"type_name\" : \"T\"\n"));
}

#[test]
fn dispatch_has_one_case_for_each_tag_and_rejects_any_other() {
    let text = emit(|e| e.output_enum_dispatch("Shape", &shape()));
    assert_eq!(text.matches("case ").count(), 6);
    for tag in 0..3 {
        assert_eq!(text.matches(&format!("case {}: return Shape", tag)).count(), 2);
    }
    assert!(!text.contains("case 3:"));
    assert!(text.contains(
        "default: throw new Exception(\"Unknown variant index for Shape: \" + index.toString());"
    ));
    let cases = emit(|e| e.output_dispatch_cases("Shape", &shape(), false));
    assert_eq!(
        cases,
        "case 0: return ShapeCircleItem.load(deserializer);\ncase 1: return ShapeRectItem.load(deserializer);\ncase 2: return ShapeEmptyItem.load(deserializer);\n"
    );
    let json = emit(|e| e.output_dispatch_cases("Shape", &shape(), true));
    assert_eq!(
        json,
        "case 0: return ShapeCircleItem.loadJson(json);\ncase 1: return ShapeRectItem.loadJson(json);\ncase 2: return ShapeEmptyItem.loadJson(json);\n"
    );
}

#[test]
fn dispatch_keeps_the_tags_of_the_schema() {
    let variants = vec![
        (5, named("A", VariantFormat::Unit)),
        (4000000000, named("B", VariantFormat::Unit)),
    ];
    let cases = emit(|e| e.output_dispatch_cases("E", &variants, false));
    assert_eq!(
        cases,
        "case 5: return EAItem.load(deserializer);\ncase 4000000000: return EBItem.load(deserializer);\n"
    );
}

#[test]
fn abstract_class_of_an_enum_and_the_classes_of_its_variants() {
    let variants = vec![
        (0, named("Circle", VariantFormat::NewType(boxed(Format::U64)))),
        (2, named("Empty", VariantFormat::Unit)),
    ];
    let text = emit(|e| e.output_container("Shape", &ContainerFormat::Enum(variants)));
    let base = shape_base()
        .replace("      case 1: return ShapeRectItem.load(deserializer);\n", "")
        .replace("      case 1: return ShapeRectItem.loadJson(json);\n", "");
    assert_eq!(text, format!("{}{}{}", base, circle_class(), empty_class()));
}

#[test]
fn abstract_class_of_an_enum() {
    let text = emit(|e| e.output_enum_container("Shape", &shape()));
    assert!(text.starts_with(&shape_base()));
    assert!(text.ends_with(&empty_class()));
}

#[test]
fn enum_with_operations_on_bytes() {
    let config = CodeGeneratorConfig::new("example".to_string())
        .with_encodings(vec![Encoding::Bincode]);
    let text = emit_with(&config, |e| e.output_enum_dispatch("Shape", &shape()));
    let expected_middle = [
        "}",
        "}",
        "",
        "Uint8List bincodeSerialize() {",
        "    var serializer = new BincodeSerializer();",
        "    serialize(serializer);",
        "    return serializer.get_bytes();",
        "}",
        "",
        "static Shape bincodeDeserialize(Uint8List input)  {",
        "   var deserializer = new BincodeDeserializer(input);",
        "    Shape value = deserialize(deserializer);",
        "    if (deserializer.get_buffer_offset() < input.length) {",
        "         throw new Exception(\"Some input bytes were not read\");",
        "    }",
        "    return value;",
        "}",
        "",
        "static Shape fromJson(dynamic json){",
    ]
    .join("\n");
    assert!(text.contains(&expected_middle.replace("}\n}\n\nUint8List", "  }\n}\n\nUint8List")));
}

#[test]
fn enum_without_serialization_code() {
    let config = CodeGeneratorConfig::new("example".to_string()).with_serialization(false);
    let text = emit_with(&config, |e| {
        e.output_enum_container("E", &vec![(0, named("A", VariantFormat::Unit))])
    });
    assert!(text.starts_with("\nabstract class E {\n  E();\n}\n\n\nclass EAItem extends E {\n"));
    assert!(!text.contains("serialize"));
    assert!(!text.contains("switch"));
}

#[test]
fn enum_without_variants() {
    let text = emit(|e| e.output_enum_container("Never", &vec![]));
    assert!(text.contains("    switch (index) {\n      default: throw new Exception(\"Unknown variant index for Never: \" + index.toString());\n    }\n"));
    assert!(text.ends_with("  dynamic toJson();\n}\n\n"));
}

#[test]
fn classes_of_the_variants_in_order() {
    let text = emit(|e| e.output_variants("Shape", &shape()));
    let circle = text.find("class ShapeCircleItem extends Shape {").unwrap();
    let rect = text.find("class ShapeRectItem extends Shape {").unwrap();
    let empty = text.find("class ShapeEmptyItem extends Shape {").unwrap();
    assert!(circle < rect && rect < empty);
    assert!(text.starts_with(&circle_class()));
    assert!(text.ends_with(&empty_class()));
}

#[test]
fn a_tag_of_no_variant_is_rejected() {
    let binary = emit(|e| e.output_unknown_tag("Shape", false));
    assert_eq!(
        binary,
        "default: throw new Exception(\"Unknown variant index for Shape: \" + index.toString());\n"
    );
    let json = emit(|e| e.output_unknown_tag("Shape", true));
    assert_eq!(
        json,
        "default: throw new Exception(\"Unknown type for Shape: \" + type.toString());\n"
    );
    let dispatch = emit(|e| e.output_enum_dispatch("Shape", &shape()));
    let last_case = dispatch.find("case 2: return ShapeEmptyItem.load(deserializer);").unwrap();
    let default = dispatch.find("default: throw new Exception(\"Unknown variant index").unwrap();
    assert!(last_case < default);
    assert_eq!(dispatch.matches("default: throw").count(), 2);
}
