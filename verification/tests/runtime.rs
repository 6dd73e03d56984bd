// Tests of the runtime builder semantics (setters, accumulation,
// finalization) and of the record renderer.

use builder_gen::artifact::generate;
use builder_gen::instance::{BuilderInstance, RecordValue, Value};
use builder_gen::render::{debug_plan, decimal_text, render_record};
use builder_gen::schema::{Attribute, Entry, FieldDescriptor, Payload, TypeExpr};

fn ty(head: &str, args: Vec<TypeExpr>) -> TypeExpr {
    TypeExpr { head: head.to_string(), args }
}

fn plain(head: &str) -> TypeExpr {
    ty(head, vec![])
}

fn field(name: &str, t: TypeExpr) -> FieldDescriptor {
    FieldDescriptor { name: name.to_string(), ty: t, attrs: vec![] }
}

fn each_attr(push_name: &str) -> Attribute {
    Attribute {
        name: "builder".to_string(),
        payload: Payload::List(vec![Entry::KeyStr {
            key: "each".to_string(),
            value: push_name.to_string(),
        }]),
    }
}

fn text(s: &str) -> Value {
    Value::Text(s.to_string())
}

#[test]
fn all_setters_once_equals_direct_construction() {
    let fields = vec![
        field("executable", plain("String")),
        field("args", ty("Vec", vec![plain("String")])),
        field("current_dir", plain("String")),
    ];
    let art = generate("Command".to_string(), fields).unwrap();
    let mut b = BuilderInstance::fresh(&art);
    b.set_value(0, text("cargo"));
    b.set_value(1, Value::TextList(vec!["build".to_string(), "--release".to_string()]));
    b.set_value(2, text(".."));
    let rec = b.finalize(&art).unwrap();
    let direct = RecordValue {
        fields: vec![
            Some(text("cargo")),
            Some(Value::TextList(vec!["build".to_string(), "--release".to_string()])),
            Some(text("..")),
        ],
    };
    assert!(rec == direct);
}

#[test]
fn missing_required_field_names_it() {
    let fields = vec![field("name", plain("String"))];
    let art = generate("Person".to_string(), fields).unwrap();
    let b = BuilderInstance::fresh(&art);
    let e = b.finalize(&art).unwrap_err();
    assert_eq!(e.msg, "Missing field: name");
}

#[test]
fn optional_field_may_stay_absent() {
    let fields = vec![field("nickname", ty("Option", vec![plain("String")]))];
    let art = generate("Person".to_string(), fields).unwrap();
    let b = BuilderInstance::fresh(&art);
    let rec = b.finalize(&art).unwrap();
    assert!(rec == RecordValue { fields: vec![None] });
}

#[test]
fn accumulator_keeps_push_order() {
    let fields = vec![FieldDescriptor {
        name: "items".to_string(),
        ty: ty("Vec", vec![plain("String")]),
        attrs: vec![each_attr("push_item")],
    }];
    let art = generate("Cart".to_string(), fields).unwrap();
    let mut b = BuilderInstance::fresh(&art);
    b.push_value(0, text("first"));
    b.push_value(0, text("second"));
    let rec = b.finalize(&art).unwrap();
    let direct = RecordValue {
        fields: vec![Some(Value::TextList(vec!["first".to_string(), "second".to_string()]))],
    };
    assert!(rec == direct);
}

#[test]
fn accumulator_with_no_push_finalizes_empty() {
    let fields = vec![FieldDescriptor {
        name: "items".to_string(),
        ty: ty("Vec", vec![plain("String")]),
        attrs: vec![each_attr("push_item")],
    }];
    let art = generate("Cart".to_string(), fields).unwrap();
    let b = BuilderInstance::fresh(&art);
    let rec = b.finalize(&art).unwrap();
    assert!(rec == RecordValue { fields: vec![Some(Value::TextList(vec![]))] });
}

#[test]
fn first_missing_field_wins() {
    let fields = vec![
        field("a", plain("String")),
        field("b", plain("String")),
        field("c", plain("String")),
    ];
    let art = generate("T".to_string(), fields).unwrap();
    let mut b = BuilderInstance::fresh(&art);
    b.set_value(2, text("only c"));
    let e = b.finalize(&art).unwrap_err();
    assert_eq!(e.msg, "Missing field: a");
}

#[test]
fn retry_after_filling_the_missing_field() {
    let fields = vec![field("a", plain("String")), field("b", plain("String"))];
    let art = generate("T".to_string(), fields).unwrap();
    let mut b = BuilderInstance::fresh(&art);
    b.set_value(1, text("two"));
    let e = b.finalize(&art).unwrap_err();
    assert_eq!(e.msg, "Missing field: a");
    b.set_value(0, text("one"));
    let rec = b.finalize(&art).unwrap();
    assert!(rec == RecordValue { fields: vec![Some(text("one")), Some(text("two"))] });
}

#[test]
fn non_accumulator_setter_is_last_write_wins() {
    let fields = vec![field("name", plain("String"))];
    let art = generate("T".to_string(), fields).unwrap();
    let mut b = BuilderInstance::fresh(&art);
    b.set_value(0, text("first"));
    b.set_value(0, text("second"));
    let rec = b.finalize(&art).unwrap();
    assert!(rec == RecordValue { fields: vec![Some(text("second"))] });
}

#[test]
fn accumulator_of_integers() {
    let fields = vec![FieldDescriptor {
        name: "nums".to_string(),
        ty: ty("Vec", vec![plain("u64")]),
        attrs: vec![each_attr("num")],
    }];
    let art = generate("T".to_string(), fields).unwrap();
    let mut b = BuilderInstance::fresh(&art);
    b.push_value(0, Value::Int(7));
    b.push_value(0, Value::Int(9));
    let rec = b.finalize(&art).unwrap();
    assert!(rec == RecordValue { fields: vec![Some(Value::IntList(vec![7, 9]))] });
}

#[test]
fn finalize_does_not_consume_state() {
    let fields = vec![field("name", plain("String"))];
    let art = generate("T".to_string(), fields).unwrap();
    let mut b = BuilderInstance::fresh(&art);
    b.set_value(0, text("kept"));
    let r1 = b.finalize(&art).unwrap();
    let r2 = b.finalize(&art).unwrap();
    assert!(r1 == r2);
}

#[test]
fn renders_point_exactly() {
    let fields = vec![field("x", plain("u64")), field("y", plain("u64"))];
    let plan = debug_plan("Point".to_string(), fields);
    let rec = RecordValue { fields: vec![Some(Value::Int(1)), Some(Value::Int(2))] };
    let s = render_record(&plan, &rec).unwrap();
    assert_eq!(s, "Point { x: \"1\", y: \"2\" }");
}

#[test]
fn renders_text_fields_in_declaration_order() {
    let fields = vec![field("host", plain("String")), field("port", plain("u64"))];
    let plan = debug_plan("Addr".to_string(), fields);
    let rec = RecordValue { fields: vec![Some(text("localhost")), Some(Value::Int(80))] };
    let s = render_record(&plan, &rec).unwrap();
    assert_eq!(s, "Addr { host: \"localhost\", port: \"80\" }");
}

#[test]
fn renders_empty_record() {
    let plan = debug_plan("Unit".to_string(), vec![]);
    let rec = RecordValue { fields: vec![] };
    let s = render_record(&plan, &rec).unwrap();
    assert_eq!(s, "Unit {  }");
}

#[test]
fn absent_or_collection_fields_have_no_rendering() {
    let fields = vec![field("nickname", ty("Option", vec![plain("String")]))];
    let plan = debug_plan("Person".to_string(), fields);
    let rec = RecordValue { fields: vec![None] };
    assert!(render_record(&plan, &rec).is_none());
    let rec = RecordValue { fields: vec![Some(Value::TextList(vec![]))] };
    assert!(render_record(&plan, &rec).is_none());
}

#[test]
fn decimal_rendering_is_exact() {
    assert_eq!(decimal_text(0), "0");
    assert_eq!(decimal_text(7), "7");
    assert_eq!(decimal_text(10), "10");
    assert_eq!(decimal_text(12345), "12345");
    assert_eq!(decimal_text(18446744073709551615), "18446744073709551615");
}

#[test]
fn error_converts_from_and_to_the_string_channel() {
    let e = builder_gen::instance::BuilderError::from("Missing field: name".to_string());
    assert_eq!(e.to_message(), "Missing field: name");
    assert_eq!(e.msg, "Missing field: name");
}
