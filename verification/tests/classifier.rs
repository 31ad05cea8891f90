//! The type classifier on representative spellings, in both the spaced
//! styling a token printer emits and the tight styling a hand-written
//! source holds.

use ring_codegen::classify::{
    classify, get_number_cast, is_box_type, is_hashmap_type, is_mut_struct_ref, is_number_type,
    is_option_type, is_result_type, is_slice_type, is_string_type, is_struct_ref, is_struct_type,
    is_tuple_type, is_vec_type, NumWidth, Shape,
};
use ring_codegen::extract::{
    extract_box_inner, extract_hashmap_kv, extract_option_inner, extract_result_ok,
    extract_slice_inner, extract_struct_name, extract_tuple_elements, extract_vec_inner,
};

#[test]
fn number_spellings() {
    assert!(is_number_type("i64"));
    assert!(is_number_type(" u8 "));
    assert!(is_number_type("f32"));
    assert!(!is_number_type("int"));
    assert!(!is_number_type("I64"));
}

#[test]
fn string_spellings() {
    assert!(is_string_type("String"));
    assert!(is_string_type("& str"));
    assert!(is_string_type("&str"));
    assert!(!is_string_type("Strange"));
}

#[test]
fn container_spellings() {
    assert!(is_vec_type("Vec < i32 >"));
    assert!(is_vec_type("Vec<i32>"));
    assert!(!is_vec_type("Vector"));
    assert!(is_option_type("Option < String >"));
    assert!(is_option_type("Option<String>"));
    assert!(is_result_type("Result < i32 , String >"));
    assert!(is_box_type("Box < f64 >"));
    assert!(is_hashmap_type("HashMap < String , i32 >"));
    assert!(is_hashmap_type("std :: collections :: HashMap < String , i32 >"));
    assert!(is_tuple_type("(i32 , String)"));
    assert!(!is_tuple_type("(i32)"));
    assert!(is_slice_type("& [u8]"));
    assert!(is_slice_type("&[u8]"));
}

#[test]
fn struct_spellings() {
    assert!(is_struct_type("Counter"));
    assert!(is_struct_type("&Counter"));
    assert!(!is_struct_type("counter"));
    assert!(!is_struct_type("Vec < i32 >"));
    assert!(!is_struct_type("String"));
    assert!(!is_struct_type("bool"));
    assert!(is_struct_ref("& Counter"));
    assert!(!is_struct_ref("Counter"));
    assert!(is_mut_struct_ref("& mut Counter"));
    assert!(!is_mut_struct_ref("& Counter"));
}

#[test]
fn number_casts() {
    assert_eq!(get_number_cast("u16"), "u16");
    assert_eq!(get_number_cast(" i64 "), "i64");
    assert_eq!(get_number_cast("mystery"), "f64");
}

#[test]
fn inner_extraction() {
    assert_eq!(extract_vec_inner("Vec < i32 >"), Some("i32".to_string()));
    assert_eq!(extract_vec_inner("Vec<Vec<u8>>"), Some("Vec<u8>".to_string()));
    assert_eq!(extract_vec_inner("i32"), None);
    assert_eq!(extract_option_inner("Option < String >"), Some("String".to_string()));
    assert_eq!(extract_box_inner("Box < Counter >"), Some("Counter".to_string()));
    assert_eq!(extract_slice_inner("& [u8]"), Some("u8".to_string()));
    assert_eq!(extract_struct_name("& mut Counter"), "Counter");
    assert_eq!(extract_struct_name("&Counter"), "Counter");
    assert_eq!(extract_struct_name("Counter"), "Counter");
}

#[test]
fn result_ok_extraction() {
    assert_eq!(extract_result_ok("Result < String , MyError >"), Some("String".to_string()));
    assert_eq!(extract_result_ok("Result<i32, E>"), Some("i32".to_string()));
    // a tuple success type keeps its own comma
    assert_eq!(
        extract_result_ok("Result < (i32 , i32) , E >"),
        Some("(i32 , i32)".to_string())
    );
    assert_eq!(extract_result_ok("Result < String >"), None);
    assert_eq!(extract_result_ok("Option < String >"), None);
}

#[test]
fn tuple_element_extraction() {
    assert_eq!(
        extract_tuple_elements("(i32 , String)"),
        vec!["i32".to_string(), "String".to_string()]
    );
    // nested generic and tuple delimiters are not element separators
    assert_eq!(
        extract_tuple_elements("(i32 , HashMap < String , (i32 , i32) > , bool)"),
        vec![
            "i32".to_string(),
            "HashMap < String , (i32 , i32) >".to_string(),
            "bool".to_string()
        ]
    );
    assert_eq!(extract_tuple_elements("i32"), Vec::<String>::new());
}

#[test]
fn hashmap_kv_extraction() {
    assert_eq!(
        extract_hashmap_kv("HashMap < String , i32 >"),
        Some(("String".to_string(), "i32".to_string()))
    );
    // a mapping value that is itself a tuple keeps its comma
    assert_eq!(
        extract_hashmap_kv("HashMap < String , (i32 , i32) >"),
        Some(("String".to_string(), "(i32 , i32)".to_string()))
    );
    assert_eq!(extract_hashmap_kv("Vec < i32 >"), None);
}

#[test]
fn classify_primitives() {
    assert_eq!(classify("i64"), Shape::Number(NumWidth::I64));
    assert_eq!(classify("f32"), Shape::Number(NumWidth::F32));
    assert_eq!(classify("String"), Shape::Text);
    assert_eq!(classify("bool"), Shape::Boolean);
    assert_eq!(classify("lowercase"), Shape::Unknown);
}

#[test]
fn classify_containers() {
    assert_eq!(
        classify("Vec < i32 >"),
        Shape::Vector(Box::new(Shape::Number(NumWidth::I32)))
    );
    assert_eq!(
        classify("Option < String >"),
        Shape::Optional(Box::new(Shape::Text))
    );
    assert_eq!(
        classify("Result < String , MyError >"),
        Shape::ResultOf(Box::new(Shape::Text))
    );
    assert_eq!(
        classify("Box < u8 >"),
        Shape::Indirection(Box::new(Shape::Number(NumWidth::U8)))
    );
    assert_eq!(
        classify("HashMap < String , i32 >"),
        Shape::Mapping(Box::new(Shape::Text), Box::new(Shape::Number(NumWidth::I32)))
    );
    assert_eq!(
        classify("(i32 , bool)"),
        Shape::Tuple(vec![Shape::Number(NumWidth::I32), Shape::Boolean])
    );
    assert_eq!(
        classify("Vec < Vec < u8 > >"),
        Shape::Vector(Box::new(Shape::Vector(Box::new(Shape::Number(NumWidth::U8)))))
    );
}

#[test]
fn classify_references_and_structs() {
    assert_eq!(classify("Counter"), Shape::Opaque("Counter".to_string()));
    assert_eq!(
        classify("& Counter"),
        Shape::Reference { target: "Counter".to_string(), mutable: false }
    );
    assert_eq!(
        classify("& mut Counter"),
        Shape::Reference { target: "Counter".to_string(), mutable: true }
    );
}

#[test]
fn classify_nested_spellings() {
    assert_eq!(
        classify("HashMap < String , Vec < Counter > >"),
        Shape::Mapping(
            Box::new(Shape::Text),
            Box::new(Shape::Vector(Box::new(Shape::Opaque("Counter".to_string()))))
        )
    );
    assert_eq!(
        classify("Result < (i32 , i32) , MyError >"),
        Shape::ResultOf(Box::new(Shape::Tuple(vec![
            Shape::Number(NumWidth::I32),
            Shape::Number(NumWidth::I32)
        ])))
    );
    assert_eq!(
        classify("(Vec < u8 > , HashMap < String , bool >)"),
        Shape::Tuple(vec![
            Shape::Vector(Box::new(Shape::Number(NumWidth::U8))),
            Shape::Mapping(Box::new(Shape::Text), Box::new(Shape::Boolean)),
        ])
    );
    assert_eq!(
        classify("Option < Box < Vec < f64 > > >"),
        Shape::Optional(Box::new(Shape::Indirection(Box::new(Shape::Vector(Box::new(
            Shape::Number(NumWidth::F64)
        ))))))
    );
}

#[test]
fn classify_whitespace_variants() {
    assert_eq!(classify("Vec<i32>"), classify("Vec < i32 >"));
    assert_eq!(classify("Option<String>"), classify("Option < String >"));
    assert_eq!(classify("Box<Counter>"), classify("Box < Counter >"));
    assert_eq!(
        classify("HashMap<String, i32>"),
        classify("HashMap < String , i32 >")
    );
    assert_eq!(classify("(i32, bool)"), classify("(i32 , bool)"));
}
