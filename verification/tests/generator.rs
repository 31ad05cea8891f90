//! The binder, the return synthesizer and a whole generator invocation on
//! a representative module: a struct with accessors, an implementation
//! block with a custom constructor and methods, and a free function.

use ring_codegen::assemble::ring_extension;
use ring_codegen::binder::generate_param_binding;
use ring_codegen::decl::{
    Declaration, FieldDecl, FnDecl, ImplDecl, MethodDecl, MethodIndex, ParamDecl, StructDecl,
};
use ring_codegen::fragments::{
    ArgKind, CheckKind, GetKind, ListElemRet, ResRet, RetFrag, TupleElemRet,
};
use ring_codegen::names::ascii_lower;
use ring_codegen::process::{
    generate_field_getter, generate_field_setter, process_struct, GetterRet, SetterFrag,
    WrapperBody,
};
use ring_codegen::retsyn::generate_return_for_type;

fn param(name: &str, ty: &str) -> ParamDecl {
    ParamDecl { name: name.to_string(), ty: ty.to_string() }
}

#[test]
fn lowercase_names() {
    assert_eq!(ascii_lower("Counter"), "counter");
    assert_eq!(ascii_lower("HTTPServer2"), "httpserver2");
    assert_eq!(ascii_lower("already_low"), "already_low");
}

#[test]
fn bind_number_parameter() {
    let b = generate_param_binding("a", "i32", 1);
    assert_eq!(b.name, "a");
    assert_eq!(b.pos, 1);
    assert_eq!(b.check, CheckKind::NumberCheck);
    assert_eq!(b.get, GetKind::NumberGet { cast: "i32".to_string() });
    assert_eq!(b.arg, ArgKind::ByName);
}

#[test]
fn bind_text_and_bool_parameters() {
    let s = generate_param_binding("name", "& str", 2);
    assert_eq!(s.check, CheckKind::StringCheck);
    assert_eq!(s.get, GetKind::TextGet);
    let b = generate_param_binding("flag", "bool", 3);
    assert_eq!(b.check, CheckKind::NumberCheck);
    assert_eq!(b.get, GetKind::BoolGet);
}

#[test]
fn bind_reference_parameters() {
    let m = generate_param_binding("c", "& mut Counter", 1);
    assert_eq!(m.check, CheckKind::CPointerCheck);
    assert_eq!(m.get, GetKind::PtrGet { target: "Counter".to_string() });
    assert_eq!(m.arg, ArgKind::DerefMut);
    let r = generate_param_binding("c", "& Counter", 1);
    assert_eq!(r.get, GetKind::PtrGet { target: "Counter".to_string() });
    assert_eq!(r.arg, ArgKind::DerefConst);
    let v = generate_param_binding("c", "Counter", 1);
    assert_eq!(v.get, GetKind::CloneGet { target: "Counter".to_string() });
    assert_eq!(v.arg, ArgKind::ByName);
}

#[test]
fn bind_collection_parameters() {
    let v = generate_param_binding("xs", "Vec < i32 >", 1);
    assert_eq!(v.check, CheckKind::ListCheck);
    assert_eq!(v.get, GetKind::VecNumberGet { cast: "i32".to_string() });
    let o = generate_param_binding("x", "Option < String >", 2);
    assert_eq!(o.check, CheckKind::NoCheck);
    assert_eq!(o.get, GetKind::OptTextGet);
    let s = generate_param_binding("xs", "& [f64]", 3);
    assert_eq!(s.check, CheckKind::ListCheck);
    assert_eq!(s.get, GetKind::SliceNumberGet { cast: "f64".to_string() });
    assert_eq!(s.arg, ArgKind::BorrowSlice);
    let unknown = generate_param_binding("x", "whatever", 4);
    assert_eq!(unknown.check, CheckKind::NumberCheck);
    assert_eq!(unknown.get, GetKind::InferredNumberGet);
}

#[test]
fn synthesize_scalar_returns() {
    assert_eq!(generate_return_for_type("i64", None), RetFrag::RetNumber);
    assert_eq!(generate_return_for_type("String", None), RetFrag::RetString);
    assert_eq!(generate_return_for_type("bool", None), RetFrag::RetBool);
    assert_eq!(generate_return_for_type("mystery", None), RetFrag::RetNumber);
}

#[test]
fn synthesize_container_returns() {
    assert_eq!(
        generate_return_for_type("Vec < String >", None),
        RetFrag::RetList(ListElemRet::TextElem)
    );
    assert_eq!(
        generate_return_for_type("Vec < Counter >", None),
        RetFrag::RetList(ListElemRet::StructElem { target: "Counter".to_string() })
    );
    assert_eq!(
        generate_return_for_type("Result < i64 , String >", None),
        RetFrag::RetResult(ResRet::ResNum)
    );
    assert_eq!(
        generate_return_for_type("Result < () , String >", None),
        RetFrag::RetResult(ResRet::ResUnit)
    );
    assert_eq!(
        generate_return_for_type("(i32 , String)", None),
        RetFrag::RetTuple(vec![TupleElemRet::TupleNum, TupleElemRet::TupleText])
    );
}

#[test]
fn synthesize_self_return() {
    assert_eq!(
        generate_return_for_type("Self", Some("Counter")),
        RetFrag::RetCPointer { target: "Counter".to_string() }
    );
    assert_eq!(generate_return_for_type("Self", None), RetFrag::RetNumber);
    assert_eq!(
        generate_return_for_type("Counter", None),
        RetFrag::RetCPointer { target: "Counter".to_string() }
    );
}

#[test]
fn synthesize_whitespace_variants() {
    assert_eq!(
        generate_return_for_type("Vec<String>", None),
        generate_return_for_type("Vec < String >", None)
    );
    assert_eq!(
        generate_return_for_type("Result<i64,String>", None),
        generate_return_for_type("Result < i64 , String >", None)
    );
    assert_eq!(
        generate_return_for_type("HashMap<String,i32>", None),
        generate_return_for_type("HashMap < String , i32 >", None)
    );
    assert_eq!(
        generate_param_binding("x", "Option<i64>", 1),
        generate_param_binding("x", "Option < i64 >", 1)
    );
    assert_eq!(generate_field_setter("Vec<u8>"), generate_field_setter("Vec < u8 >"));
}

#[test]
fn field_accessor_fragments() {
    assert_eq!(generate_field_getter("i64"), GetterRet::GetNum);
    assert_eq!(generate_field_getter("Option < String >"), GetterRet::GetOptText);
    assert_eq!(
        generate_field_getter("Vec < Counter >"),
        GetterRet::GetVecStruct { target: "Counter".to_string() }
    );
    assert_eq!(
        generate_field_setter("u16"),
        SetterFrag::SetNum { cast: "u16".to_string() }
    );
    assert_eq!(generate_field_setter("Option < String >"), SetterFrag::SetOptText);
    assert_eq!(generate_field_setter("unknowable"), SetterFrag::SetNumInferred);
}

#[test]
fn suppression_by_user_methods() {
    let s = StructDecl {
        name: "Counter".to_string(),
        fields: vec![FieldDecl { name: "value".to_string(), ty: "i64".to_string(), public: true }],
    };
    let mut index = MethodIndex::new();
    index.insert("Counter", "get_value");
    let (wrappers, regs) = process_struct(&s, "", false, &index);
    // no generated getter for `value`, and no registration of its name
    assert!(wrappers.iter().all(|w| {
        !matches!(&w.body, WrapperBody::GetterWrapper { field, .. } if field == "value")
    }));
    assert!(regs.iter().all(|r| r.exported != "counter_get_value"));
    // the setter, the delete wrapper and the default constructor remain
    assert!(regs.iter().any(|r| r.exported == "counter_set_value"));
    assert!(regs.iter().any(|r| r.exported == "counter_delete"));
    assert!(regs.iter().any(|r| r.exported == "counter_new"));
}

#[test]
fn whole_module_registrations() {
    let items = vec![
        Declaration::StructItem(StructDecl {
            name: "Counter".to_string(),
            fields: vec![
                FieldDecl { name: "value".to_string(), ty: "i64".to_string(), public: true },
                FieldDecl { name: "name".to_string(), ty: "String".to_string(), public: true },
                FieldDecl { name: "secret".to_string(), ty: "i64".to_string(), public: false },
            ],
        }),
        Declaration::ImplItem(ImplDecl {
            struct_name: "Counter".to_string(),
            methods: vec![
                MethodDecl {
                    name: "new".to_string(),
                    params: vec![param("name", "& str"), param("initial", "i64")],
                    output: Some("Self".to_string()),
                    has_receiver: false,
                    public: true,
                },
                MethodDecl {
                    name: "increment".to_string(),
                    params: vec![],
                    output: None,
                    has_receiver: true,
                    public: true,
                },
                MethodDecl {
                    name: "get_value".to_string(),
                    params: vec![],
                    output: Some("i64".to_string()),
                    has_receiver: true,
                    public: true,
                },
            ],
        }),
        Declaration::FnItem(FnDecl {
            name: "add".to_string(),
            params: vec![param("a", "i32"), param("b", "i32")],
            output: Some("i32".to_string()),
        }),
    ];
    let module = ring_extension(Some("mylib"), &items);
    let exported: Vec<&str> = module.registrations.iter().map(|r| r.exported.as_str()).collect();
    // the custom `new` suppresses the default constructor, `get_value`
    // suppresses the getter of `value`, and the private field is skipped;
    // registration order is declaration encounter order
    assert_eq!(
        exported,
        vec![
            "mylib_counter_delete",
            "mylib_counter_set_value",
            "mylib_counter_get_name",
            "mylib_counter_set_name",
            "mylib_counter_new",
            "mylib_counter_increment",
            "mylib_counter_get_value",
            "mylib_add",
        ]
    );
    let wrappers: Vec<&str> = module.wrappers.iter().map(|w| w.name.as_str()).collect();
    assert_eq!(
        wrappers,
        vec![
            "ring_mylib_counter_delete",
            "ring_mylib_counter_set_value",
            "ring_mylib_counter_get_name",
            "ring_mylib_counter_set_name",
            "ring_mylib_counter_new",
            "ring_mylib_counter_increment",
            "ring_mylib_counter_get_value",
            "ring_mylib_add",
        ]
    );
    // duplicate exported names are kept, not deduplicated
    let dup_items = vec![
        Declaration::FnItem(FnDecl { name: "f".to_string(), params: vec![], output: None }),
        Declaration::FnItem(FnDecl { name: "f".to_string(), params: vec![], output: None }),
    ];
    let dup = ring_extension(None, &dup_items);
    assert_eq!(dup.registrations.len(), 2);
    assert_eq!(dup.registrations[0].exported, "f");
    assert_eq!(dup.registrations[1].exported, "f");
}

#[test]
fn empty_prefix_names() {
    let items = vec![Declaration::FnItem(FnDecl {
        name: "greet".to_string(),
        params: vec![param("name", "& str")],
        output: Some("String".to_string()),
    })];
    let module = ring_extension(None, &items);
    assert_eq!(module.registrations[0].exported, "greet");
    assert_eq!(module.registrations[0].wrapper, "ring_greet");
    let module2 = ring_extension(Some(""), &items);
    assert_eq!(module2.registrations[0].exported, "greet");
}
