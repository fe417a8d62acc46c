use tower_grpc::names::{
    is_imported_type, lower_name, method_path, super_import, to_upper_camel, unqualified,
    MethodTypes, Name, Names,
};

#[test]
fn lower_name_turns_camel_into_snake() {
    assert_eq!(lower_name("SayHello"), "say_hello");
    assert_eq!(lower_name("already_snake"), "already_snake");
    assert_eq!(lower_name("A"), "a");
    assert_eq!(lower_name("GetHTTP"), "get_h_t_t_p");
}

#[test]
fn imported_types_start_at_super() {
    assert!(is_imported_type("super::Foo"));
    assert!(is_imported_type("super"));
    assert!(!is_imported_type("superb::Foo"));
    assert!(!is_imported_type("Foo"));
}

#[test]
fn super_import_splits_path_and_name() {
    assert_eq!(
        super_import("pkg::HelloRequest", 1),
        ("super::pkg".to_string(), "HelloRequest".to_string())
    );
    assert_eq!(super_import("HelloRequest", 2), ("super::super".to_string(), "HelloRequest".to_string()));
}

#[test]
fn unqualified_adds_supers_only_to_imported_types() {
    assert_eq!(unqualified("Foo", 2), "Foo");
    assert_eq!(unqualified("super::Foo", 2), "super::super::super::Foo");
}

#[test]
fn method_path_is_a_string_literal() {
    assert_eq!(method_path("helloworld", "Greeter", "SayHello"), "\"/helloworld.Greeter/SayHello\"");
}

#[test]
fn upper_camel_avoids_self() {
    assert_eq!(to_upper_camel("say_hello"), "SayHello");
    assert_eq!(to_upper_camel("self"), "Self_");
}

#[test]
fn name_super_import_decides_importability() {
    let n = Name::super_import("pkg::Msg", 1);
    assert!(n.can_import());
    assert_eq!(n.name(), "pkg::Msg");
    let m = Name::super_import("Msg", 1);
    assert!(!m.can_import());
    assert_eq!(m.name(), "super::Msg");
}

#[test]
fn names_store_message_types() {
    let mut names = Names::new(1);
    assert!(names.get("pkg::In").is_none());
    let methods = vec![MethodTypes { input_type: "pkg::In".to_string(), output_type: "pkg::Out".to_string() }];
    names.with_message_types(&methods);
    assert_eq!(names.get("pkg::In"), Some("pkg::In"));
    assert_eq!(names.for_method("pkg::In", "pkg::Out"), ("pkg::In", "pkg::In"));
    assert_eq!(names.import_into(), vec![
        ("super".to_string(), "pkg::In".to_string()),
        ("super".to_string(), "pkg::In".to_string()),
    ]);
}
