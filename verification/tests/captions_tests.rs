use cpp_to_rust::captions::{
    all_distinct, caption_words, captioned_name, disambiguate, is_none_taken, names_under,
    CaptionError,
};
use cpp_to_rust::cpp_type::{CppType, CppTypeBase, CppTypeIndirection};
use cpp_to_rust::rust_info::{
    RustFunction, RustFunctionArgument, RustFunctionCaptionStrategy, RustFunctionDoc,
    RustFunctionScope, RustFunctionSelfArgKind,
};
use cpp_to_rust::rust_type::{CompleteType, RustPath, RustType, RustTypeIndirection};

fn void() -> CppType {
    CppType { base: CppTypeBase::Void, is_const: false, indirection: CppTypeIndirection::Direct }
}

fn rust_type(name: &str, indirection: RustTypeIndirection, is_const: bool) -> RustType {
    RustType {
        path: RustPath { parts: vec!["lib".to_string(), name.to_string()] },
        indirection,
        is_const,
    }
}

fn complete(t: RustType) -> CompleteType {
    CompleteType { cpp_type: void(), cpp_ffi_type: void(), rust_ffi_type: t.clone(), rust_api_type: t }
}

fn arg(name: &str, t: RustType) -> RustFunctionArgument {
    RustFunctionArgument { argument_type: complete(t), name: name.to_string(), ffi_index: 0 }
}

fn function(is_unsafe: bool, arguments: Vec<RustFunctionArgument>) -> RustFunction {
    RustFunction {
        scope: RustFunctionScope::Free,
        is_unsafe,
        path: RustPath { parts: vec!["lib".to_string(), "draw".to_string()] },
        arguments,
        return_type: complete(rust_type("unit", RustTypeIndirection::Value, false)),
        doc: RustFunctionDoc { common_doc: None, doc: None, cpp_fn: String::new() },
    }
}

fn self_mut() -> RustFunctionArgument {
    arg("self", rust_type("Painter", RustTypeIndirection::Ref, false))
}

fn self_const() -> RustFunctionArgument {
    arg("self", rust_type("Painter", RustTypeIndirection::Ref, true))
}

fn int_arg(name: &str) -> RustFunctionArgument {
    arg(name, rust_type("int", RustTypeIndirection::Value, false))
}

#[test]
fn all_lists_the_strategies_by_priority() {
    assert_eq!(
        RustFunctionCaptionStrategy::all().to_vec(),
        vec![
            RustFunctionCaptionStrategy::SelfOnly,
            RustFunctionCaptionStrategy::UnsafeOnly,
            RustFunctionCaptionStrategy::SelfAndArgTypes,
            RustFunctionCaptionStrategy::SelfAndArgNames,
            RustFunctionCaptionStrategy::SelfAndIndex,
        ]
    );
}

#[test]
fn self_arg_kind_follows_the_receiver() {
    assert_eq!(function(false, vec![]).self_arg_kind(), RustFunctionSelfArgKind::NoSelf);
    assert_eq!(function(false, vec![int_arg("x")]).self_arg_kind(), RustFunctionSelfArgKind::NoSelf);
    assert_eq!(function(false, vec![self_mut()]).self_arg_kind(), RustFunctionSelfArgKind::MutRef);
    assert_eq!(
        function(false, vec![self_const(), int_arg("x")]).self_arg_kind(),
        RustFunctionSelfArgKind::ConstRef
    );
    assert_eq!(
        function(false, vec![arg("self", rust_type("P", RustTypeIndirection::Value, false))])
            .self_arg_kind(),
        RustFunctionSelfArgKind::Value
    );
}

#[test]
fn draw_overloads_differ_by_their_argument_types() {
    let set = vec![function(false, vec![self_mut()]), function(false, vec![self_mut(), int_arg("x")])];
    let r = disambiguate(&set, &"draw".to_string(), &vec![]).unwrap();
    assert_eq!(r.strategy, Some(RustFunctionCaptionStrategy::SelfAndArgTypes));
    assert_eq!(r.names, vec!["draw_mut", "draw_mut_int"]);
}

#[test]
fn one_function_keeps_its_name() {
    let set = vec![function(true, vec![self_mut(), int_arg("x")])];
    let r = disambiguate(&set, &"draw".to_string(), &vec![]).unwrap();
    assert_eq!(r.strategy, None);
    assert_eq!(r.names, vec!["draw"]);
    let r = disambiguate(&vec![], &"draw".to_string(), &vec!["draw".to_string()]).unwrap();
    assert_eq!(r.strategy, None);
    assert!(r.names.is_empty());
}

#[test]
fn receivers_decide_first() {
    let set = vec![
        function(false, vec![self_mut(), int_arg("x")]),
        function(false, vec![self_const(), int_arg("x")]),
        function(false, vec![int_arg("x")]),
    ];
    let r = disambiguate(&set, &"at".to_string(), &vec![]).unwrap();
    assert_eq!(r.strategy, Some(RustFunctionCaptionStrategy::SelfOnly));
    assert_eq!(r.names, vec!["at_mut", "at_const", "at_static"]);
}

#[test]
fn safety_decides_second() {
    let set = vec![function(false, vec![self_mut()]), function(true, vec![self_mut()])];
    let r = disambiguate(&set, &"get".to_string(), &vec!["other".to_string()]).unwrap();
    assert_eq!(r.strategy, Some(RustFunctionCaptionStrategy::UnsafeOnly));
    assert_eq!(r.names, vec!["get", "get_unsafe"]);
}

#[test]
fn argument_names_decide_fourth() {
    let set = vec![
        function(false, vec![self_mut(), int_arg("width")]),
        function(false, vec![self_mut(), int_arg("height")]),
    ];
    let r = disambiguate(&set, &"set".to_string(), &vec![]).unwrap();
    assert_eq!(r.strategy, Some(RustFunctionCaptionStrategy::SelfAndArgNames));
    assert_eq!(r.names, vec!["set_mut_width", "set_mut_height"]);
}

#[test]
fn the_index_decides_last() {
    let set = vec![
        function(false, vec![self_mut(), int_arg("x")]),
        function(false, vec![self_mut(), int_arg("x")]),
    ];
    let r = disambiguate(&set, &"set".to_string(), &vec![]).unwrap();
    assert_eq!(r.strategy, Some(RustFunctionCaptionStrategy::SelfAndIndex));
    assert_eq!(r.names, vec!["set_mut_0", "set_mut_1"]);
}

#[test]
fn equal_functions_differ_under_the_last_strategy_only() {
    let a = function(false, vec![arg("x", rust_type("1", RustTypeIndirection::Value, false))]);
    let b = function(false, vec![arg("x", rust_type("1", RustTypeIndirection::Value, false))]);
    let set = vec![a, b];
    for strategy in RustFunctionCaptionStrategy::all() {
        let names = names_under(&set, &"f".to_string(), *strategy);
        assert_eq!(names.len(), 2);
        assert_eq!(
            all_distinct(&names),
            *strategy == RustFunctionCaptionStrategy::SelfAndIndex
        );
    }
    let r = disambiguate(&set, &"f".to_string(), &vec![]);
    assert_eq!(r.unwrap().names, vec!["f_static_0", "f_static_1"]);
    assert_eq!(format!("{:?}", CaptionError::Ambiguous), "Ambiguous");
}

#[test]
fn caption_words_of_each_strategy() {
    let f = function(true, vec![self_const(), int_arg("x"), int_arg("y")]);
    let words = |s| caption_words(&f, 12, s);
    assert_eq!(words(RustFunctionCaptionStrategy::SelfOnly), vec!["const"]);
    assert_eq!(words(RustFunctionCaptionStrategy::UnsafeOnly), vec!["unsafe"]);
    assert_eq!(words(RustFunctionCaptionStrategy::SelfAndArgTypes), vec!["const", "int", "int"]);
    assert_eq!(words(RustFunctionCaptionStrategy::SelfAndArgNames), vec!["const", "x", "y"]);
    assert_eq!(words(RustFunctionCaptionStrategy::SelfAndIndex), vec!["const", "12"]);
    let g = function(false, vec![int_arg("x")]);
    assert_eq!(
        caption_words(&g, 0, RustFunctionCaptionStrategy::UnsafeOnly),
        Vec::<String>::new()
    );
    assert_eq!(
        caption_words(&g, 0, RustFunctionCaptionStrategy::SelfAndArgTypes),
        vec!["static", "int"]
    );
}

#[test]
fn captioned_name_appends_the_words() {
    assert_eq!(captioned_name(&"f".to_string(), &vec![]), "f");
    assert_eq!(captioned_name(&"f".to_string(), &vec!["a".to_string(), "b".to_string()]), "f_a_b");
    assert!(all_distinct(&vec!["a".to_string(), "b".to_string()]));
    assert!(!all_distinct(&vec!["a".to_string(), "b".to_string(), "a".to_string()]));
    assert!(all_distinct(&vec![]));
}

#[test]
fn taken_names_are_avoided() {
    let set = vec![function(false, vec![self_mut()]), function(false, vec![self_mut(), int_arg("x")])];
    let taken = vec!["draw_mut".to_string()];
    let r = disambiguate(&set, &"draw".to_string(), &taken).unwrap();
    assert_eq!(r.strategy, Some(RustFunctionCaptionStrategy::SelfAndIndex));
    assert_eq!(r.names, vec!["draw_mut_0", "draw_mut_1"]);

    let one = vec![function(false, vec![self_const()])];
    let r = disambiguate(&one, &"len".to_string(), &vec!["len".to_string()]).unwrap();
    assert_eq!(r.strategy, Some(RustFunctionCaptionStrategy::SelfOnly));
    assert_eq!(r.names, vec!["len_const"]);
    let r = disambiguate(&one, &"len".to_string(), &vec!["length".to_string()]).unwrap();
    assert_eq!(r.strategy, None);
    assert_eq!(r.names, vec!["len"]);
}

#[test]
fn a_set_without_free_names_is_refused() {
    let set = vec![function(false, vec![self_mut()]), function(false, vec![self_mut()])];
    let taken = vec!["draw_mut_1".to_string()];
    assert_eq!(
        disambiguate(&set, &"draw".to_string(), &taken).err(),
        Some(CaptionError::Ambiguous)
    );
    let one = vec![function(false, vec![])];
    let taken = vec![
        "f".to_string(),
        "f_static".to_string(),
        "f_static_0".to_string(),
    ];
    assert_eq!(disambiguate(&one, &"f".to_string(), &taken).err(), Some(CaptionError::Ambiguous));
    assert!(is_none_taken(&vec!["a".to_string()], &vec!["b".to_string()]));
    assert!(!is_none_taken(&vec!["a".to_string(), "b".to_string()], &vec!["b".to_string()]));
    assert!(is_none_taken(&vec![], &vec!["b".to_string()]));
}
