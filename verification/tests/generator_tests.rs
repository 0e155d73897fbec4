use cpp_to_rust::cpp_data::{CppData, CppTypeData, CppTypeKind};
use cpp_to_rust::cpp_ffi_generator::{
    ffi_function_name, generate_ffi_functions, to_ffi_function, to_ffi_type, CppFfiError,
};
use cpp_to_rust::cpp_method::{
    CppFunctionArgument, CppMethod, CppMethodScope, CppTypeOrigin, CppVisibility,
};
use cpp_to_rust::cpp_type::{CppType, CppTypeBase, CppTypeIndirection};
use cpp_to_rust::rust_generator::{
    deletable_impl, destructor_function, mirror_kind, owner_of, receiver_kind, wrapper_struct,
    wrapper_structs, wrapper_type, MirrorKind,
};
use cpp_to_rust::rust_info::{
    RustFunctionKind, RustFunctionSelfArgKind, RustStructKind, RustWrapperTypeKind,
};
use cpp_to_rust::rust_type::RustPath;

fn builtin(name: &str) -> CppType {
    CppType {
        base: CppTypeBase::BuiltIn { name: name.to_string() },
        is_const: false,
        indirection: CppTypeIndirection::Direct,
    }
}

fn class_value(name: &str) -> CppType {
    CppType {
        base: CppTypeBase::Class { name: name.to_string(), template_arguments: None },
        is_const: false,
        indirection: CppTypeIndirection::Direct,
    }
}

fn is_class_named(t: &CppType, expected: &str) -> bool {
    matches!(&t.base, CppTypeBase::Class { name, .. } if name == expected)
}

fn class(name: &str, size: Option<i32>) -> CppTypeData {
    CppTypeData {
        name: name.to_string(),
        header: format!("{}.h", name.to_lowercase()),
        kind: CppTypeKind::Class { size, bases: vec![], fields: vec![], template_arguments: None },
    }
}

fn method(name: &str, class_name: Option<&str>, arguments: Vec<(&str, CppType)>) -> CppMethod {
    CppMethod {
        name: name.to_string(),
        scope: match class_name {
            Some(c) => CppMethodScope::Class(c.to_string()),
            None => CppMethodScope::Global,
        },
        is_virtual: false,
        is_pure_virtual: false,
        is_const: false,
        is_static: false,
        visibility: CppVisibility::Public,
        is_signal: false,
        return_type: None,
        is_constructor: false,
        is_destructor: false,
        operator: None,
        conversion_operator: None,
        is_variable: false,
        arguments: arguments
            .into_iter()
            .map(|(n, t)| CppFunctionArgument {
                name: n.to_string(),
                argument_type: t,
                has_default_value: false,
            })
            .collect(),
        allows_variable_arguments: false,
        original_index: 0,
        origin: CppTypeOrigin::IncludeFile { include_file: "widget.h".to_string(), location: None },
        template_arguments: None,
    }
}

#[test]
fn widget_is_wrapped_with_resize_and_a_deleter() {
    let mut model = CppData {
        types: vec![class("Widget", Some(16))],
        methods: vec![method(
            "resize",
            Some("Widget"),
            vec![("w", builtin("int")), ("h", builtin("int"))],
        )],
        template_instantiations: vec![],
    };
    model.ensure_explicit_destructors();
    let names: Vec<String> = model.methods.iter().map(|m| m.name.clone()).collect();
    assert_eq!(names, vec!["resize", "~Widget"]);

    let bridged = generate_ffi_functions(&model.methods, &"widgets".to_string());
    assert!(bridged.skipped.is_empty());
    assert_eq!(bridged.functions.len(), 2);
    let resize = &bridged.functions[0];
    assert_eq!(resize.name, "widgets_fn0");
    assert_eq!(resize.cpp_method_index, 0);
    let argument_names: Vec<String> = resize.arguments.iter().map(|a| a.name.clone()).collect();
    assert_eq!(argument_names, vec!["this_ptr", "w", "h"]);
    assert!(is_class_named(&resize.arguments[0].argument_type, "Widget"));
    assert_eq!(resize.arguments[0].argument_type.indirection, CppTypeIndirection::Ptr);
    assert!(!resize.arguments[0].argument_type.is_const);
    assert!(matches!(resize.return_type.base, CppTypeBase::Void));
    assert_eq!(resize.return_value_index(), None);

    let path = RustPath { parts: vec!["widgets".to_string(), "Widget".to_string()] };
    let wrapper = wrapper_type(&model.types[0], path);
    assert_eq!(wrapper.cpp_path.name, "Widget");
    assert!(matches!(
        &wrapper.kind,
        RustWrapperTypeKind::MovableClassWrapper { verified_type_path }
            if verified_type_path.parts == vec!["widgets", "Widget"]
    ));
    assert_eq!(owner_of(&model.methods[0], &model.types), Some(0));
    assert_eq!(receiver_kind(&model.methods[0]), RustFunctionSelfArgKind::MutRef);

    let declared = wrapper_struct(&model.types[0], &"widgets".to_string());
    assert!(declared.is_public);
    assert_eq!(declared.path.parts, vec!["widgets", "Widget"]);
    assert!(matches!(
        &declared.kind,
        RustStructKind::WrapperType(w)
            if matches!(&w.kind, RustWrapperTypeKind::MovableClassWrapper { .. })
    ));
    let capability =
        deletable_impl(&model.types[0], &model.methods, &bridged.functions, &"widgets".to_string());
    assert!(matches!(
        capability,
        Some(RustFunctionKind::CppDeletableImpl { deleter })
            if deleter.parts == vec!["widgets", "ffi", "widgets_fn1"]
    ));

    let deleter =
        destructor_function(&"Widget".to_string(), &model.methods, &bridged.functions).unwrap();
    assert_eq!(deleter, 1);
    let bridged_method = &model.methods[bridged.functions[deleter].cpp_method_index];
    assert_eq!(bridged_method.name, "~Widget");
    assert_eq!(bridged.functions[deleter].arguments.len(), 1);
    assert_eq!(receiver_kind(bridged_method), RustFunctionSelfArgKind::Value);
}

#[test]
fn mirror_follows_kind_and_size() {
    assert_eq!(mirror_kind(&class("A", Some(4))), MirrorKind::Movable);
    assert_eq!(mirror_kind(&class("A", None)), MirrorKind::Immovable);
    let e = CppTypeData {
        name: "E".to_string(),
        header: "e.h".to_string(),
        kind: CppTypeKind::Enum { values: vec![] },
    };
    assert_eq!(mirror_kind(&e), MirrorKind::Enum);
    assert!(matches!(
        wrapper_type(&e, RustPath { parts: vec![] }).kind,
        RustWrapperTypeKind::EnumWrapper
    ));
    assert!(matches!(
        wrapper_type(&class("A", None), RustPath { parts: vec!["a".to_string()] }).kind,
        RustWrapperTypeKind::ImmovableClassWrapper { raw_type_path } if raw_type_path.parts == vec!["a"]
    ));
}

#[test]
fn variable_arguments_are_reported() {
    let mut printf = method("printf", None, vec![("format", builtin("char"))]);
    printf.allows_variable_arguments = true;
    assert_eq!(
        to_ffi_function(&printf, 0, "f".to_string()).err(),
        Some(CppFfiError::VariableArguments)
    );
    let methods = vec![method("a", None, vec![]), printf, method("b", None, vec![])];
    let bridged = generate_ffi_functions(&methods, &"lib".to_string());
    assert_eq!(bridged.skipped, vec![1]);
    let names: Vec<String> = bridged.functions.iter().map(|f| f.name.clone()).collect();
    assert_eq!(names, vec!["lib_fn0", "lib_fn2"]);
    assert_eq!(bridged.functions[1].cpp_method_index, 2);
    assert_eq!(ffi_function_name(&"qt".to_string(), 1234), "qt_fn1234");
}

#[test]
fn class_results_are_stored_by_the_caller() {
    let mut copy = method("copy", Some("Widget"), vec![("other", class_value("Widget"))]);
    copy.return_type = Some(class_value("Widget"));
    copy.is_const = true;
    let f = to_ffi_function(&copy, 7, "copy7".to_string()).unwrap();
    let names: Vec<String> = f.arguments.iter().map(|a| a.name.clone()).collect();
    assert_eq!(names, vec!["this_ptr", "other", "output"]);
    assert!(f.arguments[0].argument_type.is_const);
    assert_eq!(f.arguments[1].argument_type.indirection, CppTypeIndirection::Ptr);
    assert!(f.arguments[1].argument_type.is_const);
    assert!(f.arguments[2].is_return_value);
    assert!(!f.arguments[2].argument_type.is_const);
    assert_eq!(f.arguments[2].argument_type.indirection, CppTypeIndirection::Ptr);
    assert!(matches!(f.return_type.base, CppTypeBase::Void));
    assert_eq!(f.return_value_index(), Some(2));
    assert_eq!(f.cpp_method_index, 7);
    assert!(!f.is_late_bound);
    assert_eq!(receiver_kind(&copy), RustFunctionSelfArgKind::ConstRef);
}

#[test]
fn static_methods_and_constructors_have_no_receiver() {
    let mut create = method("create", Some("Widget"), vec![("n", builtin("int"))]);
    create.is_static = true;
    create.return_type = Some(builtin("int"));
    let f = to_ffi_function(&create, 0, "f".to_string()).unwrap();
    assert_eq!(f.arguments.len(), 1);
    assert_eq!(f.arguments[0].name, "n");
    assert!(matches!(&f.return_type.base, CppTypeBase::BuiltIn { name } if name == "int"));
    assert_eq!(receiver_kind(&create), RustFunctionSelfArgKind::NoSelf);

    let mut ctor = method("Widget", Some("Widget"), vec![]);
    ctor.is_constructor = true;
    let f = to_ffi_function(&ctor, 0, "f".to_string()).unwrap();
    assert_eq!(f.arguments.len(), 1);
    assert_eq!(f.arguments[0].name, "output");
    assert!(is_class_named(&f.arguments[0].argument_type, "Widget"));
    assert_eq!(f.return_value_index(), Some(0));
    assert_eq!(receiver_kind(&ctor), RustFunctionSelfArgKind::NoSelf);

    let free = method("qHash", None, vec![]);
    assert_eq!(to_ffi_function(&free, 0, "f".to_string()).unwrap().arguments.len(), 0);
    assert_eq!(receiver_kind(&free), RustFunctionSelfArgKind::NoSelf);
    assert_eq!(owner_of(&free, &vec![class("Widget", None)]), None);
    assert_eq!(owner_of(&ctor, &vec![class("Other", None)]), None);
    assert_eq!(owner_of(&ctor, &vec![class("Other", None), class("Widget", None)]), Some(1));
}

#[test]
fn pure_virtual_methods_are_late_bound() {
    let mut paint = method("paint", Some("Shape"), vec![]);
    paint.is_virtual = true;
    paint.is_pure_virtual = true;
    assert!(to_ffi_function(&paint, 0, "f".to_string()).unwrap().is_late_bound);
    paint.is_pure_virtual = false;
    assert!(!to_ffi_function(&paint, 0, "f".to_string()).unwrap().is_late_bound);
}

#[test]
fn references_cross_as_pointers() {
    let mut t = class_value("QString");
    t.indirection = CppTypeIndirection::Ref;
    t.is_const = true;
    let f = to_ffi_type(&t);
    assert_eq!(f.indirection, CppTypeIndirection::Ptr);
    assert!(f.is_const);
    t.indirection = CppTypeIndirection::PtrRef;
    assert_eq!(to_ffi_type(&t).indirection, CppTypeIndirection::PtrPtr);
    t.indirection = CppTypeIndirection::RValueRef;
    assert_eq!(to_ffi_type(&t).indirection, CppTypeIndirection::Ptr);
    t.indirection = CppTypeIndirection::PtrPtr;
    assert_eq!(to_ffi_type(&t).indirection, CppTypeIndirection::PtrPtr);
    let i = to_ffi_type(&builtin("int"));
    assert_eq!(i.indirection, CppTypeIndirection::Direct);
    assert!(!i.is_const);
}

#[test]
fn a_class_without_destructor_has_no_deleter() {
    let methods = vec![method("resize", Some("Widget"), vec![])];
    let bridged = generate_ffi_functions(&methods, &"w".to_string());
    assert_eq!(destructor_function(&"Widget".to_string(), &methods, &bridged.functions), None);
}

#[test]
fn only_movable_classes_get_a_deleter() {
    let mut destructor = method("~A", Some("A"), vec![]);
    destructor.is_destructor = true;
    let methods = vec![destructor];
    let bridged = generate_ffi_functions(&methods, &"lib".to_string());
    let name = "lib".to_string();
    let movable = class("A", Some(4));
    let kind = deletable_impl(&movable, &methods, &bridged.functions, &name);
    assert!(matches!(
        kind,
        Some(RustFunctionKind::CppDeletableImpl { deleter })
            if deleter.parts == vec!["lib", "ffi", "lib_fn0"]
    ));
    let immovable = class("A", None);
    assert!(deletable_impl(&immovable, &methods, &bridged.functions, &name).is_none());
    let other = class("B", Some(4));
    assert!(deletable_impl(&other, &methods, &bridged.functions, &name).is_none());
    assert!(deletable_impl(&movable, &methods, &vec![], &name).is_none());
}

#[test]
fn every_type_gets_one_wrapper() {
    let types = vec![
        class("A", Some(4)),
        class("B", None),
        CppTypeData {
            name: "E".to_string(),
            header: "e.h".to_string(),
            kind: CppTypeKind::Enum { values: vec![] },
        },
    ];
    let wrappers = wrapper_structs(&types, &"lib".to_string());
    assert_eq!(wrappers.len(), 3);
    let paths: Vec<String> = wrappers.iter().map(|w| w.path.parts.join("::")).collect();
    assert_eq!(paths, vec!["lib::A", "lib::B", "lib::E"]);
    let kinds: Vec<&str> = wrappers
        .iter()
        .map(|w| match &w.kind {
            RustStructKind::WrapperType(t) => match &t.kind {
                RustWrapperTypeKind::EnumWrapper => "enum",
                RustWrapperTypeKind::ImmovableClassWrapper { .. } => "immovable",
                RustWrapperTypeKind::MovableClassWrapper { .. } => "movable",
            },
            _ => "other",
        })
        .collect();
    assert_eq!(kinds, vec!["movable", "immovable", "enum"]);
    assert!(wrapper_structs(&vec![], &"lib".to_string()).is_empty());
}
