use cpp_to_rust::cpp_type::{CppType, CppTypeBase, CppTypeIndirection};
use cpp_to_rust::crate_writer::{
    filter_ffi_items, used_ffi_functions, CppFfiItem, CppFfiSlotWrapper, RustItem,
};
use cpp_to_rust::cpp_ffi_generator::CppFfiFunction;
use cpp_to_rust::rust_info::{RustFFIFunction, RustModule};
use cpp_to_rust::rust_type::{RustPath, RustType, RustTypeIndirection};

fn void() -> CppType {
    CppType { base: CppTypeBase::Void, is_const: false, indirection: CppTypeIndirection::Direct }
}

fn ffi(name: &str) -> CppFfiItem {
    CppFfiItem::Function(CppFfiFunction {
        name: name.to_string(),
        arguments: vec![],
        return_type: void(),
        cpp_method_index: 0,
        is_late_bound: false,
    })
}

fn declared(name: &str) -> RustItem {
    RustItem::FfiFunction(RustFFIFunction {
        return_type: RustType {
            path: RustPath { parts: vec![] },
            indirection: RustTypeIndirection::Value,
            is_const: false,
        },
        path: RustPath { parts: vec!["lib".to_string(), "ffi".to_string(), name.to_string()] },
        arguments: vec![],
    })
}

fn module(name: &str) -> RustItem {
    RustItem::Module(RustModule { path: RustPath { parts: vec![name.to_string()] }, doc: None })
}

fn name_of(item: &CppFfiItem) -> String {
    match item {
        CppFfiItem::Function(f) => f.name.clone(),
        CppFfiItem::SlotWrapper(w) => format!("slot {}", w.class_name),
    }
}

#[test]
fn shim_keeps_what_the_wrapper_declares() {
    let ffi_items = vec![
        ffi("f1"),
        CppFfiItem::SlotWrapper(CppFfiSlotWrapper { class_name: "S".to_string(), arguments: vec![] }),
        ffi("f2"),
        ffi("f3"),
        ffi("f1"),
    ];
    let items = vec![declared("f3"), module("f2"), declared("f1"), declared("f3"), declared("f9")];
    assert_eq!(used_ffi_functions(&items), vec!["f3", "f1", "f9"]);
    let kept = filter_ffi_items(&ffi_items, &items);
    let names: Vec<String> = kept.iter().map(|i| name_of(i)).collect();
    assert_eq!(names, vec!["f1", "slot S", "f3", "f1"]);
    assert!(kept.iter().all(|i| !i.is_function() || name_of(i) != "f2"));
}

#[test]
fn shim_without_declarations_keeps_no_function() {
    let ffi_items = vec![
        ffi("f1"),
        CppFfiItem::SlotWrapper(CppFfiSlotWrapper { class_name: "S".to_string(), arguments: vec![] }),
    ];
    let kept = filter_ffi_items(&ffi_items, &vec![module("f1")]);
    assert_eq!(kept.len(), 1);
    assert!(!kept[0].is_function());
    assert!(filter_ffi_items(&vec![], &vec![declared("f1")]).is_empty());
    assert!(used_ffi_functions(&vec![]).is_empty());
}
