//! From the native model and its bridging functions to the model of the
//! wrapper: the mirror of each type, the receiver of each function, and
//! the function that destroys the objects of a class.

use vstd::prelude::*;
use crate::cpp_data::{CppTypeData, CppTypeDataView, CppTypeKind, CppTypeKindView};
use crate::cpp_ffi_generator::{CppFfiFunction, CppFfiFunctionView};
use crate::cpp_method::{CppMethod, CppMethodScope, CppMethodScopeView, CppMethodView};
use crate::rust_info::{
    CppPath, RustFunctionKind, RustFunctionSelfArgKind, RustStruct, RustStructKind,
    RustWrapperType, RustWrapperTypeKind,
};
use crate::text::texts_view;
use crate::rust_type::RustPath;

verus! {

/// How a native type is mirrored.
#[derive(Debug, Clone, Copy, PartialEq, Eq, Structural)]
pub enum MirrorKind {
    /// An enum is mirrored by an enum.
    Enum,
    /// A class of unknown size is mirrored by a raw handle: its objects
    /// cannot be moved.
    Immovable,
    /// A class of known size is mirrored by a type that owns storage.
    Movable,
}

/// The mirror that a native type gets.
pub open spec fn mirror_of(t: CppTypeDataView) -> MirrorKind {
    match t.kind {
        CppTypeKindView::Enum { .. } => MirrorKind::Enum,
        CppTypeKindView::Class { size, .. } => if size is Some {
            MirrorKind::Movable
        } else {
            MirrorKind::Immovable
        },
    }
}

/// Returns the mirror that a native type gets.
pub fn mirror_kind(t: &CppTypeData) -> (r: MirrorKind)
    ensures
        r == mirror_of(t.deep_view()),
{
    match &t.kind {
        CppTypeKind::Enum { .. } => MirrorKind::Enum,
        CppTypeKind::Class { size, .. } => match size {
            Some(_) => MirrorKind::Movable,
            None => MirrorKind::Immovable,
        },
    }
}

/// Declares the wrapper type of a native type: one declaration, of the
/// kind of mirror that the type gets, under the path `path`.
pub fn wrapper_type(t: &CppTypeData, path: RustPath) -> (r: RustWrapperType)
    ensures
        r.cpp_path.name@ == t.name@,
        r.cpp_path.template_arguments is None,
        r.cpp_doc is None,
        match mirror_of(t.deep_view()) {
            MirrorKind::Enum => r.kind is EnumWrapper,
            MirrorKind::Immovable => r.kind == (RustWrapperTypeKind::ImmovableClassWrapper {
                raw_type_path: path,
            }),
            MirrorKind::Movable => r.kind == (RustWrapperTypeKind::MovableClassWrapper {
                verified_type_path: path,
            }),
        },
{
    let kind = match mirror_kind(t) {
        MirrorKind::Enum => RustWrapperTypeKind::EnumWrapper,
        MirrorKind::Immovable => RustWrapperTypeKind::ImmovableClassWrapper { raw_type_path: path },
        MirrorKind::Movable => RustWrapperTypeKind::MovableClassWrapper { verified_type_path: path },
    };
    RustWrapperType {
        cpp_path: CppPath { name: t.name.clone(), template_arguments: None },
        cpp_doc: None,
        kind,
    }
}

/// The receiver of the wrapper function of a method. A free function, a
/// static method and a constructor have none; a destructor takes its
/// object by value; a constant method takes a shared reference and every
/// other method an exclusive one.
pub open spec fn receiver_of(m: CppMethodView) -> RustFunctionSelfArgKind {
    if m.scope is Global || m.is_static || m.is_constructor {
        RustFunctionSelfArgKind::NoSelf
    } else if m.is_destructor {
        RustFunctionSelfArgKind::Value
    } else if m.is_const {
        RustFunctionSelfArgKind::ConstRef
    } else {
        RustFunctionSelfArgKind::MutRef
    }
}

/// Returns the receiver of the wrapper function of a method.
pub fn receiver_kind(method: &CppMethod) -> (r: RustFunctionSelfArgKind)
    ensures
        r == receiver_of(method.deep_view()),
{
    let is_global = match &method.scope {
        CppMethodScope::Global => true,
        CppMethodScope::Class(_) => false,
    };
    if is_global || method.is_static || method.is_constructor {
        RustFunctionSelfArgKind::NoSelf
    } else if method.is_destructor {
        RustFunctionSelfArgKind::Value
    } else if method.is_const {
        RustFunctionSelfArgKind::ConstRef
    } else {
        RustFunctionSelfArgKind::MutRef
    }
}

/// True where `k` is the place of the first type named `name`.
pub open spec fn is_first_named(types: Seq<CppTypeDataView>, name: Seq<char>, k: int) -> bool {
    &&& 0 <= k < types.len()
    &&& types[k].name == name
    &&& forall|j: int| 0 <= j < k ==> (#[trigger] types[j]).name != name
}

/// Finds the type to which the wrapper function of a method belongs: the
/// first type that is named like the class of the method. The wrapper of
/// a free function, or of a method of a class that is not among the
/// types, is a free function.
pub fn owner_of(method: &CppMethod, types: &Vec<CppTypeData>) -> (r: Option<usize>)
    ensures
        match r {
            Some(k) => method.deep_view().scope is Class && is_first_named(
                types.deep_view(),
                method.deep_view().scope->Class_0,
                k as int,
            ),
            None => method.deep_view().scope is Class ==> forall|j: int|
                0 <= j < types.len() ==> (#[trigger] types.deep_view()[j]).name
                    != method.deep_view().scope->Class_0,
        },
{
    match &method.scope {
        CppMethodScope::Global => None,
        CppMethodScope::Class(class_name) => {
            let ghost ts = types.deep_view();
            let mut k: usize = 0;
            while k < types.len()
                invariant
                    k <= types.len(),
                    ts == types.deep_view(),
                    method.deep_view().scope == CppMethodScopeView::Class(class_name@),
                    forall|j: int| 0 <= j < k ==> (#[trigger] ts[j]).name != class_name@,
                decreases types.len() - k,
            {
                assert(ts[k as int] == types@[k as int].deep_view());
                if types[k].name == *class_name {
                    return Some(k);
                }
                k += 1;
            }
            None
        },
    }
}

/// True where the function bridges a destructor of the class
/// `class_name`.
pub open spec fn bridges_destructor_of(
    f: CppFfiFunctionView,
    methods: Seq<CppMethodView>,
    class_name: Seq<char>,
) -> bool {
    f.cpp_method_index < methods.len() && methods[f.cpp_method_index as int].is_destructor_of(
        class_name,
    )
}

/// Finds the function that destroys an object of the class `class_name`:
/// the first of `functions` that bridges a destructor of that class.
pub fn destructor_function(
    class_name: &String,
    methods: &Vec<CppMethod>,
    functions: &Vec<CppFfiFunction>,
) -> (r: Option<usize>)
    ensures
        match r {
            Some(k) => k < functions.len() && bridges_destructor_of(
                functions.deep_view()[k as int],
                methods.deep_view(),
                class_name@,
            ) && forall|j: int|
                0 <= j < k ==> !bridges_destructor_of(
                    #[trigger] functions.deep_view()[j],
                    methods.deep_view(),
                    class_name@,
                ),
            None => forall|j: int|
                0 <= j < functions.len() ==> !bridges_destructor_of(
                    #[trigger] functions.deep_view()[j],
                    methods.deep_view(),
                    class_name@,
                ),
        },
{
    let ghost fs = functions.deep_view();
    let ghost ms = methods.deep_view();
    let mut k: usize = 0;
    while k < functions.len()
        invariant
            k <= functions.len(),
            fs == functions.deep_view(),
            ms == methods.deep_view(),
            forall|j: int| 0 <= j < k ==> !bridges_destructor_of(#[trigger] fs[j], ms, class_name@),
        decreases functions.len() - k,
    {
        assert(fs[k as int] == functions@[k as int].deep_view());
        let at = functions[k].cpp_method_index;
        if at < methods.len() {
            assert(ms[at as int] == methods@[at as int].deep_view());
            if methods[at].is_destructor_of(class_name) {
                return Some(k);
            }
        }
        k += 1;
    }
    None
}

/// True where one of the functions bridges the method at place `i`.
pub open spec fn is_bridged(functions: Seq<CppFfiFunctionView>, i: int) -> bool {
    exists|k: int| 0 <= k < functions.len() && (#[trigger] functions[k]).cpp_method_index == i
}

/// Every method that takes a fixed number of arguments is bridged.
pub proof fn lemma_fixed_methods_are_bridged(
    methods: Seq<CppMethodView>,
    prefix: Seq<char>,
    n: nat,
    i: int,
)
    requires
        0 <= i < n <= methods.len(),
        n <= usize::MAX,
        !methods[i].allows_variable_arguments,
    ensures
        is_bridged(crate::cpp_ffi_generator::ffi_functions_of(methods, prefix, n), i),
    decreases n,
{
    let before = crate::cpp_ffi_generator::ffi_functions_of(methods, prefix, (n - 1) as nat);
    let after = crate::cpp_ffi_generator::ffi_functions_of(methods, prefix, n);
    if i < n - 1 {
        lemma_fixed_methods_are_bridged(methods, prefix, (n - 1) as nat, i);
        let k = choose|k: int| 0 <= k < before.len() && (#[trigger] before[k]).cpp_method_index == i;
        assert(after[k] == before[k]);
    } else {
        assert(after[before.len() as int].cpp_method_index == i);
    }
}

/// In a model in which every class has a destructor, the objects of every
/// class can be destroyed from the wrapper: among the functions that
/// bridge the model's methods there is one that bridges a destructor of
/// the class. This holds where no destructor takes a variable number of
/// arguments.
pub proof fn lemma_every_class_has_a_deleter(
    model: crate::cpp_data::CppDataView,
    prefix: Seq<char>,
    j: int,
)
    requires
        model.all_classes_destructible(),
        model.methods.len() <= usize::MAX,
        forall|i: int|
            0 <= i < model.methods.len() && (#[trigger] model.methods[i]).is_destructor
                ==> !model.methods[i].allows_variable_arguments,
        0 <= j < model.types.len(),
        model.types[j].is_class(),
    ensures
        exists|k: int|
            0 <= k < crate::cpp_ffi_generator::ffi_functions_of(
                model.methods,
                prefix,
                model.methods.len(),
            ).len() && bridges_destructor_of(
                #[trigger] crate::cpp_ffi_generator::ffi_functions_of(
                    model.methods,
                    prefix,
                    model.methods.len(),
                )[k],
                model.methods,
                model.types[j].name,
            ),
{
    let functions = crate::cpp_ffi_generator::ffi_functions_of(
        model.methods,
        prefix,
        model.methods.len(),
    );
    let name = model.types[j].name;
    assert(crate::cpp_data::has_destructor(model.methods, name));
    let i = choose|i: int|
        0 <= i < model.methods.len() && (#[trigger] model.methods[i]).is_destructor_of(name);
    lemma_fixed_methods_are_bridged(model.methods, prefix, model.methods.len(), i);
    let k = choose|k: int| 0 <= k < functions.len() && (#[trigger] functions[k]).cpp_method_index == i;
    assert(bridges_destructor_of(functions[k], model.methods, name));
}

/// True where `s` is the public wrapper type of the native type `t` in
/// the package `crate_name`: it stands under the name of the native type,
/// directly in the package, and is the kind of mirror that the type gets.
pub open spec fn is_wrapper_of(s: RustStruct, t: CppTypeDataView, crate_name: Seq<char>) -> bool {
    &&& s.is_public
    &&& s.rust_doc is None
    &&& texts_view(s.path.parts@) == seq![crate_name, t.name]
    &&& s.kind matches RustStructKind::WrapperType(w) && {
        &&& w.cpp_path.name@ == t.name
        &&& w.cpp_path.template_arguments is None
        &&& w.cpp_doc is None
        &&& match mirror_of(t) {
            MirrorKind::Enum => w.kind is EnumWrapper,
            MirrorKind::Immovable => w.kind matches RustWrapperTypeKind::ImmovableClassWrapper {
                raw_type_path,
            } && texts_view(raw_type_path.parts@) == texts_view(s.path.parts@),
            MirrorKind::Movable => w.kind matches RustWrapperTypeKind::MovableClassWrapper {
                verified_type_path,
            } && texts_view(verified_type_path.parts@) == texts_view(s.path.parts@),
        }
    }
}

/// Makes the path of an item that stands directly in a package.
pub fn item_path(crate_name: &String, name: &String) -> (r: RustPath)
    ensures
        texts_view(r.parts@) == seq![crate_name@, name@],
{
    let mut parts: Vec<String> = Vec::new();
    parts.push(crate_name.clone());
    parts.push(name.clone());
    assert(texts_view(parts@) =~= seq![crate_name@, name@]);
    RustPath { parts }
}

/// Declares the public wrapper type of a native type.
pub fn wrapper_struct(t: &CppTypeData, crate_name: &String) -> (r: RustStruct)
    ensures
        is_wrapper_of(r, t.deep_view(), crate_name@),
{
    let wrapper = wrapper_type(t, item_path(crate_name, &t.name));
    RustStruct {
        rust_doc: None,
        path: item_path(crate_name, &t.name),
        kind: RustStructKind::WrapperType(wrapper),
        is_public: true,
    }
}

/// Declares the wrapper types of a model: one for each native type, in
/// the order of the native types.
pub fn wrapper_structs(types: &Vec<CppTypeData>, crate_name: &String) -> (r: Vec<RustStruct>)
    ensures
        r.len() == types.len(),
        forall|i: int|
            0 <= i < r.len() ==> is_wrapper_of(
                #[trigger] r@[i],
                types.deep_view()[i],
                crate_name@,
            ),
{
    let ghost ts = types.deep_view();
    let mut out: Vec<RustStruct> = Vec::new();
    let mut i: usize = 0;
    while i < types.len()
        invariant
            i <= types.len(),
            ts == types.deep_view(),
            out.len() == i,
            forall|k: int| 0 <= k < i ==> is_wrapper_of(#[trigger] out@[k], ts[k], crate_name@),
        decreases types.len() - i,
    {
        assert(ts[i as int] == types@[i as int].deep_view());
        out.push(wrapper_struct(&types[i], crate_name));
        i += 1;
    }
    out
}

/// True where `k` is the place of the first function that bridges a
/// destructor of the class `class_name`.
pub open spec fn is_first_bridge(
    functions: Seq<CppFfiFunctionView>,
    methods: Seq<CppMethodView>,
    class_name: Seq<char>,
    k: int,
) -> bool {
    &&& 0 <= k < functions.len()
    &&& bridges_destructor_of(functions[k], methods, class_name)
    &&& forall|j: int| 0 <= j < k ==> !bridges_destructor_of(#[trigger] functions[j], methods, class_name)
}

/// Makes the function that gives the wrapper type of `t` its way to
/// destroy an object: it calls the first function, found under `ffi` in
/// the package, that bridges a destructor of the class. Only a class whose
/// wrapper owns storage gets one, and only where such a function is
/// among `functions`.
pub fn deletable_impl(
    t: &CppTypeData,
    methods: &Vec<CppMethod>,
    functions: &Vec<CppFfiFunction>,
    crate_name: &String,
) -> (r: Option<RustFunctionKind>)
    ensures
        r is Some <==> mirror_of(t.deep_view()) == MirrorKind::Movable && exists|k: int|
            0 <= k < functions.len() && bridges_destructor_of(
                #[trigger] functions.deep_view()[k],
                methods.deep_view(),
                t.name@,
            ),
        r matches Some(kind) ==> kind matches RustFunctionKind::CppDeletableImpl { deleter }
            && exists|k: int|
            #[trigger] is_first_bridge(functions.deep_view(), methods.deep_view(), t.name@, k)
                && texts_view(deleter.parts@) == seq![crate_name@, "ffi"@, functions@[k].name@],
{
    match mirror_kind(t) {
        MirrorKind::Movable => match destructor_function(&t.name, methods, functions) {
            Some(k) => {
                let mut parts: Vec<String> = Vec::new();
                parts.push(crate_name.clone());
                parts.push(String::from_str("ffi"));
                parts.push(functions[k].name.clone());
                assert(texts_view(parts@) =~= seq![crate_name@, "ffi"@, functions@[k as int].name@]);
                assert(is_first_bridge(
                    functions.deep_view(),
                    methods.deep_view(),
                    t.name@,
                    k as int,
                ));
                Some(RustFunctionKind::CppDeletableImpl { deleter: RustPath { parts } })
            },
            None => None,
        },
        _ => None,
    }
}

} // verus!
