//! From native methods to free functions with a stable calling
//! convention.

use vstd::prelude::*;
use crate::cpp_method::{
    CppFunctionArgumentView, CppMethod, CppMethodScope, CppMethodScopeView, CppMethodView,
};
use crate::cpp_type::{CppType, CppTypeBase, CppTypeBaseView, CppTypeIndirection, CppTypeView};
use crate::duplicate::Duplicate;

verus! {

/// One argument of a function that crosses the boundary.
#[derive(Debug, Clone)]
pub struct CppFfiFunctionArgument {
    pub name: String,
    pub argument_type: CppType,
    /// True where the argument is the storage that receives the returned
    /// object.
    pub is_return_value: bool,
}

/// Mathematical value of a [`CppFfiFunctionArgument`].
pub ghost struct CppFfiFunctionArgumentView {
    pub name: Seq<char>,
    pub argument_type: CppTypeView,
    pub is_return_value: bool,
}

impl DeepView for CppFfiFunctionArgument {
    type V = CppFfiFunctionArgumentView;

    open spec fn deep_view(&self) -> CppFfiFunctionArgumentView {
        CppFfiFunctionArgumentView {
            name: self.name@,
            argument_type: self.argument_type.deep_view(),
            is_return_value: self.is_return_value,
        }
    }
}

/// A free function with a stable calling convention that bridges one
/// native method.
#[derive(Debug, Clone)]
pub struct CppFfiFunction {
    /// Name of the function.
    pub name: String,
    pub arguments: Vec<CppFfiFunctionArgument>,
    pub return_type: CppType,
    /// Index of the native method that the function bridges.
    pub cpp_method_index: usize,
    /// True where the call goes through the native table of virtual
    /// functions.
    pub is_late_bound: bool,
}

/// Mathematical value of a [`CppFfiFunction`].
pub ghost struct CppFfiFunctionView {
    pub name: Seq<char>,
    pub arguments: Seq<CppFfiFunctionArgumentView>,
    pub return_type: CppTypeView,
    pub cpp_method_index: usize,
    pub is_late_bound: bool,
}

impl DeepView for CppFfiFunction {
    type V = CppFfiFunctionView;

    open spec fn deep_view(&self) -> CppFfiFunctionView {
        CppFfiFunctionView {
            name: self.name@,
            arguments: self.arguments.deep_view(),
            return_type: self.return_type.deep_view(),
            cpp_method_index: self.cpp_method_index,
            is_late_bound: self.is_late_bound,
        }
    }
}

/// Why a native method has no function that crosses the boundary.
#[derive(Debug, Clone, Copy, PartialEq, Eq, Structural)]
pub enum CppFfiError {
    /// The method takes a variable number of arguments.
    VariableArguments,
}

/// The type `void`.
pub open spec fn void_type() -> CppTypeView {
    CppTypeView {
        base: CppTypeBaseView::Void,
        is_const: false,
        indirection: CppTypeIndirection::Direct,
    }
}

/// True where the type is a class that is passed by value.
pub open spec fn is_class_value(t: CppTypeView) -> bool {
    t.base is Class && t.indirection == CppTypeIndirection::Direct
}

/// The type by which a value of type `t` crosses the boundary. A class
/// that is passed by value crosses as a pointer to a constant object, a
/// reference crosses as a pointer, and every other type as it is.
pub open spec fn ffi_type(t: CppTypeView) -> CppTypeView {
    match t.indirection {
        CppTypeIndirection::Direct => if t.base is Class {
            CppTypeView { base: t.base, is_const: true, indirection: CppTypeIndirection::Ptr }
        } else {
            t
        },
        CppTypeIndirection::Ref => CppTypeView { indirection: CppTypeIndirection::Ptr, ..t },
        CppTypeIndirection::RValueRef => CppTypeView { indirection: CppTypeIndirection::Ptr, ..t },
        CppTypeIndirection::PtrRef => CppTypeView { indirection: CppTypeIndirection::PtrPtr, ..t },
        _ => t,
    }
}

/// A pointer to an object of the class `class_name`.
pub open spec fn class_pointer(class_name: Seq<char>, is_const: bool) -> CppTypeView {
    CppTypeView {
        base: CppTypeBaseView::Class { name: class_name, template_arguments: None },
        is_const,
        indirection: CppTypeIndirection::Ptr,
    }
}

/// The argument through which a member function gets its object: none
/// for a free function, a static method or a constructor.
pub open spec fn receiver(m: CppMethodView) -> Seq<CppFfiFunctionArgumentView> {
    match m.scope {
        CppMethodScopeView::Class(class_name) => if m.is_static || m.is_constructor {
            Seq::empty()
        } else {
            seq![
                CppFfiFunctionArgumentView {
                    name: "this_ptr"@,
                    argument_type: class_pointer(class_name, m.is_const),
                    is_return_value: false,
                },
            ]
        },
        CppMethodScopeView::Global => Seq::empty(),
    }
}

/// The argument of the bridging function that stands for the argument `a`
/// of the method.
pub open spec fn ffi_argument(a: CppFunctionArgumentView) -> CppFfiFunctionArgumentView {
    CppFfiFunctionArgumentView {
        name: a.name,
        argument_type: ffi_type(a.argument_type),
        is_return_value: false,
    }
}

/// The type of the object that the method leaves in storage of the
/// caller: the class of a constructor, or a class that is returned by
/// value.
pub open spec fn stored_result(m: CppMethodView) -> Option<CppTypeView> {
    if m.is_constructor {
        match m.scope {
            CppMethodScopeView::Class(class_name) => Some(class_pointer(class_name, false)),
            CppMethodScopeView::Global => None,
        }
    } else {
        match m.return_type {
            Some(t) => if is_class_value(t) {
                Some(CppTypeView { base: t.base, is_const: false, indirection: CppTypeIndirection::Ptr })
            } else {
                None
            },
            None => None,
        }
    }
}

/// The argument that receives the stored result, where there is one.
pub open spec fn output_argument(m: CppMethodView) -> Seq<CppFfiFunctionArgumentView> {
    match stored_result(m) {
        Some(t) => seq![
            CppFfiFunctionArgumentView {
                name: "output"@,
                argument_type: t,
                is_return_value: true,
            },
        ],
        None => Seq::empty(),
    }
}

/// The function that bridges the method `m`, which stands at place
/// `index` of its model: the receiver first, then the method's own
/// arguments by their boundary types, then the storage of the result.
/// What is stored is not returned.
pub open spec fn ffi_function_of(m: CppMethodView, index: usize, name: Seq<char>) -> CppFfiFunctionView {
    CppFfiFunctionView {
        name,
        arguments: receiver(m) + m.arguments.map_values(
            |a: CppFunctionArgumentView| ffi_argument(a),
        ) + output_argument(m),
        return_type: if stored_result(m) is Some {
            void_type()
        } else {
            match m.return_type {
                Some(t) => ffi_type(t),
                None => void_type(),
            }
        },
        cpp_method_index: index,
        is_late_bound: m.is_pure_virtual,
    }
}

/// The place of the argument that receives the result, if the result is
/// not returned in the ordinary way.
pub open spec fn spec_return_value_index(arguments: Seq<CppFfiFunctionArgumentView>) -> Option<int>
    decreases arguments.len(),
{
    if arguments.len() == 0 {
        None
    } else {
        match spec_return_value_index(arguments.drop_last()) {
            Some(i) => Some(i),
            None => if arguments.last().is_return_value {
                Some(arguments.len() - 1)
            } else {
                None
            },
        }
    }
}

/// Makes the type `void`.
pub fn make_void() -> (r: CppType)
    ensures
        r.deep_view() == void_type(),
{
    CppType { base: CppTypeBase::Void, is_const: false, indirection: CppTypeIndirection::Direct }
}

/// Makes a pointer to an object of the class `class_name`.
pub fn make_class_pointer(class_name: &String, is_const: bool) -> (r: CppType)
    ensures
        r.deep_view() == class_pointer(class_name@, is_const),
{
    CppType {
        base: CppTypeBase::Class { name: class_name.clone(), template_arguments: None },
        is_const,
        indirection: CppTypeIndirection::Ptr,
    }
}

/// Tells whether the type is a class that is passed by value.
pub fn is_class_by_value(t: &CppType) -> (r: bool)
    ensures
        r == is_class_value(t.deep_view()),
{
    match (&t.base, t.indirection) {
        (CppTypeBase::Class { .. }, CppTypeIndirection::Direct) => true,
        _ => false,
    }
}

/// Returns the type by which a value of type `t` crosses the boundary.
pub fn to_ffi_type(t: &CppType) -> (r: CppType)
    ensures
        r.deep_view() == ffi_type(t.deep_view()),
{
    let base = t.base.duplicate();
    match t.indirection {
        CppTypeIndirection::Direct => {
            if is_class_by_value(t) {
                CppType { base, is_const: true, indirection: CppTypeIndirection::Ptr }
            } else {
                CppType { base, is_const: t.is_const, indirection: CppTypeIndirection::Direct }
            }
        },
        CppTypeIndirection::Ref => CppType {
            base,
            is_const: t.is_const,
            indirection: CppTypeIndirection::Ptr,
        },
        CppTypeIndirection::RValueRef => CppType {
            base,
            is_const: t.is_const,
            indirection: CppTypeIndirection::Ptr,
        },
        CppTypeIndirection::PtrRef => CppType {
            base,
            is_const: t.is_const,
            indirection: CppTypeIndirection::PtrPtr,
        },
        other => CppType { base, is_const: t.is_const, indirection: other },
    }
}

/// Returns the type of the object that the method leaves in storage of
/// the caller, if it leaves one.
pub fn stored_result_type(method: &CppMethod) -> (r: Option<CppType>)
    ensures
        r.deep_view() == stored_result(method.deep_view()),
{
    if method.is_constructor {
        match &method.scope {
            CppMethodScope::Class(class_name) => Some(make_class_pointer(class_name, false)),
            CppMethodScope::Global => None,
        }
    } else {
        match &method.return_type {
            Some(t) => {
                if is_class_by_value(t) {
                    Some(
                        CppType {
                            base: t.base.duplicate(),
                            is_const: false,
                            indirection: CppTypeIndirection::Ptr,
                        },
                    )
                } else {
                    None
                }
            },
            None => None,
        }
    }
}

/// Makes the function named `name` that bridges `method`, the method at
/// place `index` of its model. A method that takes a variable number of
/// arguments has no such function, and only such a method has none.
pub fn to_ffi_function(method: &CppMethod, index: usize, name: String) -> (r: Result<
    CppFfiFunction,
    CppFfiError,
>)
    ensures
        match r {
            Ok(f) => !method.allows_variable_arguments && f.deep_view() == ffi_function_of(
                method.deep_view(),
                index,
                name@,
            ),
            Err(e) => method.allows_variable_arguments && e == CppFfiError::VariableArguments,
        },
{
    if method.allows_variable_arguments {
        return Err(CppFfiError::VariableArguments);
    }
    let ghost m = method.deep_view();
    let ghost convert = |a: CppFunctionArgumentView| ffi_argument(a);
    let mut arguments: Vec<CppFfiFunctionArgument> = Vec::new();
    match &method.scope {
        CppMethodScope::Class(class_name) => {
            if !method.is_static && !method.is_constructor {
                arguments.push(
                    CppFfiFunctionArgument {
                        name: String::from_str("this_ptr"),
                        argument_type: make_class_pointer(class_name, method.is_const),
                        is_return_value: false,
                    },
                );
            }
        },
        CppMethodScope::Global => {},
    }
    assert(arguments.deep_view() =~= receiver(m));
    let mut i: usize = 0;
    assert(m.arguments.take(0).map_values(convert) =~= Seq::empty());
    while i < method.arguments.len()
        invariant
            i <= method.arguments.len(),
            m == method.deep_view(),
            convert == |a: CppFunctionArgumentView| ffi_argument(a),
            arguments.deep_view() == receiver(m) + m.arguments.take(i as int).map_values(convert),
        decreases method.arguments.len() - i,
    {
        let ghost before = arguments.deep_view();
        assert(m.arguments[i as int] == method.arguments@[i as int].deep_view());
        let a = CppFfiFunctionArgument {
            name: method.arguments[i].name.clone(),
            argument_type: to_ffi_type(&method.arguments[i].argument_type),
            is_return_value: false,
        };
        arguments.push(a);
        assert(arguments.deep_view() =~= before.push(convert(m.arguments[i as int])));
        assert(m.arguments.take(i as int + 1).map_values(convert) =~= m.arguments.take(
            i as int,
        ).map_values(convert).push(convert(m.arguments[i as int])));
        assert(arguments.deep_view() =~= receiver(m) + m.arguments.take(i as int + 1).map_values(
            convert,
        ));
        i += 1;
    }
    assert(m.arguments.take(i as int) =~= m.arguments);
    let stored = stored_result_type(method);
    let return_type = match stored {
        Some(t) => {
            let ghost before = arguments.deep_view();
            arguments.push(
                CppFfiFunctionArgument {
                    name: String::from_str("output"),
                    argument_type: t,
                    is_return_value: true,
                },
            );
            assert(arguments.deep_view() =~= before + output_argument(m));
            make_void()
        },
        None => {
            assert(arguments.deep_view() =~= arguments.deep_view() + output_argument(m));
            match &method.return_type {
                Some(t) => to_ffi_type(t),
                None => make_void(),
            }
        },
    };
    Ok(
        CppFfiFunction {
            name,
            arguments,
            return_type,
            cpp_method_index: index,
            is_late_bound: method.is_pure_virtual,
        },
    )
}

impl CppFfiFunction {
    /// Returns the place of the argument that receives the result, or
    /// nothing where the result is returned in the ordinary way.
    pub fn return_value_index(&self) -> (r: Option<usize>)
        ensures
            match r {
                Some(i) => spec_return_value_index(self.deep_view().arguments) == Some(i as int) && i
                    < self.arguments.len(),
                None => spec_return_value_index(self.deep_view().arguments) is None,
            },
    {
        let ghost args = self.deep_view().arguments;
        let mut i: usize = 0;
        assert(args.take(0).len() == 0);
        while i < self.arguments.len()
            invariant
                i <= self.arguments.len(),
                args == self.arguments.deep_view(),
                spec_return_value_index(args.take(i as int)) is None,
            decreases self.arguments.len() - i,
        {
            assert(args[i as int] == self.arguments@[i as int].deep_view());
            assert(args.take(i as int + 1).drop_last() =~= args.take(i as int));
            if self.arguments[i].is_return_value {
                proof {
                    lemma_return_value_index_stays(args, i as int + 1);
                }
                return Some(i);
            }
            i += 1;
        }
        assert(args.take(i as int) =~= args);
        None
    }
}

/// Once the first `n` arguments hold one that receives the result, more
/// arguments do not change its place.
pub proof fn lemma_return_value_index_stays(arguments: Seq<CppFfiFunctionArgumentView>, n: int)
    requires
        0 <= n <= arguments.len(),
        spec_return_value_index(arguments.take(n)) is Some,
    ensures
        spec_return_value_index(arguments) == spec_return_value_index(arguments.take(n)),
    decreases arguments.len() - n,
{
    if n < arguments.len() {
        assert(arguments.take(n + 1).drop_last() =~= arguments.take(n));
        lemma_return_value_index_stays(arguments, n + 1);
    } else {
        assert(arguments.take(n) =~= arguments);
    }
}

/// The name of the function that bridges the method at place `index`:
/// the prefix of the library, `_fn` and the place in decimal digits.
pub open spec fn spec_ffi_function_name(prefix: Seq<char>, index: usize) -> Seq<char> {
    prefix + "_fn"@ + crate::text::decimal(index as nat)
}

/// Makes the name of the function that bridges the method at place
/// `index`.
pub fn ffi_function_name(prefix: &String, index: usize) -> (r: String)
    ensures
        r@ == spec_ffi_function_name(prefix@, index),
{
    let mut name = prefix.clone();
    name.append("_fn");
    let digits = crate::text::decimal_text(index);
    name.append(digits.as_str());
    name
}

/// The functions that bridge the first `n` methods, in the order of the
/// methods. A method that takes a variable number of arguments has none.
pub open spec fn ffi_functions_of(methods: Seq<CppMethodView>, prefix: Seq<char>, n: nat) -> Seq<
    CppFfiFunctionView,
>
    decreases n,
{
    if n == 0 || n > methods.len() {
        Seq::empty()
    } else {
        let before = ffi_functions_of(methods, prefix, (n - 1) as nat);
        let m = methods[n - 1];
        if m.allows_variable_arguments {
            before
        } else {
            before.push(
                ffi_function_of(m, (n - 1) as usize, spec_ffi_function_name(prefix, (n - 1) as usize)),
            )
        }
    }
}

/// The places, among the first `n` methods, of those that take a variable
/// number of arguments.
pub open spec fn variadic_methods(methods: Seq<CppMethodView>, n: nat) -> Seq<usize>
    decreases n,
{
    if n == 0 || n > methods.len() {
        Seq::empty()
    } else {
        let before = variadic_methods(methods, (n - 1) as nat);
        if methods[n - 1].allows_variable_arguments {
            before.push((n - 1) as usize)
        } else {
            before
        }
    }
}

/// The functions that bridge the methods of a model, and the places of
/// the methods that could not be bridged.
#[derive(Debug, Clone)]
pub struct CppFfiFunctions {
    pub functions: Vec<CppFfiFunction>,
    /// Places of the methods that take a variable number of arguments.
    pub skipped: Vec<usize>,
}

/// Bridges every method that can be bridged, and reports the others.
pub fn generate_ffi_functions(methods: &Vec<CppMethod>, prefix: &String) -> (r: CppFfiFunctions)
    ensures
        r.functions.deep_view() == ffi_functions_of(
            methods.deep_view(),
            prefix@,
            methods@.len(),
        ),
        r.skipped@ == variadic_methods(methods.deep_view(), methods@.len()),
{
    let ghost ms = methods.deep_view();
    let mut functions: Vec<CppFfiFunction> = Vec::new();
    let mut skipped: Vec<usize> = Vec::new();
    let mut i: usize = 0;
    assert(functions.deep_view() =~= Seq::empty());
    while i < methods.len()
        invariant
            i <= methods.len(),
            ms == methods.deep_view(),
            functions.deep_view() == ffi_functions_of(ms, prefix@, i as nat),
            skipped@ == variadic_methods(ms, i as nat),
        decreases methods.len() - i,
    {
        assert(ms[i as int] == methods@[i as int].deep_view());
        let ghost before = functions.deep_view();
        match to_ffi_function(&methods[i], i, ffi_function_name(prefix, i)) {
            Ok(f) => {
                functions.push(f);
                assert(functions.deep_view() =~= before.push(f.deep_view()));
            },
            Err(_) => {
                skipped.push(i);
            },
        }
        i += 1;
    }
    CppFfiFunctions { functions, skipped }
}

} // verus!
