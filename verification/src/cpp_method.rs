//! Native callables: free functions and members of classes.

use vstd::prelude::*;
use crate::cpp_type::{CppType, CppTypeView};
use crate::duplicate::Duplicate;

verus! {

/// Visibility of a member of a class.
#[derive(Debug, Clone, Copy, PartialEq, Eq, Structural)]
pub enum CppVisibility {
    Public,
    Protected,
    Private,
}

/// An overloadable operator.
#[derive(Debug, Clone, Copy, PartialEq, Eq, Structural)]
pub enum CppOperator {
    Assignment,
    Addition,
    Subtraction,
    Multiplication,
    Division,
    EqualTo,
    NotEqualTo,
    LessThan,
    Indirection,
    PrefixIncrement,
    PrefixDecrement,
    Subscript,
    FunctionCall,
}

/// Where a method lives: at namespace level or inside a class.
#[derive(Debug, Clone)]
pub enum CppMethodScope {
    Global,
    Class(String),
}

/// Mathematical value of a [`CppMethodScope`].
pub ghost enum CppMethodScopeView {
    Global,
    Class(Seq<char>),
}

impl DeepView for CppMethodScope {
    type V = CppMethodScopeView;

    open spec fn deep_view(&self) -> CppMethodScopeView {
        match self {
            CppMethodScope::Global => CppMethodScopeView::Global,
            CppMethodScope::Class(name) => CppMethodScopeView::Class(name@),
        }
    }
}

impl Duplicate for CppMethodScope {
    fn duplicate(&self) -> (r: CppMethodScope) {
        match self {
            CppMethodScope::Global => CppMethodScope::Global,
            CppMethodScope::Class(name) => CppMethodScope::Class(name.clone()),
        }
    }
}

/// A position inside a header.
#[derive(Debug, Clone, Copy, PartialEq, Eq, Structural)]
pub struct CppOriginLocation {
    pub line: u32,
    pub column: u32,
}

/// Where an entity was declared.
#[derive(Debug, Clone)]
pub enum CppTypeOrigin {
    CBuiltIn,
    IncludeFile { include_file: String, location: Option<CppOriginLocation> },
    Unsupported(String),
}

/// Mathematical value of a [`CppTypeOrigin`].
pub ghost enum CppTypeOriginView {
    CBuiltIn,
    IncludeFile { include_file: Seq<char>, location: Option<CppOriginLocation> },
    Unsupported(Seq<char>),
}

impl DeepView for CppTypeOrigin {
    type V = CppTypeOriginView;

    open spec fn deep_view(&self) -> CppTypeOriginView {
        match self {
            CppTypeOrigin::CBuiltIn => CppTypeOriginView::CBuiltIn,
            CppTypeOrigin::IncludeFile { include_file, location } => CppTypeOriginView::IncludeFile {
                include_file: include_file@,
                location: *location,
            },
            CppTypeOrigin::Unsupported(text) => CppTypeOriginView::Unsupported(text@),
        }
    }
}

impl Duplicate for CppTypeOrigin {
    fn duplicate(&self) -> (r: CppTypeOrigin) {
        match self {
            CppTypeOrigin::CBuiltIn => CppTypeOrigin::CBuiltIn,
            CppTypeOrigin::IncludeFile { include_file, location } => CppTypeOrigin::IncludeFile {
                include_file: include_file.clone(),
                location: *location,
            },
            CppTypeOrigin::Unsupported(text) => CppTypeOrigin::Unsupported(text.clone()),
        }
    }
}

impl CppTypeOriginView {
    /// The declaring header, where the origin names one.
    pub open spec fn header(self) -> Option<Seq<char>> {
        match self {
            CppTypeOriginView::IncludeFile { include_file, .. } => Some(include_file),
            _ => None,
        }
    }
}

/// One argument of a native method.
#[derive(Debug, Clone)]
pub struct CppFunctionArgument {
    pub name: String,
    pub argument_type: CppType,
    pub has_default_value: bool,
}

/// Mathematical value of a [`CppFunctionArgument`].
pub ghost struct CppFunctionArgumentView {
    pub name: Seq<char>,
    pub argument_type: CppTypeView,
    pub has_default_value: bool,
}

impl DeepView for CppFunctionArgument {
    type V = CppFunctionArgumentView;

    open spec fn deep_view(&self) -> CppFunctionArgumentView {
        CppFunctionArgumentView {
            name: self.name@,
            argument_type: self.argument_type.deep_view(),
            has_default_value: self.has_default_value,
        }
    }
}

impl Duplicate for CppFunctionArgument {
    fn duplicate(&self) -> (r: CppFunctionArgument) {
        CppFunctionArgument {
            name: self.name.clone(),
            argument_type: self.argument_type.duplicate(),
            has_default_value: self.has_default_value,
        }
    }
}

/// A native method or free function.
#[derive(Debug, Clone)]
pub struct CppMethod {
    pub name: String,
    pub scope: CppMethodScope,
    pub is_virtual: bool,
    pub is_pure_virtual: bool,
    pub is_const: bool,
    pub is_static: bool,
    pub visibility: CppVisibility,
    pub is_signal: bool,
    pub return_type: Option<CppType>,
    pub is_constructor: bool,
    pub is_destructor: bool,
    pub operator: Option<CppOperator>,
    pub conversion_operator: Option<CppType>,
    pub is_variable: bool,
    pub arguments: Vec<CppFunctionArgument>,
    pub allows_variable_arguments: bool,
    pub original_index: i32,
    pub origin: CppTypeOrigin,
    pub template_arguments: Option<Vec<String>>,
}

/// Mathematical value of a [`CppMethod`].
pub ghost struct CppMethodView {
    pub name: Seq<char>,
    pub scope: CppMethodScopeView,
    pub is_virtual: bool,
    pub is_pure_virtual: bool,
    pub is_const: bool,
    pub is_static: bool,
    pub visibility: CppVisibility,
    pub is_signal: bool,
    pub return_type: Option<CppTypeView>,
    pub is_constructor: bool,
    pub is_destructor: bool,
    pub operator: Option<CppOperator>,
    pub conversion_operator: Option<CppTypeView>,
    pub is_variable: bool,
    pub arguments: Seq<CppFunctionArgumentView>,
    pub allows_variable_arguments: bool,
    pub original_index: i32,
    pub origin: CppTypeOriginView,
    pub template_arguments: Option<Seq<Seq<char>>>,
}

impl DeepView for CppMethod {
    type V = CppMethodView;

    open spec fn deep_view(&self) -> CppMethodView {
        CppMethodView {
            name: self.name@,
            scope: self.scope.deep_view(),
            is_virtual: self.is_virtual,
            is_pure_virtual: self.is_pure_virtual,
            is_const: self.is_const,
            is_static: self.is_static,
            visibility: self.visibility,
            is_signal: self.is_signal,
            return_type: self.return_type.deep_view(),
            is_constructor: self.is_constructor,
            is_destructor: self.is_destructor,
            operator: self.operator,
            conversion_operator: self.conversion_operator.deep_view(),
            is_variable: self.is_variable,
            arguments: self.arguments.deep_view(),
            allows_variable_arguments: self.allows_variable_arguments,
            original_index: self.original_index,
            origin: self.origin.deep_view(),
            template_arguments: self.template_arguments.deep_view(),
        }
    }
}

impl Duplicate for CppMethod {
    fn duplicate(&self) -> (r: CppMethod) {
        CppMethod {
            name: self.name.clone(),
            scope: self.scope.duplicate(),
            is_virtual: self.is_virtual,
            is_pure_virtual: self.is_pure_virtual,
            is_const: self.is_const,
            is_static: self.is_static,
            visibility: self.visibility,
            is_signal: self.is_signal,
            return_type: self.return_type.duplicate(),
            is_constructor: self.is_constructor,
            is_destructor: self.is_destructor,
            operator: self.operator,
            conversion_operator: self.conversion_operator.duplicate(),
            is_variable: self.is_variable,
            arguments: self.arguments.duplicate(),
            allows_variable_arguments: self.allows_variable_arguments,
            original_index: self.original_index,
            origin: self.origin.duplicate(),
            template_arguments: self.template_arguments.duplicate(),
        }
    }
}

impl CppMethodView {
    /// True if this is a destructor that belongs to the class `class_name`.
    pub open spec fn is_destructor_of(self, class_name: Seq<char>) -> bool {
        self.is_destructor && self.scope == CppMethodScopeView::Class(class_name)
    }

    /// The public, non-virtual destructor that is added to a class that
    /// declares none: named `~` followed by the class name, without
    /// arguments or return type, and attributed to the class's header.
    pub open spec fn implicit_destructor(class_name: Seq<char>, header: Seq<char>) -> CppMethodView {
        CppMethodView {
            name: seq!['~'] + class_name,
            scope: CppMethodScopeView::Class(class_name),
            is_virtual: false,
            is_pure_virtual: false,
            is_const: false,
            is_static: false,
            visibility: CppVisibility::Public,
            is_signal: false,
            return_type: None,
            is_constructor: false,
            is_destructor: true,
            operator: None,
            conversion_operator: None,
            is_variable: false,
            arguments: Seq::empty(),
            allows_variable_arguments: false,
            original_index: 1000,
            origin: CppTypeOriginView::IncludeFile { include_file: header, location: None },
            template_arguments: None,
        }
    }
}

impl CppMethod {
    /// Builds the destructor that is added to a class that declares none.
    pub fn implicit_destructor(class_name: &String, header: &String) -> (r: CppMethod)
        ensures
            r.deep_view() == CppMethodView::implicit_destructor(class_name@, header@),
    {
        let mut name = String::from_str("~");
        name.append(class_name.as_str());
        proof {
            reveal_strlit("~");
            assert("~"@ =~= seq!['~']);
        }
        let r = CppMethod {
            name,
            scope: CppMethodScope::Class(class_name.clone()),
            is_virtual: false,
            is_pure_virtual: false,
            is_const: false,
            is_static: false,
            visibility: CppVisibility::Public,
            is_signal: false,
            return_type: None,
            is_constructor: false,
            is_destructor: true,
            operator: None,
            conversion_operator: None,
            is_variable: false,
            arguments: Vec::new(),
            allows_variable_arguments: false,
            original_index: 1000,
            origin: CppTypeOrigin::IncludeFile { include_file: header.clone(), location: None },
            template_arguments: None,
        };
        assert(r.arguments.deep_view() =~= Seq::empty());
        r
    }

    /// Tells whether this is a destructor that belongs to the class
    /// `class_name`.
    pub fn is_destructor_of(&self, class_name: &String) -> (r: bool)
        ensures
            r == self.deep_view().is_destructor_of(class_name@),
    {
        if self.is_destructor {
            match &self.scope {
                CppMethodScope::Class(name) => *name == *class_name,
                CppMethodScope::Global => false,
            }
        } else {
            false
        }
    }
}

} // verus!
