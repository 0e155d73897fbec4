//! Native types as they occur in signatures, fields and base lists.

use vstd::prelude::*;
use crate::duplicate::Duplicate;

verus! {

/// How a type is reached from its base: directly, or through pointers
/// and references.
#[derive(Debug, Clone, Copy, PartialEq, Eq, Structural)]
pub enum CppTypeIndirection {
    /// The value itself.
    Direct,
    Ptr,
    Ref,
    PtrRef,
    PtrPtr,
    RValueRef,
}

/// The base of a native type.
#[derive(Debug, Clone)]
pub enum CppTypeBase {
    Void,
    BuiltIn { name: String },
    Enum { name: String },
    Class { name: String, template_arguments: Option<Vec<String>> },
    TemplateParameter { index: i32 },
}

/// Mathematical value of a [`CppTypeBase`].
pub ghost enum CppTypeBaseView {
    Void,
    BuiltIn { name: Seq<char> },
    Enum { name: Seq<char> },
    Class { name: Seq<char>, template_arguments: Option<Seq<Seq<char>>> },
    TemplateParameter { index: i32 },
}

impl DeepView for CppTypeBase {
    type V = CppTypeBaseView;

    open spec fn deep_view(&self) -> CppTypeBaseView {
        match self {
            CppTypeBase::Void => CppTypeBaseView::Void,
            CppTypeBase::BuiltIn { name } => CppTypeBaseView::BuiltIn { name: name@ },
            CppTypeBase::Enum { name } => CppTypeBaseView::Enum { name: name@ },
            CppTypeBase::Class { name, template_arguments } => CppTypeBaseView::Class {
                name: name@,
                template_arguments: template_arguments.deep_view(),
            },
            CppTypeBase::TemplateParameter { index } => CppTypeBaseView::TemplateParameter {
                index: *index,
            },
        }
    }
}

impl Duplicate for CppTypeBase {
    fn duplicate(&self) -> (r: CppTypeBase) {
        match self {
            CppTypeBase::Void => CppTypeBase::Void,
            CppTypeBase::BuiltIn { name } => CppTypeBase::BuiltIn { name: name.clone() },
            CppTypeBase::Enum { name } => CppTypeBase::Enum { name: name.clone() },
            CppTypeBase::Class { name, template_arguments } => CppTypeBase::Class {
                name: name.clone(),
                template_arguments: template_arguments.duplicate(),
            },
            CppTypeBase::TemplateParameter { index } => CppTypeBase::TemplateParameter {
                index: *index,
            },
        }
    }
}

/// A native type: a base, constness and indirection.
#[derive(Debug, Clone)]
pub struct CppType {
    pub base: CppTypeBase,
    pub is_const: bool,
    pub indirection: CppTypeIndirection,
}

/// Mathematical value of a [`CppType`].
pub ghost struct CppTypeView {
    pub base: CppTypeBaseView,
    pub is_const: bool,
    pub indirection: CppTypeIndirection,
}

impl DeepView for CppType {
    type V = CppTypeView;

    open spec fn deep_view(&self) -> CppTypeView {
        CppTypeView {
            base: self.base.deep_view(),
            is_const: self.is_const,
            indirection: self.indirection,
        }
    }
}

impl Duplicate for CppType {
    fn duplicate(&self) -> (r: CppType) {
        CppType {
            base: self.base.duplicate(),
            is_const: self.is_const,
            indirection: self.indirection,
        }
    }
}

impl CppTypeView {
    /// Name of the class that this type refers to, if its base is a class.
    pub open spec fn class_name(self) -> Option<Seq<char>> {
        match self.base {
            CppTypeBaseView::Class { name, .. } => Some(name),
            _ => None,
        }
    }
}

} // verus!
