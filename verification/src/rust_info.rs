//! The model of the generated wrapper: its types, functions, trait
//! implementations and modules.

use vstd::prelude::*;
use crate::cpp_ffi_generator::CppFfiFunction;
use crate::cpp_type::CppType;
use crate::rust_type::{CompleteType, RustPath, RustType, RustTypeIndirection};

verus! {

/// Name and template arguments of a native type.
#[derive(Debug, Clone)]
pub struct CppPath {
    pub name: String,
    pub template_arguments: Option<Vec<CppType>>,
}

/// Documentation of a native type.
#[derive(Debug, Clone)]
pub struct CppTypeDoc {
    /// HTML content
    pub html: String,
    /// Absolute URL of the page the content comes from
    pub url: String,
}

/// Documentation of a native function.
#[derive(Debug, Clone)]
pub struct CppFunctionDoc {
    /// Declaration as the documentation shows it
    pub declaration: String,
    /// HTML content
    pub html: String,
    /// Absolute URL of the page the content comes from
    pub url: String,
}

/// One variant of a wrapper enum
#[derive(Debug, Clone)]
pub struct RustEnumValue {
    /// Identifier
    pub name: String,
    /// Corresponding value
    pub value: i64,
    /// Documentation of corresponding native variants
    pub cpp_doc: CppEnumValueDoc,
}

/// Native documentation data for a enum variant
#[derive(Debug, Clone)]
pub struct CppEnumValueDoc {
    /// Native name of the variant
    pub variant_name: String,
    /// HTML content
    pub doc: Option<String>,
}

/// Information about a slot wrapper on the wrapper side
#[derive(Debug, Clone)]
pub struct RustQtSlotWrapper {
    /// Argument types of the slot
    pub arguments: Vec<CompleteType>,
    /// Identifier of the slot for connecting
    pub receiver_id: String,
    /// Name of the callback function of this wrapper
    pub callback_path: RustPath,
}

/// How a native type is mirrored.
#[derive(Debug, Clone)]
pub enum RustWrapperTypeKind {
    /// Mirror of an enum.
    EnumWrapper,
    /// Mirror of a class whose instances cannot be moved: it gives a raw
    /// handle only.
    ImmovableClassWrapper { raw_type_path: RustPath },
    /// Mirror of a class of known size: it owns storage.
    MovableClassWrapper { verified_type_path: RustPath },
}

/// The mirror of one native type.
#[derive(Debug, Clone)]
pub struct RustWrapperType {
    /// Full name and template arguments of corresponding native type (class or enum).
    pub cpp_path: CppPath,
    /// Native documentation for this type
    pub cpp_doc: Option<CppTypeDoc>,
    pub kind: RustWrapperTypeKind,
}

/// Information about a wrapper type
#[derive(Debug, Clone)]
pub enum RustStructKind {
    WrapperType(RustWrapperType),
    QtSlotWrapper(RustQtSlotWrapper),
    SignalsOrSlots { target_path: RustPath },
}

/// Exported information about a wrapper type
#[derive(Debug, Clone)]
pub struct RustStruct {
    /// Additional documentation content that will appear before native
    /// documentation or any other automatically generated content.
    pub rust_doc: Option<String>,
    pub path: RustPath,
    /// Kind of the type and additional information.
    pub kind: RustStructKind,
    /// Indicates whether this type is public
    pub is_public: bool,
}

/// Information for generating documentation for a method
/// or an item of information for an overloaded method.
#[derive(Debug, Clone)]
pub struct RustFunctionDoc {
    /// Content that will appear before documentation for variants.
    pub common_doc: Option<String>,
    /// Documentation of the corresponding native method.
    pub doc: Option<CppFunctionDoc>,
    /// Code containing declaration of the corresponding native method.
    pub cpp_fn: String,
}

/// Location of a wrapper function.
#[derive(Debug, Clone)]
pub enum RustFunctionScope {
    /// Inside `impl T {}`, where `T` is `target_type`.
    Impl { target_type: RustType },
    /// Inside a trait implementation.
    TraitImpl,
    /// A free function.
    Free,
}

/// Information about a wrapper function's argument.
#[derive(Debug, Clone)]
pub struct RustFunctionArgument {
    /// Native and wrapper types corresponding to this argument at all levels.
    pub argument_type: CompleteType,
    /// Argument name.
    pub name: String,
    /// Index of the corresponding argument of the function that crosses
    /// the boundary.
    pub ffi_index: usize,
}

/// Type of a receiver in the connection system.
#[derive(Debug, Clone, Copy, PartialEq, Eq, Structural)]
pub enum RustQtReceiverType {
    Signal,
    Slot,
}

/// What a wrapper function does.
#[derive(Debug, Clone)]
pub enum RustFunctionKind {
    FfiWrapper {
        /// Function corresponding to this variant.
        cpp_ffi_method: CppFfiFunction,
        /// Index of the argument used for acquiring the return value,
        /// if any. `None` if the return value is passed normally.
        return_type_ffi_index: Option<usize>,
    },
    CppDeletableImpl { deleter: RustPath },
    SignalOrSlotGetter {
        /// Name of the type.
        type_path: RustPath,
        /// Native name of the signal or slot
        original_method_name: String,
        /// Type of the receiver.
        receiver_type: RustQtReceiverType,
        /// Identifier of the signal or slot for connecting.
        receiver_id: String,
        /// Types or arguments.
        arguments: Vec<RustType>,
    },
}

/// Information about a public wrapper function.
#[derive(Debug, Clone)]
pub struct RustFunction {
    /// Location of the function.
    pub scope: RustFunctionScope,
    /// True if the function is `unsafe`.
    pub is_unsafe: bool,
    /// Full name of the function.
    pub path: RustPath,
    /// List of arguments. The receiver, where there is one, comes first
    /// and is called `self`.
    pub arguments: Vec<RustFunctionArgument>,
    /// Native and wrapper return types at all levels.
    pub return_type: CompleteType,
    /// Documentation data.
    pub doc: RustFunctionDoc,
}

/// Information about type of `self` argument of the function.
#[derive(Debug, Clone, Copy, PartialEq, Eq, Hash, Structural)]
pub enum RustFunctionSelfArgKind {
    /// No `self` argument (static method or a free function).
    NoSelf,
    /// `&self` argument.
    ConstRef,
    /// `&mut self` argument.
    MutRef,
    /// `self` argument.
    Value,
}

/// Information about an associated type value
/// within a trait implementation.
#[derive(Debug, Clone)]
pub struct TraitAssociatedType {
    /// Name of the associated type.
    pub name: String,
    /// Value of the associated type.
    pub value: RustType,
}

/// Information about a trait implementation.
#[derive(Debug, Clone)]
pub struct TraitImpl {
    /// Type the trait is implemented for.
    pub target_type: RustType,
    /// Type of the trait.
    pub trait_type: RustType,
    /// Values of associated types of the trait.
    pub associated_types: Vec<TraitAssociatedType>,
    /// Functions that implement the trait.
    pub functions: Vec<RustFunction>,
}

/// Information about a module.
#[derive(Debug, Clone)]
pub struct RustModule {
    /// Last name of the module.
    pub path: RustPath,
    /// Markdown content of documentation for this module.
    pub doc: Option<String>,
}

/// Method of generating name suffixes for disambiguating multiple
/// wrapper functions with the same name.
#[derive(Debug, Clone, Copy, PartialEq, Eq, Structural)]
pub enum RustFunctionCaptionStrategy {
    /// Only type of `self` is used.
    SelfOnly,
    /// Unsafe methods have `unsafe` suffix, and safe methods have no suffix.
    UnsafeOnly,
    /// Type of `self` and types of other arguments are used.
    SelfAndArgTypes,
    /// Type of `self` and names of other arguments are used.
    SelfAndArgNames,
    /// Type of `self` and index of method are used.
    SelfAndIndex,
}

impl RustFunctionCaptionStrategy {
    /// All strategies in priority order, most preferred first.
    pub open spec fn spec_all() -> Seq<RustFunctionCaptionStrategy> {
        seq![
            RustFunctionCaptionStrategy::SelfOnly,
            RustFunctionCaptionStrategy::UnsafeOnly,
            RustFunctionCaptionStrategy::SelfAndArgTypes,
            RustFunctionCaptionStrategy::SelfAndArgNames,
            RustFunctionCaptionStrategy::SelfAndIndex,
        ]
    }

    /// Returns list of all available strategies sorted by priority
    /// (more preferred strategies go first).
    pub fn all() -> (r: &'static [RustFunctionCaptionStrategy])
        ensures
            r@ == Self::spec_all(),
    {
        let r: &'static [RustFunctionCaptionStrategy] = &[
            RustFunctionCaptionStrategy::SelfOnly,
            RustFunctionCaptionStrategy::UnsafeOnly,
            RustFunctionCaptionStrategy::SelfAndArgTypes,
            RustFunctionCaptionStrategy::SelfAndArgNames,
            RustFunctionCaptionStrategy::SelfAndIndex,
        ];
        assert(r@ =~= Self::spec_all());
        r
    }
}

/// Information about an argument of a function that crosses the boundary.
#[derive(Debug, Clone)]
pub struct RustFFIArgument {
    /// Name of the argument.
    pub name: String,
    /// Type of the argument.
    pub argument_type: RustType,
}

/// Information about a function that crosses the boundary.
/// Name and signature of this function must be the same
/// as the corresponding function on the native side.
#[derive(Debug, Clone)]
pub struct RustFFIFunction {
    /// Return type of the function.
    pub return_type: RustType,
    /// Name of the function.
    pub path: RustPath,
    /// Arguments of the function.
    pub arguments: Vec<RustFFIArgument>,
}

impl RustFunction {
    /// The kind of receiver of the function: that of its first argument
    /// where this is called `self`, and none otherwise.
    pub open spec fn spec_self_arg_kind(&self) -> RustFunctionSelfArgKind {
        if self.arguments@.len() > 0 && self.arguments@[0].name@ == "self"@ {
            let t = self.arguments@[0].argument_type.rust_api_type;
            match t.indirection {
                RustTypeIndirection::Value => RustFunctionSelfArgKind::Value,
                _ => if t.is_const {
                    RustFunctionSelfArgKind::ConstRef
                } else {
                    RustFunctionSelfArgKind::MutRef
                },
            }
        } else {
            RustFunctionSelfArgKind::NoSelf
        }
    }

    /// Returns the kind of receiver of the function.
    pub fn self_arg_kind(&self) -> (r: RustFunctionSelfArgKind)
        ensures
            r == self.spec_self_arg_kind(),
    {
        if self.arguments.len() > 0 && crate::text::equals(&self.arguments[0].name, "self") {
            let t = &self.arguments[0].argument_type.rust_api_type;
            match t.indirection {
                RustTypeIndirection::Value => RustFunctionSelfArgKind::Value,
                _ => if t.is_const {
                    RustFunctionSelfArgKind::ConstRef
                } else {
                    RustFunctionSelfArgKind::MutRef
                },
            }
        } else {
            RustFunctionSelfArgKind::NoSelf
        }
    }
}

} // verus!
