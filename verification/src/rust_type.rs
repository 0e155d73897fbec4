//! Types and paths on the wrapper side, and the layered description that
//! ties a native type to its wrapper type.

use vstd::prelude::*;
use crate::cpp_type::CppType;

verus! {

/// A path of an item on the wrapper side: the names of the modules that
/// lead to the item, and the item's own name last.
#[derive(Debug, Clone)]
pub struct RustPath {
    pub parts: Vec<String>,
}

impl RustPath {
    /// The last name of the path; nothing for an empty path.
    pub open spec fn spec_last(&self) -> Seq<char> {
        if self.parts@.len() == 0 {
            Seq::empty()
        } else {
            self.parts@[self.parts@.len() - 1]@
        }
    }

    /// Returns the last name of the path, or an empty string for a path
    /// without names.
    pub fn last(&self) -> (r: String)
        ensures
            r@ == self.spec_last(),
    {
        if self.parts.len() == 0 {
            String::new()
        } else {
            self.parts[self.parts.len() - 1].clone()
        }
    }
}

/// How a wrapper type is passed.
#[derive(Debug, Clone, Copy, PartialEq, Eq, Structural)]
pub enum RustTypeIndirection {
    /// By value.
    Value,
    /// By shared or exclusive reference.
    Ref,
    /// By raw pointer.
    Ptr,
}

/// A type on the wrapper side.
#[derive(Debug, Clone)]
pub struct RustType {
    pub path: RustPath,
    pub indirection: RustTypeIndirection,
    pub is_const: bool,
}

impl RustType {
    /// The word that stands for this type in a function's name: the last
    /// name of its path.
    pub open spec fn spec_caption(&self) -> Seq<char> {
        self.path.spec_last()
    }

    /// Returns the word that stands for this type in a function's name.
    pub fn caption(&self) -> (r: String)
        ensures
            r@ == self.spec_caption(),
    {
        self.path.last()
    }
}

/// One type at all its levels: the native type, the type that crosses
/// the boundary on the native side, the same on the wrapper side, and the
/// type of the public wrapper.
#[derive(Debug, Clone)]
pub struct CompleteType {
    pub cpp_type: CppType,
    pub cpp_ffi_type: CppType,
    pub rust_ffi_type: RustType,
    pub rust_api_type: RustType,
}

} // verus!
