//! What the writer of an output unit decides before anything is written:
//! which functions of the native shim are kept, how the shim and its
//! header are called, and what the header includes.

use vstd::prelude::*;
use crate::cpp_data::{contains_text, lemma_filter_step};
use crate::cpp_type::CppType;
use crate::cpp_ffi_generator::CppFfiFunction;
use crate::rust_info::{
    RustEnumValue, RustFFIFunction, RustFunction, RustModule, RustStruct,
    TraitImpl,
};

verus! {

/// One item of the generated wrapper.
#[derive(Debug, Clone)]
pub enum RustItem {
    Module(RustModule),
    Struct(RustStruct),
    EnumValue(RustEnumValue),
    TraitImpl(TraitImpl),
    Function(RustFunction),
    FfiFunction(RustFFIFunction),
}

/// A native class that forwards a callback to the wrapper.
#[derive(Debug, Clone)]
pub struct CppFfiSlotWrapper {
    pub class_name: String,
    pub arguments: Vec<CppType>,
}

/// One item of the native shim.
#[derive(Debug, Clone)]
pub enum CppFfiItem {
    Function(CppFfiFunction),
    SlotWrapper(CppFfiSlotWrapper),
}

impl CppFfiItem {
    /// True where the item is a function.
    pub open spec fn spec_is_function(&self) -> bool {
        self is Function
    }

    /// Tells whether the item is a function.
    pub fn is_function(&self) -> (r: bool)
        ensures
            r == self.spec_is_function(),
    {
        match self {
            CppFfiItem::Function(_) => true,
            CppFfiItem::SlotWrapper(_) => false,
        }
    }
}

/// The name of the shim function that a wrapper item declares, if it
/// declares one: the last name of its path.
pub open spec fn declared_function(item: RustItem) -> Option<Seq<char>> {
    match item {
        RustItem::FfiFunction(f) => Some(f.path.spec_last()),
        _ => None,
    }
}

/// True where one of the wrapper items declares the shim function `name`.
pub open spec fn is_referenced(items: Seq<RustItem>, name: Seq<char>) -> bool {
    exists|i: int| 0 <= i < items.len() && declared_function(#[trigger] items[i]) == Some(name)
}

/// True where the shim keeps the item: every item that is no function,
/// and every function that the wrapper declares.
pub open spec fn is_kept(item: CppFfiItem, items: Seq<RustItem>) -> bool {
    match item {
        CppFfiItem::Function(f) => is_referenced(items, f.name@),
        CppFfiItem::SlotWrapper(_) => true,
    }
}

/// The items that the shim keeps, in their order.
pub open spec fn kept_items(ffi_items: Seq<CppFfiItem>, items: Seq<RustItem>) -> Seq<CppFfiItem> {
    ffi_items.filter(|item: CppFfiItem| is_kept(item, items))
}

/// Collects the names of the shim functions that the wrapper items
/// declare, each once.
pub fn used_ffi_functions(items: &Vec<RustItem>) -> (r: Vec<String>)
    ensures
        forall|name: Seq<char>|
            (exists|k: int| 0 <= k < r.len() && (#[trigger] r@[k])@ == name) <==> is_referenced(
                items@,
                name,
            ),
        forall|a: int, b: int| 0 <= a < b < r.len() ==> r@[a]@ != r@[b]@,
{
    let mut out: Vec<String> = Vec::new();
    let mut i: usize = 0;
    while i < items.len()
        invariant
            i <= items.len(),
            forall|a: int, b: int| 0 <= a < b < out.len() ==> out@[a]@ != out@[b]@,
            forall|k: int|
                0 <= k < out.len() ==> is_referenced(items@.take(i as int), (#[trigger] out@[k])@),
            forall|x: int|
                0 <= x < i ==> declared_function(#[trigger] items@[x]) is Some ==> exists|k: int|
                    0 <= k < out.len() && Some((#[trigger] out@[k])@) == declared_function(
                        items@[x],
                    ),
        decreases items.len() - i,
    {
        let ghost before = out@;
        let ghost seen = items@.take(i as int);
        let ghost now = items@.take(i as int + 1);
        assert forall|name: Seq<char>| is_referenced(seen, name) implies is_referenced(
            now,
            name,
        ) by {
            let w = choose|w: int|
                0 <= w < seen.len() && declared_function(#[trigger] seen[w]) == Some(name);
            assert(now[w] == seen[w]);
        }
        match &items[i] {
            RustItem::FfiFunction(f) => {
                let name = f.path.last();
                assert(declared_function(now[i as int]) == Some(name@));
                if !contains_text(&out, &name) {
                    out.push(name);
                    assert(forall|k: int| 0 <= k < before.len() ==> out@[k] == before[k]);
                    assert(Some(out@[out.len() - 1]@) == declared_function(items@[i as int]));
                } else {
                    let ghost k = choose|k: int| 0 <= k < out.len() && (#[trigger] out@[k])@ == name@;
                    assert(Some(out@[k]@) == declared_function(items@[i as int]));
                }
            },
            _ => {},
        }
        i += 1;
    }
    assert(items@.take(i as int) =~= items@);
    assert forall|name: Seq<char>| is_referenced(items@, name) implies exists|k: int|
        0 <= k < out.len() && (#[trigger] out@[k])@ == name by {
        let w = choose|w: int|
            0 <= w < items@.len() && declared_function(#[trigger] items@[w]) == Some(name);
        let k = choose|k: int|
            0 <= k < out.len() && Some((#[trigger] out@[k])@) == declared_function(items@[w]);
        assert(out@[k]@ == name);
    }
    out
}

/// Leaves out of the shim every function that the wrapper does not
/// declare. What is no function stays, and so does the order.
///
/// The shim then holds no function that the wrapper does not refer to,
/// and every function that it refers to.
pub fn filter_ffi_items<'a>(ffi_items: &'a Vec<CppFfiItem>, items: &Vec<RustItem>) -> (r: Vec<
    &'a CppFfiItem,
>)
    ensures
        r@.map_values(|p: &CppFfiItem| *p) == kept_items(ffi_items@, items@),
        forall|k: int|
            0 <= k < r.len() ==> ffi_items@.contains(*(#[trigger] r@[k])) && is_kept(
                *r@[k],
                items@,
            ),
        forall|i: int|
            0 <= i < ffi_items.len() && is_kept(#[trigger] ffi_items@[i], items@)
                ==> exists|k: int| 0 <= k < r.len() && *(#[trigger] r@[k]) == ffi_items@[i],
{
    let used = used_ffi_functions(items);
    let ghost keep = |item: CppFfiItem| is_kept(item, items@);
    let mut out: Vec<&'a CppFfiItem> = Vec::new();
    let mut i: usize = 0;
    proof {
        lemma_filter_step(ffi_items@, keep, 0);
        assert(out@.map_values(|p: &CppFfiItem| *p) =~= Seq::empty());
    }
    while i < ffi_items.len()
        invariant
            i <= ffi_items.len(),
            keep == |item: CppFfiItem| is_kept(item, items@),
            forall|name: Seq<char>|
                (exists|k: int| 0 <= k < used.len() && (#[trigger] used@[k])@ == name)
                    <==> is_referenced(items@, name),
            out@.map_values(|p: &CppFfiItem| *p) == ffi_items@.take(i as int).filter(keep),
            forall|k: int|
                0 <= k < out.len() ==> ffi_items@.contains(*(#[trigger] out@[k])) && is_kept(
                    *out@[k],
                    items@,
                ),
            forall|x: int|
                0 <= x < i && is_kept(#[trigger] ffi_items@[x], items@) ==> exists|k: int|
                    0 <= k < out.len() && *(#[trigger] out@[k]) == ffi_items@[x],
        decreases ffi_items.len() - i,
    {
        proof {
            lemma_filter_step(ffi_items@, keep, i as int);
        }
        let ghost before = out@;
        let kept = match &ffi_items[i] {
            CppFfiItem::Function(f) => contains_text(&used, &f.name),
            CppFfiItem::SlotWrapper(_) => true,
        };
        assert(kept == is_kept(ffi_items@[i as int], items@));
        if kept {
            out.push(&ffi_items[i]);
            assert(out@.map_values(|p: &CppFfiItem| *p) =~= before.map_values(
                |p: &CppFfiItem| *p,
            ).push(ffi_items@[i as int]));
            assert(forall|k: int| 0 <= k < before.len() ==> out@[k] == before[k]);
            assert(*out@[out.len() - 1] == ffi_items@[i as int]);
        }
        i += 1;
    }
    assert(ffi_items@.take(i as int) =~= ffi_items@);
    out
}

/// The name of the native shim of the package `crate_name`.
pub open spec fn spec_c_lib_name(crate_name: Seq<char>) -> Seq<char> {
    crate_name + "_c"@
}

/// The name of the header that the shim shares with its sources.
pub open spec fn spec_global_header_name(c_lib_name: Seq<char>) -> Seq<char> {
    c_lib_name + "_global.h"@
}

/// Returns the name of the native shim of the package `crate_name`.
pub fn c_lib_name(crate_name: &String) -> (r: String)
    ensures
        r@ == spec_c_lib_name(crate_name@),
{
    let mut name = crate_name.clone();
    name.append("_c");
    name
}

/// Returns the name of the header that the shim shares with its sources.
pub fn global_header_name(c_lib_name: &String) -> (r: String)
    ensures
        r@ == spec_global_header_name(c_lib_name@),
{
    let mut name = c_lib_name.clone();
    name.append("_global.h");
    name
}

/// The line that includes the header `path`.
pub open spec fn include_line(path: Seq<char>) -> Seq<char> {
    "#include \""@ + path + "\""@
}

/// The code that includes each of the headers, one line for each, in
/// their order.
pub open spec fn spec_include_directives_code(paths: Seq<String>) -> Seq<char> {
    crate::text::joined(paths.map_values(|p: String| include_line(p@)), "\n"@)
}

/// Writes the code that includes each of the headers.
pub fn include_directives_code(paths: &Vec<String>) -> (r: String)
    ensures
        r@ == spec_include_directives_code(paths@),
{
    let mut lines: Vec<String> = Vec::new();
    let mut i: usize = 0;
    while i < paths.len()
        invariant
            i <= paths.len(),
            lines.len() == i,
            forall|k: int| 0 <= k < i ==> (#[trigger] lines@[k])@ == include_line(paths@[k]@),
        decreases paths.len() - i,
    {
        let mut line = String::from_str("#include \"");
        line.append(paths[i].as_str());
        line.append("\"");
        lines.push(line);
        i += 1;
    }
    assert(crate::text::texts_view(lines@) =~= paths@.map_values(|p: String| include_line(p@)));
    crate::text::join(&lines, "\n")
}

} // verus!
