//! What a build run decides from plain values, before any tool is
//! started.

use vstd::prelude::*;
use crate::cpp_data::contains_text;
use crate::text::{
    decimal, decimal_text, equals, skip_chars, spec_starts_with, starts_with, texts_view, to_uppercase, uppercased,
};

verus! {

/// Whether the wrapper is built for debugging or for release.
#[derive(Debug, Clone, Copy, PartialEq, Eq, Structural)]
pub enum BuildProfile {
    Debug,
    Release,
}

impl BuildProfile {
    /// The profile that the build tool's profile name stands for: `debug`,
    /// `test` and `doc` build for debugging, `release` and `bench` for
    /// release, and no other name is known.
    pub open spec fn spec_from_name(name: Seq<char>) -> Option<BuildProfile> {
        if name == "debug"@ || name == "test"@ || name == "doc"@ {
            Some(BuildProfile::Debug)
        } else if name == "release"@ || name == "bench"@ {
            Some(BuildProfile::Release)
        } else {
            None
        }
    }

    /// Returns the profile that the build tool's profile name stands for,
    /// or nothing for a name that is not known.
    pub fn from_name(name: &String) -> (r: Option<BuildProfile>)
        ensures
            r == Self::spec_from_name(name@),
    {
        if equals(name, "debug") || equals(name, "test") || equals(name, "doc") {
            Some(BuildProfile::Debug)
        } else if equals(name, "release") || equals(name, "bench") {
            Some(BuildProfile::Release)
        } else {
            None
        }
    }
}

/// The search path that results when the first `n` of the paths in
/// `present` are added to `paths`: each one that the path so far does not
/// hold is added at the end.
pub open spec fn with_path_items(paths: Seq<Seq<char>>, present: Seq<Seq<char>>, n: nat) -> Seq<
    Seq<char>,
>
    decreases n,
{
    if n == 0 || n > present.len() {
        paths
    } else {
        let before = with_path_items(paths, present, (n - 1) as nat);
        if before.contains(present[n - 1]) {
            before
        } else {
            before.push(present[n - 1])
        }
    }
}

/// Puts `new_paths` in front of the paths that a search path holds
/// already. A path that is among the new ones, or that occurred before,
/// is not added again.
pub fn add_path_items(new_paths: Vec<String>, present: &Vec<String>) -> (r: Vec<String>)
    ensures
        texts_view(r@) == with_path_items(
            texts_view(new_paths@),
            texts_view(present@),
            present@.len(),
        ),
{
    let ghost first = texts_view(new_paths@);
    let ghost more = texts_view(present@);
    let mut out = new_paths;
    let mut i: usize = 0;
    while i < present.len()
        invariant
            i <= present.len(),
            more == texts_view(present@),
            texts_view(out@) == with_path_items(first, more, i as nat),
        decreases present.len() - i,
    {
        let ghost before = texts_view(out@);
        assert(more[i as int] == present@[i as int]@);
        let found = contains_text(&out, &present[i]);
        proof {
            if found {
                let k = choose|k: int| 0 <= k < out.len() && (#[trigger] out@[k])@ == present@[i as int]@;
                assert(before[k] == more[i as int]);
            } else {
                assert forall|k: int| 0 <= k < before.len() implies before[k] != more[i as int] by {
                    assert(before[k] == out@[k]@);
                }
            }
        }
        if !found {
            out.push(present[i].clone());
            assert(texts_view(out@) =~= before.push(more[i as int]));
        }
        i += 1;
    }
    out
}

/// How a native library is linked.
#[derive(Debug, Clone, Copy, PartialEq, Eq, Structural)]
pub enum RustLinkKind {
    SharedLibrary,
    Framework,
}

/// A native library that the wrapper links to.
#[derive(Debug, Clone)]
pub struct RustLinkItem {
    pub name: String,
    pub kind: RustLinkKind,
}

/// Mathematical value of a [`RustLinkItem`].
pub ghost struct RustLinkItemView {
    pub name: Seq<char>,
    pub kind: RustLinkKind,
}

impl DeepView for RustLinkItem {
    type V = RustLinkItemView;

    open spec fn deep_view(&self) -> RustLinkItemView {
        RustLinkItemView { name: self.name@, kind: self.kind }
    }
}

/// True where a library of this name is linked: with the compiler of
/// Microsoft the library `GL` is not.
pub open spec fn is_linked(name: Seq<char>, is_msvc: bool) -> bool {
    !(is_msvc && name == "GL"@)
}

/// The shared libraries among the first `n` additional libraries that are
/// linked.
pub open spec fn extra_link_items(extra_libs: Seq<String>, is_msvc: bool, n: nat) -> Seq<
    RustLinkItemView,
>
    decreases n,
{
    if n == 0 || n > extra_libs.len() {
        Seq::empty()
    } else {
        let before = extra_link_items(extra_libs, is_msvc, (n - 1) as nat);
        if is_linked(extra_libs[n - 1]@, is_msvc) {
            before.push(
                RustLinkItemView { name: extra_libs[n - 1]@, kind: RustLinkKind::SharedLibrary },
            )
        } else {
            before
        }
    }
}

/// What the wrapper of the library `lib_name` links to. A library whose
/// name begins with `Qt5` and that is installed as a framework is linked
/// as the framework `Qt` and the rest of its name. Every other library is
/// linked as a shared library, together with its additional libraries.
pub open spec fn spec_link_items(
    lib_name: Seq<char>,
    extra_libs: Seq<String>,
    is_msvc: bool,
    is_framework: bool,
) -> Seq<RustLinkItemView> {
    if is_framework && spec_starts_with(lib_name, "Qt5"@) {
        seq![RustLinkItemView { name: "Qt"@ + lib_name.skip(3), kind: RustLinkKind::Framework }]
    } else {
        seq![RustLinkItemView { name: lib_name, kind: RustLinkKind::SharedLibrary }]
            + extra_link_items(extra_libs, is_msvc, extra_libs.len())
    }
}

/// Chooses what the wrapper of the library `lib_name` links to.
pub fn link_items(lib_name: &String, extra_libs: &Vec<String>, is_msvc: bool, is_framework: bool) -> (r:
    Vec<RustLinkItem>)
    ensures
        r.deep_view() == spec_link_items(lib_name@, extra_libs@, is_msvc, is_framework),
{
    let mut out: Vec<RustLinkItem> = Vec::new();
    if is_framework && starts_with(lib_name, "Qt5") {
        proof {
            reveal_strlit("Qt5");
        }
        let mut name = String::from_str("Qt");
        let rest = skip_chars(lib_name, 3);
        name.append(rest.as_str());
        out.push(RustLinkItem { name, kind: RustLinkKind::Framework });
        assert(out.deep_view() =~= spec_link_items(lib_name@, extra_libs@, is_msvc, is_framework));
        return out;
    }
    out.push(RustLinkItem { name: lib_name.clone(), kind: RustLinkKind::SharedLibrary });
    let ghost first = out.deep_view();
    assert(first =~= seq![
        RustLinkItemView { name: lib_name@, kind: RustLinkKind::SharedLibrary },
    ]);
    let mut i: usize = 0;
    assert(out.deep_view() =~= first + extra_link_items(extra_libs@, is_msvc, 0));
    while i < extra_libs.len()
        invariant
            i <= extra_libs.len(),
            out.deep_view() == first + extra_link_items(extra_libs@, is_msvc, i as nat),
        decreases extra_libs.len() - i,
    {
        let ghost before = out.deep_view();
        if !(is_msvc && equals(&extra_libs[i], "GL")) {
            let item = RustLinkItem { name: extra_libs[i].clone(), kind: RustLinkKind::SharedLibrary };
            out.push(item);
            assert(out.deep_view() =~= before.push(item.deep_view()));
            assert(out.deep_view() =~= first + extra_link_items(
                extra_libs@,
                is_msvc,
                (i + 1) as nat,
            ));
        }
        i += 1;
    }
    out
}

/// The marker in front of a path that may be longer than paths usually
/// are.
pub open spec fn long_path_marker() -> Seq<char> {
    "\\\\?\\"@
}

/// The path without the marker of long paths. A path that carries the
/// marker and is longer than 255 characters without it has no such form.
pub open spec fn spec_path_without_long_path(path: Seq<char>) -> Option<Seq<char>> {
    if spec_starts_with(path, long_path_marker()) {
        if path.len() - 4 > 255 {
            None
        } else {
            Some(path.skip(4))
        }
    } else {
        Some(path)
    }
}

/// Takes the marker of long paths off a path, for tools that do not
/// understand it. Returns nothing where the path is longer than such
/// tools take.
pub fn path_without_long_path(path: &String) -> (r: Option<String>)
    ensures
        r.deep_view() == spec_path_without_long_path(path@),
{
    if starts_with(path, "\\\\?\\") {
        proof {
            reveal_strlit("\\\\?\\");
        }
        let rest = skip_chars(path, 4);
        if rest.as_str().unicode_len() > 255 {
            None
        } else {
            Some(rest)
        }
    } else {
        Some(path.clone())
    }
}

/// Returns the name of the environment variable that says where the
/// documentation data of the library `lib_name` is: the name of the
/// library in upper case, followed by `_DOC_DATA`.
pub fn doc_data_variable(lib_name: &String) -> (r: String)
    ensures
        r@ == uppercased(lib_name@) + "_DOC_DATA"@,
{
    let mut name = to_uppercase(lib_name);
    name.append("_DOC_DATA");
    name
}

/// The arguments for the tool that builds and installs the shim. Other
/// tools than that of Microsoft are told how many jobs to run at once.
pub open spec fn spec_make_arguments(is_msvc: bool, num_jobs: usize) -> Seq<Seq<char>> {
    if is_msvc {
        seq!["install"@]
    } else {
        seq!["-j"@ + decimal(num_jobs as nat), "install"@]
    }
}

/// Makes the arguments for the tool that builds and installs the shim.
pub fn make_arguments(is_msvc: bool, num_jobs: usize) -> (r: Vec<String>)
    ensures
        texts_view(r@) == spec_make_arguments(is_msvc, num_jobs),
{
    let mut out: Vec<String> = Vec::new();
    if !is_msvc {
        let mut jobs = String::from_str("-j");
        let digits = decimal_text(num_jobs);
        jobs.append(digits.as_str());
        out.push(jobs);
    }
    out.push(String::from_str("install"));
    assert(texts_view(out@) =~= spec_make_arguments(is_msvc, num_jobs));
    out
}

/// A native library and the libraries that it needs besides.
#[derive(Debug, Clone)]
pub struct CppLibSpec {
    pub name: String,
    pub extra_libs: Option<Vec<String>>,
}

/// The names among the first `n` of `names` that are linked.
pub open spec fn linked_names(names: Seq<String>, is_msvc: bool, n: nat) -> Seq<Seq<char>>
    decreases n,
{
    if n == 0 || n > names.len() {
        Seq::empty()
    } else {
        let before = linked_names(names, is_msvc, (n - 1) as nat);
        if is_linked(names[n - 1]@, is_msvc) {
            before.push(names[n - 1]@)
        } else {
            before
        }
    }
}

/// The libraries that one library brings: itself, and of its additional
/// libraries those that are linked.
pub open spec fn libs_of(lib: CppLibSpec, is_msvc: bool) -> Seq<Seq<char>> {
    seq![lib.name@] + match lib.extra_libs {
        Some(extra) => linked_names(extra@, is_msvc, extra@.len()),
        None => Seq::empty(),
    }
}

/// The libraries that the first `n` of `libs` bring, in their order.
pub open spec fn spec_cpp_libs(libs: Seq<CppLibSpec>, is_msvc: bool, n: nat) -> Seq<Seq<char>>
    decreases n,
{
    if n == 0 || n > libs.len() {
        Seq::empty()
    } else {
        spec_cpp_libs(libs, is_msvc, (n - 1) as nat) + libs_of(libs[n - 1], is_msvc)
    }
}

/// Lists the libraries that a shared shim links to: each of `libs` and
/// what it needs besides.
pub fn cpp_libs(libs: &Vec<CppLibSpec>, is_msvc: bool) -> (r: Vec<String>)
    ensures
        texts_view(r@) == spec_cpp_libs(libs@, is_msvc, libs@.len()),
{
    let mut out: Vec<String> = Vec::new();
    let mut i: usize = 0;
    assert(texts_view(out@) =~= Seq::empty());
    while i < libs.len()
        invariant
            i <= libs.len(),
            texts_view(out@) == spec_cpp_libs(libs@, is_msvc, i as nat),
        decreases libs.len() - i,
    {
        let ghost start = texts_view(out@);
        out.push(libs[i].name.clone());
        assert(texts_view(out@) =~= start + seq![libs@[i as int].name@]);
        match &libs[i].extra_libs {
            Some(extra) => {
                let mut k: usize = 0;
                assert(texts_view(out@) =~= start + (seq![libs@[i as int].name@] + linked_names(
                    extra@,
                    is_msvc,
                    0,
                )));
                while k < extra.len()
                    invariant
                        k <= extra.len(),
                        i < libs.len(),
                        libs@[i as int].extra_libs == Some(*extra),
                        texts_view(out@) == start + (seq![libs@[i as int].name@] + linked_names(
                            extra@,
                            is_msvc,
                            k as nat,
                        )),
                    decreases extra.len() - k,
                {
                    let ghost before = texts_view(out@);
                    if !(is_msvc && equals(&extra[k], "GL")) {
                        out.push(extra[k].clone());
                        assert(texts_view(out@) =~= before.push(extra@[k as int]@));
                        assert(texts_view(out@) =~= start + (seq![libs@[i as int].name@]
                            + linked_names(extra@, is_msvc, (k + 1) as nat)));
                    }
                    k += 1;
                }
            },
            None => {
                assert(texts_view(out@) =~= start + libs_of(libs@[i as int], is_msvc));
            },
        }
        i += 1;
    }
    out
}

} // verus!
