//! Names for wrapper functions that share a name: each gets a caption,
//! made by the first strategy under which no two names are equal and none
//! is taken in the scope.

use vstd::prelude::*;
use crate::rust_info::{
    RustFunction, RustFunctionArgument, RustFunctionCaptionStrategy, RustFunctionSelfArgKind,
};
use crate::text::{decimal, decimal_text, join, joined, texts_view};

verus! {

/// The word that stands for a kind of receiver.
pub open spec fn self_word(kind: RustFunctionSelfArgKind) -> Seq<char> {
    match kind {
        RustFunctionSelfArgKind::NoSelf => "static"@,
        RustFunctionSelfArgKind::ConstRef => "const"@,
        RustFunctionSelfArgKind::MutRef => "mut"@,
        RustFunctionSelfArgKind::Value => "value"@,
    }
}

/// The arguments of `f` without its receiver.
pub open spec fn other_arguments(f: &RustFunction) -> Seq<RustFunctionArgument> {
    if f.spec_self_arg_kind() == RustFunctionSelfArgKind::NoSelf {
        f.arguments@
    } else {
        f.arguments@.skip(1)
    }
}

/// The words of the caption that `strategy` gives to `f`, the function at
/// place `index` among those that share its name.
pub open spec fn spec_caption_words(
    f: &RustFunction,
    index: nat,
    strategy: RustFunctionCaptionStrategy,
) -> Seq<Seq<char>> {
    let own = self_word(f.spec_self_arg_kind());
    match strategy {
        RustFunctionCaptionStrategy::SelfOnly => seq![own],
        RustFunctionCaptionStrategy::UnsafeOnly => if f.is_unsafe {
            seq!["unsafe"@]
        } else {
            Seq::empty()
        },
        RustFunctionCaptionStrategy::SelfAndArgTypes => seq![own] + other_arguments(f).map_values(
            |a: RustFunctionArgument| a.argument_type.rust_api_type.spec_caption(),
        ),
        RustFunctionCaptionStrategy::SelfAndArgNames => seq![own] + other_arguments(f).map_values(
            |a: RustFunctionArgument| a.name@,
        ),
        RustFunctionCaptionStrategy::SelfAndIndex => seq![own, decimal(index)],
    }
}

/// The name with its caption: the words follow the name, each after an
/// underscore. Without words the name stays as it is.
pub open spec fn spec_captioned_name(base: Seq<char>, words: Seq<Seq<char>>) -> Seq<char> {
    if words.len() == 0 {
        base
    } else {
        base + "_"@ + joined(words, "_"@)
    }
}

/// The names that `strategy` gives to the functions, in their order.
pub open spec fn spec_names_under(
    functions: Seq<RustFunction>,
    base: Seq<char>,
    strategy: RustFunctionCaptionStrategy,
) -> Seq<Seq<char>> {
    Seq::new(
        functions.len(),
        |i: int| spec_captioned_name(base, spec_caption_words(&functions[i], i as nat, strategy)),
    )
}

/// True where no two of `names` are equal.
pub open spec fn all_different(names: Seq<Seq<char>>) -> bool {
    forall|i: int, j: int| 0 <= i < j < names.len() ==> names[i] != names[j]
}

/// True where none of `names` is among the names that are `taken`.
pub open spec fn none_taken(names: Seq<Seq<char>>, taken: Seq<Seq<char>>) -> bool {
    forall|i: int, j: int| 0 <= i < names.len() && 0 <= j < taken.len() ==> names[i] != taken[j]
}

/// True where the names can stand in a scope that holds the names
/// `taken`: no two of them are equal, and none of them is taken.
pub open spec fn unique_in_scope(names: Seq<Seq<char>>, taken: Seq<Seq<char>>) -> bool {
    all_different(names) && none_taken(names, taken)
}

/// The place in the list of strategies, from `from` on, of the first one
/// whose names can stand in the scope.
pub open spec fn first_unique_strategy(
    functions: Seq<RustFunction>,
    base: Seq<char>,
    taken: Seq<Seq<char>>,
    from: int,
) -> Option<int>
    decreases RustFunctionCaptionStrategy::spec_all().len() - from,
{
    let all = RustFunctionCaptionStrategy::spec_all();
    if from < 0 || from >= all.len() {
        None
    } else if unique_in_scope(spec_names_under(functions, base, all[from]), taken) {
        Some(from)
    } else {
        first_unique_strategy(functions, base, taken, from + 1)
    }
}

/// The names of a set of functions, and the strategy that made them:
/// none where the name needs no caption.
#[derive(Debug, Clone)]
pub struct CaptionedNames {
    pub strategy: Option<RustFunctionCaptionStrategy>,
    pub names: Vec<String>,
}

/// Why a set of functions got no names.
#[derive(Debug, Clone, Copy, PartialEq, Eq, Structural)]
pub enum CaptionError {
    /// Under every strategy two functions have the same name, or one has
    /// a name that is taken.
    Ambiguous,
}

/// Returns the word that stands for a kind of receiver.
pub fn self_word_text(kind: RustFunctionSelfArgKind) -> (r: String)
    ensures
        r@ == self_word(kind),
{
    match kind {
        RustFunctionSelfArgKind::NoSelf => String::from_str("static"),
        RustFunctionSelfArgKind::ConstRef => String::from_str("const"),
        RustFunctionSelfArgKind::MutRef => String::from_str("mut"),
        RustFunctionSelfArgKind::Value => String::from_str("value"),
    }
}

/// Makes the words of the caption that `strategy` gives to `f`, the
/// function at place `index` among those that share its name.
pub fn caption_words(f: &RustFunction, index: usize, strategy: RustFunctionCaptionStrategy) -> (r:
    Vec<String>)
    ensures
        texts_view(r@) == spec_caption_words(f, index as nat, strategy),
{
    let kind = f.self_arg_kind();
    let mut out: Vec<String> = Vec::new();
    match strategy {
        RustFunctionCaptionStrategy::UnsafeOnly => {
            if f.is_unsafe {
                out.push(String::from_str("unsafe"));
            }
            assert(texts_view(out@) =~= spec_caption_words(f, index as nat, strategy));
        },
        RustFunctionCaptionStrategy::SelfOnly => {
            out.push(self_word_text(kind));
            assert(texts_view(out@) =~= spec_caption_words(f, index as nat, strategy));
        },
        RustFunctionCaptionStrategy::SelfAndIndex => {
            out.push(self_word_text(kind));
            out.push(decimal_text(index));
            assert(texts_view(out@) =~= spec_caption_words(f, index as nat, strategy));
        },
        _ => {
            let by_type = strategy == RustFunctionCaptionStrategy::SelfAndArgTypes;
            let start: usize = if kind == RustFunctionSelfArgKind::NoSelf {
                0
            } else {
                1
            };
            let ghost others = other_arguments(f);
            let ghost word = |a: RustFunctionArgument|
                if by_type {
                    a.argument_type.rust_api_type.spec_caption()
                } else {
                    a.name@
                };
            assert(others =~= f.arguments@.skip(start as int));
            out.push(self_word_text(kind));
            let mut i: usize = start;
            while i < f.arguments.len()
                invariant
                    start <= i <= f.arguments.len(),
                    others == f.arguments@.skip(start as int),
                    word == |a: RustFunctionArgument|
                        if by_type {
                            a.argument_type.rust_api_type.spec_caption()
                        } else {
                            a.name@
                        },
                    texts_view(out@) == seq![self_word(kind)] + others.take(i - start).map_values(
                        word,
                    ),
                decreases f.arguments.len() - i,
            {
                let ghost before = texts_view(out@);
                let w = if by_type {
                    f.arguments[i].argument_type.rust_api_type.caption()
                } else {
                    f.arguments[i].name.clone()
                };
                assert(w@ == word(others[i - start]));
                out.push(w);
                assert(texts_view(out@) =~= before.push(w@));
                assert(others.take(i + 1 - start).map_values(word) =~= others.take(
                    i - start,
                ).map_values(word).push(w@));
                i += 1;
            }
            assert(others.take(i - start) =~= others);
            if by_type {
                assert(others.map_values(word) =~= others.map_values(
                    |a: RustFunctionArgument| a.argument_type.rust_api_type.spec_caption(),
                ));
            } else {
                assert(others.map_values(word) =~= others.map_values(
                    |a: RustFunctionArgument| a.name@,
                ));
            }
        },
    }
    out
}

/// Puts the words of a caption behind a name.
pub fn captioned_name(base: &String, words: &Vec<String>) -> (r: String)
    ensures
        r@ == spec_captioned_name(base@, texts_view(words@)),
{
    let mut out = base.clone();
    if words.len() > 0 {
        out.append("_");
        let tail = join(words, "_");
        out.append(tail.as_str());
    }
    out
}

/// Makes the names that `strategy` gives to the functions.
pub fn names_under(
    functions: &Vec<RustFunction>,
    base: &String,
    strategy: RustFunctionCaptionStrategy,
) -> (r: Vec<String>)
    ensures
        texts_view(r@) == spec_names_under(functions@, base@, strategy),
{
    let mut out: Vec<String> = Vec::new();
    let mut i: usize = 0;
    while i < functions.len()
        invariant
            i <= functions.len(),
            out.len() == i,
            forall|k: int|
                0 <= k < i ==> (#[trigger] out@[k])@ == spec_captioned_name(
                    base@,
                    spec_caption_words(&functions@[k], k as nat, strategy),
                ),
        decreases functions.len() - i,
    {
        let words = caption_words(&functions[i], i, strategy);
        out.push(captioned_name(base, &words));
        i += 1;
    }
    assert(texts_view(out@) =~= spec_names_under(functions@, base@, strategy));
    out
}

/// Tells whether no two of `names` are equal.
pub fn all_distinct(names: &Vec<String>) -> (r: bool)
    ensures
        r == all_different(texts_view(names@)),
{
    let ghost view = texts_view(names@);
    let mut j: usize = 0;
    while j < names.len()
        invariant
            j <= names.len(),
            view == texts_view(names@),
            forall|a: int, b: int| 0 <= a < b < j ==> view[a] != view[b],
        decreases names.len() - j,
    {
        let mut i: usize = 0;
        while i < j
            invariant
                i <= j < names.len(),
                view == texts_view(names@),
                forall|a: int| 0 <= a < i ==> view[a] != view[j as int],
            decreases j - i,
        {
            if names[i] == names[j] {
                assert(view[i as int] == view[j as int]);
                return false;
            }
            i += 1;
        }
        j += 1;
    }
    true
}

/// Tells whether none of `names` is among the names that are `taken`.
pub fn is_none_taken(names: &Vec<String>, taken: &Vec<String>) -> (r: bool)
    ensures
        r == none_taken(texts_view(names@), texts_view(taken@)),
{
    let ghost ns = texts_view(names@);
    let ghost ts = texts_view(taken@);
    let mut i: usize = 0;
    while i < names.len()
        invariant
            i <= names.len(),
            ns == texts_view(names@),
            ts == texts_view(taken@),
            forall|a: int, b: int| 0 <= a < i && 0 <= b < ts.len() ==> ns[a] != ts[b],
        decreases names.len() - i,
    {
        let mut j: usize = 0;
        while j < taken.len()
            invariant
                i < names.len(),
                j <= taken.len(),
                ns == texts_view(names@),
                ts == texts_view(taken@),
                forall|b: int| 0 <= b < j ==> ns[i as int] != ts[b],
            decreases taken.len() - j,
        {
            if names[i] == taken[j] {
                assert(ns[i as int] == ts[j as int]);
                return false;
            }
            j += 1;
        }
        i += 1;
    }
    true
}

/// Gives each function of a set that shares the name `base` a name of its
/// own, in a scope that holds the names `taken` already. A single
/// function keeps the name where the name is free. Otherwise the
/// strategies are tried in their order of priority, and the first one
/// under which no two names are equal and none is taken makes the names.
/// Where no strategy does, the set gets no names at all.
pub fn disambiguate(functions: &Vec<RustFunction>, base: &String, taken: &Vec<String>) -> (r: Result<
    CaptionedNames,
    CaptionError,
>)
    ensures
        match r {
            Ok(c) => {
                &&& c.names.len() == functions.len()
                &&& unique_in_scope(texts_view(c.names@), texts_view(taken@))
                &&& c.strategy is None <==> functions.len() == 0 || (functions.len() == 1
                    && !texts_view(taken@).contains(base@))
                &&& c.strategy is None ==> forall|i: int|
                    0 <= i < c.names.len() ==> (#[trigger] c.names@[i])@ == base@
                &&& c.strategy is Some ==> {
                    let at = first_unique_strategy(functions@, base@, texts_view(taken@), 0);
                    &&& at is Some
                    &&& c.strategy == Some(RustFunctionCaptionStrategy::spec_all()[at.unwrap()])
                    &&& texts_view(c.names@) == spec_names_under(
                        functions@,
                        base@,
                        RustFunctionCaptionStrategy::spec_all()[at.unwrap()],
                    )
                }
            },
            Err(e) => !(functions.len() == 0 || (functions.len() == 1 && !texts_view(
                taken@,
            ).contains(base@))) && first_unique_strategy(
                functions@,
                base@,
                texts_view(taken@),
                0,
            ) is None,
        },
{
    let ghost ts = texts_view(taken@);
    if functions.len() == 0 {
        return Ok(CaptionedNames { strategy: None, names: Vec::new() });
    }
    let base_is_taken = crate::cpp_data::contains_text(taken, base);
    proof {
        if base_is_taken {
            let k = choose|k: int| 0 <= k < taken.len() && (#[trigger] taken@[k])@ == base@;
            assert(ts[k] == base@);
        } else {
            assert forall|k: int| 0 <= k < ts.len() implies ts[k] != base@ by {
                assert(ts[k] == taken@[k]@);
            }
        }
    }
    if functions.len() == 1 && !base_is_taken {
        let mut names: Vec<String> = Vec::new();
        names.push(base.clone());
        assert(texts_view(names@) =~= seq![base@]);
        return Ok(CaptionedNames { strategy: None, names });
    }
    let strategies = RustFunctionCaptionStrategy::all();
    let mut k: usize = 0;
    while k < strategies.len()
        invariant
            k <= strategies.len(),
            ts == texts_view(taken@),
            !(functions.len() == 0 || (functions.len() == 1 && !ts.contains(base@))),
            strategies@ == RustFunctionCaptionStrategy::spec_all(),
            first_unique_strategy(functions@, base@, ts, 0) == first_unique_strategy(
                functions@,
                base@,
                ts,
                k as int,
            ),
        decreases strategies.len() - k,
    {
        let names = names_under(functions, base, strategies[k]);
        if all_distinct(&names) && is_none_taken(&names, taken) {
            proof {
                assert(texts_view(names@).len() == names@.len());
                assert(spec_names_under(functions@, base@, strategies@[k as int]).len()
                    == functions@.len());
                assert(first_unique_strategy(functions@, base@, ts, k as int) == Some(k as int));
            }
            return Ok(CaptionedNames { strategy: Some(strategies[k]), names });
        }
        k += 1;
    }
    Err(CaptionError::Ambiguous)
}

} // verus!
