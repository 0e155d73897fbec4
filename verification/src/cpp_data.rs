//! The model of a native library's API surface, and the passes that
//! complete it and partition it by declaring header.

use vstd::prelude::*;
use crate::cpp_method::{CppMethod, CppMethodView, CppVisibility};
use crate::cpp_type::{CppType, CppTypeView};
use crate::duplicate::Duplicate;

verus! {

/// One value of a native enum.
#[derive(Debug, Clone)]
pub struct EnumValue {
    pub name: String,
    pub value: i64,
}

/// Mathematical value of an [`EnumValue`].
pub ghost struct EnumValueView {
    pub name: Seq<char>,
    pub value: i64,
}

impl DeepView for EnumValue {
    type V = EnumValueView;

    open spec fn deep_view(&self) -> EnumValueView {
        EnumValueView { name: self.name@, value: self.value }
    }
}

impl Duplicate for EnumValue {
    fn duplicate(&self) -> (r: EnumValue) {
        EnumValue { name: self.name.clone(), value: self.value }
    }
}

/// One field of a native class.
#[derive(Debug, Clone)]
pub struct CppClassField {
    pub name: String,
    pub field_type: CppType,
    pub visibility: CppVisibility,
}

/// Mathematical value of a [`CppClassField`].
pub ghost struct CppClassFieldView {
    pub name: Seq<char>,
    pub field_type: CppTypeView,
    pub visibility: CppVisibility,
}

impl DeepView for CppClassField {
    type V = CppClassFieldView;

    open spec fn deep_view(&self) -> CppClassFieldView {
        CppClassFieldView {
            name: self.name@,
            field_type: self.field_type.deep_view(),
            visibility: self.visibility,
        }
    }
}

impl Duplicate for CppClassField {
    fn duplicate(&self) -> (r: CppClassField) {
        CppClassField {
            name: self.name.clone(),
            field_type: self.field_type.duplicate(),
            visibility: self.visibility,
        }
    }
}

/// What a native type is: an enum with its values, or a class.
#[derive(Debug, Clone)]
pub enum CppTypeKind {
    Enum { values: Vec<EnumValue> },
    Class {
        size: Option<i32>,
        bases: Vec<CppType>,
        fields: Vec<CppClassField>,
        template_arguments: Option<Vec<String>>,
    },
}

/// Mathematical value of a [`CppTypeKind`].
pub ghost enum CppTypeKindView {
    Enum { values: Seq<EnumValueView> },
    Class {
        size: Option<i32>,
        bases: Seq<CppTypeView>,
        fields: Seq<CppClassFieldView>,
        template_arguments: Option<Seq<Seq<char>>>,
    },
}

impl DeepView for CppTypeKind {
    type V = CppTypeKindView;

    open spec fn deep_view(&self) -> CppTypeKindView {
        match self {
            CppTypeKind::Enum { values } => CppTypeKindView::Enum { values: values.deep_view() },
            CppTypeKind::Class { size, bases, fields, template_arguments } => CppTypeKindView::Class {
                size: *size,
                bases: bases.deep_view(),
                fields: fields.deep_view(),
                template_arguments: template_arguments.deep_view(),
            },
        }
    }
}

impl Duplicate for CppTypeKind {
    fn duplicate(&self) -> (r: CppTypeKind) {
        match self {
            CppTypeKind::Enum { values } => CppTypeKind::Enum { values: values.duplicate() },
            CppTypeKind::Class { size, bases, fields, template_arguments } => CppTypeKind::Class {
                size: *size,
                bases: bases.duplicate(),
                fields: fields.duplicate(),
                template_arguments: template_arguments.duplicate(),
            },
        }
    }
}

/// A native type: its name, the header that declares it, and its kind.
#[derive(Debug, Clone)]
pub struct CppTypeData {
    pub name: String,
    pub header: String,
    pub kind: CppTypeKind,
}

/// Mathematical value of a [`CppTypeData`].
pub ghost struct CppTypeDataView {
    pub name: Seq<char>,
    pub header: Seq<char>,
    pub kind: CppTypeKindView,
}

impl DeepView for CppTypeData {
    type V = CppTypeDataView;

    open spec fn deep_view(&self) -> CppTypeDataView {
        CppTypeDataView { name: self.name@, header: self.header@, kind: self.kind.deep_view() }
    }
}

impl Duplicate for CppTypeData {
    fn duplicate(&self) -> (r: CppTypeData) {
        CppTypeData {
            name: self.name.clone(),
            header: self.header.clone(),
            kind: self.kind.duplicate(),
        }
    }
}

impl CppTypeDataView {
    /// True where the type is a class.
    pub open spec fn is_class(self) -> bool {
        self.kind is Class
    }

    /// The direct bases of a class; empty for an enum.
    pub open spec fn bases(self) -> Seq<CppTypeView> {
        match self.kind {
            CppTypeKindView::Class { bases, .. } => bases,
            CppTypeKindView::Enum { .. } => Seq::empty(),
        }
    }

    /// True where one of the direct bases is the class `class_name`.
    pub open spec fn inherits(self, class_name: Seq<char>) -> bool {
        exists|i: int|
            0 <= i < self.bases().len() && (#[trigger] self.bases()[i]).class_name() == Some(
                class_name,
            )
    }
}

impl CppTypeData {
    /// Checks if the type is a class type.
    pub fn is_class(&self) -> (r: bool)
        ensures
            r == self.deep_view().is_class(),
    {
        match self.kind {
            CppTypeKind::Class { .. } => true,
            _ => false,
        }
    }

    /// Checks if the type is a class that lists `class_name` among its
    /// direct bases.
    pub fn inherits(&self, class_name: &String) -> (r: bool)
        ensures
            r == self.deep_view().inherits(class_name@),
    {
        match &self.kind {
            CppTypeKind::Class { bases, .. } => {
                let ghost view = self.deep_view().bases();
                assert(view == bases.deep_view());
                let mut i: usize = 0;
                while i < bases.len()
                    invariant
                        i <= bases.len(),
                        view == bases.deep_view(),
                        view == self.deep_view().bases(),
                        forall|k: int| 0 <= k < i ==> (#[trigger] view[k]).class_name() != Some(class_name@),
                    decreases bases.len() - i,
                {
                    assert(view[i as int] == bases@[i as int].deep_view());
                    match &bases[i].base {
                        crate::cpp_type::CppTypeBase::Class { name, .. } => {
                            if *name == *class_name {
                                assert(view[i as int].class_name() == Some(class_name@));
                                return true;
                            }
                        },
                        _ => {},
                    }
                    i += 1;
                }
                false
            },
            CppTypeKind::Enum { .. } => false,
        }
    }
}

/// The concrete argument lists with which one template class is used.
#[derive(Debug, Clone)]
pub struct CppTemplateInstantiations {
    pub class_name: String,
    pub instantiations: Vec<Vec<CppType>>,
}

/// Mathematical value of a [`CppTemplateInstantiations`].
pub ghost struct CppTemplateInstantiationsView {
    pub class_name: Seq<char>,
    pub instantiations: Seq<Seq<CppTypeView>>,
}

impl DeepView for CppTemplateInstantiations {
    type V = CppTemplateInstantiationsView;

    open spec fn deep_view(&self) -> CppTemplateInstantiationsView {
        CppTemplateInstantiationsView {
            class_name: self.class_name@,
            instantiations: self.instantiations.deep_view(),
        }
    }
}

impl Duplicate for CppTemplateInstantiations {
    fn duplicate(&self) -> (r: CppTemplateInstantiations) {
        CppTemplateInstantiations {
            class_name: self.class_name.clone(),
            instantiations: self.instantiations.duplicate(),
        }
    }
}

/// All types and methods of one generation unit, with the registry of
/// template instantiations. The registry is searched from the front: the
/// first entry for a class name is the one that counts.
#[derive(Debug, Clone)]
pub struct CppData {
    pub types: Vec<CppTypeData>,
    pub methods: Vec<CppMethod>,
    pub template_instantiations: Vec<CppTemplateInstantiations>,
}

/// Mathematical value of a [`CppData`].
pub ghost struct CppDataView {
    pub types: Seq<CppTypeDataView>,
    pub methods: Seq<CppMethodView>,
    pub template_instantiations: Seq<CppTemplateInstantiationsView>,
}

impl DeepView for CppData {
    type V = CppDataView;

    open spec fn deep_view(&self) -> CppDataView {
        CppDataView {
            types: self.types.deep_view(),
            methods: self.methods.deep_view(),
            template_instantiations: self.template_instantiations.deep_view(),
        }
    }
}

impl Duplicate for CppData {
    fn duplicate(&self) -> (r: CppData) {
        CppData {
            types: self.types.duplicate(),
            methods: self.methods.duplicate(),
            template_instantiations: self.template_instantiations.duplicate(),
        }
    }
}

/// True where `methods` holds a destructor of the class `class_name`.
pub open spec fn has_destructor(methods: Seq<CppMethodView>, class_name: Seq<char>) -> bool {
    exists|k: int| 0 <= k < methods.len() && (#[trigger] methods[k]).is_destructor_of(class_name)
}

impl CppDataView {
    /// The methods after the first `n` types have been given a destructor:
    /// going through the types in order, each class for which the methods
    /// so far hold no destructor gets an implicit one, appended at the end.
    pub open spec fn methods_completed(self, n: int) -> Seq<CppMethodView>
        decreases n,
    {
        if n <= 0 {
            self.methods
        } else {
            let before = self.methods_completed(n - 1);
            let t = self.types[n - 1];
            if t.is_class() && !has_destructor(before, t.name) {
                before.push(CppMethodView::implicit_destructor(t.name, t.header))
            } else {
                before
            }
        }
    }

    /// True where `m` is the implicit destructor of a class of the model
    /// that has no destructor among the model's methods.
    pub open spec fn is_added(self, m: CppMethodView) -> bool {
        exists|j: int|
            0 <= j < self.types.len() && (#[trigger] self.types[j]).is_class() && !has_destructor(
                self.methods,
                self.types[j].name,
            ) && m == CppMethodView::implicit_destructor(self.types[j].name, self.types[j].header)
    }

    /// The model in which every class has a destructor.
    pub open spec fn with_explicit_destructors(self) -> CppDataView {
        CppDataView { methods: self.methods_completed(self.types.len() as int), ..self }
    }

    /// True where every class of the model has a destructor among its
    /// methods.
    pub open spec fn all_classes_destructible(self) -> bool {
        forall|j: int|
            0 <= j < self.types.len() && (#[trigger] self.types[j]).is_class() ==> has_destructor(
                self.methods,
                self.types[j].name,
            )
    }

    /// Completion keeps the methods it found, in place, and only appends.
    pub proof fn lemma_completion_extends(self, n: int)
        requires
            0 <= n <= self.types.len(),
        ensures
            self.methods.len() <= self.methods_completed(n).len() <= self.methods.len() + n,
            self.methods_completed(n).subrange(0, self.methods.len() as int) == self.methods,
            forall|k: int|
                self.methods.len() <= k < self.methods_completed(n).len() ==> self.is_added(
                    #[trigger] self.methods_completed(n)[k],
                ),
        decreases n,
    {
        if n > 0 {
            self.lemma_completion_extends(n - 1);
            let before = self.methods_completed(n - 1);
            let after = self.methods_completed(n);
            let t = self.types[n - 1];
            assert(before.subrange(0, self.methods.len() as int) == self.methods);
            assert(after.subrange(0, self.methods.len() as int) =~= before.subrange(
                0,
                self.methods.len() as int,
            ));
            if t.is_class() && !has_destructor(before, t.name) {
                if has_destructor(self.methods, t.name) {
                    let k = choose|k: int|
                        0 <= k < self.methods.len() && (#[trigger] self.methods[k]).is_destructor_of(
                            t.name,
                        );
                    assert(before[k] == before.subrange(0, self.methods.len() as int)[k]);
                    assert(before[k].is_destructor_of(t.name));
                }
            }
            assert forall|k: int| self.methods.len() <= k < after.len() implies self.is_added(
                #[trigger] after[k],
            ) by {
                if k < before.len() {
                    assert(self.is_added(before[k]));
                } else {
                    assert(self.types[n - 1].is_class());
                }
            }
        } else {
            assert(self.methods.subrange(0, self.methods.len() as int) =~= self.methods);
        }
    }

    /// After completion of the first `n` types each class among them has a
    /// destructor.
    pub proof fn lemma_completion_total(self, n: int)
        requires
            0 <= n <= self.types.len(),
        ensures
            forall|j: int|
                0 <= j < n && (#[trigger] self.types[j]).is_class() ==> has_destructor(
                    self.methods_completed(n),
                    self.types[j].name,
                ),
        decreases n,
    {
        if n > 0 {
            self.lemma_completion_total(n - 1);
            let before = self.methods_completed(n - 1);
            let after = self.methods_completed(n);
            let t = self.types[n - 1];
            assert forall|j: int| 0 <= j < n && (#[trigger] self.types[j]).is_class() implies has_destructor(
                after,
                self.types[j].name,
            ) by {
                if j < n - 1 || has_destructor(before, t.name) {
                    let k = choose|k: int|
                        0 <= k < before.len() && (#[trigger] before[k]).is_destructor_of(
                            self.types[j].name,
                        );
                    assert(after[k].is_destructor_of(self.types[j].name));
                } else {
                    assert(after[before.len() as int].is_destructor_of(t.name));
                }
            }
        }
    }

    /// Where every class has a destructor already, completion adds nothing.
    pub proof fn lemma_completion_of_complete(self, n: int)
        requires
            0 <= n <= self.types.len(),
            self.all_classes_destructible(),
        ensures
            self.methods_completed(n) == self.methods,
        decreases n,
    {
        if n > 0 {
            self.lemma_completion_of_complete(n - 1);
            assert(self.types[n - 1].is_class() ==> has_destructor(
                self.methods,
                self.types[n - 1].name,
            ));
        }
    }

    /// Destructor completion is total and idempotent: in the completed
    /// model every class has a destructor, and completing it once more
    /// changes nothing.
    pub proof fn lemma_destructor_completion(self)
        ensures
            self.with_explicit_destructors().all_classes_destructible(),
            self.with_explicit_destructors().with_explicit_destructors()
                == self.with_explicit_destructors(),
    {
        let done = self.with_explicit_destructors();
        self.lemma_completion_total(self.types.len() as int);
        assert(done.all_classes_destructible());
        done.lemma_completion_of_complete(done.types.len() as int);
    }
}

impl CppData {
    /// Tells whether the methods hold a destructor of the class
    /// `class_name`.
    pub fn has_destructor(&self, class_name: &String) -> (r: bool)
        ensures
            r == has_destructor(self.deep_view().methods, class_name@),
    {
        let ghost methods = self.deep_view().methods;
        let mut k: usize = 0;
        while k < self.methods.len()
            invariant
                k <= self.methods.len(),
                methods == self.methods.deep_view(),
                forall|x: int| 0 <= x < k ==> !(#[trigger] methods[x]).is_destructor_of(class_name@),
            decreases self.methods.len() - k,
        {
            assert(methods[k as int] == self.methods@[k as int].deep_view());
            if self.methods[k].is_destructor_of(class_name) {
                return true;
            }
            k += 1;
        }
        false
    }

    /// Adds a destructor to every class that has none, so that each class
    /// can be destroyed. The added destructor is public and not virtual,
    /// and is attributed to the header of its class. Types, the methods
    /// that were there and the registry stay as they are; a model in
    /// which every class has a destructor is left unchanged.
    pub fn ensure_explicit_destructors(&mut self)
        ensures
            final(self).deep_view() == old(self).deep_view().with_explicit_destructors(),
            final(self).deep_view().all_classes_destructible(),
            old(self).deep_view().all_classes_destructible() ==> final(self).deep_view() == old(
                self,
            ).deep_view(),
            final(self).deep_view().methods.subrange(0, old(self).methods.len() as int) == old(
                self,
            ).deep_view().methods,
            forall|k: int|
                old(self).methods.len() <= k < final(self).methods.len() ==> old(
                    self,
                ).deep_view().is_added(#[trigger] final(self).deep_view().methods[k]),
    {
        let ghost before = self.deep_view();
        let mut i: usize = 0;
        while i < self.types.len()
            invariant
                i <= self.types.len(),
                self.types == old(self).types,
                self.template_instantiations == old(self).template_instantiations,
                before == old(self).deep_view(),
                self.methods.deep_view() == before.methods_completed(i as int),
            decreases self.types.len() - i,
        {
            assert(before.types[i as int] == self.types@[i as int].deep_view());
            if self.types[i].is_class() {
                if !self.has_destructor(&self.types[i].name) {
                    let method = CppMethod::implicit_destructor(
                        &self.types[i].name,
                        &self.types[i].header,
                    );
                    let ghost prev = self.methods.deep_view();
                    self.methods.push(method);
                    assert(self.methods.deep_view() =~= prev.push(method.deep_view()));
                }
            }
            i += 1;
        }
        proof {
            before.lemma_destructor_completion();
            before.lemma_completion_extends(before.types.len() as int);
            if before.all_classes_destructible() {
                before.lemma_completion_of_complete(before.types.len() as int);
            }
        }
    }
}

/// The part of a model that one header declares.
#[derive(Debug, Clone)]
pub struct CppHeaderData {
    pub header: String,
    pub data: CppData,
}

/// Mathematical value of a [`CppHeaderData`].
pub ghost struct CppHeaderDataView {
    pub header: Seq<char>,
    pub data: CppDataView,
}

impl DeepView for CppHeaderData {
    type V = CppHeaderDataView;

    open spec fn deep_view(&self) -> CppHeaderDataView {
        CppHeaderDataView { header: self.header@, data: self.data.deep_view() }
    }
}

/// The instantiations that a registry records for the class `name`: those
/// of the first entry under that name.
pub open spec fn registered(
    registry: Seq<CppTemplateInstantiationsView>,
    name: Seq<char>,
) -> Option<Seq<Seq<CppTypeView>>>
    decreases registry.len(),
{
    if registry.len() == 0 {
        None
    } else if registry[0].class_name == name {
        Some(registry[0].instantiations)
    } else {
        registered(registry.drop_first(), name)
    }
}

/// True where `types` holds a class named `name`.
pub open spec fn has_class(types: Seq<CppTypeDataView>, name: Seq<char>) -> bool {
    exists|k: int| 0 <= k < types.len() && (#[trigger] types[k]).is_class() && types[k].name == name
}

/// True where no two entries of `texts` are equal.
pub open spec fn pairwise_distinct(texts: Seq<Seq<char>>) -> bool {
    forall|i: int, j: int| 0 <= i < j < texts.len() ==> texts[i] != texts[j]
}

/// Appending an entry to a registry changes only what is recorded under
/// the entry's name, and only if nothing was recorded there.
pub proof fn lemma_registered_push(
    registry: Seq<CppTemplateInstantiationsView>,
    entry: CppTemplateInstantiationsView,
    name: Seq<char>,
)
    ensures
        registered(registry.push(entry), name) == if registered(registry, name) is Some {
            registered(registry, name)
        } else if entry.class_name == name {
            Some(entry.instantiations)
        } else {
            None
        },
    decreases registry.len(),
{
    if registry.len() == 0 {
        assert(registry.push(entry).drop_first() =~= registry);
    } else {
        assert(registry.push(entry).drop_first() =~= registry.drop_first().push(entry));
        lemma_registered_push(registry.drop_first(), entry, name);
    }
}

/// What a filter keeps of the first `i + 1` items, from what it keeps of
/// the first `i`.
pub proof fn lemma_filter_step<A>(s: Seq<A>, p: spec_fn(A) -> bool, i: int)
    requires
        0 <= i <= s.len(),
    ensures
        i < s.len() ==> s.take(i + 1).filter(p) == if p(s[i]) {
            s.take(i).filter(p).push(s[i])
        } else {
            s.take(i).filter(p)
        },
        s.take(0).filter(p) == Seq::<A>::empty(),
{
    reveal(Seq::filter);
    if i < s.len() {
        assert(s.take(i + 1).drop_last() =~= s.take(i));
    }
    assert(s.take(0).filter(p) =~= Seq::<A>::empty());
}

impl CppDataView {
    /// The methods that the header `h` declares, in their order.
    pub open spec fn methods_of_header(self, h: Seq<char>) -> Seq<CppMethodView> {
        self.methods.filter(|m: CppMethodView| m.origin.header() == Some(h))
    }

    /// The types that the header `h` declares, in their order.
    pub open spec fn types_of_header(self, h: Seq<char>) -> Seq<CppTypeDataView> {
        self.types.filter(|t: CppTypeDataView| t.header == h)
    }

    /// True where a method or a type of the model is declared by `h`.
    pub open spec fn mentions_header(self, h: Seq<char>) -> bool {
        ||| exists|i: int|
            0 <= i < self.methods.len() && (#[trigger] self.methods[i]).origin.header() == Some(h)
        ||| exists|i: int| 0 <= i < self.types.len() && (#[trigger] self.types[i]).header == h
    }

    /// The names under which the registry has entries, in their order.
    pub open spec fn registry_names(self) -> Seq<Seq<char>> {
        self.template_instantiations.map_values(|e: CppTemplateInstantiationsView| e.class_name)
    }

    /// True where `part` is what the header `h` declares of this model:
    /// its methods and its types, unchanged and in order, and of the
    /// registry what is recorded for the classes among those types.
    pub open spec fn is_part_of_header(self, h: Seq<char>, part: CppDataView) -> bool {
        &&& part.methods == self.methods_of_header(h)
        &&& part.types == self.types_of_header(h)
        &&& pairwise_distinct(part.registry_names())
        &&& forall|name: Seq<char>|
            #[trigger] registered(part.template_instantiations, name) == if has_class(
                part.types,
                name,
            ) {
                registered(self.template_instantiations, name)
            } else {
                None
            }
    }

    /// True where `parts` splits this model by header: one part for each
    /// header that declares something, no header twice, and each part
    /// holding what its header declares.
    pub open spec fn is_split_by_headers(self, parts: Seq<CppHeaderDataView>) -> bool {
        &&& forall|i: int, j: int| 0 <= i < j < parts.len() ==> parts[i].header != parts[j].header
        &&& forall|k: int|
            0 <= k < parts.len() ==> self.mentions_header((#[trigger] parts[k]).header)
                && self.is_part_of_header(parts[k].header, parts[k].data)
        &&& forall|h: Seq<char>| #[trigger]
            self.mentions_header(h) ==> exists|k: int|
                0 <= k < parts.len() && (#[trigger] parts[k]).header == h
    }
}

/// Tells whether `texts` holds a string equal to `text`.
pub fn contains_text(texts: &Vec<String>, text: &String) -> (r: bool)
    ensures
        r == exists|k: int| 0 <= k < texts.len() && (#[trigger] texts@[k])@ == text@,
{
    let mut k: usize = 0;
    while k < texts.len()
        invariant
            k <= texts.len(),
            forall|x: int| 0 <= x < k ==> (#[trigger] texts@[x])@ != text@,
        decreases texts.len() - k,
    {
        if texts[k] == *text {
            return true;
        }
        k += 1;
    }
    false
}

impl CppData {
    /// A model without types, methods or instantiations.
    pub fn new() -> (r: CppData)
        ensures
            r.deep_view() == (CppDataView {
                types: Seq::empty(),
                methods: Seq::empty(),
                template_instantiations: Seq::empty(),
            }),
    {
        let r = CppData { types: Vec::new(), methods: Vec::new(), template_instantiations: Vec::new() };
        assert(r.types.deep_view() =~= Seq::empty());
        assert(r.methods.deep_view() =~= Seq::empty());
        assert(r.template_instantiations.deep_view() =~= Seq::empty());
        r
    }

    /// Index of the first entry that the registry holds for the class
    /// `name`.
    pub fn find_instantiations(&self, name: &String) -> (r: Option<usize>)
        ensures
            match r {
                Some(k) => k < self.template_instantiations.len() && self.template_instantiations@[k as int].class_name@
                    == name@ && registered(self.deep_view().template_instantiations, name@) == Some(
                    self.deep_view().template_instantiations[k as int].instantiations,
                ),
                None => registered(self.deep_view().template_instantiations, name@) is None,
            },
            r is None <==> forall|k: int|
                0 <= k < self.template_instantiations.len() ==> (
                #[trigger] self.template_instantiations@[k]).class_name@ != name@,
    {
        let ghost reg = self.deep_view().template_instantiations;
        let mut k: usize = 0;
        assert(reg.skip(0) =~= reg);
        while k < self.template_instantiations.len()
            invariant
                k <= self.template_instantiations.len(),
                reg == self.deep_view().template_instantiations,
                registered(reg, name@) == registered(reg.skip(k as int), name@),
                forall|x: int|
                    0 <= x < k ==> (#[trigger] self.template_instantiations@[x]).class_name@
                        != name@,
            decreases self.template_instantiations.len() - k,
        {
            assert(reg[k as int] == self.template_instantiations@[k as int].deep_view());
            assert(reg.skip(k as int)[0] == reg[k as int]);
            assert(reg.skip(k as int).drop_first() =~= reg.skip(k as int + 1));
            if self.template_instantiations[k].class_name == *name {
                return Some(k);
            }
            k += 1;
        }
        assert(reg.skip(k as int).len() == 0);
        None
    }

    /// The headers that declare a method or a type of the model, each
    /// once.
    pub fn headers(&self) -> (r: Vec<String>)
        ensures
            forall|i: int, j: int| 0 <= i < j < r.len() ==> r@[i]@ != r@[j]@,
            forall|k: int| 0 <= k < r.len() ==> self.deep_view().mentions_header((#[trigger] r@[k])@),
            forall|h: Seq<char>| #[trigger]
                self.deep_view().mentions_header(h) ==> exists|k: int|
                    0 <= k < r.len() && (#[trigger] r@[k])@ == h,
    {
        let ghost v = self.deep_view();
        let mut r: Vec<String> = Vec::new();
        let mut i: usize = 0;
        while i < self.methods.len()
            invariant
                i <= self.methods.len(),
                v == self.deep_view(),
                forall|a: int, b: int| 0 <= a < b < r.len() ==> r@[a]@ != r@[b]@,
                forall|k: int| 0 <= k < r.len() ==> v.mentions_header((#[trigger] r@[k])@),
                forall|x: int|
                    0 <= x < i ==> (#[trigger] v.methods[x]).origin.header() is Some ==> exists|
                        k: int,
                    |
                        0 <= k < r.len() && Some((#[trigger] r@[k])@) == v.methods[x].origin.header(),
            decreases self.methods.len() - i,
        {
            assert(v.methods[i as int] == self.methods@[i as int].deep_view());
            match &self.methods[i].origin {
                crate::cpp_method::CppTypeOrigin::IncludeFile { include_file, .. } => {
                    if !contains_text(&r, include_file) {
                        let ghost before = r@;
                        r.push(include_file.clone());
                        assert(forall|k: int| 0 <= k < before.len() ==> r@[k] == before[k]);
                        assert(v.methods[i as int].origin.header() == Some(r@[r.len() - 1]@));
                    }
                },
                _ => {},
            }
            i += 1;
        }
        let mut j: usize = 0;
        while j < self.types.len()
            invariant
                j <= self.types.len(),
                v == self.deep_view(),
                forall|a: int, b: int| 0 <= a < b < r.len() ==> r@[a]@ != r@[b]@,
                forall|k: int| 0 <= k < r.len() ==> v.mentions_header((#[trigger] r@[k])@),
                forall|x: int|
                    0 <= x < v.methods.len() ==> (#[trigger] v.methods[x]).origin.header() is Some
                        ==> exists|k: int|
                        0 <= k < r.len() && Some((#[trigger] r@[k])@) == v.methods[x].origin.header(),
                forall|x: int|
                    0 <= x < j ==> exists|k: int|
                        0 <= k < r.len() && (#[trigger] r@[k])@ == (#[trigger] v.types[x]).header,
            decreases self.types.len() - j,
        {
            assert(v.types[j as int] == self.types@[j as int].deep_view());
            if !contains_text(&r, &self.types[j].header) {
                let ghost before = r@;
                r.push(self.types[j].header.clone());
                assert(forall|k: int| 0 <= k < before.len() ==> r@[k] == before[k]);
                assert(r@[r.len() - 1]@ == v.types[j as int].header);
            }
            j += 1;
        }
        r
    }

    /// What the header `header` declares of this model: its methods and
    /// its types, and of the registry what is recorded for the classes
    /// among those types.
    pub fn header_part(&self, header: &String) -> (r: CppData)
        ensures
            self.deep_view().is_part_of_header(header@, r.deep_view()),
    {
        let ghost v = self.deep_view();
        let ghost h = header@;
        let ghost keep_method = |m: CppMethodView| m.origin.header() == Some(h);
        let ghost keep_type = |t: CppTypeDataView| t.header == h;
        let mut out = CppData::new();
        let mut i: usize = 0;
        proof {
            lemma_filter_step(v.methods, keep_method, 0);
        }
        while i < self.methods.len()
            invariant
                i <= self.methods.len(),
                v == self.deep_view(),
                h == header@,
                keep_method == |m: CppMethodView| m.origin.header() == Some(h),
                out.methods.deep_view() == v.methods.take(i as int).filter(keep_method),
                out.types.deep_view() == Seq::<CppTypeDataView>::empty(),
                out.template_instantiations.deep_view() == Seq::<
                    CppTemplateInstantiationsView,
                >::empty(),
            decreases self.methods.len() - i,
        {
            assert(v.methods[i as int] == self.methods@[i as int].deep_view());
            proof {
                lemma_filter_step(v.methods, keep_method, i as int);
            }
            let keep = match &self.methods[i].origin {
                crate::cpp_method::CppTypeOrigin::IncludeFile { include_file, .. } => *include_file
                    == *header,
                _ => false,
            };
            if keep {
                let ghost prev = out.methods.deep_view();
                let m = self.methods[i].duplicate();
                out.methods.push(m);
                assert(out.methods.deep_view() =~= prev.push(m.deep_view()));
            }
            i += 1;
        }
        assert(v.methods.take(i as int) =~= v.methods);
        let mut j: usize = 0;
        proof {
            lemma_filter_step(v.types, keep_type, 0);
            assert(out.deep_view().registry_names() =~= Seq::empty());
        }
        while j < self.types.len()
            invariant
                j <= self.types.len(),
                v == self.deep_view(),
                h == header@,
                keep_type == |t: CppTypeDataView| t.header == h,
                out.methods.deep_view() == v.methods_of_header(h),
                out.types.deep_view() == v.types.take(j as int).filter(keep_type),
                pairwise_distinct(out.deep_view().registry_names()),
                forall|name: Seq<char>|
                    #[trigger] registered(out.template_instantiations.deep_view(), name)
                        == if has_class(out.types.deep_view(), name) {
                        registered(v.template_instantiations, name)
                    } else {
                        None
                    },
            decreases self.types.len() - j,
        {
            assert(v.types[j as int] == self.types@[j as int].deep_view());
            proof {
                lemma_filter_step(v.types, keep_type, j as int);
            }
            if self.types[j].header == *header {
                let ghost prev_types = out.types.deep_view();
                let ghost prev_reg = out.template_instantiations.deep_view();
                let ghost prev_names = out.deep_view().registry_names();
                let t = self.types[j].duplicate();
                out.types.push(t);
                assert(out.types.deep_view() =~= prev_types.push(t.deep_view()));
                let ghost tv = t.deep_view();
                assert(forall|name: Seq<char>|
                    has_class(prev_types.push(tv), name) <==> has_class(prev_types, name) || (
                    tv.is_class() && tv.name == name)) by {
                    assert forall|name: Seq<char>| has_class(prev_types, name) implies has_class(
                        prev_types.push(tv),
                        name,
                    ) by {
                        let k = choose|k: int|
                            0 <= k < prev_types.len() && (#[trigger] prev_types[k]).is_class()
                                && prev_types[k].name == name;
                        assert(prev_types.push(tv)[k].is_class());
                    }
                    assert forall|name: Seq<char>| tv.is_class() && tv.name == name implies has_class(
                        prev_types.push(tv),
                        name,
                    ) by {
                        assert(prev_types.push(tv)[prev_types.len() as int].is_class());
                    }
                }
                if self.types[j].is_class() {
                    match self.find_instantiations(&self.types[j].name) {
                        Some(at) => {
                            assert(v.template_instantiations[at as int]
                                == self.template_instantiations@[at as int].deep_view());
                            if out.find_instantiations(&self.types[j].name).is_none() {
                                let e = self.template_instantiations[at].duplicate();
                                out.template_instantiations.push(e);
                                assert(out.template_instantiations.deep_view() =~= prev_reg.push(
                                    e.deep_view(),
                                ));
                                proof {
                                    assert(out.deep_view().registry_names() =~= prev_names.push(
                                        e.deep_view().class_name,
                                    ));
                                    assert forall|a: int|
                                        0 <= a < prev_names.len() implies prev_names[a]
                                        != e.deep_view().class_name by {
                                        assert(prev_reg[a] == out.template_instantiations@[a].deep_view());
                                    }
                                    assert forall|name: Seq<char>|
                                        #[trigger] registered(prev_reg.push(e.deep_view()), name)
                                            == if has_class(prev_types.push(tv), name) {
                                            registered(v.template_instantiations, name)
                                        } else {
                                            None
                                        } by {
                                        lemma_registered_push(prev_reg, e.deep_view(), name);
                                    }
                                }
                            }
                        },
                        None => {},
                    }
                }
            }
            j += 1;
        }
        assert(v.types.take(j as int) =~= v.types);
        out
    }

    /// Splits the model by declaring header. Each header that declares a
    /// method or a type gets one part, which holds the methods whose origin
    /// names it, the types it declares, and the registry entries of the
    /// classes among those types. Methods whose origin names no header are
    /// in no part.
    pub fn split_by_headers(&self) -> (r: Vec<CppHeaderData>)
        ensures
            self.deep_view().is_split_by_headers(r.deep_view()),
    {
        let ghost v = self.deep_view();
        let headers = self.headers();
        let mut parts: Vec<CppHeaderData> = Vec::new();
        let mut k: usize = 0;
        while k < headers.len()
            invariant
                k <= headers.len(),
                v == self.deep_view(),
                parts.len() == k,
                forall|x: int| 0 <= x < k ==> (#[trigger] parts@[x]).header@ == headers@[x]@,
                forall|x: int|
                    0 <= x < k ==> v.is_part_of_header(
                        headers@[x]@,
                        (#[trigger] parts@[x]).data.deep_view(),
                    ),
            decreases headers.len() - k,
        {
            let data = self.header_part(&headers[k]);
            parts.push(CppHeaderData { header: headers[k].clone(), data });
            k += 1;
        }
        proof {
            let pv = parts.deep_view();
            assert forall|x: int| 0 <= x < pv.len() implies (#[trigger] pv[x]).header
                == headers@[x]@ && pv[x].data == parts@[x].data.deep_view() by {
                assert(pv[x] == parts@[x].deep_view());
            }
            assert forall|h: Seq<char>| #[trigger] v.mentions_header(h) implies exists|k: int|
                0 <= k < pv.len() && (#[trigger] pv[k]).header == h by {
                let k = choose|k: int| 0 <= k < headers.len() && (#[trigger] headers@[k])@ == h;
                assert(pv[k].header == h);
            }
        }
        parts
    }
}

/// How often `x` occurs in `s`.
pub open spec fn occurrences<A>(s: Seq<A>, x: A) -> nat
    decreases s.len(),
{
    if s.len() == 0 {
        0
    } else {
        occurrences(s.drop_last(), x) + if s.last() == x {
            1nat
        } else {
            0nat
        }
    }
}

/// A filter keeps every occurrence of an item that it accepts, and none of
/// an item that it rejects.
pub proof fn lemma_filter_occurrences<A>(s: Seq<A>, p: spec_fn(A) -> bool, x: A)
    ensures
        occurrences(s.filter(p), x) == if p(x) {
            occurrences(s, x)
        } else {
            0
        },
    decreases s.len(),
{
    reveal(Seq::filter);
    if s.len() > 0 {
        lemma_filter_occurrences(s.drop_last(), p, x);
        let sub = s.drop_last().filter(p);
        if p(s.last()) {
            assert(sub.push(s.last()).drop_last() =~= sub);
            assert(sub.push(s.last()).last() == s.last());
        }
    }
}

impl CppDataView {
    /// True where the part `k` holds every occurrence of the method `m`
    /// and no other part holds one.
    pub open spec fn method_is_only_in(
        self,
        parts: Seq<CppHeaderDataView>,
        k: int,
        m: CppMethodView,
    ) -> bool {
        &&& 0 <= k < parts.len()
        &&& m.origin.header() == Some(parts[k].header)
        &&& occurrences(parts[k].data.methods, m) == occurrences(self.methods, m)
        &&& forall|other: int|
            0 <= other < parts.len() && other != k ==> occurrences(
                (#[trigger] parts[other]).data.methods,
                m,
            ) == 0
    }

    /// True where the part `k` holds every occurrence of the type `t` and
    /// no other part holds one.
    pub open spec fn type_is_only_in(
        self,
        parts: Seq<CppHeaderDataView>,
        k: int,
        t: CppTypeDataView,
    ) -> bool {
        &&& 0 <= k < parts.len()
        &&& t.header == parts[k].header
        &&& occurrences(parts[k].data.types, t) == occurrences(self.types, t)
        &&& forall|other: int|
            0 <= other < parts.len() && other != k ==> occurrences(
                (#[trigger] parts[other]).data.types,
                t,
            ) == 0
    }

    /// True where exactly one part holds the type `t`, as often as the
    /// model does.
    pub open spec fn type_has_one_part(self, parts: Seq<CppHeaderDataView>, t: CppTypeDataView) -> bool {
        exists|k: int| self.type_is_only_in(parts, k, t)
    }

    /// True where exactly one part holds the method `m`, as often as the
    /// model does.
    pub open spec fn method_has_one_part(self, parts: Seq<CppHeaderDataView>, m: CppMethodView) -> bool {
        exists|k: int| self.method_is_only_in(parts, k, m)
    }

    /// Splitting by header loses nothing and repeats nothing. Every type,
    /// and every method whose origin names a header, is in the part of its
    /// header as often as it is in the model, and in no other part. A part
    /// records instantiations only for classes among its own types, and
    /// records for them what the model records.
    pub proof fn lemma_split_is_lossless(self, parts: Seq<CppHeaderDataView>)
        requires
            self.is_split_by_headers(parts),
        ensures
            forall|i: int|
                0 <= i < self.methods.len() && (#[trigger] self.methods[i]).origin.header() is Some
                    ==> self.method_has_one_part(parts, self.methods[i]),
            forall|i: int|
                0 <= i < self.types.len() ==> self.type_has_one_part(parts, #[trigger] self.types[i]),
            forall|k: int, name: Seq<char>|
                0 <= k < parts.len() ==> #[trigger] registered(
                    parts[k].data.template_instantiations,
                    name,
                ) == if has_class(parts[k].data.types, name) {
                    registered(self.template_instantiations, name)
                } else {
                    None
                },
    {
        assert forall|i: int|
            0 <= i < self.methods.len() && (#[trigger] self.methods[i]).origin.header()
                is Some implies self.method_has_one_part(parts, self.methods[i]) by {
            let m = self.methods[i];
            let h = m.origin.header().unwrap();
            assert(self.mentions_header(h));
            let k = choose|k: int| 0 <= k < parts.len() && (#[trigger] parts[k]).header == h;
            assert forall|other: int| 0 <= other < parts.len() implies occurrences(
                (#[trigger] parts[other]).data.methods,
                m,
            ) == if other == k {
                occurrences(self.methods, m)
            } else {
                0
            } by {
                let ho = parts[other].header;
                assert(self.is_part_of_header(ho, parts[other].data));
                lemma_filter_occurrences(
                    self.methods,
                    |x: CppMethodView| x.origin.header() == Some(ho),
                    m,
                );
                if other != k {
                    assert(parts[other].header != parts[k].header);
                }
            }
            assert(self.method_is_only_in(parts, k, m));
        }
        assert forall|i: int| 0 <= i < self.types.len() implies self.type_has_one_part(
            parts,
            #[trigger] self.types[i],
        ) by {
            let t = self.types[i];
            let h = t.header;
            assert(self.mentions_header(h));
            let k = choose|k: int| 0 <= k < parts.len() && (#[trigger] parts[k]).header == h;
            assert forall|other: int| 0 <= other < parts.len() implies occurrences(
                (#[trigger] parts[other]).data.types,
                t,
            ) == if other == k {
                occurrences(self.types, t)
            } else {
                0
            } by {
                let ho = parts[other].header;
                assert(self.is_part_of_header(ho, parts[other].data));
                lemma_filter_occurrences(self.types, |x: CppTypeDataView| x.header == ho, t);
                if other != k {
                    assert(parts[other].header != parts[k].header);
                }
            }
            assert(self.type_is_only_in(parts, k, t));
        }
        assert forall|k: int, name: Seq<char>| 0 <= k < parts.len() implies #[trigger] registered(
            parts[k].data.template_instantiations,
            name,
        ) == if has_class(parts[k].data.types, name) {
            registered(self.template_instantiations, name)
        } else {
            None
        } by {
            assert(self.is_part_of_header(parts[k].header, parts[k].data));
        }
    }
}

/// What is wrong with a model.
#[derive(Debug, Clone, Copy, PartialEq, Eq, Structural)]
pub enum CppDataError {
    /// The registry entry at this place names no template class of the
    /// model.
    DanglingInstantiation { entry: usize },
    /// The class at this place inherits from itself, directly or through
    /// other classes.
    InheritanceCycle { class: usize },
}

impl CppTypeDataView {
    /// True where the type is a class with template arguments.
    pub open spec fn is_template_class(self) -> bool {
        match self.kind {
            CppTypeKindView::Class { template_arguments, .. } => template_arguments is Some
                && template_arguments.unwrap().len() > 0,
            CppTypeKindView::Enum { .. } => false,
        }
    }
}

impl CppDataView {
    /// True where the registry entry at place `e` names a template class
    /// of the model.
    pub open spec fn entry_is_resolved(self, e: int) -> bool {
        exists|k: int|
            0 <= k < self.types.len() && (#[trigger] self.types[k]).is_template_class()
                && self.types[k].name == self.template_instantiations[e].class_name
    }
}

impl CppTypeData {
    /// Tells whether the type is a class with template arguments.
    pub fn is_template_class(&self) -> (r: bool)
        ensures
            r == self.deep_view().is_template_class(),
    {
        match &self.kind {
            CppTypeKind::Class { template_arguments, .. } => match template_arguments {
                Some(arguments) => {
                    assert(arguments.deep_view().len() == arguments@.len());
                    arguments.len() > 0
                },
                None => false,
            },
            CppTypeKind::Enum { .. } => false,
        }
    }
}

impl CppData {
    /// Checks that every entry of the registry names a template class of
    /// the model, and reports the first entry that does not.
    pub fn check_instantiations(&self) -> (r: Result<(), CppDataError>)
        ensures
            match r {
                Ok(_) => forall|e: int|
                    0 <= e < self.template_instantiations.len()
                        ==> #[trigger] self.deep_view().entry_is_resolved(e),
                Err(error) => error is DanglingInstantiation && error->entry
                    < self.template_instantiations.len() && !self.deep_view().entry_is_resolved(
                    error->entry as int,
                ) && forall|e: int|
                    0 <= e < error->entry ==> #[trigger] self.deep_view().entry_is_resolved(e),
            },
    {
        let ghost v = self.deep_view();
        let mut e: usize = 0;
        while e < self.template_instantiations.len()
            invariant
                e <= self.template_instantiations.len(),
                v == self.deep_view(),
                forall|x: int| 0 <= x < e ==> #[trigger] v.entry_is_resolved(x),
            decreases self.template_instantiations.len() - e,
        {
            assert(v.template_instantiations[e as int]
                == self.template_instantiations@[e as int].deep_view());
            let mut found = false;
            let mut k: usize = 0;
            while k < self.types.len() && !found
                invariant
                    k <= self.types.len(),
                    v == self.deep_view(),
                    e < self.template_instantiations.len(),
                    v.template_instantiations[e as int]
                        == self.template_instantiations@[e as int].deep_view(),
                    found ==> v.entry_is_resolved(e as int),
                    !found ==> forall|x: int|
                        0 <= x < k ==> !((#[trigger] v.types[x]).is_template_class()
                            && v.types[x].name == v.template_instantiations[e as int].class_name),
                decreases self.types.len() - k,
            {
                assert(v.types[k as int] == self.types@[k as int].deep_view());
                if self.types[k].is_template_class() && self.types[k].name
                    == self.template_instantiations[e].class_name {
                    found = true;
                }
                k += 1;
            }
            if !found {
                return Err(CppDataError::DanglingInstantiation { entry: e });
            }
            e += 1;
        }
        Ok(())
    }
}

/// How many of the flags are not set.
pub open spec fn count_unset(flags: Seq<bool>) -> nat
    decreases flags.len(),
{
    if flags.len() == 0 {
        0
    } else {
        count_unset(flags.drop_last()) + if flags.last() {
            0nat
        } else {
            1nat
        }
    }
}

/// Setting a flag that was not set leaves one unset flag less.
pub proof fn lemma_count_unset_update(flags: Seq<bool>, i: int)
    requires
        0 <= i < flags.len(),
        !flags[i],
    ensures
        count_unset(flags.update(i, true)) + 1 == count_unset(flags),
    decreases flags.len(),
{
    if i == flags.len() - 1 {
        assert(flags.update(i, true).drop_last() =~= flags.drop_last());
    } else {
        lemma_count_unset_update(flags.drop_last(), i);
        assert(flags.update(i, true).drop_last() =~= flags.drop_last().update(i, true));
    }
}

impl CppDataView {
    /// True where the type at place `i` has the class at place `j` among
    /// its direct bases.
    pub open spec fn derives_from(self, i: int, j: int) -> bool {
        &&& 0 <= i < self.types.len()
        &&& 0 <= j < self.types.len()
        &&& self.types[j].is_class()
        &&& self.types[i].inherits(self.types[j].name)
    }

    /// True where `rank` gives every class a higher number than each of
    /// its direct bases.
    pub open spec fn is_ranking(self, rank: Seq<nat>) -> bool {
        &&& rank.len() == self.types.len()
        &&& forall|i: int, j: int| #[trigger] self.derives_from(i, j) ==> rank[j] < rank[i]
    }

    /// True where no class inherits from itself, directly or through
    /// other classes: the classes can be numbered so that each stands
    /// above its bases.
    pub open spec fn is_acyclic(self) -> bool {
        exists|rank: Seq<nat>| self.is_ranking(rank)
    }

    /// True where `safe` marks types of which each stands above all its
    /// direct bases in the numbering `rank`, and has only marked bases.
    pub open spec fn is_grounding(self, safe: Seq<bool>, rank: Seq<nat>) -> bool {
        &&& safe.len() == self.types.len()
        &&& rank.len() == self.types.len()
        &&& forall|i: int, j: int|
            0 <= i < safe.len() && safe[i] && #[trigger] self.derives_from(i, j) ==> safe[j]
                && rank[j] < rank[i]
    }

    /// True where the type at place `i` does not inherit from itself,
    /// directly or through other classes, and neither does any class that
    /// it inherits from.
    pub open spec fn is_grounded(self, i: int) -> bool {
        exists|safe: Seq<bool>, rank: Seq<nat>|
            #[trigger] self.is_grounding(safe, rank) && 0 <= i < safe.len() && safe[i]
    }

    /// True where every type that is not marked has a direct base that is
    /// not marked either.
    pub open spec fn is_stuck(self, marked: Seq<bool>) -> bool {
        &&& marked.len() == self.types.len()
        &&& forall|i: int|
            0 <= i < marked.len() && !(#[trigger] marked[i]) ==> self.has_unmarked_base(marked, i)
    }

    /// True where the type at place `i` has a direct base that is not
    /// marked.
    pub open spec fn has_unmarked_base(self, marked: Seq<bool>, i: int) -> bool {
        exists|j: int| 0 <= j < marked.len() && !marked[j] && #[trigger] self.derives_from(i, j)
    }

    /// Among types of which each has a base among them, no numbering puts
    /// every class above its bases.
    pub proof fn lemma_stuck_has_no_ranking(self, marked: Seq<bool>, rank: Seq<nat>, i: int)
        requires
            self.is_stuck(marked),
            rank.len() == marked.len(),
            0 <= i < marked.len(),
            !marked[i],
        ensures
            !self.is_ranking(rank),
        decreases rank[i],
    {
        if self.is_ranking(rank) {
            assert(self.has_unmarked_base(marked, i));
            let j = choose|j: int|
                0 <= j < marked.len() && !marked[j] && #[trigger] self.derives_from(i, j);
            self.lemma_stuck_has_no_ranking(marked, rank, j);
        }
    }
}

impl CppDataView {
    /// A type among types of which each has a base among them is not
    /// grounded.
    pub proof fn lemma_stuck_is_not_grounded(
        self,
        marked: Seq<bool>,
        safe: Seq<bool>,
        rank: Seq<nat>,
        i: int,
    )
        requires
            self.is_stuck(marked),
            rank.len() == marked.len(),
            safe.len() == marked.len(),
            0 <= i < marked.len(),
            !marked[i],
            safe[i],
        ensures
            !self.is_grounding(safe, rank),
        decreases rank[i],
    {
        if self.is_grounding(safe, rank) {
            assert(self.has_unmarked_base(marked, i));
            let j = choose|j: int|
                0 <= j < marked.len() && !marked[j] && #[trigger] self.derives_from(i, j);
            self.lemma_stuck_is_not_grounded(marked, safe, rank, j);
        }
    }
}

impl CppData {
    /// Tells whether the type at place `i` has a direct base that is not
    /// marked.
    pub fn has_unmarked_base(&self, i: usize, marked: &Vec<bool>) -> (r: bool)
        requires
            i < self.types.len(),
            marked.len() == self.types.len(),
        ensures
            r == self.deep_view().has_unmarked_base(marked@, i as int),
    {
        let ghost v = self.deep_view();
        let mut j: usize = 0;
        while j < self.types.len()
            invariant
                j <= self.types.len(),
                i < self.types.len(),
                marked.len() == self.types.len(),
                v == self.deep_view(),
                forall|x: int| 0 <= x < j ==> !(!marked@[x] && #[trigger] v.derives_from(i as int, x)),
            decreases self.types.len() - j,
        {
            assert(v.types[j as int] == self.types@[j as int].deep_view());
            assert(v.types[i as int] == self.types@[i as int].deep_view());
            if !marked[j] && self.types[j].is_class() && self.types[i].inherits(&self.types[j].name) {
                assert(v.derives_from(i as int, j as int));
                return true;
            }
            j += 1;
        }
        false
    }

    /// Checks that no class inherits from itself, directly or through
    /// other classes, and reports the first type that does or that
    /// inherits from one that does.
    pub fn check_inheritance(&self) -> (r: Result<(), CppDataError>)
        ensures
            r is Ok <==> self.deep_view().is_acyclic(),
            r matches Err(error) ==> error is InheritanceCycle && error->class < self.types.len()
                && !self.deep_view().is_grounded(error->class as int) && forall|i: int|
                0 <= i < error->class ==> #[trigger] self.deep_view().is_grounded(i),
    {
        let ghost v = self.deep_view();
        let n = self.types.len();
        let mut marked: Vec<bool> = Vec::new();
        let ghost mut rank: Seq<nat> = Seq::new(n as nat, |i: int| 0nat);
        let ghost mut next: nat = 0;
        let mut k: usize = 0;
        while k < n
            invariant
                k <= n,
                marked.len() == k,
                forall|x: int| 0 <= x < k ==> !marked@[x],
            decreases n - k,
        {
            marked.push(false);
            k += 1;
        }
        loop
            invariant
                n == self.types.len(),
                v == self.deep_view(),
                marked.len() == n,
                rank.len() == n,
                forall|i: int| 0 <= i < n && marked@[i] ==> rank[i] < next,
                forall|i: int, j: int|
                    0 <= i < n && marked@[i] && #[trigger] v.derives_from(i, j) ==> marked@[j]
                        && rank[j] < rank[i],
            decreases count_unset(marked@),
        {
            let mut found: Option<usize> = None;
            let mut i: usize = 0;
            while i < n && found.is_none()
                invariant
                    i <= n,
                    n == self.types.len(),
                    v == self.deep_view(),
                    marked.len() == n,
                    match found {
                        Some(at) => at < n && !marked@[at as int] && !v.has_unmarked_base(
                            marked@,
                            at as int,
                        ),
                        None => forall|x: int|
                            0 <= x < i && !(#[trigger] marked@[x]) ==> v.has_unmarked_base(
                                marked@,
                                x,
                            ),
                    },
                decreases n - i,
            {
                if !marked[i] && !self.has_unmarked_base(i, &marked) {
                    found = Some(i);
                }
                i += 1;
            }
            match found {
                Some(at) => {
                    proof {
                        lemma_count_unset_update(marked@, at as int);
                        assert forall|j: int| #[trigger]
                            v.derives_from(at as int, j) implies marked@[j] && rank[j] < next by {
                            if !marked@[j] {
                                assert(v.has_unmarked_base(marked@, at as int));
                            }
                        }
                        rank = rank.update(at as int, next);
                        next = next + 1;
                    }
                    marked.set(at, true);
                },
                None => {
                    let mut c: usize = 0;
                    assert(v.is_stuck(marked@));
                    while c < n
                        invariant
                            c <= n,
                            marked.len() == n,
                            n == self.types.len(),
                            v == self.deep_view(),
                            v.is_stuck(marked@),
                            rank.len() == n,
                            forall|i: int, j: int|
                                0 <= i < n && marked@[i] && #[trigger] v.derives_from(i, j)
                                    ==> marked@[j] && rank[j] < rank[i],
                            forall|x: int| 0 <= x < c ==> marked@[x],
                        decreases n - c,
                    {
                        if !marked[c] {
                            proof {
                                assert forall|r: Seq<nat>| !v.is_ranking(r) by {
                                    if r.len() == marked@.len() {
                                        v.lemma_stuck_has_no_ranking(marked@, r, c as int);
                                    }
                                }
                                assert forall|safe: Seq<bool>, r: Seq<nat>|
                                    !(#[trigger] v.is_grounding(safe, r) && safe[c as int]) by {
                                    if safe.len() == marked@.len() && r.len() == marked@.len()
                                        && safe[c as int] {
                                        v.lemma_stuck_is_not_grounded(marked@, safe, r, c as int);
                                    }
                                }
                                assert(v.is_grounding(marked@, rank));
                                assert forall|i: int| 0 <= i < c implies #[trigger] v.is_grounded(
                                    i,
                                ) by {
                                    assert(marked@[i]);
                                }
                            }
                            return Err(CppDataError::InheritanceCycle { class: c });
                        }
                        c += 1;
                    }
                    proof {
                        assert(v.is_ranking(rank));
                    }
                    return Ok(());
                },
            }
        }
    }
}

} // verus!
