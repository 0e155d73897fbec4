//! Values of a package manifest, and the merge of a generated manifest
//! with one that the user supplies.

use vstd::prelude::*;

verus! {

/// A value of a manifest. A table holds its entries in a fixed order and
/// no key twice.
#[derive(Debug)]
pub enum TomlValue {
    Text(String),
    Integer(i64),
    /// A floating-point number, held as its bits.
    Float(u64),
    Boolean(bool),
    /// A date and time, held as it is written.
    Datetime(String),
    Array(Vec<TomlValue>),
    Table(Vec<TomlEntry>),
}

/// One entry of a table.
#[derive(Debug)]
pub struct TomlEntry {
    pub key: String,
    pub value: TomlValue,
}

/// Mathematical value of a [`TomlValue`].
pub ghost enum TomlView {
    Text(Seq<char>),
    Integer(i64),
    Float(u64),
    Boolean(bool),
    Datetime(Seq<char>),
    Array(Seq<TomlView>),
    /// The keys of a table, and the value of each key at the same place.
    Table(Seq<Seq<char>>, Seq<TomlView>),
}

/// What a manifest value denotes.
pub open spec fn toml_view(v: TomlValue) -> TomlView
    decreases v,
{
    match v {
        TomlValue::Text(s) => TomlView::Text(s@),
        TomlValue::Integer(i) => TomlView::Integer(i),
        TomlValue::Float(bits) => TomlView::Float(bits),
        TomlValue::Boolean(b) => TomlView::Boolean(b),
        TomlValue::Datetime(s) => TomlView::Datetime(s@),
        TomlValue::Array(items) => TomlView::Array(
            Seq::new(
                items@.len(),
                |i: int|
                    if 0 <= i < items@.len() {
                        toml_view(items@[i])
                    } else {
                        TomlView::Boolean(false)
                    },
            ),
        ),
        TomlValue::Table(entries) => TomlView::Table(
            Seq::new(entries@.len(), |i: int| entries@[i].key@),
            Seq::new(
                entries@.len(),
                |i: int|
                    if 0 <= i < entries@.len() {
                        toml_view(entries@[i].value)
                    } else {
                        TomlView::Boolean(false)
                    },
            ),
        ),
    }
}

impl DeepView for TomlValue {
    type V = TomlView;

    open spec fn deep_view(&self) -> TomlView {
        toml_view(*self)
    }
}

/// The place of `key` among `keys`: the first one where it stands.
pub open spec fn key_place(keys: Seq<Seq<char>>, key: Seq<char>) -> Option<int>
    decreases keys.len(),
{
    if keys.len() == 0 {
        None
    } else {
        match key_place(keys.drop_last(), key) {
            Some(i) => Some(i),
            None => if keys.last() == key {
                Some(keys.len() - 1)
            } else {
                None
            },
        }
    }
}

/// True where both values are of the same kind.
pub open spec fn same_type(a: TomlView, b: TomlView) -> bool {
    match (a, b) {
        (TomlView::Text(_), TomlView::Text(_)) => true,
        (TomlView::Integer(_), TomlView::Integer(_)) => true,
        (TomlView::Float(_), TomlView::Float(_)) => true,
        (TomlView::Boolean(_), TomlView::Boolean(_)) => true,
        (TomlView::Datetime(_), TomlView::Datetime(_)) => true,
        (TomlView::Array(_), TomlView::Array(_)) => true,
        (TomlView::Table(_, _), TomlView::Table(_, _)) => true,
        _ => false,
    }
}

/// The merge of `a` and `b`, in which `b` takes precedence. Two arrays
/// are joined, the items of `b` behind those of `a`. Two tables are
/// merged key by key. In every other case the result is `b`.
pub open spec fn merged(a: TomlView, b: TomlView) -> TomlView
    decreases b,
{
    match (a, b) {
        (TomlView::Array(x), TomlView::Array(y)) => TomlView::Array(x + y),
        (TomlView::Table(keys, values), TomlView::Table(more_keys, more_values)) => {
            let t = merged_entries(keys, values, more_keys, more_values, more_values.len());
            TomlView::Table(t.0, t.1)
        },
        _ => b,
    }
}

/// A table after the first `n` entries of another table have been merged
/// into it, one after the other: the value of a key that the table holds
/// is merged with the new value and stays at its place; an entry with a
/// new key is added at the end.
pub open spec fn merged_entries(
    keys: Seq<Seq<char>>,
    values: Seq<TomlView>,
    more_keys: Seq<Seq<char>>,
    more_values: Seq<TomlView>,
    n: nat,
) -> (Seq<Seq<char>>, Seq<TomlView>)
    decreases more_values, n,
{
    if n == 0 || n > more_values.len() {
        (keys, values)
    } else {
        let before = merged_entries(keys, values, more_keys, more_values, (n - 1) as nat);
        let key = more_keys[n - 1];
        match key_place(before.0, key) {
            Some(i) => (before.0, before.1.update(i, merged(before.1[i], more_values[n - 1]))),
            None => (before.0.push(key), before.1.push(more_values[n - 1])),
        }
    }
}

/// The keys of the entries, in their order.
pub open spec fn keys_of(entries: Seq<TomlEntry>) -> Seq<Seq<char>> {
    Seq::new(entries.len(), |i: int| entries[i].key@)
}

/// The values of the entries, in their order.
pub open spec fn values_of(entries: Seq<TomlEntry>) -> Seq<TomlView> {
    Seq::new(entries.len(), |i: int| entries[i].value.deep_view())
}

/// The values of the items, in their order.
pub open spec fn items_of(items: Seq<TomlValue>) -> Seq<TomlView> {
    Seq::new(items.len(), |i: int| items[i].deep_view())
}

/// What a table and an array denote, over the helpers above.
pub proof fn lemma_deep_view(v: TomlValue)
    ensures
        v matches TomlValue::Table(entries) ==> v.deep_view() == TomlView::Table(
            keys_of(entries@),
            values_of(entries@),
        ),
        v matches TomlValue::Array(items) ==> v.deep_view() == TomlView::Array(items_of(items@)),
{
    reveal_with_fuel(toml_view, 2);
    match v {
        TomlValue::Table(entries) => {
            assert(v.deep_view()->Table_0 =~= keys_of(entries@));
            assert(v.deep_view()->Table_1 =~= values_of(entries@));
        },
        TomlValue::Array(items) => {
            assert(v.deep_view()->Array_0 =~= items_of(items@));
        },
        _ => {},
    }
}

/// The place that `key_place` gives is the first one where the key
/// stands; it gives none only where the key stands nowhere.
pub proof fn lemma_key_place(keys: Seq<Seq<char>>, key: Seq<char>)
    ensures
        match key_place(keys, key) {
            Some(i) => 0 <= i < keys.len() && keys[i] == key && forall|k: int|
                0 <= k < i ==> keys[k] != key,
            None => forall|k: int| 0 <= k < keys.len() ==> keys[k] != key,
        },
    decreases keys.len(),
{
    if keys.len() > 0 {
        lemma_key_place(keys.drop_last(), key);
        assert(forall|k: int| 0 <= k < keys.len() - 1 ==> keys.drop_last()[k] == keys[k]);
    }
}

/// Finds the entry with the key `key`.
pub fn find_key(entries: &Vec<TomlEntry>, key: &String) -> (r: Option<usize>)
    ensures
        match r {
            Some(i) => i < entries.len() && key_place(keys_of(entries@), key@) == Some(i as int),
            None => key_place(keys_of(entries@), key@) is None,
        },
{
    let ghost keys = keys_of(entries@);
    let mut i: usize = 0;
    while i < entries.len()
        invariant
            i <= entries.len(),
            keys == keys_of(entries@),
            forall|k: int| 0 <= k < i ==> keys[k] != key@,
        decreases entries.len() - i,
    {
        assert(keys[i as int] == entries@[i as int].key@);
        if entries[i].key == *key {
            proof {
                lemma_key_place(keys, key@);
            }
            return Some(i);
        }
        i += 1;
    }
    proof {
        lemma_key_place(keys, key@);
    }
    None
}

/// Merges `a` and `b` recursively. `b` takes precedence over `a`: two
/// arrays are joined, the items of `b` behind those of `a`; two tables
/// are merged key by key; in every other case the result is `b`.
pub fn recursive_merge_toml(a: TomlValue, b: TomlValue) -> (r: TomlValue)
    ensures
        r.deep_view() == merged(a.deep_view(), b.deep_view()),
    decreases b,
{
    let ghost a0 = a;
    let ghost b0 = b;
    proof {
        lemma_deep_view(a);
        lemma_deep_view(b);
    }
    match b {
        TomlValue::Array(mut y) => match a {
            TomlValue::Array(mut x) => {
                let ghost x0 = x@;
                let ghost y0 = y@;
                x.append(&mut y);
                let r = TomlValue::Array(x);
                proof {
                    lemma_deep_view(r);
                    assert(items_of(x0 + y0) =~= items_of(x0) + items_of(y0));
                }
                r
            },
            _ => TomlValue::Array(y),
        },
        TomlValue::Table(mut more) => match a {
            TomlValue::Table(mut entries) => {
                let ghost keys0 = keys_of(entries@);
                let ghost values0 = values_of(entries@);
                let ghost more0 = more;
                let ghost more_keys = keys_of(more@);
                let ghost more_values = values_of(more@);
                let mut n: usize = 0;
                let total = more.len();
                while n < total
                    invariant
                        n <= total,
                        total == more0@.len(),
                        b0 == b,
                        b0 == TomlValue::Table(more0),
                        more@ == more0@.skip(n as int),
                        more_keys == keys_of(more0@),
                        more_values == values_of(more0@),
                        (keys_of(entries@), values_of(entries@)) == merged_entries(
                            keys0,
                            values0,
                            more_keys,
                            more_values,
                            n as nat,
                        ),
                    decreases total - n,
                {
                    let ghost before_keys = keys_of(entries@);
                    let ghost before_values = values_of(entries@);
                    let ghost before = entries@;
                    let e = more.remove(0);
                    assert(e == more0@[n as int]);
                    assert(more@ =~= more0@.skip(n as int + 1));
                    assert(more_keys[n as int] == e.key@);
                    assert(more_values[n as int] == e.value.deep_view());
                    match find_key(&entries, &e.key) {
                        Some(i) => {
                            let old_entry = entries.remove(i);
                            proof {
                                assert(decreases_to!(b0 => b0->Table_0));
                                assert(decreases_to!(more0 => more0@));
                                assert(decreases_to!(more0@ => more0@[n as int]));
                                assert(decreases_to!(more0@[n as int] => more0@[n as int].value));
                                assert(decreases_to!(b => e.value));
                                lemma_key_place(before_keys, e.key@);
                            }
                            let value = recursive_merge_toml(old_entry.value, e.value);
                            entries.insert(i, TomlEntry { key: old_entry.key, value });
                            assert(keys_of(entries@) =~= before_keys);
                            assert(values_of(entries@) =~= before_values.update(
                                i as int,
                                value.deep_view(),
                            ));
                        },
                        None => {
                            entries.push(e);
                            assert(keys_of(entries@) =~= before_keys.push(e.key@));
                            assert(values_of(entries@) =~= before_values.push(e.value.deep_view()));
                        },
                    }
                    n += 1;
                }
                let r = TomlValue::Table(entries);
                proof {
                    lemma_deep_view(r);
                }
                r
            },
            _ => TomlValue::Table(more),
        },
        other => other,
    }
}

/// The value that a table holds under `key`.
pub open spec fn value_at(keys: Seq<Seq<char>>, values: Seq<TomlView>, key: Seq<char>) -> Option<
    TomlView,
> {
    match key_place(keys, key) {
        Some(i) => Some(values[i]),
        None => None,
    }
}

/// What the merge of two tables holds under a key, from what each of them
/// holds there.
pub open spec fn merged_value(own: Option<TomlView>, other: Option<TomlView>) -> Option<TomlView> {
    match (own, other) {
        (Some(x), Some(y)) => Some(merged(x, y)),
        (Some(x), None) => Some(x),
        (None, y) => y,
    }
}

/// Merging never depends on anything but the two values: arrays are
/// joined with the items of the second behind those of the first, and
/// where the values are not both arrays or both tables the second one
/// wins.
pub proof fn lemma_merge_of_arrays_and_scalars(a: TomlView, b: TomlView)
    ensures
        a is Array && b is Array ==> merged(a, b) == TomlView::Array(a->Array_0 + b->Array_0),
        !(a is Array && b is Array) && !(a is Table && b is Table) ==> merged(a, b) == b,
        !same_type(a, b) ==> merged(a, b) == b,
{
}

/// Tables merge key by key. Where the second table holds no key twice,
/// the merged table holds under each key the merge of what the two tables
/// hold there: the value of the one table that has the key, or the merge
/// of both values.
pub proof fn lemma_merge_of_tables(
    keys: Seq<Seq<char>>,
    values: Seq<TomlView>,
    more_keys: Seq<Seq<char>>,
    more_values: Seq<TomlView>,
    n: nat,
    key: Seq<char>,
)
    requires
        keys.len() == values.len(),
        more_keys.len() == more_values.len(),
        n <= more_values.len(),
        forall|i: int, j: int| 0 <= i < j < more_keys.len() ==> more_keys[i] != more_keys[j],
    ensures
        merged_entries(keys, values, more_keys, more_values, n).0.len() == merged_entries(
            keys,
            values,
            more_keys,
            more_values,
            n,
        ).1.len(),
        value_at(
            merged_entries(keys, values, more_keys, more_values, n).0,
            merged_entries(keys, values, more_keys, more_values, n).1,
            key,
        ) == merged_value(
            value_at(keys, values, key),
            value_at(more_keys.take(n as int), more_values.take(n as int), key),
        ),
    decreases n,
{
    if n == 0 {
        assert(more_keys.take(0).len() == 0);
    } else {
        let m = (n - 1) as nat;
        let before = merged_entries(keys, values, more_keys, more_values, m);
        let after = merged_entries(keys, values, more_keys, more_values, n);
        let new_key = more_keys[n - 1];
        lemma_merge_of_tables(keys, values, more_keys, more_values, m, key);
        lemma_merge_of_tables(keys, values, more_keys, more_values, m, new_key);
        lemma_key_place(before.0, key);
        lemma_key_place(before.0, new_key);
        lemma_key_place(more_keys.take(m as int), key);
        lemma_key_place(more_keys.take(m as int), new_key);
        assert(more_keys.take(n as int).drop_last() =~= more_keys.take(m as int));
        assert(more_keys.take(n as int).last() == new_key);
        assert(more_values.take(n as int)[n - 1] == more_values[n - 1]);
        assert(key_place(more_keys.take(m as int), new_key) is None);
        match key_place(more_keys.take(m as int), key) {
            Some(i) => {
                assert(more_values.take(n as int)[i] == more_values.take(m as int)[i]);
            },
            None => {},
        }
        match key_place(before.0, new_key) {
            Some(i) => {},
            None => {
                assert(after.0.drop_last() =~= before.0);
                assert(after.0.last() == new_key);
            },
        }
    }
}

/// A table after `value` has been put under `key`: in place of the value
/// that stood there, or at the end under a new key.
pub open spec fn inserted(
    keys: Seq<Seq<char>>,
    values: Seq<TomlView>,
    key: Seq<char>,
    value: TomlView,
) -> (Seq<Seq<char>>, Seq<TomlView>) {
    match key_place(keys, key) {
        Some(i) => (keys, values.update(i, value)),
        None => (keys.push(key), values.push(value)),
    }
}

/// Puts `value` under `key`, in place of the value that stood there, or
/// at the end under a new key.
pub fn table_insert(entries: &mut Vec<TomlEntry>, key: String, value: TomlValue)
    ensures
        (keys_of(final(entries)@), values_of(final(entries)@)) == inserted(
            keys_of(old(entries)@),
            values_of(old(entries)@),
            key@,
            value.deep_view(),
        ),
{
    let ghost before_keys = keys_of(entries@);
    let ghost before_values = values_of(entries@);
    match find_key(entries, &key) {
        Some(i) => {
            proof {
                lemma_key_place(before_keys, key@);
            }
            let _ = entries.remove(i);
            entries.insert(i, TomlEntry { key, value });
            assert(keys_of(entries@) =~= before_keys);
            assert(values_of(entries@) =~= before_values.update(i as int, value.deep_view()));
        },
        None => {
            entries.push(TomlEntry { key, value });
            assert(keys_of(entries@) =~= before_keys.push(key@));
            assert(values_of(entries@) =~= before_values.push(value.deep_view()));
        },
    }
}

/// A package that the generated package depends on. The local path, where
/// there is one, is written as it stands.
#[derive(Debug, Clone)]
pub struct CrateDependency {
    pub name: String,
    pub version: String,
    pub local_path: Option<String>,
}

/// What the manifest says of a dependency: its version alone, or, where
/// local paths are written and the dependency has one, a table of its
/// version and its path.
pub open spec fn dependency_view(
    version: Seq<char>,
    local_path: Option<Seq<char>>,
    write_local_paths: bool,
) -> TomlView {
    if local_path is None || !write_local_paths {
        TomlView::Text(version)
    } else {
        TomlView::Table(
            seq!["version"@, "path"@],
            seq![TomlView::Text(version), TomlView::Text(local_path.unwrap())],
        )
    }
}

/// Makes what the manifest says of a dependency.
pub fn dependency_value(dependency: &CrateDependency, write_local_paths: bool) -> (r: TomlValue)
    ensures
        r.deep_view() == dependency_view(
            dependency.version@,
            dependency.local_path.deep_view(),
            write_local_paths,
        ),
{
    match &dependency.local_path {
        Some(path) => {
            if write_local_paths {
                let entries = vec![
                    TomlEntry {
                        key: String::from_str("version"),
                        value: TomlValue::Text(dependency.version.clone()),
                    },
                    TomlEntry {
                        key: String::from_str("path"),
                        value: TomlValue::Text(path.clone()),
                    },
                ];
                let r = TomlValue::Table(entries);
                proof {
                    lemma_deep_view(r);
                    assert(keys_of(entries@) =~= seq!["version"@, "path"@]);
                    assert(values_of(entries@) =~= seq![
                        TomlView::Text(dependency.version@),
                        TomlView::Text(path@),
                    ]);
                }
                r
            } else {
                TomlValue::Text(dependency.version.clone())
            }
        },
        None => TomlValue::Text(dependency.version.clone()),
    }
}

/// The table of dependencies after the first `n` of `dependencies` have
/// been put into it, each under its name. A later one replaces an earlier
/// one of the same name.
pub open spec fn with_dependencies(
    keys: Seq<Seq<char>>,
    values: Seq<TomlView>,
    dependencies: Seq<CrateDependency>,
    write_local_paths: bool,
    n: nat,
) -> (Seq<Seq<char>>, Seq<TomlView>)
    decreases n,
{
    if n == 0 || n > dependencies.len() {
        (keys, values)
    } else {
        let before = with_dependencies(keys, values, dependencies, write_local_paths, (n - 1) as nat);
        let d = dependencies[n - 1];
        inserted(
            before.0,
            before.1,
            d.name@,
            dependency_view(d.version@, d.local_path.deep_view(), write_local_paths),
        )
    }
}

/// Makes a table of dependencies: the default ones, unless they are to be
/// left out, and then the crate's own ones.
pub fn dependencies_table(
    defaults: &Vec<CrateDependency>,
    remove_defaults: bool,
    own: &Vec<CrateDependency>,
    write_local_paths: bool,
) -> (r: TomlValue)
    ensures
        r.deep_view() == ({
            let first = if remove_defaults {
                (Seq::<Seq<char>>::empty(), Seq::<TomlView>::empty())
            } else {
                with_dependencies(
                    Seq::empty(),
                    Seq::empty(),
                    defaults@,
                    write_local_paths,
                    defaults@.len(),
                )
            };
            let all = with_dependencies(first.0, first.1, own@, write_local_paths, own@.len());
            TomlView::Table(all.0, all.1)
        }),
{
    let mut entries: Vec<TomlEntry> = Vec::new();
    assert(keys_of(entries@) =~= Seq::empty());
    assert(values_of(entries@) =~= Seq::empty());
    if !remove_defaults {
        let mut i: usize = 0;
        while i < defaults.len()
            invariant
                i <= defaults.len(),
                (keys_of(entries@), values_of(entries@)) == with_dependencies(
                    Seq::empty(),
                    Seq::empty(),
                    defaults@,
                    write_local_paths,
                    i as nat,
                ),
            decreases defaults.len() - i,
        {
            let value = dependency_value(&defaults[i], write_local_paths);
            table_insert(&mut entries, defaults[i].name.clone(), value);
            i += 1;
        }
    }
    let ghost first = (keys_of(entries@), values_of(entries@));
    let mut j: usize = 0;
    while j < own.len()
        invariant
            j <= own.len(),
            (keys_of(entries@), values_of(entries@)) == with_dependencies(
                first.0,
                first.1,
                own@,
                write_local_paths,
                j as nat,
            ),
        decreases own.len() - j,
    {
        let value = dependency_value(&own[j], write_local_paths);
        table_insert(&mut entries, own[j].name.clone(), value);
        j += 1;
    }
    let r = TomlValue::Table(entries);
    proof {
        lemma_deep_view(r);
    }
    r
}

/// The `package` table of a generated manifest.
pub open spec fn package_view(name: Seq<char>, version: Seq<char>) -> TomlView {
    TomlView::Table(
        seq!["name"@, "version"@, "build"@, "edition"@],
        seq![
            TomlView::Text(name),
            TomlView::Text(version),
            TomlView::Text("build.rs"@),
            TomlView::Text("2018"@),
        ],
    )
}

/// The manifest of a generated package: its `package` table and its two
/// tables of dependencies, merged with the fields that the user supplies,
/// which take precedence.
pub open spec fn manifest_view(
    name: Seq<char>,
    version: Seq<char>,
    dependencies: TomlView,
    build_dependencies: TomlView,
    custom_fields: TomlView,
) -> TomlView {
    merged(
        TomlView::Table(
            seq!["package"@, "dependencies"@, "build-dependencies"@],
            seq![package_view(name, version), dependencies, build_dependencies],
        ),
        custom_fields,
    )
}

/// Makes the manifest of a generated package.
pub fn crate_manifest(
    name: &String,
    version: &String,
    dependencies: TomlValue,
    build_dependencies: TomlValue,
    custom_fields: TomlValue,
) -> (r: TomlValue)
    ensures
        r.deep_view() == manifest_view(
            name@,
            version@,
            dependencies.deep_view(),
            build_dependencies.deep_view(),
            custom_fields.deep_view(),
        ),
{
    let package_entries = vec![
        TomlEntry { key: String::from_str("name"), value: TomlValue::Text(name.clone()) },
        TomlEntry { key: String::from_str("version"), value: TomlValue::Text(version.clone()) },
        TomlEntry {
            key: String::from_str("build"),
            value: TomlValue::Text(String::from_str("build.rs")),
        },
        TomlEntry {
            key: String::from_str("edition"),
            value: TomlValue::Text(String::from_str("2018")),
        },
    ];
    let package = TomlValue::Table(package_entries);
    proof {
        lemma_deep_view(package);
        assert(keys_of(package_entries@) =~= seq!["name"@, "version"@, "build"@, "edition"@]);
        assert(values_of(package_entries@) =~= seq![
            TomlView::Text(name@),
            TomlView::Text(version@),
            TomlView::Text("build.rs"@),
            TomlView::Text("2018"@),
        ]);
    }
    let ghost d = dependencies.deep_view();
    let ghost b = build_dependencies.deep_view();
    let entries = vec![
        TomlEntry { key: String::from_str("package"), value: package },
        TomlEntry { key: String::from_str("dependencies"), value: dependencies },
        TomlEntry { key: String::from_str("build-dependencies"), value: build_dependencies },
    ];
    let generated = TomlValue::Table(entries);
    proof {
        lemma_deep_view(generated);
        assert(keys_of(entries@) =~= seq!["package"@, "dependencies"@, "build-dependencies"@]);
        assert(values_of(entries@) =~= seq![package_view(name@, version@), d, b]);
    }
    recursive_merge_toml(generated, custom_fields)
}

} // verus!
