use cpp_to_rust::cpp_data::{
    CppData, CppDataError, CppTemplateInstantiations, CppTypeData, CppTypeKind,
};
use cpp_to_rust::cpp_type::{CppType, CppTypeBase, CppTypeIndirection};
use cpp_to_rust::crate_writer::{c_lib_name, global_header_name, include_directives_code};
use cpp_to_rust::manifest::{
    crate_manifest, dependencies_table, dependency_value, table_insert, CrateDependency,
    TomlEntry, TomlValue,
};

fn base(name: &str) -> CppType {
    CppType {
        base: CppTypeBase::Class { name: name.to_string(), template_arguments: None },
        is_const: false,
        indirection: CppTypeIndirection::Direct,
    }
}

fn class(name: &str, bases: Vec<&str>, template: bool) -> CppTypeData {
    CppTypeData {
        name: name.to_string(),
        header: "h.h".to_string(),
        kind: CppTypeKind::Class {
            size: None,
            bases: bases.into_iter().map(base).collect(),
            fields: vec![],
            template_arguments: if template { Some(vec!["T".to_string()]) } else { None },
        },
    }
}

fn model(types: Vec<CppTypeData>, registry: Vec<&str>) -> CppData {
    CppData {
        types,
        methods: vec![],
        template_instantiations: registry
            .into_iter()
            .map(|n| CppTemplateInstantiations { class_name: n.to_string(), instantiations: vec![] })
            .collect(),
    }
}

#[test]
fn inheritance_without_cycle_is_accepted() {
    let m = model(
        vec![
            class("Button", vec!["Widget", "Unknown"], false),
            class("Widget", vec!["Object"], false),
            class("Object", vec![], false),
            class("Label", vec!["Widget", "Object"], false),
        ],
        vec![],
    );
    assert_eq!(m.check_inheritance(), Ok(()));
    assert_eq!(CppData::new().check_inheritance(), Ok(()));
}

#[test]
fn inheritance_cycle_is_reported() {
    let m = model(
        vec![
            class("Object", vec![], false),
            class("A", vec!["B"], false),
            class("B", vec!["C", "Object"], false),
            class("C", vec!["A"], false),
        ],
        vec![],
    );
    assert_eq!(m.check_inheritance(), Err(CppDataError::InheritanceCycle { class: 1 }));
    let own = model(vec![class("Selfish", vec!["Selfish"], false)], vec![]);
    assert_eq!(own.check_inheritance(), Err(CppDataError::InheritanceCycle { class: 0 }));
    let below = model(
        vec![class("D", vec!["A"], false), class("A", vec!["A"], false)],
        vec![],
    );
    assert_eq!(below.check_inheritance(), Err(CppDataError::InheritanceCycle { class: 0 }));
}

#[test]
fn registry_entries_must_name_template_classes() {
    let types = || {
        vec![
            class("Vector", vec![], true),
            class("Widget", vec![], false),
            CppTypeData {
                name: "Color".to_string(),
                header: "h.h".to_string(),
                kind: CppTypeKind::Enum { values: vec![] },
            },
        ]
    };
    assert_eq!(model(types(), vec!["Vector", "Vector"]).check_instantiations(), Ok(()));
    assert_eq!(model(types(), vec![]).check_instantiations(), Ok(()));
    assert_eq!(
        model(types(), vec!["Vector", "Widget"]).check_instantiations(),
        Err(CppDataError::DanglingInstantiation { entry: 1 })
    );
    assert_eq!(
        model(types(), vec!["Color", "Nothing"]).check_instantiations(),
        Err(CppDataError::DanglingInstantiation { entry: 0 })
    );
    assert_eq!(
        model(types(), vec!["Vector", "Vector", "Nothing"]).check_instantiations(),
        Err(CppDataError::DanglingInstantiation { entry: 2 })
    );
    let empty_arguments = CppTypeData {
        name: "Odd".to_string(),
        header: "h.h".to_string(),
        kind: CppTypeKind::Class {
            size: None,
            bases: vec![],
            fields: vec![],
            template_arguments: Some(vec![]),
        },
    };
    assert!(!empty_arguments.is_template_class());
    assert!(class("Vector", vec![], true).is_template_class());
}

#[test]
fn shim_names_follow_the_package() {
    let lib = c_lib_name(&"qt_core".to_string());
    assert_eq!(lib, "qt_core_c");
    assert_eq!(global_header_name(&lib), "qt_core_c_global.h");
    assert_eq!(
        include_directives_code(&vec!["QtCore".to_string(), "a/b.h".to_string()]),
        "#include \"QtCore\"\n#include \"a/b.h\""
    );
    assert_eq!(include_directives_code(&vec![]), "");
}

fn show(v: &TomlValue) -> String {
    match v {
        TomlValue::Text(s) => format!("{:?}", s),
        TomlValue::Integer(i) => format!("{}", i),
        TomlValue::Float(b) => format!("f{}", b),
        TomlValue::Boolean(b) => format!("{}", b),
        TomlValue::Datetime(s) => format!("@{}", s),
        TomlValue::Array(items) => {
            format!("[{}]", items.iter().map(show).collect::<Vec<_>>().join(", "))
        }
        TomlValue::Table(entries) => format!(
            "{{{}}}",
            entries
                .iter()
                .map(|e| format!("{} = {}", e.key, show(&e.value)))
                .collect::<Vec<_>>()
                .join(", ")
        ),
    }
}

fn dependency(name: &str, version: &str, path: Option<&str>) -> CrateDependency {
    CrateDependency {
        name: name.to_string(),
        version: version.to_string(),
        local_path: path.map(|p| p.to_string()),
    }
}

#[test]
fn dependency_is_a_version_or_a_table() {
    let d = dependency("cpp_utils", "0.2", Some("../cpp_utils"));
    assert_eq!(show(&dependency_value(&d, false)), "\"0.2\"");
    assert_eq!(
        show(&dependency_value(&d, true)),
        "{version = \"0.2\", path = \"../cpp_utils\"}"
    );
    let plain = dependency("libc", "0.2", None);
    assert_eq!(show(&dependency_value(&plain, true)), "\"0.2\"");
}

#[test]
fn own_dependencies_replace_the_defaults() {
    let defaults = vec![dependency("cpp_utils", "0.2", None), dependency("qt_core", "0.1", None)];
    let own = vec![dependency("libc", "0.2", None), dependency("cpp_utils", "9", None)];
    assert_eq!(
        show(&dependencies_table(&defaults, false, &own, false)),
        "{cpp_utils = \"9\", qt_core = \"0.1\", libc = \"0.2\"}"
    );
    assert_eq!(
        show(&dependencies_table(&defaults, true, &own, false)),
        "{libc = \"0.2\", cpp_utils = \"9\"}"
    );
    assert_eq!(show(&dependencies_table(&vec![], false, &vec![], true)), "{}");
}

#[test]
fn table_insert_replaces_or_appends() {
    let mut entries = vec![TomlEntry { key: "a".to_string(), value: TomlValue::Integer(1) }];
    table_insert(&mut entries, "b".to_string(), TomlValue::Integer(2));
    table_insert(&mut entries, "a".to_string(), TomlValue::Boolean(true));
    assert_eq!(show(&TomlValue::Table(entries)), "{a = true, b = 2}");
}

#[test]
fn manifest_is_merged_with_the_custom_fields() {
    let deps = dependencies_table(&vec![dependency("cpp_utils", "0.2", None)], false, &vec![], false);
    let build_deps = dependencies_table(&vec![], false, &vec![], false);
    let custom = TomlValue::Table(vec![
        TomlEntry {
            key: "package".to_string(),
            value: TomlValue::Table(vec![
                TomlEntry { key: "edition".to_string(), value: TomlValue::Text("2021".to_string()) },
                TomlEntry { key: "license".to_string(), value: TomlValue::Text("MIT".to_string()) },
            ]),
        },
        TomlEntry { key: "features".to_string(), value: TomlValue::Table(vec![]) },
    ]);
    let manifest =
        crate_manifest(&"qt_core".to_string(), &"0.1.0".to_string(), deps, build_deps, custom);
    assert_eq!(
        show(&manifest),
        "{package = {name = \"qt_core\", version = \"0.1.0\", build = \"build.rs\", \
         edition = \"2021\", license = \"MIT\"}, dependencies = {cpp_utils = \"0.2\"}, \
         build-dependencies = {}, features = {}}"
    );
}
