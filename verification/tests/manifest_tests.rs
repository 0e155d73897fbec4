use cpp_to_rust::manifest::{find_key, recursive_merge_toml, TomlEntry, TomlValue};

fn text(s: &str) -> TomlValue {
    TomlValue::Text(s.to_string())
}

fn entry(k: &str, v: TomlValue) -> TomlEntry {
    TomlEntry { key: k.to_string(), value: v }
}

fn show(v: &TomlValue) -> String {
    match v {
        TomlValue::Text(s) => format!("{:?}", s),
        TomlValue::Integer(i) => format!("{}", i),
        TomlValue::Float(b) => format!("f{}", b),
        TomlValue::Boolean(b) => format!("{}", b),
        TomlValue::Datetime(s) => format!("@{}", s),
        TomlValue::Array(items) => {
            format!("[{}]", items.iter().map(show).collect::<Vec<_>>().join(", "))
        }
        TomlValue::Table(entries) => format!(
            "{{{}}}",
            entries
                .iter()
                .map(|e| format!("{} = {}", e.key, show(&e.value)))
                .collect::<Vec<_>>()
                .join(", ")
        ),
    }
}

fn generated() -> TomlValue {
    TomlValue::Table(vec![
        entry(
            "package",
            TomlValue::Table(vec![
                entry("name", text("qt_core")),
                entry("version", text("0.1.0")),
                entry("authors", TomlValue::Array(vec![text("gen")])),
            ]),
        ),
        entry("dependencies", TomlValue::Table(vec![entry("cpp_utils", text("0.2"))])),
    ])
}

fn user() -> TomlValue {
    TomlValue::Table(vec![
        entry("features", TomlValue::Table(vec![entry("default", TomlValue::Array(vec![]))])),
        entry(
            "package",
            TomlValue::Table(vec![
                entry("version", text("9.9.9")),
                entry("authors", TomlValue::Array(vec![text("me"), text("you")])),
                entry("license", text("MIT")),
            ]),
        ),
        entry("dependencies", TomlValue::Table(vec![entry("cpp_utils", TomlValue::Integer(3))])),
    ])
}

#[test]
fn merge_joins_arrays_and_lets_the_second_win() {
    let merged = recursive_merge_toml(generated(), user());
    assert_eq!(
        show(&merged),
        "{package = {name = \"qt_core\", version = \"9.9.9\", authors = [\"gen\", \"me\", \"you\"], \
         license = \"MIT\"}, dependencies = {cpp_utils = 3}, features = {default = []}}"
    );
}

#[test]
fn merge_twice_gives_the_same() {
    let one = recursive_merge_toml(generated(), user());
    let two = recursive_merge_toml(generated(), user());
    assert_eq!(show(&one), show(&two));
}

#[test]
fn merge_of_arrays_appends() {
    let a = TomlValue::Array(vec![TomlValue::Integer(1), TomlValue::Integer(2)]);
    let b = TomlValue::Array(vec![TomlValue::Integer(2), TomlValue::Integer(3)]);
    assert_eq!(show(&recursive_merge_toml(a, b)), "[1, 2, 2, 3]");
}

#[test]
fn merge_of_unlike_values_takes_the_second() {
    let a = TomlValue::Array(vec![TomlValue::Integer(1)]);
    assert_eq!(show(&recursive_merge_toml(a, TomlValue::Boolean(true))), "true");
    let t = TomlValue::Table(vec![entry("k", text("v"))]);
    assert_eq!(show(&recursive_merge_toml(t, TomlValue::Array(vec![]))), "[]");
    assert_eq!(show(&recursive_merge_toml(text("a"), text("b"))), "\"b\"");
    assert_eq!(show(&recursive_merge_toml(TomlValue::Float(1), TomlValue::Float(2))), "f2");
    assert_eq!(
        show(&recursive_merge_toml(
            TomlValue::Datetime("1979-05-27".to_string()),
            TomlValue::Integer(-4)
        )),
        "-4"
    );
}

#[test]
fn merge_with_empty_table_keeps_the_other() {
    let merged = recursive_merge_toml(generated(), TomlValue::Table(vec![]));
    assert_eq!(show(&merged), show(&generated()));
    let merged = recursive_merge_toml(TomlValue::Table(vec![]), user());
    assert_eq!(show(&merged), show(&user()));
}

#[test]
fn find_key_gives_the_first_place() {
    let entries = vec![entry("a", text("1")), entry("b", text("2")), entry("a", text("3"))];
    assert_eq!(find_key(&entries, &"a".to_string()), Some(0));
    assert_eq!(find_key(&entries, &"b".to_string()), Some(1));
    assert_eq!(find_key(&entries, &"c".to_string()), None);
}
