use cpp_to_rust::launcher::{add_path_items, BuildProfile};
use cpp_to_rust::text::{decimal_text, equals, join};

#[test]
fn profile_names() {
    for name in ["debug", "test", "doc"] {
        assert_eq!(BuildProfile::from_name(&name.to_string()), Some(BuildProfile::Debug));
    }
    for name in ["release", "bench"] {
        assert_eq!(BuildProfile::from_name(&name.to_string()), Some(BuildProfile::Release));
    }
    for name in ["", "Debug", "dev", "release "] {
        assert_eq!(BuildProfile::from_name(&name.to_string()), None);
    }
}

#[test]
fn path_items_are_added_once() {
    let new_paths = vec!["/qt/lib".to_string(), "/c/lib".to_string()];
    let present = vec![
        "/usr/lib".to_string(),
        "/qt/lib".to_string(),
        "/usr/lib".to_string(),
        "/opt".to_string(),
    ];
    assert_eq!(
        add_path_items(new_paths, &present),
        vec!["/qt/lib", "/c/lib", "/usr/lib", "/opt"]
    );
    assert_eq!(add_path_items(vec![], &vec![]), Vec::<String>::new());
    assert_eq!(add_path_items(vec!["a".to_string()], &vec![]), vec!["a"]);
}

#[test]
fn decimal_digits() {
    assert_eq!(decimal_text(0), "0");
    assert_eq!(decimal_text(7), "7");
    assert_eq!(decimal_text(10), "10");
    assert_eq!(decimal_text(1234567890), "1234567890");
    assert_eq!(decimal_text(usize::MAX), usize::MAX.to_string());
}

#[test]
fn join_puts_the_separator_between() {
    assert_eq!(join(&vec![], "_"), "");
    assert_eq!(join(&vec!["a".to_string()], "_"), "a");
    assert_eq!(join(&vec!["a".to_string(), "".to_string(), "c".to_string()], "_"), "a__c");
    assert!(equals(&"self".to_string(), "self"));
    assert!(!equals(&"self".to_string(), "Self"));
}

#[test]
fn link_items_of_a_shared_library() {
    let extra = vec!["GL".to_string(), "z".to_string()];
    let items = cpp_to_rust::launcher::link_items(&"Qt5Gui".to_string(), &extra, false, false);
    let shown: Vec<String> = items.iter().map(|i| format!("{:?} {}", i.kind, i.name)).collect();
    assert_eq!(shown, vec!["SharedLibrary Qt5Gui", "SharedLibrary GL", "SharedLibrary z"]);
    let items = cpp_to_rust::launcher::link_items(&"Qt5Gui".to_string(), &extra, true, false);
    let shown: Vec<String> = items.iter().map(|i| format!("{:?} {}", i.kind, i.name)).collect();
    assert_eq!(shown, vec!["SharedLibrary Qt5Gui", "SharedLibrary z"]);
}

#[test]
fn link_items_of_a_framework() {
    let extra = vec!["GL".to_string()];
    let items = cpp_to_rust::launcher::link_items(&"Qt5Gui".to_string(), &extra, false, true);
    let shown: Vec<String> = items.iter().map(|i| format!("{:?} {}", i.kind, i.name)).collect();
    assert_eq!(shown, vec!["Framework QtGui"]);
    let items = cpp_to_rust::launcher::link_items(&"sqlite".to_string(), &extra, false, true);
    let shown: Vec<String> = items.iter().map(|i| format!("{:?} {}", i.kind, i.name)).collect();
    assert_eq!(shown, vec!["SharedLibrary sqlite", "SharedLibrary GL"]);
}

#[test]
fn long_path_marker_is_taken_off() {
    let f = |s: &str| cpp_to_rust::launcher::path_without_long_path(&s.to_string());
    assert_eq!(f("C:\\qt\\lib"), Some("C:\\qt\\lib".to_string()));
    assert_eq!(f("\\\\?\\C:\\qt"), Some("C:\\qt".to_string()));
    assert_eq!(f("\\\\?\\"), Some(String::new()));
    assert_eq!(f(""), Some(String::new()));
    let long = "x".repeat(255);
    assert_eq!(f(&format!("\\\\?\\{}", long)), Some(long.clone()));
    assert_eq!(f(&format!("\\\\?\\{}y", long)), None);
    assert_eq!(f(&format!("{}yyyy", long)), Some(format!("{}yyyy", long)));
}

#[test]
fn starts_with_and_skip() {
    assert!(cpp_to_rust::text::starts_with(&"Qt5Core".to_string(), "Qt5"));
    assert!(cpp_to_rust::text::starts_with(&"Qt5".to_string(), ""));
    assert!(!cpp_to_rust::text::starts_with(&"Qt".to_string(), "Qt5"));
    assert!(!cpp_to_rust::text::starts_with(&"qt5core".to_string(), "Qt5"));
    assert_eq!(cpp_to_rust::text::skip_chars(&"héllo".to_string(), 2), "llo");
    assert_eq!(cpp_to_rust::text::skip_chars(&"ab".to_string(), 2), "");
}

#[test]
fn doc_data_variable_is_in_upper_case() {
    assert_eq!(
        cpp_to_rust::launcher::doc_data_variable(&"Qt5Core".to_string()),
        "QT5CORE_DOC_DATA"
    );
    assert_eq!(cpp_to_rust::launcher::doc_data_variable(&String::new()), "_DOC_DATA");
}

#[test]
fn make_is_told_the_number_of_jobs() {
    assert_eq!(cpp_to_rust::launcher::make_arguments(false, 8), vec!["-j8", "install"]);
    assert_eq!(cpp_to_rust::launcher::make_arguments(false, 0), vec!["-j0", "install"]);
    assert_eq!(cpp_to_rust::launcher::make_arguments(true, 8), vec!["install"]);
}

#[test]
fn shared_shim_links_to_all_libraries() {
    let libs = vec![
        cpp_to_rust::launcher::CppLibSpec {
            name: "Qt5Core".to_string(),
            extra_libs: None,
        },
        cpp_to_rust::launcher::CppLibSpec {
            name: "Qt5Gui".to_string(),
            extra_libs: Some(vec!["GL".to_string(), "png".to_string(), "GL".to_string()]),
        },
        cpp_to_rust::launcher::CppLibSpec { name: "GL".to_string(), extra_libs: Some(vec![]) },
    ];
    assert_eq!(
        cpp_to_rust::launcher::cpp_libs(&libs, false),
        vec!["Qt5Core", "Qt5Gui", "GL", "png", "GL", "GL"]
    );
    assert_eq!(
        cpp_to_rust::launcher::cpp_libs(&libs, true),
        vec!["Qt5Core", "Qt5Gui", "png", "GL"]
    );
    assert!(cpp_to_rust::launcher::cpp_libs(&vec![], true).is_empty());
}
