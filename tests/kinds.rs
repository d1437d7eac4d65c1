use build_script::cargo_rustc_link_lib::Kind as LibKind;
use build_script::cargo_rustc_link_search::Kind as SearchKind;

#[test]
fn cargo_rustc_link_lib_test_into_string() {
    let kind: String = LibKind::DynamicLibrary.into();
    assert_eq!(kind, LibKind::DYNAMIC_LIBRARY);
    let kind: String = LibKind::Static.into();
    assert_eq!(kind, LibKind::STATIC);
    let kind: String = LibKind::Framework.into();
    assert_eq!(kind, LibKind::FRAMEWORK)
}

#[test]
fn cargo_rustc_link_search_test_into_string() {
    let kind: String = SearchKind::Dependency.into();
    assert_eq!(kind, SearchKind::DEPENDENCY);
    let kind: String = SearchKind::Crate.into();
    assert_eq!(kind, SearchKind::CRATE);
    let kind: String = SearchKind::Native.into();
    assert_eq!(kind, SearchKind::NATIVE);
    let kind: String = SearchKind::Framework.into();
    assert_eq!(kind, SearchKind::FRAMEWORK);
    let kind: String = SearchKind::All.into();
    assert_eq!(kind, SearchKind::ALL);
}

#[test]
fn kind_labels_are_the_compiler_words() {
    let labels: Vec<&str> = vec![
        LibKind::DynamicLibrary.into(),
        LibKind::Static.into(),
        LibKind::Framework.into(),
    ];
    assert_eq!(labels, vec!["dylib", "static", "framework"]);
    let labels: Vec<&str> = vec![
        SearchKind::Dependency.label(),
        SearchKind::Crate.label(),
        SearchKind::Native.label(),
        SearchKind::Framework.label(),
        SearchKind::All.label(),
    ];
    assert_eq!(labels, vec!["dependency", "crate", "native", "framework", "all"]);
}
