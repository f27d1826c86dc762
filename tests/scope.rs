use rest_api_lints::scope::{is_in_api_rest_folder, is_within, path_contains_components, SourceMap};
use rest_api_lints::syntax::Span;

fn map() -> SourceMap {
    SourceMap {
        files: vec![
            Some("/hyperspot/modules/some_module/api/rest/dto.rs".to_string()),
            Some("/hyperspot/modules/some_module/other/structs.rs".to_string()),
            None,
            Some("/hyperspot/apiary/rest/dto.rs".to_string()),
            Some("/hyperspot/modules/some_module/api/rest/dto.rs".to_string()),
        ],
    }
}

fn span(file: usize) -> Span {
    Span { file, lo: 0, hi: 1 }
}

#[test]
fn api_rest_paths_are_in_scope() {
    assert!(is_in_api_rest_folder(&map(), span(0)));
    assert!(!is_in_api_rest_folder(&map(), span(1)));
    assert!(!is_in_api_rest_folder(&map(), span(3)));
}

#[test]
fn unresolved_files_are_out_of_scope() {
    assert!(!is_in_api_rest_folder(&map(), span(2)));
    assert!(!is_in_api_rest_folder(&map(), span(17)));
}

#[test]
fn components_must_be_whole_and_adjacent() {
    assert!(path_contains_components("api/rest", "api/rest"));
    assert!(path_contains_components("x/api/rest/y.rs", "api/rest"));
    assert!(!path_contains_components("x/apiary/rest/y.rs", "api/rest"));
    assert!(!path_contains_components("x/myapi/rest/y.rs", "api/rest"));
    assert!(!path_contains_components("x/api/restful/y.rs", "api/rest"));
    assert!(!path_contains_components("x/api/v1/rest/y.rs", "api/rest"));
    assert!(!path_contains_components("rest/api", "api/rest"));
    assert!(!path_contains_components("api", "api/rest"));
}

#[test]
fn scope_depends_on_path_only() {
    let m = map();
    let first = is_within(&m, span(0), "api/rest");
    let _other = is_within(&m, span(1), "api/rest");
    let again = is_within(&m, span(0), "api/rest");
    let same_path = is_within(&m, span(4), "api/rest");
    assert_eq!(first, again);
    assert_eq!(first, same_path);
}
