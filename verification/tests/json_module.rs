use source_resolve::json_module::{export_code, json_module_code, json_module_title};

#[test]
fn module_code_parses_the_document_at_run_time() {
    assert_eq!(
        json_module_code("{\"a\":1}"),
        "__turbopack_export_value__(JSON.parse(\"{\\\"a\\\":1}\"));"
    );
}

#[test]
fn module_code_escapes_line_breaks_and_backslashes() {
    assert_eq!(
        json_module_code("[\"x\\y\",\n2]"),
        "__turbopack_export_value__(JSON.parse(\"[\\\"x\\\\y\\\",\\n2]\"));"
    );
}

#[test]
fn export_code_wraps_the_literal() {
    assert_eq!(
        export_code("\"1\""),
        "__turbopack_export_value__(JSON.parse(\"1\"));"
    );
}

#[test]
fn module_title_names_the_path() {
    assert_eq!(json_module_title("src/data.json"), "src/data.json (json)");
}
