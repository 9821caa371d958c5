use gospin::imports::extract_imports;

// The extraction scenario: the standard-library path has no dot and is
// dropped, the self-import references the namespace and is dropped, and
// only the foreign package remains.
#[test]
fn extracts_only_foreign_imports() {
    let content = "import (\n    \"fmt\"\n    \"github.com/labstack/echo/v4\"\n    \"github.com/alice/myproj/internal/models\"\n)\n";
    let found = extract_imports(content, "alice");
    assert_eq!(found, vec!["github.com/labstack/echo/v4".to_string()]);
}

#[test]
fn ignores_text_outside_import_blocks() {
    let content = "\"github.com/x/y\"\nimport (\n\t\"github.com/a/b\"\n)\n\"github.com/c/d\"\n";
    let found = extract_imports(content, "alice");
    assert_eq!(found, vec!["github.com/a/b".to_string()]);
}

#[test]
fn skips_comments_and_placeholder_paths() {
    let content =
        "import (\n\t// \"github.com/a/commented\"\n\t\"github.com/__username__/self\"\n\t\"github.com/kept/pkg\"\n)\n";
    let found = extract_imports(content, "bob");
    assert_eq!(found, vec!["github.com/kept/pkg".to_string()]);
}

#[test]
fn unterminated_block_yields_partial_result() {
    let content = "import (\n\t\"github.com/one/two\"\n\t\"fmt\"";
    let found = extract_imports(content, "alice");
    assert_eq!(found, vec!["github.com/one/two".to_string()]);
}

#[test]
fn removes_spaces_inside_paths() {
    let content = "import (\n\t\"github.com/a / b\"\n)\n";
    let found = extract_imports(content, "alice");
    assert_eq!(found, vec!["github.com/a/b".to_string()]);
}

#[test]
fn duplicates_are_kept_in_order_for_the_caller() {
    let content = "import (\n\t\"github.com/a/b\"\n)\nimport (\n\t\"github.com/a/b\"\n)\n";
    let found = extract_imports(content, "alice");
    assert_eq!(
        found,
        vec!["github.com/a/b".to_string(), "github.com/a/b".to_string()]
    );
}
