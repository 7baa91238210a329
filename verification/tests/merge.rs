use playground_core::gist::{gist_description, gist_filename, merge_files, Gist};

fn pair(name: &str, content: &str) -> (String, String) {
    (name.to_string(), content.to_string())
}

#[test]
fn merge_two_files_sorted_with_markers() {
    let files = vec![pair("b.rs", "fn b(){}"), pair("a.rs", "fn a(){}")];
    let merged = merge_files(files);
    assert_eq!(merged, "// a.rs\nfn a(){}\n\n// b.rs\nfn b(){}\n\n");
}

#[test]
fn merge_single_file_is_bare_content() {
    let files = vec![pair("playground.rs", "fn main(){}")];
    let merged = merge_files(files);
    assert_eq!(merged, "fn main(){}");
}

#[test]
fn merge_no_files_is_empty() {
    let merged = merge_files(Vec::new());
    assert_eq!(merged, "");
}

#[test]
fn merge_is_independent_of_input_order() {
    let one = merge_files(vec![
        pair("c.rs", "mod c;"),
        pair("a.rs", "mod a;"),
        pair("b.rs", "mod b;"),
    ]);
    let two = merge_files(vec![
        pair("a.rs", "mod a;"),
        pair("b.rs", "mod b;"),
        pair("c.rs", "mod c;"),
    ]);
    assert_eq!(one, two);
    assert_eq!(one, "// a.rs\nmod a;\n\n// b.rs\nmod b;\n\n// c.rs\nmod c;\n\n");
}

#[test]
fn gist_keeps_id_and_url_and_merges_code() {
    let g = Gist::new(
        "abc123".to_string(),
        "https://example.invalid/abc123".to_string(),
        vec![pair("main.rs", "fn main(){}"), pair("lib.rs", "pub fn f(){}")],
    );
    assert_eq!(g.id, "abc123");
    assert_eq!(g.url, "https://example.invalid/abc123");
    assert_eq!(g.code, "// lib.rs\npub fn f(){}\n\n// main.rs\nfn main(){}\n\n");
}

#[test]
fn gist_store_constants() {
    assert_eq!(gist_filename(), "playground.rs");
    assert_eq!(gist_description(), "Code shared from the Rust Playground");
}
