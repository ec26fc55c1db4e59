use glimmerkit_build::rewrite_ext::{rewrite_filename, RewriteExt, EXTENSION_PATTERN};

#[test]
fn relative_specifier_gets_the_extension() {
    assert_eq!(rewrite_filename("./b"), "./b.js");
    assert_eq!(rewrite_filename("../lib/util"), "../lib/util.js");
    assert_eq!(rewrite_filename("."), "..js");
    assert_eq!(rewrite_filename(".."), "...js");
}

#[test]
fn bare_specifier_stays() {
    assert_eq!(rewrite_filename("pkg"), "pkg");
    assert_eq!(rewrite_filename("@scope/pkg/deep"), "@scope/pkg/deep");
    assert_eq!(rewrite_filename("/abs/path"), "/abs/path");
    assert_eq!(rewrite_filename(""), "");
}

#[test]
fn specifier_with_an_extension_stays() {
    assert_eq!(rewrite_filename("./b.js"), "./b.js");
    assert_eq!(rewrite_filename("./b.ts"), "./b.ts");
    assert_eq!(rewrite_filename(".ts"), ".ts");
    assert_eq!(rewrite_filename(".js"), ".js");
}

#[test]
fn only_the_two_extensions_count_and_only_at_the_end() {
    assert_eq!(rewrite_filename("./b.json"), "./b.json.js");
    assert_eq!(rewrite_filename("./b.JS"), "./b.JS.js");
    assert_eq!(rewrite_filename("./b.tsx"), "./b.tsx.js");
    assert_eq!(rewrite_filename("./b.js/c"), "./b.js/c.js");
    assert_eq!(rewrite_filename("./bjs"), "./bjs.js");
    assert_eq!(rewrite_filename("./b.js\n"), "./b.js\n.js");
    assert_eq!(rewrite_filename("./b.js "), "./b.js .js");
}

#[test]
fn specifier_beyond_ascii() {
    assert_eq!(rewrite_filename("./größe"), "./größe.js");
    assert_eq!(rewrite_filename("größe"), "größe");
    assert_eq!(rewrite_filename("./größe.ts"), "./größe.ts");
}

#[test]
fn rewriting_twice_is_rewriting_once() {
    for specifier in ["./b", "./b.js", "./b.ts", "pkg", ".", "", "./a.json", "./b.js\n"] {
        let once = rewrite_filename(specifier);
        assert_eq!(rewrite_filename(&once), once);
    }
}

#[test]
fn import_declaration_is_rewritten() {
    let mut fold = RewriteExt;
    assert_eq!(fold.fold_import_decl("./b".to_string()), "./b.js");
    assert_eq!(fold.fold_import_decl("pkg".to_string()), "pkg");
}

#[test]
fn named_export_is_rewritten_where_it_has_a_source() {
    let mut fold = RewriteExt;
    assert_eq!(fold.fold_named_export(Some("./b".to_string())), Some("./b.js".to_string()));
    assert_eq!(fold.fold_named_export(Some("./b.ts".to_string())), Some("./b.ts".to_string()));
    assert_eq!(fold.fold_named_export(None), None);
}

#[test]
fn the_pattern_names_both_extensions() {
    assert_eq!(EXTENSION_PATTERN, "\\.(ts|js)$");
}
