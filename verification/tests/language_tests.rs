use abide_vfs::language::{detect_language, language_for_extension};

#[test]
fn every_known_extension_has_its_language() {
    let table = [
        ("a.js", "javascript"),
        ("a.jsx", "javascript"),
        ("a.ts", "typescript"),
        ("a.tsx", "typescript"),
        ("a.rs", "rust"),
        ("a.py", "python"),
        ("a.json", "json"),
        ("a.html", "html"),
        ("a.css", "css"),
        ("a.md", "markdown"),
    ];
    for (name, language) in table {
        assert_eq!(detect_language(name), Some(language.to_string()), "name {:?}", name);
    }
}

#[test]
fn unknown_or_missing_extension_has_no_language() {
    assert_eq!(detect_language("a.txt"), None);
    assert_eq!(detect_language("Makefile"), None);
    assert_eq!(detect_language(".py"), None);
    assert_eq!(detect_language("a."), None);
    assert_eq!(detect_language(""), None);
}

#[test]
fn extension_is_compared_exactly() {
    assert_eq!(detect_language("a.PY"), None);
    assert_eq!(detect_language("a.Rs"), None);
}

#[test]
fn only_the_last_extension_counts() {
    assert_eq!(detect_language("bundle.min.js"), Some("javascript".to_string()));
    assert_eq!(detect_language("notes.md.bak"), None);
}

#[test]
fn language_is_that_of_the_final_segment() {
    assert_eq!(detect_language("/proj.rs/readme.md"), Some("markdown".to_string()));
    assert_eq!(detect_language("/proj.rs/readme"), None);
}

#[test]
fn language_for_extension_reads_the_table() {
    assert_eq!(language_for_extension(&"tsx".to_string()), Some("typescript".to_string()));
    assert_eq!(language_for_extension(&"".to_string()), None);
}
