use abide_vfs::path::{
    base_name, file_extension, parent_steps, split_components, split_segments, walk_steps,
};
use std::path::Path;

fn strings(items: &[&str]) -> Vec<String> {
    items.iter().map(|s| s.to_string()).collect()
}

fn std_components(path: &str) -> Vec<String> {
    Path::new(path).components().map(|c| c.as_os_str().to_string_lossy().to_string()).collect()
}

fn std_file_name(path: &str) -> Option<String> {
    Path::new(path).file_name().map(|n| n.to_string_lossy().to_string())
}

fn std_extension(path: &str) -> Option<String> {
    Path::new(path).extension().map(|n| n.to_string_lossy().to_string())
}

fn std_parent_steps(path: &str) -> Option<Vec<String>> {
    Path::new(path).parent().map(|p| {
        p.components().skip(1).map(|c| c.as_os_str().to_string_lossy().to_string()).collect()
    })
}

fn samples() -> Vec<&'static str> {
    vec![
        "",
        "/",
        "//",
        "/a",
        "/a/",
        "/a/b",
        "/a//b",
        "/a/./b",
        "/a/b/.",
        "/a/b/..",
        "/..",
        "/.",
        ".",
        "..",
        "./a",
        "./a/b",
        "a",
        "a/",
        "a/b",
        "a/./b",
        "a/../b",
        "/proj/a.py",
        "/proj/src/main.js",
        "/proj/.hidden",
        "/proj/archive.tar.gz",
        "/proj/name.",
        "/proj/.a.b",
        "/proj/README",
        "rel/file.txt",
        "/with space/f i.md",
        "/d\u{e9}j\u{e0}/vu.rs",
    ]
}

#[test]
fn segments_split_on_separators() {
    assert_eq!(split_segments("/a//b/"), strings(&["a", "b"]));
    assert_eq!(split_segments("a/./b"), strings(&["a", ".", "b"]));
    assert_eq!(split_segments(""), strings(&[]));
    assert_eq!(split_segments("///"), strings(&[]));
    assert_eq!(split_segments("abc"), strings(&["abc"]));
}

#[test]
fn components_of_an_absolute_path_start_with_the_root() {
    assert_eq!(split_components("/proj/a.py"), strings(&["/", "proj", "a.py"]));
    assert_eq!(split_components("/"), strings(&["/"]));
}

#[test]
fn components_drop_inner_dots_only() {
    assert_eq!(split_components("/a/./b"), strings(&["/", "a", "b"]));
    assert_eq!(split_components("./a/./b"), strings(&[".", "a", "b"]));
    assert_eq!(split_components("/a/../b"), strings(&["/", "a", "..", "b"]));
}

#[test]
fn components_agree_with_std() {
    for path in samples() {
        assert_eq!(split_components(path), std_components(path), "path {:?}", path);
    }
}

#[test]
fn base_name_agrees_with_std() {
    for path in samples() {
        assert_eq!(base_name(path), std_file_name(path), "path {:?}", path);
    }
}

#[test]
fn extension_agrees_with_std() {
    for path in samples() {
        assert_eq!(file_extension(path), std_extension(path), "path {:?}", path);
    }
}

#[test]
fn parent_steps_agree_with_std() {
    for path in samples() {
        assert_eq!(parent_steps(path), std_parent_steps(path), "path {:?}", path);
    }
}

#[test]
fn walk_steps_skip_the_first_component() {
    for path in samples() {
        let expected: Vec<String> = std_components(path).into_iter().skip(1).collect();
        assert_eq!(walk_steps(path), expected, "path {:?}", path);
    }
}

#[test]
fn base_name_of_paths_without_final_segment_is_none() {
    assert_eq!(base_name(""), None);
    assert_eq!(base_name("/"), None);
    assert_eq!(base_name("/a/.."), None);
    assert_eq!(base_name(".."), None);
    assert_eq!(base_name("."), None);
}

#[test]
fn base_name_ignores_a_trailing_separator() {
    assert_eq!(base_name("/a/b/"), Some("b".to_string()));
}

#[test]
fn extension_follows_the_last_dot() {
    assert_eq!(file_extension("/x/archive.tar.gz"), Some("gz".to_string()));
    assert_eq!(file_extension("/x/name."), Some(String::new()));
    assert_eq!(file_extension("/x/.hidden"), None);
    assert_eq!(file_extension("/x/plain"), None);
}

#[test]
fn parent_of_a_top_level_path_is_the_root() {
    assert_eq!(parent_steps("/a"), Some(strings(&[])));
    assert_eq!(parent_steps("/a/b/c"), Some(strings(&["a", "b"])));
    assert_eq!(parent_steps("/"), None);
    assert_eq!(parent_steps(""), None);
}
