use abide_vfs::error::VfsError;
use abide_vfs::tree::{copy_nodes, find_child, FileNode};

fn dir(name: &str, children: Vec<FileNode>) -> FileNode {
    FileNode {
        id: format!("id-{}", name),
        name: name.to_string(),
        path: format!("/{}", name),
        is_directory: true,
        children,
        file_id: None,
    }
}

fn file(name: &str, file_id: &str) -> FileNode {
    FileNode {
        id: format!("id-{}", name),
        name: name.to_string(),
        path: format!("/{}", name),
        is_directory: false,
        children: vec![],
        file_id: Some(file_id.to_string()),
    }
}

fn steps(items: &[&str]) -> Vec<String> {
    items.iter().map(|s| s.to_string()).collect()
}

fn child_names(node: &FileNode) -> Vec<String> {
    node.children.iter().map(|n| n.name.clone()).collect()
}

#[test]
fn find_child_returns_the_first_match() {
    let children = vec![file("a", "1"), file("b", "2"), file("a", "3")];
    assert_eq!(find_child(&children, &"a".to_string()), Some(0));
    assert_eq!(find_child(&children, &"b".to_string()), Some(1));
    assert_eq!(find_child(&children, &"c".to_string()), None);
    assert_eq!(find_child(&vec![], &"a".to_string()), None);
}

#[test]
fn resolve_follows_the_steps() {
    let root = dir("/", vec![dir("a", vec![dir("b", vec![file("c", "1")])]), file("d", "2")]);
    assert_eq!(root.resolve(&steps(&[])).unwrap().name, "/");
    assert_eq!(root.resolve(&steps(&["a"])).unwrap().name, "a");
    assert_eq!(root.resolve(&steps(&["a", "b", "c"])).unwrap().file_id, Some("1".to_string()));
    assert!(root.resolve(&steps(&["a", "x"])).is_none());
    assert!(root.resolve(&steps(&["d", "x"])).is_none());
    assert!(root.resolve(&steps(&["b"])).is_none());
}

#[test]
fn insert_appends_under_the_directory_reached() {
    let mut root = dir("/", vec![dir("a", vec![file("x", "1")]), dir("b", vec![])]);
    assert_eq!(root.insert(&steps(&["a"]), file("y", "2")), Ok(()));
    assert_eq!(root.insert(&steps(&[]), file("z", "3")), Ok(()));
    assert_eq!(child_names(&root), vec!["a", "b", "z"]);
    assert_eq!(child_names(&root.children[0]), vec!["x", "y"]);
    assert!(root.children[1].children.is_empty());
}

#[test]
fn insert_fails_where_nothing_or_a_file_is_reached() {
    let mut root = dir("/", vec![dir("a", vec![file("x", "1")])]);
    assert_eq!(root.insert(&steps(&["missing"]), file("y", "2")), Err(VfsError::NotFound));
    assert_eq!(root.insert(&steps(&["a", "x"]), file("y", "2")), Err(VfsError::InvalidPath));
    assert_eq!(root.insert(&steps(&["a", "x", "deeper"]), file("y", "2")), Err(VfsError::NotFound));
    assert_eq!(child_names(&root), vec!["a"]);
    assert_eq!(child_names(&root.children[0]), vec!["x"]);
    assert!(root.children[0].children[0].children.is_empty());
}

#[test]
fn insert_goes_into_the_first_of_same_named_directories() {
    let mut root = dir("/", vec![dir("a", vec![]), dir("a", vec![])]);
    root.insert(&steps(&["a"]), file("x", "1")).unwrap();
    assert_eq!(child_names(&root.children[0]), vec!["x"]);
    assert!(root.children[1].children.is_empty());
}

#[test]
fn remove_by_file_ref_scrubs_at_every_depth() {
    let mut root = dir(
        "/",
        vec![
            file("a", "gone"),
            dir("d", vec![file("b", "stay"), file("c", "gone"), dir("e", vec![file("f", "gone")])]),
            file("g", "stay"),
            file("h", "gone"),
        ],
    );
    root.remove_by_file_ref(&"gone".to_string());
    assert_eq!(child_names(&root), vec!["d", "g"]);
    assert_eq!(child_names(&root.children[0]), vec!["b", "e"]);
    assert!(root.children[0].children[1].children.is_empty());
}

#[test]
fn remove_by_file_ref_of_an_unknown_identifier_changes_nothing() {
    let mut root = dir("/", vec![file("a", "1"), dir("d", vec![file("b", "2")])]);
    root.remove_by_file_ref(&"none".to_string());
    assert_eq!(child_names(&root), vec!["a", "d"]);
    assert_eq!(child_names(&root.children[1]), vec!["b"]);
}

#[test]
fn remove_by_file_ref_leaves_the_node_itself() {
    let mut node = file("a", "1");
    node.remove_by_file_ref(&"1".to_string());
    assert_eq!(node.file_id, Some("1".to_string()));
    assert_eq!(node.name, "a");
}

#[test]
fn clone_copies_the_whole_subtree() {
    let source = dir("/", vec![dir("a", vec![file("x", "1")]), file("y", "2")]);
    let mut copy = source.clone();
    assert_eq!(copy.id, source.id);
    assert_eq!(copy.path, source.path);
    assert_eq!(child_names(&copy), vec!["a", "y"]);
    assert_eq!(copy.children[0].children[0].file_id, Some("1".to_string()));
    copy.children[0].children.clear();
    assert_eq!(child_names(&source.children[0]), vec!["x"]);
}

#[test]
fn copy_nodes_keeps_the_order() {
    let nodes = vec![file("b", "1"), file("a", "2"), dir("c", vec![file("d", "3")])];
    let copies = copy_nodes(&nodes);
    let got: Vec<String> = copies.iter().map(|n| n.name.clone()).collect();
    assert_eq!(got, vec!["b", "a", "c"]);
    assert_eq!(copies[2].children[0].name, "d");
    assert!(copy_nodes(&vec![]).is_empty());
}

#[test]
fn list_children_copies_the_children_of_a_directory() {
    let root = dir("/", vec![dir("a", vec![file("x", "1"), file("y", "2")]), file("z", "3")]);
    let listing = root.list_children(&steps(&["a"])).unwrap();
    let got: Vec<String> = listing.iter().map(|n| n.name.clone()).collect();
    assert_eq!(got, vec!["x", "y"]);
    assert_eq!(root.list_children(&steps(&[])).unwrap().len(), 2);
    assert_eq!(root.list_children(&steps(&["z"])).unwrap_err(), VfsError::NotADirectory);
    assert_eq!(root.list_children(&steps(&["q"])).unwrap_err(), VfsError::NotFound);
    assert_eq!(root.list_children(&steps(&["z", "q"])).unwrap_err(), VfsError::NotFound);
}

#[test]
fn resolve_mut_gives_the_place_for_a_change() {
    let mut root = dir("/", vec![dir("a", vec![file("x", "1")]), dir("a", vec![]), file("z", "3")]);
    {
        let place = root.resolve_mut(&steps(&["a"])).unwrap();
        assert_eq!(place.name, "a");
        place.children.push(file("y", "2"));
        place.id = "changed".to_string();
    }
    assert_eq!(child_names(&root.children[0]), vec!["x", "y"]);
    assert_eq!(root.children[0].id, "changed");
    assert!(root.children[1].children.is_empty());
    assert_eq!(child_names(&root), vec!["a", "a", "z"]);
    assert!(root.resolve_mut(&steps(&["missing"])).is_none());
    assert!(root.resolve_mut(&steps(&["z", "below"])).is_none());
    assert_eq!(root.resolve_mut(&steps(&[])).unwrap().name, "/");
    let deep = root.resolve_mut(&steps(&["a", "x"])).unwrap();
    deep.file_id = Some("9".to_string());
    assert_eq!(root.children[0].children[0].file_id, Some("9".to_string()));
}
