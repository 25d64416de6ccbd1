use ai_trpg_engine::importer::read_directory_structure;
use ai_trpg_engine::importer::FileNode;
use ai_trpg_engine::importer::FsNode;

fn file(name: &str, text: Option<&str>) -> FsNode {
    FsNode::File {
        name: name.to_string(),
        path: format!("/import/{}", name),
        text: text.map(|t| t.to_string()),
    }
}

#[test]
fn import_materializes_recognized_text_and_recurses() {
    let root = FsNode::Dir {
        name: "import".to_string(),
        path: "/import".to_string(),
        entries: vec![
            file("notes.md", Some("hello")),
            file("image.png", None),
            FsNode::Dir {
                name: "sub".to_string(),
                path: "/import/sub".to_string(),
                entries: vec![file("deep.txt", Some("world"))],
            },
        ],
    };
    let tree = read_directory_structure(Some(&root), "/import").expect("root is readable");
    assert!(tree.is_dir);
    assert_eq!(tree.name, "import");
    assert_eq!(tree.path, "/import");
    assert_eq!(tree.content, None);
    let children = tree.children.expect("a directory always has a children list");
    assert_eq!(children.len(), 3);

    let notes: &FileNode = &children[0];
    assert_eq!(notes.name, "notes.md");
    assert!(!notes.is_dir);
    assert_eq!(notes.content, Some("hello".to_string()));
    assert!(notes.children.is_none());

    let image: &FileNode = &children[1];
    assert_eq!(image.name, "image.png");
    assert_eq!(image.content, None);

    let sub: &FileNode = &children[2];
    assert!(sub.is_dir);
    assert_eq!(sub.name, "sub");
    let sub_children = sub.children.as_ref().expect("visited directory");
    assert_eq!(sub_children.len(), 1);
    assert_eq!(sub_children[0].name, "deep.txt");
    assert_eq!(sub_children[0].content, Some("world".to_string()));
}

#[test]
fn unreadable_child_is_dropped_and_siblings_kept() {
    let root = FsNode::Dir {
        name: "import".to_string(),
        path: "/import".to_string(),
        entries: vec![
            file("a.md", Some("alpha")),
            FsNode::Unreadable { message: "permission denied".to_string() },
            file("b.txt", Some("beta")),
        ],
    };
    let tree = read_directory_structure(Some(&root), "/import").expect("root is readable");
    let children = tree.children.expect("a directory always has a children list");
    assert_eq!(children.len(), 2);
    assert_eq!(children[0].name, "a.md");
    assert_eq!(children[1].name, "b.txt");
}

#[test]
fn empty_directory_keeps_an_empty_children_list() {
    let root = FsNode::Dir {
        name: "empty".to_string(),
        path: "/empty".to_string(),
        entries: Vec::new(),
    };
    let tree = read_directory_structure(Some(&root), "/empty").expect("root is readable");
    assert_eq!(tree.children, Some(Vec::new()));
    assert_eq!(tree.content, None);
}

#[test]
fn missing_root_fails_with_its_path() {
    let r = read_directory_structure(None, "/nowhere/at/all");
    assert_eq!(r.err(), Some("路径不存在: /nowhere/at/all".to_string()));
}

#[test]
fn unreadable_root_fails_with_the_failure_text() {
    let root = FsNode::Unreadable { message: "os error 13".to_string() };
    let r = read_directory_structure(Some(&root), "/import");
    assert_eq!(r.err(), Some("os error 13".to_string()));
}

#[test]
fn unrecognized_extension_never_carries_content() {
    let root = FsNode::Dir {
        name: "import".to_string(),
        path: "/import".to_string(),
        entries: vec![file("data.json", Some("{\"k\":1}")), file("readme.markdown", Some("m"))],
    };
    let tree = read_directory_structure(Some(&root), "/import").expect("root is readable");
    let children = tree.children.expect("visited directory");
    assert_eq!(children[0].content, None);
    assert_eq!(children[1].content, Some("m".to_string()));
}

#[test]
fn unreadable_recognized_file_keeps_its_node_without_content() {
    let root = FsNode::Dir {
        name: "import".to_string(),
        path: "/import".to_string(),
        entries: vec![file("locked.md", None)],
    };
    let tree = read_directory_structure(Some(&root), "/import").expect("root is readable");
    let children = tree.children.expect("visited directory");
    assert_eq!(children.len(), 1);
    assert_eq!(children[0].name, "locked.md");
    assert_eq!(children[0].content, None);
}
