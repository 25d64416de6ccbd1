//! The recursive directory-tree importer.
//!
//! An import turns one observed filesystem subtree into a `FileNode`
//! tree. The observation is handed in as an `FsNode` snapshot: for each
//! entry either what the filesystem reported, or `Unreadable` where the
//! visit failed (metadata or listing could not be read). The policy is
//! deliberately asymmetric: an unreadable entry is dropped from its
//! parent's children entirely, while a file whose text could not be read
//! keeps its node and merely lacks `content`. Only a failure at the very
//! root aborts the import.

use crate::names::is_recognized_text_name;
use crate::names::is_text_doc_name;
use vstd::prelude::*;

verus! {

/// One entry of an imported directory tree: a directory with its
/// children, or a file, with its text attached when the extension is
/// recognized and the text could be read.
#[derive(Debug, PartialEq, Eq)]
pub struct FileNode {
    pub name: String,
    pub path: String,
    pub is_dir: bool,
    pub content: Option<String>,
    pub children: Option<Vec<FileNode>>,
}

/// What one filesystem visit observed at one path.
#[derive(Debug)]
pub enum FsNode {
    /// A directory together with the visits of its direct entries.
    Dir { name: String, path: String, entries: Vec<FsNode> },
    /// A regular file; `text` holds its contents when the name carries a
    /// recognized extension and the read succeeded, and nothing otherwise.
    File { name: String, path: String, text: Option<String> },
    /// The visit failed here: metadata or the directory listing could
    /// not be read. `message` is the failure's text.
    Unreadable { message: String },
}

/// `out` is the import of the observed entry `n`.
pub open spec fn imports_to(n: FsNode, out: FileNode) -> bool
    decreases n,
{
    match n {
        FsNode::Dir { name, path, entries } => {
            &&& out.name@ == name@
            &&& out.path@ == path@
            &&& out.is_dir == true
            &&& out.content is None
            &&& out.children matches Some(cs) && children_import_to(entries@, cs@)
        },
        FsNode::File { name, path, text } => {
            &&& out.name@ == name@
            &&& out.path@ == path@
            &&& out.is_dir == false
            &&& out.content.deep_view() == (if is_text_doc_name(name@) {
                text.deep_view()
            } else {
                None::<Seq<char>>
            })
            &&& out.children is None
        },
        FsNode::Unreadable { .. } => false,
    }
}

/// `cs` are the imports of the readable entries among `es`, in order;
/// the unreadable ones are dropped.
pub open spec fn children_import_to(es: Seq<FsNode>, cs: Seq<FileNode>) -> bool
    decreases es,
{
    if es.len() == 0 {
        cs.len() == 0
    } else if es[0] is Unreadable {
        children_import_to(es.drop_first(), cs)
    } else {
        &&& cs.len() > 0
        &&& imports_to(es[0], cs[0])
        &&& children_import_to(es.drop_first(), cs.drop_first())
    }
}

proof fn lemma_children_snoc_readable(es: Seq<FsNode>, cs: Seq<FileNode>, e: FsNode, out: FileNode)
    requires
        children_import_to(es, cs),
        imports_to(e, out),
    ensures
        children_import_to(es.push(e), cs.push(out)),
    decreases es,
{
    reveal_with_fuel(children_import_to, 2);
    assert(!(e is Unreadable));
    if es.len() == 0 {
        assert(es.push(e)[0] == e);
        assert(cs.push(out)[0] == out);
        assert(es.push(e).drop_first() =~= Seq::<FsNode>::empty());
        assert(cs.push(out).drop_first() =~= Seq::<FileNode>::empty());
    } else if es[0] is Unreadable {
        lemma_children_snoc_readable(es.drop_first(), cs, e, out);
        assert(es.push(e)[0] == es[0]);
        assert(es.push(e).drop_first() =~= es.drop_first().push(e));
    } else {
        lemma_children_snoc_readable(es.drop_first(), cs.drop_first(), e, out);
        assert(es.push(e)[0] == es[0]);
        assert(cs.push(out)[0] == cs[0]);
        assert(es.push(e).drop_first() =~= es.drop_first().push(e));
        assert(cs.push(out).drop_first() =~= cs.drop_first().push(out));
    }
}

proof fn lemma_children_snoc_unreadable(es: Seq<FsNode>, cs: Seq<FileNode>, e: FsNode)
    requires
        children_import_to(es, cs),
        e is Unreadable,
    ensures
        children_import_to(es.push(e), cs),
    decreases es,
{
    reveal_with_fuel(children_import_to, 2);
    if es.len() == 0 {
        assert(es.push(e)[0] == e);
        assert(es.push(e).drop_first() =~= Seq::<FsNode>::empty());
    } else if es[0] is Unreadable {
        lemma_children_snoc_unreadable(es.drop_first(), cs, e);
        assert(es.push(e)[0] == es[0]);
        assert(es.push(e).drop_first() =~= es.drop_first().push(e));
    } else {
        lemma_children_snoc_unreadable(es.drop_first(), cs.drop_first(), e);
        assert(es.push(e)[0] == es[0]);
        assert(es.push(e).drop_first() =~= es.drop_first().push(e));
    }
}

/// Imports one observed entry, depth first. Nothing comes back exactly
/// where the visit failed; a directory keeps only the children whose own
/// visits succeeded.
#[verifier::loop_isolation(false)]
pub fn read_dir_recursive(n: &FsNode) -> (r: Option<FileNode>)
    ensures
        match r {
            Some(out) => imports_to(*n, out),
            None => *n is Unreadable,
        },
    decreases *n,
{
    match n {
        FsNode::Dir { name, path, entries } => {
            let mut children: Vec<FileNode> = Vec::new();
            let mut j: usize = 0;
            while j < entries.len()
                invariant
                    j <= entries.len(),
                    children_import_to(entries@.subrange(0, j as int), children@),
                decreases entries.len() - j,
            {
                let ghost pre_children = children@;
                proof {
                    assert(decreases_to!(*n => n->Dir_entries));
                    assert(decreases_to!(*entries => entries@));
                    assert(decreases_to!(entries@ => entries@[j as int]));
                }
                let child = read_dir_recursive(&entries[j]);
                proof {
                    assert(entries@.subrange(0, j as int + 1) =~= entries@.subrange(
                        0,
                        j as int,
                    ).push(entries@[j as int]));
                }
                match child {
                    Some(out) => {
                        proof {
                            lemma_children_snoc_readable(
                                entries@.subrange(0, j as int),
                                pre_children,
                                entries@[j as int],
                                out,
                            );
                        }
                        children.push(out);
                    },
                    None => {
                        proof {
                            lemma_children_snoc_unreadable(
                                entries@.subrange(0, j as int),
                                pre_children,
                                entries@[j as int],
                            );
                        }
                    },
                }
                j = j + 1;
            }
            proof {
                assert(entries@.subrange(0, entries@.len() as int) =~= entries@);
            }
            Some(
                FileNode {
                    name: name.clone(),
                    path: path.clone(),
                    is_dir: true,
                    content: None,
                    children: Some(children),
                },
            )
        },
        FsNode::File { name, path, text } => {
            let content: Option<String> = if is_recognized_text_name(name.as_str()) {
                match text {
                    Some(t) => Some(t.clone()),
                    None => None,
                }
            } else {
                None
            };
            Some(
                FileNode {
                    name: name.clone(),
                    path: path.clone(),
                    is_dir: false,
                    content,
                    children: None,
                },
            )
        },
        FsNode::Unreadable { .. } => None,
    }
}

/// The error text reported when the import's root path does not exist.
pub open spec fn missing_root_message(dir_path: Seq<char>) -> Seq<char> {
    "路径不存在: "@ + dir_path
}

/// Imports the subtree rooted at `dir_path`. `snapshot` is what the
/// filesystem observation found there, and nothing when the path does
/// not exist. Only a failure at the root itself makes the import fail:
/// with a missing root, its own text; with an unreadable root, the
/// failure's text.
pub fn read_directory_structure(snapshot: Option<&FsNode>, dir_path: &str) -> (r: Result<
    FileNode,
    String,
>)
    ensures
        match r {
            Ok(out) => snapshot matches Some(n) && imports_to(*n, out),
            Err(e) => match snapshot {
                None => e@ == missing_root_message(dir_path@),
                Some(n) => *n matches FsNode::Unreadable { message } && e@ == message@,
            },
        },
{
    match snapshot {
        None => {
            let mut m = "路径不存在: ".to_owned();
            m.append(dir_path);
            Err(m)
        },
        Some(node) => {
            if let FsNode::Unreadable { message } = node {
                Err(message.clone())
            } else {
                match read_dir_recursive(node) {
                    Some(out) => Ok(out),
                    None => vstd::pervasive::unreached(),
                }
            }
        },
    }
}

} // verus!
