//! The file system: the namespace tree and the content store behind one
//! interface that keeps the two in step.

use crate::clock::{now, Timestamp};
use crate::error::VfsError;
use crate::ident::fresh_id;
use crate::language::{detect_language, detected_language};
use crate::laws::{
    lemma_insert_keeps_node, lemma_insert_well_formed, lemma_scrub_well_formed,
    lemma_well_formed_more,
};
use crate::path::{
    base_name, file_name, lemma_file_name_is_segment, parent_steps, parent_walk, root_name, walk,
    walk_steps,
};
use crate::store::{ContentStore, FileSpec, VirtualFile};
use crate::tree::{
    insert_at, listing_value, resolve, scrub, views, well_formed_node, FileNode, NodeSpec,
};
use vstd::prelude::*;
use vstd::string::*;

verus! {

/// The mathematical value of a file system: its records by identifier and
/// its tree.
pub struct FsSpec {
    pub files: Map<Seq<char>, FileSpec>,
    pub root: NodeSpec,
}

/// The root of an empty tree, with `id` for its own identifier.
pub open spec fn empty_root(id: Seq<char>) -> NodeSpec {
    NodeSpec {
        id,
        name: root_name(),
        path: root_name(),
        is_directory: true,
        children: Seq::empty(),
        file_id: None,
    }
}

/// A node without children for `path`: a directory, or a file that denotes
/// the record `id`.
pub open spec fn leaf(path: Seq<char>, node_id: Seq<char>, id: Seq<char>, is_directory: bool)
    -> NodeSpec {
    NodeSpec {
        id: node_id,
        name: file_name(path).unwrap(),
        path,
        is_directory,
        children: Seq::empty(),
        file_id: if is_directory {
            None
        } else {
            Some(id)
        },
    }
}

/// The record of a file created at `path` with `content` at the time `now`.
pub open spec fn new_record(path: Seq<char>, content: Seq<char>, id: Seq<char>, now: Timestamp)
    -> FileSpec {
    FileSpec {
        id,
        name: file_name(path).unwrap(),
        content,
        language: detected_language(path),
        created_at: now,
        modified_at: now,
    }
}

impl FsSpec {
    /// The file system without files, whose root carries `root_id`.
    pub open spec fn empty(root_id: Seq<char>) -> FsSpec {
        FsSpec { files: Map::empty(), root: empty_root(root_id) }
    }

    /// The node that `path` names.
    pub open spec fn node_at(self, path: Seq<char>) -> Option<NodeSpec> {
        resolve(self.root, walk(path))
    }

    /// Why nothing can be created at `path`, if so: the path has no final
    /// segment, its parent names nothing, or its parent is a file.
    pub open spec fn create_error(self, path: Seq<char>) -> Option<VfsError> {
        if file_name(path) is None {
            Some(VfsError::InvalidPath)
        } else {
            match resolve(self.root, parent_walk(path).unwrap()) {
                None => Some(VfsError::NotFound),
                Some(parent) => if parent.is_directory {
                    None
                } else {
                    Some(VfsError::InvalidPath)
                },
            }
        }
    }

    /// Why no node can be added for `path`, if so: nothing can be created at
    /// `path`, or the node is to denote a record `id` that is not there.
    pub open spec fn attach_error(self, path: Seq<char>, id: Seq<char>, is_directory: bool)
        -> Option<VfsError> {
        match self.create_error(path) {
            Some(e) => Some(e),
            None => if !is_directory && !self.files.contains_key(id) {
                Some(VfsError::NotFound)
            } else {
                None
            },
        }
    }

    /// This file system with `node` appended under the parent of `path`.
    pub open spec fn with_node(self, path: Seq<char>, node: NodeSpec) -> FsSpec {
        FsSpec { root: insert_at(self.root, parent_walk(path).unwrap(), node), ..self }
    }

    /// This file system after a file was created at `path`.
    pub open spec fn with_file(
        self,
        path: Seq<char>,
        content: Seq<char>,
        id: Seq<char>,
        node_id: Seq<char>,
        now: Timestamp,
    ) -> FsSpec {
        FsSpec {
            files: self.files.insert(id, new_record(path, content, id, now)),
            root: insert_at(self.root, parent_walk(path).unwrap(), leaf(path, node_id, id, false)),
        }
    }

    /// This file system after a directory was created at `path`.
    pub open spec fn with_directory(self, path: Seq<char>, node_id: Seq<char>) -> FsSpec {
        self.with_node(path, leaf(path, node_id, Seq::empty(), true))
    }

    /// This file system after `content` was written to the file `id` at the
    /// time `now`.
    pub open spec fn with_content(self, id: Seq<char>, content: Seq<char>, now: Timestamp)
        -> FsSpec {
        FsSpec {
            files: self.files.insert(
                id,
                FileSpec { content, modified_at: now, ..self.files[id] },
            ),
            ..self
        }
    }

    /// This file system without the file `id`: its record is gone, and so is
    /// every node that denoted it.
    pub open spec fn without_file(self, id: Seq<char>) -> FsSpec {
        FsSpec { files: self.files.remove(id), root: scrub(self.root, id) }
    }

    /// What reading the file `id` gives.
    pub open spec fn read(self, id: Seq<char>) -> Result<FileSpec, VfsError> {
        if self.files.contains_key(id) {
            Ok(self.files[id])
        } else {
            Err(VfsError::NotFound)
        }
    }

    /// What listing the directory at `path` gives.
    pub open spec fn list(self, path: Seq<char>) -> Result<Seq<NodeSpec>, VfsError> {
        match self.node_at(path) {
            None => Err(VfsError::NotFound),
            Some(node) => if node.is_directory {
                Ok(node.children)
            } else {
                Err(VfsError::NotADirectory)
            },
        }
    }
}

/// A file system is well formed where its root is a directory, its tree is
/// well formed over its records, and every record is stored under its own
/// identifier.
pub open spec fn well_formed(fs: FsSpec) -> bool {
    &&& fs.root.is_directory
    &&& well_formed_node(fs.root, fs.files.dom())
    &&& forall|id: Seq<char>| fs.files.contains_key(id) ==> (#[trigger] fs.files[id]).id == id
}

/// An in-memory file system. Every value of it is well formed.
pub struct VirtualFileSystem {
    files: ContentStore,
    root: FileNode,
}

impl View for VirtualFileSystem {
    type V = FsSpec;

    closed spec fn view(&self) -> FsSpec {
        FsSpec { files: self.files@, root: self.root@ }
    }
}

/// The value of the record that a read returned.
pub open spec fn read_value(r: Result<&VirtualFile, VfsError>) -> Result<FileSpec, VfsError> {
    match r {
        Ok(f) => Ok(f@),
        Err(e) => Err(e),
    }
}

/// The value of the node that a search returned.
pub open spec fn found_value(r: Result<&FileNode, VfsError>) -> Option<NodeSpec> {
    match r {
        Ok(n) => Some(n@),
        Err(_) => None,
    }
}

/// The text of the identifier that a creation returned.
pub open spec fn id_value(r: Result<String, VfsError>) -> Result<Seq<char>, VfsError> {
    match r {
        Ok(id) => Ok(id@),
        Err(e) => Err(e),
    }
}

/// A new node without children.
fn new_leaf(path: &str, name: String, node_id: String, id: String, is_directory: bool) -> (node:
    FileNode)
    requires
        file_name(path@) == Some(name@),
    ensures
        node@ == leaf(path@, node_id@, id@, is_directory),
{
    let node = FileNode {
        id: node_id,
        name,
        path: String::from_str(path),
        is_directory,
        children: Vec::new(),
        file_id: if is_directory {
            None
        } else {
            Some(id)
        },
    };
    proof {
        assert(views(node.children@) =~= Seq::<NodeSpec>::empty());
    }
    node
}

/// A root without children that carries `id`.
fn empty_directory(id: String) -> (node: FileNode)
    ensures
        node@ == empty_root(id@),
{
    proof {
        reveal_strlit("/");
    }
    let node = FileNode {
        id,
        name: String::from_str("/"),
        path: String::from_str("/"),
        is_directory: true,
        children: Vec::new(),
        file_id: None,
    };
    proof {
        assert(views(node.children@) =~= Seq::<NodeSpec>::empty());
        assert(node.name@ =~= root_name());
    }
    node
}

impl VirtualFileSystem {
    #[verifier::type_invariant]
    spec fn valid(self) -> bool {
        well_formed(self@)
    }

    /// An empty file system whose root carries `root_id`.
    pub fn with_root_id(root_id: String) -> (s: Self)
        ensures
            s@ == FsSpec::empty(root_id@),
    {
        VirtualFileSystem { files: ContentStore::new(), root: empty_directory(root_id) }
    }

    /// An empty file system, with a fresh identifier for its root.
    pub fn new() -> (s: Self)
        ensures
            exists|root_id: Seq<char>| s@ == FsSpec::empty(root_id),
    {
        Self::with_root_id(fresh_id())
    }

    /// The node that `path` names. Fails with `NotFound` where it names none.
    pub fn find_node(&self, path: &str) -> (r: Result<&FileNode, VfsError>)
        ensures
            found_value(r) == self@.node_at(path@),
            r is Err ==> r == Err::<&FileNode, VfsError>(VfsError::NotFound),
    {
        let steps = walk_steps(path);
        match self.root.resolve(&steps) {
            Some(node) => Ok(node),
            None => Err(VfsError::NotFound),
        }
    }

    /// The record of the file `id`. Fails with `NotFound` where there is
    /// none. The tree is not consulted.
    pub fn read_file(&self, id: &str) -> (r: Result<&VirtualFile, VfsError>)
        ensures
            read_value(r) == self@.read(id@),
    {
        match self.files.get(id) {
            Some(file) => Ok(file),
            None => Err(VfsError::NotFound),
        }
    }

    /// Copies of the children of the directory at `path`, in insertion
    /// order. Fails with `NotFound` where `path` names nothing and with
    /// `NotADirectory` where it names a file.
    pub fn list_directory(&self, path: &str) -> (r: Result<Vec<FileNode>, VfsError>)
        ensures
            listing_value(r) == self@.list(path@),
    {
        let steps = walk_steps(path);
        self.root.list_children(&steps)
    }

    /// Every file system is well formed: its root is a directory, no
    /// directory carries a record, every file node has no children and
    /// denotes a record that is there, and every record is stored under its
    /// own identifier. Nothing is computed: the call makes this known of
    /// the value at hand.
    pub fn always_well_formed(&self)
        ensures
            well_formed(self@),
    {
        proof {
            use_type_invariant(self);
        }
    }

    /// Takes the records and the tree out, leaving an empty file system.
    fn take_parts(&mut self) -> (parts: (ContentStore, FileNode))
        ensures
            parts.0@ == old(self)@.files,
            parts.1@ == old(self)@.root,
            well_formed(old(self)@),
            final(self)@ == FsSpec::empty(Seq::empty()),
    {
        proof {
            use_type_invariant(&*self);
        }
        let mut root = empty_directory(String::new());
        std::mem::swap(&mut root, &mut self.root);
        let mut files = ContentStore::new();
        std::mem::swap(&mut files, &mut self.files);
        (files, root)
    }

    /// Puts records and a tree, which are well formed together, in the place
    /// of the empty file system.
    fn put_parts(&mut self, files: ContentStore, root: FileNode)
        requires
            old(self)@ == FsSpec::empty(Seq::empty()),
            well_formed(FsSpec { files: files@, root: root@ }),
        ensures
            final(self)@ == (FsSpec { files: files@, root: root@ }),
    {
        let mut files = files;
        let mut root = root;
        std::mem::swap(&mut files, &mut self.files);
        std::mem::swap(&mut root, &mut self.root);
    }

    /// Why nothing can be created at `path`, if so.
    fn creation_error(&self, path: &str) -> (e: Option<VfsError>)
        ensures
            e == self@.create_error(path@),
    {
        if base_name(path).is_none() {
            return Some(VfsError::InvalidPath);
        }
        let steps = match parent_steps(path) {
            Some(steps) => steps,
            None => {
                return Some(VfsError::InvalidPath);
            },
        };
        match self.root.resolve(&steps) {
            Some(parent) => if parent.is_directory {
                None
            } else {
                Some(VfsError::InvalidPath)
            },
            None => Some(VfsError::NotFound),
        }
    }

    /// Appends a node without children for `path` under the parent of
    /// `path`: a directory, or a file that denotes the record `id`. The node
    /// carries `node_id`. Fails, and changes nothing, where `path` has no
    /// final segment, its parent names nothing or is a file, or the node is
    /// to denote a record that is not there.
    pub fn add_to_tree_with(
        &mut self,
        path: &str,
        id: String,
        node_id: String,
        is_directory: bool,
    ) -> (r: Result<(), VfsError>)
        ensures
            match old(self)@.attach_error(path@, id@, is_directory) {
                Some(e) => r == Err::<(), VfsError>(e) && final(self)@ == old(self)@,
                None => r == Ok::<(), VfsError>(()) && final(self)@ == old(self)@.with_node(
                    path@,
                    leaf(path@, node_id@, id@, is_directory),
                ),
            },
    {
        match self.creation_error(path) {
            Some(e) => {
                return Err(e);
            },
            None => {},
        }
        if !is_directory && !self.files.contains(id.as_str()) {
            return Err(VfsError::NotFound);
        }
        let name = base_name(path).unwrap();
        let steps = parent_steps(path).unwrap();
        let node = new_leaf(path, name, node_id, id, is_directory);
        let (files, mut root) = self.take_parts();
        proof {
            lemma_insert_well_formed(root@, steps.deep_view(), node@, files@.dom());
            lemma_insert_keeps_node(root@, steps.deep_view(), node@);
        }
        let inserted = root.insert(&steps, node);
        self.put_parts(files, root);
        inserted
    }

    /// As `add_to_tree_with`, with a fresh identifier for the node.
    pub fn add_to_tree(&mut self, path: &str, id: String, is_directory: bool) -> (r: Result<
        (),
        VfsError,
    >)
        ensures
            match old(self)@.attach_error(path@, id@, is_directory) {
                Some(e) => r == Err::<(), VfsError>(e) && final(self)@ == old(self)@,
                None => r == Ok::<(), VfsError>(()) && exists|node_id: Seq<char>|
                    final(self)@ == old(self)@.with_node(
                        path@,
                        leaf(path@, node_id, id@, is_directory),
                    ),
            },
    {
        let node_id = fresh_id();
        self.add_to_tree_with(path, id, node_id, is_directory)
    }

    /// Creates a file at `path` with `content`: a record under `id`, written
    /// at `now`, and a node under the parent of `path` that carries `node_id`
    /// and denotes the record. Returns `id`. Fails, and changes nothing,
    /// where `path` has no final segment, its parent names nothing, or its
    /// parent is a file.
    pub fn create_file_with(
        &mut self,
        path: &str,
        content: String,
        id: String,
        node_id: String,
        now: Timestamp,
    ) -> (r: Result<String, VfsError>)
        ensures
            match old(self)@.create_error(path@) {
                Some(e) => r == Err::<String, VfsError>(e) && final(self)@ == old(self)@,
                None => id_value(r) == Ok::<Seq<char>, VfsError>(id@) && final(self)@ == old(
                    self,
                )@.with_file(path@, content@, id@, node_id@, now),
            },
    {
        match self.creation_error(path) {
            Some(e) => {
                return Err(e);
            },
            None => {},
        }
        let name = base_name(path).unwrap();
        let steps = parent_steps(path).unwrap();
        proof {
            lemma_file_name_is_segment(path@);
        }
        let language = detect_language(name.as_str());
        let record = VirtualFile {
            id: id.clone(),
            name: name.clone(),
            content,
            language,
            created_at: now,
            modified_at: now,
        };
        let node = new_leaf(path, name, node_id, id.clone(), false);
        let (mut files, mut root) = self.take_parts();
        proof {
            let grown = files@.dom().insert(id@);
            lemma_well_formed_more(root@, files@.dom(), grown);
            lemma_insert_well_formed(root@, steps.deep_view(), node@, grown);
            lemma_insert_keeps_node(root@, steps.deep_view(), node@);
        }
        files.put(record);
        let inserted = root.insert(&steps, node);
        assert(inserted is Ok);
        self.put_parts(files, root);
        Ok(id)
    }

    /// Creates a file at `path` with `content`, under a fresh identifier and
    /// at the current time, and returns the identifier of its record.
    pub fn create_file(&mut self, path: &str, content: String) -> (r: Result<String, VfsError>)
        ensures
            match old(self)@.create_error(path@) {
                Some(e) => r == Err::<String, VfsError>(e) && final(self)@ == old(self)@,
                None => r matches Ok(id) && exists|node_id: Seq<char>, now: Timestamp|
                    final(self)@ == old(self)@.with_file(path@, content@, id@, node_id, now),
            },
    {
        let id = fresh_id();
        let node_id = fresh_id();
        let at = now();
        self.create_file_with(path, content, id, node_id, at)
    }

    /// Creates a directory at `path`, whose node carries `node_id`, and
    /// returns `dir_id`, which the node does not carry. Fails, and changes
    /// nothing, where `path` has no final segment, its parent names nothing,
    /// or its parent is a file.
    pub fn create_directory_with(&mut self, path: &str, dir_id: String, node_id: String) -> (r:
        Result<String, VfsError>)
        ensures
            match old(self)@.create_error(path@) {
                Some(e) => r == Err::<String, VfsError>(e) && final(self)@ == old(self)@,
                None => id_value(r) == Ok::<Seq<char>, VfsError>(dir_id@) && final(self)@ == old(
                    self,
                )@.with_directory(path@, node_id@),
            },
    {
        match self.add_to_tree_with(path, dir_id.clone(), node_id, true) {
            Ok(()) => Ok(dir_id),
            Err(e) => Err(e),
        }
    }

    /// Creates a directory at `path` and returns a fresh identifier, which
    /// is not the one that the new node carries.
    pub fn create_directory(&mut self, path: &str) -> (r: Result<String, VfsError>)
        ensures
            match old(self)@.create_error(path@) {
                Some(e) => r == Err::<String, VfsError>(e) && final(self)@ == old(self)@,
                None => r is Ok && exists|node_id: Seq<char>|
                    final(self)@ == old(self)@.with_directory(path@, node_id),
            },
    {
        let dir_id = fresh_id();
        let node_id = fresh_id();
        self.create_directory_with(path, dir_id, node_id)
    }

    /// Replaces the content of the file `id` and sets the time of its last
    /// write to `now`. Fails with `NotFound`, and changes nothing, where
    /// there is no such file.
    pub fn write_file_at(&mut self, id: &str, content: String, now: Timestamp) -> (r: Result<
        (),
        VfsError,
    >)
        ensures
            old(self)@.files.contains_key(id@) ==> r == Ok::<(), VfsError>(()) && final(self)@
                == old(self)@.with_content(id@, content@, now),
            !old(self)@.files.contains_key(id@) ==> r == Err::<(), VfsError>(VfsError::NotFound)
                && final(self)@ == old(self)@,
    {
        let (mut files, root) = self.take_parts();
        let ghost before = files@;
        let written = files.update(id, content, now);
        proof {
            if before.contains_key(id@) {
                assert(files@.dom() =~= before.dom());
            }
        }
        self.put_parts(files, root);
        written
    }

    /// Replaces the content of the file `id` and sets the time of its last
    /// write to the current time.
    pub fn write_file(&mut self, id: &str, content: String) -> (r: Result<(), VfsError>)
        ensures
            old(self)@.files.contains_key(id@) ==> r == Ok::<(), VfsError>(()) && exists|
                now: Timestamp,
            |
                final(self)@ == old(self)@.with_content(id@, content@, now),
            !old(self)@.files.contains_key(id@) ==> r == Err::<(), VfsError>(VfsError::NotFound)
                && final(self)@ == old(self)@,
    {
        let at = now();
        self.write_file_at(id, content, at)
    }

    /// Takes out of `node` every descendant that denotes the file `file_id`.
    pub fn remove_node_recursive(node: &mut FileNode, file_id: &str)
        ensures
            final(node)@ == scrub(old(node)@, file_id@),
    {
        let key = String::from_str(file_id);
        node.remove_by_file_ref(&key);
    }

    /// Takes out of the tree every node that denotes the file `file_id`.
    /// The records are left as they are.
    pub fn remove_from_tree(&mut self, file_id: &str)
        ensures
            final(self)@ == (FsSpec { root: scrub(old(self)@.root, file_id@), ..old(self)@ }),
    {
        let (files, mut root) = self.take_parts();
        proof {
            lemma_scrub_well_formed(root@, file_id@, files@.dom());
            lemma_well_formed_more(
                scrub(root@, file_id@),
                files@.dom().remove(file_id@),
                files@.dom(),
            );
        }
        Self::remove_node_recursive(&mut root, file_id);
        self.put_parts(files, root);
    }

    /// Deletes the file `id`: its record, then every node that denotes it.
    /// Fails with `NotFound`, and changes nothing, where there is no such
    /// record.
    pub fn delete_file(&mut self, id: &str) -> (r: Result<(), VfsError>)
        ensures
            old(self)@.files.contains_key(id@) ==> r == Ok::<(), VfsError>(()) && final(self)@
                == old(self)@.without_file(id@),
            !old(self)@.files.contains_key(id@) ==> r == Err::<(), VfsError>(VfsError::NotFound)
                && final(self)@ == old(self)@,
    {
        let (mut files, mut root) = self.take_parts();
        let ghost before = files@;
        match files.remove(id) {
            Ok(()) => {},
            Err(e) => {
                self.put_parts(files, root);
                return Err(e);
            },
        }
        proof {
            lemma_scrub_well_formed(root@, id@, before.dom());
            assert(files@.dom() =~= before.dom().remove(id@));
        }
        Self::remove_node_recursive(&mut root, id);
        self.put_parts(files, root);
        Ok(())
    }
}

} // verus!
