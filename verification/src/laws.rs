//! What holds of the file system across its operations, stated over its
//! mathematical value and proved.

use crate::clock::Timestamp;
use crate::error::VfsError;
use crate::language::language_of;
use crate::path::{
    components, extension, file_name, is_absolute, parent_walk, root_name, segments, walk,
    without_dots,
};
use crate::store::FileSpec;
use crate::tree::{
    first_named, insert_at, is_first_named, lemma_first_named_absent, lemma_first_named_found,
    refers_to, resolve, scrub, scrub_all, well_formed_node, NodeSpec,
};
use crate::vfs::{leaf, well_formed, FsSpec};
use vstd::prelude::*;

verus! {

/// Where `steps` reach no node, nothing is inserted.
pub proof fn lemma_insert_at_unresolved(node: NodeSpec, steps: Seq<Seq<char>>, child: NodeSpec)
    requires
        resolve(node, steps) is None,
    ensures
        insert_at(node, steps, child) == node,
    decreases steps.len(),
{
    match first_named(node.children, steps[0]) {
        Some(i) => {
            lemma_insert_at_unresolved(node.children[i], steps.skip(1), child);
            assert(node.children.update(i, node.children[i]) =~= node.children);
        },
        None => {},
    }
}

/// Following `steps` and then `name` is following `steps` and then taking
/// the first child named `name`.
pub proof fn lemma_resolve_push(node: NodeSpec, steps: Seq<Seq<char>>, name: Seq<char>)
    ensures
        resolve(node, steps.push(name)) == match resolve(node, steps) {
            Some(parent) => match first_named(parent.children, name) {
                Some(i) => Some(parent.children[i]),
                None => None,
            },
            None => None,
        },
    decreases steps.len(),
{
    let longer = steps.push(name);
    if steps.len() == 0 {
        assert(longer[0] == name);
        assert(longer.skip(1) =~= Seq::<Seq<char>>::empty());
        match first_named(node.children, name) {
            Some(i) => {
                assert(resolve(node.children[i], longer.skip(1)) == Some(node.children[i]));
            },
            None => {},
        }
    } else {
        assert(longer[0] == steps[0]);
        assert(longer.skip(1) =~= steps.skip(1).push(name));
        match first_named(node.children, steps[0]) {
            Some(i) => {
                lemma_resolve_push(node.children[i], steps.skip(1), name);
            },
            None => {},
        }
    }
}

/// Inserting below a node changes neither its name nor its kind.
pub proof fn lemma_insert_keeps_node(node: NodeSpec, steps: Seq<Seq<char>>, child: NodeSpec)
    ensures
        insert_at(node, steps, child).name == node.name,
        insert_at(node, steps, child).is_directory == node.is_directory,
        insert_at(node, steps, child).file_id == node.file_id,
        insert_at(node, steps, child).id == node.id,
        insert_at(node, steps, child).path == node.path,
{
}

/// Replacing a child by one of the same name leaves every first match where
/// it was.
pub proof fn lemma_first_named_update(
    children: Seq<NodeSpec>,
    i: int,
    replacement: NodeSpec,
    name: Seq<char>,
)
    requires
        0 <= i < children.len(),
        replacement.name == children[i].name,
    ensures
        first_named(children.update(i, replacement), name) == first_named(children, name),
{
    let changed = children.update(i, replacement);
    assert forall|j: int| 0 <= j < children.len() implies (#[trigger] changed[j]).name
        == children[j].name by {}
    match first_named(children, name) {
        Some(k) => {
            assert(is_first_named(children, name, k));
            assert forall|j: int| 0 <= j < k implies (#[trigger] changed[j]).name != name by {
                assert(children[j].name != name);
            }
            assert(is_first_named(changed, name, k));
            lemma_first_named_found(changed, name, k);
        },
        None => {
            assert forall|j: int| 0 <= j < changed.len() implies (#[trigger] changed[j]).name
                != name by {
                if children[j].name == name {
                    lemma_some_first_named(children, name, j);
                }
            }
            lemma_first_named_absent(changed, name);
        },
    }
}

/// Where some child has the name, there is a first one that has it.
pub proof fn lemma_some_first_named(children: Seq<NodeSpec>, name: Seq<char>, j: int)
    requires
        0 <= j < children.len(),
        children[j].name == name,
    ensures
        first_named(children, name) is Some,
    decreases j,
{
    if forall|k: int| 0 <= k < j ==> (#[trigger] children[k]).name != name {
        assert(is_first_named(children, name, j));
    } else {
        let k = choose|k: int| 0 <= k < j && (#[trigger] children[k]).name == name;
        lemma_some_first_named(children, name, k);
    }
}

/// A node inserted under a directory in which nothing had its name is what
/// its path then resolves to.
pub proof fn lemma_resolve_inserted(node: NodeSpec, steps: Seq<Seq<char>>, child: NodeSpec)
    requires
        resolve(node, steps) is Some,
        resolve(node, steps.push(child.name)) is None,
    ensures
        resolve(insert_at(node, steps, child), steps.push(child.name)) == Some(child),
    decreases steps.len(),
{
    let longer = steps.push(child.name);
    let after = insert_at(node, steps, child);
    if steps.len() == 0 {
        assert(longer[0] == child.name);
        assert(longer.skip(1) =~= Seq::<Seq<char>>::empty());
        let n = node.children.len() as int;
        assert(first_named(node.children, child.name) is None) by {
            match first_named(node.children, child.name) {
                Some(i) => {
                    assert(resolve(node.children[i], longer.skip(1)) is Some);
                },
                None => {},
            }
        }
        assert forall|j: int| 0 <= j < n implies (#[trigger] after.children[j]).name
            != child.name by {
            if node.children[j].name == child.name {
                lemma_some_first_named(node.children, child.name, j);
            }
        }
        assert(is_first_named(after.children, child.name, n));
        lemma_first_named_found(after.children, child.name, n);
        assert(resolve(after.children[n], longer.skip(1)) == Some(child));
    } else {
        assert(longer[0] == steps[0]);
        assert(longer.skip(1) =~= steps.skip(1).push(child.name));
        match first_named(node.children, steps[0]) {
            Some(i) => {
                assert(is_first_named(node.children, steps[0], i));
                let below = insert_at(node.children[i], steps.skip(1), child);
                lemma_resolve_inserted(node.children[i], steps.skip(1), child);
                lemma_insert_keeps_node(node.children[i], steps.skip(1), child);
                lemma_first_named_update(node.children, i, below, steps[0]);
            },
            None => {},
        }
    }
}

/// Where a path has a final segment and at least two components, resolution
/// follows the way to its parent and then that segment. Every absolute path
/// with a final segment is such a path.
pub proof fn lemma_walk_is_parent_then_name(path: Seq<char>)
    requires
        file_name(path) is Some,
    ensures
        parent_walk(path) is Some,
        is_absolute(path) ==> components(path).len() >= 2,
        components(path).len() >= 2 ==> walk(path) == parent_walk(path).unwrap().push(
            file_name(path).unwrap(),
        ),
{
    let c = components(path);
    if c.len() >= 2 {
        assert(c.skip(1) =~= c.drop_last().skip(1).push(c.last()));
    }
}

/// The root path and the empty path have nothing to follow: they name the
/// root.
pub proof fn lemma_root_paths()
    ensures
        walk(root_name()).len() == 0,
        walk(Seq::<char>::empty()).len() == 0,
{
    let r = root_name();
    assert(r.drop_last() =~= Seq::<char>::empty());
    assert(segments(r.drop_last()) =~= Seq::<Seq<char>>::empty());
    assert(segments(r) =~= Seq::<Seq<char>>::empty());
    assert(without_dots(segments(r)) =~= Seq::<Seq<char>>::empty());
    assert(components(r) =~= seq![root_name()]);
    assert(components(r).skip(1) =~= Seq::<Seq<char>>::empty());
}

/// A file that was created can be read under the identifier returned: the
/// record holds the content given and the language that the extension of
/// the path stands for.
pub proof fn lemma_read_after_create(
    fs: FsSpec,
    path: Seq<char>,
    content: Seq<char>,
    id: Seq<char>,
    node_id: Seq<char>,
    now: Timestamp,
)
    requires
        fs.create_error(path) is None,
    ensures
        fs.with_file(path, content, id, node_id, now).read(id) matches Ok(record)
            && record.content == content && record.id == id && record.language == (
        match extension(path) {
            Some(ext) => language_of(ext),
            None => None,
        }) && record.created_at == now && record.modified_at == now,
{
}

/// Writing to a file that was created replaces its content, and the time of
/// its last write becomes the time of the write: it increases strictly
/// where the clock has moved on since the creation. The record keeps its
/// identifier, name, language and time of creation, and the tree is as it
/// was.
pub proof fn lemma_write_after_create(
    fs: FsSpec,
    path: Seq<char>,
    content: Seq<char>,
    id: Seq<char>,
    node_id: Seq<char>,
    created: Timestamp,
    new_content: Seq<char>,
    written: Timestamp,
)
    requires
        fs.create_error(path) is None,
    ensures
        ({
            let before = fs.with_file(path, content, id, node_id, created);
            let after = before.with_content(id, new_content, written);
            &&& before.files.contains_key(id)
            &&& after.read(id) matches Ok(record) && record.content == new_content
                && record.modified_at == written && record.created_at == created && record.id
                == id && record.name == before.files[id].name && record.language
                == before.files[id].language
            &&& created.precedes(written) ==> before.files[id].modified_at.precedes(
                after.files[id].modified_at,
            )
            &&& after.root == before.root
        }),
{
}

/// Only the creation of a file adds a record, and it adds the one under
/// the identifier returned: an identifier that no creation returned names
/// no record, so that a write to it fails.
pub proof fn lemma_only_create_adds_records(
    fs: FsSpec,
    path: Seq<char>,
    content: Seq<char>,
    id: Seq<char>,
    node_id: Seq<char>,
    now: Timestamp,
    other: Seq<char>,
)
    ensures
        FsSpec::empty(node_id).read(other) == Err::<FileSpec, VfsError>(VfsError::NotFound),
        fs.with_file(path, content, id, node_id, now).files.dom() == fs.files.dom().insert(id),
        fs.with_directory(path, node_id).files == fs.files,
        fs.files.contains_key(id) ==> fs.with_content(id, content, now).files.dom()
            == fs.files.dom(),
        fs.without_file(id).files.dom() == fs.files.dom().remove(id),
{
    assert(fs.with_file(path, content, id, node_id, now).files.dom() =~= fs.files.dom().insert(
        id,
    ));
    if fs.files.contains_key(id) {
        assert(fs.with_content(id, content, now).files.dom() =~= fs.files.dom());
    }
    assert(fs.without_file(id).files.dom() =~= fs.files.dom().remove(id));
}

/// The root of a file system on which nothing was done lists as empty.
pub proof fn lemma_list_empty_root(root_id: Seq<char>, path: Seq<char>)
    requires
        walk(path).len() == 0,
    ensures
        FsSpec::empty(root_id).list(path) == Ok::<Seq<NodeSpec>, VfsError>(Seq::empty()),
{
}

/// A directory created at a path that named nothing lists as empty.
pub proof fn lemma_list_new_directory(fs: FsSpec, path: Seq<char>, node_id: Seq<char>)
    requires
        fs.create_error(path) is None,
        fs.node_at(path) is None,
        components(path).len() >= 2,
    ensures
        fs.with_directory(path, node_id).list(path) == Ok::<Seq<NodeSpec>, VfsError>(
            Seq::empty(),
        ),
{
    lemma_walk_is_parent_then_name(path);
    let node = leaf(path, node_id, Seq::empty(), true);
    lemma_resolve_inserted(fs.root, parent_walk(path).unwrap(), node);
}

/// A file created at a path that named nothing is what the path then names:
/// listing it fails, since it is no directory.
pub proof fn lemma_list_new_file(
    fs: FsSpec,
    path: Seq<char>,
    content: Seq<char>,
    id: Seq<char>,
    node_id: Seq<char>,
    now: Timestamp,
)
    requires
        fs.create_error(path) is None,
        fs.node_at(path) is None,
        components(path).len() >= 2,
    ensures
        fs.with_file(path, content, id, node_id, now).node_at(path) == Some(
            leaf(path, node_id, id, false),
        ),
        fs.with_file(path, content, id, node_id, now).list(path) == Err::<
            Seq<NodeSpec>,
            VfsError,
        >(VfsError::NotADirectory),
{
    lemma_walk_is_parent_then_name(path);
    let node = leaf(path, node_id, id, false);
    lemma_resolve_inserted(fs.root, parent_walk(path).unwrap(), node);
}

/// Every node left by a scrub is the scrubbed form of a node that did not
/// denote the file.
pub proof fn lemma_scrub_all_elements(nodes: Seq<NodeSpec>, id: Seq<char>, k: int)
    requires
        0 <= k < scrub_all(nodes, id).len(),
    ensures
        exists|j: int|
            0 <= j < nodes.len() && !refers_to(#[trigger] nodes[j], id) && scrub_all(nodes, id)[k]
                == scrub(nodes[j], id),
    decreases nodes.len(),
{
    if nodes.len() > 0 {
        let before = scrub_all(nodes.drop_last(), id);
        if k < before.len() {
            lemma_scrub_all_elements(nodes.drop_last(), id, k);
            let j = choose|j: int|
                0 <= j < nodes.drop_last().len() && !refers_to(#[trigger] nodes.drop_last()[j], id)
                    && before[k] == scrub(nodes.drop_last()[j], id);
            assert(nodes[j] == nodes.drop_last()[j]);
        } else {
            let j = nodes.len() - 1;
            assert(nodes[j] == nodes.last());
            assert(!refers_to(nodes[j], id));
        }
    }
}

/// No child of a scrubbed node denotes the file.
pub proof fn lemma_scrubbed_children(node: NodeSpec, id: Seq<char>)
    ensures
        forall|k: int|
            0 <= k < scrub(node, id).children.len() ==> !refers_to(
                #[trigger] scrub(node, id).children[k],
                id,
            ),
{
    assert forall|k: int| 0 <= k < scrub(node, id).children.len() implies !refers_to(
        #[trigger] scrub(node, id).children[k],
        id,
    ) by {
        lemma_scrub_all_elements(node.children, id, k);
    }
}

/// Whatever a path names in a scrubbed tree is itself a scrubbed node.
pub proof fn lemma_resolve_scrubbed(node: NodeSpec, id: Seq<char>, steps: Seq<Seq<char>>)
    ensures
        resolve(scrub(node, id), steps) matches Some(found) ==> exists|m: NodeSpec|
            found == scrub(m, id),
    decreases steps.len(),
{
    let clean = scrub(node, id);
    if steps.len() > 0 {
        match first_named(clean.children, steps[0]) {
            Some(i) => {
                assert(is_first_named(clean.children, steps[0], i));
                lemma_scrub_all_elements(node.children, id, i);
                let j = choose|j: int|
                    0 <= j < node.children.len() && !refers_to(#[trigger] node.children[j], id)
                        && scrub_all(node.children, id)[i] == scrub(node.children[j], id);
                lemma_resolve_scrubbed(node.children[j], id, steps.skip(1));
            },
            None => {},
        }
    }
}

/// After a file was deleted, reading it fails with `NotFound`, and no
/// directory lists a node that denotes it.
pub proof fn lemma_gone_after_delete(fs: FsSpec, id: Seq<char>, path: Seq<char>)
    ensures
        fs.without_file(id).read(id) == Err::<FileSpec, VfsError>(VfsError::NotFound),
        fs.without_file(id).list(path) matches Ok(children) ==> forall|k: int|
            0 <= k < children.len() ==> !refers_to(#[trigger] children[k], id),
{
    let after = fs.without_file(id);
    lemma_resolve_scrubbed(fs.root, id, walk(path));
    match after.list(path) {
        Ok(children) => {
            let found = resolve(after.root, walk(path)).unwrap();
            let m = choose|m: NodeSpec| found == scrub(m, id);
            lemma_scrubbed_children(m, id);
        },
        Err(_) => {},
    }
}

/// A tree that is well formed over a set is well formed over a larger one.
pub proof fn lemma_well_formed_more(node: NodeSpec, ids: Set<Seq<char>>, more: Set<Seq<char>>)
    requires
        well_formed_node(node, ids),
        ids.subset_of(more),
    ensures
        well_formed_node(node, more),
    decreases node,
{
    assert forall|i: int| 0 <= i < node.children.len() implies well_formed_node(
        #[trigger] node.children[i],
        more,
    ) by {
        lemma_well_formed_more(node.children[i], ids, more);
    }
}

/// Inserting a well-formed node under a directory keeps the tree well formed.
pub proof fn lemma_insert_well_formed(
    node: NodeSpec,
    steps: Seq<Seq<char>>,
    child: NodeSpec,
    ids: Set<Seq<char>>,
)
    requires
        well_formed_node(node, ids),
        well_formed_node(child, ids),
        resolve(node, steps) matches Some(parent) && parent.is_directory,
    ensures
        well_formed_node(insert_at(node, steps, child), ids),
    decreases steps.len(),
{
    let after = insert_at(node, steps, child);
    if steps.len() == 0 {
        assert forall|i: int| 0 <= i < after.children.len() implies well_formed_node(
            #[trigger] after.children[i],
            ids,
        ) by {
            if i < node.children.len() {
                assert(after.children[i] == node.children[i]);
            }
        }
    } else {
        match first_named(node.children, steps[0]) {
            Some(k) => {
                assert(is_first_named(node.children, steps[0], k));
                lemma_insert_well_formed(node.children[k], steps.skip(1), child, ids);
                assert forall|i: int| 0 <= i < after.children.len() implies well_formed_node(
                    #[trigger] after.children[i],
                    ids,
                ) by {
                    if i != k {
                        assert(after.children[i] == node.children[i]);
                    }
                }
            },
            None => {},
        }
    }
}

/// Scrubbing a well-formed tree of a file leaves it well formed over the
/// records without that file.
pub proof fn lemma_scrub_well_formed(node: NodeSpec, id: Seq<char>, ids: Set<Seq<char>>)
    requires
        well_formed_node(node, ids),
        !refers_to(node, id),
    ensures
        well_formed_node(scrub(node, id), ids.remove(id)),
    decreases node,
{
    let clean = scrub(node, id);
    assert forall|k: int| 0 <= k < clean.children.len() implies well_formed_node(
        #[trigger] clean.children[k],
        ids.remove(id),
    ) by {
        lemma_scrub_all_elements(node.children, id, k);
        let j = choose|j: int|
            0 <= j < node.children.len() && !refers_to(#[trigger] node.children[j], id)
                && scrub_all(node.children, id)[k] == scrub(node.children[j], id);
        lemma_scrub_well_formed(node.children[j], id, ids);
    }
    if !node.is_directory {
        assert(node.children.len() == 0);
        assert(scrub_all(node.children, id).len() == 0);
    }
}

/// An empty file system is well formed, and every operation keeps a
/// well-formed file system well formed: no file node is left without its
/// record, no directory carries a record, no file node has children.
pub proof fn lemma_well_formed_kept(
    fs: FsSpec,
    path: Seq<char>,
    content: Seq<char>,
    id: Seq<char>,
    node_id: Seq<char>,
    now: Timestamp,
)
    requires
        well_formed(fs),
    ensures
        well_formed(FsSpec::empty(node_id)),
        fs.create_error(path) is None ==> well_formed(
            fs.with_file(path, content, id, node_id, now),
        ),
        fs.create_error(path) is None ==> well_formed(fs.with_directory(path, node_id)),
        fs.files.contains_key(id) ==> well_formed(fs.with_content(id, content, now)),
        well_formed(fs.without_file(id)),
{
    if fs.create_error(path) is None {
        let steps = parent_walk(path).unwrap();
        let grown = fs.files.dom().insert(id);
        let file = leaf(path, node_id, id, false);
        lemma_well_formed_more(fs.root, fs.files.dom(), grown);
        lemma_insert_well_formed(fs.root, steps, file, grown);
        lemma_insert_keeps_node(fs.root, steps, file);
        assert(fs.with_file(path, content, id, node_id, now).files.dom() =~= grown);
        let dir = leaf(path, node_id, Seq::empty(), true);
        lemma_insert_well_formed(fs.root, steps, dir, fs.files.dom());
        lemma_insert_keeps_node(fs.root, steps, dir);
    }
    if fs.files.contains_key(id) {
        assert(fs.with_content(id, content, now).files.dom() =~= fs.files.dom());
    }
    lemma_scrub_well_formed(fs.root, id, fs.files.dom());
    assert(fs.without_file(id).files.dom() =~= fs.files.dom().remove(id));
}

/// Appending a child leaves every first match where it was.
pub proof fn lemma_first_named_push(children: Seq<NodeSpec>, child: NodeSpec, name: Seq<char>)
    requires
        first_named(children, name) is Some,
    ensures
        first_named(children.push(child), name) == first_named(children, name),
{
    let i = first_named(children, name).unwrap();
    assert(is_first_named(children, name, i));
    let longer = children.push(child);
    assert forall|j: int| 0 <= j < i implies (#[trigger] longer[j]).name != name by {
        assert(longer[j] == children[j]);
    }
    assert(longer[i] == children[i]);
    assert(is_first_named(longer, name, i));
    lemma_first_named_found(longer, name, i);
}

/// Whether two nodes are the same but for what is below them.
pub open spec fn same_node(a: NodeSpec, b: NodeSpec) -> bool {
    &&& a.id == b.id
    &&& a.name == b.name
    &&& a.path == b.path
    &&& a.is_directory == b.is_directory
    &&& a.file_id == b.file_id
}

/// An insertion takes nothing away: whatever a path named before, it names
/// after, the same node but for what is below it.
pub proof fn lemma_insert_keeps_paths(
    node: NodeSpec,
    steps: Seq<Seq<char>>,
    child: NodeSpec,
    way: Seq<Seq<char>>,
)
    requires
        resolve(node, way) is Some,
    ensures
        resolve(insert_at(node, steps, child), way) matches Some(found) && same_node(
            found,
            resolve(node, way).unwrap(),
        ),
    decreases way.len(),
{
    let after = insert_at(node, steps, child);
    if way.len() > 0 {
        let i = first_named(node.children, way[0]).unwrap();
        assert(is_first_named(node.children, way[0], i));
        if steps.len() == 0 {
            lemma_first_named_push(node.children, child, way[0]);
            assert(after.children[i] == node.children[i]);
        } else {
            match first_named(node.children, steps[0]) {
                Some(k) => {
                    assert(is_first_named(node.children, steps[0], k));
                    let below = insert_at(node.children[k], steps.skip(1), child);
                    lemma_insert_keeps_node(node.children[k], steps.skip(1), child);
                    lemma_first_named_update(node.children, k, below, way[0]);
                    if i == k {
                        lemma_insert_keeps_paths(
                            node.children[k],
                            steps.skip(1),
                            child,
                            way.skip(1),
                        );
                    } else {
                        assert(after.children[i] == node.children[i]);
                    }
                },
                None => {},
            }
        }
    } else {
        lemma_insert_keeps_node(node, steps, child);
    }
}

/// What can be created stays creatable when something else is created
/// first: creations at several paths that were all possible succeed one
/// after the other, in any order.
pub proof fn lemma_create_keeps_creatable(
    fs: FsSpec,
    first: Seq<char>,
    content: Seq<char>,
    id: Seq<char>,
    node_id: Seq<char>,
    now: Timestamp,
    second: Seq<char>,
)
    requires
        fs.create_error(first) is None,
        fs.create_error(second) is None,
    ensures
        fs.with_file(first, content, id, node_id, now).create_error(second) is None,
        fs.with_directory(first, node_id).create_error(second) is None,
{
    let steps = parent_walk(first).unwrap();
    let way = parent_walk(second).unwrap();
    lemma_insert_keeps_paths(fs.root, steps, leaf(first, node_id, id, false), way);
    lemma_insert_keeps_paths(fs.root, steps, leaf(first, node_id, Seq::empty(), true), way);
}

/// No operation on one file touches the record of another: each record is
/// read as a whole, as it was before or as it is after.
pub proof fn lemma_other_records_kept(
    fs: FsSpec,
    path: Seq<char>,
    content: Seq<char>,
    id: Seq<char>,
    node_id: Seq<char>,
    now: Timestamp,
    other: Seq<char>,
)
    requires
        other != id,
    ensures
        fs.with_file(path, content, id, node_id, now).read(other) == fs.read(other),
        fs.with_directory(path, node_id).read(other) == fs.read(other),
        fs.with_content(id, content, now).read(other) == fs.read(other),
        fs.without_file(id).read(other) == fs.read(other),
{
}

} // verus!
