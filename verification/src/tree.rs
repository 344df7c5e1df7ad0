//! The namespace tree: directories and file references, addressed by the
//! component names along the way from the root.

use crate::error::VfsError;
use crate::path::text_of;
use vstd::prelude::*;

verus! {

/// The mathematical value of a node: its own identifier, the segment it
/// occupies under its parent, the path it was created at, its kind, its
/// children in insertion order and, for a file, the identifier of its record.
pub struct NodeSpec {
    pub id: Seq<char>,
    pub name: Seq<char>,
    pub path: Seq<char>,
    pub is_directory: bool,
    pub children: Seq<NodeSpec>,
    pub file_id: Option<Seq<char>>,
}

/// A node of the namespace tree.
#[derive(Debug)]
pub struct FileNode {
    pub id: String,
    pub name: String,
    pub path: String,
    pub is_directory: bool,
    pub children: Vec<FileNode>,
    pub file_id: Option<String>,
}

/// The values of a sequence of nodes, in order.
pub open spec fn views(nodes: Seq<FileNode>) -> Seq<NodeSpec>
    decreases nodes,
{
    if nodes.len() == 0 {
        Seq::empty()
    } else {
        views(nodes.drop_last()).push(node_value(nodes.last()))
    }
}

/// The value of a node.
pub open spec fn node_value(node: FileNode) -> NodeSpec
    decreases node,
{
    NodeSpec {
        id: node.id@,
        name: node.name@,
        path: node.path@,
        is_directory: node.is_directory,
        children: views(node.children@),
        file_id: text_of(node.file_id),
    }
}

impl View for FileNode {
    type V = NodeSpec;

    open spec fn view(&self) -> NodeSpec {
        node_value(*self)
    }
}

/// `views` keeps the length and maps each node to its value.
pub proof fn lemma_views(nodes: Seq<FileNode>)
    ensures
        views(nodes).len() == nodes.len(),
        forall|i: int| 0 <= i < nodes.len() ==> #[trigger] views(nodes)[i] == nodes[i]@,
    decreases nodes.len(),
{
    if nodes.len() > 0 {
        lemma_views(nodes.drop_last());
    }
}

/// `i` is the position of the first of `children` that is named `name`.
pub open spec fn is_first_named(children: Seq<NodeSpec>, name: Seq<char>, i: int) -> bool {
    &&& 0 <= i < children.len()
    &&& children[i].name == name
    &&& forall|j: int| 0 <= j < i ==> (#[trigger] children[j]).name != name
}

/// The position of the first of `children` that is named `name`, if any is.
pub open spec fn first_named(children: Seq<NodeSpec>, name: Seq<char>) -> Option<int> {
    if exists|i: int| is_first_named(children, name, i) {
        Some(choose|i: int| is_first_named(children, name, i))
    } else {
        None
    }
}

/// The first match is unique.
pub proof fn lemma_first_named_found(children: Seq<NodeSpec>, name: Seq<char>, i: int)
    requires
        is_first_named(children, name, i),
    ensures
        first_named(children, name) == Some(i),
{
    let k = choose|k: int| is_first_named(children, name, k);
    assert(is_first_named(children, name, k));
    if k < i {
        assert(children[k].name != name);
    }
    if i < k {
        assert(children[i].name != name);
    }
}

/// Where no child has the name, there is no first match.
pub proof fn lemma_first_named_absent(children: Seq<NodeSpec>, name: Seq<char>)
    requires
        forall|j: int| 0 <= j < children.len() ==> (#[trigger] children[j]).name != name,
    ensures
        first_named(children, name) is None,
{
}

/// The node reached from `node` by following `steps`, at each level taking
/// the first child of that name. No steps reach `node` itself.
pub open spec fn resolve(node: NodeSpec, steps: Seq<Seq<char>>) -> Option<NodeSpec>
    decreases steps.len(),
{
    if steps.len() == 0 {
        Some(node)
    } else {
        match first_named(node.children, steps[0]) {
            Some(i) => resolve(node.children[i], steps.skip(1)),
            None => None,
        }
    }
}

/// `node` with `child` appended to the children of the node that `steps`
/// reach; `node` itself where they reach none.
pub open spec fn insert_at(node: NodeSpec, steps: Seq<Seq<char>>, child: NodeSpec) -> NodeSpec
    decreases steps.len(),
{
    if steps.len() == 0 {
        NodeSpec { children: node.children.push(child), ..node }
    } else {
        match first_named(node.children, steps[0]) {
            Some(i) => NodeSpec {
                children: node.children.update(
                    i,
                    insert_at(node.children[i], steps.skip(1), child),
                ),
                ..node
            },
            None => node,
        }
    }
}

/// The index that an executable search returned, as a mathematical integer.
pub open spec fn index_of(r: Option<usize>) -> Option<int> {
    match r {
        Some(i) => Some(i as int),
        None => None,
    }
}

/// The value of an optional node reference.
pub open spec fn node_of(r: Option<&FileNode>) -> Option<NodeSpec> {
    match r {
        Some(n) => Some(n@),
        None => None,
    }
}

/// Finds the first of `children` named `name` by a linear scan.
pub fn find_child(children: &Vec<FileNode>, name: &String) -> (r: Option<usize>)
    ensures
        index_of(r) == first_named(views(children@), name@),
        r matches Some(i) ==> i < children.len(),
{
    let n: usize = children.len();
    let mut i: usize = 0;
    proof {
        lemma_views(children@);
    }
    while i < n
        invariant
            n == children.len(),
            i <= n,
            views(children@).len() == n,
            forall|j: int| 0 <= j < n ==> #[trigger] views(children@)[j] == children@[j]@,
            forall|j: int| 0 <= j < i ==> (#[trigger] views(children@)[j]).name != name@,
        decreases n - i,
    {
        if children[i].name == *name {
            proof {
                lemma_first_named_found(views(children@), name@, i as int);
            }
            return Some(i);
        }
        i = i + 1;
    }
    proof {
        lemma_first_named_absent(views(children@), name@);
    }
    None
}

impl FileNode {
    /// Follows `steps` down from this node.
    pub fn resolve(&self, steps: &Vec<String>) -> (r: Option<&FileNode>)
        ensures
            node_of(r) == resolve(self@, steps.deep_view()),
    {
        let n: usize = steps.len();
        let mut current: &FileNode = self;
        let mut k: usize = 0;
        assert(steps.deep_view().skip(0) =~= steps.deep_view());
        while k < n
            invariant
                n == steps.len(),
                k <= n,
                resolve(self@, steps.deep_view()) == resolve(
                    current@,
                    steps.deep_view().skip(k as int),
                ),
            decreases n - k,
        {
            let ghost rest = steps.deep_view().skip(k as int);
            assert(rest[0] == steps[k as int]@);
            assert(rest.skip(1) =~= steps.deep_view().skip(k + 1));
            proof {
                lemma_views(current.children@);
            }
            match find_child(&current.children, &steps[k]) {
                Some(i) => {
                    current = &current.children[i];
                },
                None => {
                    return None;
                },
            }
            k = k + 1;
        }
        Some(current)
    }
}

/// `node` denotes the file record `file_id`.
pub open spec fn refers_to(node: NodeSpec, file_id: Seq<char>) -> bool {
    node.file_id == Some(file_id)
}

/// `node` with every descendant that denotes `file_id` taken out, the
/// others staying in their order.
pub open spec fn scrub(node: NodeSpec, file_id: Seq<char>) -> NodeSpec
    decreases node,
{
    NodeSpec { children: scrub_all(node.children, file_id), ..node }
}

/// Those of `nodes` that do not denote `file_id`, each scrubbed, in order.
pub open spec fn scrub_all(nodes: Seq<NodeSpec>, file_id: Seq<char>) -> Seq<NodeSpec>
    decreases nodes,
{
    if nodes.len() == 0 {
        Seq::empty()
    } else {
        let before = scrub_all(nodes.drop_last(), file_id);
        if refers_to(nodes.last(), file_id) {
            before
        } else {
            before.push(scrub(nodes.last(), file_id))
        }
    }
}

/// Whether `node` holds the identifier `file_id`.
fn node_refers_to(node: &FileNode, file_id: &String) -> (b: bool)
    ensures
        b == refers_to(node@, file_id@),
{
    match &node.file_id {
        Some(held) => *held == *file_id,
        None => false,
    }
}

impl FileNode {
    /// Takes out every descendant that denotes the file record `file_id`.
    /// Absence is no error: the tree is then unchanged.
    pub fn remove_by_file_ref(&mut self, file_id: &String)
        ensures
            final(self)@ == scrub(old(self)@, file_id@),
        decreases old(self)@,
    {
        let ghost orig = views(self.children@);
        let ghost done: int = 0;
        let mut i: usize = 0;
        proof {
            lemma_views(self.children@);
            assert(views(self.children@).subrange(0, 0) =~= scrub_all(
                orig.subrange(0, 0),
                file_id@,
            ));
            assert(views(self.children@).subrange(0, orig.len() as int) =~= orig);
        }
        while i < self.children.len()
            invariant
                self.id == old(self).id,
                self.name == old(self).name,
                self.path == old(self).path,
                self.is_directory == old(self).is_directory,
                self.file_id == old(self).file_id,
                orig == old(self)@.children,
                0 <= done <= orig.len(),
                i <= self.children.len(),
                self.children.len() - i == orig.len() - done,
                views(self.children@).subrange(0, i as int) == scrub_all(
                    orig.subrange(0, done),
                    file_id@,
                ),
                views(self.children@).subrange(i as int, self.children.len() as int)
                    == orig.subrange(done, orig.len() as int),
            decreases orig.len() - done,
        {
            let ghost before = self.children@;
            let ghost len = self.children.len() as int;
            proof {
                lemma_views(before);
                assert(views(before)[i as int] == views(before).subrange(i as int, len)[0]);
                assert(views(before)[i as int] == orig[done]);
                assert(orig.subrange(0, done + 1).drop_last() =~= orig.subrange(0, done));
                assert(orig.subrange(0, done + 1).last() == orig[done]);
            }
            if node_refers_to(&self.children[i], file_id) {
                self.children.remove(i);
                proof {
                    lemma_views(self.children@);
                    assert(views(self.children@).subrange(0, i as int) =~= views(before).subrange(
                        0,
                        i as int,
                    ));
                    let tail = views(self.children@).subrange(i as int, len - 1);
                    let want = orig.subrange(done + 1, orig.len() as int);
                    assert forall|x: int| 0 <= x < tail.len() implies #[trigger] tail[x]
                        == want[x] by {
                        assert(views(before).subrange(i as int, len)[x + 1] == orig.subrange(
                            done,
                            orig.len() as int,
                        )[x + 1]);
                    }
                    assert(tail =~= want);
                    done = done + 1;
                }
            } else {
                self.children[i].remove_by_file_ref(file_id);
                proof {
                    lemma_views(self.children@);
                    assert(views(self.children@).subrange(0, i + 1) =~= views(before).subrange(
                        0,
                        i as int,
                    ).push(scrub(orig[done], file_id@)));
                    let tail = views(self.children@).subrange(i + 1, len);
                    let want = orig.subrange(done + 1, orig.len() as int);
                    assert forall|x: int| 0 <= x < tail.len() implies #[trigger] tail[x]
                        == want[x] by {
                        assert(views(before).subrange(i as int, len)[x + 1] == orig.subrange(
                            done,
                            orig.len() as int,
                        )[x + 1]);
                    }
                    assert(tail =~= want);
                    done = done + 1;
                }
                i = i + 1;
            }
        }
        proof {
            lemma_views(self.children@);
            assert(orig.subrange(0, orig.len() as int) =~= orig);
            assert(views(self.children@).subrange(0, i as int) =~= views(self.children@));
        }
    }
}

/// A copy of an optional string.
fn copy_opt(s: &Option<String>) -> (c: Option<String>)
    ensures
        text_of(c) == text_of(*s),
{
    match s {
        Some(t) => Some(t.clone()),
        None => None,
    }
}

/// Copies of `nodes`, in order.
pub fn copy_nodes(nodes: &Vec<FileNode>) -> (out: Vec<FileNode>)
    ensures
        views(out@) == views(nodes@),
    decreases nodes,
{
    let mut out: Vec<FileNode> = Vec::new();
    let mut i: usize = 0;
    proof {
        lemma_views(nodes@);
        lemma_views(out@);
    }
    while i < nodes.len()
        invariant
            i <= nodes.len(),
            out.len() == i,
            forall|j: int| 0 <= j < i ==> (#[trigger] out@[j])@ == nodes@[j]@,
        decreases nodes.len() - i,
    {
        let c = nodes[i].clone();
        out.push(c);
        i = i + 1;
    }
    proof {
        lemma_views(nodes@);
        lemma_views(out@);
        assert(views(out@) =~= views(nodes@));
    }
    out
}

impl Clone for FileNode {
    /// A copy of this node and of everything below it.
    fn clone(&self) -> (c: Self)
        ensures
            c@ == self@,
        decreases self,
    {
        FileNode {
            id: self.id.clone(),
            name: self.name.clone(),
            path: self.path.clone(),
            is_directory: self.is_directory,
            children: copy_nodes(&self.children),
            file_id: copy_opt(&self.file_id),
        }
    }
}

/// What listing the children of the node that `steps` reach from `node`
/// gives.
pub open spec fn children_at(node: NodeSpec, steps: Seq<Seq<char>>) -> Result<
    Seq<NodeSpec>,
    VfsError,
> {
    match resolve(node, steps) {
        None => Err(VfsError::NotFound),
        Some(found) => if found.is_directory {
            Ok(found.children)
        } else {
            Err(VfsError::NotADirectory)
        },
    }
}

/// The values of the nodes that a listing returned.
pub open spec fn listing_value(r: Result<Vec<FileNode>, VfsError>) -> Result<
    Seq<NodeSpec>,
    VfsError,
> {
    match r {
        Ok(nodes) => Ok(views(nodes@)),
        Err(e) => Err(e),
    }
}

impl FileNode {
    /// Copies of the children of the directory that `steps` reach, in
    /// insertion order. Fails with `NotFound` where they reach nothing and
    /// with `NotADirectory` where they reach a file.
    pub fn list_children(&self, steps: &Vec<String>) -> (r: Result<Vec<FileNode>, VfsError>)
        ensures
            listing_value(r) == children_at(self@, steps.deep_view()),
    {
        match self.resolve(steps) {
            Some(node) => {
                if !node.is_directory {
                    return Err(VfsError::NotADirectory);
                }
                Ok(copy_nodes(&node.children))
            },
            None => Err(VfsError::NotFound),
        }
    }
}

/// A tree is well formed over a set of record identifiers where every
/// directory carries no file identifier and every file node has no children
/// and denotes a record of the set.
pub open spec fn well_formed_node(node: NodeSpec, ids: Set<Seq<char>>) -> bool
    decreases node,
{
    &&& node.is_directory ==> node.file_id is None
    &&& !node.is_directory ==> node.children.len() == 0 && node.file_id is Some
    &&& node.file_id matches Some(id) ==> ids.contains(id)
    &&& forall|i: int|
        0 <= i < node.children.len() ==> well_formed_node(#[trigger] node.children[i], ids)
}

/// `node` with `new` in the place of the node that `steps` reach; `node`
/// itself where they reach none.
pub open spec fn replace_at(node: NodeSpec, steps: Seq<Seq<char>>, new: NodeSpec) -> NodeSpec
    decreases steps.len(),
{
    if steps.len() == 0 {
        new
    } else {
        match first_named(node.children, steps[0]) {
            Some(i) => NodeSpec {
                children: node.children.update(
                    i,
                    replace_at(node.children[i], steps.skip(1), new),
                ),
                ..node
            },
            None => node,
        }
    }
}

impl FileNode {
    /// Follows `steps`, from the `k`-th on, down from this node, for a
    /// change of what they reach.
    fn resolve_mut_from(&mut self, steps: &Vec<String>, k: usize) -> (r: Option<&mut FileNode>)
        requires
            k <= steps.len(),
        ensures
            resolve(old(self)@, steps.deep_view().skip(k as int)) is None ==> r is None
                && final(self)@ == old(self)@,
            resolve(old(self)@, steps.deep_view().skip(k as int)) matches Some(found) ==> (
            r matches Some(place) && place@ == found && final(self)@ == replace_at(
                old(self)@,
                steps.deep_view().skip(k as int),
                final(place)@,
            )),
        decreases steps.len() - k,
    {
        let ghost rest = steps.deep_view().skip(k as int);
        if k == steps.len() {
            return Some(self);
        }
        assert(rest[0] == steps[k as int]@);
        assert(rest.skip(1) =~= steps.deep_view().skip(k + 1));
        proof {
            lemma_views(self.children@);
        }
        match find_child(&self.children, &steps[k]) {
            Some(i) => {
                let ghost before = self.children@;
                let ghost after = final(self).children@;
                let r = self.children[i].resolve_mut_from(steps, k + 1);
                proof {
                    lemma_views(before);
                    lemma_views(after);
                    assert(after =~= before.update(i as int, after[i as int]));
                    assert(views(after) =~= views(before).update(i as int, after[i as int]@));
                    if r is None {
                        assert(views(after) =~= views(before));
                    }
                }
                r
            },
            None => None,
        }
    }
}

/// Putting a node in its own place changes nothing.
pub proof fn lemma_replace_at_same(node: NodeSpec, steps: Seq<Seq<char>>)
    requires
        resolve(node, steps) is Some,
    ensures
        replace_at(node, steps, resolve(node, steps).unwrap()) == node,
    decreases steps.len(),
{
    if steps.len() > 0 {
        let i = first_named(node.children, steps[0]).unwrap();
        lemma_replace_at_same(node.children[i], steps.skip(1));
        assert(node.children.update(i, node.children[i]) =~= node.children);
    }
}

/// Appending a child to the node that `steps` reach, in its place, is
/// inserting the child at `steps`.
pub proof fn lemma_replace_at_push(node: NodeSpec, steps: Seq<Seq<char>>, child: NodeSpec)
    requires
        resolve(node, steps) is Some,
    ensures
        ({
            let found = resolve(node, steps).unwrap();
            replace_at(node, steps, NodeSpec { children: found.children.push(child), ..found })
                == insert_at(node, steps, child)
        }),
    decreases steps.len(),
{
    if steps.len() > 0 {
        let i = first_named(node.children, steps[0]).unwrap();
        lemma_replace_at_push(node.children[i], steps.skip(1), child);
    }
}

impl FileNode {
    /// Follows `steps` down from this node, for a change of what they
    /// reach: this node is, after the change, what it was with the changed
    /// node in the place of the one reached.
    pub fn resolve_mut(&mut self, steps: &Vec<String>) -> (r: Option<&mut FileNode>)
        ensures
            resolve(old(self)@, steps.deep_view()) is None ==> r is None && final(self)@ == old(
                self,
            )@,
            resolve(old(self)@, steps.deep_view()) matches Some(found) ==> (r matches Some(place)
                && place@ == found && final(self)@ == replace_at(
                old(self)@,
                steps.deep_view(),
                final(place)@,
            )),
    {
        assert(steps.deep_view().skip(0) =~= steps.deep_view());
        self.resolve_mut_from(steps, 0)
    }

    /// Appends `child` to the children of the directory that `steps` reach.
    /// Fails, and changes nothing, where they reach no node or reach a file.
    pub fn insert(&mut self, steps: &Vec<String>, child: FileNode) -> (r: Result<(), VfsError>)
        ensures
            resolve(old(self)@, steps.deep_view()) is None ==> r == Err::<(), VfsError>(
                VfsError::NotFound,
            ) && final(self)@ == old(self)@,
            resolve(old(self)@, steps.deep_view()) matches Some(p) ==> (!p.is_directory ==> r
                == Err::<(), VfsError>(VfsError::InvalidPath) && final(self)@ == old(self)@) && (
            p.is_directory ==> r == Ok::<(), VfsError>(()) && final(self)@ == insert_at(
                old(self)@,
                steps.deep_view(),
                child@,
            )),
    {
        let ghost before = self@;
        proof {
            if resolve(before, steps.deep_view()) is Some {
                lemma_replace_at_same(before, steps.deep_view());
                lemma_replace_at_push(before, steps.deep_view(), child@);
            }
        }
        match self.resolve_mut(steps) {
            Some(parent) => {
                if !parent.is_directory {
                    return Err(VfsError::InvalidPath);
                }
                let ghost children = parent.children@;
                parent.children.push(child);
                proof {
                    lemma_views(children);
                    lemma_views(parent.children@);
                    assert(views(parent.children@) =~= views(children).push(child@));
                }
                Ok(())
            },
            None => Err(VfsError::NotFound),
        }
    }
}

} // verus!
