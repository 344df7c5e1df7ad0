//! Projects: a directory with a standard layout, and what is known of one
//! that was opened.

use crate::clock::Timestamp;
use crate::error::VfsError;
use crate::laws::{
    lemma_insert_keeps_node, lemma_insert_keeps_paths, lemma_resolve_inserted, lemma_resolve_push,
};
use crate::path::{
    base_name, file_name, is_name, lemma_child_path, lemma_top_level_path, parent_walk, walk,
};
use crate::tree::{lemma_views, resolve, views, FileNode, NodeSpec};
use crate::vfs::{leaf, FsSpec, VirtualFileSystem};
use vstd::prelude::*;
use vstd::string::*;

verus! {

/// What is known of a project: its name, the path of its directory and the
/// number of its files.
#[derive(Debug)]
pub struct ProjectInfo {
    pub name: String,
    pub path: String,
    pub file_count: usize,
}

/// The number of file nodes at and below `node`. A directory counts for the
/// files below it, a file for one, whatever was put below it.
pub open spec fn files_in(node: NodeSpec) -> nat
    decreases node,
{
    if node.is_directory {
        files_among(node.children)
    } else {
        1
    }
}

/// The number of file nodes at and below `nodes`.
pub open spec fn files_among(nodes: Seq<NodeSpec>) -> nat
    decreases nodes,
{
    if nodes.len() == 0 {
        0
    } else {
        files_among(nodes.drop_last()) + files_in(nodes.last())
    }
}

/// `n` as far as a machine word holds it.
pub open spec fn capped(n: nat) -> usize {
    if n <= usize::MAX {
        n as usize
    } else {
        usize::MAX
    }
}

/// The number of file nodes at and below `nodes`; the largest machine word
/// where there are more than it can hold.
pub fn count_files(nodes: &[FileNode]) -> (n: usize)
    ensures
        n == capped(files_among(views(nodes@))),
    decreases nodes@,
{
    let mut total: usize = 0;
    let mut i: usize = 0;
    proof {
        lemma_views(nodes@);
        assert(views(nodes@).subrange(0, 0) =~= Seq::<NodeSpec>::empty());
    }
    while i < nodes.len()
        invariant
            i <= nodes.len(),
            views(nodes@).len() == nodes.len(),
            forall|j: int| 0 <= j < nodes.len() ==> #[trigger] views(nodes@)[j] == nodes@[j]@,
            total == capped(files_among(views(nodes@).subrange(0, i as int))),
        decreases nodes.len() - i,
    {
        let ghost prefix = views(nodes@).subrange(0, i + 1);
        proof {
            assert(prefix.drop_last() =~= views(nodes@).subrange(0, i as int));
            assert(prefix.last() == nodes@[i as int]@);
        }
        let here: usize = if nodes[i].is_directory {
            count_files(nodes[i].children.as_slice())
        } else {
            1
        };
        assert(here == capped(files_in(nodes@[i as int]@)));
        if here > usize::MAX - total {
            total = usize::MAX;
        } else {
            total = total + here;
        }
        i = i + 1;
    }
    proof {
        assert(views(nodes@).subrange(0, nodes.len() as int) =~= views(nodes@));
    }
    total
}

/// The name that a project at `path` goes by.
pub open spec fn project_name(path: Seq<char>) -> Seq<char> {
    match file_name(path) {
        Some(name) => name,
        None => "Unknown"@,
    }
}

/// What opening the project at `path` gives: its name is the final segment
/// of `path`, and its files are counted below its directory.
pub open spec fn opened_project(fs: FsSpec, path: Seq<char>) -> Result<
    (Seq<char>, Seq<char>, usize),
    VfsError,
> {
    match fs.list(path) {
        Ok(children) => Ok((project_name(path), path, capped(files_among(children)))),
        Err(e) => Err(e),
    }
}

/// The name, path and file count that `r` holds.
pub open spec fn project_value(r: Result<ProjectInfo, VfsError>) -> Result<
    (Seq<char>, Seq<char>, usize),
    VfsError,
> {
    match r {
        Ok(info) => Ok((info.name@, info.path@, info.file_count)),
        Err(e) => Err(e),
    }
}

/// Opens the project whose directory is at `path`. Fails as listing that
/// directory fails.
pub fn open_project(vfs: &VirtualFileSystem, path: String) -> (r: Result<ProjectInfo, VfsError>)
    ensures
        project_value(r) == opened_project(vfs@, path@),
{
    let files = match vfs.list_directory(path.as_str()) {
        Ok(files) => files,
        Err(e) => {
            return Err(e);
        },
    };
    let name = match base_name(path.as_str()) {
        Some(name) => name,
        None => String::from_str("Unknown"),
    };
    let file_count = count_files(files.as_slice());
    Ok(ProjectInfo { name, path, file_count })
}

/// One thing to create: a directory at `path`, or a file there with
/// `content`.
pub struct Step {
    pub path: Seq<char>,
    pub is_directory: bool,
    pub content: Seq<char>,
}

/// One thing to create: a directory at `path`, or a file there with
/// `content`.
#[derive(Debug)]
pub struct ScaffoldStep {
    pub path: String,
    pub is_directory: bool,
    pub content: String,
}

impl View for ScaffoldStep {
    type V = Step;

    open spec fn view(&self) -> Step {
        Step { path: self.path@, is_directory: self.is_directory, content: self.content@ }
    }
}

/// The values of a sequence of steps, in order.
pub open spec fn step_views(steps: Seq<ScaffoldStep>) -> Seq<Step> {
    steps.map_values(|s: ScaffoldStep| s@)
}

/// `after` is `before` with what `step` asks for created, which was possible.
pub open spec fn step_taken(before: FsSpec, step: Step, after: FsSpec) -> bool {
    &&& before.create_error(step.path) is None
    &&& if step.is_directory {
        exists|node_id: Seq<char>| after == before.with_directory(step.path, node_id)
    } else {
        exists|id: Seq<char>, node_id: Seq<char>, now: Timestamp|
            after == before.with_file(step.path, step.content, id, node_id, now)
    }
}

/// `after` is `before` with `steps` taken one after the other.
pub open spec fn steps_taken(before: FsSpec, steps: Seq<Step>, after: FsSpec) -> bool
    decreases steps.len(),
{
    if steps.len() == 0 {
        after == before
    } else {
        exists|mid: FsSpec|
            steps_taken(before, steps.drop_last(), mid) && step_taken(mid, steps.last(), after)
    }
}

/// `after` is `before` with the first `k` of `steps` taken, where the next
/// one failed with `e`.
pub open spec fn stopped_at(before: FsSpec, steps: Seq<Step>, k: int, e: VfsError, after: FsSpec)
    -> bool {
    &&& 0 <= k < steps.len()
    &&& steps_taken(before, steps.take(k), after)
    &&& after.create_error(steps[k].path) == Some(e)
}

/// Takes `steps` one after the other and stops at the first that fails. What
/// was created before the failure stays.
pub fn run_steps(vfs: &mut VirtualFileSystem, steps: &Vec<ScaffoldStep>) -> (r: Result<
    (),
    VfsError,
>)
    ensures
        r is Ok ==> steps_taken(old(vfs)@, step_views(steps@), final(vfs)@),
        r matches Err(e) ==> exists|k: int|
            stopped_at(old(vfs)@, step_views(steps@), k, e, final(vfs)@),
{
    let ghost plan = step_views(steps@);
    let mut k: usize = 0;
    assert(plan.take(0) =~= Seq::<Step>::empty());
    while k < steps.len()
        invariant
            plan == step_views(steps@),
            k <= steps.len(),
            steps_taken(old(vfs)@, plan.take(k as int), vfs@),
        decreases steps.len() - k,
    {
        let ghost before = vfs@;
        let step = &steps[k];
        assert(plan[k as int] == step@);
        let taken = if step.is_directory {
            match vfs.create_directory(step.path.as_str()) {
                Ok(_) => Ok(()),
                Err(e) => Err(e),
            }
        } else {
            match vfs.create_file(step.path.as_str(), step.content.clone()) {
                Ok(_) => Ok(()),
                Err(e) => Err(e),
            }
        };
        match taken {
            Ok(()) => {
                proof {
                    assert(step_taken(before, plan[k as int], vfs@));
                    assert(plan.take(k + 1).drop_last() =~= plan.take(k as int));
                    assert(plan.take(k + 1).last() == plan[k as int]);
                }
            },
            Err(e) => {
                proof {
                    assert(stopped_at(old(vfs)@, plan, k as int, e, vfs@));
                }
                return Err(e);
            },
        }
        k = k + 1;
    }
    assert(plan.take(steps.len() as int) =~= plan);
    Ok(())
}

/// The path of the directory of the project `name`.
pub open spec fn project_path(name: Seq<char>) -> Seq<char> {
    "/"@ + name
}

/// The text that a new project's introduction starts with.
pub open spec fn readme_text(name: Seq<char>) -> Seq<char> {
    "# "@ + name + "\n\nWelcome to your new ABIDE project!"@
}

/// The text of a new project's main source file.
pub open spec fn main_text() -> Seq<char> {
    "// Your code starts here\n\nfunction main() {\n    console.log('Hello, ABIDE!');\n}\n\nmain();"@
}

/// A step that creates a directory.
pub open spec fn directory_step(path: Seq<char>) -> Step {
    Step { path, is_directory: true, content: Seq::empty() }
}

/// A step that creates a file.
pub open spec fn file_step(path: Seq<char>, content: Seq<char>) -> Step {
    Step { path, is_directory: false, content }
}

/// What a new project `name` consists of, in the order of creation: its
/// directory, three directories in it, an introduction and a main source
/// file.
pub open spec fn scaffold(name: Seq<char>) -> Seq<Step> {
    let root = project_path(name);
    seq![
        directory_step(root),
        directory_step(root + "/src"@),
        directory_step(root + "/tests"@),
        directory_step(root + "/docs"@),
        file_step(root + "/README.md"@, readme_text(name)),
        file_step(root + "/src/main.js"@, main_text()),
    ]
}

/// `root` followed by `rest`.
fn joined(root: &String, rest: &str) -> (out: String)
    ensures
        out@ == root@ + rest@,
{
    root.clone().concat(rest)
}

/// A step that creates a directory at `path`.
fn directory_at(path: String) -> (step: ScaffoldStep)
    ensures
        step@ == directory_step(path@),
{
    ScaffoldStep { path, is_directory: true, content: String::new() }
}

/// The steps that make up a new project `name`.
pub fn scaffold_steps(name: &str) -> (steps: Vec<ScaffoldStep>)
    ensures
        step_views(steps@) == scaffold(name@),
{
    let root = String::from_str("/").concat(name);
    let readme = String::from_str("# ").concat(name).concat(
        "\n\nWelcome to your new ABIDE project!",
    );
    let main = String::from_str(
        "// Your code starts here\n\nfunction main() {\n    console.log('Hello, ABIDE!');\n}\n\nmain();",
    );
    let mut steps: Vec<ScaffoldStep> = Vec::new();
    steps.push(directory_at(root.clone()));
    steps.push(directory_at(joined(&root, "/src")));
    steps.push(directory_at(joined(&root, "/tests")));
    steps.push(directory_at(joined(&root, "/docs")));
    steps.push(
        ScaffoldStep { path: joined(&root, "/README.md"), is_directory: false, content: readme },
    );
    steps.push(
        ScaffoldStep { path: joined(&root, "/src/main.js"), is_directory: false, content: main },
    );
    assert(step_views(steps@) =~= scaffold(name@));
    steps
}

/// The names of the standard layout are names.
proof fn lemma_layout_names()
    ensures
        is_name("src"@),
        is_name("tests"@),
        is_name("docs"@),
        is_name("README.md"@),
        is_name("main.js"@),
        "/"@ == seq!['/'],
        "/src"@ == seq!['/'] + "src"@,
        "/tests"@ == seq!['/'] + "tests"@,
        "/docs"@ == seq!['/'] + "docs"@,
        "/README.md"@ == seq!['/'] + "README.md"@,
        "/src/main.js"@ == seq!['/'] + "src"@ + seq!['/'] + "main.js"@,
{
    reveal_strlit("src");
    reveal_strlit("tests");
    reveal_strlit("docs");
    reveal_strlit("README.md");
    reveal_strlit("main.js");
    reveal_strlit("/");
    reveal_strlit("/src");
    reveal_strlit("/tests");
    reveal_strlit("/docs");
    reveal_strlit("/README.md");
    reveal_strlit("/src/main.js");
    assert("/"@ =~= seq!['/']);
    assert("/src"@ =~= seq!['/'] + "src"@);
    assert("/tests"@ =~= seq!['/'] + "tests"@);
    assert("/docs"@ =~= seq!['/'] + "docs"@);
    assert("/README.md"@ =~= seq!['/'] + "README.md"@);
    assert("/src/main.js"@ =~= seq!['/'] + "src"@ + seq!['/'] + "main.js"@);
}

/// Where each path of the standard layout leads: the project's directory
/// lies under the root, the main source file lies in `src`, and everything
/// else lies in the project's directory.
pub proof fn lemma_scaffold_paths(name: Seq<char>)
    requires
        is_name(name),
    ensures
        ({
            let plan = scaffold(name);
            &&& forall|i: int| 0 <= i < 6 ==> file_name(#[trigger] plan[i].path) is Some
            &&& parent_walk(plan[0].path) == Some(Seq::<Seq<char>>::empty())
            &&& walk(plan[0].path) == seq![name]
            &&& forall|i: int|
                1 <= i < 5 ==> parent_walk(#[trigger] plan[i].path) == Some(seq![name])
            &&& file_name(plan[1].path) == Some("src"@)
            &&& parent_walk(plan[5].path) == Some(seq![name, "src"@])
        }),
{
    lemma_layout_names();
    let root = project_path(name);
    assert(root =~= seq!['/'] + name);
    lemma_top_level_path(name);
    lemma_child_path(root, "src"@);
    lemma_child_path(root, "tests"@);
    lemma_child_path(root, "docs"@);
    lemma_child_path(root, "README.md"@);
    let src = root + seq!['/'] + "src"@;
    lemma_child_path(src, "main.js"@);
    assert(root + "/src"@ =~= src);
    assert(root + "/tests"@ =~= root + seq!['/'] + "tests"@);
    assert(root + "/docs"@ =~= root + seq!['/'] + "docs"@);
    assert(root + "/README.md"@ =~= root + seq!['/'] + "README.md"@);
    assert(root + "/src/main.js"@ =~= src + seq!['/'] + "main.js"@);
    assert(walk(src) =~= seq![name, "src"@]);
    let plan = scaffold(name);
    assert forall|i: int| 0 <= i < 6 implies file_name(#[trigger] plan[i].path) is Some by {}
    assert forall|i: int| 1 <= i < 5 implies parent_walk(#[trigger] plan[i].path) == Some(
        seq![name],
    ) by {}
}

/// What is known of the tree once the first `k` steps of a new project's
/// layout are taken: the root is a directory, so is the project's directory
/// from the first step on, which is empty right after it, and so is `src`
/// in it from the second step on.
pub open spec fn layout_reached(fs: FsSpec, name: Seq<char>, k: int) -> bool {
    &&& fs.root.is_directory
    &&& k >= 1 ==> (resolve(fs.root, seq![name]) matches Some(dir) && dir.is_directory && (k == 1
        ==> dir.children.len() == 0))
    &&& k >= 2 ==> (resolve(fs.root, seq![name, "src"@]) matches Some(dir) && dir.is_directory)
}

/// The tree that an insertion under `steps` leaves keeps what was reached.
proof fn lemma_step_keeps_layout(
    before: FsSpec,
    after: FsSpec,
    steps: Seq<Seq<char>>,
    node: NodeSpec,
    name: Seq<char>,
    k: int,
)
    requires
        layout_reached(before, name, k),
        k >= 2,
        after.root == crate::tree::insert_at(before.root, steps, node),
    ensures
        layout_reached(after, name, k + 1),
{
    lemma_insert_keeps_node(before.root, steps, node);
    lemma_insert_keeps_paths(before.root, steps, node, seq![name]);
    lemma_insert_keeps_paths(before.root, steps, node, seq![name, "src"@]);
}

/// The root that `step`, taken on `before`, leaves.
proof fn lemma_step_root(before: FsSpec, step: Step, after: FsSpec) -> (node: NodeSpec)
    requires
        step_taken(before, step, after),
    ensures
        after.root == crate::tree::insert_at(before.root, parent_walk(step.path).unwrap(), node),
        node.name == file_name(step.path).unwrap(),
        node.children.len() == 0,
        node.is_directory == step.is_directory,
{
    if step.is_directory {
        let node_id = choose|node_id: Seq<char>| after == before.with_directory(step.path, node_id);
        leaf(step.path, node_id, Seq::empty(), true)
    } else {
        let (id, node_id, now) = choose|id: Seq<char>, node_id: Seq<char>, now: Timestamp|
            after == before.with_file(step.path, step.content, id, node_id, now);
        leaf(step.path, node_id, id, false)
    }
}

/// Taking the first `k` steps of a new project's layout reaches what
/// `layout_reached` says.
proof fn lemma_layout_reached(fs: FsSpec, name: Seq<char>, k: int, after: FsSpec)
    requires
        is_name(name),
        fs.root.is_directory,
        fs.node_at(project_path(name)) is None,
        0 <= k <= 6,
        steps_taken(fs, scaffold(name).take(k), after),
    ensures
        layout_reached(after, name, k),
    decreases k,
{
    let plan = scaffold(name);
    lemma_scaffold_paths(name);
    if k > 0 {
        assert(plan.take(k).drop_last() =~= plan.take(k - 1));
        assert(plan.take(k).last() == plan[k - 1]);
        let mid = choose|mid: FsSpec|
            steps_taken(fs, plan.take(k).drop_last(), mid) && step_taken(
                mid,
                plan.take(k).last(),
                after,
            );
        lemma_layout_reached(fs, name, k - 1, mid);
        let step = plan[k - 1];
        let node = lemma_step_root(mid, step, after);
        let steps = parent_walk(step.path).unwrap();
        if k == 1 {
            assert(mid == fs);
            assert(Seq::<Seq<char>>::empty().push(name) =~= seq![name]);
            lemma_resolve_inserted(fs.root, steps, node);
            lemma_insert_keeps_node(fs.root, steps, node);
        } else if k == 2 {
            let dir = resolve(mid.root, seq![name]).unwrap();
            assert(seq![name].push("src"@) =~= seq![name, "src"@]);
            lemma_resolve_push(mid.root, seq![name], "src"@);
            lemma_resolve_inserted(mid.root, steps, node);
            lemma_insert_keeps_node(mid.root, steps, node);
            lemma_insert_keeps_paths(mid.root, steps, node, seq![name]);
        } else {
            lemma_step_keeps_layout(mid, after, steps, node, name, k - 1);
        }
    }
}

/// The layout of a new project goes through: where `name` is a name and
/// nothing is at the project's path yet, no step fails.
pub proof fn lemma_scaffold_goes_through(
    fs: FsSpec,
    name: Seq<char>,
    k: int,
    e: VfsError,
    after: FsSpec,
)
    requires
        is_name(name),
        fs.root.is_directory,
        fs.node_at(project_path(name)) is None,
    ensures
        !stopped_at(fs, scaffold(name), k, e, after),
{
    let plan = scaffold(name);
    if stopped_at(fs, plan, k, e, after) {
        lemma_scaffold_paths(name);
        lemma_layout_reached(fs, name, k, after);
        assert(crate::tree::resolve(after.root, Seq::<Seq<char>>::empty()) == Some(after.root));
        assert(file_name(plan[k].path) is Some);
        if 1 <= k < 5 {
            assert(parent_walk(plan[k].path) == Some(seq![name]));
        }
        assert(after.create_error(plan[k].path) is None);
    }
}

/// Creates the project `name`: its directory under the root and the
/// standard layout in it. The steps are not undone where a later one fails.
/// None fails where `name` is a name and nothing is at the project's path
/// yet.
pub fn create_project(vfs: &mut VirtualFileSystem, name: String) -> (r: Result<
    ProjectInfo,
    VfsError,
>)
    ensures
        r matches Ok(info) ==> info.name@ == name@ && info.path@ == project_path(name@)
            && info.file_count == 2 && steps_taken(old(vfs)@, scaffold(name@), final(vfs)@),
        r matches Err(e) ==> exists|k: int|
            stopped_at(old(vfs)@, scaffold(name@), k, e, final(vfs)@),
        is_name(name@) && old(vfs)@.node_at(project_path(name@)) is None ==> r is Ok,
{
    vfs.always_well_formed();
    let ghost before = vfs@;
    let steps = scaffold_steps(name.as_str());
    match run_steps(vfs, &steps) {
        Ok(()) => {},
        Err(e) => {
            proof {
                if is_name(name@) && before.node_at(project_path(name@)) is None {
                    let k = choose|k: int| stopped_at(before, scaffold(name@), k, e, vfs@);
                    lemma_scaffold_goes_through(before, name@, k, e, vfs@);
                }
            }
            return Err(e);
        },
    }
    let path = String::from_str("/").concat(name.as_str());
    Ok(ProjectInfo { name, path, file_count: 2 })
}

/// Saves the project. Files are stored as they are written, so that nothing
/// is left to save, and nothing changes.
pub fn save_project(vfs: &VirtualFileSystem) -> (r: Result<(), VfsError>)
    ensures
        r == Ok::<(), VfsError>(()),
{
    Ok(())
}

} // verus!
