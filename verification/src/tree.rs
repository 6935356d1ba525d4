//! A model of the directory tree below the extraction root, and what an
//! extraction plan does to it. Paths are entry names, verbatim; the model
//! describes a run in which every step succeeds.

use vstd::prelude::*;
use crate::archive::{EntryOutcome, OpModel, entry_fault, entry_op, is_directory_name, plans};
use crate::text::ends_with_slash;

verus! {

/// The tree below the extraction root.
pub struct Tree {
    /// The directories, each named with its closing `/`.
    pub dirs: Set<Seq<char>>,
    /// The files, with their content.
    pub files: Map<Seq<char>, Seq<u8>>,
}

/// The directories that must exist for `name` to exist: its prefixes that end
/// in `/`, the name itself included if it is one.
pub open spec fn directories_of(name: Seq<char>) -> Set<Seq<char>> {
    Set::new(
        |d: Seq<char>| d.len() <= name.len() && d == name.subrange(0, d.len() as int) && ends_with_slash(d),
    )
}

/// The tree after one step.
pub open spec fn apply(tree: Tree, op: OpModel) -> Tree {
    match op {
        OpModel::MakeDir(name) => Tree { dirs: tree.dirs.union(directories_of(name)), files: tree.files },
        OpModel::WriteFile(name, data) => Tree {
            dirs: tree.dirs.union(directories_of(name)),
            files: tree.files.insert(name, data),
        },
    }
}

/// The tree after the steps of a plan, in order.
pub open spec fn apply_all(tree: Tree, ops: Seq<OpModel>) -> Tree
    decreases ops.len(),
{
    if ops.len() == 0 {
        tree
    } else {
        apply(apply_all(tree, ops.drop_last()), ops.last())
    }
}

/// The directories that the steps of a plan create.
pub open spec fn created_dirs(ops: Seq<OpModel>) -> Set<Seq<char>>
    decreases ops.len(),
{
    if ops.len() == 0 {
        Set::empty()
    } else {
        let name = match ops.last() {
            OpModel::MakeDir(name) => name,
            OpModel::WriteFile(name, _) => name,
        };
        created_dirs(ops.drop_last()).union(directories_of(name))
    }
}

/// The files that the steps of a plan leave, each with the content that its
/// last step wrote.
pub open spec fn written_files(ops: Seq<OpModel>) -> Map<Seq<char>, Seq<u8>>
    decreases ops.len(),
{
    if ops.len() == 0 {
        Map::empty()
    } else {
        match ops.last() {
            OpModel::MakeDir(_) => written_files(ops.drop_last()),
            OpModel::WriteFile(name, data) => written_files(ops.drop_last()).insert(name, data),
        }
    }
}

/// A plan adds its directories to those that were there, and its files
/// replace those of the same name.
pub proof fn plan_effect(tree: Tree, ops: Seq<OpModel>)
    ensures
        apply_all(tree, ops).dirs == tree.dirs.union(created_dirs(ops)),
        apply_all(tree, ops).files == tree.files.union_prefer_right(written_files(ops)),
    decreases ops.len(),
{
    if ops.len() == 0 {
        assert(tree.dirs.union(created_dirs(ops)) =~= tree.dirs);
        assert(tree.files.union_prefer_right(written_files(ops)) =~= tree.files);
    } else {
        plan_effect(tree, ops.drop_last());
        assert(apply_all(tree, ops).dirs =~= tree.dirs.union(created_dirs(ops)));
        assert(apply_all(tree, ops).files =~= tree.files.union_prefer_right(written_files(ops)));
    }
}

/// Extracting again changes nothing: performing a plan on the tree that the
/// same plan produced yields that tree, with every file's content as the plan
/// wrote it.
pub proof fn extraction_is_idempotent(tree: Tree, ops: Seq<OpModel>)
    ensures
        apply_all(apply_all(tree, ops), ops) == apply_all(tree, ops),
{
    let once = apply_all(tree, ops);
    plan_effect(tree, ops);
    plan_effect(once, ops);
    let twice = apply_all(once, ops);
    assert(twice.dirs =~= once.dirs);
    assert(twice.files =~= once.files);
}

/// A file step is the last word on its name when no later step writes it.
pub open spec fn last_write_of(ops: Seq<OpModel>, i: int) -> bool {
    &&& 0 <= i < ops.len()
    &&& ops[i] is WriteFile
    &&& forall|j: int| i < j < ops.len() && #[trigger] ops[j] is WriteFile ==> ops[j]->WriteFile_0 != ops[i]->WriteFile_0
}

/// After a plan, the file of each file step that is the last for its name
/// exists with exactly the bytes of that step, and so does every directory on
/// its path.
pub proof fn files_keep_path_and_content(tree: Tree, ops: Seq<OpModel>, i: int)
    requires
        last_write_of(ops, i),
    ensures
        apply_all(tree, ops).files.dom().contains(ops[i]->WriteFile_0),
        apply_all(tree, ops).files[ops[i]->WriteFile_0] == ops[i]->WriteFile_1,
        directories_of(ops[i]->WriteFile_0).subset_of(apply_all(tree, ops).dirs),
    decreases ops.len(),
{
    let rest = ops.drop_last();
    if i == ops.len() - 1 {
    } else {
        assert(last_write_of(rest, i)) by {
            assert forall|j: int| i < j < rest.len() && #[trigger] rest[j] is WriteFile implies rest[j]->WriteFile_0
                != rest[i]->WriteFile_0 by {
                assert(ops[j] is WriteFile);
            }
        }
        files_keep_path_and_content(tree, rest, i);
        assert(ops[ops.len() - 1] == ops.last());
        if ops.last() is WriteFile {
            assert(ops.last()->WriteFile_0 != ops[i]->WriteFile_0);
        }
    }
}

/// A directory step creates its directory and touches no file, whatever the
/// tree held.
pub proof fn directory_entry_creates_no_file(tree: Tree, name: Seq<char>)
    requires
        is_directory_name(name),
    ensures
        apply(tree, OpModel::MakeDir(name)).dirs.contains(name),
        apply(tree, OpModel::MakeDir(name)).files == tree.files,
{
    assert(name.subrange(0, name.len() as int) =~= name);
    assert(directories_of(name).contains(name));
}

/// In the plan of an archive, an entry whose name ends in `/` becomes a
/// directory step and every other entry a file step with the entry's own name
/// and bytes.
pub proof fn plan_mirrors_entries(entries: Seq<EntryOutcome>, ops: Seq<OpModel>, fault: Option<Seq<char>>, i: int)
    requires
        plans(entries, ops, fault),
        0 <= i < ops.len(),
    ensures
        entries[i] is Ok,
        is_directory_name(entries[i]->Ok_0.0) ==> ops[i] == OpModel::MakeDir(entries[i]->Ok_0.0),
        !is_directory_name(entries[i]->Ok_0.0) ==> entries[i]->Ok_0.1 is Ok && ops[i] == OpModel::WriteFile(
            entries[i]->Ok_0.0,
            entries[i]->Ok_0.1->Ok_0,
        ),
{
    assert(entry_fault(entries[i]) is None && ops[i] == entry_op(entries[i]));
}

} // verus!
