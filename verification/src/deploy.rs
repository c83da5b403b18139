//! The deployment primitive, modeled precisely: a file system fragment is
//! a map from paths to file contents, and deploying a bundled tree writes
//! every one of its files to the corresponding path under the target,
//! unconditionally overwriting. Nothing is ever deleted by a deployment,
//! and repeating one changes nothing — the law proved here.
//!
//! [`DirectoryImage`] is the executable counterpart: an in-memory
//! directory whose operations carry the same contracts the code that
//! touches the real disk is expected to honor.
use vstd::prelude::*;

verus! {

/// The write list a tree deployment performs: every file of the bundled
/// tree, placed at its relative path under the target.
pub open spec fn tree_writes(tree: Seq<(Seq<char>, Seq<u8>)>, target: Seq<char>) -> Seq<
    (Seq<char>, Seq<u8>),
> {
    tree.map_values(|e: (Seq<char>, Seq<u8>)| (target + "/"@ + e.0, e.1))
}

/// The file system fragment after performing the writes in order; each
/// write overwrites whatever the path held.
pub open spec fn apply_writes(
    fs: Map<Seq<char>, Seq<u8>>,
    writes: Seq<(Seq<char>, Seq<u8>)>,
) -> Map<Seq<char>, Seq<u8>>
    decreases writes.len(),
{
    if writes.len() == 0 {
        fs
    } else {
        apply_writes(fs, writes.drop_last()).insert(writes.last().0, writes.last().1)
    }
}

/// Whether some write targets the given path.
pub open spec fn writes_contain(writes: Seq<(Seq<char>, Seq<u8>)>, path: Seq<char>) -> bool {
    exists|i: int| 0 <= i < writes.len() && writes[i].0 == path
}

/// The contents the last write to the given path carries.
pub open spec fn last_write(writes: Seq<(Seq<char>, Seq<u8>)>, path: Seq<char>) -> Seq<u8>
    recommends
        writes_contain(writes, path),
    decreases writes.len(),
{
    if writes.len() == 0 {
        Seq::empty()
    } else if writes.last().0 == path {
        writes.last().1
    } else {
        last_write(writes.drop_last(), path)
    }
}

proof fn lemma_apply_writes_at(
    fs: Map<Seq<char>, Seq<u8>>,
    writes: Seq<(Seq<char>, Seq<u8>)>,
    path: Seq<char>,
)
    ensures
        apply_writes(fs, writes).dom().contains(path) == (fs.dom().contains(path)
            || writes_contain(writes, path)),
        apply_writes(fs, writes).dom().contains(path) ==> apply_writes(fs, writes)[path] == (
        if writes_contain(writes, path) {
            last_write(writes, path)
        } else {
            fs[path]
        }),
    decreases writes.len(),
{
    if writes.len() > 0 {
        lemma_apply_writes_at(fs, writes.drop_last(), path);
        if writes.last().0 == path {
            assert(writes_contain(writes, path)) by {
                assert(writes[writes.len() - 1].0 == path);
            }
        } else {
            assert(writes_contain(writes, path) == writes_contain(writes.drop_last(), path))
                by {
                if writes_contain(writes.drop_last(), path) {
                    let i = choose|i: int|
                        0 <= i < writes.drop_last().len() && writes.drop_last()[i].0 == path;
                    assert(writes[i].0 == path);
                }
                if writes_contain(writes, path) {
                    let i = choose|i: int| 0 <= i < writes.len() && writes[i].0 == path;
                    assert(writes.drop_last()[i].0 == path);
                }
            }
        }
    }
}

/// Law: deployments are idempotent. Applying the same write list twice
/// in a row leaves exactly the file system fragment one application
/// produces, whatever the fragment held before.
pub proof fn lemma_deploy_idempotent(
    fs: Map<Seq<char>, Seq<u8>>,
    writes: Seq<(Seq<char>, Seq<u8>)>,
)
    ensures
        apply_writes(apply_writes(fs, writes), writes) == apply_writes(fs, writes),
{
    let once = apply_writes(fs, writes);
    let twice = apply_writes(once, writes);
    assert forall|path: Seq<char>| #[trigger]
        twice.dom().contains(path) == once.dom().contains(path) by {
        lemma_apply_writes_at(fs, writes, path);
        lemma_apply_writes_at(once, writes, path);
    }
    assert forall|path: Seq<char>| once.dom().contains(path) implies #[trigger] twice[path]
        == once[path] by {
        lemma_apply_writes_at(fs, writes, path);
        lemma_apply_writes_at(once, writes, path);
    }
    assert(twice.dom() =~= once.dom());
    assert(twice =~= once);
}

/// The map an in-memory file list denotes; a later entry for the same
/// path would win, though well-formed lists have unique paths.
pub open spec fn files_map_of(files: Seq<(String, Vec<u8>)>) -> Map<Seq<char>, Seq<u8>>
    decreases files.len(),
{
    if files.len() == 0 {
        Map::empty()
    } else {
        files_map_of(files.drop_last()).insert(files.last().0@, files.last().1@)
    }
}

/// The views of an in-memory file tree.
pub open spec fn file_entry_views(files: Seq<(String, Vec<u8>)>) -> Seq<(Seq<char>, Seq<u8>)> {
    files.map_values(|e: (String, Vec<u8>)| (e.0@, e.1@))
}

proof fn lemma_files_map_skip_tail(files: Seq<(String, Vec<u8>)>, path: Seq<char>, i: int)
    requires
        0 <= i <= files.len(),
        forall|j: int| i <= j < files.len() ==> files[j].0@ != path,
    ensures
        files_map_of(files).dom().contains(path) == files_map_of(files.take(i)).dom().contains(
            path,
        ),
        files_map_of(files).dom().contains(path) ==> files_map_of(files)[path] == files_map_of(
            files.take(i),
        )[path],
    decreases files.len() - i,
{
    if i < files.len() {
        lemma_files_map_skip_tail(files.drop_last(), path, i);
        assert(files.drop_last().take(i) =~= files.take(i));
    } else {
        assert(files.take(i) =~= files);
    }
}

proof fn lemma_files_map_update(files: Seq<(String, Vec<u8>)>, idx: int, entry: (String, Vec<u8>))
    requires
        0 <= idx < files.len(),
        files[idx].0@ == entry.0@,
        forall|i: int, j: int| 0 <= i < j < files.len() ==> files[i].0@ != files[j].0@,
    ensures
        files_map_of(files.update(idx, entry)) == files_map_of(files).insert(entry.0@, entry.1@),
    decreases files.len(),
{
    let updated = files.update(idx, entry);
    if idx == files.len() - 1 {
        assert(updated.drop_last() =~= files.drop_last());
        assert(files_map_of(updated) =~= files_map_of(files).insert(entry.0@, entry.1@));
    } else {
        lemma_files_map_update(files.drop_last(), idx, entry);
        assert(updated.drop_last() =~= files.drop_last().update(idx, entry));
        assert(files.last().0@ != entry.0@);
        assert(files_map_of(updated) =~= files_map_of(files).insert(entry.0@, entry.1@));
    }
}

/// An in-memory directory: a list of files with unique paths and their
/// contents. It realizes the deployment primitive exactly as the write
/// map above states it.
#[derive(Debug, Clone)]
pub struct DirectoryImage {
    pub files: Vec<(String, Vec<u8>)>,
}

impl View for DirectoryImage {
    type V = Map<Seq<char>, Seq<u8>>;

    open spec fn view(&self) -> Map<Seq<char>, Seq<u8>> {
        files_map_of(self.files@)
    }
}

impl DirectoryImage {
    /// File paths never repeat.
    pub open spec fn wf(self) -> bool {
        forall|i: int, j: int|
            0 <= i < j < self.files@.len() ==> self.files@[i].0@ != self.files@[j].0@
    }

    /// An empty directory.
    pub fn new() -> (r: DirectoryImage)
        ensures
            r.wf(),
            r@ == Map::<Seq<char>, Seq<u8>>::empty(),
    {
        DirectoryImage { files: Vec::new() }
    }

    /// Writes one file, replacing whatever the path held.
    pub fn write_file(&mut self, path: &str, contents: &[u8])
        requires
            old(self).wf(),
        ensures
            final(self).wf(),
            final(self)@ == old(self)@.insert(path@, contents@),
    {
        let n: usize = self.files.len();
        let mut i: usize = 0;
        while i < n
            invariant
                i <= n,
                n == self.files@.len(),
                old(self).wf(),
                *self == *old(self),
                forall|j: int| 0 <= j < i ==> self.files@[j].0@ != path@,
            decreases n - i,
        {
            if crate::strutil::str_eq(self.files[i].0.as_str(), path) {
                let existing = self.files.remove(i);
                let entry = (existing.0, vstd::slice::slice_to_vec(contents));
                self.files.insert(i, entry);
                proof {
                    assert(self.files@ =~= old(self).files@.update(
                        i as int,
                        (old(self).files@[i as int].0, self.files@[i as int].1),
                    ));
                    lemma_files_map_update(
                        old(self).files@,
                        i as int,
                        (old(self).files@[i as int].0, self.files@[i as int].1),
                    );
                }
                return ;
            }
            i = i + 1;
        }
        let entry = (path.to_owned(), vstd::slice::slice_to_vec(contents));
        self.files.push(entry);
        proof {
            assert(self.files@.drop_last() =~= old(self).files@);
        }
    }

    /// The contents at a path, if a file is there.
    pub fn read_file(&self, path: &str) -> (r: Option<&Vec<u8>>)
        requires
            self.wf(),
        ensures
            r.is_some() == self@.dom().contains(path@),
            r matches Some(contents) ==> contents@ == self@[path@],
    {
        let n: usize = self.files.len();
        let mut i: usize = 0;
        while i < n
            invariant
                i <= n,
                n == self.files@.len(),
                self.wf(),
                forall|j: int| 0 <= j < i ==> self.files@[j].0@ != path@,
            decreases n - i,
        {
            if crate::strutil::str_eq(self.files[i].0.as_str(), path) {
                proof {
                    lemma_files_map_skip_tail(self.files@, path@, i as int + 1);
                    let prefix = self.files@.take(i as int + 1);
                    assert(prefix.drop_last() =~= self.files@.take(i as int));
                    assert(prefix.last() == self.files@[i as int]);
                }
                return Some(&self.files[i].1);
            }
            i = i + 1;
        }
        proof {
            lemma_files_map_skip_tail(self.files@, path@, 0);
            assert(self.files@.take(0) =~= Seq::<(String, Vec<u8>)>::empty());
        }
        None
    }

    /// Deploys a bundled tree: writes every file of the tree, in order,
    /// to its relative path under the target directory.
    pub fn deploy(&mut self, tree: &Vec<(String, Vec<u8>)>, target: &str)
        requires
            old(self).wf(),
        ensures
            final(self).wf(),
            final(self)@ == apply_writes(old(self)@, tree_writes(file_entry_views(tree@), target@)),
    {
        let n: usize = tree.len();
        let mut i: usize = 0;
        while i < n
            invariant
                i <= n,
                n == tree@.len(),
                self.wf(),
                self@ == apply_writes(
                    old(self)@,
                    tree_writes(file_entry_views(tree@), target@).take(i as int),
                ),
            decreases n - i,
        {
            let mut path = target.to_owned();
            path.append("/");
            path.append(tree[i].0.as_str());
            self.write_file(path.as_str(), tree[i].1.as_slice());
            proof {
                let writes = tree_writes(file_entry_views(tree@), target@);
                assert(writes.take(i as int + 1).drop_last() =~= writes.take(i as int));
                assert(writes.take(i as int + 1).last() == writes[i as int]);
                assert(writes[i as int].0 == path@);
                assert(writes[i as int].1 == tree@[i as int].1@);
            }
            i = i + 1;
        }
        proof {
            let writes = tree_writes(file_entry_views(tree@), target@);
            assert(writes.take(n as int) =~= writes);
        }
    }
}

} // verus!
