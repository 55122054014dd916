//! A project: its taxonomy and the datasets in the directories under its
//! root.

use crate::dataset::Dataset;
use crate::error::FormatError;
use crate::names::ListedName;
use crate::project_meta::ProjectMeta;
use crate::text::{join_path, joined, same_text};
use crate::utils::{load_json, loads_as};
use vstd::prelude::*;
use vstd::string::StringExecFns;

verus! {

/// What an entry under the root of a project is, links followed.
#[derive(Debug, Clone, Copy, PartialEq, Eq, Structural)]
pub enum EntryKind {
    File,
    Directory,
}

/// A project: where it is, its taxonomy, and its datasets by the names of
/// their directories, no name twice.
#[derive(Debug, Clone)]
pub struct Project {
    pub project_dir: String,
    pub meta: ProjectMeta,
    pub datasets: Vec<(String, Dataset)>,
}

/// Whether one of `datasets` is named `name`.
pub open spec fn is_named(datasets: Seq<(String, Dataset)>, name: Seq<char>) -> bool {
    exists|k: int| 0 <= k < datasets.len() && (#[trigger] datasets[k]).0@ == name
}

/// Of the datasets of each name the last one, the later names first.
pub open spec fn latest(datasets: Seq<(String, Dataset)>) -> Seq<(String, Dataset)>
    decreases datasets.len(),
{
    if datasets.len() == 0 {
        Seq::empty()
    } else {
        let later = latest(datasets.drop_first());
        if is_named(later, datasets[0].0@) {
            later
        } else {
            later.push(datasets[0])
        }
    }
}

/// No two of `datasets` have the same name.
pub open spec fn names_differ(datasets: Seq<(String, Dataset)>) -> bool {
    forall|i: int, j: int|
        0 <= i < j < datasets.len() ==> (#[trigger] datasets[i]).0@ != (#[trigger] datasets[j]).0@
}

/// Among the last datasets of each name no name occurs twice, and every
/// name that was there is still there.
pub proof fn lemma_latest(datasets: Seq<(String, Dataset)>)
    ensures
        names_differ(latest(datasets)),
        forall|name: Seq<char>| is_named(latest(datasets), name) <==> is_named(datasets, name),
    decreases datasets.len(),
{
    if datasets.len() > 0 {
        let rest = datasets.drop_first();
        let later = latest(rest);
        let all = latest(datasets);
        lemma_latest(rest);
        assert forall|name: Seq<char>| is_named(all, name) <==> is_named(datasets, name) by {
            if is_named(all, name) {
                let k = choose|k: int| 0 <= k < all.len() && (#[trigger] all[k]).0@ == name;
                if k < later.len() {
                    assert(later[k].0@ == name);
                    assert(is_named(rest, name));
                    let m = choose|m: int| 0 <= m < rest.len() && (#[trigger] rest[m]).0@ == name;
                    assert(datasets[m + 1].0@ == name);
                } else {
                    assert(datasets[0].0@ == name);
                }
            }
            if is_named(datasets, name) {
                let k = choose|k: int|
                    0 <= k < datasets.len() && (#[trigger] datasets[k]).0@ == name;
                if k > 0 {
                    assert(rest[k - 1].0@ == name);
                    assert(is_named(rest, name));
                    assert(is_named(later, name));
                    let m = choose|m: int|
                        0 <= m < later.len() && (#[trigger] later[m]).0@ == name;
                    assert(all[m].0@ == name);
                } else {
                    if is_named(later, name) {
                        let m = choose|m: int|
                            0 <= m < later.len() && (#[trigger] later[m]).0@ == name;
                        assert(all[m].0@ == name);
                    } else {
                        assert(all[later.len() as int].0@ == name);
                    }
                }
            }
        }
        assert forall|i: int, j: int| 0 <= i < j < all.len() implies (#[trigger] all[i]).0@ != (
        #[trigger] all[j]).0@ by {
            if j < later.len() {
                assert(later[i].0@ != later[j].0@);
            } else {
                assert(later[i].0@ != datasets[0].0@);
            }
        }
    } else {
        assert forall|name: Seq<char>| is_named(latest(datasets), name) <==> is_named(
            datasets,
            name,
        ) by {}
    }
}

/// The path of the taxonomy of the project at `dir`.
pub open spec fn meta_path(dir: Seq<char>) -> Seq<char> {
    joined(dir, "meta.json"@)
}

/// Whether `datasets` holds one named `name`.
fn holds_name(datasets: &Vec<(String, Dataset)>, name: &str) -> (r: bool)
    ensures
        r == is_named(datasets@, name@),
{
    let mut i: usize = 0;
    while i < datasets.len()
        invariant
            i <= datasets.len(),
            forall|k: int| 0 <= k < i ==> (#[trigger] datasets@[k]).0@ != name@,
        decreases datasets.len() - i,
    {
        if same_text(datasets[i].0.as_str(), name) {
            return true;
        }
        i += 1;
    }
    false
}

impl Project {
    /// Whether an entry under the root is opened as a dataset: a directory
    /// is, a plain file is passed over.
    pub fn is_dataset(kind: EntryKind) -> (r: bool)
        ensures
            r == (kind == EntryKind::Directory),
    {
        match kind {
            EntryKind::Directory => true,
            EntryKind::File => false,
        }
    }

    /// The name of the dataset in a directory: the name of the directory,
    /// which has to be valid text.
    pub fn dataset_name(entry: &ListedName) -> (r: Result<String, FormatError>)
        ensures
            match entry {
                ListedName::Text(name) => r matches Ok(n) && n@ == name@,
                ListedName::Undecodable(path) => r matches Err(
                    FormatError::ExpectUtf8FileName(p),
                ) && p@ == path@,
            },
    {
        match entry {
            ListedName::Text(name) => Ok(name.clone()),
            ListedName::Undecodable(path) => Err(
                FormatError::expect_utf8_file_name(path.as_str()),
            ),
        }
    }

    /// The project at `dir`, from the contents of its taxonomy file and the
    /// datasets that were opened in the directories under it, each with the
    /// name of its directory. Without a taxonomy there is no project. Of
    /// two datasets of one name the later one stays.
    pub fn open(dir: &str, meta: &[u8], datasets: Vec<(String, Dataset)>) -> (r: Result<
        Project,
        FormatError,
    >)
        ensures
            match r {
                Ok(project) => {
                    &&& loads_as(Ok::<ProjectMeta, FormatError>(project.meta), meta_path(dir@), meta@)
                    &&& project.project_dir@ == dir@
                    &&& project.datasets@ == latest(datasets@)
                    &&& names_differ(project.datasets@)
                },
                Err(e) => loads_as(Err::<ProjectMeta, FormatError>(e), meta_path(dir@), meta@),
            },
    {
        let path = join_path(dir, "meta.json");
        let meta = load_json::<ProjectMeta>(path.as_str(), meta)?;
        let ghost all = datasets@;
        let mut rest = datasets;
        let mut kept: Vec<(String, Dataset)> = Vec::new();
        assert(all.subrange(all.len() as int, all.len() as int) =~= Seq::empty());
        assert(all.subrange(0, all.len() as int) =~= all);
        while rest.len() > 0
            invariant
                rest@.len() <= all.len(),
                rest@ == all.subrange(0, rest@.len() as int),
                kept@ == latest(all.subrange(rest@.len() as int, all.len() as int)),
            decreases rest.len(),
        {
            let ghost n = rest@.len() as int;
            let entry = rest.pop().unwrap();
            proof {
                let tail = all.subrange(n - 1, all.len() as int);
                assert(tail.drop_first() =~= all.subrange(n, all.len() as int));
                assert(tail[0] == all[n - 1]);
                assert(entry == all[n - 1]);
                assert(rest@ =~= all.subrange(0, n - 1));
            }
            if !holds_name(&kept, entry.0.as_str()) {
                kept.push(entry);
            }
        }
        proof {
            assert(all.subrange(0, all.len() as int) =~= all);
            lemma_latest(all);
        }
        Ok(Project { project_dir: String::from_str(dir), meta, datasets: kept })
    }

    /// The dataset named `name`, where the project has one.
    pub fn get_dataset(&self, name: &str) -> (r: Option<&Dataset>)
        ensures
            match r {
                Some(dataset) => exists|k: int|
                    0 <= k < self.datasets@.len() && (#[trigger] self.datasets@[k]).0@ == name@
                        && self.datasets@[k].1 == *dataset,
                None => !is_named(self.datasets@, name@),
            },
    {
        let mut i: usize = 0;
        while i < self.datasets.len()
            invariant
                i <= self.datasets.len(),
                forall|k: int| 0 <= k < i ==> (#[trigger] self.datasets@[k]).0@ != name@,
            decreases self.datasets.len() - i,
        {
            if same_text(self.datasets[i].0.as_str(), name) {
                return Some(&self.datasets[i].1);
            }
            i += 1;
        }
        None
    }
}

} // verus!
