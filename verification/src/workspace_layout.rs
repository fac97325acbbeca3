//! Where a workspace keeps its files.

use std::path::PathBuf;

use vstd::prelude::*;
use vstd::string::StrSliceExecFns;

use crate::text::to_decimal;

verus! {

#[verifier::external_type_specification]
#[verifier::external_body]
pub struct ExPathBuf(std::path::PathBuf);

/// The components of a path, as `std::path::Path::components` walks them on Unix.
pub uninterp spec fn components(path: PathBuf) -> Seq<Seq<char>>;

/// A name that is one component of a path: it is no way up or round, and holds no
/// separator, nor what separates elsewhere.
pub open spec fn plain_name(name: Seq<char>) -> bool {
    &&& name.len() > 0
    &&& name != "."@
    &&& name != ".."@
    &&& forall|i: int| 0 <= i < name.len() ==> plain_char(#[trigger] name[i])
}

/// A character that separates nothing in a path.
pub open spec fn plain_char(c: char) -> bool {
    c != '/' && c != '\\' && c != ':'
}

/// Whether a name is one component of a path.
pub fn is_plain_name(name: &str) -> (r: bool)
    ensures
        r == plain_name(name@),
{
    proof {
        reveal_strlit(".");
        reveal_strlit("..");
    }
    let n: usize = name.unicode_len();
    if n == 0 {
        return false;
    }
    let mut dots = true;
    for i in 0..n
        invariant
            n == name@.len(),
            forall|j: int| 0 <= j < i ==> plain_char(#[trigger] name@[j]),
            dots <==> forall|j: int| 0 <= j < i ==> (#[trigger] name@[j]) == '.',
    {
        let c = name.get_char(i);
        if c == '/' || c == '\\' || c == ':' {
            assert(!plain_char(name@[i as int]));
            return false;
        }
        if c != '.' {
            dots = false;
        }
    }
    proof {
        if dots && n == 1 {
            assert(name@ =~= "."@);
        }
        if dots && n == 2 {
            assert(name@ =~= ".."@);
        }
    }
    !(dots && n <= 2)
}

/// A short name can be checked character by character.
pub proof fn lemma_plain_name(name: Seq<char>)
    requires
        3 <= name.len() <= 15,
        plain_char(name[0]),
        plain_char(name[1]),
        plain_char(name[2]),
        name.len() > 3 ==> plain_char(name[3]),
        name.len() > 4 ==> plain_char(name[4]),
        name.len() > 5 ==> plain_char(name[5]),
        name.len() > 6 ==> plain_char(name[6]),
        name.len() > 7 ==> plain_char(name[7]),
        name.len() > 8 ==> plain_char(name[8]),
        name.len() > 9 ==> plain_char(name[9]),
        name.len() > 10 ==> plain_char(name[10]),
        name.len() > 11 ==> plain_char(name[11]),
        name.len() > 12 ==> plain_char(name[12]),
        name.len() > 13 ==> plain_char(name[13]),
        name.len() > 14 ==> plain_char(name[14]),
    ensures
        plain_name(name),
{
    reveal_strlit(".");
    reveal_strlit("..");
    assert forall|i: int| 0 <= i < name.len() implies plain_char(#[trigger] name[i]) by {
        assert(i == 0 || i == 1 || i == 2 || i == 3 || i == 4 || i == 5 || i == 6 || i == 7 || i
            == 8 || i == 9 || i == 10 || i == 11 || i == 12 || i == 13 || i == 14);
    }
}

/// The path of `name` within the directory.
///
/// Calls `std::path::Path::join`. Trusted, of paths on Unix: a plain name becomes one
/// more component at the end. Of other platforms nothing is claimed: on Windows a name
/// can complete a prefix that the directory has begun, as in `\\server`.
#[verifier::external_body]
pub(crate) fn join(dir: &PathBuf, name: &str) -> (r: PathBuf)
    requires
        plain_name(name@),
    ensures
        components(r) == components(*dir).push(name@),
{
    dir.join(name)
}

/// `std::path::PathBuf::clone`. Trusted: the copy is the same path, component by
/// component.
pub assume_specification[ <std::path::PathBuf as std::clone::Clone>::clone ](
    path: &std::path::PathBuf,
) -> (r: std::path::PathBuf)
    ensures
        components(r) == components(*path),
;

#[derive(Debug)]
pub struct WorkspaceLayout {
    /// Workspace root
    pub root_dir: PathBuf,
    /// Contains datasets
    pub datasets_dir: PathBuf,
    /// Contains repository definitions
    pub repos_dir: PathBuf,
    /// Contains cached downloads and ingest checkpoints
    pub cache_dir: PathBuf,
    /// Directory for storing per-run diagnostics information and logs
    pub run_info_dir: PathBuf,
    /// Version file path
    pub version_path: PathBuf,
}

/// The name of a dataset, with the account it belongs to where there are several.
#[derive(Debug, PartialEq, Eq)]
pub struct DatasetAlias {
    pub account_name: Option<String>,
    pub dataset_name: String,
}

/// Where a dataset keeps its files.
#[derive(Debug)]
pub struct DatasetLayout {
    pub root_dir: PathBuf,
}

/// A step of creating a workspace.
#[derive(Debug)]
pub enum CreateStep<'a> {
    CreateDir(&'a PathBuf),
    WriteFile(&'a PathBuf, String),
}

/// The root is created along with the rest of the workspace.
pub open spec fn creates_root(root_exists: bool, root_has_entries: bool) -> bool {
    !root_exists || root_has_entries
}

impl WorkspaceLayout {
    pub const VERSION: usize = 1;

    /// The paths are those of a workspace at the root.
    pub open spec fn laid_out(&self) -> bool {
        let root = components(self.root_dir);
        &&& components(self.datasets_dir) == root.push("datasets"@)
        &&& components(self.repos_dir) == root.push("repos"@)
        &&& components(self.cache_dir) == root.push("cache"@)
        &&& components(self.run_info_dir) == root.push("run"@)
        &&& components(self.version_path) == root.push("version"@)
    }

    pub fn new<P: Into<PathBuf>>(root: P) -> (r: Self)
        ensures
            r.laid_out(),
            call_ensures(P::into, (root,), r.root_dir),
    {
        proof {
            reveal_strlit("datasets");
            reveal_strlit("repos");
            reveal_strlit("cache");
            reveal_strlit("run");
            reveal_strlit("version");
            lemma_plain_name("datasets"@);
            lemma_plain_name("repos"@);
            lemma_plain_name("cache"@);
            lemma_plain_name("run"@);
            lemma_plain_name("version"@);
        }
        let root_dir = root.into();
        WorkspaceLayout {
            datasets_dir: join(&root_dir, "datasets"),
            repos_dir: join(&root_dir, "repos"),
            cache_dir: join(&root_dir, "cache"),
            run_info_dir: join(&root_dir, "run"),
            version_path: join(&root_dir, "version"),
            root_dir,
        }
    }

    /// What to do, in order, to create the workspace. The root is only left alone
    /// if it is an empty directory.
    pub fn creation_steps(&self, root_exists: bool, root_has_entries: bool) -> (r: Vec<
        CreateStep<'_>,
    >)
        ensures
            ({
                let root = creates_root(root_exists, root_has_entries);
                let first: int = if root {
                    1
                } else {
                    0
                };
                &&& r@.len() == first + 5
                &&& root ==> r@[0] == CreateStep::CreateDir(&self.root_dir)
                &&& r@[first] == CreateStep::CreateDir(&self.datasets_dir)
                &&& r@[first + 1] == CreateStep::CreateDir(&self.repos_dir)
                &&& r@[first + 2] == CreateStep::CreateDir(&self.cache_dir)
                &&& r@[first + 3] == CreateStep::CreateDir(&self.run_info_dir)
                &&& r@[first + 4] matches CreateStep::WriteFile(path, text) && *path
                    == self.version_path && text@ == crate::text::decimal(Self::VERSION as nat)
            }),
    {
        let mut steps: Vec<CreateStep<'_>> = Vec::new();
        if !root_exists || root_has_entries {
            steps.push(CreateStep::CreateDir(&self.root_dir));
        }
        steps.push(CreateStep::CreateDir(&self.datasets_dir));
        steps.push(CreateStep::CreateDir(&self.repos_dir));
        steps.push(CreateStep::CreateDir(&self.cache_dir));
        steps.push(CreateStep::CreateDir(&self.run_info_dir));
        steps.push(CreateStep::WriteFile(&self.version_path, to_decimal(Self::VERSION as u64)));
        steps
    }

    /// Where a dataset keeps its files. Multitenancy is not yet supported.
    pub fn dataset_layout(&self, alias: &DatasetAlias) -> (r: DatasetLayout)
        requires
            alias.account_name is None,
            plain_name(alias.dataset_name@),
        ensures
            components(r.root_dir) == components(self.datasets_dir).push(alias.dataset_name@),
    {
        DatasetLayout { root_dir: join(&self.datasets_dir, alias.dataset_name.as_str()) }
    }
}

impl Clone for WorkspaceLayout {
    fn clone(&self) -> (r: Self)
        ensures
            components(r.root_dir) == components(self.root_dir),
            components(r.datasets_dir) == components(self.datasets_dir),
            components(r.repos_dir) == components(self.repos_dir),
            components(r.cache_dir) == components(self.cache_dir),
            components(r.run_info_dir) == components(self.run_info_dir),
            components(r.version_path) == components(self.version_path),
    {
        WorkspaceLayout {
            root_dir: self.root_dir.clone(),
            datasets_dir: self.datasets_dir.clone(),
            repos_dir: self.repos_dir.clone(),
            cache_dir: self.cache_dir.clone(),
            run_info_dir: self.run_info_dir.clone(),
            version_path: self.version_path.clone(),
        }
    }
}

/// The parts of a workspace do not collide, and all lie directly under its root.
pub proof fn law_parts_of_a_workspace_are_distinct(layout: WorkspaceLayout)
    requires
        layout.laid_out(),
    ensures
        ({
            let parts = seq![
                components(layout.datasets_dir),
                components(layout.repos_dir),
                components(layout.cache_dir),
                components(layout.run_info_dir),
                components(layout.version_path),
            ];
            &&& parts.no_duplicates()
            &&& forall|i: int|
                0 <= i < parts.len() ==> (#[trigger] parts[i]).drop_last() == components(
                    layout.root_dir,
                )
        }),
{
    reveal_strlit("datasets");
    reveal_strlit("repos");
    reveal_strlit("cache");
    reveal_strlit("run");
    reveal_strlit("version");
    let root = components(layout.root_dir);
    let parts = seq![
        components(layout.datasets_dir),
        components(layout.repos_dir),
        components(layout.cache_dir),
        components(layout.run_info_dir),
        components(layout.version_path),
    ];
    let last = seq!["datasets"@, "repos"@, "cache"@, "run"@, "version"@];
    assert(last[0].len() == 8 && last[1].len() == 5 && last[2].len() == 5 && last[3].len() == 3
        && last[4].len() == 7);
    assert(last[1][0] != last[2][0]);
    assert forall|i: int| 0 <= i < parts.len() implies (#[trigger] parts[i]).drop_last() == root
        && parts[i].last() == last[i] by {
        assert(root.push(last[i]).drop_last() == root);
    }
    assert forall|i: int, j: int| 0 <= i < parts.len() && 0 <= j < parts.len() && i != j implies parts[i]
        != parts[j] by {
        assert(parts[i].drop_last() == root);
        assert(parts[j].drop_last() == root);
        assert(parts[i].last() == last[i]);
        assert(parts[j].last() == last[j]);
    }
}

/// The root of a new workspace is created unless it is an empty directory already.
pub proof fn law_when_the_root_is_created(exists: bool, has_entries: bool)
    ensures
        !creates_root(exists, has_entries) <==> exists && !has_entries,
{
}

/// A plain name has at least one character, is neither of the two that mean a directory
/// itself or the one above, and holds no separator.
pub proof fn law_what_a_plain_name_is(name: Seq<char>, i: int)
    ensures
        plain_name(name) ==> name.len() > 0 && name != "."@ && name != ".."@,
        plain_name(name) && 0 <= i < name.len() ==> name[i] != '/' && name[i] != '\\' && name[i]
            != ':',
        name.len() > 0 && name != "."@ && name != ".."@ && (forall|j: int|
            0 <= j < name.len() ==> (#[trigger] name[j]) != '/' && name[j] != '\\' && name[j] != ':')
            ==> plain_name(name),
{
    if plain_name(name) && 0 <= i < name.len() {
        assert(plain_char(name[i]));
    }
}

} // verus!
