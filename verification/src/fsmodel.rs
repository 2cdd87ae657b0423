//! An in-memory filesystem and a verified interpreter for generation
//! recipes.  The model captures what a recipe does to a filesystem — which
//! paths come to exist with which contents, and on which state it aborts
//! with which error — without touching a disk.  External tools are modelled
//! by the one effect the recipes rely on: the package manager's install
//! step leaves a package manifest behind (a minimal placeholder here);
//! every other tool invocation leaves the modelled filesystem alone, and
//! appending to a file a tool would have created creates it.  The model
//! ignores parent directories of written files; its directory set serves
//! the pre-existence check alone.

use crate::manifest;
use crate::plan::{join2, ErrorView, GenerationError, Step, StepView, steps_view};
use vstd::prelude::*;

verus! {

/// The mathematical image of a filesystem: file contents by path, and the
/// set of directories made.
#[verifier::ext_equal]
pub struct FsView {
    pub files: Map<Seq<char>, Seq<char>>,
    pub dirs: Set<Seq<char>>,
}

impl FsView {
    /// The filesystem with nothing in it.
    pub open spec fn empty() -> FsView {
        FsView { files: Map::empty(), dirs: Set::empty() }
    }

    /// Whether anything (file or directory) exists at a path.
    pub open spec fn has_path(self, p: Seq<char>) -> bool {
        self.files.dom().contains(p) || self.dirs.contains(p)
    }
}

/// The placeholder package manifest the model leaves behind for the package
/// manager's install step: a two-line empty object, so the later
/// build-script splice lands between the braces.
pub open spec fn placeholder_manifest_text() -> Seq<char> {
    "{\n}"@
}

/// What one step does to a filesystem: the state after the step and the
/// error it aborts with, if any.  A directory is only created where no path
/// exists yet; a file write is create-or-truncate; an append creates the
/// file when missing; the manifest edit fails on a missing manifest; a tool
/// launch has no modelled effect except the package manager's install step,
/// which leaves a placeholder manifest in its working directory.
pub open spec fn apply_step(fs: FsView, s: StepView) -> (FsView, Option<ErrorView>) {
    match s {
        StepView::CreateDir { path } => if fs.has_path(path) {
            (fs, Some(ErrorView::PathExists { path }))
        } else {
            (FsView { dirs: fs.dirs.insert(path), ..fs }, None)
        },
        StepView::WriteFile { path, content } => (
            FsView { files: fs.files.insert(path, content), ..fs },
            None,
        ),
        StepView::AppendFile { path, content } => {
            let updated = if fs.files.dom().contains(path) {
                fs.files[path] + content
            } else {
                content
            };
            (FsView { files: fs.files.insert(path, updated), ..fs }, None)
        },
        StepView::EditManifest { path, fragment } => if !fs.files.dom().contains(path) {
            (fs, Some(ErrorView::ManifestReadFailed { path }))
        } else {
            (
                FsView {
                    files: fs.files.insert(path, manifest::inject_text(fs.files[path], fragment)),
                    ..fs
                },
                None,
            )
        },
        StepView::RunProcess { program, args, dir } => match dir {
            Some(d) => if program == "npm"@ && args.len() > 0 && args[0] == "install"@
                && !fs.files.dom().contains(d + "/package.json"@) {
                (
                    FsView {
                        files: fs.files.insert(d + "/package.json"@, placeholder_manifest_text()),
                        ..fs
                    },
                    None,
                )
            } else {
                (fs, None)
            },
            None => (fs, None),
        },
    }
}

/// What a whole recipe does: the steps in order, stopping at the first
/// error and leaving the filesystem as that step left it.
pub open spec fn spec_apply(fs: FsView, steps: Seq<StepView>) -> (FsView, Option<ErrorView>)
    decreases steps.len(),
{
    if steps.len() == 0 {
        (fs, None)
    } else {
        let r = apply_step(fs, steps[0]);
        if r.1 is Some {
            r
        } else {
            spec_apply(r.0, steps.drop_first())
        }
    }
}

// ----- the executable model -----

/// File contents as an association list; a later entry for the same path
/// overrides an earlier one.
pub open spec fn files_map(entries: Seq<(String, String)>) -> Map<Seq<char>, Seq<char>>
    decreases entries.len(),
{
    if entries.len() == 0 {
        Map::empty()
    } else {
        files_map(entries.drop_last()).insert(entries.last().0@, entries.last().1@)
    }
}

/// The set of directory paths in a list.
pub open spec fn dirs_set(paths: Seq<String>) -> Set<Seq<char>>
    decreases paths.len(),
{
    if paths.len() == 0 {
        Set::empty()
    } else {
        dirs_set(paths.drop_last()).insert(paths.last()@)
    }
}

/// A path is a file exactly when some entry holds it.
proof fn lemma_files_map_membership(entries: Seq<(String, String)>, k: Seq<char>)
    ensures
        files_map(entries).dom().contains(k) <==> exists|j: int|
            0 <= j < entries.len() && entries[j].0@ == k,
    decreases entries.len(),
{
    if entries.len() > 0 {
        lemma_files_map_membership(entries.drop_last(), k);
        if entries.last().0@ == k {
            assert(entries[entries.len() - 1].0@ == k);
        } else if exists|j: int| 0 <= j < entries.len() && entries[j].0@ == k {
            let j = choose|j: int| 0 <= j < entries.len() && entries[j].0@ == k;
            assert(entries.drop_last()[j].0@ == k);
        }
    }
}

/// The content of a file is the content of the last entry holding its path.
proof fn lemma_files_map_last_match(entries: Seq<(String, String)>, k: Seq<char>, i: int)
    requires
        0 <= i < entries.len(),
        entries[i].0@ == k,
        forall|j: int| i < j < entries.len() ==> entries[j].0@ != k,
    ensures
        files_map(entries).dom().contains(k),
        files_map(entries)[k] == entries[i].1@,
    decreases entries.len(),
{
    if i < entries.len() - 1 {
        lemma_files_map_last_match(entries.drop_last(), k, i);
    }
}

/// A path is a directory exactly when the list holds it.
proof fn lemma_dirs_set_membership(paths: Seq<String>, k: Seq<char>)
    ensures
        dirs_set(paths).contains(k) <==> exists|j: int| 0 <= j < paths.len() && paths[j]@ == k,
    decreases paths.len(),
{
    if paths.len() > 0 {
        lemma_dirs_set_membership(paths.drop_last(), k);
        if paths.last()@ == k {
            assert(paths[paths.len() - 1]@ == k);
        } else if exists|j: int| 0 <= j < paths.len() && paths[j]@ == k {
            let j = choose|j: int| 0 <= j < paths.len() && paths[j]@ == k;
            assert(paths.drop_last()[j]@ == k);
        }
    }
}

/// Character-wise string comparison.
fn str_eq(a: &str, b: &str) -> (r: bool)
    ensures
        r == (a@ == b@),
{
    let n = a.unicode_len();
    if n != b.unicode_len() {
        return false;
    }
    let mut i: usize = 0;
    while i < n
        invariant
            0 <= i <= n,
            n == a@.len(),
            n == b@.len(),
            forall|j: int| 0 <= j < i ==> a@[j] == b@[j],
        decreases n - i,
    {
        if a.get_char(i) != b.get_char(i) {
            return false;
        }
        i = i + 1;
    }
    proof {
        assert(a@ =~= b@);
    }
    true
}

/// The in-memory filesystem the tests run recipes against.
pub struct MemFs {
    files: Vec<(String, String)>,
    dirs: Vec<String>,
}

impl View for MemFs {
    type V = FsView;

    closed spec fn view(&self) -> FsView {
        FsView { files: files_map(self.files@), dirs: dirs_set(self.dirs@) }
    }
}

impl MemFs {
    /// An empty filesystem.
    pub fn new() -> (r: MemFs)
        ensures
            r@ == FsView::empty(),
    {
        let r = MemFs { files: Vec::new(), dirs: Vec::new() };
        proof {
            assert(r@ =~= FsView::empty());
        }
        r
    }

    /// The content of the file at a path, if one exists.
    pub fn read_file(&self, path: &str) -> (r: Option<String>)
        ensures
            match r {
                Some(c) => self@.files.dom().contains(path@) && c@ == self@.files[path@],
                None => !self@.files.dom().contains(path@),
            },
    {
        let mut i: usize = self.files.len();
        while i > 0
            invariant
                0 <= i <= self.files@.len(),
                forall|j: int| i <= j < self.files@.len() ==> self.files@[j].0@ != path@,
        decreases i,
        {
            i = i - 1;
            let entry = &self.files[i];
            if str_eq(entry.0.as_str(), path) {
                proof {
                    lemma_files_map_last_match(self.files@, path@, i as int);
                }
                return Some(entry.1.clone());
            }
        }
        proof {
            lemma_files_map_membership(self.files@, path@);
        }
        None
    }

    /// Whether a file exists at a path.
    pub fn file_exists(&self, path: &str) -> (r: bool)
        ensures
            r == self@.files.dom().contains(path@),
    {
        match self.read_file(path) {
            Some(_) => true,
            None => false,
        }
    }

    /// Whether a directory exists at a path.
    pub fn dir_exists(&self, path: &str) -> (r: bool)
        ensures
            r == self@.dirs.contains(path@),
    {
        let mut i: usize = 0;
        let n = self.dirs.len();
        while i < n
            invariant
                0 <= i <= n,
                n == self.dirs@.len(),
                forall|j: int| 0 <= j < i ==> self.dirs@[j]@ != path@,
            decreases n - i,
        {
            if str_eq(self.dirs[i].as_str(), path) {
                proof {
                    lemma_dirs_set_membership(self.dirs@, path@);
                }
                return true;
            }
            i = i + 1;
        }
        proof {
            lemma_dirs_set_membership(self.dirs@, path@);
        }
        false
    }

    /// Whether anything exists at a path.
    pub fn path_exists(&self, path: &str) -> (r: bool)
        ensures
            r == self@.has_path(path@),
    {
        self.file_exists(path) || self.dir_exists(path)
    }

    /// Records a directory.
    pub fn create_dir(&mut self, path: String)
        ensures
            final(self)@ == (FsView { dirs: old(self)@.dirs.insert(path@), ..old(self)@ }),
    {
        let ghost before = self.dirs@;
        self.dirs.push(path);
        proof {
            assert(self.dirs@.drop_last() =~= before);
            assert(final(self)@ =~= (FsView { dirs: old(self)@.dirs.insert(path@), ..old(self)@ }));
        }
    }

    /// Creates or truncates the file at a path.
    pub fn write_file(&mut self, path: String, content: String)
        ensures
            final(self)@ == (FsView {
                files: old(self)@.files.insert(path@, content@),
                ..old(self)@
            }),
    {
        let ghost before = self.files@;
        let ghost p = path@;
        let ghost c = content@;
        self.files.push((path, content));
        proof {
            assert(self.files@.drop_last() =~= before);
            assert(self.files@.last().0@ == p && self.files@.last().1@ == c);
            assert(final(self)@ =~= (FsView { files: old(self)@.files.insert(p, c), ..old(self)@ }));
        }
    }

    /// Appends to the file at a path, creating it when missing.
    pub fn append_file(&mut self, path: String, content: String)
        ensures
            final(self)@ == (FsView {
                files: old(self)@.files.insert(
                    path@,
                    if old(self)@.files.dom().contains(path@) {
                        old(self)@.files[path@] + content@
                    } else {
                        content@
                    },
                ),
                ..old(self)@
            }),
    {
        match self.read_file(path.as_str()) {
            Some(mut existing) => {
                existing.append(content.as_str());
                self.write_file(path, existing);
            },
            None => {
                self.write_file(path, content);
            },
        }
    }
}

/// Runs a recipe against the model, step by step in order, stopping at the
/// first failing step with its error; exactly `spec_apply` of the step
/// views.
pub fn apply_plan(fs: &mut MemFs, steps: &Vec<Step>) -> (r: Result<(), GenerationError>)
    ensures
        ({
            let (f2, e) = spec_apply(old(fs)@, steps_view(steps@));
            final(fs)@ == f2 && (match r {
                Ok(()) => e is None,
                Err(err) => e == Some(err@),
            })
        }),
{
    let ghost fs0 = fs@;
    let ghost all = steps_view(steps@);
    let n = steps.len();
    let mut i: usize = 0;
    proof {
        assert(all.skip(0) =~= all);
    }
    while i < n
        invariant
            0 <= i <= n,
            n == steps@.len(),
            n == all.len(),
            all == steps_view(steps@),
            fs0 == old(fs)@,
            spec_apply(fs0, all) == spec_apply(fs@, all.skip(i as int)),
        decreases n - i,
    {
        let ghost prev = fs@;
        let ghost rest = all.skip(i as int);
        proof {
            assert(rest[0] == all[i as int]);
            assert(all[i as int] == steps@[i as int]@);
            assert(rest.drop_first() =~= all.skip(i as int + 1));
        }
        let step = &steps[i];
        match step {
            Step::CreateDir { path } => {
                if fs.path_exists(path.as_str()) {
                    proof {
                        assert(spec_apply(prev, rest) == (
                            prev,
                            Some(ErrorView::PathExists { path: path@ }),
                        ));
                    }
                    return Err(GenerationError::PathExists { path: path.clone() });
                } else {
                    fs.create_dir(path.clone());
                    proof {
                        assert(apply_step(prev, step@).0 =~= fs@);
                    }
                }
            },
            Step::WriteFile { path, content } => {
                fs.write_file(path.clone(), content.clone());
                proof {
                    assert(apply_step(prev, step@).0 =~= fs@);
                }
            },
            Step::AppendFile { path, content } => {
                fs.append_file(path.clone(), content.clone());
                proof {
                    assert(apply_step(prev, step@).0 =~= fs@);
                }
            },
            Step::EditManifest { path, fragment } => {
                match fs.read_file(path.as_str()) {
                    None => {
                        proof {
                            assert(spec_apply(prev, rest) == (
                                prev,
                                Some(ErrorView::ManifestReadFailed { path: path@ }),
                            ));
                        }
                        return Err(GenerationError::ManifestReadFailed { path: path.clone() });
                    },
                    Some(old_text) => {
                        let new_text = manifest::inject_after_first_line(
                            old_text.as_str(),
                            fragment.as_str(),
                        );
                        fs.write_file(path.clone(), new_text);
                        proof {
                            assert(apply_step(prev, step@).0 =~= fs@);
                        }
                    },
                }
            },
            Step::RunProcess { program, args, dir } => {
                match dir {
                    Some(d) => {
                        let is_install = str_eq(program.as_str(), "npm") && args.len() > 0
                            && str_eq(args[0].as_str(), "install");
                        if is_install {
                            proof {
                                assert(args.deep_view()[0] == args@[0]@);
                            }
                            let manifest_path = join2(d.as_str(), "/package.json");
                            if !fs.file_exists(manifest_path.as_str()) {
                                fs.write_file(manifest_path, String::from_str("{\n}"));
                            }
                        } else {
                            proof {
                                assert(args.deep_view().len() == args@.len());
                                if args@.len() > 0 {
                                    assert(args.deep_view()[0] == args@[0]@);
                                }
                            }
                        }
                        proof {
                            assert(apply_step(prev, step@).0 =~= fs@);
                        }
                    },
                    None => {
                        proof {
                            assert(apply_step(prev, step@).0 =~= fs@);
                        }
                    },
                }
            },
        }
        proof {
            assert(apply_step(prev, rest[0]).1 is None);
            assert(spec_apply(fs0, all) == spec_apply(fs@, all.skip(i as int + 1)));
        }
        i = i + 1;
    }
    proof {
        assert(all.skip(n as int) =~= Seq::<StepView>::empty());
    }
    Ok(())
}

} // verus!
