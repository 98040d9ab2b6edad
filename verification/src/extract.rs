//! Turning the entries of an archive into the files and directories to
//! create under an install directory.
//!
//! Nothing is written here. The result is a plan that the caller carries
//! out in order; every path in it lies under the install directory.

use vstd::prelude::*;
use vstd::slice::slice_subrange;
use vstd::string::StringExecFns;
use crate::archive::{archive_entries, entry_count, open_archive, read_entry, zip_directory};
use crate::archive::{RawEntry, RawEntryView};
use crate::text::{contains_char, last_char, same_text, texts};

verus! {

/// Why an archive could not be unpacked.
#[derive(Clone, Copy, Debug, PartialEq, Eq, Structural)]
pub enum ArchiveError {
    /// The bytes are not an archive that the reader accepts.
    NotAnArchive,
    /// The entry at `index` cannot be opened or its data cannot be decoded.
    UnreadableEntry { index: usize },
    /// The entry at `index` has a path that would not stay under the
    /// install directory, or it is a file without a name.
    UnsafePath { index: usize },
}

/// One step of unpacking.
#[derive(Clone, Debug, PartialEq, Eq)]
pub enum PlannedEntry {
    /// Create the directory `path` and the directories above it.
    Directory { path: String },
    /// Create the directory `parent` and the directories above it, then
    /// write `content` to the file `path`.
    File { path: String, parent: String, content: Vec<u8> },
}

/// The mathematical value of a [`PlannedEntry`].
pub ghost enum PlannedEntryView {
    Directory { path: Seq<char> },
    File { path: Seq<char>, parent: Seq<char>, content: Seq<u8> },
}

impl View for PlannedEntry {
    type V = PlannedEntryView;

    open spec fn view(&self) -> PlannedEntryView {
        match self {
            PlannedEntry::Directory { path } => PlannedEntryView::Directory { path: path@ },
            PlannedEntry::File { path, parent, content } => PlannedEntryView::File {
                path: path@,
                parent: parent@,
                content: content@,
            },
        }
    }
}

impl PlannedEntryView {
    /// The path that the step creates.
    pub open spec fn path(self) -> Seq<char> {
        match self {
            PlannedEntryView::Directory { path } => path,
            PlannedEntryView::File { path, .. } => path,
        }
    }
}

/// The steps to carry out, in order, and the reason why the steps stop
/// before the archive's last entry, if they do.
#[derive(Clone, Debug, PartialEq, Eq)]
pub struct ExtractionPlan {
    pub entries: Vec<PlannedEntry>,
    pub failure: Option<ArchiveError>,
}

/// The mathematical values of a list of steps.
pub open spec fn step_views(steps: Seq<PlannedEntry>) -> Seq<PlannedEntryView> {
    Seq::new(steps.len(), |i: int| steps[i]@)
}

/// A name that is safe as one component of a path: not empty, neither `.`
/// nor `..`, and free of separators and of the NUL character.
pub open spec fn plain_name(name: Seq<char>) -> bool {
    &&& name.len() > 0
    &&& name != seq!['.']
    &&& name != seq!['.', '.']
    &&& !name.contains('/')
    &&& !name.contains('\\')
    &&& !name.contains('\0')
}

/// Whether every name in the list is a [`plain_name`].
pub open spec fn all_plain(names: Seq<Seq<char>>) -> bool {
    forall|i: int| 0 <= i < names.len() ==> plain_name(#[trigger] names[i])
}

/// `base` with `name` as one more component: a `/` goes between them
/// unless `base` is empty or already ends in one.
pub open spec fn with_component(base: Seq<char>, name: Seq<char>) -> Seq<char> {
    if base.len() == 0 {
        name
    } else if base.last() == '/' {
        base + name
    } else {
        base + seq!['/'] + name
    }
}

/// `dir` with each of `names` added as a component, first to last.
pub open spec fn joined(dir: Seq<char>, names: Seq<Seq<char>>) -> Seq<char>
    decreases names.len(),
{
    if names.len() == 0 {
        dir
    } else {
        with_component(joined(dir, names.drop_last()), names.last())
    }
}

/// A path lies under `dir` when it is `dir` followed by plain names.
pub open spec fn lies_under(dir: Seq<char>, path: Seq<char>) -> bool {
    exists|names: Seq<Seq<char>>| all_plain(names) && path == joined(dir, names)
}

/// The step that an entry gives rise to, or the reason why it is refused.
/// A directory entry becomes a directory at its path, which is the install
/// directory itself when no component is left. A file entry needs at least
/// one component; its parent is the path without the last one.
pub open spec fn planned(dir: Seq<char>, index: usize, entry: RawEntryView) -> Result<PlannedEntryView, ArchiveError> {
    if !all_plain(entry.components) {
        Err(ArchiveError::UnsafePath { index })
    } else if entry.is_dir {
        Ok(PlannedEntryView::Directory { path: joined(dir, entry.components) })
    } else if entry.components.len() == 0 {
        Err(ArchiveError::UnsafePath { index })
    } else {
        Ok(PlannedEntryView::File {
            path: joined(dir, entry.components),
            parent: joined(dir, entry.components.drop_last()),
            content: entry.content,
        })
    }
}

/// What becomes of the entry at `index` when the archive reader hands out
/// `entry` for it.
pub open spec fn entry_outcome(dir: Seq<char>, index: usize, entry: Option<RawEntryView>) -> Result<PlannedEntryView, ArchiveError> {
    match entry {
        None => Err(ArchiveError::UnreadableEntry { index }),
        Some(e) => planned(dir, index, e),
    }
}

/// Whether `steps` and `failure` are the plan for `entries`: one step for
/// each entry up to the first that is refused, and that entry's error.
pub open spec fn is_plan_for(
    dir: Seq<char>,
    entries: Seq<Option<RawEntryView>>,
    steps: Seq<PlannedEntryView>,
    failure: Option<ArchiveError>,
) -> bool {
    &&& steps.len() <= entries.len()
    &&& entries.len() <= usize::MAX
    &&& forall|i: int| 0 <= i < steps.len() ==> entry_outcome(dir, i as usize, #[trigger] entries[i]) == Ok::<PlannedEntryView, ArchiveError>(steps[i])
    &&& if steps.len() == entries.len() {
        failure is None
    } else {
        &&& failure is Some
        &&& entry_outcome(dir, steps.len() as usize, entries[steps.len() as int]) == Err::<PlannedEntryView, ArchiveError>(failure->0)
    }
}

/// How many entries, counted from the first, are planned: all those
/// before the first entry that is refused.
pub open spec fn planned_count(dir: Seq<char>, entries: Seq<Option<RawEntryView>>) -> nat
    decreases entries.len(),
{
    if entries.len() == 0 {
        0
    } else {
        let before = planned_count(dir, entries.drop_last());
        if before == entries.len() - 1 && entry_outcome(dir, (entries.len() - 1) as usize, entries.last()) is Ok {
            entries.len()
        } else {
            before
        }
    }
}

/// The steps of the plan for `entries`.
pub open spec fn plan_steps(dir: Seq<char>, entries: Seq<Option<RawEntryView>>) -> Seq<PlannedEntryView> {
    Seq::new(planned_count(dir, entries), |i: int| entry_outcome(dir, i as usize, entries[i])->Ok_0)
}

/// The error of the first entry of `entries` that is refused, if one is.
pub open spec fn plan_failure(dir: Seq<char>, entries: Seq<Option<RawEntryView>>) -> Option<ArchiveError> {
    let count = planned_count(dir, entries);
    if count == entries.len() {
        None
    } else {
        Some(entry_outcome(dir, count as usize, entries[count as int])->Err_0)
    }
}

/// Whether `name` is a [`plain_name`].
pub fn is_plain_name(name: &str) -> (plain: bool)
    ensures
        plain == plain_name(name@),
{
    proof {
        reveal_strlit(".");
        reveal_strlit("..");
        assert("."@ =~= seq!['.']);
        assert(".."@ =~= seq!['.', '.']);
    }
    !name.is_empty() && !same_text(name, ".") && !same_text(name, "..") && !contains_char(name, '/')
        && !contains_char(name, '\\') && !contains_char(name, '\0')
}

/// Whether every one of `names` is a [`plain_name`].
pub fn are_plain_names(names: &[String]) -> (plain: bool)
    ensures
        plain == all_plain(texts(names@)),
{
    let mut i: usize = 0;
    while i < names.len()
        invariant
            i <= names.len(),
            forall|j: int| 0 <= j < i ==> plain_name(#[trigger] texts(names@)[j]),
        decreases names.len() - i,
    {
        if !is_plain_name(names[i].as_str()) {
            assert(!plain_name(texts(names@)[i as int]));
            return false;
        }
        i += 1;
    }
    true
}

/// `dir` followed by `names`, see [`joined`].
pub fn join_path(dir: &str, names: &[String]) -> (path: String)
    ensures
        path@ == joined(dir@, texts(names@)),
{
    let mut path = dir.to_owned();
    let mut last = last_char(dir);
    let mut i: usize = 0;
    assert(texts(names@).take(0).len() == 0);
    while i < names.len()
        invariant
            i <= names.len(),
            path@ == joined(dir@, texts(names@).take(i as int)),
            path@.len() == 0 ==> last is None,
            path@.len() > 0 ==> last == Some(path@.last()),
        decreases names.len() - i,
    {
        let name = names[i].as_str();
        proof {
            let before = texts(names@).take(i as int);
            let after = texts(names@).take(i + 1);
            assert(after.drop_last() =~= before);
            assert(after.last() == name@);
        }
        match last {
            None => {},
            Some(c) => {
                if c != '/' {
                    proof {
                        reveal_strlit("/");
                        assert("/"@ =~= seq!['/']);
                    }
                    path.append("/");
                    last = Some('/');
                }
            },
        }
        path.append(name);
        match last_char(name) {
            None => {},
            Some(c) => {
                last = Some(c);
            },
        }
        i += 1;
    }
    assert(texts(names@).take(i as int) =~= texts(names@));
    path
}

/// Plans the entry at `index` of an archive that is unpacked into
/// `install_dir`.
pub fn plan_entry(install_dir: &str, index: usize, entry: RawEntry) -> (step: Result<PlannedEntry, ArchiveError>)
    ensures
        match step {
            Ok(planned_step) => planned(install_dir@, index, entry@) == Ok::<PlannedEntryView, ArchiveError>(planned_step@),
            Err(error) => planned(install_dir@, index, entry@) == Err::<PlannedEntryView, ArchiveError>(error),
        },
{
    let names = entry.components.as_slice();
    if !are_plain_names(names) {
        Err(ArchiveError::UnsafePath { index })
    } else if entry.is_dir {
        Ok(PlannedEntry::Directory { path: join_path(install_dir, names) })
    } else if names.len() == 0 {
        Err(ArchiveError::UnsafePath { index })
    } else {
        let above = slice_subrange(names, 0, names.len() - 1);
        assert(texts(above@) =~= texts(names@).drop_last());
        let path = join_path(install_dir, names);
        let parent = join_path(install_dir, above);
        Ok(PlannedEntry::File { path, parent, content: entry.content })
    }
}

/// Opens `bytes` as a ZIP archive and plans the unpacking of every entry
/// into `install_dir`, in the archive's order. Planning stops at the first
/// entry that cannot be read or whose path is refused; the steps before it
/// stay in the plan. Bytes that are no archive give an empty plan.
pub fn plan_extraction(bytes: Vec<u8>, install_dir: &str) -> (plan: ExtractionPlan)
    ensures
        match zip_directory(bytes@) {
            None => plan.entries@.len() == 0 && plan.failure == Some(ArchiveError::NotAnArchive),
            Some(entries) => is_plan_for(install_dir@, entries, step_views(plan.entries@), plan.failure),
        },
{
    let mut archive = match open_archive(bytes) {
        None => {
            return ExtractionPlan { entries: Vec::new(), failure: Some(ArchiveError::NotAnArchive) };
        },
        Some(archive) => archive,
    };
    let ghost entries = archive_entries(archive);
    let count = entry_count(&archive);
    let mut steps: Vec<PlannedEntry> = Vec::new();
    let mut i: usize = 0;
    while i < count
        invariant
            i <= count == entries.len(),
            zip_directory(bytes@) == Some(entries),
            archive_entries(archive) == entries,
            steps@.len() == i,
            forall|j: int| 0 <= j < i ==> entry_outcome(install_dir@, j as usize, #[trigger] entries[j]) == Ok::<PlannedEntryView, ArchiveError>(steps@[j]@),
        decreases count - i,
    {
        let step = match read_entry(&mut archive, i) {
            None => Err(ArchiveError::UnreadableEntry { index: i }),
            Some(raw) => plan_entry(install_dir, i, raw),
        };
        match step {
            Err(error) => {
                return ExtractionPlan { entries: steps, failure: Some(error) };
            },
            Ok(planned_step) => {
                steps.push(planned_step);
            },
        }
        i += 1;
    }
    ExtractionPlan { entries: steps, failure: None }
}

/// [`planned_count`] stops exactly at the first entry that is refused.
pub proof fn lemma_planned_count(dir: Seq<char>, entries: Seq<Option<RawEntryView>>)
    ensures
        planned_count(dir, entries) <= entries.len(),
        forall|i: int| 0 <= i < planned_count(dir, entries) ==> entry_outcome(dir, i as usize, #[trigger] entries[i]) is Ok,
        planned_count(dir, entries) < entries.len() ==> entry_outcome(
            dir,
            planned_count(dir, entries) as usize,
            entries[planned_count(dir, entries) as int],
        ) is Err,
    decreases entries.len(),
{
    if entries.len() > 0 {
        let shorter = entries.drop_last();
        lemma_planned_count(dir, shorter);
        assert forall|i: int| 0 <= i < shorter.len() implies shorter[i] == entries[i] by {}
        let before = planned_count(dir, shorter);
        assert forall|i: int| 0 <= i < planned_count(dir, entries) implies entry_outcome(dir, i as usize, #[trigger] entries[i]) is Ok by {
            if i < before {
                assert(entry_outcome(dir, i as usize, shorter[i]) is Ok);
            }
        }
    }
}

/// The plan for a list of entries is the only one: steps and failure that
/// satisfy [`is_plan_for`] are [`plan_steps`] and [`plan_failure`].
pub proof fn lemma_plan_is_determined(
    dir: Seq<char>,
    entries: Seq<Option<RawEntryView>>,
    steps: Seq<PlannedEntryView>,
    failure: Option<ArchiveError>,
)
    requires
        is_plan_for(dir, entries, steps, failure),
    ensures
        steps == plan_steps(dir, entries),
        failure == plan_failure(dir, entries),
{
    lemma_planned_count(dir, entries);
    let count = planned_count(dir, entries);
    if steps.len() < count {
        assert(entry_outcome(dir, steps.len() as usize, entries[steps.len() as int]) is Ok);
    } else if steps.len() > count {
        assert(entry_outcome(dir, count as usize, entries[count as int]) is Ok);
    }
    assert(steps.len() == count);
    assert(steps =~= plan_steps(dir, entries));
}

/// [`plan_steps`] and [`plan_failure`] satisfy [`is_plan_for`].
pub proof fn lemma_plan_exists(dir: Seq<char>, entries: Seq<Option<RawEntryView>>)
    requires
        entries.len() <= usize::MAX,
    ensures
        is_plan_for(dir, entries, plan_steps(dir, entries), plan_failure(dir, entries)),
{
    lemma_planned_count(dir, entries);
}

/// The install directory is the beginning of every path that [`joined`]
/// builds on it.
pub proof fn lemma_joined_begins_with_dir(dir: Seq<char>, names: Seq<Seq<char>>)
    ensures
        dir.len() <= joined(dir, names).len(),
        joined(dir, names).take(dir.len() as int) == dir,
    decreases names.len(),
{
    if names.len() > 0 {
        lemma_joined_begins_with_dir(dir, names.drop_last());
        let base = joined(dir, names.drop_last());
        assert(with_component(base, names.last()).take(dir.len() as int) =~= base.take(dir.len() as int));
    } else {
        assert(dir.take(dir.len() as int) =~= dir);
    }
}

/// No step of unpacking leaves the install directory: the path of every
/// step that an entry gives rise to is the install directory followed by
/// plain names, and so is the parent of a file.
pub proof fn lemma_planned_step_lies_under_dir(dir: Seq<char>, index: usize, entry: RawEntryView)
    ensures
        planned(dir, index, entry) matches Ok(step) ==> {
            &&& lies_under(dir, step.path())
            &&& step matches PlannedEntryView::File { parent, .. } ==> lies_under(dir, parent)
        },
{
    if planned(dir, index, entry) is Ok {
        assert(all_plain(entry.components));
        if !entry.is_dir {
            let above = entry.components.drop_last();
            assert(all_plain(above)) by {
                assert forall|i: int| 0 <= i < above.len() implies plain_name(#[trigger] above[i]) by {
                    assert(above[i] == entry.components[i]);
                }
            }
        }
    }
}

/// Every step of a plan lies under the install directory.
pub proof fn lemma_plan_lies_under_dir(
    dir: Seq<char>,
    entries: Seq<Option<RawEntryView>>,
    steps: Seq<PlannedEntryView>,
    failure: Option<ArchiveError>,
)
    requires
        is_plan_for(dir, entries, steps, failure),
    ensures
        forall|i: int| 0 <= i < steps.len() ==> lies_under(dir, (#[trigger] steps[i]).path()),
{
    assert forall|i: int| 0 <= i < steps.len() implies lies_under(dir, (#[trigger] steps[i]).path()) by {
        assert(entry_outcome(dir, i as usize, entries[i]) == Ok::<PlannedEntryView, ArchiveError>(steps[i]));
        lemma_planned_step_lies_under_dir(dir, i as usize, entries[i]->0);
    }
}

} // verus!
