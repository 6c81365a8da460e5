//! Repository snapshots and the events told from two of them.

use crate::sources::weather::SettingsError;
use crate::text::str_eq;
use vstd::prelude::*;

verus! {

/// Configuration for git source
#[derive(Debug, Clone)]
pub struct GitConfig {
    /// Path to git repository
    pub path: String,
    /// Poll interval for checking changes, in milliseconds
    pub interval_ms: u64,
    /// Whether to watch for file changes (not just commits)
    pub watch_files: bool,
}

/// What a settings map says about a git source; `None` where a key is
/// absent or holds a value of another type.
#[derive(Debug, Clone)]
pub struct GitSettings {
    /// `path`, a string
    pub path: Option<String>,
    /// `interval_ms`, a whole number
    pub interval_ms: Option<u64>,
    /// `watch`, a boolean
    pub watch: Option<bool>,
}

impl GitConfig {
    /// Create config from settings. The path is required; the interval
    /// defaults to five seconds and files are watched unless told
    /// otherwise.
    pub fn from_settings(settings: GitSettings) -> (config: Result<GitConfig, SettingsError>)
        ensures
            settings.path.is_none() <==> config == Err::<GitConfig, SettingsError>(
                SettingsError::MissingPath,
            ),
            settings.path.is_some() ==> config.is_ok() && {
                let built = config->Ok_0;
                &&& Some(built.path@) == text_of(settings.path)
                &&& built.interval_ms == match settings.interval_ms {
                    Some(ms) => ms,
                    None => 5000,
                }
                &&& built.watch_files == match settings.watch {
                    Some(watch) => watch,
                    None => true,
                }
            },
    {
        let path = match settings.path {
            Some(path) => path,
            None => {
                return Err(SettingsError::MissingPath);
            },
        };
        let interval_ms = match settings.interval_ms {
            Some(ms) => ms,
            None => 5000,
        };
        let watch_files = match settings.watch {
            Some(watch) => watch,
            None => true,
        };
        Ok(GitConfig { path, interval_ms, watch_files })
    }
}

/// Git repository state for change detection
#[derive(Debug, Clone)]
pub struct GitState {
    /// Current HEAD commit hash
    pub head_commit: Option<String>,
    /// Current branch name
    pub branch: Option<String>,
    /// Number of modified files
    pub modified_count: usize,
    /// Number of staged files
    pub staged_count: usize,
    /// Total commits in history
    pub commit_count: usize,
}

impl Default for GitState {
    fn default() -> (state: GitState)
        ensures
            state.head_commit.is_none(),
            state.branch.is_none(),
            state.modified_count == 0,
            state.staged_count == 0,
            state.commit_count == 0,
    {
        GitState {
            head_commit: None,
            branch: None,
            modified_count: 0,
            staged_count: 0,
            commit_count: 0,
        }
    }
}

/// The characters of an optional string.
pub open spec fn text_of(value: Option<String>) -> Option<Seq<char>> {
    match value {
        Some(text) => Some(text@),
        None => None,
    }
}

/// Whether two optional strings hold the same text, or both none.
fn same_text(first: &Option<String>, second: &Option<String>) -> (same: bool)
    ensures
        same == (text_of(*first) == text_of(*second)),
{
    match (first, second) {
        (Some(a), Some(b)) => str_eq(a.as_str(), b.as_str()),
        (None, None) => true,
        _ => false,
    }
}

/// The names of the events, as plain character sequences.
pub open spec fn event_names(events: Seq<String>) -> Seq<Seq<char>> {
    events.map_values(|event: String| event@)
}

/// The events that tell `new` from `old`, in the order they are reported:
/// a commit where the head moved to some commit, a branch change, newly
/// staged files, newly modified files.
pub open spec fn changes(old: GitState, new: GitState) -> Seq<Seq<char>> {
    (if text_of(old.head_commit) != text_of(new.head_commit) && new.head_commit.is_some() {
        seq!["commit"@]
    } else {
        Seq::empty()
    }) + (if text_of(old.branch) != text_of(new.branch) {
        seq!["branch_change"@]
    } else {
        Seq::empty()
    }) + (if new.staged_count > old.staged_count {
        seq!["staged"@]
    } else {
        Seq::empty()
    }) + (if new.modified_count > old.modified_count {
        seq!["file_change"@]
    } else {
        Seq::empty()
    })
}

/// Compare states and generate events.
pub fn detect_changes(old: &GitState, new: &GitState) -> (events: Vec<String>)
    ensures
        event_names(events@) == changes(*old, *new),
{
    let mut events: Vec<String> = Vec::new();
    assert(event_names(events@) =~= Seq::<Seq<char>>::empty());

    // New commit detected
    if !same_text(&old.head_commit, &new.head_commit) && new.head_commit.is_some() {
        let ghost before = events@;
        events.push("commit".to_string());
        assert(event_names(events@) =~= event_names(before) + seq!["commit"@]);
    }
    // Branch changed

    if !same_text(&old.branch, &new.branch) {
        let ghost before = events@;
        events.push("branch_change".to_string());
        assert(event_names(events@) =~= event_names(before) + seq!["branch_change"@]);
    }
    // Files staged

    if new.staged_count > old.staged_count {
        let ghost before = events@;
        events.push("staged".to_string());
        assert(event_names(events@) =~= event_names(before) + seq!["staged"@]);
    }
    // Files modified

    if new.modified_count > old.modified_count {
        let ghost before = events@;
        events.push("file_change".to_string());
        assert(event_names(events@) =~= event_names(before) + seq!["file_change"@]);
    }
    assert(event_names(events@) =~= changes(*old, *new));
    events
}

/// Activity score of a snapshot: ten points for each file with changes
/// that are not committed, staged or not, up to a hundred.
pub open spec fn activity_score(state: GitState) -> nat {
    let points = (state.modified_count + state.staged_count) * 10;
    if points < 100 {
        points as nat
    } else {
        100
    }
}

impl GitState {
    /// Activity score (0-100) based on uncommitted changes.
    pub fn activity(&self) -> (score: u8)
        ensures
            score == activity_score(*self),
            score <= 100,
    {
        if self.modified_count >= 10 || self.staged_count >= 10 {
            100
        } else {
            let points: usize = (self.modified_count + self.staged_count) * 10;
            if points < 100 {
                points as u8
            } else {
                100
            }
        }
    }
}

/// What the repository reports of one file: whether the index differs from
/// the head for it, and whether the work tree differs from the index.
#[derive(Debug, Clone, Copy, PartialEq, Eq, Structural)]
pub struct FileStatus {
    /// New, modified, deleted, renamed or of another type in the index.
    pub staged: bool,
    /// New, modified, deleted, renamed or of another type in the work tree.
    pub modified: bool,
}

/// Number of files that are staged.
pub open spec fn staged_files(files: Seq<FileStatus>) -> nat
    decreases files.len(),
{
    if files.len() == 0 {
        0
    } else {
        staged_files(files.drop_last()) + if files.last().staged {
            1nat
        } else {
            0nat
        }
    }
}

/// Number of files that are modified in the work tree.
pub open spec fn modified_files(files: Seq<FileStatus>) -> nat
    decreases files.len(),
{
    if files.len() == 0 {
        0
    } else {
        modified_files(files.drop_last()) + if files.last().modified {
            1nat
        } else {
            0nat
        }
    }
}

/// Neither count exceeds the number of files.
pub proof fn lemma_counts_bounded(files: Seq<FileStatus>)
    ensures
        staged_files(files) <= files.len(),
        modified_files(files) <= files.len(),
    decreases files.len(),
{
    if files.len() > 0 {
        lemma_counts_bounded(files.drop_last());
    }
}

impl GitState {
    /// Sets the staged and the modified count from the status of each
    /// file. A file that is both staged and modified counts in both.
    pub fn count_files(&mut self, files: &Vec<FileStatus>)
        ensures
            final(self).staged_count == staged_files(files@),
            final(self).modified_count == modified_files(files@),
            final(self).commit_count == old(self).commit_count,
            final(self).head_commit == old(self).head_commit,
            final(self).branch == old(self).branch,
    {
        let mut staged: usize = 0;
        let mut modified: usize = 0;
        let mut i: usize = 0;
        while i < files.len()
            invariant
                i <= files.len(),
                staged == staged_files(files@.take(i as int)),
                modified == modified_files(files@.take(i as int)),
            decreases files.len() - i,
        {
            proof {
                assert(files@.take(i + 1).drop_last() =~= files@.take(i as int));
                lemma_counts_bounded(files@.take(i as int));
            }
            if files[i].staged {
                staged += 1;
            }
            if files[i].modified {
                modified += 1;
            }
            i += 1;
        }
        proof {
            assert(files@.take(files@.len() as int) =~= files@);
        }
        self.staged_count = staged;
        self.modified_count = modified;
    }
}

/// Snapshots that agree in head, branch and counts tell of no event.
pub proof fn lemma_no_change_no_event(old: GitState, new: GitState)
    requires
        text_of(old.head_commit) == text_of(new.head_commit),
        text_of(old.branch) == text_of(new.branch),
        new.staged_count <= old.staged_count,
        new.modified_count <= old.modified_count,
    ensures
        changes(old, new) =~= Seq::<Seq<char>>::empty(),
{
}

} // verus!
