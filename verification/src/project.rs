//! What makes a directory the companion project: the identity check on its
//! manifest.

use vstd::prelude::*;
use crate::text::{contains, occurs_at, occurs_in, to_chars};

verus! {

/// The project's canonical name, as its manifest declares it.
pub const PROJECT_NAME: &'static str = "trading-brain";

/// The manifest's file name inside a project directory.
pub const MANIFEST_FILE: &'static str = "package.json";

/// The name declaration with a space after the colon.
pub const NAME_FIELD_SPACED: &'static str = "\"name\": \"trading-brain\"";

/// The name declaration without a space after the colon.
pub const NAME_FIELD_COMPACT: &'static str = "\"name\":\"trading-brain\"";

/// What was seen of one directory at one moment.
#[derive(Clone, Debug)]
pub struct DirectorySnapshot {
    /// The path exists.
    pub exists: bool,
    /// The path is a directory.
    pub is_directory: bool,
    /// The manifest's text; `None` where the file is missing or unreadable.
    pub manifest: Option<String>,
}

/// A snapshot as plain values.
pub struct SnapshotView {
    pub exists: bool,
    pub is_directory: bool,
    pub manifest: Option<Seq<char>>,
}

impl View for DirectorySnapshot {
    type V = SnapshotView;

    open spec fn view(&self) -> SnapshotView {
        SnapshotView {
            exists: self.exists,
            is_directory: self.is_directory,
            manifest: match self.manifest {
                Some(text) => Some(text@),
                None => None,
            },
        }
    }
}

/// The identity check: the manifest declares the project's name, in one of
/// the two exact forms or by mentioning the name anywhere.
pub open spec fn declares_project(manifest: Seq<char>) -> bool {
    ||| occurs_in(NAME_FIELD_SPACED@, manifest)
    ||| occurs_in(NAME_FIELD_COMPACT@, manifest)
    ||| occurs_in(PROJECT_NAME@, manifest)
}

/// The validity predicate: an existing directory whose manifest is readable
/// and passes the identity check.
pub open spec fn is_project_directory(snapshot: SnapshotView) -> bool {
    &&& snapshot.exists
    &&& snapshot.is_directory
    &&& snapshot.manifest matches Some(text)
    &&& declares_project(text)
}

/// Whether a manifest's text passes the identity check.
pub fn manifest_declares_project(manifest: &str) -> (declared: bool)
    ensures
        declared == declares_project(manifest@),
{
    let hay = to_chars(manifest);
    let spaced = to_chars(NAME_FIELD_SPACED);
    if contains(&hay, &spaced) {
        return true;
    }
    let compact = to_chars(NAME_FIELD_COMPACT);
    if contains(&hay, &compact) {
        return true;
    }
    let name = to_chars(PROJECT_NAME);
    contains(&hay, &name)
}

/// Whether the directory seen in `snapshot` is the companion project.
pub fn validate_project_directory(snapshot: &DirectorySnapshot) -> (valid: bool)
    ensures
        valid == is_project_directory(snapshot@),
{
    if !snapshot.exists || !snapshot.is_directory {
        return false;
    }
    match &snapshot.manifest {
        Some(text) => manifest_declares_project(text.as_str()),
        None => false,
    }
}

/// The validity of a directory depends on nothing but its snapshot: two
/// snapshots that show the same thing are judged alike.
pub proof fn lemma_validity_is_deterministic(first: DirectorySnapshot, second: DirectorySnapshot)
    requires
        first@ == second@,
    ensures
        is_project_directory(first@) == is_project_directory(second@),
{
}

/// A manifest that holds one of the two exact declarations also mentions the
/// name, so the identity check comes down to the mention alone.
pub proof fn lemma_mention_decides(manifest: Seq<char>)
    ensures
        declares_project(manifest) == occurs_in(PROJECT_NAME@, manifest),
{
    reveal_strlit("trading-brain");
    reveal_strlit("\"name\": \"trading-brain\"");
    reveal_strlit("\"name\":\"trading-brain\"");
    let name = PROJECT_NAME@;
    if occurs_in(NAME_FIELD_SPACED@, manifest) {
        let at = choose|at: int| occurs_at(NAME_FIELD_SPACED@, manifest, at);
        let window = manifest.subrange(at, at + NAME_FIELD_SPACED@.len());
        assert forall|k: int| 0 <= k < name.len() implies manifest[at + 9 + k] == name[k] by {
            assert(window[9 + k] == manifest[at + 9 + k]);
        }
        assert(manifest.subrange(at + 9, at + 9 + name.len()) =~= name);
        assert(occurs_at(name, manifest, at + 9));
    }
    if occurs_in(NAME_FIELD_COMPACT@, manifest) {
        let at = choose|at: int| occurs_at(NAME_FIELD_COMPACT@, manifest, at);
        let window = manifest.subrange(at, at + NAME_FIELD_COMPACT@.len());
        assert forall|k: int| 0 <= k < name.len() implies manifest[at + 8 + k] == name[k] by {
            assert(window[8 + k] == manifest[at + 8 + k]);
        }
        assert(manifest.subrange(at + 8, at + 8 + name.len()) =~= name);
        assert(occurs_at(name, manifest, at + 8));
    }
}

} // verus!
