//! The typed data model of the manifest chain.
//!
//! The three remote JSON documents (version list, per-version manifest, asset
//! index) are decoded into these types at the boundary of the library; the
//! logic inside never probes loose JSON keys. A `WorkItem` is one
//! (destination path, source URL) pair of the resolved download list.

use vstd::prelude::*;
use vstd::string::StrSliceExecFns;
use crate::platform::PlatformRule;
use crate::text::str_eq;

verus! {

/// The release channel of a published version.
#[derive(Clone, Copy, PartialEq, Eq, Structural, Debug)]
pub enum GameVersionType {
    Release,
    Snapshot,
    OldBeta,
    OldAlpha,
}

impl GameVersionType {
    /// The channel a version-list `type` string names; an unknown string
    /// counts as a release.
    pub open spec fn of_name(s: Seq<char>) -> GameVersionType {
        if s == "snapshot"@ {
            GameVersionType::Snapshot
        } else if s == "old_beta"@ {
            GameVersionType::OldBeta
        } else if s == "old_alpha"@ {
            GameVersionType::OldAlpha
        } else {
            GameVersionType::Release
        }
    }

    /// Decodes a version-list `type` string.
    pub fn from_name(s: &str) -> (r: GameVersionType)
        ensures
            r == GameVersionType::of_name(s@),
    {
        if str_eq(s, "snapshot") {
            GameVersionType::Snapshot
        } else if str_eq(s, "old_beta") {
            GameVersionType::OldBeta
        } else if str_eq(s, "old_alpha") {
            GameVersionType::OldAlpha
        } else {
            GameVersionType::Release
        }
    }
}

/// One entry of the remote version list: a version id, its channel, and the
/// URL of its per-version manifest.
#[derive(Debug)]
pub struct GameVersion {
    pub version_id: String,
    pub version_type: GameVersionType,
    pub manifest_url: String,
}

/// A downloadable file of a library entry: its path below the library store
/// and its source URL.
#[derive(Debug)]
pub struct ArtifactRef {
    pub path: String,
    pub url: String,
}

/// One library entry of a per-version manifest: an optional generic artifact
/// guarded by the rule list, and up to three platform-native classifiers,
/// which are downloaded for every platform and filtered only at launch time.
#[derive(Debug)]
pub struct LibraryEntry {
    pub artifact: Option<ArtifactRef>,
    pub natives_linux: Option<ArtifactRef>,
    pub natives_windows: Option<ArtifactRef>,
    pub natives_mac: Option<ArtifactRef>,
    pub rules: Vec<PlatformRule>,
}

/// The client logging configuration file referenced by a manifest.
#[derive(Debug)]
pub struct LoggingFile {
    pub id: String,
    pub url: String,
}

/// One token of an argument template list. A JSON token that is not a plain
/// string is kept as `Composite` and skipped during assembly.
#[derive(Debug)]
pub enum ArgToken {
    Text(String),
    Composite,
}

/// The two argument template lists of a manifest.
#[derive(Debug)]
pub struct ArgumentLists {
    pub jvm: Vec<ArgToken>,
    pub game: Vec<ArgToken>,
}

/// A decoded per-version manifest.
#[derive(Debug)]
pub struct VersionManifest {
    pub id: String,
    pub type_label: String,
    pub main_class: String,
    pub client_url: String,
    pub logging_file: Option<LoggingFile>,
    pub libraries: Vec<LibraryEntry>,
    pub asset_index_id: String,
    pub asset_index_url: String,
    pub arguments: Option<ArgumentLists>,
}

/// One object of an asset index: a 40-hex-digit content hash and a size.
/// Its destination path is derived from the hash alone.
#[derive(Debug)]
pub struct AssetEntry {
    pub hash: String,
    pub size: u64,
}

/// A decoded asset index.
#[derive(Debug)]
pub struct AssetIndex {
    pub objects: Vec<AssetEntry>,
}

/// One (destination path, source URL) pair queued for download.
#[derive(Debug)]
pub struct WorkItem {
    pub destination_path: String,
    pub source_url: String,
}

impl Clone for WorkItem {
    fn clone(&self) -> (r: Self)
        ensures
            r.destination_path@ == self.destination_path@,
            r.source_url@ == self.source_url@,
    {
        WorkItem { destination_path: self.destination_path.clone(), source_url: self.source_url.clone() }
    }
}

/// The mathematical value of a work item: the pair of its two strings.
pub open spec fn item_view(w: WorkItem) -> (Seq<char>, Seq<char>) {
    (w.destination_path@, w.source_url@)
}

/// The mathematical value of a whole work list.
pub open spec fn items_view(items: Seq<WorkItem>) -> Seq<(Seq<char>, Seq<char>)> {
    items.map_values(|w: WorkItem| item_view(w))
}

/// What can go wrong while resolving a version into a work list.
#[derive(Clone, Copy, PartialEq, Eq, Structural, Debug)]
pub enum ResolveError {
    VersionNotFound,
    ManifestFetchFailure,
    ParseFailure,
}

/// What can go wrong while assembling a launch.
#[derive(Clone, Copy, PartialEq, Eq, Structural, Debug)]
pub enum LaunchError {
    ManifestMissing,
    ParseFailure,
    SpawnFailure,
}

/// Whether a character is a lowercase hexadecimal digit.
pub open spec fn is_hex_digit(c: char) -> bool {
    ('0' <= c && c <= '9') || ('a' <= c && c <= 'f')
}

impl AssetEntry {
    /// A well-formed asset entry: the hash is exactly 40 lowercase
    /// hexadecimal digits.
    pub open spec fn wf(&self) -> bool {
        &&& self.hash@.len() == 40
        &&& forall|i: int| 0 <= i < 40 ==> is_hex_digit(#[trigger] self.hash@[i])
    }

    /// Decides well-formedness, so that a malformed index is rejected as a
    /// parse failure at the manifest boundary.
    pub fn validate(&self) -> (r: bool)
        ensures
            r == self.wf(),
    {
        let len = self.hash.as_str().unicode_len();
        if len != 40 {
            return false;
        }
        let mut i: usize = 0;
        while i < 40
            invariant
                i <= 40,
                self.hash@.len() == 40,
                forall|k: int| 0 <= k < i ==> is_hex_digit(#[trigger] self.hash@[k]),
            decreases 40 - i,
        {
            let c = self.hash.as_str().get_char(i);
            if !(('0' <= c && c <= '9') || ('a' <= c && c <= 'f')) {
                return false;
            }
            i = i + 1;
        }
        true
    }
}

impl AssetIndex {
    /// A well-formed asset index: every object entry is well formed.
    pub open spec fn wf(&self) -> bool {
        forall|i: int| 0 <= i < self.objects@.len() ==> (#[trigger] self.objects@[i]).wf()
    }

    /// Decides well-formedness of the whole index.
    pub fn validate(&self) -> (r: bool)
        ensures
            r == self.wf(),
    {
        let mut i: usize = 0;
        while i < self.objects.len()
            invariant
                i <= self.objects@.len(),
                forall|k: int| 0 <= k < i ==> (#[trigger] self.objects@[k]).wf(),
            decreases self.objects@.len() - i,
        {
            if !self.objects[i].validate() {
                return false;
            }
            i = i + 1;
        }
        true
    }

    /// Builds an index from decoded entries, rejecting a malformed hash as a
    /// parse failure.
    pub fn from_entries(objects: Vec<AssetEntry>) -> (r: Result<AssetIndex, ResolveError>)
        ensures
            match r {
                Result::Ok(index) => index.wf() && index.objects@ == objects@,
                Result::Err(e) => e == ResolveError::ParseFailure && !(AssetIndex {
                    objects,
                }).wf(),
            },
    {
        let index = AssetIndex { objects };
        if index.validate() {
            Result::Ok(index)
        } else {
            Result::Err(ResolveError::ParseFailure)
        }
    }
}

} // verus!
