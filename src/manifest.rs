use vstd::prelude::*;

use crate::text::{owned, same_text};

verus! {

/// The manifest key that names the game version.
pub const MINECRAFT_KEY: &'static str = "minecraft";

/// The manifest key that names the loader version.
pub const LOADER_KEY: &'static str = "fabric";

/// The version table of a pack manifest: component names and their version
/// identifiers, as read from the document.
pub struct Manifest {
    entries: Vec<(String, String)>,
}

/// The versions the rest of the bootstrap needs.
#[derive(Debug, PartialEq, Eq)]
pub struct Versions {
    pub minecraft: String,
    pub loader: String,
}

/// Why a manifest cannot be used.
#[derive(Debug, Clone, Copy, PartialEq, Eq, Structural)]
pub enum ManifestError {
    /// No game version: the document is not a pack manifest of the expected
    /// format.
    MissingMinecraft,
    /// No loader version: the pack is not of the expected kind.
    MissingLoader,
}

/// The version recorded under `key` in `entries`: that of its first entry.
pub open spec fn lookup(entries: Seq<(Seq<char>, Seq<char>)>, key: Seq<char>) -> Option<Seq<char>>
    decreases entries.len(),
{
    if entries.len() == 0 {
        None
    } else if entries[0].0 == key {
        Some(entries[0].1)
    } else {
        lookup(entries.drop_first(), key)
    }
}

/// The two required versions of a manifest, game first, or the first one
/// that is missing.
pub open spec fn resolution(entries: Seq<(Seq<char>, Seq<char>)>) -> Result<
    (Seq<char>, Seq<char>),
    ManifestError,
> {
    match lookup(entries, MINECRAFT_KEY@) {
        None => Err(ManifestError::MissingMinecraft),
        Some(m) => match lookup(entries, LOADER_KEY@) {
            None => Err(ManifestError::MissingLoader),
            Some(l) => Ok((m, l)),
        },
    }
}

/// The text reported for each error.
pub open spec fn error_text(e: ManifestError) -> Seq<char> {
    match e {
        ManifestError::MissingMinecraft => "Pack index doesn't specify Minecraft version?"@,
        ManifestError::MissingLoader => "Pack index doesn't specify fabric version? Is this not a fabric pack?"@,
    }
}

/// A manifest lacking either required version cannot be resolved, and the
/// two cases are told apart, also in their text.
pub proof fn lemma_required_versions(entries: Seq<(Seq<char>, Seq<char>)>)
    ensures
        lookup(entries, MINECRAFT_KEY@) is None ==> resolution(entries) == Err::<
            (Seq<char>, Seq<char>),
            ManifestError,
        >(ManifestError::MissingMinecraft),
        lookup(entries, MINECRAFT_KEY@) is Some && lookup(entries, LOADER_KEY@) is None
            ==> resolution(entries) == Err::<(Seq<char>, Seq<char>), ManifestError>(
            ManifestError::MissingLoader,
        ),
        resolution(entries) is Ok <==> (lookup(entries, MINECRAFT_KEY@) is Some && lookup(
            entries,
            LOADER_KEY@,
        ) is Some),
        error_text(ManifestError::MissingMinecraft) != error_text(ManifestError::MissingLoader),
{
    reveal_strlit("Pack index doesn't specify Minecraft version?");
    reveal_strlit("Pack index doesn't specify fabric version? Is this not a fabric pack?");
    assert(error_text(ManifestError::MissingMinecraft).len() != error_text(
        ManifestError::MissingLoader,
    ).len());
}

impl ManifestError {
    /// A description of the error for the user.
    pub fn message(&self) -> (r: String)
        ensures
            r@ == error_text(*self),
    {
        match self {
            ManifestError::MissingMinecraft => owned(
                "Pack index doesn't specify Minecraft version?",
            ),
            ManifestError::MissingLoader => owned(
                "Pack index doesn't specify fabric version? Is this not a fabric pack?",
            ),
        }
    }
}

impl Manifest {
    /// The entries, as component names and versions.
    pub closed spec fn spec_entries(&self) -> Seq<(Seq<char>, Seq<char>)> {
        self.entries@.map_values(|e: (String, String)| (e.0@, e.1@))
    }

    /// A manifest with the given version table.
    pub fn new(entries: Vec<(String, String)>) -> (r: Manifest)
        ensures
            r.spec_entries() == entries@.map_values(|e: (String, String)| (e.0@, e.1@)),
    {
        Manifest { entries }
    }

    /// The version recorded under `key`, if any.
    pub fn version(&self, key: &str) -> (r: Option<String>)
        ensures
            match r {
                Some(v) => lookup(self.spec_entries(), key@) == Some(v@),
                None => lookup(self.spec_entries(), key@) is None,
            },
    {
        let n = self.entries.len();
        let mut i: usize = 0;
        assert(self.spec_entries().skip(0) =~= self.spec_entries());
        while i < n
            invariant
                n == self.entries@.len(),
                i <= n,
                lookup(self.spec_entries(), key@) == lookup(
                    self.spec_entries().skip(i as int),
                    key@,
                ),
            decreases n - i,
        {
            let ghost rest = self.spec_entries().skip(i as int);
            assert(rest.drop_first() =~= self.spec_entries().skip(i + 1));
            if same_text(self.entries[i].0.as_str(), key) {
                return Some(self.entries[i].1.clone());
            }
            i = i + 1;
        }
        assert(self.spec_entries().skip(n as int).len() == 0);
        None
    }

    /// Extracts the game and loader versions, both required; a missing one is
    /// an error, the game version being checked first.
    pub fn resolve(&self) -> (r: Result<Versions, ManifestError>)
        ensures
            match r {
                Ok(v) => resolution(self.spec_entries()) == Ok::<
                    (Seq<char>, Seq<char>),
                    ManifestError,
                >((v.minecraft@, v.loader@)),
                Err(e) => resolution(self.spec_entries()) == Err::<
                    (Seq<char>, Seq<char>),
                    ManifestError,
                >(e),
            },
    {
        let minecraft = match self.version(MINECRAFT_KEY) {
            Some(m) => m,
            None => return Err(ManifestError::MissingMinecraft),
        };
        let loader = match self.version(LOADER_KEY) {
            Some(l) => l,
            None => return Err(ManifestError::MissingLoader),
        };
        Ok(Versions { minecraft, loader })
    }
}

} // verus!
