use vstd::prelude::*;
use vstd::string::*;

use crate::text::{owned, same_text};

verus! {

/// The file name the pack installer bootstrap is cached under.
pub const PACKWIZ_JAR: &'static str = "packwiz-installer-bootstrap.jar";

/// Where the pack installer bootstrap is downloaded from.
pub const PACKWIZ_URL: &'static str =
    "https://github.com/packwiz/packwiz-installer-bootstrap/releases/download/v0.0.3/packwiz-installer-bootstrap.jar";

/// The media type a server archive must be served with.
pub const JAR_CONTENT_TYPE: &'static str = "application/java-archive";

/// The only status code under which a download is accepted.
pub const STATUS_OK: u16 = 200;

/// The cache file name of the server archive for a game version and a
/// loader version; both are part of the name, so that a cached file is never
/// taken for another build.
pub open spec fn server_jar_name(minecraft: Seq<char>, loader: Seq<char>) -> Seq<char> {
    "mc-"@ + minecraft + "-fabric-"@ + loader + "-server.jar"@
}

/// Where the server archive for a game version and a loader version is
/// downloaded from.
pub open spec fn server_jar_url(minecraft: Seq<char>, loader: Seq<char>) -> Seq<char> {
    "https://meta.fabricmc.net/v2/versions/loader/"@ + minecraft + "/"@ + loader
        + "/1.0.0/server/jar"@
}

/// A file that is kept on disk once downloaded: where it lives, where it
/// comes from, and the media type its download must have, if one is checked.
#[derive(Debug)]
pub struct Artifact {
    path: String,
    url: String,
    content_type: Option<String>,
}

/// What to do to have an artifact locally.
#[derive(Debug, PartialEq, Eq)]
pub enum CacheStep {
    /// The file is there: use this path, with no network call.
    UseLocal(String),
    /// The file is missing: download this URL.
    Fetch(String),
}

/// Why a download was refused.
#[derive(Debug, PartialEq, Eq)]
pub enum FetchError {
    /// The response status was not 200; it was this.
    BadStatus(u16),
    /// The response's media type was not the expected one; it was this.
    BadContentType(String),
}

/// A refusal as the status or the media type it names.
pub open spec fn fetch_error_view(e: FetchError) -> Result<u16, Seq<char>> {
    match e {
        FetchError::BadStatus(s) => Ok(s),
        FetchError::BadContentType(t) => Err(t@),
    }
}

/// The outcome of checking a response: `None` when its body may be written
/// to the cache file, else the reason it is refused (as its status, or its
/// media type).
pub open spec fn response_verdict(
    expected_type: Option<Seq<char>>,
    status: u16,
    content_type: Seq<char>,
) -> Option<Result<u16, Seq<char>>> {
    if status != STATUS_OK {
        Some(Ok(status))
    } else {
        match expected_type {
            Some(t) => if content_type != t {
                Some(Err(content_type))
            } else {
                None
            },
            None => None,
        }
    }
}

/// A download is refused on any status but 200, and, for an artifact whose
/// media type is checked, on a 200 response of another media type; the
/// refusal comes before anything is written.
pub proof fn lemma_response_gating(
    expected_type: Option<Seq<char>>,
    status: u16,
    content_type: Seq<char>,
)
    ensures
        status != STATUS_OK ==> response_verdict(expected_type, status, content_type) == Some(
            Ok::<u16, Seq<char>>(status),
        ),
        (status == STATUS_OK && (expected_type matches Some(t) && content_type != t))
            ==> response_verdict(expected_type, status, content_type) == Some(
            Err::<u16, Seq<char>>(content_type),
        ),
        response_verdict(expected_type, status, content_type) is None <==> (status == STATUS_OK
            && (expected_type matches Some(t) ==> content_type == t)),
{
}

impl Artifact {
    pub closed spec fn spec_path(&self) -> Seq<char> {
        self.path@
    }

    pub closed spec fn spec_url(&self) -> Seq<char> {
        self.url@
    }

    pub closed spec fn spec_content_type(&self) -> Option<Seq<char>> {
        match self.content_type {
            Some(t) => Some(t@),
            None => None,
        }
    }

    /// The server archive for a game version and a loader version; its
    /// download must be served as a Java archive.
    pub fn server_jar(minecraft: &str, loader: &str) -> (r: Artifact)
        ensures
            r.spec_path() == server_jar_name(minecraft@, loader@),
            r.spec_url() == server_jar_url(minecraft@, loader@),
            r.spec_content_type() == Some(JAR_CONTENT_TYPE@),
    {
        let mut path = owned("mc-");
        path.append(minecraft);
        path.append("-fabric-");
        path.append(loader);
        path.append("-server.jar");
        let mut url = owned("https://meta.fabricmc.net/v2/versions/loader/");
        url.append(minecraft);
        url.append("/");
        url.append(loader);
        url.append("/1.0.0/server/jar");
        proof {
            assert(path@ =~= server_jar_name(minecraft@, loader@));
            assert(url@ =~= server_jar_url(minecraft@, loader@));
        }
        Artifact { path, url, content_type: Some(owned(JAR_CONTENT_TYPE)) }
    }

    /// The pack installer bootstrap, at its fixed name; its download is
    /// checked on the status alone.
    pub fn installer_jar() -> (r: Artifact)
        ensures
            r.spec_path() == PACKWIZ_JAR@,
            r.spec_url() == PACKWIZ_URL@,
            r.spec_content_type() is None,
    {
        Artifact { path: owned(PACKWIZ_JAR), url: owned(PACKWIZ_URL), content_type: None }
    }

    /// The local path of the artifact.
    pub fn path(&self) -> (r: &str)
        ensures
            r@ == self.spec_path(),
    {
        self.path.as_str()
    }

    /// Where the artifact is downloaded from.
    pub fn url(&self) -> (r: &str)
        ensures
            r@ == self.spec_url(),
    {
        self.url.as_str()
    }

    /// Decides how to have the artifact locally, given whether its path
    /// exists (a failed existence check counts as absent). An existing file
    /// is used as it is, whatever the remote side would serve.
    pub fn ensure_local(&self, exists: bool) -> (r: CacheStep)
        ensures
            exists ==> (r matches CacheStep::UseLocal(p) && p@ == self.spec_path()),
            !exists ==> (r matches CacheStep::Fetch(u) && u@ == self.spec_url()),
    {
        if exists {
            CacheStep::UseLocal(self.path.clone())
        } else {
            CacheStep::Fetch(self.url.clone())
        }
    }

    /// Checks a download's response before anything is written: the status
    /// must be 200 and, where the artifact names a media type, the response
    /// must carry it. On success the body may be written to `path`.
    pub fn check_response(&self, status: u16, content_type: &str) -> (r: Result<(), FetchError>)
        ensures
            match r {
                Ok(()) => response_verdict(self.spec_content_type(), status, content_type@) is None,
                Err(e) => response_verdict(self.spec_content_type(), status, content_type@)
                    == Some(fetch_error_view(e)),
            },
    {
        if status != STATUS_OK {
            return Err(FetchError::BadStatus(status));
        }
        match &self.content_type {
            Some(t) => {
                if same_text(t.as_str(), content_type) {
                    Ok(())
                } else {
                    Err(FetchError::BadContentType(owned(content_type)))
                }
            },
            None => Ok(()),
        }
    }
}

} // verus!
