use vstd::prelude::*;

use crate::cache::{fetch_error_view, response_verdict, Artifact, CacheStep, FetchError};
use crate::launch::{installer_arg_views, installer_args};
use crate::manifest::{resolution, Manifest, ManifestError};
use crate::text::views;

verus! {

/// How far a bootstrap run has come, and what it waits for.
#[derive(Debug, Clone, Copy, PartialEq, Eq, Structural)]
pub enum Phase {
    /// Waits for the pack manifest.
    Resolve,
    /// Waits to learn whether the server archive is on disk.
    CheckServer,
    /// Waits for the response to the server archive's download.
    DownloadServer,
    /// Waits until the server archive's body is written.
    StoreServer,
    /// Waits to learn whether the installer archive is on disk.
    CheckInstaller,
    /// Waits for the response to the installer archive's download.
    DownloadInstaller,
    /// Waits until the installer archive's body is written.
    StoreInstaller,
    /// Waits for the installer to exit.
    Install,
    /// The launch is to be armed; the run is over.
    Armed,
    /// The run stopped on an error.
    Failed,
}

/// Why a run stopped.
#[derive(Debug, PartialEq, Eq)]
pub enum BootError {
    /// The manifest lacks a required version.
    Manifest(ManifestError),
    /// A download was refused.
    Fetch(FetchError),
    /// An event came that the run was not waiting for.
    OutOfOrder,
}

/// What the caller is to do next.
#[derive(Debug, PartialEq, Eq)]
pub enum Request {
    /// Fetch the pack manifest at this URL and report its version table.
    FetchManifest(String),
    /// Report whether this path exists (a failed check counts as absent).
    CheckExists(String),
    /// Send a GET to this URL and report the response's status and media type.
    Download(String),
    /// Write the response's body to this path, creating or truncating it,
    /// and report when done.
    Store(String),
    /// Run the runtime executable with these arguments, wait for it to exit
    /// and report; its exit status is not looked at.
    RunInstaller(Vec<String>),
    /// Arm the exit hook to launch the server archive at this path.
    Arm(String),
    /// Stop the run with this error.
    Stop(BootError),
}

/// Whether a request goes to the network.
pub open spec fn is_network(r: Request) -> bool {
    r is FetchManifest || r is Download
}

/// One bootstrap run: the order of its steps and the decision at each.
pub struct Session {
    manifest_url: String,
    phase: Phase,
    server: Option<Artifact>,
    installer: Artifact,
}

/// Whether `a` is the server archive for these versions.
pub open spec fn is_server_jar(a: Artifact, minecraft: Seq<char>, loader: Seq<char>) -> bool {
    &&& a.spec_path() == crate::cache::server_jar_name(minecraft, loader)
    &&& a.spec_url() == crate::cache::server_jar_url(minecraft, loader)
    &&& a.spec_content_type() == Some(crate::cache::JAR_CONTENT_TYPE@)
}

/// Whether `r` asks if `a` is on disk.
pub open spec fn asks_check(r: Request, a: Artifact) -> bool {
    r matches Request::CheckExists(p) && p@ == a.spec_path()
}

/// Whether `r` asks to download `a`.
pub open spec fn asks_download(r: Request, a: Artifact) -> bool {
    r matches Request::Download(u) && u@ == a.spec_url()
}

/// Whether `r` asks to write the body to `a`'s path.
pub open spec fn asks_store(r: Request, a: Artifact) -> bool {
    r matches Request::Store(p) && p@ == a.spec_path()
}

/// Whether `r` asks to run the installer archive `installer` against the
/// manifest at `manifest_url`.
pub open spec fn asks_install(r: Request, installer: Artifact, manifest_url: Seq<char>) -> bool {
    r matches Request::RunInstaller(args) && views(args@) == installer_arg_views(
        installer.spec_path(),
        manifest_url,
    )
}

/// The phase after learning whether the awaited artifact exists.
pub open spec fn phase_after_exists(p: Phase, exists: bool) -> Phase {
    match p {
        Phase::CheckServer => if exists {
            Phase::CheckInstaller
        } else {
            Phase::DownloadServer
        },
        Phase::CheckInstaller => if exists {
            Phase::Install
        } else {
            Phase::DownloadInstaller
        },
        _ => Phase::Failed,
    }
}

/// The phase after a download's response, accepted or not.
pub open spec fn phase_after_response(p: Phase, accepted: bool) -> Phase {
    match p {
        Phase::DownloadServer => if accepted {
            Phase::StoreServer
        } else {
            Phase::Failed
        },
        Phase::DownloadInstaller => if accepted {
            Phase::StoreInstaller
        } else {
            Phase::Failed
        },
        _ => Phase::Failed,
    }
}

/// The phase after a body is written.
pub open spec fn phase_after_store(p: Phase) -> Phase {
    match p {
        Phase::StoreServer => Phase::CheckInstaller,
        Phase::StoreInstaller => Phase::Install,
        _ => Phase::Failed,
    }
}

/// A run whose two artifacts are both on disk goes from the first
/// existence check to the installer through existence checks alone: no
/// download is asked for.
pub proof fn lemma_cached_run_skips_downloads()
    ensures
        phase_after_exists(Phase::CheckServer, true) == Phase::CheckInstaller,
        phase_after_exists(phase_after_exists(Phase::CheckServer, true), true) == Phase::Install,
{
}

impl Session {
    pub closed spec fn phase_of(&self) -> Phase {
        self.phase
    }

    pub closed spec fn spec_manifest_url(&self) -> Seq<char> {
        self.manifest_url@
    }

    /// The server archive, once the manifest is resolved.
    pub closed spec fn spec_server(&self) -> Option<Artifact> {
        self.server
    }

    /// The installer archive.
    pub closed spec fn spec_installer(&self) -> Artifact {
        self.installer
    }

    /// The artifact that the current phase is about.
    pub open spec fn current(&self) -> Option<Artifact> {
        match self.phase_of() {
            Phase::CheckServer | Phase::DownloadServer | Phase::StoreServer => self.spec_server(),
            Phase::CheckInstaller | Phase::DownloadInstaller | Phase::StoreInstaller => Some(
                self.spec_installer(),
            ),
            _ => None,
        }
    }

    pub closed spec fn wf(&self) -> bool {
        (self.phase != Phase::Resolve ==> self.server is Some || self.phase == Phase::Failed)
            && self.installer.spec_path() == crate::cache::PACKWIZ_JAR@ && self.installer.spec_url()
            == crate::cache::PACKWIZ_URL@ && self.installer.spec_content_type() is None
    }

    /// A run for the pack manifest at `manifest_url`, and its first request:
    /// fetch that manifest.
    pub fn new(manifest_url: &str) -> (r: (Session, Request))
        ensures
            r.0.wf(),
            r.0.phase_of() == Phase::Resolve,
            r.0.spec_manifest_url() == manifest_url@,
            r.1 matches Request::FetchManifest(u) && u@ == manifest_url@,
    {
        let s = Session {
            manifest_url: crate::text::owned(manifest_url),
            phase: Phase::Resolve,
            server: None,
            installer: Artifact::installer_jar(),
        };
        let u = crate::text::owned(manifest_url);
        (s, Request::FetchManifest(u))
    }

    /// The phase of the run.
    pub fn phase(&self) -> (r: Phase)
        ensures
            r == self.phase_of(),
    {
        self.phase
    }

    /// Takes the fetched manifest: a manifest with both required versions
    /// names the server archive, whose presence is checked next; one without
    /// stops the run.
    pub fn on_manifest(&mut self, m: &Manifest) -> (r: Request)
        requires
            old(self).wf(),
        ensures
            final(self).wf(),
            final(self).spec_manifest_url() == old(self).spec_manifest_url(),
            old(self).phase_of() != Phase::Resolve ==> r == Request::Stop(BootError::OutOfOrder)
                && final(self).phase_of() == Phase::Failed,
            old(self).phase_of() == Phase::Resolve ==> match resolution(m.spec_entries()) {
                Err(e) => r == Request::Stop(BootError::Manifest(e)) && final(self).phase_of()
                    == Phase::Failed,
                Ok((mc, loader)) => final(self).phase_of() == Phase::CheckServer
                    && (final(self).spec_server() matches Some(a)
                    && is_server_jar(a, mc, loader) && asks_check(r, a)),
            },
    {
        if self.phase != Phase::Resolve {
            self.phase = Phase::Failed;
            return Request::Stop(BootError::OutOfOrder);
        }
        match m.resolve() {
            Err(e) => {
                self.phase = Phase::Failed;
                Request::Stop(BootError::Manifest(e))
            },
            Ok(v) => {
                let a = Artifact::server_jar(v.minecraft.as_str(), v.loader.as_str());
                let p = crate::text::owned(a.path());
                self.server = Some(a);
                self.phase = Phase::CheckServer;
                Request::CheckExists(p)
            },
        }
    }

    /// The request once the awaited artifact is on disk: check the
    /// installer next, or, with both in place, run it.
    fn after_local(&self) -> (r: Request)
        requires
            self.wf(),
            self.phase_of() == Phase::CheckInstaller || self.phase_of() == Phase::Install,
        ensures
            self.phase_of() == Phase::CheckInstaller ==> asks_check(r, self.spec_installer()),
            self.phase_of() == Phase::Install ==> asks_install(
                r,
                self.spec_installer(),
                self.spec_manifest_url(),
            ),
    {
        if self.phase == Phase::CheckInstaller {
            Request::CheckExists(crate::text::owned(self.installer.path()))
        } else {
            Request::RunInstaller(installer_args(self.installer.path(), self.manifest_url.as_str()))
        }
    }

    /// Takes whether the awaited artifact exists. An existing one is used as
    /// it is, with no network call; a missing one is downloaded.
    pub fn on_exists(&mut self, exists: bool) -> (r: Request)
        requires
            old(self).wf(),
        ensures
            final(self).wf(),
            final(self).spec_manifest_url() == old(self).spec_manifest_url(),
            final(self).spec_server() == old(self).spec_server(),
            final(self).spec_installer() == old(self).spec_installer(),
            final(self).phase_of() == phase_after_exists(old(self).phase_of(), exists),
            old(self).phase_of() == Phase::CheckServer || old(self).phase_of()
                == Phase::CheckInstaller ==> (is_network(r) <==> !exists),
            (old(self).phase_of() == Phase::CheckServer || old(self).phase_of()
                == Phase::CheckInstaller) && !exists ==> (old(self).current() matches Some(a)
                && asks_download(r, a)),
            old(self).phase_of() == Phase::CheckServer && exists ==> asks_check(
                r,
                old(self).spec_installer(),
            ),
            old(self).phase_of() == Phase::CheckInstaller && exists ==> asks_install(
                r,
                old(self).spec_installer(),
                old(self).spec_manifest_url(),
            ),
            !(old(self).phase_of() == Phase::CheckServer || old(self).phase_of()
                == Phase::CheckInstaller) ==> r == Request::Stop(BootError::OutOfOrder),
    {
        let step = match self.phase {
            Phase::CheckServer => match &self.server {
                Some(a) => a.ensure_local(exists),
                None => {
                    self.phase = Phase::Failed;
                    return Request::Stop(BootError::OutOfOrder);
                },
            },
            Phase::CheckInstaller => self.installer.ensure_local(exists),
            _ => {
                self.phase = Phase::Failed;
                return Request::Stop(BootError::OutOfOrder);
            },
        };
        match step {
            CacheStep::Fetch(url) => {
                self.phase =
                if self.phase == Phase::CheckServer {
                    Phase::DownloadServer
                } else {
                    Phase::DownloadInstaller
                };
                Request::Download(url)
            },
            CacheStep::UseLocal(_) => {
                self.phase =
                if self.phase == Phase::CheckServer {
                    Phase::CheckInstaller
                } else {
                    Phase::Install
                };
                self.after_local()
            },
        }
    }

    /// Takes the status and media type of the awaited download. An accepted
    /// response is to be written to the artifact's path; a refused one stops
    /// the run before anything is written.
    pub fn on_response(&mut self, status: u16, content_type: &str) -> (r: Request)
        requires
            old(self).wf(),
        ensures
            final(self).wf(),
            final(self).spec_manifest_url() == old(self).spec_manifest_url(),
            final(self).spec_server() == old(self).spec_server(),
            final(self).spec_installer() == old(self).spec_installer(),
            old(self).phase_of() == Phase::DownloadServer || old(self).phase_of()
                == Phase::DownloadInstaller ==> (old(self).current() matches Some(a) && match
                response_verdict(a.spec_content_type(), status, content_type@) {
                None => asks_store(r, a) && final(self).phase_of() == phase_after_response(
                    old(self).phase_of(),
                    true,
                ),
                Some(v) => (r matches Request::Stop(BootError::Fetch(e)) && fetch_error_view(e)
                    == v) && final(self).phase_of() == Phase::Failed,
            }),
            !(old(self).phase_of() == Phase::DownloadServer || old(self).phase_of()
                == Phase::DownloadInstaller) ==> r == Request::Stop(BootError::OutOfOrder)
                && final(self).phase_of() == Phase::Failed,
    {
        let checked = match self.phase {
            Phase::DownloadServer => match &self.server {
                Some(a) => match a.check_response(status, content_type) {
                    Ok(()) => Ok(crate::text::owned(a.path())),
                    Err(e) => Err(e),
                },
                None => {
                    self.phase = Phase::Failed;
                    return Request::Stop(BootError::OutOfOrder);
                },
            },
            Phase::DownloadInstaller => match self.installer.check_response(status, content_type) {
                Ok(()) => Ok(crate::text::owned(self.installer.path())),
                Err(e) => Err(e),
            },
            _ => {
                self.phase = Phase::Failed;
                return Request::Stop(BootError::OutOfOrder);
            },
        };
        match checked {
            Ok(path) => {
                self.phase =
                if self.phase == Phase::DownloadServer {
                    Phase::StoreServer
                } else {
                    Phase::StoreInstaller
                };
                Request::Store(path)
            },
            Err(e) => {
                self.phase = Phase::Failed;
                Request::Stop(BootError::Fetch(e))
            },
        }
    }

    /// Takes the news that the awaited body is written: the installer is
    /// checked next, or, once it is in place, run.
    pub fn on_stored(&mut self) -> (r: Request)
        requires
            old(self).wf(),
        ensures
            final(self).wf(),
            final(self).spec_manifest_url() == old(self).spec_manifest_url(),
            final(self).spec_server() == old(self).spec_server(),
            final(self).spec_installer() == old(self).spec_installer(),
            final(self).phase_of() == phase_after_store(old(self).phase_of()),
            old(self).phase_of() == Phase::StoreServer ==> asks_check(
                r,
                old(self).spec_installer(),
            ),
            old(self).phase_of() == Phase::StoreInstaller ==> asks_install(
                r,
                old(self).spec_installer(),
                old(self).spec_manifest_url(),
            ),
            !(old(self).phase_of() == Phase::StoreServer || old(self).phase_of()
                == Phase::StoreInstaller) ==> r == Request::Stop(BootError::OutOfOrder),
    {
        match self.phase {
            Phase::StoreServer => {
                self.phase = Phase::CheckInstaller;
                self.after_local()
            },
            Phase::StoreInstaller => {
                self.phase = Phase::Install;
                self.after_local()
            },
            _ => {
                self.phase = Phase::Failed;
                Request::Stop(BootError::OutOfOrder)
            },
        }
    }

    /// Takes the news that the installer has exited, whatever its status:
    /// the launch of the server archive is to be armed.
    pub fn on_installer_exited(&mut self) -> (r: Request)
        requires
            old(self).wf(),
        ensures
            final(self).wf(),
            final(self).spec_server() == old(self).spec_server(),
            old(self).phase_of() == Phase::Install ==> final(self).phase_of() == Phase::Armed
                && (old(self).spec_server() matches Some(a) && r matches Request::Arm(p) && p@
                == a.spec_path()),
            old(self).phase_of() != Phase::Install ==> r == Request::Stop(BootError::OutOfOrder)
                && final(self).phase_of() == Phase::Failed,
    {
        if self.phase == Phase::Install {
            match &self.server {
                Some(a) => {
                    self.phase = Phase::Armed;
                    return Request::Arm(crate::text::owned(a.path()));
                },
                None => {},
            }
        }
        self.phase = Phase::Failed;
        Request::Stop(BootError::OutOfOrder)
    }
}

} // verus!
