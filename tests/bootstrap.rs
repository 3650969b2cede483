use babysitter::cache::{Artifact, CacheStep, FetchError, JAR_CONTENT_TYPE, PACKWIZ_JAR, PACKWIZ_URL};
use babysitter::hook::{ExitAction, ExitHook, HookState, FIRST_NONSTANDARD_FD, LAST_FD};
use babysitter::launch::{build_launch, installer_args, split_flags, LaunchError};
use babysitter::manifest::{Manifest, ManifestError, Versions};

fn strings(v: &[&str]) -> Vec<String> {
    v.iter().map(|s| s.to_string()).collect()
}

fn manifest(entries: &[(&str, &str)]) -> Manifest {
    Manifest::new(entries.iter().map(|(k, v)| (k.to_string(), v.to_string())).collect())
}

#[test]
fn flags_split_on_spaces() {
    assert_eq!(split_flags("-Xmx2G -Xms1G"), strings(&["-Xmx2G", "-Xms1G"]));
}

#[test]
fn empty_flags_give_no_words() {
    assert_eq!(split_flags(""), Vec::<String>::new());
    assert_eq!(split_flags("   "), Vec::<String>::new());
}

#[test]
fn empty_and_nul_pieces_are_dropped() {
    assert_eq!(split_flags(" a  b "), strings(&["a", "b"]));
    assert_eq!(split_flags("a\0b -Xss4M"), strings(&["-Xss4M"]));
}

#[test]
fn server_jar_name_and_url() {
    let a = Artifact::server_jar("1.20.1", "0.15.7");
    assert_eq!(a.path(), "mc-1.20.1-fabric-0.15.7-server.jar");
    assert_eq!(
        a.url(),
        "https://meta.fabricmc.net/v2/versions/loader/1.20.1/0.15.7/1.0.0/server/jar"
    );
}

#[test]
fn installer_jar_is_fixed() {
    let a = Artifact::installer_jar();
    assert_eq!(a.path(), "packwiz-installer-bootstrap.jar");
    assert_eq!(a.url(), PACKWIZ_URL);
}

#[test]
fn existing_file_needs_no_fetch() {
    let a = Artifact::server_jar("1.20.1", "0.15.7");
    assert_eq!(
        a.ensure_local(true),
        CacheStep::UseLocal("mc-1.20.1-fabric-0.15.7-server.jar".to_string())
    );
}

#[test]
fn missing_file_is_fetched() {
    let a = Artifact::installer_jar();
    assert_eq!(a.ensure_local(false), CacheStep::Fetch(PACKWIZ_URL.to_string()));
}

#[test]
fn non_200_status_is_refused() {
    let a = Artifact::server_jar("1.20.1", "0.15.7");
    assert_eq!(a.check_response(404, JAR_CONTENT_TYPE), Err(FetchError::BadStatus(404)));
    assert_eq!(a.check_response(302, JAR_CONTENT_TYPE), Err(FetchError::BadStatus(302)));
    let b = Artifact::installer_jar();
    assert_eq!(b.check_response(500, "application/octet-stream"), Err(FetchError::BadStatus(500)));
    assert_eq!(b.check_response(201, ""), Err(FetchError::BadStatus(201)));
}

#[test]
fn wrong_content_type_is_refused() {
    let a = Artifact::server_jar("1.20.1", "0.15.7");
    assert_eq!(
        a.check_response(200, "text/html"),
        Err(FetchError::BadContentType("text/html".to_string()))
    );
}

#[test]
fn good_responses_are_accepted() {
    let a = Artifact::server_jar("1.20.1", "0.15.7");
    assert_eq!(a.check_response(200, "application/java-archive"), Ok(()));
    let b = Artifact::installer_jar();
    assert_eq!(b.check_response(200, "application/octet-stream"), Ok(()));
}

#[test]
fn manifest_resolves_both_versions() {
    let m = manifest(&[("fabric", "0.15.7"), ("minecraft", "1.20.1"), ("quilt", "x")]);
    assert_eq!(
        m.resolve(),
        Ok(Versions { minecraft: "1.20.1".to_string(), loader: "0.15.7".to_string() })
    );
    assert_eq!(m.version("quilt"), Some("x".to_string()));
    assert_eq!(m.version("forge"), None);
}

#[test]
fn manifest_without_game_version_fails() {
    let m = manifest(&[("fabric", "0.15.7")]);
    assert_eq!(m.resolve(), Err(ManifestError::MissingMinecraft));
    let empty = manifest(&[]);
    assert_eq!(empty.resolve(), Err(ManifestError::MissingMinecraft));
}

#[test]
fn manifest_without_loader_version_fails() {
    let m = manifest(&[("minecraft", "1.20.1"), ("forge", "47.2.0")]);
    assert_eq!(m.resolve(), Err(ManifestError::MissingLoader));
}

#[test]
fn missing_key_messages_differ() {
    let a = ManifestError::MissingMinecraft.message();
    let b = ManifestError::MissingLoader.message();
    assert_eq!(a, "Pack index doesn't specify Minecraft version?");
    assert_eq!(b, "Pack index doesn't specify fabric version? Is this not a fabric pack?");
    assert_ne!(a, b);
}

#[test]
fn launch_rejects_nul_in_paths() {
    assert_eq!(build_launch("ja\0va", "", "x.jar").unwrap_err(), LaunchError::NulInProgram);
    assert_eq!(build_launch("java", "", "x\0.jar").unwrap_err(), LaunchError::NulInArtifact);
}

#[test]
fn second_set_is_ignored() {
    let mut h = ExitHook::new();
    let first = build_launch("java", "-Xmx1G", "a.jar").unwrap();
    let second = build_launch("other", "", "b.jar").unwrap();
    assert!(!h.is_set());
    assert!(h.set(first));
    assert!(!h.set(second));
    assert!(h.register());
    match h.fire() {
        ExitAction::Exec { launch, .. } => {
            assert_eq!(launch.program(), "java");
            assert_eq!(launch.args(), &strings(&["java", "-Xmx1G", "-jar", "a.jar", "--nogui"]));
        }
        ExitAction::Nothing => panic!("a registered hook with a launch must exec"),
    }
}

#[test]
fn hook_registers_once() {
    let mut h = ExitHook::new();
    assert_eq!(h.state(), HookState::Unregistered);
    assert!(h.register());
    assert!(!h.register());
    assert_eq!(h.state(), HookState::Registered);
}

#[test]
fn hook_without_launch_does_nothing() {
    let mut h = ExitHook::new();
    assert!(h.register());
    assert!(matches!(h.fire(), ExitAction::Nothing));
    assert_eq!(h.state(), HookState::Fired);
}

#[test]
fn unregistered_hook_does_nothing() {
    let mut h = ExitHook::new();
    assert!(h.set(build_launch("java", "", "a.jar").unwrap()));
    assert!(matches!(h.fire(), ExitAction::Nothing));
    assert_eq!(h.state(), HookState::Unregistered);
}

#[test]
fn hook_closes_all_but_standard_streams_and_fires_once() {
    let mut h = ExitHook::new();
    assert_eq!(h.prepare_launch("/usr/bin/java", "", "a.jar"), Ok(true));
    match h.fire() {
        ExitAction::Exec { close_from, close_to, .. } => {
            assert_eq!(close_from, 3);
            assert_eq!(close_from, FIRST_NONSTANDARD_FD);
            assert_eq!(close_to, u32::MAX);
            assert_eq!(close_to, LAST_FD);
            for fd in [0u32, 1, 2] {
                assert!(fd < close_from);
            }
            for fd in [3u32, 4, 17, 1024, u32::MAX] {
                assert!(close_from <= fd && fd <= close_to);
            }
        }
        ExitAction::Nothing => panic!("expected exec"),
    }
    assert!(matches!(h.fire(), ExitAction::Nothing));
}

#[test]
fn prepare_launch_twice_keeps_first() {
    let mut h = ExitHook::new();
    assert_eq!(h.prepare_launch("java", "-Xmx2G", "a.jar"), Ok(true));
    assert_eq!(h.prepare_launch("java", "-Xmx4G", "b.jar"), Ok(false));
    match h.fire() {
        ExitAction::Exec { launch, .. } => {
            assert_eq!(launch.args(), &strings(&["java", "-Xmx2G", "-jar", "a.jar", "--nogui"]));
        }
        ExitAction::Nothing => panic!("expected exec"),
    }
}

#[test]
fn prepare_launch_error_changes_nothing() {
    let mut h = ExitHook::new();
    assert_eq!(h.prepare_launch("java", "", "a\0.jar"), Err(LaunchError::NulInArtifact));
    assert!(!h.is_set());
    assert_eq!(h.state(), HookState::Unregistered);
}

#[test]
fn end_to_end_first_run() {
    let m = manifest(&[("minecraft", "1.20.1"), ("fabric", "0.15.7")]);
    let v = m.resolve().unwrap();
    let server = Artifact::server_jar(&v.minecraft, &v.loader);
    let installer = Artifact::installer_jar();
    assert_eq!(
        server.ensure_local(false),
        CacheStep::Fetch(
            "https://meta.fabricmc.net/v2/versions/loader/1.20.1/0.15.7/1.0.0/server/jar".to_string()
        )
    );
    assert_eq!(installer.ensure_local(false), CacheStep::Fetch(PACKWIZ_URL.to_string()));
    assert_eq!(server.check_response(200, JAR_CONTENT_TYPE), Ok(()));
    assert_eq!(installer.check_response(200, "application/octet-stream"), Ok(()));
    assert_eq!(
        installer_args(installer.path(), "https://example.com/pack.toml"),
        strings(&["-jar", PACKWIZ_JAR, "-g", "-s", "server", "https://example.com/pack.toml"])
    );
    let d = build_launch("/opt/java/bin/java", "-Xmx2G -Xms1G", server.path()).unwrap();
    assert_eq!(
        d.args(),
        &strings(&[
            "/opt/java/bin/java",
            "-Xmx2G",
            "-Xms1G",
            "-jar",
            "mc-1.20.1-fabric-0.15.7-server.jar",
            "--nogui"
        ])
    );
}

#[test]
fn rerun_with_cached_files_makes_no_fetch() {
    let m = manifest(&[("minecraft", "1.20.1"), ("fabric", "0.15.7")]);
    let v = m.resolve().unwrap();
    let server = Artifact::server_jar(&v.minecraft, &v.loader);
    let installer = Artifact::installer_jar();
    assert_eq!(
        server.ensure_local(true),
        CacheStep::UseLocal("mc-1.20.1-fabric-0.15.7-server.jar".to_string())
    );
    assert_eq!(installer.ensure_local(true), CacheStep::UseLocal(PACKWIZ_JAR.to_string()));
}
