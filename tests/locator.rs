use cspell::locator::{
    launcher_script, Action, CSpellExtension, Distribution, Phase, ResolvedCommand, Status, Step,
    Strategy,
};
use cspell::naming::{Arch, Archive, Os, PlatformKey};
use cspell::release::{AssetRef, ReleaseInfo, ResolveError};

fn native() -> Distribution {
    Distribution {
        strategy: Strategy::NativeBinary,
        repository: "owner/cspell-lsp".to_string(),
        project: "CSpell-lsp".to_string(),
        binary_name: "cspell-lsp".to_string(),
        dir_prefix: "cspell-lsp-".to_string(),
    }
}

fn mac() -> PlatformKey {
    PlatformKey { os: Os::Mac, arch: Arch::Aarch64 }
}

fn release(tag: &str, names: &[&str]) -> ReleaseInfo {
    ReleaseInfo {
        version: tag.to_string(),
        assets: names
            .iter()
            .map(|n| AssetRef { name: n.to_string(), download_url: format!("https://dl/{n}") })
            .collect(),
    }
}

fn finished(step: Step) -> ResolvedCommand {
    assert!(step.notify.is_none());
    match step.action {
        Action::Finish(c) => c,
        other => panic!("expected a finish, got {:?}", other),
    }
}

fn failure(step: Step) -> ResolveError {
    match step.action {
        Action::Fail(e) => e,
        other => panic!("expected a failure, got {:?}", other),
    }
}

/// Brings a fresh manager to the point where it waits for a release.
fn fetching(m: &mut CSpellExtension) {
    m.begin();
    let s = m.on_search(None);
    assert_eq!(s.notify, Some(Status::CheckingForUpdate));
    assert!(matches!(s.action, Action::FetchRelease(ref r) if r == "owner/cspell-lsp"));
}

#[test]
fn search_path_hit_wins() {
    let mut m = CSpellExtension::new(native(), mac());
    m.cached_binary_path = Some("cached/cspell-lsp".to_string());
    let s = m.begin();
    assert!(matches!(s.action, Action::SearchPath(ref n) if n == "cspell-lsp"));
    let c = finished(m.on_search(Some("/usr/bin/cspell-lsp".to_string())));
    assert_eq!(c.executable, "/usr/bin/cspell-lsp");
    assert_eq!(c.arguments, vec!["--stdio".to_string()]);
    assert!(c.environment.is_empty());
    assert_eq!(m.phase, Phase::Idle);
    assert_eq!(m.cached_binary_path, Some("cached/cspell-lsp".to_string()));
}

#[test]
fn cache_hit_skips_network() {
    let mut m = CSpellExtension::new(native(), mac());
    m.cached_binary_path = Some("cached/cspell-lsp".to_string());
    m.begin();
    let s = m.on_search(None);
    assert!(s.notify.is_none());
    assert!(matches!(s.action, Action::CheckFile(ref p) if p == "cached/cspell-lsp"));
    let c = finished(m.on_cache_check(true));
    assert_eq!(c.executable, "cached/cspell-lsp");
    assert_eq!(c.arguments, vec!["--stdio".to_string()]);
}

#[test]
fn stale_cache_falls_through_to_release() {
    let mut m = CSpellExtension::new(native(), mac());
    m.cached_binary_path = Some("gone".to_string());
    m.begin();
    m.on_search(None);
    let s = m.on_cache_check(false);
    assert_eq!(s.notify, Some(Status::CheckingForUpdate));
    assert!(matches!(s.action, Action::FetchRelease(_)));
    assert_eq!(m.phase, Phase::Fetching);
}

#[test]
fn native_fresh_install() {
    let mut m = CSpellExtension::new(native(), mac());
    fetching(&mut m);
    let rel = release(
        "v0.1.23",
        &["CSpell-lsp-v0.1.23-x86_64-apple-darwin.tar.gz", "CSpell-lsp-v0.1.23-aarch64-apple-darwin.tar.gz"],
    );
    let s = m.on_release(Ok(rel));
    assert!(matches!(s.action, Action::CheckFile(ref p) if p == "cspell-lsp-0.1.23/cspell-lsp"));
    let s = m.on_install_check(false);
    assert_eq!(s.notify, Some(Status::Downloading));
    match s.action {
        Action::Download { url, dir, archive } => {
            assert_eq!(url, "https://dl/CSpell-lsp-v0.1.23-aarch64-apple-darwin.tar.gz");
            assert_eq!(dir, "cspell-lsp-0.1.23");
            assert_eq!(archive, Archive::TarGz);
        }
        other => panic!("expected a download, got {:?}", other),
    }
    let s = m.on_downloaded(Ok(()));
    assert!(matches!(s.action, Action::Prune(ref d) if d == "cspell-lsp-0.1.23"));
    let c = finished(m.on_pruned());
    assert_eq!(c.executable, "cspell-lsp-0.1.23/cspell-lsp");
    assert_eq!(c.arguments, vec!["--stdio".to_string()]);
    assert_eq!(m.cached_binary_path, Some("cspell-lsp-0.1.23/cspell-lsp".to_string()));
}

#[test]
fn windows_install_uses_zip_and_exe() {
    let mut m = CSpellExtension::new(native(), PlatformKey { os: Os::Windows, arch: Arch::X86 });
    fetching(&mut m);
    let s = m.on_release(Ok(release("v0.1.23", &["CSpell-lsp-v0.1.23-x86_64-pc-windows-msvc.zip"])));
    assert!(matches!(s.action, Action::CheckFile(ref p) if p == "cspell-lsp-0.1.23/cspell-lsp.exe"));
    let s = m.on_install_check(false);
    assert!(matches!(s.action, Action::Download { archive: Archive::Zip, .. }));
}

#[test]
fn existing_install_is_not_downloaded_again() {
    let mut m = CSpellExtension::new(native(), mac());
    for _ in 0..2 {
        fetching(&mut m);
        m.on_release(Ok(release("v0.1.23", &["CSpell-lsp-v0.1.23-aarch64-apple-darwin.tar.gz"])));
        let s = m.on_install_check(true);
        assert!(s.notify.is_none());
        assert!(matches!(s.action, Action::Prune(ref d) if d == "cspell-lsp-0.1.23"));
        let c = finished(m.on_pruned());
        assert_eq!(c.executable, "cspell-lsp-0.1.23/cspell-lsp");
        m.cached_binary_path = None;
    }
}

#[test]
fn missing_asset_fails() {
    let mut m = CSpellExtension::new(native(), mac());
    fetching(&mut m);
    let e = failure(m.on_release(Ok(release("v0.1.23", &["CSpell-lsp-v0.1.23-x86_64-apple-darwin.tar.gz"]))));
    match e {
        ResolveError::AssetNotFound(n) => assert_eq!(n, "CSpell-lsp-v0.1.23-aarch64-apple-darwin.tar.gz"),
        other => panic!("unexpected {:?}", other),
    }
    assert_eq!(m.phase, Phase::Idle);
    assert!(m.cached_binary_path.is_none());
}

#[test]
fn feed_failure_is_network_error() {
    let mut m = CSpellExtension::new(native(), mac());
    fetching(&mut m);
    let e = failure(m.on_release(Err("offline".to_string())));
    assert!(matches!(e, ResolveError::Network(ref c) if c == "offline"));
}

#[test]
fn tag_without_version_fails() {
    let mut m = CSpellExtension::new(native(), mac());
    fetching(&mut m);
    let e = failure(m.on_release(Ok(release("v", &["CSpell-lsp-v-aarch64-apple-darwin.tar.gz"]))));
    assert!(matches!(e, ResolveError::VersionParse(ref t) if t == "v"));
}

#[test]
fn download_failure_keeps_cache() {
    let mut m = CSpellExtension::new(native(), mac());
    m.cached_binary_path = Some("old".to_string());
    m.begin();
    m.on_search(None);
    m.on_cache_check(false);
    m.on_release(Ok(release("v0.1.23", &["CSpell-lsp-v0.1.23-aarch64-apple-darwin.tar.gz"])));
    m.on_install_check(false);
    let e = failure(m.on_downloaded(Err("404".to_string())));
    assert!(matches!(e, ResolveError::Network(ref c) if c == "404"));
    assert_eq!(m.cached_binary_path, Some("old".to_string()));
}

fn package_install(m: &mut CSpellExtension) {
    m.begin();
    m.on_search(None);
    let s = m.on_release(Ok(release("v4.0.13", &["other.vsix", "code-spell-checker-4.0.13.vsix"])));
    assert!(matches!(
        s.action,
        Action::CheckFile(ref p) if p == "cspell-vscode-4.0.13/extension/cspell-lsp"
    ));
    let s = m.on_install_check(false);
    match s.action {
        Action::Download { url, dir, archive } => {
            assert_eq!(url, "https://dl/code-spell-checker-4.0.13.vsix");
            assert_eq!(dir, "cspell-vscode-4.0.13");
            assert_eq!(archive, Archive::Zip);
        }
        other => panic!("expected a download, got {:?}", other),
    }
    let s = m.on_downloaded(Ok(()));
    assert!(matches!(s.action, Action::InstallDependencies(ref d) if d == "cspell-vscode-4.0.13/extension"));
}

#[test]
fn package_install_writes_launcher() {
    let mut m = CSpellExtension::new(Distribution::vscode_package(), mac());
    package_install(&mut m);
    let s = m.on_dependencies_installed(Ok(()));
    match s.action {
        Action::WriteLauncher { path, content } => {
            assert_eq!(path, "cspell-vscode-4.0.13/extension/cspell-lsp");
            assert_eq!(content, launcher_script());
            assert!(content.contains("packages/_server/dist/main.cjs\" --stdio \"$@\""));
        }
        other => panic!("expected a launcher, got {:?}", other),
    }
    let s = m.on_launcher_written(Ok(()));
    assert!(matches!(s.action, Action::MakeExecutable(ref p) if p == "cspell-vscode-4.0.13/extension/cspell-lsp"));
    let s = m.on_permission_set(Err("operation not supported on this platform".to_string()));
    assert!(matches!(s.action, Action::Prune(ref d) if d == "cspell-vscode-4.0.13"));
    let c = finished(m.on_pruned());
    assert_eq!(c.executable, "cspell-vscode-4.0.13/extension/cspell-lsp");
    assert!(c.arguments.is_empty());
}

#[test]
fn dependency_failure_is_reported() {
    let mut m = CSpellExtension::new(Distribution::vscode_package(), mac());
    package_install(&mut m);
    let e = failure(m.on_dependencies_installed(Err("npm: not found".to_string())));
    assert!(matches!(e, ResolveError::DependencyInstall(ref c) if c == "npm: not found"));
    assert!(m.cached_binary_path.is_none());
}

#[test]
fn launcher_write_failure_is_filesystem_error() {
    let mut m = CSpellExtension::new(Distribution::vscode_package(), mac());
    package_install(&mut m);
    m.on_dependencies_installed(Ok(()));
    let e = failure(m.on_launcher_written(Err("read-only".to_string())));
    assert!(matches!(e, ResolveError::Filesystem(ref c) if c == "read-only"));
}

#[test]
fn asset_names_per_strategy() {
    let p = PlatformKey { os: Os::Windows, arch: Arch::X86 };
    assert_eq!(native().asset_name(p, "v0.1.23").unwrap(), "CSpell-lsp-v0.1.23-x86_64-pc-windows-msvc.zip");
    assert_eq!(
        Distribution::vscode_package().asset_name(p, "v4.0.13").unwrap(),
        "code-spell-checker-4.0.13.vsix"
    );
    assert!(matches!(native().asset_name(p, ""), Err(ResolveError::VersionParse(_))));
}
