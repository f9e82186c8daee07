//! The binary locator: which source provides the language server, and the
//! sequence of actions that installs it when no source does.
//!
//! A resolution is driven by the host: `begin` asks for the first action, and
//! each `on_*` method takes the outcome of the action last asked for and
//! returns the next one, until a `Finish` or a `Fail`. The order of the
//! sources is fixed: the search path, then the cached path, then a fresh
//! install of the latest release.

use vstd::prelude::*;
use crate::cleanup::names;
use crate::naming::{
    archive_for, archive_for_spec, package_asset_name, package_asset_name_spec, expected_asset_name,
    platform_asset_name_spec, Archive, Os, PlatformKey,
};
use crate::release::{
    find_asset, first_match, has_asset, version_number, version_number_spec, ReleaseInfo,
    ResolveError,
};

verus! {

/// How the upstream project distributes the language server.
#[derive(Clone, Copy, Debug, PartialEq, Eq, Structural)]
pub enum Strategy {
    /// A native executable per platform, in a per-platform archive.
    NativeBinary,
    /// One platform-independent package whose server runs on a local runtime;
    /// it needs its dependencies installed and a launcher script.
    ScriptHostedPackage,
}

/// Where the language server comes from and how it is laid out on disk.
#[derive(Debug)]
pub struct Distribution {
    pub strategy: Strategy,
    /// The upstream repository whose releases are queried.
    pub repository: String,
    /// The stem of the release assets' names.
    pub project: String,
    /// The name of the executable, on the search path and in an install.
    pub binary_name: String,
    /// Install directories are named this prefix followed by the version number.
    pub dir_prefix: String,
}

/// A status shown by the host while a resolution runs.
#[derive(Clone, Copy, Debug, PartialEq, Eq, Structural)]
pub enum Status {
    CheckingForUpdate,
    Downloading,
}

/// The command that starts the language server.
#[derive(Debug)]
pub struct ResolvedCommand {
    pub executable: String,
    pub arguments: Vec<String>,
    pub environment: Vec<(String, String)>,
}

/// What the host is asked to do next.
#[derive(Debug)]
pub enum Action {
    /// Look for an executable of this name on the search path.
    SearchPath(String),
    /// Tell whether this path names an existing regular file.
    CheckFile(String),
    /// Query the latest release, with assets and not a pre-release, of this repository.
    FetchRelease(String),
    /// Download `url` and unpack it into the directory `dir`.
    Download { url: String, dir: String, archive: Archive },
    /// Install the package's dependencies in this directory.
    InstallDependencies(String),
    /// Write `content` to the file `path`.
    WriteLauncher { path: String, content: String },
    /// Make this file executable, if the platform allows it.
    MakeExecutable(String),
    /// Remove every entry of the working directory but this one.
    Prune(String),
    /// The resolution succeeded with this command.
    Finish(ResolvedCommand),
    /// The resolution failed.
    Fail(ResolveError),
}

/// The next action, and the status to show before it is performed.
#[derive(Debug)]
pub struct Step {
    pub notify: Option<Status>,
    pub action: Action,
}

/// Which outcome a resolution waits for.
#[derive(Clone, Copy, Debug, PartialEq, Eq, Structural)]
pub enum Phase {
    Idle,
    Searching,
    CheckingCache,
    Fetching,
    CheckingInstall,
    Downloading,
    InstallingDeps,
    WritingLauncher,
    SettingPermission,
    Pruning,
}

/// The manager of the language server binary of one session.
#[derive(Debug)]
pub struct CSpellExtension {
    pub distribution: Distribution,
    pub platform: PlatformKey,
    /// The executable that the last successful install or cache hit gave.
    pub cached_binary_path: Option<String>,
    pub phase: Phase,
    /// The install directory of the release being installed.
    pub version_dir: String,
    /// The executable of the release being installed.
    pub executable: String,
    /// The address of the asset being installed.
    pub download_url: String,
}

/// The flag that makes the server speak the protocol on its standard streams.
pub open spec fn stdio_args_spec() -> Seq<Seq<char>> {
    seq!["--stdio"@]
}

/// The arguments that an installed executable is started with: a launcher
/// script passes the protocol flag itself.
pub open spec fn launch_args_spec(s: Strategy) -> Seq<Seq<char>> {
    match s {
        Strategy::NativeBinary => stdio_args_spec(),
        Strategy::ScriptHostedPackage => Seq::empty(),
    }
}

pub open spec fn asset_name_spec(d: Distribution, p: PlatformKey, tag: Seq<char>) -> Seq<char> {
    match d.strategy {
        Strategy::NativeBinary => platform_asset_name_spec(d.project@, tag, p),
        Strategy::ScriptHostedPackage => package_asset_name_spec(d.project@, version_number_spec(tag)),
    }
}

pub open spec fn version_dir_spec(d: Distribution, vnum: Seq<char>) -> Seq<char> {
    d.dir_prefix@ + vnum
}

pub open spec fn exe_suffix_spec(o: Os) -> Seq<char> {
    match o {
        Os::Windows => ".exe"@,
        _ => Seq::empty(),
    }
}

/// The directory, inside an install, that holds the unpacked package.
pub open spec fn package_dir_spec(dir: Seq<char>) -> Seq<char> {
    dir + "/extension"@
}

/// The executable of an install: the native binary, or the launcher script.
pub open spec fn executable_spec(d: Distribution, o: Os, vnum: Seq<char>) -> Seq<char> {
    match d.strategy {
        Strategy::NativeBinary => version_dir_spec(d, vnum) + "/"@ + d.binary_name@ + exe_suffix_spec(o),
        Strategy::ScriptHostedPackage => version_dir_spec(d, vnum) + "/extension/"@ + d.binary_name@,
    }
}

pub open spec fn download_archive_spec(d: Distribution, o: Os) -> Archive {
    match d.strategy {
        Strategy::NativeBinary => archive_for_spec(o),
        Strategy::ScriptHostedPackage => Archive::Zip,
    }
}

/// The launcher script: it finds its own directory and starts the hosted
/// entry point with the protocol flag, passing on its own arguments.
pub open spec fn launcher_script_spec() -> Seq<char> {
    "#!/usr/bin/env bash\nSCRIPT_DIR=$( cd -- \"$( dirname -- \"${BASH_SOURCE[0]}\" )\" &> /dev/null && pwd )\nnode \"$SCRIPT_DIR/packages/_server/dist/main.cjs\" --stdio \"$@\"\n"@
}

pub open spec fn is_command(c: ResolvedCommand, exe: Seq<char>, args: Seq<Seq<char>>) -> bool {
    &&& c.executable@ == exe
    &&& names(c.arguments@) == args
    &&& c.environment@.len() == 0
}

pub open spec fn finishes_with(r: Step, exe: Seq<char>, args: Seq<Seq<char>>) -> bool {
    &&& r.notify is None
    &&& r.action is Finish
    &&& is_command(r.action->Finish_0, exe, args)
}

pub open spec fn fetches(r: Step, d: Distribution) -> bool {
    &&& r.notify == Some(Status::CheckingForUpdate)
    &&& r.action is FetchRelease
    &&& r.action->FetchRelease_0@ == d.repository@
}

pub open spec fn asks(r: Step, a: Action) -> bool {
    r.notify is None && r.action == a
}

/// A failed step: the resolution ends and the cache is left as it was.
pub open spec fn fails(old: CSpellExtension, new: CSpellExtension, r: Step) -> bool {
    &&& r.notify is None
    &&& r.action is Fail
    &&& new.phase == Phase::Idle
    &&& new.cached_binary_path == old.cached_binary_path
}

/// What no step changes: the distribution and the platform.
pub open spec fn keeps_config(old: CSpellExtension, new: CSpellExtension) -> bool {
    new.distribution == old.distribution && new.platform == old.platform
}

/// What a step before the end of a resolution leaves alone.
pub open spec fn keeps_state(old: CSpellExtension, new: CSpellExtension) -> bool {
    &&& keeps_config(old, new)
    &&& new.cached_binary_path == old.cached_binary_path
    &&& new.version_dir == old.version_dir
    &&& new.executable == old.executable
    &&& new.download_url == old.download_url
}

fn stdio_args() -> (r: Vec<String>)
    ensures
        names(r@) == stdio_args_spec(),
{
    let r = vec![String::from_str("--stdio")];
    assert(names(r@) =~= stdio_args_spec());
    r
}

fn launch_args(s: Strategy) -> (r: Vec<String>)
    ensures
        names(r@) == launch_args_spec(s),
{
    match s {
        Strategy::NativeBinary => stdio_args(),
        Strategy::ScriptHostedPackage => {
            let r: Vec<String> = Vec::new();
            assert(names(r@) =~= Seq::<Seq<char>>::empty());
            r
        },
    }
}

fn command(executable: String, arguments: Vec<String>) -> (r: ResolvedCommand)
    ensures
        r.executable == executable,
        r.arguments == arguments,
        r.environment@.len() == 0,
{
    ResolvedCommand { executable, arguments, environment: Vec::new() }
}

/// The launcher script written into a package install.
pub fn launcher_script() -> (r: &'static str)
    ensures
        r@ == launcher_script_spec(),
{
    "#!/usr/bin/env bash\nSCRIPT_DIR=$( cd -- \"$( dirname -- \"${BASH_SOURCE[0]}\" )\" &> /dev/null && pwd )\nnode \"$SCRIPT_DIR/packages/_server/dist/main.cjs\" --stdio \"$@\"\n"
}

impl Distribution {
    /// The Code Spell Checker package of VS Code, run by node through a launcher script.
    pub fn vscode_package() -> (r: Distribution)
        ensures
            r.strategy == Strategy::ScriptHostedPackage,
            r.repository@ == "streetsidesoftware/vscode-spell-checker"@,
            r.project@ == "code-spell-checker"@,
            r.binary_name@ == "cspell-lsp"@,
            r.dir_prefix@ == "cspell-vscode-"@,
    {
        Distribution {
            strategy: Strategy::ScriptHostedPackage,
            repository: String::from_str("streetsidesoftware/vscode-spell-checker"),
            project: String::from_str("code-spell-checker"),
            binary_name: String::from_str("cspell-lsp"),
            dir_prefix: String::from_str("cspell-vscode-"),
        }
    }

    /// The name of the release asset for `platform` in the release tagged `tag`.
    pub fn asset_name(&self, platform: PlatformKey, tag: &str) -> (r: Result<String, ResolveError>)
        ensures
            version_number_spec(tag@).len() > 0 ==> (r is Ok && r->Ok_0@ == asset_name_spec(*self, platform, tag@)),
            version_number_spec(tag@).len() == 0 ==> (r is Err && r->Err_0 is VersionParse),
    {
        let vnum = version_number(tag)?;
        match self.strategy {
            Strategy::NativeBinary => Ok(expected_asset_name(self.project.as_str(), tag, platform)),
            Strategy::ScriptHostedPackage => Ok(package_asset_name(self.project.as_str(), vnum.as_str())),
        }
    }

    /// The install directory of the version `vnum`.
    pub fn version_dir(&self, vnum: &str) -> (r: String)
        ensures
            r@ == version_dir_spec(*self, vnum@),
    {
        let mut s = self.dir_prefix.clone();
        s.append(vnum);
        s
    }

    /// The executable of an install of the version `vnum`.
    pub fn executable_for(&self, os: Os, vnum: &str) -> (r: String)
        ensures
            r@ == executable_spec(*self, os, vnum@),
    {
        let mut s = self.version_dir(vnum);
        match self.strategy {
            Strategy::NativeBinary => {
                s.append("/");
                s.append(self.binary_name.as_str());
                if os == Os::Windows {
                    s.append(".exe");
                }
                assert(s@ =~= executable_spec(*self, os, vnum@));
            },
            Strategy::ScriptHostedPackage => {
                s.append("/extension/");
                s.append(self.binary_name.as_str());
                assert(s@ =~= executable_spec(*self, os, vnum@));
            },
        }
        s
    }
}

impl CSpellExtension {
    /// A manager with nothing cached, waiting for a resolution to begin.
    pub fn new(distribution: Distribution, platform: PlatformKey) -> (r: CSpellExtension)
        ensures
            r.distribution == distribution,
            r.platform == platform,
            r.cached_binary_path is None,
            r.phase == Phase::Idle,
    {
        CSpellExtension {
            distribution,
            platform,
            cached_binary_path: None,
            phase: Phase::Idle,
            version_dir: String::new(),
            executable: String::new(),
            download_url: String::new(),
        }
    }

    /// The name of the VS Code package asset of `version`.
    pub fn binary_release_name(version: &String) -> (r: String)
        ensures
            r@ == package_asset_name_spec("code-spell-checker"@, version@),
    {
        package_asset_name("code-spell-checker", version.as_str())
    }

    fn fail(&mut self, e: ResolveError) -> (r: Step)
        ensures
            fails(*old(self), *final(self), r),
            r.action->Fail_0 == e,
            keeps_state(*old(self), *final(self)),
    {
        self.phase = Phase::Idle;
        Step { notify: None, action: Action::Fail(e) }
    }

    fn prune(&mut self) -> (r: Step)
        ensures
            asks(r, Action::Prune(old(self).version_dir)),
            final(self).phase == Phase::Pruning,
            keeps_state(*old(self), *final(self)),
    {
        self.phase = Phase::Pruning;
        Step { notify: None, action: Action::Prune(self.version_dir.clone()) }
    }

    /// Starts a resolution: the search path is looked at first.
    pub fn begin(&mut self) -> (r: Step)
        ensures
            r.notify is None,
            r.action is SearchPath,
            r.action->SearchPath_0@ == old(self).distribution.binary_name@,
            final(self).phase == Phase::Searching,
            keeps_state(*old(self), *final(self)),
    {
        self.phase = Phase::Searching;
        Step { notify: None, action: Action::SearchPath(self.distribution.binary_name.clone()) }
    }

    /// Takes what the search path gave. A binary found there is used at once,
    /// and neither the cache nor the network is consulted; else the cached
    /// path is checked, if there is one, and else the latest release is fetched.
    pub fn on_search(&mut self, hit: Option<String>) -> (r: Step)
        requires
            old(self).phase == Phase::Searching,
        ensures
            keeps_state(*old(self), *final(self)),
            match hit {
                Some(p) => finishes_with(r, p@, stdio_args_spec()) && final(self).phase == Phase::Idle,
                None => match old(self).cached_binary_path {
                    Some(c) => asks(r, Action::CheckFile(c)) && final(self).phase == Phase::CheckingCache,
                    None => fetches(r, old(self).distribution) && final(self).phase == Phase::Fetching,
                },
            },
    {
        match hit {
            Some(p) => {
                self.phase = Phase::Idle;
                Step { notify: None, action: Action::Finish(command(p, stdio_args())) }
            },
            None => {
                let cached = self.cached_binary_path.clone();
                match cached {
                    Some(c) => {
                        self.phase = Phase::CheckingCache;
                        Step { notify: None, action: Action::CheckFile(c) }
                    },
                    None => {
                        self.phase = Phase::Fetching;
                        Step {
                            notify: Some(Status::CheckingForUpdate),
                            action: Action::FetchRelease(self.distribution.repository.clone()),
                        }
                    },
                }
            },
        }
    }

    /// Takes whether the cached path still names a regular file: if so it is
    /// used, else the latest release is fetched.
    pub fn on_cache_check(&mut self, is_file: bool) -> (r: Step)
        requires
            old(self).phase == Phase::CheckingCache,
            old(self).cached_binary_path is Some,
        ensures
            keeps_state(*old(self), *final(self)),
            is_file ==> finishes_with(
                r,
                old(self).cached_binary_path->Some_0@,
                launch_args_spec(old(self).distribution.strategy),
            ) && final(self).phase == Phase::Idle,
            !is_file ==> fetches(r, old(self).distribution) && final(self).phase == Phase::Fetching,
    {
        if is_file {
            let c = self.cached_binary_path.clone().unwrap();
            self.phase = Phase::Idle;
            Step {
                notify: None,
                action: Action::Finish(command(c, launch_args(self.distribution.strategy))),
            }
        } else {
            self.phase = Phase::Fetching;
            Step {
                notify: Some(Status::CheckingForUpdate),
                action: Action::FetchRelease(self.distribution.repository.clone()),
            }
        }
    }
    /// Takes the latest release, or why it could not be had. The expected
    /// asset is looked up by exact name; when it is there, the install that
    /// it belongs in is checked for its executable.
    pub fn on_release(&mut self, release: Result<ReleaseInfo, String>) -> (r: Step)
        requires
            old(self).phase == Phase::Fetching,
        ensures
            keeps_config(*old(self), *final(self)),
            final(self).cached_binary_path == old(self).cached_binary_path,
            match release {
                Err(m) => fails(*old(self), *final(self), r) && r.action->Fail_0 is Network
                    && r.action->Fail_0->Network_0@ == m@,
                Ok(rel) => {
                    let d = old(self).distribution;
                    let vnum = version_number_spec(rel.version@);
                    let name = asset_name_spec(d, old(self).platform, rel.version@);
                    if vnum.len() == 0 {
                        fails(*old(self), *final(self), r) && r.action->Fail_0 is VersionParse
                            && r.action->Fail_0->VersionParse_0@ == rel.version@
                    } else if !has_asset(rel.assets@, name) {
                        fails(*old(self), *final(self), r) && r.action->Fail_0 is AssetNotFound
                            && r.action->Fail_0->AssetNotFound_0@ == name
                    } else {
                        &&& final(self).phase == Phase::CheckingInstall
                        &&& final(self).version_dir@ == version_dir_spec(d, vnum)
                        &&& final(self).executable@ == executable_spec(d, old(self).platform.os, vnum)
                        &&& forall|i: int|
                            first_match(rel.assets@, name, i) ==> final(self).download_url@
                                == rel.assets@[i].download_url@
                        &&& asks(r, Action::CheckFile(final(self).executable))
                    }
                },
            },
    {
        match release {
            Err(m) => self.fail(ResolveError::Network(m)),
            Ok(rel) => {
                let vnum = match version_number(rel.version.as_str()) {
                    Ok(v) => v,
                    Err(e) => {
                        return self.fail(e);
                    },
                };
                let name = match self.distribution.asset_name(self.platform, rel.version.as_str()) {
                    Ok(n) => n,
                    Err(e) => {
                        return self.fail(e);
                    },
                };
                let i = match find_asset(&rel.assets, &name) {
                    Ok(i) => i,
                    Err(e) => {
                        return self.fail(e);
                    },
                };
                proof {
                    assert forall|j: int| first_match(rel.assets@, name@, j) implies j == i as int by {
                        if j < i {
                        } else if j > i {
                            assert(rel.assets@[i as int].name@ != name@);
                        }
                    }
                }
                self.version_dir = self.distribution.version_dir(vnum.as_str());
                self.executable = self.distribution.executable_for(self.platform.os, vnum.as_str());
                self.download_url = rel.assets[i].download_url.clone();
                self.phase = Phase::CheckingInstall;
                Step { notify: None, action: Action::CheckFile(self.executable.clone()) }
            },
        }
    }

    /// Takes whether the install's executable already exists. If it does,
    /// nothing is downloaded and the install is kept as it is; else the
    /// asset is downloaded into the install directory.
    pub fn on_install_check(&mut self, exists: bool) -> (r: Step)
        requires
            old(self).phase == Phase::CheckingInstall,
        ensures
            keeps_state(*old(self), *final(self)),
            exists ==> asks(r, Action::Prune(old(self).version_dir)) && final(self).phase == Phase::Pruning,
            !exists ==> {
                &&& r.notify == Some(Status::Downloading)
                &&& r.action == (Action::Download {
                    url: old(self).download_url,
                    dir: old(self).version_dir,
                    archive: download_archive_spec(old(self).distribution, old(self).platform.os),
                })
                &&& final(self).phase == Phase::Downloading
            },
    {
        if exists {
            self.prune()
        } else {
            self.phase = Phase::Downloading;
            let archive = match self.distribution.strategy {
                Strategy::NativeBinary => archive_for(self.platform.os),
                Strategy::ScriptHostedPackage => Archive::Zip,
            };
            Step {
                notify: Some(Status::Downloading),
                action: Action::Download {
                    url: self.download_url.clone(),
                    dir: self.version_dir.clone(),
                    archive,
                },
            }
        }
    }

    /// Takes the outcome of the download. A native binary is then ready; a
    /// package needs its dependencies installed.
    pub fn on_downloaded(&mut self, result: Result<(), String>) -> (r: Step)
        requires
            old(self).phase == Phase::Downloading,
        ensures
            keeps_state(*old(self), *final(self)),
            match result {
                Err(m) => fails(*old(self), *final(self), r) && r.action->Fail_0 is Network
                    && r.action->Fail_0->Network_0@ == m@,
                Ok(_) => match old(self).distribution.strategy {
                    Strategy::NativeBinary => asks(r, Action::Prune(old(self).version_dir))
                        && final(self).phase == Phase::Pruning,
                    Strategy::ScriptHostedPackage => {
                        &&& r.notify is None
                        &&& r.action is InstallDependencies
                        &&& r.action->InstallDependencies_0@ == package_dir_spec(old(self).version_dir@)
                        &&& final(self).phase == Phase::InstallingDeps
                    },
                },
            },
    {
        match result {
            Err(m) => self.fail(ResolveError::Network(m)),
            Ok(_) => match self.distribution.strategy {
                Strategy::NativeBinary => self.prune(),
                Strategy::ScriptHostedPackage => {
                    let mut dir = self.version_dir.clone();
                    dir.append("/extension");
                    self.phase = Phase::InstallingDeps;
                    Step { notify: None, action: Action::InstallDependencies(dir) }
                },
            },
        }
    }

    /// Takes the outcome of the dependency install; the launcher script is
    /// written next.
    pub fn on_dependencies_installed(&mut self, result: Result<(), String>) -> (r: Step)
        requires
            old(self).phase == Phase::InstallingDeps,
        ensures
            keeps_state(*old(self), *final(self)),
            match result {
                Err(m) => fails(*old(self), *final(self), r) && r.action->Fail_0 is DependencyInstall
                    && r.action->Fail_0->DependencyInstall_0@ == m@,
                Ok(_) => {
                    &&& r.notify is None
                    &&& r.action is WriteLauncher
                    &&& r.action->path == old(self).executable
                    &&& r.action->content@ == launcher_script_spec()
                    &&& final(self).phase == Phase::WritingLauncher
                },
            },
    {
        match result {
            Err(m) => self.fail(ResolveError::DependencyInstall(m)),
            Ok(_) => {
                self.phase = Phase::WritingLauncher;
                Step {
                    notify: None,
                    action: Action::WriteLauncher {
                        path: self.executable.clone(),
                        content: String::from_str(launcher_script()),
                    },
                }
            },
        }
    }

    /// Takes the outcome of writing the launcher script; it is made
    /// executable next.
    pub fn on_launcher_written(&mut self, result: Result<(), String>) -> (r: Step)
        requires
            old(self).phase == Phase::WritingLauncher,
        ensures
            keeps_state(*old(self), *final(self)),
            match result {
                Err(m) => fails(*old(self), *final(self), r) && r.action->Fail_0 is Filesystem
                    && r.action->Fail_0->Filesystem_0@ == m@,
                Ok(_) => asks(r, Action::MakeExecutable(old(self).executable))
                    && final(self).phase == Phase::SettingPermission,
            },
    {
        match result {
            Err(m) => self.fail(ResolveError::Filesystem(m)),
            Ok(_) => {
                self.phase = Phase::SettingPermission;
                Step { notify: None, action: Action::MakeExecutable(self.executable.clone()) }
            },
        }
    }

    /// Takes the outcome of making the launcher executable. Some platforms
    /// refuse this; that is no failure, and the install goes on either way.
    pub fn on_permission_set(&mut self, result: Result<(), String>) -> (r: Step)
        requires
            old(self).phase == Phase::SettingPermission,
        ensures
            keeps_state(*old(self), *final(self)),
            asks(r, Action::Prune(old(self).version_dir)),
            final(self).phase == Phase::Pruning,
    {
        self.prune()
    }

    /// Ends a resolution once the other installs are pruned, whatever came of
    /// removing them: the new executable is cached and returned.
    pub fn on_pruned(&mut self) -> (r: Step)
        requires
            old(self).phase == Phase::Pruning,
        ensures
            keeps_config(*old(self), *final(self)),
            finishes_with(r, old(self).executable@, launch_args_spec(old(self).distribution.strategy)),
            final(self).cached_binary_path == Some(old(self).executable),
            final(self).phase == Phase::Idle,
    {
        self.phase = Phase::Idle;
        self.cached_binary_path = Some(self.executable.clone());
        Step {
            notify: None,
            action: Action::Finish(command(self.executable.clone(), launch_args(self.distribution.strategy))),
        }
    }
}

} // verus!
