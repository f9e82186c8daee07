//! Names of release assets, derived from a version and a platform.

use vstd::prelude::*;

verus! {

/// Operating system of the machine the language server runs on.
#[derive(Clone, Copy, Debug, PartialEq, Eq, Structural)]
pub enum Os {
    Mac,
    Linux,
    Windows,
}

/// Processor architecture of the machine the language server runs on.
#[derive(Clone, Copy, Debug, PartialEq, Eq, Structural)]
pub enum Arch {
    X86,
    X86_64,
    Aarch64,
}

/// The platform for which a release asset is chosen.
#[derive(Clone, Copy, Debug, PartialEq, Eq, Structural)]
pub struct PlatformKey {
    pub os: Os,
    pub arch: Arch,
}

/// How an archive downloaded from a release is unpacked.
#[derive(Clone, Copy, Debug, PartialEq, Eq, Structural)]
pub enum Archive {
    Zip,
    TarGz,
}

pub open spec fn arch_token_spec(a: Arch) -> Seq<char> {
    match a {
        Arch::Aarch64 => "aarch64"@,
        Arch::X86 | Arch::X86_64 => "x86_64"@,
    }
}

pub open spec fn os_token_spec(o: Os) -> Seq<char> {
    match o {
        Os::Mac => "apple-darwin"@,
        Os::Linux => "unknown-linux-gnu"@,
        Os::Windows => "pc-windows-msvc"@,
    }
}

pub open spec fn archive_for_spec(o: Os) -> Archive {
    match o {
        Os::Windows => Archive::Zip,
        _ => Archive::TarGz,
    }
}

pub open spec fn archive_ext_spec(a: Archive) -> Seq<char> {
    match a {
        Archive::Zip => "zip"@,
        Archive::TarGz => "tar.gz"@,
    }
}

/// `<project>-<version>-<arch>-<os>.<ext>`: the name of a per-platform archive.
pub open spec fn platform_asset_name_spec(project: Seq<char>, version: Seq<char>, p: PlatformKey) -> Seq<char> {
    project + "-"@ + version + "-"@ + arch_token_spec(p.arch) + "-"@ + os_token_spec(p.os) + "."@
        + archive_ext_spec(archive_for_spec(p.os))
}

/// `<package>-<version>.vsix`: the name of a platform-independent package.
pub open spec fn package_asset_name_spec(package: Seq<char>, version: Seq<char>) -> Seq<char> {
    package + "-"@ + version + ".vsix"@
}

/// The architecture token of per-platform asset names; both x86 flavours share one.
pub fn arch_token(a: Arch) -> (r: &'static str)
    ensures
        r@ == arch_token_spec(a),
{
    match a {
        Arch::Aarch64 => "aarch64",
        Arch::X86 | Arch::X86_64 => "x86_64",
    }
}

/// The operating-system token of per-platform asset names.
pub fn os_token(o: Os) -> (r: &'static str)
    ensures
        r@ == os_token_spec(o),
{
    match o {
        Os::Mac => "apple-darwin",
        Os::Linux => "unknown-linux-gnu",
        Os::Windows => "pc-windows-msvc",
    }
}

/// The archive format that per-platform releases use on `o`.
pub fn archive_for(o: Os) -> (r: Archive)
    ensures
        r == archive_for_spec(o),
{
    match o {
        Os::Windows => Archive::Zip,
        _ => Archive::TarGz,
    }
}

/// The file extension of an archive format.
pub fn archive_ext(a: Archive) -> (r: &'static str)
    ensures
        r@ == archive_ext_spec(a),
{
    match a {
        Archive::Zip => "zip",
        Archive::TarGz => "tar.gz",
    }
}

/// The expected name of the per-platform archive of `project` at `version`.
pub fn expected_asset_name(project: &str, version: &str, platform: PlatformKey) -> (r: String)
    ensures
        r@ == platform_asset_name_spec(project@, version@, platform),
{
    let mut s = String::from_str(project);
    s.append("-");
    s.append(version);
    s.append("-");
    s.append(arch_token(platform.arch));
    s.append("-");
    s.append(os_token(platform.os));
    s.append(".");
    s.append(archive_ext(archive_for(platform.os)));
    s
}

/// The expected name of the platform-independent package of `package` at `version`.
pub fn package_asset_name(package: &str, version: &str) -> (r: String)
    ensures
        r@ == package_asset_name_spec(package@, version@),
{
    let mut s = String::from_str(package);
    s.append("-");
    s.append(version);
    s.append(".vsix");
    s
}

/// Asset naming is a function of its inputs: equal inputs name the same asset.
pub proof fn lemma_asset_name_deterministic(
    project1: Seq<char>,
    version1: Seq<char>,
    p1: PlatformKey,
    project2: Seq<char>,
    version2: Seq<char>,
    p2: PlatformKey,
)
    requires
        project1 == project2,
        version1 == version2,
        p1 == p2,
    ensures
        platform_asset_name_spec(project1, version1, p1) == platform_asset_name_spec(project2, version2, p2),
{
}

/// Both x86 architectures give the same token, `x86_64`, and so the same asset name.
pub proof fn lemma_x86_flavours_agree(project: Seq<char>, version: Seq<char>, os: Os)
    ensures
        arch_token_spec(Arch::X86) == arch_token_spec(Arch::X86_64),
        arch_token_spec(Arch::X86) == "x86_64"@,
        platform_asset_name_spec(project, version, PlatformKey { os, arch: Arch::X86 })
            == platform_asset_name_spec(project, version, PlatformKey { os, arch: Arch::X86_64 }),
{
}

/// Windows uses `zip` and `pc-windows-msvc`; mac uses `tar.gz` and `apple-darwin`;
/// linux uses `tar.gz` and `unknown-linux-gnu`.
pub proof fn lemma_os_conventions()
    ensures
        archive_ext_spec(archive_for_spec(Os::Windows)) == "zip"@,
        os_token_spec(Os::Windows) == "pc-windows-msvc"@,
        archive_ext_spec(archive_for_spec(Os::Mac)) == "tar.gz"@,
        os_token_spec(Os::Mac) == "apple-darwin"@,
        archive_ext_spec(archive_for_spec(Os::Linux)) == "tar.gz"@,
        os_token_spec(Os::Linux) == "unknown-linux-gnu"@,
{
}

} // verus!
