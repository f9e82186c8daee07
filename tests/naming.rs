use cspell::locator::CSpellExtension;
use cspell::naming::{
    arch_token, archive_ext, archive_for, expected_asset_name, os_token, package_asset_name, Arch,
    Archive, Os, PlatformKey,
};

#[test]
fn mac_aarch64_asset_name() {
    let p = PlatformKey { os: Os::Mac, arch: Arch::Aarch64 };
    assert_eq!(
        expected_asset_name("CSpell-lsp", "v0.1.23", p),
        "CSpell-lsp-v0.1.23-aarch64-apple-darwin.tar.gz"
    );
}

#[test]
fn windows_x86_asset_name() {
    let p = PlatformKey { os: Os::Windows, arch: Arch::X86 };
    assert_eq!(
        expected_asset_name("CSpell-lsp", "v0.1.23", p),
        "CSpell-lsp-v0.1.23-x86_64-pc-windows-msvc.zip"
    );
}

#[test]
fn linux_x86_64_asset_name() {
    let p = PlatformKey { os: Os::Linux, arch: Arch::X86_64 };
    assert_eq!(
        expected_asset_name("CSpell-lsp", "v1.0.0", p),
        "CSpell-lsp-v1.0.0-x86_64-unknown-linux-gnu.tar.gz"
    );
}

#[test]
fn asset_name_is_deterministic() {
    for os in [Os::Mac, Os::Linux, Os::Windows] {
        for arch in [Arch::X86, Arch::X86_64, Arch::Aarch64] {
            let p = PlatformKey { os, arch };
            let a = expected_asset_name("CSpell-lsp", "v0.1.23", p);
            let b = expected_asset_name("CSpell-lsp", "v0.1.23", p);
            assert_eq!(a, b);
        }
    }
}

#[test]
fn x86_flavours_share_a_token() {
    assert_eq!(arch_token(Arch::X86), "x86_64");
    assert_eq!(arch_token(Arch::X86_64), "x86_64");
    assert_eq!(arch_token(Arch::Aarch64), "aarch64");
    for os in [Os::Mac, Os::Linux, Os::Windows] {
        assert_eq!(
            expected_asset_name("p", "1", PlatformKey { os, arch: Arch::X86 }),
            expected_asset_name("p", "1", PlatformKey { os, arch: Arch::X86_64 })
        );
    }
}

#[test]
fn os_tokens_and_archives() {
    assert_eq!(os_token(Os::Windows), "pc-windows-msvc");
    assert_eq!(os_token(Os::Mac), "apple-darwin");
    assert_eq!(os_token(Os::Linux), "unknown-linux-gnu");
    assert_eq!(archive_for(Os::Windows), Archive::Zip);
    assert_eq!(archive_for(Os::Mac), Archive::TarGz);
    assert_eq!(archive_for(Os::Linux), Archive::TarGz);
    assert_eq!(archive_ext(Archive::Zip), "zip");
    assert_eq!(archive_ext(Archive::TarGz), "tar.gz");
}

#[test]
fn package_names() {
    assert_eq!(package_asset_name("code-spell-checker", "4.0.13"), "code-spell-checker-4.0.13.vsix");
    assert_eq!(
        CSpellExtension::binary_release_name(&"4.0.13".to_string()),
        "code-spell-checker-4.0.13.vsix"
    );
}
