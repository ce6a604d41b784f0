//! Names of release assets, install directories and binaries.

use vstd::prelude::*;
use vstd::string::StringExecFns;

verus! {

/// Operating system of the host.
#[derive(Clone, Copy, Debug, PartialEq, Eq, Structural)]
pub enum Os {
    Mac,
    Linux,
    Windows,
}

/// CPU architecture of the host.
#[derive(Clone, Copy, Debug, PartialEq, Eq, Structural)]
pub enum Architecture {
    Aarch64,
    X86,
    X8664,
}

/// The part of an asset name that follows the version: one fixed text per
/// operating system and architecture. Every architecture other than
/// `Aarch64` is served the x86-64 build.
pub open spec fn target_suffix(os: Os, arch: Architecture) -> Seq<char> {
    match os {
        Os::Mac => match arch {
            Architecture::Aarch64 => "-aarch64-apple-darwin"@,
            _ => "-x86_64-apple-darwin"@,
        },
        Os::Linux => match arch {
            Architecture::Aarch64 => "-aarch64-unknown-linux-gnu"@,
            _ => "-x86_64-unknown-linux-gnu"@,
        },
        Os::Windows => match arch {
            Architecture::Aarch64 => "-aarch64-pc-windows-msvc.exe"@,
            _ => "-x86_64-pc-windows-msvc.exe"@,
        },
    }
}

/// Name of the release asset built for `os` and `arch` at `version`.
pub open spec fn asset_name_of(version: Seq<char>, os: Os, arch: Architecture) -> Seq<char> {
    "odoo_ls_server-"@ + version + target_suffix(os, arch)
}

/// File name of the installed server binary.
pub open spec fn binary_name_of(os: Os) -> Seq<char> {
    if os == Os::Windows {
        "odoo_ls_server.exe"@
    } else {
        "odoo_ls_server"@
    }
}

/// Directory that holds the installation of `version`.
pub open spec fn version_dir_of(version: Seq<char>) -> Seq<char> {
    "odoo-ls-"@ + version
}

/// Path of the installed server binary of `version`.
pub open spec fn binary_path_of(version: Seq<char>, os: Os) -> Seq<char> {
    version_dir_of(version) + "/"@ + binary_name_of(os)
}

/// Path at which a downloaded asset lies before it is renamed.
pub open spec fn download_path_of(version: Seq<char>, asset_name: Seq<char>) -> Seq<char> {
    version_dir_of(version) + "/"@ + asset_name
}

/// Whether two architectures are served the same build.
pub open spec fn same_build(a: Architecture, b: Architecture) -> bool {
    (a == Architecture::Aarch64) == (b == Architecture::Aarch64)
}

/// The six target suffixes differ from each other: a suffix names one
/// operating system and one build.
pub proof fn lemma_target_suffix_identifies_target(
    os1: Os,
    arch1: Architecture,
    os2: Os,
    arch2: Architecture,
)
    ensures
        target_suffix(os1, arch1) == target_suffix(os2, arch2) <==> os1 == os2 && same_build(
            arch1,
            arch2,
        ),
{
    reveal_strlit("-aarch64-apple-darwin");
    reveal_strlit("-x86_64-apple-darwin");
    reveal_strlit("-aarch64-unknown-linux-gnu");
    reveal_strlit("-x86_64-unknown-linux-gnu");
    reveal_strlit("-aarch64-pc-windows-msvc.exe");
    reveal_strlit("-x86_64-pc-windows-msvc.exe");
    assert("-aarch64-apple-darwin"@.len() == 21);
    assert("-x86_64-apple-darwin"@.len() == 20);
    assert("-aarch64-unknown-linux-gnu"@.len() == 26);
    assert("-x86_64-unknown-linux-gnu"@.len() == 25);
    assert("-aarch64-pc-windows-msvc.exe"@.len() == 28);
    assert("-x86_64-pc-windows-msvc.exe"@.len() == 27);
}

/// At one version, the asset name of a target is that of no other target:
/// each host is matched by exactly one of the six names.
pub proof fn lemma_asset_name_identifies_target(
    version: Seq<char>,
    os1: Os,
    arch1: Architecture,
    os2: Os,
    arch2: Architecture,
)
    ensures
        asset_name_of(version, os1, arch1) == asset_name_of(version, os2, arch2) <==> os1 == os2
            && same_build(arch1, arch2),
{
    lemma_target_suffix_identifies_target(os1, arch1, os2, arch2);
    let head = "odoo_ls_server-"@ + version;
    let n1 = asset_name_of(version, os1, arch1);
    let n2 = asset_name_of(version, os2, arch2);
    assert(n1.subrange(head.len() as int, n1.len() as int) =~= target_suffix(os1, arch1));
    assert(n2.subrange(head.len() as int, n2.len() as int) =~= target_suffix(os2, arch2));
}

/// The asset names of the six builds of `version`.
pub open spec fn asset_names_of(version: Seq<char>) -> Seq<Seq<char>> {
    seq![
        "odoo_ls_server-"@ + version + "-aarch64-apple-darwin"@,
        "odoo_ls_server-"@ + version + "-x86_64-apple-darwin"@,
        "odoo_ls_server-"@ + version + "-aarch64-unknown-linux-gnu"@,
        "odoo_ls_server-"@ + version + "-x86_64-unknown-linux-gnu"@,
        "odoo_ls_server-"@ + version + "-aarch64-pc-windows-msvc.exe"@,
        "odoo_ls_server-"@ + version + "-x86_64-pc-windows-msvc.exe"@,
    ]
}

/// The asset name of a host is exactly one of the six names of the version.
pub proof fn lemma_asset_name_is_one_of_six(version: Seq<char>, os: Os, arch: Architecture)
    ensures
        asset_names_of(version).len() == 6,
        asset_names_of(version).no_duplicates(),
        asset_names_of(version).contains(asset_name_of(version, os, arch)),
{
    let names = asset_names_of(version);
    let mac = Os::Mac;
    let linux = Os::Linux;
    let windows = Os::Windows;
    let arm = Architecture::Aarch64;
    let intel = Architecture::X8664;
    assert(names[0] == asset_name_of(version, mac, arm));
    assert(names[1] == asset_name_of(version, mac, intel));
    assert(names[2] == asset_name_of(version, linux, arm));
    assert(names[3] == asset_name_of(version, linux, intel));
    assert(names[4] == asset_name_of(version, windows, arm));
    assert(names[5] == asset_name_of(version, windows, intel));
    lemma_asset_name_identifies_target(version, mac, arm, mac, intel);
    lemma_asset_name_identifies_target(version, mac, arm, linux, arm);
    lemma_asset_name_identifies_target(version, mac, arm, linux, intel);
    lemma_asset_name_identifies_target(version, mac, arm, windows, arm);
    lemma_asset_name_identifies_target(version, mac, arm, windows, intel);
    lemma_asset_name_identifies_target(version, mac, intel, linux, arm);
    lemma_asset_name_identifies_target(version, mac, intel, linux, intel);
    lemma_asset_name_identifies_target(version, mac, intel, windows, arm);
    lemma_asset_name_identifies_target(version, mac, intel, windows, intel);
    lemma_asset_name_identifies_target(version, linux, arm, linux, intel);
    lemma_asset_name_identifies_target(version, linux, arm, windows, arm);
    lemma_asset_name_identifies_target(version, linux, arm, windows, intel);
    lemma_asset_name_identifies_target(version, linux, intel, windows, arm);
    lemma_asset_name_identifies_target(version, linux, intel, windows, intel);
    lemma_asset_name_identifies_target(version, windows, arm, windows, intel);
}

/// An asset name ends in `.exe` on Windows and on no other system.
pub proof fn lemma_exe_suffix_only_on_windows(version: Seq<char>, os: Os, arch: Architecture)
    ensures
        ".exe"@.is_suffix_of(asset_name_of(version, os, arch)) <==> os == Os::Windows,
{
    reveal_strlit(".exe");
    reveal_strlit("-aarch64-apple-darwin");
    reveal_strlit("-x86_64-apple-darwin");
    reveal_strlit("-aarch64-unknown-linux-gnu");
    reveal_strlit("-x86_64-unknown-linux-gnu");
    reveal_strlit("-aarch64-pc-windows-msvc.exe");
    reveal_strlit("-x86_64-pc-windows-msvc.exe");
    let name = asset_name_of(version, os, arch);
    let tail = target_suffix(os, arch);
    let n = name.len() as int;
    assert(name.subrange(n - tail.len(), n) =~= tail);
    if os == Os::Windows {
        assert(name.subrange(n - 4, n) =~= tail.subrange(tail.len() - 4, tail.len() as int));
        assert(tail.subrange(tail.len() - 4, tail.len() as int) =~= ".exe"@);
    } else {
        assert(name[n - 1] == tail[tail.len() - 1]);
        if ".exe"@.is_suffix_of(name) {
            assert(name.subrange(n - 4, n)[3] == 'e');
        }
    }
}

/// The binary's file name ends in `.exe` on Windows and on no other system.
pub proof fn lemma_binary_name_exe_only_on_windows(os: Os)
    ensures
        ".exe"@.is_suffix_of(binary_name_of(os)) <==> os == Os::Windows,
{
    reveal_strlit(".exe");
    reveal_strlit("odoo_ls_server.exe");
    reveal_strlit("odoo_ls_server");
    let name = binary_name_of(os);
    let n = name.len() as int;
    if os == Os::Windows {
        assert(name.subrange(n - 4, n) =~= ".exe"@);
    } else {
        if ".exe"@.is_suffix_of(name) {
            assert(name.subrange(n - 4, n)[3] == 'e');
        }
    }
}

/// Name of the release asset built for `os` and `arch` at `version`.
pub fn asset_name(version: &str, os: Os, arch: Architecture) -> (name: String)
    ensures
        name@ == asset_name_of(version@, os, arch),
{
    let suffix: &str = match os {
        Os::Mac => match arch {
            Architecture::Aarch64 => "-aarch64-apple-darwin",
            _ => "-x86_64-apple-darwin",
        },
        Os::Linux => match arch {
            Architecture::Aarch64 => "-aarch64-unknown-linux-gnu",
            _ => "-x86_64-unknown-linux-gnu",
        },
        Os::Windows => match arch {
            Architecture::Aarch64 => "-aarch64-pc-windows-msvc.exe",
            _ => "-x86_64-pc-windows-msvc.exe",
        },
    };
    let mut name = String::from_str("odoo_ls_server-");
    name.append(version);
    name.append(suffix);
    name
}

/// File name of the installed server binary.
pub fn binary_name(os: Os) -> (name: String)
    ensures
        name@ == binary_name_of(os),
{
    match os {
        Os::Windows => String::from_str("odoo_ls_server.exe"),
        _ => String::from_str("odoo_ls_server"),
    }
}

/// Directory that holds the installation of `version`.
pub fn version_dir(version: &str) -> (dir: String)
    ensures
        dir@ == version_dir_of(version@),
{
    let mut dir = String::from_str("odoo-ls-");
    dir.append(version);
    dir
}

/// Path of the installed server binary of `version`.
pub fn binary_path(version: &str, os: Os) -> (path: String)
    ensures
        path@ == binary_path_of(version@, os),
{
    let mut path = version_dir(version);
    path.append("/");
    let name = binary_name(os);
    path.append(name.as_str());
    path
}

/// Path at which a downloaded asset lies before it is renamed.
pub fn download_path(version: &str, asset_name: &str) -> (path: String)
    ensures
        path@ == download_path_of(version@, asset_name@),
{
    let mut path = version_dir(version);
    path.append("/");
    path.append(asset_name);
    path
}

} // verus!
