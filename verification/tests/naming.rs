use odoo_ls::naming::{
    asset_name, binary_name, binary_path, download_path, version_dir, Architecture, Os,
};

#[test]
fn asset_name_mac_aarch64() {
    assert_eq!(
        asset_name("1.2.3", Os::Mac, Architecture::Aarch64),
        "odoo_ls_server-1.2.3-aarch64-apple-darwin"
    );
}

#[test]
fn asset_name_mac_x86_64() {
    assert_eq!(
        asset_name("1.2.3", Os::Mac, Architecture::X8664),
        "odoo_ls_server-1.2.3-x86_64-apple-darwin"
    );
}

#[test]
fn asset_name_linux_aarch64() {
    assert_eq!(
        asset_name("1.2.3", Os::Linux, Architecture::Aarch64),
        "odoo_ls_server-1.2.3-aarch64-unknown-linux-gnu"
    );
}

#[test]
fn asset_name_linux_x86_64() {
    assert_eq!(
        asset_name("1.2.3", Os::Linux, Architecture::X8664),
        "odoo_ls_server-1.2.3-x86_64-unknown-linux-gnu"
    );
}

#[test]
fn asset_name_windows_aarch64() {
    assert_eq!(
        asset_name("1.2.3", Os::Windows, Architecture::Aarch64),
        "odoo_ls_server-1.2.3-aarch64-pc-windows-msvc.exe"
    );
}

#[test]
fn asset_name_windows_x86_64() {
    assert_eq!(
        asset_name("1.2.3", Os::Windows, Architecture::X8664),
        "odoo_ls_server-1.2.3-x86_64-pc-windows-msvc.exe"
    );
}

#[test]
fn asset_name_other_architecture_gets_x86_64_build() {
    assert_eq!(
        asset_name("0.4.0", Os::Linux, Architecture::X86),
        asset_name("0.4.0", Os::Linux, Architecture::X8664)
    );
    assert_eq!(
        asset_name("0.4.0", Os::Windows, Architecture::X86),
        "odoo_ls_server-0.4.0-x86_64-pc-windows-msvc.exe"
    );
}

#[test]
fn asset_names_of_the_six_targets_differ() {
    let systems = [Os::Mac, Os::Linux, Os::Windows];
    let architectures = [Architecture::Aarch64, Architecture::X8664];
    let mut names: Vec<String> = Vec::new();
    for os in systems {
        for arch in architectures {
            names.push(asset_name("2.0.0-beta", os, arch));
        }
    }
    assert_eq!(names.len(), 6);
    for i in 0..names.len() {
        for j in 0..names.len() {
            if i != j {
                assert_ne!(names[i], names[j]);
            }
        }
    }
}

#[test]
fn exe_suffix_only_on_windows() {
    let architectures = [Architecture::Aarch64, Architecture::X86, Architecture::X8664];
    for arch in architectures {
        assert!(asset_name("1.0.0", Os::Windows, arch).ends_with(".exe"));
        assert!(!asset_name("1.0.0", Os::Mac, arch).ends_with(".exe"));
        assert!(!asset_name("1.0.0", Os::Linux, arch).ends_with(".exe"));
    }
}

#[test]
fn asset_name_keeps_the_version_as_it_is() {
    assert_eq!(
        asset_name("", Os::Linux, Architecture::Aarch64),
        "odoo_ls_server--aarch64-unknown-linux-gnu"
    );
    assert_eq!(
        asset_name("v1.0-rc.1", Os::Mac, Architecture::Aarch64),
        "odoo_ls_server-v1.0-rc.1-aarch64-apple-darwin"
    );
}

#[test]
fn binary_name_per_system() {
    assert_eq!(binary_name(Os::Mac), "odoo_ls_server");
    assert_eq!(binary_name(Os::Linux), "odoo_ls_server");
    assert_eq!(binary_name(Os::Windows), "odoo_ls_server.exe");
}

#[test]
fn version_dir_is_prefixed() {
    assert_eq!(version_dir("1.2.3"), "odoo-ls-1.2.3");
    assert_eq!(version_dir(""), "odoo-ls-");
}

#[test]
fn binary_path_lies_in_the_version_dir() {
    assert_eq!(binary_path("1.2.3", Os::Linux), "odoo-ls-1.2.3/odoo_ls_server");
    assert_eq!(binary_path("1.2.3", Os::Mac), "odoo-ls-1.2.3/odoo_ls_server");
    assert_eq!(binary_path("1.2.3", Os::Windows), "odoo-ls-1.2.3/odoo_ls_server.exe");
}

#[test]
fn download_path_lies_in_the_version_dir() {
    assert_eq!(
        download_path("1.2.3", "odoo_ls_server-1.2.3-x86_64-unknown-linux-gnu"),
        "odoo-ls-1.2.3/odoo_ls_server-1.2.3-x86_64-unknown-linux-gnu"
    );
}
