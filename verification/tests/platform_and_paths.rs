use blue_cli::binary::{file_name, join, InstalledBinary};
use blue_cli::config::{config_file_name, require_config, ConfigError};
use blue_cli::error::InstallError;
use blue_cli::platform::OperatingSystem;
use blue_cli::registrar::{profile_file_name, target_line, windows_command, PathRegistration};
use blue_cli::target::InstallTarget;
use blue_cli::text::{followed_by, text_equal};

fn text(s: &str) -> String {
    String::from(s)
}

fn target(os: OperatingSystem, home: Option<&str>) -> InstallTarget {
    match InstallTarget::resolve(os, home.map(text)) {
        Ok(target) => target,
        Err(error) => panic!("no target: {:?}", error),
    }
}

#[test]
fn identifiers_name_their_platforms() {
    assert_eq!(OperatingSystem::from_identifier("windows"), OperatingSystem::Windows);
    assert_eq!(OperatingSystem::from_identifier("linux"), OperatingSystem::Linux);
    assert_eq!(OperatingSystem::from_identifier("macos"), OperatingSystem::MacOS);
}

#[test]
fn other_identifiers_are_unsupported() {
    assert_eq!(OperatingSystem::from_identifier("freebsd"), OperatingSystem::Unsupported);
    assert_eq!(OperatingSystem::from_identifier("Linux"), OperatingSystem::Unsupported);
    assert_eq!(OperatingSystem::from_identifier("linux "), OperatingSystem::Unsupported);
    assert_eq!(OperatingSystem::from_identifier(""), OperatingSystem::Unsupported);
}

#[test]
fn supported_platforms() {
    assert!(OperatingSystem::Windows.is_supported());
    assert!(OperatingSystem::Linux.is_supported());
    assert!(OperatingSystem::MacOS.is_supported());
    assert!(!OperatingSystem::Unsupported.is_supported());
}

#[test]
fn separators_by_platform() {
    assert!(OperatingSystem::Linux.is_separator('/'));
    assert!(!OperatingSystem::Linux.is_separator('\\'));
    assert!(OperatingSystem::MacOS.is_separator('/'));
    assert!(!OperatingSystem::MacOS.is_separator('\\'));
    assert!(OperatingSystem::Windows.is_separator('/'));
    assert!(OperatingSystem::Windows.is_separator('\\'));
    assert!(!OperatingSystem::Windows.is_separator(':'));
    assert_eq!(OperatingSystem::Windows.main_separator_text(), "\\");
    assert_eq!(OperatingSystem::Linux.main_separator_text(), "/");
    assert_eq!(OperatingSystem::MacOS.main_separator_text(), "/");
    assert_eq!(OperatingSystem::Unsupported.main_separator_text(), "/");
}

#[test]
fn texts_compare_by_their_characters() {
    assert!(text_equal("", ""));
    assert!(text_equal("blue", "blue"));
    assert!(!text_equal("blue", "blue "));
    assert!(!text_equal("blue", "blau"));
    assert!(text_equal("gr\u{fc}n", "gr\u{fc}n"));
    assert!(!text_equal("gr\u{fc}n", "grun"));
    assert_eq!(followed_by("/home", "/alice"), "/home/alice");
    assert_eq!(followed_by("", ""), "");
}

#[test]
fn linux_directory_lies_below_home() {
    let target = target(OperatingSystem::Linux, Some("/home/alice"));
    assert_eq!(target.recommended_dir(), "/home/alice/.blue/bin");
    assert_eq!(target.home_dir(), Some("/home/alice"));
    assert_eq!(target.operating_system(), OperatingSystem::Linux);
}

#[test]
fn windows_directory_lies_below_home() {
    let target = target(OperatingSystem::Windows, Some("C:\\Users\\alice"));
    assert_eq!(target.recommended_dir(), "C:\\Users\\alice\\.blue\\bin");
    assert_eq!(target.home_dir(), Some("C:\\Users\\alice"));
    assert_eq!(target.operating_system(), OperatingSystem::Windows);
}

#[test]
fn macos_directory_is_fixed() {
    for home in [Some("/Users/alice"), Some("/home/bob"), Some(""), None] {
        let target = target(OperatingSystem::MacOS, home);
        assert_eq!(target.recommended_dir(), "/usr/local/bin/.blue/bin");
        assert_eq!(target.home_dir(), home);
    }
}

#[test]
fn empty_home_is_a_home() {
    let target = target(OperatingSystem::Linux, Some(""));
    assert_eq!(target.recommended_dir(), "/.blue/bin");
}

#[test]
fn home_is_taken_as_it_is() {
    let target = target(OperatingSystem::Linux, Some("/home/alice/"));
    assert_eq!(target.recommended_dir(), "/home/alice//.blue/bin");
    let target = self::target(OperatingSystem::Linux, Some("/home/\u{e9}lo\u{ef}se"));
    assert_eq!(target.recommended_dir(), "/home/\u{e9}lo\u{ef}se/.blue/bin");
}

#[test]
fn missing_home_is_an_error_where_it_is_needed() {
    assert!(matches!(
        InstallTarget::resolve(OperatingSystem::Linux, None),
        Err(InstallError::HomeDirectoryUnavailable)
    ));
    assert!(matches!(
        InstallTarget::resolve(OperatingSystem::Windows, None),
        Err(InstallError::HomeDirectoryUnavailable)
    ));
}

#[test]
fn unsupported_platform_has_no_directory() {
    assert!(matches!(
        InstallTarget::resolve(OperatingSystem::Unsupported, Some(text("/home/alice"))),
        Err(InstallError::UnsupportedPlatform)
    ));
    assert!(matches!(
        InstallTarget::resolve(OperatingSystem::Unsupported, None),
        Err(InstallError::UnsupportedPlatform)
    ));
}

#[test]
fn file_name_is_the_last_component() {
    let os = OperatingSystem::Linux;
    assert_eq!(file_name("/usr/local/bin/blue", os), Some(text("blue")));
    assert_eq!(file_name("blue", os), Some(text("blue")));
    assert_eq!(file_name("./blue", os), Some(text("blue")));
    assert_eq!(file_name("/opt/tools/blue.bin", os), Some(text("blue.bin")));
    assert_eq!(file_name("/opt/bl\u{fc}/bla\u{fc}", os), Some(text("bla\u{fc}")));
    assert_eq!(file_name("/opt/...", os), Some(text("...")));
}

#[test]
fn some_paths_have_no_file_name() {
    let os = OperatingSystem::Linux;
    assert_eq!(file_name("", os), None);
    assert_eq!(file_name("/", os), None);
    assert_eq!(file_name("/usr/bin/", os), None);
    assert_eq!(file_name("/usr/bin/.", os), None);
    assert_eq!(file_name("/usr/bin/..", os), None);
    assert_eq!(file_name(".", os), None);
    assert_eq!(file_name("..", os), None);
}

#[test]
fn backslash_separates_on_windows_only() {
    assert_eq!(
        file_name("C:\\Program Files\\blue\\blue.exe", OperatingSystem::Windows),
        Some(text("blue.exe"))
    );
    assert_eq!(
        file_name("C:/Program Files/blue\\blue.exe", OperatingSystem::Windows),
        Some(text("blue.exe"))
    );
    assert_eq!(
        file_name("C:\\tools/blue.exe", OperatingSystem::Windows),
        Some(text("blue.exe"))
    );
    assert_eq!(file_name("C:\\tools\\", OperatingSystem::Windows), None);
    assert_eq!(
        file_name("/opt/odd\\name", OperatingSystem::Linux),
        Some(text("odd\\name"))
    );
    assert_eq!(
        file_name("/opt/odd\\name", OperatingSystem::MacOS),
        Some(text("odd\\name"))
    );
}

#[test]
fn join_puts_one_separator_between() {
    assert_eq!(join("/home/alice/.blue/bin", "blue", OperatingSystem::Linux), "/home/alice/.blue/bin/blue");
    assert_eq!(join("/usr/local/bin/.blue/bin", "blue", OperatingSystem::MacOS), "/usr/local/bin/.blue/bin/blue");
    assert_eq!(
        join("C:\\Users\\alice\\.blue\\bin", "blue.exe", OperatingSystem::Windows),
        "C:\\Users\\alice\\.blue\\bin\\blue.exe"
    );
}

#[test]
fn join_adds_no_second_separator() {
    assert_eq!(join("/opt/", "blue", OperatingSystem::Linux), "/opt/blue");
    assert_eq!(join("/", "blue", OperatingSystem::Linux), "/blue");
    assert_eq!(join("", "blue", OperatingSystem::Linux), "blue");
    assert_eq!(join("C:\\tools\\", "blue.exe", OperatingSystem::Windows), "C:\\tools\\blue.exe");
    assert_eq!(join("C:/tools/", "blue.exe", OperatingSystem::Windows), "C:/tools/blue.exe");
    assert_eq!(join("/opt\\", "blue", OperatingSystem::Linux), "/opt\\/blue");
}

#[test]
fn copy_goes_into_the_directory_under_its_own_name() {
    let target = target(OperatingSystem::Linux, Some("/home/alice"));
    let binary = match InstalledBinary::plan(&target, text("/tmp/downloads/blue")) {
        Ok(binary) => binary,
        Err(error) => panic!("no plan: {:?}", error),
    };
    assert_eq!(binary.source_path(), "/tmp/downloads/blue");
    assert_eq!(binary.dest_path(), "/home/alice/.blue/bin/blue");

    let target = self::target(OperatingSystem::Windows, Some("C:\\Users\\alice"));
    let binary = match InstalledBinary::plan(&target, text("D:\\dl\\blue.exe")) {
        Ok(binary) => binary,
        Err(error) => panic!("no plan: {:?}", error),
    };
    assert_eq!(binary.source_path(), "D:\\dl\\blue.exe");
    assert_eq!(binary.dest_path(), "C:\\Users\\alice\\.blue\\bin\\blue.exe");

    let target = self::target(OperatingSystem::MacOS, None);
    let binary = match InstalledBinary::plan(&target, text("/Users/alice/Downloads/blue")) {
        Ok(binary) => binary,
        Err(error) => panic!("no plan: {:?}", error),
    };
    assert_eq!(binary.dest_path(), "/usr/local/bin/.blue/bin/blue");
}

#[test]
fn executable_without_file_name_cannot_be_copied() {
    let target = target(OperatingSystem::Linux, Some("/home/alice"));
    assert!(matches!(
        InstalledBinary::plan(&target, text("/tmp/downloads/")),
        Err(InstallError::SelfPathUnavailable)
    ));
    assert!(matches!(
        InstalledBinary::plan(&target, text("")),
        Err(InstallError::SelfPathUnavailable)
    ));
    assert!(matches!(
        InstalledBinary::plan(&target, text("/tmp/..")),
        Err(InstallError::SelfPathUnavailable)
    ));
}

#[test]
fn profile_line_and_command_are_exact() {
    assert_eq!(target_line("/home/alice/.blue/bin"), "export PATH=$PATH:/home/alice/.blue/bin");
    assert_eq!(target_line(""), "export PATH=$PATH:");
    assert_eq!(
        windows_command("C:\\Users\\alice\\.blue\\bin"),
        "setx PATH \"C:\\Users\\alice\\.blue\\bin;$Env:PATH\""
    );
    assert_eq!(windows_command(""), "setx PATH \";$Env:PATH\"");
}

#[test]
fn profile_names_by_platform() {
    assert_eq!(profile_file_name(OperatingSystem::Linux), Some(".bashrc"));
    assert_eq!(profile_file_name(OperatingSystem::MacOS), Some(".bash_profile"));
    assert_eq!(profile_file_name(OperatingSystem::Windows), None);
    assert_eq!(profile_file_name(OperatingSystem::Unsupported), None);
}

#[test]
fn registration_by_platform() {
    let linux = target(OperatingSystem::Linux, Some("/home/alice"));
    match PathRegistration::plan(&linux) {
        Ok(PathRegistration::Unix { target_line, profile_path }) => {
            assert_eq!(target_line, "export PATH=$PATH:/home/alice/.blue/bin");
            assert_eq!(profile_path, "/home/alice/.bashrc");
        }
        _ => panic!("linux keeps its PATH in a profile"),
    }
    let macos = target(OperatingSystem::MacOS, Some("/Users/alice"));
    match PathRegistration::plan(&macos) {
        Ok(PathRegistration::Unix { target_line, profile_path }) => {
            assert_eq!(target_line, "export PATH=$PATH:/usr/local/bin/.blue/bin");
            assert_eq!(profile_path, "/Users/alice/.bash_profile");
        }
        _ => panic!("macos keeps its PATH in a profile"),
    }
    let windows = target(OperatingSystem::Windows, Some("C:\\Users\\alice"));
    match PathRegistration::plan(&windows) {
        Ok(PathRegistration::Windows { program, command }) => {
            assert_eq!(program, "powershell");
            assert_eq!(command, "setx PATH \"C:\\Users\\alice\\.blue\\bin;$Env:PATH\"");
        }
        _ => panic!("windows runs a command"),
    }
}

#[test]
fn macos_profile_needs_a_home() {
    let macos = target(OperatingSystem::MacOS, None);
    assert!(matches!(
        PathRegistration::plan(&macos),
        Err(InstallError::HomeDirectoryUnavailable)
    ));
}

#[test]
fn only_the_path_command_may_fail() {
    let fatal = [
        InstallError::UnsupportedPlatform,
        InstallError::HomeDirectoryUnavailable,
        InstallError::DirectoryCreateFailed,
        InstallError::SelfPathUnavailable,
        InstallError::CopyFailed,
        InstallError::ProfileFileOpenFailed,
        InstallError::ProfileWriteFailed,
    ];
    for error in fatal {
        assert!(error.is_fatal());
        assert_eq!(error.exit_status(), 1);
    }
    assert!(!InstallError::PathMechanismFailed.is_fatal());
    assert_eq!(InstallError::PathMechanismFailed.exit_status(), 0);
}

#[test]
fn configuration_is_required_where_it_is_needed() {
    assert_eq!(config_file_name(), "blue.toml");
    let present = Some(text("[workspace]"));
    assert_eq!(require_config(&present), Ok(&text("[workspace]")));
    let missing: Option<String> = None;
    assert_eq!(require_config(&missing), Err(ConfigError::Missing));
}
