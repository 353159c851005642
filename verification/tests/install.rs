use std::path::Path;

use updater::command::{
    apt_install_command, dnf_install_command, pkexec_command,
    updater_binary_for_privileged_install, Invocation, Program,
};
use updater::error::InstallError;
use updater::kind::PackageKind;
use updater::tools::{program_path, Tool};
use updater::version::parse_installed_version;

fn resolve(tool: Tool) -> String {
    let candidates = tool.candidates();
    let present: Vec<bool> = candidates.iter().map(|c| Path::new(c).is_file()).collect();
    program_path(&candidates, &present, &tool.name())
}

fn program_of(command: &Invocation) -> String {
    match &command.program {
        Program::Named(name) => name.clone(),
        Program::Tool(tool) => tool.name(),
    }
}

fn installed_updater_exists() -> bool {
    Path::new("/usr/bin/codex-update-manager").is_file()
}

#[test]
fn builds_pkexec_command_for_privileged_deb_install() {
    let command = pkexec_command(
        installed_updater_exists(),
        "/usr/bin/codex-update-manager",
        "/tmp/update.deb",
    );
    assert_eq!(program_of(&command), "pkexec");
    assert_eq!(
        command.args,
        vec![
            "/usr/bin/codex-update-manager",
            "install-deb",
            "--path",
            "/tmp/update.deb"
        ]
    );
}

#[test]
fn builds_pkexec_command_for_privileged_rpm_install() {
    let command = pkexec_command(
        installed_updater_exists(),
        "/usr/bin/codex-update-manager",
        "/tmp/update.rpm",
    );
    assert_eq!(
        command.args,
        vec![
            "/usr/bin/codex-update-manager",
            "install-rpm",
            "--path",
            "/tmp/update.rpm"
        ]
    );
}

#[test]
fn prefers_installed_updater_path_for_pkexec() {
    let selected = updater_binary_for_privileged_install(
        installed_updater_exists(),
        "/tmp/codex-update-manager-old",
    );
    let expected = if Path::new("/usr/bin/codex-update-manager").is_file() {
        String::from("/usr/bin/codex-update-manager")
    } else {
        String::from("/tmp/codex-update-manager-old")
    };
    assert_eq!(selected, expected);
}

#[test]
fn builds_local_apt_install_command() -> Result<(), InstallError> {
    let command = apt_install_command(&resolve(Tool::Apt), "/tmp/build/codex.deb")?;
    assert!(program_of(&command).ends_with("apt"));
    assert_eq!(command.args, vec!["install", "-y", "./codex.deb"]);
    Ok(())
}

#[test]
fn builds_local_dnf_install_command() -> Result<(), InstallError> {
    let command = dnf_install_command(&resolve(Tool::Dnf), "/tmp/build/codex.rpm")?;
    let program = program_of(&command);
    assert!(program.ends_with("dnf") || program.ends_with("dnf5"));
    assert_eq!(command.args, vec!["install", "-y", "./codex.rpm"]);
    Ok(())
}

#[test]
fn package_kind_from_path_detects_rpm() {
    assert_eq!(PackageKind::from_path("/tmp/codex.rpm"), PackageKind::Rpm);
}

#[test]
fn package_kind_from_path_detects_deb() {
    assert_eq!(PackageKind::from_path("/tmp/codex.deb"), PackageKind::Deb);
}

#[test]
fn install_commands_require_a_file_name() {
    let deb_error = apt_install_command(&resolve(Tool::Apt), "/").expect_err("root is not a package");
    let rpm_error = dnf_install_command(&resolve(Tool::Dnf), "/").expect_err("root is not a package");

    assert!(deb_error.message().contains("apt package path has no"));
    assert!(rpm_error.message().contains("dnf package path has no"));
}

#[test]
fn empty_installed_version_output_is_reported_as_unknown() {
    assert_eq!(parse_installed_version(Vec::new()), "unknown");
}
