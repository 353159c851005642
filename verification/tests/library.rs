use std::path::Path;

use updater::command::{
    deb_version_query, install_command_in_parent, installed_version_query, pkexec_command,
    version_comparison, Invocation, Program, RunOutcome,
};
use updater::error::{InstallError, Installer};
use updater::job::{
    install_deb, install_pacman, install_rpm, installed_package_version, Action, Event,
    InstallStep, Installation, QueryStep, VersionQuery,
};
use updater::kind::PackageKind;
use updater::text::{find_last, less, trim, white_space};
use updater::tools::{program_exists, program_path, Tool};
use updater::version::{
    deb_package_version, installed_version_from_outcome, is_primary_package_installed,
    is_version_newer_pacman, newer_than_pacman_report, pacman_package_version,
    pacman_version_from_file_name, parse_installed_version, version_and_release,
};

fn ok_output(stdout: &[u8]) -> RunOutcome {
    RunOutcome::Exited { success: true, status: String::from("exit status: 0"), stdout: stdout.to_vec() }
}

fn failed_output() -> RunOutcome {
    RunOutcome::Exited { success: false, status: String::from("exit status: 1"), stdout: Vec::new() }
}

fn strings(v: &[&str]) -> Vec<String> {
    v.iter().map(|s| s.to_string()).collect()
}

fn expect_run(action: Action) -> Invocation {
    match action {
        Action::Run(invocation) => invocation,
        other => panic!("expected a command to run, got {:?}", other),
    }
}

fn not_started() -> RunOutcome {
    RunOutcome::NotStarted { reason: String::from("No such file or directory (os error 2)") }
}

fn expect_attached(action: Action) -> Invocation {
    match action {
        Action::RunAttached(invocation) => invocation,
        other => panic!("expected a command run attached, got {:?}", other),
    }
}

fn next(job: &mut Installation, event: Event) -> Action {
    assert!(job.accepts(&event));
    match job.advance(event) {
        InstallStep::Next(action) => action,
        InstallStep::Finished(result) => panic!("finished early: {:?}", result),
        InstallStep::Ignored => panic!("the event was ignored"),
    }
}

fn last(job: &mut Installation, event: Event) -> Result<(), InstallError> {
    assert!(job.accepts(&event));
    match job.advance(event) {
        InstallStep::Finished(result) => result,
        InstallStep::Next(action) => panic!("expected the end, got {:?}", action),
        InstallStep::Ignored => panic!("the event was ignored"),
    }
}

#[test]
fn detect_prefers_pacman_then_dpkg_then_rpm() {
    assert_eq!(PackageKind::detect(true, true, true), PackageKind::Pacman);
    assert_eq!(PackageKind::detect(false, true, true), PackageKind::Deb);
    assert_eq!(PackageKind::detect(false, false, true), PackageKind::Rpm);
    assert_eq!(PackageKind::detect(false, false, false), PackageKind::Deb);
}

#[test]
fn from_path_reads_the_extension_of_the_file_name() {
    assert_eq!(PackageKind::from_path("/tmp/build/codex.RPM"), PackageKind::Deb);
    assert_eq!(PackageKind::from_path("/tmp/.rpm"), PackageKind::Deb);
    assert_eq!(PackageKind::from_path("/tmp/codex.tar.rpm"), PackageKind::Rpm);
    assert_eq!(PackageKind::from_path("/tmp/codex.rpm/"), PackageKind::Rpm);
    assert_eq!(PackageKind::from_path("/tmp/rpm.d/codex"), PackageKind::Deb);
    assert_eq!(PackageKind::from_path("/"), PackageKind::Deb);
    assert_eq!(PackageKind::from_file_name("codex.rpm"), PackageKind::Rpm);
    assert_eq!(PackageKind::from_file_name("rpm"), PackageKind::Deb);
}

#[test]
fn from_path_agrees_with_std_extension() {
    for path in ["a.rpm", "a.b.rpm", ".rpm", "..rpm", "a.rpm.", "dir/x.rpm", "x.deb", "rpm", "a/..", "/"] {
        let std_kind = match Path::new(path).extension().and_then(|e| e.to_str()) {
            Some("rpm") => PackageKind::Rpm,
            _ => PackageKind::Deb,
        };
        assert_eq!(PackageKind::from_path(path), std_kind, "{}", path);
    }
}

#[test]
fn program_path_takes_the_first_present_candidate() {
    let candidates = strings(&["/usr/bin/dnf", "/bin/dnf", "/usr/bin/dnf5"]);
    assert_eq!(program_path(&candidates, &vec![false, true, true], "dnf"), "/bin/dnf");
    assert_eq!(program_path(&candidates, &vec![true, true, false], "dnf"), "/usr/bin/dnf");
    assert_eq!(program_path(&candidates, &vec![false, false, false], "dnf"), "dnf");
}

#[test]
fn program_exists_when_a_candidate_or_the_search_path_has_it() {
    assert!(program_exists(&vec![false, true], false));
    assert!(program_exists(&vec![false, false], true));
    assert!(!program_exists(&vec![false, false], false));
    assert!(!program_exists(&vec![], false));
}

#[test]
fn tools_are_looked_for_at_their_places() {
    assert_eq!(Tool::Apt.candidates(), vec!["/usr/bin/apt", "/bin/apt"]);
    assert_eq!(Tool::Dnf5.candidates(), Tool::Dnf.candidates());
    assert_eq!(Tool::Dnf5.name(), "dnf5");
    assert_eq!(Tool::DpkgQuery.name(), "dpkg-query");
}

#[test]
fn white_space_is_std_white_space() {
    for code in 0u32..=0x10FFFF {
        if let Some(c) = char::from_u32(code) {
            assert_eq!(white_space(c), c.is_whitespace(), "{:x}", code);
        }
    }
}

#[test]
fn trim_agrees_with_std_trim() {
    for s in ["", "  ", " a ", "\u{a0}1.0\u{3000}", "\t\nx y\r\n", "abc", "\u{85}"] {
        assert_eq!(trim(s), s.trim());
    }
}

#[test]
fn less_agrees_with_std_order() {
    let words = ["", "a", "ab", "b", "10", "9", "1.10", "1.9", "\u{e9}", "z", "Z"];
    for a in words {
        for b in words {
            assert_eq!(less(a, b), a < b, "{} {}", a, b);
        }
    }
}

#[test]
fn find_last_gives_the_last_position() {
    assert_eq!(find_last("a-b-c", '-'), Some(3));
    assert_eq!(find_last("abc", '-'), None);
}

#[test]
fn installed_version_is_trimmed_output_or_unknown() {
    assert_eq!(parse_installed_version(b"  1.2.3-1\n".to_vec()), "1.2.3-1");
    assert_eq!(parse_installed_version(b" \n\t ".to_vec()), "unknown");
    assert_eq!(parse_installed_version(vec![0x31, 0xff, 0x32]), "1\u{fffd}2");
    assert_eq!(installed_version_from_outcome(ok_output(b"2.0\n")), "2.0");
    assert_eq!(installed_version_from_outcome(failed_output()), "unknown");
    assert_eq!(installed_version_from_outcome(not_started()), "unknown");
}

#[test]
fn reported_version_reads_back_unchanged() {
    let once = parse_installed_version(b"\t3.1 \n".to_vec());
    assert_eq!(parse_installed_version(once.clone().into_bytes()), once);
    let unknown = parse_installed_version(Vec::new());
    assert_eq!(parse_installed_version(unknown.clone().into_bytes()), unknown);
}

#[test]
fn primary_package_is_installed_unless_unknown() {
    assert!(is_primary_package_installed("1.0"));
    assert!(!is_primary_package_installed("unknown"));
    assert!(is_primary_package_installed("Unknown"));
}

#[test]
fn version_queries_ask_the_package_managers() {
    let deb = installed_version_query(PackageKind::Deb);
    assert!(matches!(deb.program, Program::Tool(Tool::DpkgQuery)));
    assert_eq!(deb.args, vec!["-W", "-f=${Version}", "codex-desktop"]);
    let rpm = installed_version_query(PackageKind::Rpm);
    assert!(matches!(rpm.program, Program::Tool(Tool::Rpm)));
    assert_eq!(rpm.args, vec!["-q", "--queryformat", "%{VERSION}-%{RELEASE}", "codex-desktop"]);
    let pacman = installed_version_query(PackageKind::Pacman);
    assert_eq!(pacman.args, vec!["-Q", "codex-desktop"]);
    assert_eq!(deb_version_query("/tmp/a.deb").args, vec!["-f", "/tmp/a.deb", "Version"]);
    assert_eq!(
        version_comparison("2.0", "1.0").args,
        vec!["--compare-versions", "2.0", "gt", "1.0"]
    );
}

#[test]
fn deb_version_comes_from_dpkg_deb_output() {
    assert_eq!(deb_package_version("/p.deb", ok_output(b" 2026.1 \n")).unwrap(), "2026.1");
    let e = deb_package_version("/p.deb", not_started()).unwrap_err();
    assert_eq!(e.message(), "Failed to inspect Debian package metadata");
    assert_eq!(e.causes(), vec!["No such file or directory (os error 2)"]);
    let e = deb_package_version("/p.deb", failed_output()).unwrap_err();
    assert_eq!(e.message(), "dpkg-deb could not read the package version from /p.deb");
    let e = deb_package_version("/p.deb", ok_output(&[0xff, 0xfe])).unwrap_err();
    assert_eq!(e.message(), "dpkg-deb returned a non-UTF8 package version");
    let std_reason = String::from_utf8(vec![0xff, 0xfe]).unwrap_err().to_string();
    assert_eq!(e.causes(), vec![std_reason]);
    let e = deb_package_version("/p.deb", ok_output(b"  \n")).unwrap_err();
    assert_eq!(e.message(), "dpkg-deb returned an empty package version for /p.deb");
}

#[test]
fn pacman_version_comes_from_the_file_name() {
    assert_eq!(
        pacman_package_version("/tmp/codex-desktop-1.0.0-1-x86_64.pkg.tar.zst").unwrap(),
        "codex-desktop-1.0.0-1"
    );
    assert_eq!(
        pacman_package_version("/tmp/Codex-Desktop-2.0-3-X86_64.PKG.TAR.XZ").unwrap(),
        "codex-desktop-2.0-3"
    );
    assert_eq!(pacman_package_version("/tmp/a-1-2.pkg.tar.lz4").unwrap(), "a-1");
    let e = pacman_package_version("/tmp/codex.tar.zst").unwrap_err();
    assert_eq!(e.message(), "Not a valid pacman package filename");
    let e = pacman_package_version("/tmp/Codex-1.pkg.tar.gz").unwrap_err();
    assert_eq!(e.message(), "Could not parse package version from: Codex-1.pkg.tar.gz");
    let e = pacman_package_version("/").unwrap_err();
    assert_eq!(e.message(), "Package path has no file name");
    assert_eq!(
        pacman_version_from_file_name("X-1-2-any.pkg.tar.bz2", "x-1-2-any.pkg.tar.bz2").unwrap(),
        "x-1-2"
    );
}

#[test]
fn version_and_release_are_the_last_two_parts() {
    assert_eq!(
        version_and_release("codex-desktop-1.0.0-1"),
        Some((String::from("1.0.0"), String::from("1")))
    );
    assert_eq!(version_and_release("1.0.0-1"), None);
    assert_eq!(version_and_release("a--"), Some((String::new(), String::new())));
}

#[test]
fn pacman_newer_compares_versions_then_releases() {
    // pacman -Q prints "name version-release"; the name's dash splits too.
    assert!(!newer_than_pacman_report("1.1", "1", "codex-desktop 1.0-9"));
    assert!(newer_than_pacman_report("1.1", "1", "codex 1.0-9"));
    assert!(!newer_than_pacman_report("1.0", "1", "x-1.1-1"));
    assert!(newer_than_pacman_report("1.0", "2", "x-1.0-1"));
    assert!(!newer_than_pacman_report("1.0", "1", "x-1.0-1"));
    assert!(newer_than_pacman_report("1.0", "1", "nothing"));
    // Strings, not numbers, decide.
    assert!(!newer_than_pacman_report("1.10", "1", "x-1.9-1"));
    assert!(is_version_newer_pacman("1", "1", failed_output()).unwrap());
    assert!(!is_version_newer_pacman("1", "1", ok_output(b" a-1-1\n")).unwrap());
    let e = is_version_newer_pacman("1", "1", not_started()).unwrap_err();
    assert_eq!(e.message(), "Failed to query installed pacman version");
    assert_eq!(e.causes(), vec!["No such file or directory (os error 2)"]);
}

#[test]
fn install_in_parent_runs_from_the_package_directory() {
    let command = install_command_in_parent("/usr/bin/apt", "/tmp/build/codex.deb").unwrap();
    assert_eq!(command.current_dir.as_deref(), Some("/tmp/build"));
    assert_eq!(command.args, vec!["install", "-y", "./codex.deb"]);
    let e = install_command_in_parent("/", "/").unwrap_err();
    assert_eq!(e.message(), "package manager package path has no parent directory");
    let e = install_command_in_parent("/usr/bin/dnf", "/tmp/..").unwrap_err();
    assert_eq!(e.message(), "dnf package path has no file name");
}

#[test]
fn pkexec_uses_the_running_updater_without_an_installed_one() {
    let command = pkexec_command(false, "/tmp/updater", "/tmp/x.pkg.tar.zst");
    assert_eq!(command.args, vec!["/tmp/updater", "install-deb", "--path", "/tmp/x.pkg.tar.zst"]);
    let command = pkexec_command(true, "/tmp/updater", "/tmp/x.rpm");
    assert_eq!(
        command.args,
        vec!["/usr/bin/codex-update-manager", "install-rpm", "--path", "/tmp/x.rpm"]
    );
}

#[test]
fn error_messages() {
    let cases: Vec<(InstallError, &str)> = vec![
        (
            InstallError::PackageNotFound { kind: PackageKind::Deb, path: "/a".into() },
            "Debian package not found: /a",
        ),
        (
            InstallError::PackageNotFound { kind: PackageKind::Rpm, path: "/a".into() },
            "RPM package not found: /a",
        ),
        (
            InstallError::PackageNotFound { kind: PackageKind::Pacman, path: "/a".into() },
            "Pacman package not found: /a",
        ),
        (InstallError::ComparisonUnavailable { reason: "denied".into() }, "Failed to compare Debian package versions"),
        (
            InstallError::NotNewer { candidate: "1".into(), installed: "2".into() },
            "Refusing to install non-newer package version 1 over installed version 2",
        ),
        (InstallError::NoFileName { program_name: "apt".into() }, "apt package path has no file name"),
        (InstallError::InstallerNotStarted { installer: Installer::Apt, reason: "denied".into() }, "apt install failed"),
        (
            InstallError::InstallerFailed { installer: Installer::Dpkg, status: "exit status: 2".into() },
            "dpkg -i failed",
        ),
        (InstallError::InstallerNotStarted { installer: Installer::Dnf, reason: "denied".into() }, "dnf install failed"),
        (InstallError::InstallerNotStarted { installer: Installer::Rpm, reason: "denied".into() }, "rpm -Uvh failed"),
        (InstallError::InstallerNotStarted { installer: Installer::Pacman, reason: "denied".into() }, "pacman -U failed"),
    ];
    for (e, message) in cases {
        assert_eq!(e.message(), message);
    }
    let e = InstallError::InstallerFailed { installer: Installer::Dpkg, status: "exit status: 2".into() };
    assert_eq!(e.causes(), vec!["installation command exited with exit status: 2"]);
    let e = InstallError::InstallerNotStarted { installer: Installer::Rpm, reason: "denied".into() };
    assert_eq!(e.causes(), vec!["Failed to execute installation command", "denied"]);
    let e = InstallError::ComparisonUnavailable { reason: "denied".into() };
    assert_eq!(e.causes(), vec!["denied"]);
    assert!(InstallError::ComparisonUnavailable { reason: "x".into() }.causes().len() == 1);
    assert!(InstallError::NotPacmanFileName.causes().is_empty());
}

#[test]
fn version_query_detects_then_asks() {
    let (mut query, action) = installed_package_version();
    assert!(matches!(action, Action::FindTool(Tool::Pacman)));
    let step = query.advance(Event::ToolFound(false));
    assert!(matches!(step, QueryStep::Next(Action::FindTool(Tool::Dpkg))));
    let step = query.advance(Event::ToolFound(false));
    assert!(matches!(step, QueryStep::Next(Action::FindTool(Tool::Rpm))));
    let step = query.advance(Event::ToolFound(true));
    match step {
        QueryStep::Next(Action::Run(invocation)) => {
            assert!(matches!(invocation.program, Program::Tool(Tool::Rpm)))
        }
        other => panic!("{:?}", other),
    }
    assert!(!query.accepts(&Event::ToolFound(true)));
    match query.advance(Event::Ran(ok_output(b"4.2-1\n"))) {
        QueryStep::Finished(version) => assert_eq!(version, "4.2-1"),
        other => panic!("{:?}", other),
    }
    assert!(!query.accepts(&Event::Ran(not_started())));
}

#[test]
fn version_query_without_any_manager_asks_dpkg() {
    let (mut query, _) = installed_package_version();
    query.advance(Event::ToolFound(false));
    query.advance(Event::ToolFound(false));
    match query.advance(Event::ToolFound(false)) {
        QueryStep::Next(Action::Run(invocation)) => {
            assert!(matches!(invocation.program, Program::Tool(Tool::DpkgQuery)))
        }
        other => panic!("{:?}", other),
    }
    let (mut query, _) = VersionQuery::for_kind(PackageKind::Pacman);
    match query.advance(Event::Ran(failed_output())) {
        QueryStep::Finished(version) => assert_eq!(version, "unknown"),
        other => panic!("{:?}", other),
    }
}

#[test]
fn deb_install_upgrades_through_apt() {
    let (mut job, action) = install_deb("/tmp/build/codex.deb");
    assert!(matches!(action, Action::CheckPath(ref p) if p == "/tmp/build/codex.deb"));
    assert!(matches!(next(&mut job, Event::PathChecked(true)), Action::FindTool(Tool::Pacman)));
    assert!(matches!(next(&mut job, Event::ToolFound(false)), Action::FindTool(Tool::Dpkg)));
    let query = expect_run(next(&mut job, Event::ToolFound(true)));
    assert!(matches!(query.program, Program::Tool(Tool::DpkgQuery)));
    let read = expect_run(next(&mut job, Event::Ran(ok_output(b"1.0\n"))));
    assert_eq!(read.args, vec!["-f", "/tmp/build/codex.deb", "Version"]);
    let compare = expect_attached(next(&mut job, Event::Ran(ok_output(b"2.0\n"))));
    assert_eq!(compare.args, vec!["--compare-versions", "2.0", "gt", "1.0"]);
    assert!(matches!(next(&mut job, Event::Ran(ok_output(b""))), Action::FindTool(Tool::Apt)));
    assert!(matches!(next(&mut job, Event::ToolFound(true)), Action::LocateTool(Tool::Apt)));
    let install = expect_attached(next(&mut job, Event::ToolLocated("/usr/bin/apt".into())));
    assert!(matches!(install.program, Program::Named(ref p) if p == "/usr/bin/apt"));
    assert_eq!(install.args, vec!["install", "-y", "./codex.deb"]);
    assert_eq!(install.current_dir.as_deref(), Some("/tmp/build"));
    assert!(last(&mut job, Event::Ran(ok_output(b""))).is_ok());
    assert!(!job.accepts(&Event::Ran(not_started())));
}

#[test]
fn deb_install_refuses_a_package_that_is_not_newer() {
    let (mut job, _) = install_deb("/tmp/codex.deb");
    next(&mut job, Event::PathChecked(true));
    next(&mut job, Event::ToolFound(false));
    next(&mut job, Event::ToolFound(true));
    next(&mut job, Event::Ran(ok_output(b"2.0")));
    next(&mut job, Event::Ran(ok_output(b"1.0")));
    let e = last(&mut job, Event::Ran(failed_output())).unwrap_err();
    assert_eq!(e.message(), "Refusing to install non-newer package version 1.0 over installed version 2.0");
}

#[test]
fn deb_install_without_installed_version_uses_dpkg() {
    let (mut job, _) = install_deb("/tmp/codex.deb");
    next(&mut job, Event::PathChecked(true));
    next(&mut job, Event::ToolFound(false));
    next(&mut job, Event::ToolFound(false));
    next(&mut job, Event::ToolFound(false));
    assert!(matches!(next(&mut job, Event::Ran(failed_output())), Action::FindTool(Tool::Apt)));
    let install = expect_attached(next(&mut job, Event::ToolFound(false)));
    assert!(matches!(install.program, Program::Tool(Tool::Dpkg)));
    assert_eq!(install.args, vec!["-i", "/tmp/codex.deb"]);
    let e = last(&mut job, Event::Ran(failed_output())).unwrap_err();
    assert_eq!(e.message(), "dpkg -i failed");
    assert_eq!(e.causes(), vec!["installation command exited with exit status: 1"]);
}

#[test]
fn missing_package_files_are_reported() {
    let (mut job, _) = install_deb("/nope.deb");
    assert_eq!(last(&mut job, Event::PathChecked(false)).unwrap_err().message(), "Debian package not found: /nope.deb");
    let (mut job, _) = install_rpm("/nope.rpm");
    assert_eq!(last(&mut job, Event::PathChecked(false)).unwrap_err().message(), "RPM package not found: /nope.rpm");
    let (mut job, _) = install_pacman("/nope.pkg.tar.zst");
    assert_eq!(
        last(&mut job, Event::PathChecked(false)).unwrap_err().message(),
        "Pacman package not found: /nope.pkg.tar.zst"
    );
}

#[test]
fn rpm_install_prefers_dnf_then_rpm() {
    let (mut job, _) = install_rpm("/tmp/build/codex.rpm");
    assert!(matches!(next(&mut job, Event::PathChecked(true)), Action::FindTool(Tool::Dnf)));
    assert!(matches!(next(&mut job, Event::ToolFound(false)), Action::FindTool(Tool::Dnf5)));
    assert!(matches!(next(&mut job, Event::ToolFound(true)), Action::LocateTool(Tool::Dnf)));
    let install = expect_attached(next(&mut job, Event::ToolLocated("dnf".into())));
    assert_eq!(install.args, vec!["install", "-y", "./codex.rpm"]);
    assert_eq!(
        last(&mut job, Event::Ran(not_started())).unwrap_err().message(),
        "dnf install failed"
    );

    let (mut job, _) = install_rpm("/tmp/codex.rpm");
    next(&mut job, Event::PathChecked(true));
    next(&mut job, Event::ToolFound(false));
    let install = expect_attached(next(&mut job, Event::ToolFound(false)));
    assert!(matches!(install.program, Program::Tool(Tool::Rpm)));
    assert_eq!(install.args, vec!["-Uvh", "/tmp/codex.rpm"]);
    assert!(last(&mut job, Event::Ran(ok_output(b""))).is_ok());
}

#[test]
fn pacman_install_checks_the_installed_release() {
    let path = "/tmp/codex-desktop-1.2.0-2-x86_64.pkg.tar.zst";
    let (mut job, _) = install_pacman(path);
    let query = expect_run(next(&mut job, Event::PathChecked(true)));
    assert_eq!(query.args, vec!["-Q", "codex-desktop"]);
    let again = expect_run(next(&mut job, Event::Ran(ok_output(b"codex-desktop 1.2.0-1\n"))));
    assert_eq!(again.args, vec!["-Q", "codex-desktop"]);
    let install = expect_attached(next(&mut job, Event::Ran(ok_output(b"codex-desktop-1.2.0-1\n"))));
    assert_eq!(install.args, vec!["-U", path]);
    assert!(last(&mut job, Event::Ran(ok_output(b""))).is_ok());
}

#[test]
fn pacman_install_refuses_without_a_release_to_compare() {
    let (mut job, _) = install_pacman("/tmp/codex-1-any.pkg.tar.zst");
    next(&mut job, Event::PathChecked(true));
    let e = last(&mut job, Event::Ran(ok_output(b"codex 0.9-1\n"))).unwrap_err();
    assert_eq!(e.message(), "Refusing to install non-newer package version codex-1 over installed version codex 0.9-1");
}

#[test]
fn pacman_install_of_a_fresh_system_goes_straight_to_pacman() {
    let (mut job, _) = install_pacman("/tmp/whatever.zip");
    next(&mut job, Event::PathChecked(true));
    let install = expect_attached(next(&mut job, Event::Ran(failed_output())));
    assert!(matches!(install.program, Program::Tool(Tool::Pacman)));
    let e = last(&mut job, Event::Ran(failed_output())).unwrap_err();
    assert_eq!(e.message(), "pacman -U failed");
}

#[test]
fn pacman_install_reports_a_bad_file_name() {
    let (mut job, _) = install_pacman("/tmp/whatever.zip");
    next(&mut job, Event::PathChecked(true));
    let e = last(&mut job, Event::Ran(ok_output(b"codex-desktop 1-1"))).unwrap_err();
    assert_eq!(e.message(), "Not a valid pacman package filename");
}

#[test]
fn of_two_pacman_packages_at_most_one_is_newer() {
    let pairs = [("1.0", "1", "x-1.0-1"), ("1.0", "2", "x-1.0-2"), ("1.1", "1", "x-1.1-1"), ("0.9", "9", "x-0.9-9")];
    for (v1, r1, report1) in pairs {
        for (v2, r2, report2) in pairs {
            assert!(!(newer_than_pacman_report(v1, r1, report2) && newer_than_pacman_report(v2, r2, report1)));
        }
        assert!(!newer_than_pacman_report(v1, r1, report1));
    }
}

#[test]
fn a_comparison_that_cannot_start_keeps_the_reason() {
    let (mut job, _) = install_deb("/tmp/codex.deb");
    next(&mut job, Event::PathChecked(true));
    next(&mut job, Event::ToolFound(false));
    next(&mut job, Event::ToolFound(true));
    next(&mut job, Event::Ran(ok_output(b"2.0")));
    let compare = expect_attached(next(&mut job, Event::Ran(ok_output(b"3.0"))));
    assert!(matches!(compare.program, Program::Tool(Tool::Dpkg)));
    let e = last(&mut job, Event::Ran(not_started())).unwrap_err();
    assert_eq!(e.message(), "Failed to compare Debian package versions");
    assert_eq!(e.causes(), vec!["No such file or directory (os error 2)"]);
}

#[test]
fn events_that_were_not_asked_for_are_ignored() {
    let (mut job, _) = install_deb("/tmp/codex.deb");
    assert!(!job.accepts(&Event::ToolFound(true)));
    assert!(matches!(job.advance(Event::ToolFound(true)), InstallStep::Ignored));
    assert!(job.accepts(&Event::PathChecked(true)));
    assert!(matches!(job.advance(Event::PathChecked(true)), InstallStep::Next(Action::FindTool(Tool::Pacman))));
    assert!(matches!(job.advance(Event::Ran(not_started())), InstallStep::Ignored));

    let (mut query, _) = VersionQuery::for_kind(PackageKind::Deb);
    assert!(matches!(query.advance(Event::ToolFound(true)), QueryStep::Ignored));
    assert!(matches!(query.advance(Event::Ran(failed_output())), QueryStep::Finished(_)));
    assert!(matches!(query.advance(Event::Ran(failed_output())), QueryStep::Ignored));
}

#[test]
fn a_pacman_report_of_the_same_release_is_not_newer() {
    let outcome = ok_output(b"codex-desktop-1.0.0-1\n");
    assert!(!is_version_newer_pacman("1.0.0", "1", outcome).unwrap());
    let outcome = ok_output(b"codex-desktop 1.0.0-1\n");
    assert!(!is_version_newer_pacman("1.0.0", "1", outcome).unwrap());
}
