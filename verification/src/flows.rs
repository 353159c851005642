//! What each step of the installation flows does, stated with the commands
//! and answers written out: which tool is asked, with which arguments, and
//! which installer runs.

use vstd::prelude::*;
use vstd::utf8::{decode_utf8, valid_utf8};
use crate::command::{
    deb_version_command, install_in_parent_command, installed_version_command, pkexec_invocation, InvocationView, ProgramView,
    RunOutcomeView,
};
use crate::error::{error_causes, error_message, InstallErrorView, Installer};
use crate::job::{
    install_step, query_next_stage, query_step, ActionView, EventView, InstallStepView, InstallationView, QueryStage,
    QueryStepView, Stage,
};
use crate::kind::{detected_kind, kind_of_name, kind_of_path, name_extension, PackageKind};
use crate::laws::{dash_free, dash_join, lemma_dash_join};
use crate::stdlib::{path_file_name, path_parent, utf8_error_text};
use crate::text::{
    has_suffix, is_white_space, last_index_of, leading_white_space, lemma_last_index_bounds,
    lemma_last_index_of, text_less, trailing_white_space, trimmed,
};
use crate::tools::{resolved_program, tool_candidates, tool_name, Tool};
use crate::version::{
    deb_version_result, installed_version_text, pacman_newer_result, pacman_newer_than,
    pacman_path_version, reported_version, version_release,
};

verus! {

/// The command `tool args...`, run in the updater's own directory.
pub open spec fn plain(tool: Tool, args: Seq<Seq<char>>) -> InvocationView {
    InvocationView { program: ProgramView::Tool(tool), args, current_dir: None }
}

/// The installed version is asked of each kind's own package manager:
/// `dpkg-query -W -f=${Version} codex-desktop` on Debian,
/// `rpm -q --queryformat %{VERSION}-%{RELEASE} codex-desktop` on RPM
/// systems, `pacman -Q codex-desktop` on pacman systems.
pub proof fn lemma_version_query_uses_own_manager()
    ensures
        installed_version_command(PackageKind::Deb) == plain(
            Tool::DpkgQuery,
            seq!["-W"@, "-f=${Version}"@, "codex-desktop"@],
        ),
        installed_version_command(PackageKind::Rpm) == plain(
            Tool::Rpm,
            seq!["-q"@, "--queryformat"@, "%{VERSION}-%{RELEASE}"@, "codex-desktop"@],
        ),
        installed_version_command(PackageKind::Pacman) == plain(
            Tool::Pacman,
            seq!["-Q"@, "codex-desktop"@],
        ),
{
}

/// The package manager that detection finds first is the one asked for the
/// installed version: pacman when found, else dpkg (through dpkg-query) when
/// found, else rpm when found, else dpkg-query; and `detect` picks the kind
/// in the same order.
pub proof fn lemma_detection_order_and_query(pacman: bool, dpkg: bool, rpm: bool)
    ensures
        query_step(QueryStage::ProbePacman, EventView::ToolFound(true)) == QueryStepView::Next(
            ActionView::Run(plain(Tool::Pacman, seq!["-Q"@, "codex-desktop"@])),
        ),
        query_step(QueryStage::ProbePacman, EventView::ToolFound(false)) == QueryStepView::Next(
            ActionView::FindTool(Tool::Dpkg),
        ),
        query_step(QueryStage::ProbeDpkg, EventView::ToolFound(true)) == QueryStepView::Next(
            ActionView::Run(plain(Tool::DpkgQuery, seq!["-W"@, "-f=${Version}"@, "codex-desktop"@])),
        ),
        query_step(QueryStage::ProbeDpkg, EventView::ToolFound(false)) == QueryStepView::Next(
            ActionView::FindTool(Tool::Rpm),
        ),
        query_step(QueryStage::ProbeRpm, EventView::ToolFound(true)) == QueryStepView::Next(
            ActionView::Run(
                plain(
                    Tool::Rpm,
                    seq!["-q"@, "--queryformat"@, "%{VERSION}-%{RELEASE}"@, "codex-desktop"@],
                ),
            ),
        ),
        query_step(QueryStage::ProbeRpm, EventView::ToolFound(false)) == QueryStepView::Next(
            ActionView::Run(plain(Tool::DpkgQuery, seq!["-W"@, "-f=${Version}"@, "codex-desktop"@])),
        ),
        pacman ==> detected_kind(pacman, dpkg, rpm) == PackageKind::Pacman,
        !pacman && dpkg ==> detected_kind(pacman, dpkg, rpm) == PackageKind::Deb,
        !pacman && !dpkg && rpm ==> detected_kind(pacman, dpkg, rpm) == PackageKind::Rpm,
        !pacman && !dpkg && !rpm ==> detected_kind(pacman, dpkg, rpm) == PackageKind::Deb,
{
}

/// A file whose name ends in `.rpm` (after at least one other character)
/// is an RPM package, whatever else the name holds; one ending in `.deb` is
/// a Debian package.
pub proof fn lemma_rpm_extension_decides(stem: Seq<char>)
    requires
        stem.len() > 0,
    ensures
        kind_of_name(stem + ".rpm"@) == PackageKind::Rpm,
        kind_of_name(stem + ".deb"@) == PackageKind::Deb,
{
    reveal_strlit(".rpm");
    reveal_strlit("rpm");
    reveal_strlit(".deb");
    reveal_strlit("deb");
    let name = stem + ".rpm"@;
    assert(name[stem.len() as int] == '.');
    assert forall|k: int| stem.len() < k < name.len() implies name[k] != '.' by {
        assert(name[k] == ".rpm"@[k - stem.len()]);
    }
    lemma_last_index_of(name, '.', stem.len() as int);
    assert(name.skip(stem.len() as int + 1) =~= "rpm"@);
    let other = stem + ".deb"@;
    assert(other[stem.len() as int] == '.');
    assert forall|k: int| stem.len() < k < other.len() implies other[k] != '.' by {
        assert(other[k] == ".deb"@[k - stem.len()]);
    }
    lemma_last_index_of(other, '.', stem.len() as int);
    assert(other.skip(stem.len() as int + 1) =~= "deb"@);
    assert(other.skip(stem.len() as int + 1)[0] != "rpm"@[0]);
}

/// A path whose file name ends in `.rpm` is an RPM package.
pub proof fn lemma_rpm_path(path: Seq<char>, stem: Seq<char>)
    requires
        stem.len() > 0,
        path_file_name(path) == Some(stem + ".rpm"@),
    ensures
        kind_of_path(path) == PackageKind::Rpm,
{
    lemma_rpm_extension_decides(stem);
}

/// Steps of an RPM installation: once the file is found dnf is looked for;
/// when dnf is found it is resolved and runs `install -y ./<file>` from the
/// package's directory; else dnf5 is looked for, and dnf is resolved when
/// it is found; only when neither is found does `rpm -Uvh <path>` run.
pub proof fn lemma_rpm_flow(m: InstallationView, program: Seq<char>, parent: Seq<char>, file: Seq<char>)
    requires
        m.kind == PackageKind::Rpm,
    ensures
        m.stage == Stage::CheckFile ==> install_step(m, EventView::PathChecked(true)).1
            == InstallStepView::Next(ActionView::FindTool(Tool::Dnf)),
        m.stage == Stage::FindDnf ==> {
            &&& install_step(m, EventView::ToolFound(true)).1 == InstallStepView::Next(
                ActionView::LocateTool(Tool::Dnf),
            )
            &&& install_step(m, EventView::ToolFound(true)).0.stage == Stage::LocateDnf
            &&& install_step(m, EventView::ToolFound(false)).1 == InstallStepView::Next(
                ActionView::FindTool(Tool::Dnf5),
            )
        },
        m.stage == Stage::FindDnf5 ==> {
            &&& install_step(m, EventView::ToolFound(true)).1 == InstallStepView::Next(
                ActionView::LocateTool(Tool::Dnf),
            )
            &&& install_step(m, EventView::ToolFound(true)).0.stage == Stage::LocateDnf
            &&& install_step(m, EventView::ToolFound(false)).1 == InstallStepView::Next(
                ActionView::RunAttached(plain(Tool::Rpm, seq!["-Uvh"@, m.path])),
            )
            &&& install_step(m, EventView::ToolFound(false)).0.installer == Installer::Rpm
        },
        (m.stage == Stage::LocateDnf && path_parent(m.path) == Some(parent) && path_file_name(
            m.path,
        ) == Some(file)) ==> {
            &&& install_step(m, EventView::ToolLocated(program)).1 == InstallStepView::Next(
                ActionView::RunAttached(
                    InvocationView {
                        program: ProgramView::Named(program),
                        args: seq!["install"@, "-y"@, "./"@ + file],
                        current_dir: Some(parent),
                    },
                ),
            )
            &&& install_step(m, EventView::ToolLocated(program)).0.installer == Installer::Dnf
            &&& install_step(m, EventView::ToolLocated(program)).0.stage == Stage::Install
        },
{
}

/// Steps of a Debian installation: once the file is found, the installed
/// version is searched for by detection; when a version other than
/// "unknown" is reported, `dpkg-deb -f <path> Version` reads the package's
/// version; a readable version `c` is compared with
/// `dpkg --compare-versions c gt <installed>` (attached); when dpkg says
/// newer, apt is looked for; apt, when found, is resolved and runs
/// `install -y ./<file>` from the package's directory; else `dpkg -i <path>`
/// runs.
pub proof fn lemma_deb_flow(
    m: InstallationView,
    event: EventView,
    installed: Seq<char>,
    stdout: Seq<u8>,
    status: Seq<char>,
    program: Seq<char>,
    parent: Seq<char>,
    file: Seq<char>,
)
    requires
        m.kind == PackageKind::Deb,
    ensures
        m.stage == Stage::CheckFile ==> install_step(m, EventView::PathChecked(true)).1
            == InstallStepView::Next(ActionView::FindTool(Tool::Pacman)),
        (m.stage == Stage::QueryInstalled && query_step(m.query, event) == QueryStepView::Finished(
            installed,
        ) && installed != "unknown"@) ==> {
            &&& install_step(m, event).1 == InstallStepView::Next(
                ActionView::Run(plain(Tool::DpkgDeb, seq!["-f"@, m.path, "Version"@])),
            )
            &&& install_step(m, event).0.stage == Stage::ReadCandidate
            &&& install_step(m, event).0.installed == installed
        },
        (m.stage == Stage::ReadCandidate && valid_utf8(stdout) && trimmed(decode_utf8(stdout)).len()
            > 0) ==> {
            let ran = EventView::Ran(RunOutcomeView::Exited { success: true, status, stdout });
            &&& install_step(m, ran).1 == InstallStepView::Next(
                ActionView::RunAttached(
                    plain(
                        Tool::Dpkg,
                        seq!["--compare-versions"@, trimmed(decode_utf8(stdout)), "gt"@, m.installed],
                    ),
                ),
            )
            &&& install_step(m, ran).0.candidate == trimmed(decode_utf8(stdout))
        },
        m.stage == Stage::CompareVersions ==> install_step(
            m,
            EventView::Ran(RunOutcomeView::Exited { success: true, status, stdout }),
        ).1 == InstallStepView::Next(ActionView::FindTool(Tool::Apt)),
        m.stage == Stage::FindApt ==> {
            &&& install_step(m, EventView::ToolFound(true)).1 == InstallStepView::Next(
                ActionView::LocateTool(Tool::Apt),
            )
            &&& install_step(m, EventView::ToolFound(false)).1 == InstallStepView::Next(
                ActionView::RunAttached(plain(Tool::Dpkg, seq!["-i"@, m.path])),
            )
            &&& install_step(m, EventView::ToolFound(false)).0.installer == Installer::Dpkg
        },
        (m.stage == Stage::LocateApt && path_parent(m.path) == Some(parent) && path_file_name(
            m.path,
        ) == Some(file)) ==> {
            &&& install_step(m, EventView::ToolLocated(program)).1 == InstallStepView::Next(
                ActionView::RunAttached(
                    InvocationView {
                        program: ProgramView::Named(program),
                        args: seq!["install"@, "-y"@, "./"@ + file],
                        current_dir: Some(parent),
                    },
                ),
            )
            &&& install_step(m, EventView::ToolLocated(program)).0.installer == Installer::Apt
        },
        deb_version_command(m.path) == plain(Tool::DpkgDeb, seq!["-f"@, m.path, "Version"@]),
{
}

/// Steps of a pacman installation: once the file is found, pacman is asked
/// for the installed package; when the package is newer, `pacman -U <path>`
/// runs.
pub proof fn lemma_pacman_flow(m: InstallationView, outcome: RunOutcomeView)
    requires
        m.kind == PackageKind::Pacman,
    ensures
        m.stage == Stage::CheckFile ==> install_step(m, EventView::PathChecked(true)).1
            == InstallStepView::Next(
            ActionView::Run(plain(Tool::Pacman, seq!["-Q"@, "codex-desktop"@])),
        ),
        (m.stage == Stage::QueryPacman && pacman_newer_result(m.version, m.release, outcome)
            == Ok::<bool, InstallErrorView>(true)) ==> {
            &&& install_step(m, EventView::Ran(outcome)).1 == InstallStepView::Next(
                ActionView::RunAttached(plain(Tool::Pacman, seq!["-U"@, m.path])),
            )
            &&& install_step(m, EventView::Ran(outcome)).0.installer == Installer::Pacman
        },
{
}

/// Every installation ends by how its installer ran: installed when it
/// succeeded, the installer's failure with its exit status otherwise, and
/// a missing package file is reported as such.
pub proof fn lemma_installation_outcome(m: InstallationView, status: Seq<char>, stdout: Seq<u8>)
    ensures
        m.stage == Stage::Install ==> {
            &&& install_step(
                m,
                EventView::Ran(RunOutcomeView::Exited { success: true, status, stdout }),
            ).1 == InstallStepView::Finished(Ok(()))
            &&& install_step(
                m,
                EventView::Ran(RunOutcomeView::Exited { success: false, status, stdout }),
            ).1 == InstallStepView::Finished(
                Err(InstallErrorView::InstallerFailed { installer: m.installer, status }),
            )
        },
        m.stage == Stage::CheckFile ==> install_step(m, EventView::PathChecked(false)).1
            == InstallStepView::Finished(
            Err(InstallErrorView::PackageNotFound { kind: m.kind, path: m.path }),
        ),
{
}

/// A pacman candidate whose version differs from the installed one is newer
/// exactly when its version comes after the installed version, whatever
/// the releases; with the same version the releases decide. Here the
/// report is `<name>-<version>-<release>` with no `-` in version and
/// release.
pub proof fn lemma_pacman_version_decides(
    version: Seq<char>,
    release: Seq<char>,
    name: Seq<char>,
    installed_version: Seq<char>,
    installed_release: Seq<char>,
)
    requires
        dash_free(installed_version),
        dash_free(installed_release),
    ensures
        ({
            let report = dash_join(dash_join(name, installed_version), installed_release);
            &&& version != installed_version ==> pacman_newer_than(version, release, report)
                == text_less(installed_version, version)
            &&& version == installed_version ==> pacman_newer_than(version, release, report)
                == text_less(installed_release, release)
        }),
{
    let nv = dash_join(name, installed_version);
    let report = dash_join(nv, installed_release);
    lemma_dash_join(nv, installed_release);
    lemma_dash_join(name, installed_version);
    assert(version_release(report) == Some((installed_version, installed_release)));
}


/// The privileged command is `pkexec <updater> <subcommand> --path <package>`,
/// where the updater is the system-wide one when it exists and the running
/// one otherwise, and the subcommand installs the package's kind: an RPM
/// file name gets `install-rpm`, every other file `install-deb`.
pub proof fn lemma_pkexec_command(exists: bool, current_exe: Seq<char>, package: Seq<char>, stem: Seq<char>)
    ensures
        pkexec_invocation(exists, current_exe, package).program == ProgramView::Named("pkexec"@),
        pkexec_invocation(exists, current_exe, package).current_dir is None,
        pkexec_invocation(exists, current_exe, package).args.len() == 4,
        pkexec_invocation(exists, current_exe, package).args[0] == (if exists {
            "/usr/bin/codex-update-manager"@
        } else {
            current_exe
        }),
        pkexec_invocation(exists, current_exe, package).args[2] == "--path"@,
        pkexec_invocation(exists, current_exe, package).args[3] == package,
        (stem.len() > 0 && path_file_name(package) == Some(stem + ".rpm"@)) ==> pkexec_invocation(
            exists,
            current_exe,
            package,
        ).args[1] == "install-rpm"@,
        kind_of_path(package) == PackageKind::Deb ==> pkexec_invocation(
            exists,
            current_exe,
            package,
        ).args[1] == "install-deb"@,
        path_file_name(package) is None ==> pkexec_invocation(exists, current_exe, package).args[1]
            == "install-deb"@,
{
    if stem.len() > 0 && path_file_name(package) == Some(stem + ".rpm"@) {
        lemma_rpm_path(package, stem);
    }
}

/// A file name is an RPM package exactly when it is some non-empty stem
/// followed by `.rpm`.
pub proof fn lemma_rpm_name_shape(name: Seq<char>)
    ensures
        kind_of_name(name) == PackageKind::Rpm <==> (name.len() > 4 && has_suffix(name, ".rpm"@)),
{
    reveal_strlit(".rpm");
    reveal_strlit("rpm");
    if name.len() > 4 && has_suffix(name, ".rpm"@) {
        let stem = name.take(name.len() - 4);
        assert(name =~= stem + ".rpm"@);
        lemma_rpm_extension_decides(stem);
    }
    if kind_of_name(name) == PackageKind::Rpm {
        let i = last_index_of(name, '.');
        lemma_last_index_bounds(name, '.');
        assert(name_extension(name) == Some("rpm"@));
        assert(i > 0);
        assert(name.skip(i + 1) == "rpm"@);
        assert(name.skip(i + 1).len() == 3);
        assert(name.len() == i + 4);
        assert(name.skip(name.len() - 4) =~= ".rpm"@) by {
            assert forall|k: int| 0 <= k < 4 implies name.skip(name.len() - 4)[k] == ".rpm"@[k] by {
                if k > 0 {
                    assert(name.skip(name.len() - 4)[k] == name.skip(i + 1)[k - 1]);
                }
            }
        }
    }
}

/// A tool is resolved to the first of its places that holds a file, and to
/// its bare name when none does.
pub proof fn lemma_program_resolution(candidates: Seq<Seq<char>>, present: Seq<bool>, fallback: Seq<char>, i: int)
    requires
        present.len() == candidates.len(),
    ensures
        (0 <= i < candidates.len() && present[i] && forall|j: int| 0 <= j < i ==> !present[j])
            ==> resolved_program(candidates, present, fallback) == candidates[i],
        (forall|j: int| 0 <= j < present.len() ==> !present[j]) ==> resolved_program(
            candidates,
            present,
            fallback,
        ) == fallback,
    decreases candidates.len(),
{
    if candidates.len() > 0 {
        let ps = present.drop_first();
        if 0 < i < candidates.len() && present[i] && (forall|j: int| 0 <= j < i ==> !present[j]) {
            assert(!present[0]);
            assert forall|j: int| 0 <= j < i - 1 implies !ps[j] by {
                assert(ps[j] == present[j + 1]);
                assert(!present[j + 1]);
            }
            assert(ps[i - 1] == present[i]);
            assert(candidates.drop_first()[i - 1] == candidates[i]);
        }
        if forall|j: int| 0 <= j < present.len() ==> !present[j] {
            assert(!present[0]);
            assert forall|j: int| 0 <= j < ps.len() implies !ps[j] by {
                assert(ps[j] == present[j + 1]);
                assert(!present[j + 1]);
            }
        }
        lemma_program_resolution(candidates.drop_first(), ps, fallback, i - 1);
    }
}

/// Each tool is looked for at `/usr/bin/<name>` and then `/bin/<name>`;
/// dnf and dnf5 both at the places of dnf and of dnf5.
pub proof fn lemma_tool_places(tool: Tool)
    ensures
        tool != Tool::Dnf && tool != Tool::Dnf5 ==> tool_candidates(tool) == seq![
            "/usr/bin/"@ + tool_name(tool),
            "/bin/"@ + tool_name(tool),
        ],
        tool == Tool::Dnf || tool == Tool::Dnf5 ==> tool_candidates(tool) == seq![
            "/usr/bin/"@ + "dnf"@,
            "/bin/"@ + "dnf"@,
            "/usr/bin/"@ + "dnf5"@,
            "/bin/"@ + "dnf5"@,
        ],
        tool == Tool::Dnf ==> tool_name(tool) == "dnf"@,
        tool == Tool::Dnf5 ==> tool_name(tool) == "dnf5"@,
{
    reveal_strlit("/usr/bin/");
    reveal_strlit("/bin/");
    reveal_strlit("apt");
    reveal_strlit("dnf");
    reveal_strlit("dnf5");
    reveal_strlit("dpkg");
    reveal_strlit("dpkg-deb");
    reveal_strlit("dpkg-query");
    reveal_strlit("rpm");
    reveal_strlit("pacman");
    reveal_strlit("/usr/bin/apt");
    reveal_strlit("/bin/apt");
    reveal_strlit("/usr/bin/dnf");
    reveal_strlit("/bin/dnf");
    reveal_strlit("/usr/bin/dnf5");
    reveal_strlit("/bin/dnf5");
    reveal_strlit("/usr/bin/dpkg");
    reveal_strlit("/bin/dpkg");
    reveal_strlit("/usr/bin/dpkg-deb");
    reveal_strlit("/bin/dpkg-deb");
    reveal_strlit("/usr/bin/dpkg-query");
    reveal_strlit("/bin/dpkg-query");
    reveal_strlit("/usr/bin/rpm");
    reveal_strlit("/bin/rpm");
    reveal_strlit("/usr/bin/pacman");
    reveal_strlit("/bin/pacman");
    match tool {
        Tool::Apt => {
            assert("/usr/bin/apt"@ =~= "/usr/bin/"@ + "apt"@);
            assert("/bin/apt"@ =~= "/bin/"@ + "apt"@);
        },
        Tool::Dnf | Tool::Dnf5 => {
            assert("/usr/bin/dnf"@ =~= "/usr/bin/"@ + "dnf"@);
            assert("/bin/dnf"@ =~= "/bin/"@ + "dnf"@);
            assert("/usr/bin/dnf5"@ =~= "/usr/bin/"@ + "dnf5"@);
            assert("/bin/dnf5"@ =~= "/bin/"@ + "dnf5"@);
        },
        Tool::Dpkg => {
            assert("/usr/bin/dpkg"@ =~= "/usr/bin/"@ + "dpkg"@);
            assert("/bin/dpkg"@ =~= "/bin/"@ + "dpkg"@);
        },
        Tool::DpkgDeb => {
            assert("/usr/bin/dpkg-deb"@ =~= "/usr/bin/"@ + "dpkg-deb"@);
            assert("/bin/dpkg-deb"@ =~= "/bin/"@ + "dpkg-deb"@);
        },
        Tool::DpkgQuery => {
            assert("/usr/bin/dpkg-query"@ =~= "/usr/bin/"@ + "dpkg-query"@);
            assert("/bin/dpkg-query"@ =~= "/bin/"@ + "dpkg-query"@);
        },
        Tool::Rpm => {
            assert("/usr/bin/rpm"@ =~= "/usr/bin/"@ + "rpm"@);
            assert("/bin/rpm"@ =~= "/bin/"@ + "rpm"@);
        },
        Tool::Pacman => {
            assert("/usr/bin/pacman"@ =~= "/usr/bin/"@ + "pacman"@);
            assert("/bin/pacman"@ =~= "/bin/"@ + "pacman"@);
        },
    }
}

/// Reading a Debian package's version: an error when dpkg-deb could not be
/// started (with the system's reason), when it failed (naming the package),
/// when it printed something other than UTF-8 (with the decoder's reason),
/// or only whitespace (naming the package); otherwise the printed version
/// without surrounding whitespace.
pub proof fn lemma_deb_version_reading(path: Seq<char>, reason: Seq<char>, status: Seq<char>, stdout: Seq<u8>)
    ensures
        deb_version_result(path, RunOutcomeView::NotStarted { reason }) == Err::<
            Seq<char>,
            InstallErrorView,
        >(InstallErrorView::MetadataUnavailable { reason }),
        deb_version_result(path, RunOutcomeView::Exited { success: false, status, stdout })
            == Err::<Seq<char>, InstallErrorView>(InstallErrorView::VersionUnreadable { path }),
        !valid_utf8(stdout) ==> deb_version_result(
            path,
            RunOutcomeView::Exited { success: true, status, stdout },
        ) == Err::<Seq<char>, InstallErrorView>(
            InstallErrorView::VersionNotUtf8 { reason: utf8_error_text(stdout) },
        ),
        (valid_utf8(stdout) && trimmed(decode_utf8(stdout)).len() == 0) ==> deb_version_result(
            path,
            RunOutcomeView::Exited { success: true, status, stdout },
        ) == Err::<Seq<char>, InstallErrorView>(InstallErrorView::VersionEmpty { path }),
        (valid_utf8(stdout) && trimmed(decode_utf8(stdout)).len() > 0) ==> deb_version_result(
            path,
            RunOutcomeView::Exited { success: true, status, stdout },
        ) == Ok::<Seq<char>, InstallErrorView>(trimmed(decode_utf8(stdout))),
{
}

/// The installed version that a query reports: when the package manager ran
/// and succeeded with valid UTF-8 output, that output without surrounding
/// whitespace, or "unknown" when nothing is left; "unknown" when it failed
/// or could not be started. Output that is already trimmed is reported as
/// it stands.
pub proof fn lemma_reported_version(reason: Seq<char>, status: Seq<char>, stdout: Seq<u8>, text: Seq<char>)
    ensures
        reported_version(RunOutcomeView::NotStarted { reason }) == "unknown"@,
        reported_version(RunOutcomeView::Exited { success: false, status, stdout }) == "unknown"@,
        (valid_utf8(stdout) && trimmed(decode_utf8(stdout)).len() > 0) ==> reported_version(
            RunOutcomeView::Exited { success: true, status, stdout },
        ) == trimmed(decode_utf8(stdout)),
        (valid_utf8(stdout) && trimmed(decode_utf8(stdout)).len() == 0) ==> reported_version(
            RunOutcomeView::Exited { success: true, status, stdout },
        ) == "unknown"@,
        (text.len() > 0 && !is_white_space(text[0]) && !is_white_space(text.last()))
            ==> installed_version_text(text) == text,
{
    if text.len() > 0 && !is_white_space(text[0]) && !is_white_space(text.last()) {
        assert(leading_white_space(text) == 0);
        assert(text.skip(0) =~= text);
        assert(trailing_white_space(text) == 0);
        assert(trimmed(text) =~= text);
    }
}

/// Asking pacman whether the candidate is newer: an error (with the
/// system's reason) when pacman could not be started, newer when the query
/// failed, and otherwise decided by what pacman printed.
pub proof fn lemma_pacman_newer_result(version: Seq<char>, release: Seq<char>, reason: Seq<char>, status: Seq<char>, stdout: Seq<u8>)
    ensures
        pacman_newer_result(version, release, RunOutcomeView::NotStarted { reason }) == Err::<
            bool,
            InstallErrorView,
        >(InstallErrorView::PacmanQueryUnavailable { reason }),
        pacman_newer_result(version, release, RunOutcomeView::Exited { success: false, status, stdout })
            == Ok::<bool, InstallErrorView>(true),
        valid_utf8(stdout) ==> pacman_newer_result(
            version,
            release,
            RunOutcomeView::Exited { success: true, status, stdout },
        ) == Ok::<bool, InstallErrorView>(
            pacman_newer_than(version, release, trimmed(decode_utf8(stdout))),
        ),
        (version_release(trimmed(decode_utf8(stdout))) is None && valid_utf8(stdout))
            ==> pacman_newer_result(
            version,
            release,
            RunOutcomeView::Exited { success: true, status, stdout },
        ) == Ok::<bool, InstallErrorView>(true),
{
}

/// Where an installation goes once the installed version is known: with
/// "unknown", a Debian package goes to looking for apt and a pacman package
/// straight to `pacman -U <path>`; a pacman package whose file name gives a
/// version without release parts is refused; one that gives version and
/// release asks pacman for the installed package.
pub proof fn lemma_after_installed_version(m: InstallationView, event: EventView, installed: Seq<char>, candidate: Seq<char>)
    requires
        m.stage == Stage::QueryInstalled,
        query_step(m.query, event) == QueryStepView::Finished(installed),
    ensures
        (installed == "unknown"@ && m.kind == PackageKind::Deb) ==> install_step(m, event).1
            == InstallStepView::Next(ActionView::FindTool(Tool::Apt)),
        (installed == "unknown"@ && m.kind == PackageKind::Pacman) ==> install_step(m, event).1
            == InstallStepView::Next(ActionView::RunAttached(plain(Tool::Pacman, seq!["-U"@, m.path]))),
        (installed != "unknown"@ && m.kind == PackageKind::Pacman && pacman_path_version(m.path)
            == Ok::<Seq<char>, InstallErrorView>(candidate) && version_release(candidate) is None)
            ==> install_step(m, event).1 == InstallStepView::Finished(
            Err(InstallErrorView::NotNewer { candidate, installed }),
        ),
        (installed != "unknown"@ && m.kind == PackageKind::Pacman && pacman_path_version(m.path)
            == Ok::<Seq<char>, InstallErrorView>(candidate) && version_release(candidate) is Some)
            ==> {
            &&& install_step(m, event).1 == InstallStepView::Next(
                ActionView::Run(plain(Tool::Pacman, seq!["-Q"@, "codex-desktop"@])),
            )
            &&& install_step(m, event).0.version == version_release(candidate).unwrap().0
            &&& install_step(m, event).0.release == version_release(candidate).unwrap().1
            &&& install_step(m, event).0.candidate == candidate
        },
{
}

/// Installer and comparison failures: a comparison that cannot be started
/// and an installer that cannot be started end the installation with the
/// system's reason.
pub proof fn lemma_start_failures(m: InstallationView, reason: Seq<char>)
    ensures
        m.stage == Stage::CompareVersions ==> install_step(
            m,
            EventView::Ran(RunOutcomeView::NotStarted { reason }),
        ).1 == InstallStepView::Finished(Err(InstallErrorView::ComparisonUnavailable { reason })),
        m.stage == Stage::Install ==> install_step(
            m,
            EventView::Ran(RunOutcomeView::NotStarted { reason }),
        ).1 == InstallStepView::Finished(
            Err(InstallErrorView::InstallerNotStarted { installer: m.installer, reason }),
        ),
{
}


/// Once the package manager answered, the search gives the version it
/// reports and is finished.
pub proof fn lemma_query_finishes(kind: PackageKind, outcome: RunOutcomeView)
    ensures
        query_step(QueryStage::Query(kind), EventView::Ran(outcome)) == QueryStepView::Finished(
            reported_version(outcome),
        ),
        query_next_stage(QueryStage::Query(kind), EventView::Ran(outcome)) == QueryStage::Done,
{
}

/// The messages errors are reported with, and what lies beneath them.
pub proof fn lemma_error_messages(
    path: Seq<char>,
    candidate: Seq<char>,
    installed: Seq<char>,
    name: Seq<char>,
    reason: Seq<char>,
    status: Seq<char>,
)
    ensures
        error_message(InstallErrorView::PackageNotFound { kind: PackageKind::Deb, path })
            == "Debian package not found: "@ + path,
        error_message(InstallErrorView::PackageNotFound { kind: PackageKind::Rpm, path })
            == "RPM package not found: "@ + path,
        error_message(InstallErrorView::PackageNotFound { kind: PackageKind::Pacman, path })
            == "Pacman package not found: "@ + path,
        error_message(InstallErrorView::MetadataUnavailable { reason })
            == "Failed to inspect Debian package metadata"@,
        error_causes(InstallErrorView::MetadataUnavailable { reason }) == seq![reason],
        error_message(InstallErrorView::VersionUnreadable { path })
            == "dpkg-deb could not read the package version from "@ + path,
        error_message(InstallErrorView::VersionNotUtf8 { reason })
            == "dpkg-deb returned a non-UTF8 package version"@,
        error_causes(InstallErrorView::VersionNotUtf8 { reason }) == seq![reason],
        error_message(InstallErrorView::VersionEmpty { path })
            == "dpkg-deb returned an empty package version for "@ + path,
        error_message(InstallErrorView::ComparisonUnavailable { reason })
            == "Failed to compare Debian package versions"@,
        error_causes(InstallErrorView::ComparisonUnavailable { reason }) == seq![reason],
        error_message(InstallErrorView::NotNewer { candidate, installed })
            == "Refusing to install non-newer package version "@ + candidate
            + " over installed version "@ + installed,
        error_message(InstallErrorView::NoParentDirectory { program_name: name }) == name
            + " package path has no parent directory"@,
        error_message(InstallErrorView::NoFileName { program_name: name }) == name
            + " package path has no file name"@,
        error_message(InstallErrorView::PackageFileNameMissing) == "Package path has no file name"@,
        error_message(InstallErrorView::NotPacmanFileName) == "Not a valid pacman package filename"@,
        error_message(InstallErrorView::UnparsableFileName { file_name: name })
            == "Could not parse package version from: "@ + name,
        error_message(InstallErrorView::PacmanQueryUnavailable { reason })
            == "Failed to query installed pacman version"@,
        error_causes(InstallErrorView::PacmanQueryUnavailable { reason }) == seq![reason],
        error_message(InstallErrorView::InstallerNotStarted { installer: Installer::Apt, reason })
            == "apt install failed"@,
        error_message(InstallErrorView::InstallerNotStarted { installer: Installer::Dpkg, reason })
            == "dpkg -i failed"@,
        error_message(InstallErrorView::InstallerNotStarted { installer: Installer::Dnf, reason })
            == "dnf install failed"@,
        error_message(InstallErrorView::InstallerNotStarted { installer: Installer::Rpm, reason })
            == "rpm -Uvh failed"@,
        error_message(InstallErrorView::InstallerNotStarted { installer: Installer::Pacman, reason })
            == "pacman -U failed"@,
        error_causes(InstallErrorView::InstallerNotStarted { installer: Installer::Apt, reason })
            == seq!["Failed to execute installation command"@, reason],
        error_message(InstallErrorView::InstallerFailed { installer: Installer::Apt, status })
            == "apt install failed"@,
        error_message(InstallErrorView::InstallerFailed { installer: Installer::Dpkg, status })
            == "dpkg -i failed"@,
        error_message(InstallErrorView::InstallerFailed { installer: Installer::Dnf, status })
            == "dnf install failed"@,
        error_message(InstallErrorView::InstallerFailed { installer: Installer::Rpm, status })
            == "rpm -Uvh failed"@,
        error_message(InstallErrorView::InstallerFailed { installer: Installer::Pacman, status })
            == "pacman -U failed"@,
        error_causes(InstallErrorView::InstallerFailed { installer: Installer::Rpm, status })
            == seq!["installation command exited with "@ + status],
{
}

/// The command that installs in the package's directory is
/// `<program> install -y ./<file name>` run from the package's parent
/// directory, named in errors by the program's file name (or "package
/// manager"); a path without parent or file name gives an error.
pub proof fn lemma_install_in_parent(program: Seq<char>, path: Seq<char>, parent: Seq<char>, file: Seq<char>, shown: Seq<char>)
    ensures
        (path_parent(path) == Some(parent) && path_file_name(path) == Some(file))
            ==> install_in_parent_command(program, path) == Ok::<InvocationView, InstallErrorView>(
            InvocationView {
                program: ProgramView::Named(program),
                args: seq!["install"@, "-y"@, "./"@ + file],
                current_dir: Some(parent),
            },
        ),
        (path_parent(path) is None && path_file_name(program) == Some(shown))
            ==> install_in_parent_command(program, path) == Err::<InvocationView, InstallErrorView>(
            InstallErrorView::NoParentDirectory { program_name: shown },
        ),
        (path_parent(path) is Some && path_file_name(path) is None && path_file_name(program)
            == Some(shown)) ==> install_in_parent_command(program, path) == Err::<
            InvocationView,
            InstallErrorView,
        >(InstallErrorView::NoFileName { program_name: shown }),
        (path_parent(path) is None && path_file_name(program) is None)
            ==> install_in_parent_command(program, path) == Err::<InvocationView, InstallErrorView>(
            InstallErrorView::NoParentDirectory { program_name: "package manager"@ },
        ),
{
}

} // verus!
