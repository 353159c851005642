//! The commands that the updater runs: version queries, version
//! comparisons, installations and the privileged re-run of the updater.

use vstd::prelude::*;
use crate::error::{InstallError, InstallErrorView};
use crate::kind::{kind_of_path, PackageKind};
use crate::stdlib::{file_name_of, parent_of, path_file_name, path_parent};
use crate::text::string_of;
use crate::tools::Tool;

verus! {

/// The program that a command starts.
#[derive(Debug)]
pub enum Program {
    /// A tool, resolved to a program when the command is started.
    Tool(Tool),
    /// A program given by its path or bare name.
    Named(String),
}

/// A [`Program`] with its name as a character sequence.
pub enum ProgramView {
    Tool(Tool),
    Named(Seq<char>),
}

/// A command to run: the program, its arguments, and the directory to run
/// it in (the updater's own when none is given).
#[derive(Debug)]
pub struct Invocation {
    pub program: Program,
    pub args: Vec<String>,
    pub current_dir: Option<String>,
}

/// An [`Invocation`] with its texts as character sequences.
pub struct InvocationView {
    pub program: ProgramView,
    pub args: Seq<Seq<char>>,
    pub current_dir: Option<Seq<char>>,
}

impl View for Program {
    type V = ProgramView;

    open spec fn view(&self) -> ProgramView {
        match self {
            Program::Tool(tool) => ProgramView::Tool(*tool),
            Program::Named(name) => ProgramView::Named(name@),
        }
    }
}

impl View for Invocation {
    type V = InvocationView;

    open spec fn view(&self) -> InvocationView {
        InvocationView {
            program: self.program@,
            args: self.args.deep_view(),
            current_dir: match self.current_dir {
                Some(dir) => Some(dir@),
                None => None,
            },
        }
    }
}

/// How running a command ended.
#[derive(Debug)]
pub enum RunOutcome {
    /// The program could not be started; `reason` is the system's error.
    NotStarted { reason: String },
    /// The program ran; `success` tells whether it exited successfully,
    /// `status` describes its exit and `stdout` is what it printed.
    Exited { success: bool, status: String, stdout: Vec<u8> },
}

/// A [`RunOutcome`] with its texts as sequences.
pub enum RunOutcomeView {
    NotStarted { reason: Seq<char> },
    Exited { success: bool, status: Seq<char>, stdout: Seq<u8> },
}

impl View for RunOutcome {
    type V = RunOutcomeView;

    open spec fn view(&self) -> RunOutcomeView {
        match self {
            RunOutcome::NotStarted { reason } => RunOutcomeView::NotStarted { reason: reason@ },
            RunOutcome::Exited { success, status, stdout } => RunOutcomeView::Exited {
                success: *success,
                status: status@,
                stdout: stdout@,
            },
        }
    }
}

/// A command that runs a tool with some arguments in the updater's directory.
pub open spec fn tool_command(tool: Tool, args: Seq<Seq<char>>) -> InvocationView {
    InvocationView { program: ProgramView::Tool(tool), args, current_dir: None }
}

/// The name of the package that the updater keeps up to date.
pub open spec fn package_name() -> Seq<char> {
    "codex-desktop"@
}

/// The command that asks the native package manager of a kind for the
/// installed version of the package.
pub open spec fn installed_version_command(kind: PackageKind) -> InvocationView {
    match kind {
        PackageKind::Deb => tool_command(
            Tool::DpkgQuery,
            seq!["-W"@, "-f=${Version}"@, package_name()],
        ),
        PackageKind::Rpm => tool_command(
            Tool::Rpm,
            seq!["-q"@, "--queryformat"@, "%{VERSION}-%{RELEASE}"@, package_name()],
        ),
        PackageKind::Pacman => tool_command(Tool::Pacman, seq!["-Q"@, package_name()]),
    }
}

fn tool_invocation(tool: Tool, args: Vec<String>) -> (res: Invocation)
    ensures
        res@ == tool_command(tool, args.deep_view()),
{
    Invocation { program: Program::Tool(tool), args, current_dir: None }
}

/// The command that asks the native package manager of `kind` for the
/// installed version of the package.
pub fn installed_version_query(kind: PackageKind) -> (res: Invocation)
    ensures
        res@ == installed_version_command(kind),
{
    let args = match kind {
        PackageKind::Deb => vec![string_of("-W"), string_of("-f=${Version}"), string_of("codex-desktop")],
        PackageKind::Rpm => vec![
            string_of("-q"),
            string_of("--queryformat"),
            string_of("%{VERSION}-%{RELEASE}"),
            string_of("codex-desktop"),
        ],
        PackageKind::Pacman => vec![string_of("-Q"), string_of("codex-desktop")],
    };
    let tool = match kind {
        PackageKind::Deb => Tool::DpkgQuery,
        PackageKind::Rpm => Tool::Rpm,
        PackageKind::Pacman => Tool::Pacman,
    };
    let res = tool_invocation(tool, args);
    assert(res@.args =~= installed_version_command(kind).args);
    res
}

/// The command that reads the version of a Debian package file.
pub open spec fn deb_version_command(path: Seq<char>) -> InvocationView {
    tool_command(Tool::DpkgDeb, seq!["-f"@, path, "Version"@])
}

/// The command that reads the version of the Debian package at `path`.
pub fn deb_version_query(path: &str) -> (res: Invocation)
    ensures
        res@ == deb_version_command(path@),
{
    let res = tool_invocation(Tool::DpkgDeb, vec![string_of("-f"), string_of(path), string_of("Version")]);
    assert(res@.args =~= deb_version_command(path@).args);
    res
}

/// The command that succeeds exactly when dpkg ranks `candidate` above
/// `installed`.
pub open spec fn version_comparison_command(candidate: Seq<char>, installed: Seq<char>) -> InvocationView {
    tool_command(Tool::Dpkg, seq!["--compare-versions"@, candidate, "gt"@, installed])
}

/// The command that succeeds exactly when dpkg ranks `candidate` above
/// `installed`.
pub fn version_comparison(candidate: &str, installed: &str) -> (res: Invocation)
    ensures
        res@ == version_comparison_command(candidate@, installed@),
{
    let res = tool_invocation(
        Tool::Dpkg,
        vec![string_of("--compare-versions"), string_of(candidate), string_of("gt"), string_of(installed)],
    );
    assert(res@.args =~= version_comparison_command(candidate@, installed@).args);
    res
}

/// The name by which a package manager is named in messages: the file name
/// of its program, or "package manager" when it has none.
pub open spec fn program_display_name(program: Seq<char>) -> Seq<char> {
    match path_file_name(program) {
        Some(name) => name,
        None => "package manager"@,
    }
}

/// The command that installs the package file at `path` with `program`
/// from the file's own directory, as `program install -y ./<file name>`;
/// an error when the path has no parent directory or no file name.
pub open spec fn install_in_parent_command(program: Seq<char>, path: Seq<char>) -> Result<
    InvocationView,
    InstallErrorView,
> {
    let program_name = program_display_name(program);
    match path_parent(path) {
        None => Err(InstallErrorView::NoParentDirectory { program_name }),
        Some(parent) => match path_file_name(path) {
            None => Err(InstallErrorView::NoFileName { program_name }),
            Some(file_name) => Ok(
                InvocationView {
                    program: ProgramView::Named(program),
                    args: seq!["install"@, "-y"@, "./"@ + file_name],
                    current_dir: Some(parent),
                },
            ),
        },
    }
}

/// The command that installs the package file at `path` with `program`
/// from the file's own directory.
pub fn install_command_in_parent(program: &str, path: &str) -> (res: Result<Invocation, InstallError>)
    ensures
        match res {
            Ok(invocation) => install_in_parent_command(program@, path@) == Ok::<
                InvocationView,
                InstallErrorView,
            >(invocation@),
            Err(e) => install_in_parent_command(program@, path@) == Err::<
                InvocationView,
                InstallErrorView,
            >(e@),
        },
{
    let program_name = match file_name_of(program) {
        Some(name) => name,
        None => string_of("package manager"),
    };
    let parent = match parent_of(path) {
        Some(parent) => parent,
        None => return Err(InstallError::NoParentDirectory { program_name }),
    };
    let file_name = match file_name_of(path) {
        Some(name) => name,
        None => return Err(InstallError::NoFileName { program_name }),
    };
    let res = Invocation {
        program: Program::Named(string_of(program)),
        args: vec![string_of("install"), string_of("-y"), string_of("./").concat(file_name.as_str())],
        current_dir: Some(parent),
    };
    assert(res@.args =~= seq!["install"@, "-y"@, "./"@ + file_name@]);
    Ok(res)
}

/// The command that installs the Debian package at `path` with apt, whose
/// program is `apt`.
pub fn apt_install_command(apt: &str, path: &str) -> (res: Result<Invocation, InstallError>)
    ensures
        match res {
            Ok(invocation) => install_in_parent_command(apt@, path@) == Ok::<
                InvocationView,
                InstallErrorView,
            >(invocation@),
            Err(e) => install_in_parent_command(apt@, path@) == Err::<
                InvocationView,
                InstallErrorView,
            >(e@),
        },
{
    install_command_in_parent(apt, path)
}

/// The command that installs the RPM package at `path` with dnf, whose
/// program is `dnf`.
pub fn dnf_install_command(dnf: &str, path: &str) -> (res: Result<Invocation, InstallError>)
    ensures
        match res {
            Ok(invocation) => install_in_parent_command(dnf@, path@) == Ok::<
                InvocationView,
                InstallErrorView,
            >(invocation@),
            Err(e) => install_in_parent_command(dnf@, path@) == Err::<
                InvocationView,
                InstallErrorView,
            >(e@),
        },
{
    install_command_in_parent(dnf, path)
}

/// `dpkg -i <path>`.
pub open spec fn dpkg_install(path: Seq<char>) -> InvocationView {
    tool_command(Tool::Dpkg, seq!["-i"@, path])
}

/// `rpm -Uvh <path>`.
pub open spec fn rpm_install(path: Seq<char>) -> InvocationView {
    tool_command(Tool::Rpm, seq!["-Uvh"@, path])
}

/// `pacman -U <path>`.
pub open spec fn pacman_install(path: Seq<char>) -> InvocationView {
    tool_command(Tool::Pacman, seq!["-U"@, path])
}

/// The command that installs the Debian package at `path` with dpkg.
pub fn dpkg_install_command(path: &str) -> (res: Invocation)
    ensures
        res@ == dpkg_install(path@),
{
    let res = tool_invocation(Tool::Dpkg, vec![string_of("-i"), string_of(path)]);
    assert(res@.args =~= dpkg_install(path@).args);
    res
}

/// The command that installs the RPM package at `path` with rpm.
pub fn rpm_install_command(path: &str) -> (res: Invocation)
    ensures
        res@ == rpm_install(path@),
{
    let res = tool_invocation(Tool::Rpm, vec![string_of("-Uvh"), string_of(path)]);
    assert(res@.args =~= rpm_install(path@).args);
    res
}

/// The command that installs the pacman package at `path` with pacman.
pub fn pacman_install_command(path: &str) -> (res: Invocation)
    ensures
        res@ == pacman_install(path@),
{
    let res = tool_invocation(Tool::Pacman, vec![string_of("-U"), string_of(path)]);
    assert(res@.args =~= pacman_install(path@).args);
    res
}

/// Where the updater is installed system-wide.
pub open spec fn installed_updater_binary() -> Seq<char> {
    "/usr/bin/codex-update-manager"@
}

/// The updater program that a privileged installation runs: the one
/// installed system-wide when that file exists, else the running one.
pub open spec fn privileged_updater(installed_updater_exists: bool, current_exe: Seq<char>) -> Seq<char> {
    if installed_updater_exists {
        installed_updater_binary()
    } else {
        current_exe
    }
}

/// The updater program that a privileged installation runs, given whether
/// the system-wide updater file exists and the running program's path.
pub fn updater_binary_for_privileged_install(installed_updater_exists: bool, current_exe: &str) -> (res: String)
    ensures
        res@ == privileged_updater(installed_updater_exists, current_exe@),
{
    if installed_updater_exists {
        string_of("/usr/bin/codex-update-manager")
    } else {
        string_of(current_exe)
    }
}

/// The updater's subcommand that installs a package of a kind.
pub open spec fn install_subcommand(kind: PackageKind) -> Seq<char> {
    match kind {
        PackageKind::Rpm => "install-rpm"@,
        PackageKind::Deb => "install-deb"@,
        PackageKind::Pacman => "install-pacman"@,
    }
}

/// The `pkexec` command that runs the updater with privileges to install
/// the package at `package_path`, with the subcommand for its kind.
pub open spec fn pkexec_invocation(
    installed_updater_exists: bool,
    current_exe: Seq<char>,
    package_path: Seq<char>,
) -> InvocationView {
    InvocationView {
        program: ProgramView::Named("pkexec"@),
        args: seq![
            privileged_updater(installed_updater_exists, current_exe),
            install_subcommand(kind_of_path(package_path)),
            "--path"@,
            package_path,
        ],
        current_dir: None,
    }
}

/// Builds the `pkexec` command used for privileged package installation,
/// given whether the system-wide updater file exists, the running program's
/// path and the package's path.
pub fn pkexec_command(installed_updater_exists: bool, current_exe: &str, package_path: &str) -> (res: Invocation)
    ensures
        res@ == pkexec_invocation(installed_updater_exists, current_exe@, package_path@),
{
    let updater_binary = updater_binary_for_privileged_install(installed_updater_exists, current_exe);
    let subcommand = match PackageKind::from_path(package_path) {
        PackageKind::Rpm => string_of("install-rpm"),
        PackageKind::Deb => string_of("install-deb"),
        PackageKind::Pacman => string_of("install-pacman"),
    };
    let res = Invocation {
        program: Program::Named(string_of("pkexec")),
        args: vec![updater_binary, subcommand, string_of("--path"), string_of(package_path)],
        current_dir: None,
    };
    assert(res@.args =~= pkexec_invocation(installed_updater_exists, current_exe@, package_path@).args);
    res
}

} // verus!
