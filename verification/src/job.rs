//! The steps of finding the installed version and of installing a package,
//! as state machines. Each step names the outside work to do next (check a
//! path, look for a tool, run a command); whoever drives the machine does
//! that work and hands back what came of it.

use vstd::prelude::*;
use crate::command::{
    apt_install_command, deb_version_command, deb_version_query, dnf_install_command,
    dpkg_install, dpkg_install_command, install_in_parent_command, installed_version_command,
    installed_version_query, pacman_install, pacman_install_command, rpm_install,
    rpm_install_command, version_comparison, version_comparison_command, Invocation,
    InvocationView, RunOutcome, RunOutcomeView,
};
use crate::error::{InstallError, InstallErrorView, Installer};
use crate::kind::PackageKind;
use crate::text::{same_text, string_of};
use crate::tools::Tool;
use crate::version::{
    deb_package_version, deb_version_result, installed_version_from_outcome,
    is_version_newer_pacman, pacman_newer_result, pacman_package_version, pacman_path_version,
    reported_version, version_and_release, version_release,
};

verus! {

/// Outside work that a machine asks for.
#[derive(Debug)]
pub enum Action {
    /// Tell whether a file exists at this path.
    CheckPath(String),
    /// Tell whether this tool is available.
    FindTool(Tool),
    /// Tell which program this tool resolves to.
    LocateTool(Tool),
    /// Run this command, keeping what it prints, and tell how it ended.
    Run(Invocation),
    /// Run this command with the terminal attached, and tell how it ended.
    RunAttached(Invocation),
}

/// An [`Action`] with its texts as sequences.
pub enum ActionView {
    CheckPath(Seq<char>),
    FindTool(Tool),
    LocateTool(Tool),
    Run(InvocationView),
    RunAttached(InvocationView),
}

impl View for Action {
    type V = ActionView;

    open spec fn view(&self) -> ActionView {
        match self {
            Action::CheckPath(path) => ActionView::CheckPath(path@),
            Action::FindTool(tool) => ActionView::FindTool(*tool),
            Action::LocateTool(tool) => ActionView::LocateTool(*tool),
            Action::Run(invocation) => ActionView::Run(invocation@),
            Action::RunAttached(invocation) => ActionView::RunAttached(invocation@),
        }
    }
}

/// What came of an [`Action`].
#[derive(Debug)]
pub enum Event {
    /// Whether the file exists.
    PathChecked(bool),
    /// Whether the tool is available.
    ToolFound(bool),
    /// The program the tool resolves to.
    ToolLocated(String),
    /// How the command ended.
    Ran(RunOutcome),
}

/// An [`Event`] with its texts as sequences.
pub enum EventView {
    PathChecked(bool),
    ToolFound(bool),
    ToolLocated(Seq<char>),
    Ran(RunOutcomeView),
}

impl View for Event {
    type V = EventView;

    open spec fn view(&self) -> EventView {
        match self {
            Event::PathChecked(b) => EventView::PathChecked(*b),
            Event::ToolFound(b) => EventView::ToolFound(*b),
            Event::ToolLocated(program) => EventView::ToolLocated(program@),
            Event::Ran(outcome) => EventView::Ran(outcome@),
        }
    }
}

/// Where a search for the installed version stands.
#[derive(Debug, Clone, Copy, PartialEq, Eq, Structural)]
pub enum QueryStage {
    /// Looking for pacman.
    ProbePacman,
    /// Looking for dpkg.
    ProbeDpkg,
    /// Looking for rpm.
    ProbeRpm,
    /// Asking the package manager of this kind.
    Query(PackageKind),
    /// Finished.
    Done,
}

/// The outside work that a search for the installed version asks for at a
/// stage. A finished search asks for nothing; the value given for it is
/// never handed out.
pub open spec fn query_action(stage: QueryStage) -> ActionView {
    match stage {
        QueryStage::ProbePacman => ActionView::FindTool(Tool::Pacman),
        QueryStage::ProbeDpkg => ActionView::FindTool(Tool::Dpkg),
        QueryStage::ProbeRpm => ActionView::FindTool(Tool::Rpm),
        QueryStage::Query(kind) => ActionView::Run(installed_version_command(kind)),
        QueryStage::Done => ActionView::FindTool(Tool::Pacman),
    }
}

/// Whether a search for the installed version at `stage` takes `event`:
/// it must answer the work asked for, and the search must not be finished.
pub open spec fn query_accepts(stage: QueryStage, event: EventView) -> bool {
    match stage {
        QueryStage::ProbePacman | QueryStage::ProbeDpkg | QueryStage::ProbeRpm => event is ToolFound,
        QueryStage::Query(_) => event is Ran,
        QueryStage::Done => false,
    }
}

/// The stage that a search for the installed version reaches from `stage`
/// by `event`: pacman is looked for first, then dpkg, then rpm; the first
/// one found is asked, and dpkg when none is found. An event that the
/// search does not take leaves it where it is.
pub open spec fn query_next_stage(stage: QueryStage, event: EventView) -> QueryStage {
    if !query_accepts(stage, event) {
        stage
    } else {
    match (stage, event) {
        (QueryStage::ProbePacman, EventView::ToolFound(true)) => QueryStage::Query(PackageKind::Pacman),
        (QueryStage::ProbePacman, EventView::ToolFound(false)) => QueryStage::ProbeDpkg,
        (QueryStage::ProbeDpkg, EventView::ToolFound(true)) => QueryStage::Query(PackageKind::Deb),
        (QueryStage::ProbeDpkg, EventView::ToolFound(false)) => QueryStage::ProbeRpm,
        (QueryStage::ProbeRpm, EventView::ToolFound(true)) => QueryStage::Query(PackageKind::Rpm),
        (QueryStage::ProbeRpm, EventView::ToolFound(false)) => QueryStage::Query(PackageKind::Deb),
        (QueryStage::Query(_), EventView::Ran(_)) => QueryStage::Done,
        _ => stage,
    }
    }
}

/// What one step of a search for the installed version gives.
#[derive(Debug)]
pub enum QueryStep {
    /// The next outside work to do.
    Next(Action),
    /// The installed version ("unknown" when none could be read).
    Finished(String),
    /// The event was not one the search asked for; nothing changed.
    Ignored,
}

/// A [`QueryStep`] with its texts as sequences.
pub enum QueryStepView {
    Next(ActionView),
    Finished(Seq<char>),
    Ignored,
}

impl View for QueryStep {
    type V = QueryStepView;

    open spec fn view(&self) -> QueryStepView {
        match self {
            QueryStep::Next(action) => QueryStepView::Next(action@),
            QueryStep::Finished(version) => QueryStepView::Finished(version@),
            QueryStep::Ignored => QueryStepView::Ignored,
        }
    }
}

/// What the step of a search for the installed version from `stage` by
/// `event` gives: the reported version once the package manager answered,
/// else the work that the next stage asks for; nothing for an event that
/// the search does not take.
pub open spec fn query_step(stage: QueryStage, event: EventView) -> QueryStepView {
    if !query_accepts(stage, event) {
        QueryStepView::Ignored
    } else {
    match (stage, event) {
        (QueryStage::Query(_), EventView::Ran(outcome)) => QueryStepView::Finished(
            reported_version(outcome),
        ),
        _ => QueryStepView::Next(query_action(query_next_stage(stage, event))),
    }
    }
}

/// A search for the installed version of the package.
#[derive(Debug)]
pub struct VersionQuery {
    stage: QueryStage,
}

impl View for VersionQuery {
    type V = QueryStage;

    closed spec fn view(&self) -> QueryStage {
        self.stage
    }
}

fn query_action_exec(stage: QueryStage) -> (res: Action)
    ensures
        res@ == query_action(stage),
{
    match stage {
        QueryStage::ProbePacman => Action::FindTool(Tool::Pacman),
        QueryStage::ProbeDpkg => Action::FindTool(Tool::Dpkg),
        QueryStage::ProbeRpm => Action::FindTool(Tool::Rpm),
        QueryStage::Query(kind) => Action::Run(installed_version_query(kind)),
        QueryStage::Done => Action::FindTool(Tool::Pacman),
    }
}

/// Begins finding the currently installed package version: the native
/// package manager is detected first (pacman, then dpkg, then rpm) and
/// then asked. Gives the search and the work it asks for first.
pub fn installed_package_version() -> (res: (VersionQuery, Action))
    ensures
        res.0@ == QueryStage::ProbePacman,
        res.1@ == query_action(QueryStage::ProbePacman),
{
    (VersionQuery { stage: QueryStage::ProbePacman }, Action::FindTool(Tool::Pacman))
}

impl VersionQuery {
    /// Begins asking the package manager of `kind` for the installed
    /// version.
    pub fn for_kind(kind: PackageKind) -> (res: (VersionQuery, Action))
        ensures
            res.0@ == QueryStage::Query(kind),
            res.1@ == query_action(QueryStage::Query(kind)),
    {
        (VersionQuery { stage: QueryStage::Query(kind) }, Action::Run(installed_version_query(kind)))
    }

    /// Whether the search takes `event` now.
    pub fn accepts(&self, event: &Event) -> (res: bool)
        ensures
            res == query_accepts(self@, event@),
    {
        match self.stage {
            QueryStage::ProbePacman | QueryStage::ProbeDpkg | QueryStage::ProbeRpm => match event {
                Event::ToolFound(_) => true,
                _ => false,
            },
            QueryStage::Query(_) => match event {
                Event::Ran(_) => true,
                _ => false,
            },
            QueryStage::Done => false,
        }
    }

    /// Takes what came of the work asked for and gives the next step.
    pub fn advance(&mut self, event: Event) -> (step: QueryStep)
        ensures
            final(self)@ == query_next_stage(old(self)@, event@),
            step@ == query_step(old(self)@, event@),
    {
        if !self.accepts(&event) {
            return QueryStep::Ignored;
        }
        match event {
            Event::ToolFound(found) => {
                let next = match self.stage {
                    QueryStage::ProbePacman => if found {
                        QueryStage::Query(PackageKind::Pacman)
                    } else {
                        QueryStage::ProbeDpkg
                    },
                    QueryStage::ProbeDpkg => if found {
                        QueryStage::Query(PackageKind::Deb)
                    } else {
                        QueryStage::ProbeRpm
                    },
                    _ => if found {
                        QueryStage::Query(PackageKind::Rpm)
                    } else {
                        QueryStage::Query(PackageKind::Deb)
                    },
                };
                self.stage = next;
                QueryStep::Next(query_action_exec(next))
            },
            Event::Ran(outcome) => {
                self.stage = QueryStage::Done;
                QueryStep::Finished(installed_version_from_outcome(outcome))
            },
            _ => QueryStep::Ignored,
        }
    }
}


/// Where an installation stands.
#[derive(Debug, Clone, Copy, PartialEq, Eq, Structural)]
pub enum Stage {
    /// Checking that the package file exists.
    CheckFile,
    /// Finding the installed version.
    QueryInstalled,
    /// Reading the Debian package's version.
    ReadCandidate,
    /// Asking dpkg whether the package is newer than the installed one.
    CompareVersions,
    /// Looking for apt.
    FindApt,
    /// Resolving apt to its program.
    LocateApt,
    /// Looking for dnf.
    FindDnf,
    /// Looking for dnf5.
    FindDnf5,
    /// Resolving dnf to its program.
    LocateDnf,
    /// Asking pacman for the installed package.
    QueryPacman,
    /// Running the installer.
    Install,
    /// Finished.
    Done,
}

/// An installation: the package's kind and path, where it stands, and what
/// it has learnt so far.
pub struct InstallationView {
    pub kind: PackageKind,
    pub path: Seq<char>,
    pub stage: Stage,
    /// Where the search for the installed version stands.
    pub query: QueryStage,
    /// The installed version, once known.
    pub installed: Seq<char>,
    /// The package's own version, once known.
    pub candidate: Seq<char>,
    /// The version part of the candidate (pacman).
    pub version: Seq<char>,
    /// The release part of the candidate (pacman).
    pub release: Seq<char>,
    /// The program that performs the installation, once chosen.
    pub installer: Installer,
}

/// What one step of an installation gives.
#[derive(Debug)]
pub enum InstallStep {
    /// The next outside work to do.
    Next(Action),
    /// The installation ended: installed, or refused or failed.
    Finished(Result<(), InstallError>),
    /// The event was not one the installation asked for; nothing changed.
    Ignored,
}

/// An [`InstallStep`] with its texts as sequences.
pub enum InstallStepView {
    Next(ActionView),
    Finished(Result<(), InstallErrorView>),
    Ignored,
}

impl View for InstallStep {
    type V = InstallStepView;

    open spec fn view(&self) -> InstallStepView {
        match self {
            InstallStep::Next(action) => InstallStepView::Next(action@),
            InstallStep::Finished(Ok(())) => InstallStepView::Finished(Ok(())),
            InstallStep::Finished(Err(e)) => InstallStepView::Finished(Err(e@)),
            InstallStep::Ignored => InstallStepView::Ignored,
        }
    }
}

/// Whether an installation takes `event` now: it must answer the work
/// asked for, and the installation must not be finished.
pub open spec fn install_accepts(m: InstallationView, event: EventView) -> bool {
    match m.stage {
        Stage::CheckFile => event is PathChecked,
        Stage::QueryInstalled => query_accepts(m.query, event),
        Stage::ReadCandidate | Stage::CompareVersions | Stage::QueryPacman | Stage::Install =>
            event is Ran,
        Stage::FindApt | Stage::FindDnf | Stage::FindDnf5 => event is ToolFound,
        Stage::LocateApt | Stage::LocateDnf => event is ToolLocated,
        Stage::Done => false,
    }
}

/// Moves to `stage` and asks for `action`.
pub open spec fn proceed(m: InstallationView, stage: Stage, action: ActionView) -> (
    InstallationView,
    InstallStepView,
) {
    (InstallationView { stage, ..m }, InstallStepView::Next(action))
}

/// Ends with `result`.
pub open spec fn finish(m: InstallationView, result: Result<(), InstallErrorView>) -> (
    InstallationView,
    InstallStepView,
) {
    (InstallationView { stage: Stage::Done, ..m }, InstallStepView::Finished(result))
}

/// Runs `installer` with `command`.
pub open spec fn run_installer(m: InstallationView, installer: Installer, command: InvocationView) -> (
    InstallationView,
    InstallStepView,
) {
    (
        InstallationView { stage: Stage::Install, installer, ..m },
        InstallStepView::Next(ActionView::RunAttached(command)),
    )
}

/// Starts the installation proper, once the upgrade is allowed: a Debian
/// package goes through apt when apt is found, an RPM package through dnf
/// when dnf is found, a pacman package through pacman.
pub open spec fn begin_install(m: InstallationView) -> (InstallationView, InstallStepView) {
    match m.kind {
        PackageKind::Deb => proceed(m, Stage::FindApt, ActionView::FindTool(Tool::Apt)),
        PackageKind::Rpm => proceed(m, Stage::FindDnf, ActionView::FindTool(Tool::Dnf)),
        PackageKind::Pacman => run_installer(m, Installer::Pacman, pacman_install(m.path)),
    }
}

/// Goes on once the package file is known to exist: Debian and pacman
/// packages first find the installed version (a Debian one by detecting
/// the system's package manager, a pacman one by asking pacman); an RPM
/// package is installed without that check.
pub open spec fn after_file_found(m: InstallationView) -> (InstallationView, InstallStepView) {
    match m.kind {
        PackageKind::Deb => (
            InstallationView { stage: Stage::QueryInstalled, query: QueryStage::ProbePacman, ..m },
            InstallStepView::Next(query_action(QueryStage::ProbePacman)),
        ),
        PackageKind::Rpm => begin_install(m),
        PackageKind::Pacman => (
            InstallationView {
                stage: Stage::QueryInstalled,
                query: QueryStage::Query(PackageKind::Pacman),
                ..m
            },
            InstallStepView::Next(query_action(QueryStage::Query(PackageKind::Pacman))),
        ),
    }
}

/// Goes on once the installed version `installed` is known: when it is
/// "unknown" the package is installed without comparing; otherwise a
/// Debian package's version is read, and a pacman package's version is
/// taken from its file name and its version and release compared.
pub open spec fn after_installed_version(m: InstallationView, installed: Seq<char>) -> (
    InstallationView,
    InstallStepView,
) {
    let m = InstallationView { installed, ..m };
    if installed == "unknown"@ {
        begin_install(m)
    } else {
        match m.kind {
            PackageKind::Pacman => match pacman_path_version(m.path) {
                Err(e) => finish(m, Err(e)),
                Ok(candidate) => {
                    let m = InstallationView { candidate, ..m };
                    match version_release(candidate) {
                        None => finish(
                            m,
                            Err(InstallErrorView::NotNewer { candidate, installed }),
                        ),
                        Some((version, release)) => proceed(
                            InstallationView { version, release, ..m },
                            Stage::QueryPacman,
                            ActionView::Run(installed_version_command(PackageKind::Pacman)),
                        ),
                    }
                },
            },
            _ => proceed(m, Stage::ReadCandidate, ActionView::Run(deb_version_command(m.path))),
        }
    }
}

/// Runs the installer that `command` names once its program is resolved,
/// or ends with the error that building the command gives.
pub open spec fn install_from_parent(
    m: InstallationView,
    installer: Installer,
    command: Result<InvocationView, InstallErrorView>,
) -> (InstallationView, InstallStepView) {
    match command {
        Ok(command) => run_installer(m, installer, command),
        Err(e) => finish(m, Err(e)),
    }
}

/// The step of an installation from `m` by `event`. An event that the
/// installation does not take (see [`install_accepts`]) leaves it as it is.
pub open spec fn install_step(m: InstallationView, event: EventView) -> (
    InstallationView,
    InstallStepView,
) {
    if !install_accepts(m, event) {
        (m, InstallStepView::Ignored)
    } else {
    match (m.stage, event) {
        (Stage::CheckFile, EventView::PathChecked(exists)) => if exists {
            after_file_found(m)
        } else {
            finish(m, Err(InstallErrorView::PackageNotFound { kind: m.kind, path: m.path }))
        },
        (Stage::QueryInstalled, _) => {
            let q = InstallationView { query: query_next_stage(m.query, event), ..m };
            match query_step(m.query, event) {
                QueryStepView::Finished(installed) => after_installed_version(q, installed),
                QueryStepView::Next(action) => (q, InstallStepView::Next(action)),
                QueryStepView::Ignored => (m, InstallStepView::Ignored),
            }
        },
        (Stage::ReadCandidate, EventView::Ran(outcome)) => match deb_version_result(
            m.path,
            outcome,
        ) {
            Err(e) => finish(m, Err(e)),
            Ok(candidate) => proceed(
                InstallationView { candidate, ..m },
                Stage::CompareVersions,
                ActionView::RunAttached(version_comparison_command(candidate, m.installed)),
            ),
        },
        (Stage::CompareVersions, EventView::Ran(outcome)) => match outcome {
            RunOutcomeView::NotStarted { reason } => finish(
                m,
                Err(InstallErrorView::ComparisonUnavailable { reason }),
            ),
            RunOutcomeView::Exited { success, .. } => if success {
                begin_install(m)
            } else {
                finish(
                    m,
                    Err(
                        InstallErrorView::NotNewer { candidate: m.candidate, installed: m.installed },
                    ),
                )
            },
        },
        (Stage::FindApt, EventView::ToolFound(found)) => if found {
            proceed(m, Stage::LocateApt, ActionView::LocateTool(Tool::Apt))
        } else {
            run_installer(m, Installer::Dpkg, dpkg_install(m.path))
        },
        (Stage::LocateApt, EventView::ToolLocated(program)) => install_from_parent(
            m,
            Installer::Apt,
            install_in_parent_command(program, m.path),
        ),
        (Stage::FindDnf, EventView::ToolFound(found)) => if found {
            proceed(m, Stage::LocateDnf, ActionView::LocateTool(Tool::Dnf))
        } else {
            proceed(m, Stage::FindDnf5, ActionView::FindTool(Tool::Dnf5))
        },
        (Stage::FindDnf5, EventView::ToolFound(found)) => if found {
            proceed(m, Stage::LocateDnf, ActionView::LocateTool(Tool::Dnf))
        } else {
            run_installer(m, Installer::Rpm, rpm_install(m.path))
        },
        (Stage::LocateDnf, EventView::ToolLocated(program)) => install_from_parent(
            m,
            Installer::Dnf,
            install_in_parent_command(program, m.path),
        ),
        (Stage::QueryPacman, EventView::Ran(outcome)) => match pacman_newer_result(
            m.version,
            m.release,
            outcome,
        ) {
            Err(e) => finish(m, Err(e)),
            Ok(newer) => if newer {
                run_installer(m, Installer::Pacman, pacman_install(m.path))
            } else {
                finish(
                    m,
                    Err(
                        InstallErrorView::NotNewer { candidate: m.candidate, installed: m.installed },
                    ),
                )
            },
        },
        (Stage::Install, EventView::Ran(outcome)) => match outcome {
            RunOutcomeView::NotStarted { reason } => finish(
                m,
                Err(InstallErrorView::InstallerNotStarted { installer: m.installer, reason }),
            ),
            RunOutcomeView::Exited { success, status, .. } => if success {
                finish(m, Ok(()))
            } else {
                finish(
                    m,
                    Err(InstallErrorView::InstallerFailed { installer: m.installer, status }),
                )
            },
        },
        _ => (m, InstallStepView::Ignored),
    }
    }
}

/// An installation as it begins: the package file is checked first.
pub open spec fn initial_installation(kind: PackageKind, path: Seq<char>) -> InstallationView {
    InstallationView {
        kind,
        path,
        stage: Stage::CheckFile,
        query: QueryStage::Done,
        installed: Seq::empty(),
        candidate: Seq::empty(),
        version: Seq::empty(),
        release: Seq::empty(),
        installer: Installer::Dpkg,
    }
}


/// The installation of a package file.
#[derive(Debug)]
pub struct Installation {
    kind: PackageKind,
    path: String,
    stage: Stage,
    query: VersionQuery,
    installed: String,
    candidate: String,
    version: String,
    release: String,
    installer: Installer,
}

impl View for Installation {
    type V = InstallationView;

    closed spec fn view(&self) -> InstallationView {
        InstallationView {
            kind: self.kind,
            path: self.path@,
            stage: self.stage,
            query: self.query@,
            installed: self.installed@,
            candidate: self.candidate@,
            version: self.version@,
            release: self.release@,
            installer: self.installer,
        }
    }
}

/// What a result is with its texts as sequences.
pub open spec fn result_view(result: Result<(), InstallError>) -> Result<(), InstallErrorView> {
    match result {
        Ok(()) => Ok(()),
        Err(e) => Err(e@),
    }
}

fn begin(kind: PackageKind, path: &str) -> (res: (Installation, Action))
    ensures
        res.0@ == initial_installation(kind, path@),
        res.1@ == ActionView::CheckPath(path@),
{
    let job = Installation {
        kind,
        path: string_of(path),
        stage: Stage::CheckFile,
        query: VersionQuery { stage: QueryStage::Done },
        installed: String::new(),
        candidate: String::new(),
        version: String::new(),
        release: String::new(),
        installer: Installer::Dpkg,
    };
    assert(job@ =~= initial_installation(kind, path@));
    (job, Action::CheckPath(string_of(path)))
}

/// Begins installing a rebuilt Debian package on the local machine: the
/// file must exist; a package not newer than the installed one is refused
/// (dpkg compares); apt installs it when apt is found, dpkg otherwise.
/// Gives the installation and the work it asks for first.
pub fn install_deb(path: &str) -> (res: (Installation, Action))
    ensures
        res.0@ == initial_installation(PackageKind::Deb, path@),
        res.1@ == ActionView::CheckPath(path@),
{
    begin(PackageKind::Deb, path)
}

/// Begins installing a rebuilt RPM package on the local machine: the file
/// must exist; dnf installs it when dnf or dnf5 is found, rpm otherwise.
/// Gives the installation and the work it asks for first.
pub fn install_rpm(path: &str) -> (res: (Installation, Action))
    ensures
        res.0@ == initial_installation(PackageKind::Rpm, path@),
        res.1@ == ActionView::CheckPath(path@),
{
    begin(PackageKind::Rpm, path)
}

/// Begins installing a package via pacman on Arch Linux / CachyOS: the
/// file must exist; a package not newer than the installed one is refused;
/// pacman installs it. Gives the installation and the work it asks for
/// first.
pub fn install_pacman(path: &str) -> (res: (Installation, Action))
    ensures
        res.0@ == initial_installation(PackageKind::Pacman, path@),
        res.1@ == ActionView::CheckPath(path@),
{
    begin(PackageKind::Pacman, path)
}

impl Installation {
    /// Whether the installation takes `event` now.
    pub fn accepts(&self, event: &Event) -> (res: bool)
        ensures
            res == install_accepts(self@, event@),
    {
        match self.stage {
            Stage::CheckFile => match event {
                Event::PathChecked(_) => true,
                _ => false,
            },
            Stage::QueryInstalled => self.query.accepts(event),
            Stage::ReadCandidate | Stage::CompareVersions | Stage::QueryPacman | Stage::Install =>
                match event {
                Event::Ran(_) => true,
                _ => false,
            },
            Stage::FindApt | Stage::FindDnf | Stage::FindDnf5 => match event {
                Event::ToolFound(_) => true,
                _ => false,
            },
            Stage::LocateApt | Stage::LocateDnf => match event {
                Event::ToolLocated(_) => true,
                _ => false,
            },
            Stage::Done => false,
        }
    }

    fn finish_with(&mut self, result: Result<(), InstallError>) -> (step: InstallStep)
        ensures
            (final(self)@, step@) == finish(old(self)@, result_view(result)),
    {
        self.stage = Stage::Done;
        InstallStep::Finished(result)
    }

    fn proceed_to(&mut self, stage: Stage, action: Action) -> (step: InstallStep)
        ensures
            (final(self)@, step@) == proceed(old(self)@, stage, action@),
    {
        self.stage = stage;
        InstallStep::Next(action)
    }

    fn run_with(&mut self, installer: Installer, command: Invocation) -> (step: InstallStep)
        ensures
            (final(self)@, step@) == run_installer(old(self)@, installer, command@),
    {
        self.stage = Stage::Install;
        self.installer = installer;
        InstallStep::Next(Action::RunAttached(command))
    }

    fn begin_install(&mut self) -> (step: InstallStep)
        ensures
            (final(self)@, step@) == begin_install(old(self)@),
    {
        match self.kind {
            PackageKind::Deb => self.proceed_to(Stage::FindApt, Action::FindTool(Tool::Apt)),
            PackageKind::Rpm => self.proceed_to(Stage::FindDnf, Action::FindTool(Tool::Dnf)),
            PackageKind::Pacman => {
                let command = pacman_install_command(self.path.as_str());
                self.run_with(Installer::Pacman, command)
            },
        }
    }

    fn after_file_found(&mut self) -> (step: InstallStep)
        ensures
            (final(self)@, step@) == after_file_found(old(self)@),
    {
        match self.kind {
            PackageKind::Deb => {
                self.stage = Stage::QueryInstalled;
                self.query = VersionQuery { stage: QueryStage::ProbePacman };
                InstallStep::Next(query_action_exec(QueryStage::ProbePacman))
            },
            PackageKind::Rpm => self.begin_install(),
            PackageKind::Pacman => {
                self.stage = Stage::QueryInstalled;
                self.query = VersionQuery { stage: QueryStage::Query(PackageKind::Pacman) };
                InstallStep::Next(query_action_exec(QueryStage::Query(PackageKind::Pacman)))
            },
        }
    }

    fn after_installed_version(&mut self, installed: String) -> (step: InstallStep)
        ensures
            (final(self)@, step@) == after_installed_version(old(self)@, installed@),
    {
        self.installed = installed;
        proof {
            reveal_strlit("unknown");
        }
        if same_text(self.installed.as_str(), "unknown") {
            return self.begin_install();
        }
        match self.kind {
            PackageKind::Pacman => {
                let candidate = match pacman_package_version(self.path.as_str()) {
                    Ok(candidate) => candidate,
                    Err(e) => return self.finish_with(Err(e)),
                };
                self.candidate = candidate;
                match version_and_release(self.candidate.as_str()) {
                    None => {
                        let e = InstallError::NotNewer {
                            candidate: string_of(self.candidate.as_str()),
                            installed: string_of(self.installed.as_str()),
                        };
                        self.finish_with(Err(e))
                    },
                    Some((version, release)) => {
                        self.version = version;
                        self.release = release;
                        let query = installed_version_query(PackageKind::Pacman);
                        self.proceed_to(Stage::QueryPacman, Action::Run(query))
                    },
                }
            },
            _ => {
                let query = deb_version_query(self.path.as_str());
                self.proceed_to(Stage::ReadCandidate, Action::Run(query))
            },
        }
    }

    /// Takes what came of the work asked for and gives the next step.
    pub fn advance(&mut self, event: Event) -> (step: InstallStep)
        ensures
            (final(self)@, step@) == install_step(old(self)@, event@),
    {
        if !self.accepts(&event) {
            return InstallStep::Ignored;
        }
        match self.stage {
            Stage::CheckFile => match event {
                Event::PathChecked(exists) => if exists {
                    self.after_file_found()
                } else {
                    let e = InstallError::PackageNotFound {
                        kind: self.kind,
                        path: string_of(self.path.as_str()),
                    };
                    self.finish_with(Err(e))
                },
                _ => InstallStep::Ignored,
            },
            Stage::QueryInstalled => match self.query.advance(event) {
                QueryStep::Finished(installed) => self.after_installed_version(installed),
                QueryStep::Next(action) => InstallStep::Next(action),
                QueryStep::Ignored => InstallStep::Ignored,
            },
            Stage::ReadCandidate => match event {
                Event::Ran(outcome) => match deb_package_version(self.path.as_str(), outcome) {
                    Err(e) => self.finish_with(Err(e)),
                    Ok(candidate) => {
                        let command = version_comparison(candidate.as_str(), self.installed.as_str());
                        self.candidate = candidate;
                        self.proceed_to(Stage::CompareVersions, Action::RunAttached(command))
                    },
                },
                _ => InstallStep::Ignored,
            },
            Stage::CompareVersions => match event {
                Event::Ran(RunOutcome::NotStarted { reason }) => self.finish_with(
                    Err(InstallError::ComparisonUnavailable { reason }),
                ),
                Event::Ran(RunOutcome::Exited { success, .. }) => if success {
                    self.begin_install()
                } else {
                    let e = InstallError::NotNewer {
                        candidate: string_of(self.candidate.as_str()),
                        installed: string_of(self.installed.as_str()),
                    };
                    self.finish_with(Err(e))
                },
                _ => InstallStep::Ignored,
            },
            Stage::FindApt => match event {
                Event::ToolFound(found) => if found {
                    self.proceed_to(Stage::LocateApt, Action::LocateTool(Tool::Apt))
                } else {
                    let command = dpkg_install_command(self.path.as_str());
                    self.run_with(Installer::Dpkg, command)
                },
                _ => InstallStep::Ignored,
            },
            Stage::LocateApt => match event {
                Event::ToolLocated(program) => match apt_install_command(
                    program.as_str(),
                    self.path.as_str(),
                ) {
                    Ok(command) => self.run_with(Installer::Apt, command),
                    Err(e) => self.finish_with(Err(e)),
                },
                _ => InstallStep::Ignored,
            },
            Stage::FindDnf => match event {
                Event::ToolFound(found) => if found {
                    self.proceed_to(Stage::LocateDnf, Action::LocateTool(Tool::Dnf))
                } else {
                    self.proceed_to(Stage::FindDnf5, Action::FindTool(Tool::Dnf5))
                },
                _ => InstallStep::Ignored,
            },
            Stage::FindDnf5 => match event {
                Event::ToolFound(found) => if found {
                    self.proceed_to(Stage::LocateDnf, Action::LocateTool(Tool::Dnf))
                } else {
                    let command = rpm_install_command(self.path.as_str());
                    self.run_with(Installer::Rpm, command)
                },
                _ => InstallStep::Ignored,
            },
            Stage::LocateDnf => match event {
                Event::ToolLocated(program) => match dnf_install_command(
                    program.as_str(),
                    self.path.as_str(),
                ) {
                    Ok(command) => self.run_with(Installer::Dnf, command),
                    Err(e) => self.finish_with(Err(e)),
                },
                _ => InstallStep::Ignored,
            },
            Stage::QueryPacman => match event {
                Event::Ran(outcome) => match is_version_newer_pacman(
                    self.version.as_str(),
                    self.release.as_str(),
                    outcome,
                ) {
                    Err(e) => self.finish_with(Err(e)),
                    Ok(newer) => if newer {
                        let command = pacman_install_command(self.path.as_str());
                        self.run_with(Installer::Pacman, command)
                    } else {
                        let e = InstallError::NotNewer {
                            candidate: string_of(self.candidate.as_str()),
                            installed: string_of(self.installed.as_str()),
                        };
                        self.finish_with(Err(e))
                    },
                },
                _ => InstallStep::Ignored,
            },
            Stage::Install => match event {
                Event::Ran(RunOutcome::NotStarted { reason }) => self.finish_with(
                    Err(InstallError::InstallerNotStarted { installer: self.installer, reason }),
                ),
                Event::Ran(RunOutcome::Exited { success, status, .. }) => if success {
                    self.finish_with(Ok(()))
                } else {
                    self.finish_with(
                        Err(InstallError::InstallerFailed { installer: self.installer, status }),
                    )
                },
                _ => InstallStep::Ignored,
            },
            Stage::Done => InstallStep::Ignored,
        }
    }
}

} // verus!
