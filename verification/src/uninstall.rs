//! Uninstall orchestration as a state machine: close the main program, then
//! remove the shortcuts, the file association surface, the control panel
//! entry, the install directory and (on request) the user data. A failing
//! step does not stop the later ones: its error is collected and the list is
//! handed back at the end.
use vstd::prelude::*;
use vstd::string::*;

use crate::args::UninstallSite;
use crate::config::{release_assoc, release_assoc_view, APP_DISPLAY_NAME, APP_ID, MAIN_EXE_NAME, WIZARD_EXE_NAME};
use crate::install::{
    lnk_name, reports_view, result_view, InstallInfo, MSG_CLOSING, LNK_SUFFIX, STEP_CLOSE,
    STEP_REGISTER, STEP_SHORTCUT,
};
use crate::paths::{env_error, join_path, path_join, resolved_paths, InstallPaths, KnownFolders};
use crate::progress::{running_view, InstallProgress, ProgressView};
use crate::registry::{
    plan_view, remove_uninstall_info, remove_uninstall_info_plan, root_for,
    unregister_file_associations,
    unregister_plan, AssocParams, AssocView, Hive, RegOp, RegOpView,
};
use crate::text::{join2, join3};

verus! {

/// The pause between two tries at removing a file that may still be locked,
/// in milliseconds.
pub const LOCKED_RETRY_PAUSE_MS: u64 = 200;

/// What follows one try at removing a file that a process that just ended
/// may still hold.
pub enum LockedRemoval {
    /// The file is gone: it was missing, or the removal succeeded.
    Removed,
    /// The deadline has passed with the file still in place.
    GaveUp,
    /// Wait this many milliseconds, then try again.
    RetryAfter(u64),
}

/// The decision after one try at removing a locked file: done when the file
/// is gone (a missing file counts as removed); otherwise give up once
/// `elapsed_ms` has reached `timeout_ms`, else pause and try again.
pub fn locked_removal_step(gone: bool, elapsed_ms: u64, timeout_ms: u64) -> (r: LockedRemoval)
    ensures
        gone ==> r == LockedRemoval::Removed,
        !gone && elapsed_ms >= timeout_ms ==> r == LockedRemoval::GaveUp,
        !gone && elapsed_ms < timeout_ms ==> r == LockedRemoval::RetryAfter(LOCKED_RETRY_PAUSE_MS),
{
    if gone {
        LockedRemoval::Removed
    } else if elapsed_ms >= timeout_ms {
        LockedRemoval::GaveUp
    } else {
        LockedRemoval::RetryAfter(LOCKED_RETRY_PAUSE_MS)
    }
}

/// The site recorded by `install-info.json` beside the uninstaller.
pub fn site_from_info(info: &InstallInfo) -> (r: UninstallSite)
    ensures
        r.is_system == info.is_system,
        r.install_dir@ == info.install_dir@,
        r.created_desktop_shortcut == info.created_desktop_shortcut,
{
    UninstallSite {
        is_system: info.is_system,
        install_dir: info.install_dir.clone(),
        created_desktop_shortcut: info.created_desktop_shortcut,
    }
}

/// The site found from an uninstall key under the root of `is_system`: its
/// `InstallLocation` (empty when absent), and a desktop shortcut assumed,
/// since the registry cannot tell.
pub fn site_from_registry(is_system: bool, install_location: Option<String>) -> (r: UninstallSite)
    ensures
        r.is_system == is_system,
        r.install_dir@ == (match install_location {
            Some(l) => l@,
            None => Seq::<char>::empty(),
        }),
        r.created_desktop_shortcut,
{
    let install_dir = match install_location {
        Some(l) => l,
        None => String::new(),
    };
    UninstallSite { is_system, install_dir, created_desktop_shortcut: true }
}

/// Everything the uninstall needs.
pub struct UninstallOptions<'a> {
    pub app_id: String,
    /// The file association surface (release constants, or test values).
    pub assoc: AssocParams<'a>,
    pub install_dir: Option<String>,
    pub start_menu_dir: Option<String>,
    pub desktop_shortcut: Option<String>,
    /// `%APPDATA%\{app_id}` when the user data is to be removed too.
    pub user_data_dir: Option<String>,
}

/// The view of an optional string.
pub open spec fn opt_chars(o: Option<String>) -> Option<Seq<char>> {
    match o {
        Some(s) => Some(s@),
        None => None,
    }
}

pub const MSG_APPDATA_MISSING: &'static str = "环境变量 APPDATA 不可用";

/// The release uninstall of a site: no install directory when the site's is
/// empty, the start menu group of the site's install kind, the desktop
/// shortcut when the site made one, the user data under `APPDATA` when asked.
pub fn uninstall_options_for_site(
    site: &UninstallSite,
    remove_user_data: bool,
    env: &KnownFolders,
) -> (r: Result<UninstallOptions<'static>, String>)
    ensures
        resolved_paths(site.is_system, *env) matches Err(e) ==> (r matches Err(m) && m@ == e),
        (resolved_paths(site.is_system, *env) is Ok && remove_user_data && env.app_data is None)
            ==> (r matches Err(m) && m@ == MSG_APPDATA_MISSING@),
        r matches Ok(o) ==> {
            let (_, start_menu, desktop) = resolved_paths(site.is_system, *env)->Ok_0;
            &&& o.app_id@ == APP_ID@
            &&& o.assoc@ == release_assoc_view()
            &&& opt_chars(o.install_dir) == (if site.install_dir@.len() == 0 {
                None
            } else {
                Some(site.install_dir@)
            })
            &&& opt_chars(o.start_menu_dir) == Some(start_menu)
            &&& opt_chars(o.desktop_shortcut) == (if site.created_desktop_shortcut {
                Some(path_join(desktop, lnk_name()))
            } else {
                None
            })
            &&& opt_chars(o.user_data_dir) == (if remove_user_data {
                Some(path_join(env.app_data->0@, APP_ID@))
            } else {
                None
            })
        },
        r is Ok <==> (resolved_paths(site.is_system, *env) is Ok && (remove_user_data ==> env.app_data
            is Some)),
{
    let paths = match InstallPaths::resolve(site.is_system, env) {
        Ok(p) => p,
        Err(e) => return Err(e),
    };
    let user_data_dir = if remove_user_data {
        match &env.app_data {
            Some(d) => Some(join_path(d.as_str(), APP_ID)),
            None => return Err(String::from_str(MSG_APPDATA_MISSING)),
        }
    } else {
        None
    };
    let install_dir = if site.install_dir.as_str().unicode_len() == 0 {
        None
    } else {
        Some(site.install_dir.clone())
    };
    let desktop_shortcut = if site.created_desktop_shortcut {
        let lnk = join2(APP_DISPLAY_NAME, LNK_SUFFIX);
        Some(join_path(paths.desktop_dir.as_str(), lnk.as_str()))
    } else {
        None
    };
    Ok(
        UninstallOptions {
            app_id: String::from_str(APP_ID),
            assoc: release_assoc(),
            install_dir,
            start_menu_dir: Some(paths.start_menu_dir),
            desktop_shortcut,
            user_data_dir,
        },
    )
}

/// Joins the errors with line breaks.
pub open spec fn joined(errors: Seq<Seq<char>>) -> Seq<char>
    decreases errors.len(),
{
    if errors.len() == 0 {
        seq![]
    } else if errors.len() == 1 {
        errors[0]
    } else {
        joined(errors.drop_last()) + seq!['\n'] + errors.last()
    }
}

/// The outcome of an uninstall: success when no step failed, otherwise one
/// message with every error on its own line.
pub fn errors_to_result(errors: &Vec<String>) -> (r: Result<(), String>)
    ensures
        errors@.len() == 0 ==> r is Ok,
        errors@.len() > 0 ==> (r matches Err(m) && m@ == joined(errors@.map_values(|e: String| e@))),
{
    let ghost ev = errors@.map_values(|e: String| e@);
    let n = errors.len();
    if n == 0 {
        return Ok(());
    }
    let mut m = errors[0].clone();
    let mut i: usize = 1;
    assert(ev.take(1) =~= seq![ev[0]]);
    while i < n
        invariant
            n == errors@.len(),
            1 <= i <= n,
            ev == errors@.map_values(|e: String| e@),
            m@ == joined(ev.take(i as int)),
        decreases n - i,
    {
        proof {
            reveal_strlit("\n");
        }
        m.append("\n");
        m.append(errors[i].as_str());
        assert(ev.take(i + 1).drop_last() =~= ev.take(i as int));
        i = i + 1;
    }
    assert(ev.take(n as int) =~= ev);
    Err(m)
}

/// The answer to the last piece of uninstall work.
pub enum UninstallEvent {
    Started,
    /// Processes under the install directory were closed, with these errors.
    ProcessesClosed(Vec<String>),
    /// The last removal or registry plan succeeded, or failed with this text.
    Completed(Result<(), String>),
    /// Whether the install directory exists.
    DirChecked(bool),
    /// Whether the file was removed (or was already gone) before the timeout.
    FileRemoved(bool),
}

/// A piece of uninstall work for the caller.
pub enum UninstallWork {
    /// Close the processes running from `dir`; answer `ProcessesClosed`.
    CloseProcesses { dir: String },
    /// Remove the file when it exists; answer `Completed`.
    RemoveFileIfExists { path: String },
    /// Remove the directory tree when it exists; answer `Completed`.
    RemoveDirIfExists { path: String },
    /// Carry out a registry plan on `root`; answer `Completed`.
    ApplyRegistry { root: Hive, ops: Vec<RegOp> },
    /// Answer `DirChecked`.
    CheckDirExists { path: String },
    /// Remove a file that may still be locked, retrying for up to
    /// `timeout_ms` milliseconds; answer `FileRemoved`.
    RemoveLockedFile { path: String, timeout_ms: u64 },
    /// Remove the directory tree; answer `Completed`.
    RemoveDirAll { path: String },
    /// The uninstall is over; these steps failed.
    Finish { errors: Vec<String> },
}

pub struct UninstallAction {
    pub reports: Vec<InstallProgress>,
    pub work: UninstallWork,
}

#[derive(Debug, Clone, Copy, PartialEq, Eq)]
pub enum UninstallPhase {
    Begin,
    Closing,
    DesktopShortcut,
    StartMenu,
    Unassociating,
    Unregistering,
    CheckingInstallDir,
    RemovingMainExe,
    RemovingWizardExe,
    RemovingInstallDir,
    RemovingUserData,
    Finished,
}

/// The uninstall state machine.
pub struct Uninstaller<'a> {
    root: Hive,
    opts: UninstallOptions<'a>,
    phase: UninstallPhase,
    errors: Vec<String>,
}

pub struct UninstallerView {
    pub phase: UninstallPhase,
    pub errors: Seq<Seq<char>>,
    pub root: Hive,
    pub app_id: Seq<char>,
    pub assoc: AssocView,
    pub install_dir: Option<Seq<char>>,
    pub start_menu_dir: Option<Seq<char>>,
    pub desktop_shortcut: Option<Seq<char>>,
    pub user_data_dir: Option<Seq<char>>,
}

impl<'a> View for Uninstaller<'a> {
    type V = UninstallerView;

    closed spec fn view(&self) -> UninstallerView {
        UninstallerView {
            phase: self.phase,
            errors: self.errors@.map_values(|e: String| e@),
            root: self.root,
            app_id: self.opts.app_id@,
            assoc: self.opts.assoc@,
            install_dir: opt_chars(self.opts.install_dir),
            start_menu_dir: opt_chars(self.opts.start_menu_dir),
            desktop_shortcut: opt_chars(self.opts.desktop_shortcut),
            user_data_dir: opt_chars(self.opts.user_data_dir),
        }
    }
}

pub enum UninstallEventView {
    Started,
    ProcessesClosed(Seq<Seq<char>>),
    Completed(Result<(), Seq<char>>),
    DirChecked(bool),
    FileRemoved(bool),
}

pub enum UninstallWorkView {
    CloseProcesses { dir: Seq<char> },
    RemoveFileIfExists { path: Seq<char> },
    RemoveDirIfExists { path: Seq<char> },
    ApplyRegistry { root: Hive, ops: Seq<RegOpView> },
    CheckDirExists { path: Seq<char> },
    RemoveLockedFile { path: Seq<char>, timeout_ms: u64 },
    RemoveDirAll { path: Seq<char> },
    Finish { errors: Seq<Seq<char>> },
}

#[verifier::ext_equal]
pub struct UninstallActionView {
    pub reports: Seq<ProgressView>,
    pub work: UninstallWorkView,
}

impl View for UninstallEvent {
    type V = UninstallEventView;

    open spec fn view(&self) -> UninstallEventView {
        match self {
            UninstallEvent::Started => UninstallEventView::Started,
            UninstallEvent::ProcessesClosed(es) => UninstallEventView::ProcessesClosed(
                es@.map_values(|e: String| e@),
            ),
            UninstallEvent::Completed(r) => UninstallEventView::Completed(result_view(*r)),
            UninstallEvent::DirChecked(b) => UninstallEventView::DirChecked(*b),
            UninstallEvent::FileRemoved(b) => UninstallEventView::FileRemoved(*b),
        }
    }
}

impl View for UninstallWork {
    type V = UninstallWorkView;

    open spec fn view(&self) -> UninstallWorkView {
        match self {
            UninstallWork::CloseProcesses { dir } => UninstallWorkView::CloseProcesses { dir: dir@ },
            UninstallWork::RemoveFileIfExists { path } => UninstallWorkView::RemoveFileIfExists {
                path: path@,
            },
            UninstallWork::RemoveDirIfExists { path } => UninstallWorkView::RemoveDirIfExists {
                path: path@,
            },
            UninstallWork::ApplyRegistry { root, ops } => UninstallWorkView::ApplyRegistry {
                root: *root,
                ops: plan_view(ops@),
            },
            UninstallWork::CheckDirExists { path } => UninstallWorkView::CheckDirExists {
                path: path@,
            },
            UninstallWork::RemoveLockedFile { path, timeout_ms } =>
            UninstallWorkView::RemoveLockedFile { path: path@, timeout_ms: *timeout_ms },
            UninstallWork::RemoveDirAll { path } => UninstallWorkView::RemoveDirAll { path: path@ },
            UninstallWork::Finish { errors } => UninstallWorkView::Finish {
                errors: errors@.map_values(|e: String| e@),
            },
        }
    }
}

impl View for UninstallAction {
    type V = UninstallActionView;

    open spec fn view(&self) -> UninstallActionView {
        UninstallActionView { reports: reports_view(self.reports@), work: self.work@ }
    }
}

pub const STEP_FILES: &'static str = "files";

pub const MSG_REMOVING_SHORTCUTS: &'static str = "正在删除快捷方式...";

pub const MSG_CLEANING_ASSOC: &'static str = "正在清理文件关联...";

pub const MSG_CLEANING_REGISTRY: &'static str = "正在清理注册表...";

pub const MSG_REMOVING_FILES: &'static str = "正在删除程序文件...";

pub const MSG_REMOVING_USER_DATA: &'static str = "正在删除用户数据...";

pub const MSG_DESKTOP_FAILED: &'static str = "删除桌面快捷方式失败: ";

pub const MSG_START_MENU_FAILED: &'static str = "删除开始菜单快捷方式失败: ";

pub const MSG_DIR_FAILED: &'static str = "删除安装目录失败: ";

pub const MSG_USER_DATA_FAILED: &'static str = "删除用户数据失败: ";

pub const MSG_LOCKED_PREFIX: &'static str = "删除 ";

pub const MSG_LOCKED_SUFFIX: &'static str = " 超时（文件被占用）";

/// How long a locked executable may take to be released.
pub const LOCKED_FILE_TIMEOUT_MS: u64 = 10000;

pub open spec fn u_close_report() -> ProgressView {
    running_view(STEP_CLOSE@, 5, MSG_CLOSING@ + APP_DISPLAY_NAME@ + "..."@)
}

pub open spec fn u_shortcut_report() -> ProgressView {
    running_view(STEP_SHORTCUT@, 20, MSG_REMOVING_SHORTCUTS@)
}

pub open spec fn u_assoc_report() -> ProgressView {
    running_view(STEP_REGISTER@, 40, MSG_CLEANING_ASSOC@)
}

pub open spec fn u_registry_report() -> ProgressView {
    running_view(STEP_REGISTER@, 60, MSG_CLEANING_REGISTRY@)
}

pub open spec fn u_files_report() -> ProgressView {
    running_view(STEP_FILES@, 80, MSG_REMOVING_FILES@)
}

pub open spec fn u_user_data_report() -> ProgressView {
    running_view(STEP_FILES@, 90, MSG_REMOVING_USER_DATA@)
}

/// The errors with `prefix + e` added when `r` failed with `e`.
pub open spec fn note(errors: Seq<Seq<char>>, prefix: Seq<char>, r: Result<(), Seq<char>>) -> Seq<
    Seq<char>,
> {
    match r {
        Ok(()) => errors,
        Err(e) => errors.push(prefix + e),
    }
}

pub open spec fn u_act(reports: Seq<ProgressView>, work: UninstallWorkView) -> UninstallActionView {
    UninstallActionView { reports, work }
}

pub open spec fn u_with(s: UninstallerView, phase: UninstallPhase, errors: Seq<Seq<char>>) -> UninstallerView {
    UninstallerView { phase, errors, ..s }
}

/// Last step: the user data when asked for, then the end.
pub open spec fn u_enter_user_data(s: UninstallerView, reports: Seq<ProgressView>) -> (
    UninstallerView,
    UninstallActionView,
) {
    match s.user_data_dir {
        Some(u) => (
            u_with(s, UninstallPhase::RemovingUserData, s.errors),
            u_act(reports.push(u_user_data_report()), UninstallWorkView::RemoveDirIfExists { path: u }),
        ),
        None => (
            u_with(s, UninstallPhase::Finished, s.errors),
            u_act(reports, UninstallWorkView::Finish { errors: s.errors }),
        ),
    }
}

/// The file association surface, after the shortcuts.
pub open spec fn u_enter_unassoc(s: UninstallerView, reports: Seq<ProgressView>) -> (
    UninstallerView,
    UninstallActionView,
) {
    (
        u_with(s, UninstallPhase::Unassociating, s.errors),
        u_act(
            reports.push(u_assoc_report()),
            UninstallWorkView::ApplyRegistry { root: s.root, ops: unregister_plan(s.assoc) },
        ),
    )
}

/// The start menu group, when there is one.
pub open spec fn u_enter_start_menu(s: UninstallerView, reports: Seq<ProgressView>) -> (
    UninstallerView,
    UninstallActionView,
) {
    match s.start_menu_dir {
        Some(d) => (
            u_with(s, UninstallPhase::StartMenu, s.errors),
            u_act(reports, UninstallWorkView::RemoveDirIfExists { path: d }),
        ),
        None => u_enter_unassoc(s, reports),
    }
}

/// The shortcut step: the desktop shortcut when one was made, then the start menu.
pub open spec fn u_enter_shortcuts(s: UninstallerView) -> (UninstallerView, UninstallActionView) {
    let reports = seq![u_shortcut_report()];
    match s.desktop_shortcut {
        Some(l) => (
            u_with(s, UninstallPhase::DesktopShortcut, s.errors),
            u_act(reports, UninstallWorkView::RemoveFileIfExists { path: l }),
        ),
        None => u_enter_start_menu(s, reports),
    }
}

/// The message of an executable still locked after the timeout.
pub open spec fn locked_error(path: Seq<char>) -> Seq<char> {
    MSG_LOCKED_PREFIX@ + path + MSG_LOCKED_SUFFIX@
}

/// Whether the uninstall machine in state `s` takes event `e`.
pub open spec fn uninstall_accepts(s: UninstallerView, e: UninstallEventView) -> bool {
    match s.phase {
        UninstallPhase::Begin => e is Started,
        UninstallPhase::Closing => e is ProcessesClosed,
        UninstallPhase::CheckingInstallDir => e is DirChecked,
        UninstallPhase::RemovingMainExe | UninstallPhase::RemovingWizardExe => e is FileRemoved,
        UninstallPhase::Finished => false,
        _ => e is Completed,
    }
}

/// The states where an install directory is being removed have one.
pub open spec fn uninstall_wf(s: UninstallerView) -> bool {
    (s.phase == UninstallPhase::Closing || s.phase == UninstallPhase::CheckingInstallDir || s.phase
        == UninstallPhase::RemovingMainExe || s.phase == UninstallPhase::RemovingWizardExe
        || s.phase == UninstallPhase::RemovingInstallDir) ==> s.install_dir is Some
}

/// The next state and action of the uninstall from state `s` on event `e`.
pub open spec fn uninstall_step(s: UninstallerView, e: UninstallEventView) -> (
    UninstallerView,
    UninstallActionView,
) {
    match (s.phase, e) {
        (UninstallPhase::Begin, _) => match s.install_dir {
            Some(d) => (
                u_with(s, UninstallPhase::Closing, s.errors),
                u_act(seq![u_close_report()], UninstallWorkView::CloseProcesses { dir: d }),
            ),
            None => u_enter_shortcuts(s),
        },
        (UninstallPhase::Closing, UninstallEventView::ProcessesClosed(es)) => u_enter_shortcuts(
            u_with(s, s.phase, s.errors + es),
        ),
        (UninstallPhase::DesktopShortcut, UninstallEventView::Completed(r)) => u_enter_start_menu(
            u_with(s, s.phase, note(s.errors, MSG_DESKTOP_FAILED@, r)),
            seq![],
        ),
        (UninstallPhase::StartMenu, UninstallEventView::Completed(r)) => u_enter_unassoc(
            u_with(s, s.phase, note(s.errors, MSG_START_MENU_FAILED@, r)),
            seq![],
        ),
        (UninstallPhase::Unassociating, UninstallEventView::Completed(r)) => (
            u_with(s, UninstallPhase::Unregistering, note(s.errors, seq![], r)),
            u_act(
                seq![u_registry_report()],
                UninstallWorkView::ApplyRegistry {
                    root: s.root,
                    ops: remove_uninstall_info_plan(s.app_id),
                },
            ),
        ),
        (UninstallPhase::Unregistering, UninstallEventView::Completed(r)) => {
            let s2 = u_with(s, s.phase, note(s.errors, seq![], r));
            match s.install_dir {
                Some(d) => (
                    u_with(s2, UninstallPhase::CheckingInstallDir, s2.errors),
                    u_act(seq![u_files_report()], UninstallWorkView::CheckDirExists { path: d }),
                ),
                None => u_enter_user_data(s2, seq![u_files_report()]),
            }
        },
        (UninstallPhase::CheckingInstallDir, UninstallEventView::DirChecked(exists)) => if exists {
            (
                u_with(s, UninstallPhase::RemovingMainExe, s.errors),
                u_act(
                    seq![],
                    UninstallWorkView::RemoveLockedFile {
                        path: path_join(s.install_dir->0, MAIN_EXE_NAME@),
                        timeout_ms: LOCKED_FILE_TIMEOUT_MS,
                    },
                ),
            )
        } else {
            u_enter_user_data(s, seq![])
        },
        (UninstallPhase::RemovingMainExe, UninstallEventView::FileRemoved(ok)) => {
            let path = path_join(s.install_dir->0, MAIN_EXE_NAME@);
            (
                u_with(
                    s,
                    UninstallPhase::RemovingWizardExe,
                    if ok {
                        s.errors
                    } else {
                        s.errors.push(locked_error(path))
                    },
                ),
                u_act(
                    seq![],
                    UninstallWorkView::RemoveLockedFile {
                        path: path_join(s.install_dir->0, WIZARD_EXE_NAME@),
                        timeout_ms: LOCKED_FILE_TIMEOUT_MS,
                    },
                ),
            )
        },
        (UninstallPhase::RemovingWizardExe, UninstallEventView::FileRemoved(ok)) => {
            let path = path_join(s.install_dir->0, WIZARD_EXE_NAME@);
            (
                u_with(
                    s,
                    UninstallPhase::RemovingInstallDir,
                    if ok {
                        s.errors
                    } else {
                        s.errors.push(locked_error(path))
                    },
                ),
                u_act(seq![], UninstallWorkView::RemoveDirAll { path: s.install_dir->0 }),
            )
        },
        (UninstallPhase::RemovingInstallDir, UninstallEventView::Completed(r)) => u_enter_user_data(
            u_with(s, s.phase, note(s.errors, MSG_DIR_FAILED@, r)),
            seq![],
        ),
        (UninstallPhase::RemovingUserData, UninstallEventView::Completed(r)) => {
            let errors = note(s.errors, MSG_USER_DATA_FAILED@, r);
            (
                u_with(s, UninstallPhase::Finished, errors),
                u_act(seq![], UninstallWorkView::Finish { errors }),
            )
        },
        _ => (s, u_act(seq![], UninstallWorkView::Finish { errors: s.errors })),
    }
}

fn u_report(step: &str, percent: u8, message: &str) -> (r: InstallProgress)
    ensures
        r@ == running_view(step@, percent, message@),
{
    InstallProgress::running(step, percent, String::from_str(message))
}

fn reports_of(p: InstallProgress) -> (r: Vec<InstallProgress>)
    ensures
        reports_view(r@) == seq![p@],
{
    let mut v: Vec<InstallProgress> = Vec::new();
    v.push(p);
    assert(reports_view(v@) =~= seq![p@]);
    v
}

fn no_reports() -> (r: Vec<InstallProgress>)
    ensures
        reports_view(r@) == Seq::<ProgressView>::empty(),
{
    let v: Vec<InstallProgress> = Vec::new();
    assert(reports_view(v@) =~= Seq::<ProgressView>::empty());
    v
}

fn add_report(v: &mut Vec<InstallProgress>, p: InstallProgress)
    ensures
        reports_view(final(v)@) == reports_view(old(v)@).push(p@),
{
    v.push(p);
    assert(reports_view(v@) =~= reports_view(old(v)@).push(p@));
}

fn u_action(reports: Vec<InstallProgress>, work: UninstallWork) -> (r: UninstallAction)
    ensures
        r@ == u_act(reports_view(reports@), work@),
{
    UninstallAction { reports, work }
}

impl<'a> Uninstaller<'a> {
    /// A machine about to uninstall with `opts`, on registry root `root`.
    fn new(root: Hive, opts: UninstallOptions<'a>) -> (r: Uninstaller<'a>)
        ensures
            r@.phase == UninstallPhase::Begin,
            r@.errors == Seq::<Seq<char>>::empty(),
            r@.root == root,
            r@.app_id == opts.app_id@,
            r@.assoc == opts.assoc@,
            r@.install_dir == opt_chars(opts.install_dir),
            r@.start_menu_dir == opt_chars(opts.start_menu_dir),
            r@.desktop_shortcut == opt_chars(opts.desktop_shortcut),
            r@.user_data_dir == opt_chars(opts.user_data_dir),
            uninstall_wf(r@),
    {
        let r = Uninstaller { root, opts, phase: UninstallPhase::Begin, errors: Vec::new() };
        assert(r@.errors =~= Seq::<Seq<char>>::empty());
        r
    }

    fn record(&mut self, prefix: &str, r: Result<(), String>)
        ensures
            final(self)@ == u_with(old(self)@, old(self)@.phase, note(old(self)@.errors, prefix@, result_view(r))),
    {
        match r {
            Ok(()) => {},
            Err(e) => {
                self.errors.push(join2(prefix, e.as_str()));
                assert(self@.errors =~= old(self)@.errors.push(prefix@ + e@));
            },
        }
        assert(self@ =~= u_with(old(self)@, old(self)@.phase, note(old(self)@.errors, prefix@, result_view(r))));
    }

    fn finish(&mut self, reports: Vec<InstallProgress>) -> (r: UninstallAction)
        ensures
            final(self)@ == u_with(old(self)@, UninstallPhase::Finished, old(self)@.errors),
            r@ == u_act(reports_view(reports@), UninstallWorkView::Finish { errors: old(self)@.errors }),
    {
        self.phase = UninstallPhase::Finished;
        let errors = self.errors.clone();
        assert(errors@ =~= self.errors@);
        u_action(reports, UninstallWork::Finish { errors })
    }

    fn enter_user_data(&mut self, reports: Vec<InstallProgress>) -> (r: UninstallAction)
        ensures
            (final(self)@, r@) == u_enter_user_data(old(self)@, reports_view(reports@)),
            uninstall_wf(final(self)@),
    {
        match &self.opts.user_data_dir {
            Some(u) => {
                let path = u.clone();
                let mut reports = reports;
                add_report(&mut reports, u_report(STEP_FILES, 90, MSG_REMOVING_USER_DATA));
                self.phase = UninstallPhase::RemovingUserData;
                u_action(reports, UninstallWork::RemoveDirIfExists { path })
            },
            None => self.finish(reports),
        }
    }

    fn enter_unassoc(&mut self, reports: Vec<InstallProgress>) -> (r: UninstallAction)
        ensures
            (final(self)@, r@) == u_enter_unassoc(old(self)@, reports_view(reports@)),
            uninstall_wf(final(self)@),
    {
        let mut reports = reports;
        add_report(&mut reports, u_report(STEP_REGISTER, 40, MSG_CLEANING_ASSOC));
        self.phase = UninstallPhase::Unassociating;
        let ops = unregister_file_associations(&self.opts.assoc);
        u_action(reports, UninstallWork::ApplyRegistry { root: self.root, ops })
    }

    fn enter_start_menu(&mut self, reports: Vec<InstallProgress>) -> (r: UninstallAction)
        ensures
            (final(self)@, r@) == u_enter_start_menu(old(self)@, reports_view(reports@)),
            uninstall_wf(final(self)@),
    {
        match &self.opts.start_menu_dir {
            Some(d) => {
                let path = d.clone();
                self.phase = UninstallPhase::StartMenu;
                u_action(reports, UninstallWork::RemoveDirIfExists { path })
            },
            None => self.enter_unassoc(reports),
        }
    }

    fn enter_shortcuts(&mut self) -> (r: UninstallAction)
        ensures
            (final(self)@, r@) == u_enter_shortcuts(old(self)@),
            uninstall_wf(final(self)@),
    {
        let reports = reports_of(u_report(STEP_SHORTCUT, 20, MSG_REMOVING_SHORTCUTS));
        match &self.opts.desktop_shortcut {
            Some(l) => {
                let path = l.clone();
                self.phase = UninstallPhase::DesktopShortcut;
                u_action(reports, UninstallWork::RemoveFileIfExists { path })
            },
            None => self.enter_start_menu(reports),
        }
    }

    fn install_dir(&self) -> (r: &String)
        requires
            self@.install_dir is Some,
        ensures
            Some(r@) == self@.install_dir,
    {
        match &self.opts.install_dir {
            Some(d) => d,
            None => {
                assert(false);
                &self.opts.app_id
            },
        }
    }

    /// Takes the answer to the last piece of work and gives the next action.
    pub fn step(&mut self, event: UninstallEvent) -> (r: UninstallAction)
        requires
            uninstall_wf(old(self)@),
            uninstall_accepts(old(self)@, event@),
        ensures
            (final(self)@, r@) == uninstall_step(old(self)@, event@),
            uninstall_wf(final(self)@),
    {
        match self.phase {
            UninstallPhase::Begin => {
                match &self.opts.install_dir {
                    Some(d) => {
                        let dir = d.clone();
                        self.phase = UninstallPhase::Closing;
                        let m = join3(MSG_CLOSING, APP_DISPLAY_NAME, "...");
                        u_action(
                            reports_of(InstallProgress::running(STEP_CLOSE, 5, m)),
                            UninstallWork::CloseProcesses { dir },
                        )
                    },
                    None => self.enter_shortcuts(),
                }
            },
            UninstallPhase::Closing => {
                let es = match event {
                    UninstallEvent::ProcessesClosed(es) => es,
                    _ => Vec::new(),
                };
                let ghost before = self@.errors;
                let mut es = es;
                self.errors.append(&mut es);
                assert(self@.errors =~= before + event@->ProcessesClosed_0);
                self.enter_shortcuts()
            },
            UninstallPhase::DesktopShortcut => {
                match event {
                    UninstallEvent::Completed(r) => self.record(MSG_DESKTOP_FAILED, r),
                    _ => {},
                }
                self.enter_start_menu(no_reports())
            },
            UninstallPhase::StartMenu => {
                match event {
                    UninstallEvent::Completed(r) => self.record(MSG_START_MENU_FAILED, r),
                    _ => {},
                }
                self.enter_unassoc(no_reports())
            },
            UninstallPhase::Unassociating => {
                match event {
                    UninstallEvent::Completed(r) => self.record("", r),
                    _ => {},
                }
                proof {
                    reveal_strlit("");
                }
                assert(""@ =~= Seq::<char>::empty());
                self.phase = UninstallPhase::Unregistering;
                let ops = remove_uninstall_info(self.opts.app_id.as_str());
                u_action(
                    reports_of(u_report(STEP_REGISTER, 60, MSG_CLEANING_REGISTRY)),
                    UninstallWork::ApplyRegistry { root: self.root, ops },
                )
            },
            UninstallPhase::Unregistering => {
                match event {
                    UninstallEvent::Completed(r) => self.record("", r),
                    _ => {},
                }
                proof {
                    reveal_strlit("");
                }
                assert(""@ =~= Seq::<char>::empty());
                let reports = reports_of(u_report(STEP_FILES, 80, MSG_REMOVING_FILES));
                match &self.opts.install_dir {
                    Some(d) => {
                        let path = d.clone();
                        self.phase = UninstallPhase::CheckingInstallDir;
                        u_action(reports, UninstallWork::CheckDirExists { path })
                    },
                    None => self.enter_user_data(reports),
                }
            },
            UninstallPhase::CheckingInstallDir => {
                let exists = match event {
                    UninstallEvent::DirChecked(b) => b,
                    _ => false,
                };
                if exists {
                    let path = join_path(self.install_dir().as_str(), MAIN_EXE_NAME);
                    self.phase = UninstallPhase::RemovingMainExe;
                    u_action(
                        no_reports(),
                        UninstallWork::RemoveLockedFile { path, timeout_ms: LOCKED_FILE_TIMEOUT_MS },
                    )
                } else {
                    self.enter_user_data(no_reports())
                }
            },
            UninstallPhase::RemovingMainExe => {
                let ok = match event {
                    UninstallEvent::FileRemoved(b) => b,
                    _ => true,
                };
                let path = join_path(self.install_dir().as_str(), MAIN_EXE_NAME);
                if !ok {
                    let m = join3(MSG_LOCKED_PREFIX, path.as_str(), MSG_LOCKED_SUFFIX);
                    self.errors.push(m);
                }
                let next = join_path(self.install_dir().as_str(), WIZARD_EXE_NAME);
                self.phase = UninstallPhase::RemovingWizardExe;
                proof {
                    let e2 = if ok {
                        old(self)@.errors
                    } else {
                        old(self)@.errors.push(locked_error(path@))
                    };
                    assert(self@.errors =~= e2);
                }
                u_action(
                    no_reports(),
                    UninstallWork::RemoveLockedFile { path: next, timeout_ms: LOCKED_FILE_TIMEOUT_MS },
                )
            },
            UninstallPhase::RemovingWizardExe => {
                let ok = match event {
                    UninstallEvent::FileRemoved(b) => b,
                    _ => true,
                };
                let path = join_path(self.install_dir().as_str(), WIZARD_EXE_NAME);
                if !ok {
                    let m = join3(MSG_LOCKED_PREFIX, path.as_str(), MSG_LOCKED_SUFFIX);
                    self.errors.push(m);
                }
                let dir = self.install_dir().clone();
                self.phase = UninstallPhase::RemovingInstallDir;
                proof {
                    let e2 = if ok {
                        old(self)@.errors
                    } else {
                        old(self)@.errors.push(locked_error(path@))
                    };
                    assert(self@.errors =~= e2);
                }
                u_action(no_reports(), UninstallWork::RemoveDirAll { path: dir })
            },
            UninstallPhase::RemovingInstallDir => {
                match event {
                    UninstallEvent::Completed(r) => self.record(MSG_DIR_FAILED, r),
                    _ => {},
                }
                self.enter_user_data(no_reports())
            },
            UninstallPhase::RemovingUserData => {
                match event {
                    UninstallEvent::Completed(r) => self.record(MSG_USER_DATA_FAILED, r),
                    _ => {},
                }
                self.finish(no_reports())
            },
            UninstallPhase::Finished => {
                let errors = self.errors.clone();
                assert(errors@ =~= self.errors@);
                u_action(no_reports(), UninstallWork::Finish { errors })
            },
        }
    }
}

/// The highest percentage reported so far (at most), which every later
/// report reaches at least.
pub open spec fn uninstall_floor(s: UninstallerView) -> int {
    match s.phase {
        UninstallPhase::Begin => 0,
        UninstallPhase::Closing => 5,
        UninstallPhase::DesktopShortcut | UninstallPhase::StartMenu => 20,
        UninstallPhase::Unassociating => 40,
        UninstallPhase::Unregistering => 60,
        UninstallPhase::RemovingUserData => 90,
        UninstallPhase::Finished => 100,
        _ => 80,
    }
}

/// Uninstall progress never goes back: the reports of one step are in
/// non-decreasing order, none below what was reported before, none above
/// what later steps report.
pub proof fn lemma_uninstall_progress_monotonic(s: UninstallerView, e: UninstallEventView)
    requires
        uninstall_accepts(s, e),
    ensures
        ({
            let (s2, a) = uninstall_step(s, e);
            &&& uninstall_floor(s) <= uninstall_floor(s2)
            &&& forall|i: int|
                0 <= i < a.reports.len() ==> uninstall_floor(s) <= #[trigger] a.reports[i].percent
                    <= uninstall_floor(s2)
            &&& forall|i: int, j: int|
                0 <= i <= j < a.reports.len() ==> #[trigger] a.reports[i].percent
                    <= #[trigger] a.reports[j].percent
        }),
{
}

/// A failing step never stops the uninstall early nor loses an earlier
/// error: the errors collected so far stay, in order, and the final work
/// hands back exactly the collected list.
pub proof fn lemma_uninstall_errors_kept(s: UninstallerView, e: UninstallEventView)
    requires
        uninstall_accepts(s, e),
    ensures
        ({
            let (s2, a) = uninstall_step(s, e);
            &&& s.errors.len() <= s2.errors.len()
            &&& s2.errors.subrange(0, s.errors.len() as int) == s.errors
            &&& a.work is Finish ==> a.work == UninstallWorkView::Finish { errors: s2.errors }
        }),
{
    let (s2, a) = uninstall_step(s, e);
    assert(s2.errors.subrange(0, s.errors.len() as int) =~= s.errors);
}

/// Whether an answer reports no failure.
pub open spec fn clean_answer(e: UninstallEventView) -> bool {
    match e {
        UninstallEventView::ProcessesClosed(es) => es.len() == 0,
        UninstallEventView::Completed(r) => r is Ok,
        UninstallEventView::FileRemoved(ok) => ok,
        _ => true,
    }
}

/// Uninstalling where nothing fails (nothing left to remove counts as
/// success) collects no error.
pub proof fn lemma_uninstall_clean_answers_add_no_error(s: UninstallerView, e: UninstallEventView)
    requires
        uninstall_accepts(s, e),
        clean_answer(e),
    ensures
        uninstall_step(s, e).0.errors == s.errors,
{
    if let UninstallEventView::ProcessesClosed(es) = e {
        assert(s.errors + es =~= s.errors);
    }
}

/// The uninstall of `opts` on registry root `root`, as a machine to drive
/// (see `Uninstaller::step`), starting with the `Started` event; it ends
/// with the list of the steps that failed (empty: all succeeded).
pub fn run_uninstall<'a>(root: Hive, opts: UninstallOptions<'a>) -> (r: Uninstaller<'a>)
    ensures
        r@.phase == UninstallPhase::Begin,
        r@.errors == Seq::<Seq<char>>::empty(),
        r@.root == root,
        r@.app_id == opts.app_id@,
        r@.assoc == opts.assoc@,
        r@.install_dir == opt_chars(opts.install_dir),
        r@.start_menu_dir == opt_chars(opts.start_menu_dir),
        r@.desktop_shortcut == opt_chars(opts.desktop_shortcut),
        r@.user_data_dir == opt_chars(opts.user_data_dir),
        uninstall_wf(r@),
{
    Uninstaller::new(root, opts)
}

/// The release uninstall of a site (shared by the wizard, the elevated
/// worker and the command line): the options of `uninstall_options_for_site`
/// on the root of the site's install kind.
pub fn run_uninstall_for_site(
    site: &UninstallSite,
    remove_user_data: bool,
    env: &KnownFolders,
) -> (r: Result<Uninstaller<'static>, String>)
    ensures
        resolved_paths(site.is_system, *env) matches Err(e) ==> (r matches Err(m) && m@ == e),
        (resolved_paths(site.is_system, *env) is Ok && remove_user_data && env.app_data is None)
            ==> (r matches Err(m) && m@ == MSG_APPDATA_MISSING@),
        r is Ok <==> (resolved_paths(site.is_system, *env) is Ok && (remove_user_data ==> env.app_data
            is Some)),
        r matches Ok(m) ==> {
            let (_, start_menu, desktop) = resolved_paths(site.is_system, *env)->Ok_0;
            &&& m@.phase == UninstallPhase::Begin
            &&& m@.errors == Seq::<Seq<char>>::empty()
            &&& m@.root == (if site.is_system {
                Hive::LocalMachine
            } else {
                Hive::CurrentUser
            })
            &&& m@.app_id == APP_ID@
            &&& m@.assoc == release_assoc_view()
            &&& m@.install_dir == (if site.install_dir@.len() == 0 {
                None
            } else {
                Some(site.install_dir@)
            })
            &&& m@.start_menu_dir == Some(start_menu)
            &&& m@.desktop_shortcut == (if site.created_desktop_shortcut {
                Some(path_join(desktop, lnk_name()))
            } else {
                None
            })
            &&& m@.user_data_dir == (if remove_user_data {
                Some(path_join(env.app_data->0@, APP_ID@))
            } else {
                None
            })
            &&& uninstall_wf(m@)
        },
{
    let opts = match uninstall_options_for_site(site, remove_user_data, env) {
        Ok(o) => o,
        Err(e) => return Err(e),
    };
    Ok(Uninstaller::new(root_for(site.is_system), opts))
}

} // verus!
