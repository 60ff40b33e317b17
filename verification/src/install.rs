//! Install orchestration as a state machine: the caller performs each piece
//! of work the machine asks for (file system, processes, registry, shortcuts)
//! and answers with its outcome; the bundle the machine holds and reads
//! itself, through methods that give the answers to its bundle work. The
//! machine decides the order, the progress reports and the outcome. Steps: close running processes when overwriting,
//! extract the bundle (0–80%), check the uninstaller, save the install info,
//! write the control panel entry, register the file association (optional),
//! create the shortcuts (a failure only warns), done.
use vstd::prelude::*;
use vstd::string::*;

use crate::args::ElevatedArgs;
use crate::bundle::{
    embedded_bundle, entry_count, names_dir, open_bundle, portable_name, read_bundle_entry,
    read_entry_data, stays_inside, zip_archive_names, zip_entry_content, zip_entry_names,
    zip_entry_read, Archive, BundleEntry, MSG_NOT_EMBEDDED, MSG_READ_BUNDLE,
};
use crate::config::{
    release_assoc, release_assoc_view, APP_DISPLAY_NAME, APP_ID, MAIN_EXE_NAME, PUBLISHER,
    WIZARD_EXE_NAME,
};
use crate::paths::{join_path, path_join, resolved_paths, InstallPaths, KnownFolders};
use crate::progress::{
    extract_percent, extract_percent_of, finished_view, lemma_extract_percent_monotonic,
    running_view, InstallProgress, ProgressView, MSG_INSTALL_DONE,
};
use crate::registry::{
    plan_view, register_file_associations, register_plan, root_for, write_uninstall_info,
    uninstall_info_plan, AssocParams, AssocView, Hive, RegOp, RegOpView, UninstallInfo,
    UninstallInfoView,
};
use crate::text::{decimal, decimal_of, has_prefix, join2, join3, join4};

verus! {

/// Name of the file in the install directory that records the install.
pub const INSTALL_INFO_FILE: &'static str = "install-info.json";

/// Install metadata written into the install directory; the uninstaller
/// reads it back to learn the choices made at install time.
#[derive(Debug, Clone, PartialEq)]
pub struct InstallInfo {
    /// true: system-wide (HKLM + Program Files); false: per user (HKCU + LOCALAPPDATA).
    pub is_system: bool,
    pub version: String,
    pub install_dir: String,
    pub app_id: String,
    pub progid: String,
    /// Whether the install made a desktop shortcut (the uninstall removes it then).
    pub created_desktop_shortcut: bool,
    /// Whether the install registered the file association.
    pub file_assoc: bool,
}

pub struct InstallInfoView {
    pub is_system: bool,
    pub version: Seq<char>,
    pub install_dir: Seq<char>,
    pub app_id: Seq<char>,
    pub progid: Seq<char>,
    pub created_desktop_shortcut: bool,
    pub file_assoc: bool,
}

impl View for InstallInfo {
    type V = InstallInfoView;

    open spec fn view(&self) -> InstallInfoView {
        InstallInfoView {
            is_system: self.is_system,
            version: self.version@,
            install_dir: self.install_dir@,
            app_id: self.app_id@,
            progid: self.progid@,
            created_desktop_shortcut: self.created_desktop_shortcut,
            file_assoc: self.file_assoc,
        }
    }
}

/// The install choices made in the wizard (or rebuilt from `--elevated`).
#[derive(Debug, Clone)]
pub struct InstallOptions {
    /// true: system-wide (HKLM + Program Files); false: per user (HKCU + LOCALAPPDATA).
    pub is_system: bool,
    pub install_dir: String,
    pub desktop_shortcut: bool,
    pub file_assoc: bool,
}

/// The install options of the `--elevated` mode: a system-wide install of
/// the directory and the choices the arguments carry.
pub fn elevated_install_options(parsed: &ElevatedArgs) -> (r: InstallOptions)
    ensures
        r.is_system,
        r.install_dir@ == parsed.install_path@,
        r.desktop_shortcut == parsed.desktop_shortcut,
        r.file_assoc == parsed.file_assoc,
{
    InstallOptions {
        is_system: true,
        install_dir: parsed.install_path.clone(),
        desktop_shortcut: parsed.desktop_shortcut,
        file_assoc: parsed.file_assoc,
    }
}

/// What the install depends on besides the options: the release values, or
/// an isolated setting for tests (HKCU test keys, temporary folders).
pub struct InstallContext<'a> {
    pub root: Hive,
    pub app_id: &'a str,
    pub assoc: AssocParams<'a>,
    pub start_menu_dir: String,
    pub desktop_dir: String,
    pub bundle: &'a [u8],
    pub version: &'a str,
}

/// An existing install found at start-up (the source of the update mode).
#[derive(Debug, Clone, PartialEq)]
pub struct ExistingInstall {
    pub is_system: bool,
    pub install_dir: String,
    /// The installed version, from `install-info.json`.
    pub version: String,
    pub desktop_shortcut: bool,
    pub file_assoc: bool,
}

/// The existing install recorded at an uninstall key's `InstallLocation`:
/// none when the location is missing or empty, or when its
/// `install-info.json` is missing or corrupt (`info` is `None`); otherwise
/// the location with the choices recorded in the file (`is_system` comes from
/// the file, not from the registry root where the key was found).
pub fn existing_install_from(install_location: Option<&str>, info: Option<&InstallInfo>) -> (r:
    Option<ExistingInstall>)
    ensures
        (install_location is None || install_location->0@.len() == 0 || info is None) ==> r
            is None,
        (install_location is Some && install_location->0@.len() > 0 && info is Some) ==> (
        r matches Some(x) && x.install_dir@ == install_location->0@ && x.is_system
            == info->0.is_system && x.version@ == info->0.version@ && x.desktop_shortcut
            == info->0.created_desktop_shortcut && x.file_assoc == info->0.file_assoc),
{
    let dir = match install_location {
        Some(d) => d,
        None => return None,
    };
    if dir.unicode_len() == 0 {
        return None;
    }
    match info {
        None => None,
        Some(i) => Some(
            ExistingInstall {
                is_system: i.is_system,
                install_dir: String::from_str(dir),
                version: i.version.clone(),
                desktop_shortcut: i.created_desktop_shortcut,
                file_assoc: i.file_assoc,
            },
        ),
    }
}

/// The answer to the last piece of work.
pub enum InstallEvent {
    /// The run begins.
    Started,
    /// Whether the install directory already exists.
    DirChecked(bool),
    /// Processes under the install directory were closed, with these warnings.
    ProcessesClosed(Vec<String>),
    /// The bundle opened with this many entries, or failed.
    BundleOpened(Result<usize, String>),
    /// The last piece of work (a directory, a file, the install info, a
    /// registry plan, a shortcut) succeeded or failed with this message.
    Completed(Result<(), String>),
    /// The requested bundle entry, or the failure to read it.
    EntryRead(Result<BundleEntry, String>),
    /// The contents of the requested file entry, or the failure to read them.
    DataRead(Result<Vec<u8>, String>),
    /// Whether the uninstaller was found in the install directory.
    WizardChecked(bool),
}

/// A piece of work for the caller.
pub enum InstallWork {
    /// Answer `DirChecked`.
    CheckDirExists { path: String },
    /// Close the processes running from `dir`; answer `ProcessesClosed`.
    CloseProcesses { dir: String },
    /// Open the bundle; answer with `open_bundle_event`.
    OpenBundle,
    /// Create the install directory with its parents; answer `Completed`.
    CreateDir { path: String },
    /// Read bundle entry `index` for extraction below `dir`; answer with
    /// `read_entry_event`.
    ReadEntry { index: usize, dir: String },
    /// Create directory `path` with its parents; answer `Completed`.
    MakeDir { path: String },
    /// Create the parent directory of `path` with its parents; answer `Completed`.
    MakeParentDir { path: String },
    /// Read the contents of file entry `index`, bound for `dest`; answer with
    /// `read_data_event`.
    ReadData { index: usize, dest: String },
    /// Write `data` to `path`; answer `Completed`.
    WriteFile { path: String, data: Vec<u8> },
    /// Whether the uninstaller exists at `path`; answer `WizardChecked`.
    CheckWizard { path: String },
    /// Save `info` as `install-info.json` in `dir`; answer `Completed`.
    SaveInstallInfo { dir: String, info: InstallInfo },
    /// Carry out a registry plan on `root`; answer `Completed`.
    ApplyRegistry { root: Hive, ops: Vec<RegOp> },
    /// Create a `.lnk` shortcut; answer `Completed`.
    CreateShortcut {
        target: String,
        shortcut: String,
        description: String,
        working_dir: String,
        icon: String,
    },
    /// The run is over with this outcome.
    Finish { result: Result<(), String> },
}

/// Reports to emit, in order, then a piece of work.
pub struct InstallAction {
    pub reports: Vec<InstallProgress>,
    pub work: InstallWork,
}

/// Where the run stands.
#[derive(Debug, Clone, Copy, PartialEq, Eq)]
pub enum InstallPhase {
    Begin,
    CheckingDir,
    Closing,
    Opening,
    CreatingDir,
    Reading,
    MakingParent,
    ReadingData,
    Writing,
    CheckingWizard,
    Saving,
    RegisteringUninstall,
    RegisteringAssoc,
    Shortcuts,
    Finished,
}

/// The install state machine.
pub struct Installer<'a> {
    opts: InstallOptions,
    ctx: InstallContext<'a>,
    phase: InstallPhase,
    /// Number of bundle entries.
    total: usize,
    /// The bundle entry being read or written, or the shortcut being created.
    index: usize,
    /// The last extraction percentage reported.
    last_percent: u8,
    /// Bytes of files extracted so far.
    extracted: u64,
    /// Bytes of the file being written.
    pending: u64,
    /// Where the entry being extracted goes.
    dest: String,
    /// The bundle, once opened.
    archive: Option<Archive>,
}

pub struct InstallerView {
    pub phase: InstallPhase,
    pub total: nat,
    pub index: nat,
    pub last_percent: u8,
    pub extracted: u64,
    pub pending: u64,
    pub dest: Seq<char>,
    pub archive: Option<Archive>,
    pub is_system: bool,
    pub install_dir: Seq<char>,
    pub desktop_shortcut: bool,
    pub file_assoc: bool,
    pub root: Hive,
    pub app_id: Seq<char>,
    pub assoc: AssocView,
    pub start_menu_dir: Seq<char>,
    pub desktop_dir: Seq<char>,
    pub version: Seq<char>,
    pub bundle: Seq<u8>,
}

impl<'a> View for Installer<'a> {
    type V = InstallerView;

    closed spec fn view(&self) -> InstallerView {
        InstallerView {
            phase: self.phase,
            total: self.total as nat,
            index: self.index as nat,
            last_percent: self.last_percent,
            extracted: self.extracted,
            pending: self.pending,
            dest: self.dest@,
            archive: self.archive,
            is_system: self.opts.is_system,
            install_dir: self.opts.install_dir@,
            desktop_shortcut: self.opts.desktop_shortcut,
            file_assoc: self.opts.file_assoc,
            root: self.ctx.root,
            app_id: self.ctx.app_id@,
            assoc: self.ctx.assoc@,
            start_menu_dir: self.ctx.start_menu_dir@,
            desktop_dir: self.ctx.desktop_dir@,
            version: self.ctx.version@,
            bundle: self.ctx.bundle@,
        }
    }
}

pub struct BundleEntryView {
    pub dest: Seq<char>,
    pub is_dir: bool,
}

pub enum InstallEventView {
    Started,
    DirChecked(bool),
    ProcessesClosed(Seq<Seq<char>>),
    BundleOpened(Result<nat, Seq<char>>),
    Completed(Result<(), Seq<char>>),
    EntryRead(Result<BundleEntryView, Seq<char>>),
    DataRead(Result<Seq<u8>, Seq<char>>),
    WizardChecked(bool),
}

pub enum InstallWorkView {
    CheckDirExists { path: Seq<char> },
    CloseProcesses { dir: Seq<char> },
    OpenBundle,
    CreateDir { path: Seq<char> },
    ReadEntry { index: nat, dir: Seq<char> },
    MakeDir { path: Seq<char> },
    MakeParentDir { path: Seq<char> },
    ReadData { index: nat, dest: Seq<char> },
    WriteFile { path: Seq<char>, data: Seq<u8> },
    CheckWizard { path: Seq<char> },
    SaveInstallInfo { dir: Seq<char>, info: InstallInfoView },
    ApplyRegistry { root: Hive, ops: Seq<RegOpView> },
    CreateShortcut {
        target: Seq<char>,
        shortcut: Seq<char>,
        description: Seq<char>,
        working_dir: Seq<char>,
        icon: Seq<char>,
    },
    Finish { result: Result<(), Seq<char>> },
}

#[verifier::ext_equal]
pub struct InstallActionView {
    pub reports: Seq<ProgressView>,
    pub work: InstallWorkView,
}

/// The view of a result carrying a message.
pub open spec fn result_view(r: Result<(), String>) -> Result<(), Seq<char>> {
    match r {
        Ok(()) => Ok(()),
        Err(e) => Err(e@),
    }
}

impl View for InstallEvent {
    type V = InstallEventView;

    open spec fn view(&self) -> InstallEventView {
        match self {
            InstallEvent::Started => InstallEventView::Started,
            InstallEvent::DirChecked(b) => InstallEventView::DirChecked(*b),
            InstallEvent::ProcessesClosed(ws) => InstallEventView::ProcessesClosed(
                ws@.map_values(|w: String| w@),
            ),
            InstallEvent::BundleOpened(r) => InstallEventView::BundleOpened(
                match r {
                    Ok(n) => Ok(*n as nat),
                    Err(e) => Err(e@),
                },
            ),
            InstallEvent::Completed(r) => InstallEventView::Completed(result_view(*r)),
            InstallEvent::EntryRead(r) => InstallEventView::EntryRead(
                match r {
                    Ok(e) => Ok(BundleEntryView { dest: e.dest@, is_dir: e.is_dir }),
                    Err(e) => Err(e@),
                },
            ),
            InstallEvent::DataRead(r) => InstallEventView::DataRead(
                match r {
                    Ok(d) => Ok(d@),
                    Err(e) => Err(e@),
                },
            ),
            InstallEvent::WizardChecked(b) => InstallEventView::WizardChecked(*b),
        }
    }
}

impl View for InstallWork {
    type V = InstallWorkView;

    open spec fn view(&self) -> InstallWorkView {
        match self {
            InstallWork::CheckDirExists { path } => InstallWorkView::CheckDirExists { path: path@ },
            InstallWork::CloseProcesses { dir } => InstallWorkView::CloseProcesses { dir: dir@ },
            InstallWork::OpenBundle => InstallWorkView::OpenBundle,
            InstallWork::CreateDir { path } => InstallWorkView::CreateDir { path: path@ },
            InstallWork::ReadEntry { index, dir } => InstallWorkView::ReadEntry {
                index: *index as nat,
                dir: dir@,
            },
            InstallWork::MakeDir { path } => InstallWorkView::MakeDir { path: path@ },
            InstallWork::MakeParentDir { path } => InstallWorkView::MakeParentDir { path: path@ },
            InstallWork::ReadData { index, dest } => InstallWorkView::ReadData {
                index: *index as nat,
                dest: dest@,
            },
            InstallWork::WriteFile { path, data } => InstallWorkView::WriteFile {
                path: path@,
                data: data@,
            },
            InstallWork::CheckWizard { path } => InstallWorkView::CheckWizard { path: path@ },
            InstallWork::SaveInstallInfo { dir, info } => InstallWorkView::SaveInstallInfo {
                dir: dir@,
                info: info@,
            },
            InstallWork::ApplyRegistry { root, ops } => InstallWorkView::ApplyRegistry {
                root: *root,
                ops: plan_view(ops@),
            },
            InstallWork::CreateShortcut { target, shortcut, description, working_dir, icon } =>
            InstallWorkView::CreateShortcut {
                target: target@,
                shortcut: shortcut@,
                description: description@,
                working_dir: working_dir@,
                icon: icon@,
            },
            InstallWork::Finish { result } => InstallWorkView::Finish { result: result_view(*result) },
        }
    }
}

/// The views of a list of reports.
pub open spec fn reports_view(rs: Seq<InstallProgress>) -> Seq<ProgressView> {
    rs.map_values(|p: InstallProgress| p@)
}

impl View for InstallAction {
    type V = InstallActionView;

    open spec fn view(&self) -> InstallActionView {
        InstallActionView { reports: reports_view(self.reports@), work: self.work@ }
    }
}

pub const STEP_CLOSE: &'static str = "close";

pub const STEP_EXTRACT: &'static str = "extract";

pub const STEP_COPY: &'static str = "copy";

pub const STEP_REGISTER: &'static str = "register";

pub const STEP_SHORTCUT: &'static str = "shortcut";

pub const MSG_CLOSING: &'static str = "正在关闭运行中的 ";

pub const MSG_WARNING: &'static str = "警告: ";

pub const MSG_EXTRACTING: &'static str = "正在解压程序文件...";

pub const MSG_EXTRACTING_OPEN: &'static str = "正在解压程序文件 (";

pub const MSG_COPYING: &'static str = "正在复制卸载程序...";

pub const MSG_REGISTERING: &'static str = "正在写入注册表...";

pub const MSG_ASSOCIATING: &'static str = "正在注册文件关联...";

pub const MSG_SHORTCUTS: &'static str = "正在创建快捷方式...";

pub const MSG_SHORTCUT_FAILED: &'static str = "警告: 创建快捷方式 ";

pub const MSG_MISSING_WIZARD: &'static str = "安装包未含卸载程序 ";

pub const MSG_MISSING_WIZARD_TAIL: &'static str = "，安装包损坏或打包错误";

pub const UNINSTALL_SWITCH: &'static str = "\" --uninstall";

pub const LNK_SUFFIX: &'static str = ".lnk";

/// `正在关闭运行中的 {app}...`
pub open spec fn close_report() -> ProgressView {
    running_view(STEP_CLOSE@, 0, MSG_CLOSING@ + APP_DISPLAY_NAME@ + "..."@)
}

/// `警告: {e}` during the close step.
pub open spec fn close_warning(e: Seq<char>) -> ProgressView {
    running_view(STEP_CLOSE@, 0, MSG_WARNING@ + e)
}

pub open spec fn extract_start_report() -> ProgressView {
    running_view(STEP_EXTRACT@, 0, MSG_EXTRACTING@)
}

/// `正在解压程序文件 ({done}/{total})...` at `percent`.
pub open spec fn extract_report(percent: u8, done: nat, total: nat) -> ProgressView {
    running_view(
        STEP_EXTRACT@,
        percent,
        MSG_EXTRACTING_OPEN@ + decimal_of(done) + "/"@ + decimal_of(total) + ")..."@,
    )
}

pub open spec fn copy_report() -> ProgressView {
    running_view(STEP_COPY@, 82, MSG_COPYING@)
}

pub open spec fn register_report() -> ProgressView {
    running_view(STEP_REGISTER@, 88, MSG_REGISTERING@)
}

pub open spec fn assoc_report() -> ProgressView {
    running_view(STEP_REGISTER@, 92, MSG_ASSOCIATING@)
}

pub open spec fn shortcut_report() -> ProgressView {
    running_view(STEP_SHORTCUT@, 96, MSG_SHORTCUTS@)
}

/// `警告: 创建快捷方式 {lnk} 失败（{e}），已跳过`
pub open spec fn shortcut_warning(lnk: Seq<char>, e: Seq<char>) -> ProgressView {
    running_view(
        STEP_SHORTCUT@,
        97,
        MSG_SHORTCUT_FAILED@ + lnk + " 失败（"@ + e + "），已跳过"@,
    )
}

/// The failure of a bundle without the uninstaller: a packaging error.
pub open spec fn missing_wizard_error() -> Seq<char> {
    MSG_MISSING_WIZARD@ + WIZARD_EXE_NAME@ + MSG_MISSING_WIZARD_TAIL@
}

/// Where the uninstaller lands.
pub open spec fn wizard_dest(s: InstallerView) -> Seq<char> {
    path_join(s.install_dir, WIZARD_EXE_NAME@)
}

/// Where the main program lands.
pub open spec fn main_exe(s: InstallerView) -> Seq<char> {
    path_join(s.install_dir, MAIN_EXE_NAME@)
}

/// The install info recorded for this run.
pub open spec fn install_info_of(s: InstallerView) -> InstallInfoView {
    InstallInfoView {
        is_system: s.is_system,
        version: s.version,
        install_dir: s.install_dir,
        app_id: s.app_id,
        progid: s.assoc.progid,
        created_desktop_shortcut: s.desktop_shortcut,
        file_assoc: s.file_assoc,
    }
}

/// Extracted bytes in KiB, capped to `u32`.
pub open spec fn size_kb(bytes: u64) -> u32 {
    if bytes / 1024 > u32::MAX {
        u32::MAX
    } else {
        (bytes / 1024) as u32
    }
}

/// The control panel entry: the uninstall string opens the uninstall wizard
/// UI (its confirmation page is the safety gate).
pub open spec fn uninstall_info_of(s: InstallerView) -> UninstallInfoView {
    UninstallInfoView {
        display_name: APP_DISPLAY_NAME@,
        display_version: s.version,
        publisher: PUBLISHER@,
        uninstall_string: seq!['"'] + wizard_dest(s) + UNINSTALL_SWITCH@,
        install_location: s.install_dir,
        display_icon: main_exe(s),
        estimated_size_kb: size_kb(s.extracted),
    }
}

/// The file association step runs when chosen and when extensions are configured.
pub open spec fn assoc_enabled(s: InstallerView) -> bool {
    s.file_assoc && s.assoc.extensions.len() > 0
}

/// `{app}.lnk`.
pub open spec fn lnk_name() -> Seq<char> {
    APP_DISPLAY_NAME@ + LNK_SUFFIX@
}

/// The shortcuts: the start menu always, the desktop when chosen.
pub open spec fn shortcut_targets(s: InstallerView) -> Seq<Seq<char>> {
    if s.desktop_shortcut {
        seq![path_join(s.start_menu_dir, lnk_name()), path_join(s.desktop_dir, lnk_name())]
    } else {
        seq![path_join(s.start_menu_dir, lnk_name())]
    }
}

pub open spec fn shortcut_work(s: InstallerView, k: int) -> InstallWorkView {
    InstallWorkView::CreateShortcut {
        target: main_exe(s),
        shortcut: shortcut_targets(s)[k],
        description: APP_DISPLAY_NAME@,
        working_dir: s.install_dir,
        icon: main_exe(s),
    }
}

/// The file names of the bundle the machine holds, in archive order (none
/// before it is opened).
pub open spec fn bundle_names(s: InstallerView) -> Seq<Seq<char>> {
    match s.archive {
        Some(a) => zip_entry_names(a),
        None => seq![],
    }
}

/// The bundle is open: it holds the names that `zip` reads from the bundle's
/// bytes, and the entry count is theirs.
pub open spec fn bundle_open(s: InstallerView) -> bool {
    &&& s.archive is Some
    &&& zip_archive_names(s.bundle) == Some(bundle_names(s))
    &&& s.total == bundle_names(s).len()
}

/// Where entry `i` lands: its name joined to the install directory.
pub open spec fn entry_dest(s: InstallerView, i: int) -> Seq<char> {
    path_join(s.install_dir, bundle_names(s)[i])
}

/// Whether an answer agrees with the bundle the machine holds: the bundle
/// opens exactly when `zip` reads its bytes, with as many entries as it
/// names; an entry read gives where the entry's name lands in the install
/// directory and whether the name is a directory's, and is refused only when
/// `zip` cannot read the entry or its name is not one that surely stays
/// inside (see `read_bundle_entry`); file contents are the entry's
/// contents, and their read fails only when `zip` cannot give them. The
/// machine's `open_bundle_event`, `read_entry_event` and `read_data_event`
/// give such answers; other answers are not about the bundle.
pub open spec fn answer_fits(s: InstallerView, e: InstallEventView) -> bool {
    match e {
        InstallEventView::BundleOpened(r) => s.phase == InstallPhase::Opening ==> match r {
            Ok(n) => s.archive is Some && zip_archive_names(s.bundle) == Some(bundle_names(s))
                && n == bundle_names(s).len(),
            Err(_) => zip_archive_names(s.bundle) is None,
        },
        InstallEventView::EntryRead(r) => s.phase == InstallPhase::Reading ==> {
            let name = bundle_names(s)[s.index as int];
            match r {
                Ok(entry) => s.archive is Some && zip_entry_read(s.archive->0, s.index as int)
                    is Some && entry.dest == entry_dest(s, s.index as int) && entry.is_dir
                    == names_dir(name),
                Err(_) => !(s.archive is Some && zip_entry_read(s.archive->0, s.index as int)
                    is Some && portable_name(name) && stays_inside(name)),
            }
        },
        InstallEventView::DataRead(r) => s.phase == InstallPhase::ReadingData ==> match r {
            Ok(d) => s.archive is Some && zip_entry_content(s.archive->0, s.index as int) == Some(
                d,
            ),
            Err(_) => s.archive is Some ==> zip_entry_content(s.archive->0, s.index as int) is None,
        },
        _ => true,
    }
}

/// Whether the machine in state `s` takes event `e`: each piece of work has
/// its own kind of answer, and a finished run takes none.
pub open spec fn install_accepts(s: InstallerView, e: InstallEventView) -> bool {
    match s.phase {
        InstallPhase::Begin => e is Started,
        InstallPhase::CheckingDir => e is DirChecked,
        InstallPhase::Closing => e is ProcessesClosed,
        InstallPhase::Opening => e is BundleOpened,
        InstallPhase::Reading => e is EntryRead,
        InstallPhase::ReadingData => e is DataRead,
        InstallPhase::CheckingWizard => e is WizardChecked,
        InstallPhase::Finished => false,
        _ => e is Completed,
    }
}

/// The well-formed states: an entry index below the count while extracting,
/// with the last percentage being that of the entries done; a shortcut index
/// below the number of shortcuts.
pub open spec fn install_wf(s: InstallerView) -> bool {
    &&& (s.phase == InstallPhase::Reading || s.phase == InstallPhase::MakingParent || s.phase
        == InstallPhase::ReadingData || s.phase == InstallPhase::Writing) ==> s.index
        < s.total && s.last_percent == extract_percent_of(s.index as int, s.total as int)
        && s.last_percent <= 80
    &&& s.phase == InstallPhase::CreatingDir ==> s.last_percent == 0
    &&& (s.phase == InstallPhase::CreatingDir || s.phase == InstallPhase::Reading || s.phase
        == InstallPhase::MakingParent || s.phase == InstallPhase::ReadingData || s.phase
        == InstallPhase::Writing) ==> bundle_open(s)
    &&& (s.phase == InstallPhase::MakingParent || s.phase == InstallPhase::ReadingData || s.phase
        == InstallPhase::Writing) ==> s.dest == entry_dest(s, s.index as int)
    &&& s.phase == InstallPhase::Reading ==> s.pending == 0
    &&& s.phase == InstallPhase::Shortcuts ==> s.index < shortcut_targets(s).len()
}

/// The state with a new phase.
pub open spec fn with_phase(s: InstallerView, p: InstallPhase) -> InstallerView {
    InstallerView { phase: p, ..s }
}

pub open spec fn finish_err(s: InstallerView, e: Seq<char>) -> (InstallerView, InstallActionView) {
    (
        with_phase(s, InstallPhase::Finished),
        InstallActionView { reports: seq![], work: InstallWorkView::Finish { result: Err(e) } },
    )
}

pub open spec fn act(reports: Seq<ProgressView>, work: InstallWorkView) -> InstallActionView {
    InstallActionView { reports, work }
}

/// After the last entry: report the copy step and look for the uninstaller.
pub open spec fn after_extract(s: InstallerView, reports: Seq<ProgressView>) -> (
    InstallerView,
    InstallActionView,
) {
    (
        with_phase(s, InstallPhase::CheckingWizard),
        act(reports.push(copy_report()), InstallWorkView::CheckWizard { path: wizard_dest(s) }),
    )
}

/// Into the shortcut step.
pub open spec fn start_shortcuts(s: InstallerView) -> (InstallerView, InstallActionView) {
    let s2 = InstallerView { phase: InstallPhase::Shortcuts, index: 0, ..s };
    (s2, act(seq![shortcut_report()], shortcut_work(s2, 0)))
}

/// The next state and action of the install from state `s` on event `e`.
pub open spec fn install_step(s: InstallerView, e: InstallEventView) -> (
    InstallerView,
    InstallActionView,
) {
    match (s.phase, e) {
        (InstallPhase::Begin, _) => (
            with_phase(s, InstallPhase::CheckingDir),
            act(seq![], InstallWorkView::CheckDirExists { path: s.install_dir }),
        ),
        (InstallPhase::CheckingDir, InstallEventView::DirChecked(exists)) => if exists {
            (
                with_phase(s, InstallPhase::Closing),
                act(seq![close_report()], InstallWorkView::CloseProcesses { dir: s.install_dir }),
            )
        } else {
            (
                with_phase(s, InstallPhase::Opening),
                act(seq![extract_start_report()], InstallWorkView::OpenBundle),
            )
        },
        (InstallPhase::Closing, InstallEventView::ProcessesClosed(ws)) => (
            with_phase(s, InstallPhase::Opening),
            act(
                ws.map_values(|w: Seq<char>| close_warning(w)).push(extract_start_report()),
                InstallWorkView::OpenBundle,
            ),
        ),
        (InstallPhase::Opening, InstallEventView::BundleOpened(r)) => match r {
            Ok(n) => (
                InstallerView { phase: InstallPhase::CreatingDir, total: n, last_percent: 0, ..s },
                act(seq![], InstallWorkView::CreateDir { path: s.install_dir }),
            ),
            Err(m) => finish_err(s, m),
        },
        (InstallPhase::CreatingDir, InstallEventView::Completed(r)) => match r {
            Ok(()) => if s.total == 0 {
                after_extract(s, seq![])
            } else {
                (
                    InstallerView { phase: InstallPhase::Reading, index: 0, pending: 0, ..s },
                    act(seq![], InstallWorkView::ReadEntry { index: 0, dir: s.install_dir }),
                )
            },
            Err(m) => finish_err(s, m),
        },
        (InstallPhase::Reading, InstallEventView::EntryRead(r)) => match r {
            Ok(entry) => if entry.is_dir {
                (
                    InstallerView { phase: InstallPhase::Writing, pending: 0, dest: entry.dest, ..s },
                    act(seq![], InstallWorkView::MakeDir { path: entry.dest }),
                )
            } else {
                (
                    InstallerView { phase: InstallPhase::MakingParent, dest: entry.dest, ..s },
                    act(seq![], InstallWorkView::MakeParentDir { path: entry.dest }),
                )
            },
            Err(m) => finish_err(s, m),
        },
        (InstallPhase::MakingParent, InstallEventView::Completed(r)) => match r {
            Ok(()) => (
                with_phase(s, InstallPhase::ReadingData),
                act(seq![], InstallWorkView::ReadData { index: s.index, dest: s.dest }),
            ),
            Err(m) => finish_err(s, m),
        },
        (InstallPhase::ReadingData, InstallEventView::DataRead(r)) => match r {
            Ok(data) => (
                InstallerView {
                    phase: InstallPhase::Writing,
                    pending: if data.len() > u64::MAX {
                        u64::MAX
                    } else {
                        data.len() as u64
                    },
                    ..s
                },
                act(seq![], InstallWorkView::WriteFile { path: s.dest, data }),
            ),
            Err(m) => finish_err(s, m),
        },
        (InstallPhase::Writing, InstallEventView::Completed(r)) => match r {
            Ok(()) => {
                let done = s.index + 1;
                let p = extract_percent_of(done as int, s.total as int) as u8;
                let reports = if p != s.last_percent {
                    seq![extract_report(p, done as nat, s.total)]
                } else {
                    seq![]
                };
                let extracted = if s.extracted + s.pending > u64::MAX {
                    u64::MAX
                } else {
                    (s.extracted + s.pending) as u64
                };
                let s2 = InstallerView { extracted, last_percent: p, pending: 0, ..s };
                if done < s.total {
                    (
                        InstallerView { phase: InstallPhase::Reading, index: done as nat, ..s2 },
                        act(
                            reports,
                            InstallWorkView::ReadEntry { index: done as nat, dir: s.install_dir },
                        ),
                    )
                } else {
                    after_extract(s2, reports)
                }
            },
            Err(m) => finish_err(s, m),
        },
        (InstallPhase::CheckingWizard, InstallEventView::WizardChecked(found)) => if found {
            (
                with_phase(s, InstallPhase::Saving),
                act(
                    seq![],
                    InstallWorkView::SaveInstallInfo { dir: s.install_dir, info: install_info_of(s) },
                ),
            )
        } else {
            finish_err(s, missing_wizard_error())
        },
        (InstallPhase::Saving, InstallEventView::Completed(r)) => match r {
            Ok(()) => (
                with_phase(s, InstallPhase::RegisteringUninstall),
                act(
                    seq![register_report()],
                    InstallWorkView::ApplyRegistry {
                        root: s.root,
                        ops: uninstall_info_plan(s.app_id, uninstall_info_of(s)),
                    },
                ),
            ),
            Err(m) => finish_err(s, m),
        },
        (InstallPhase::RegisteringUninstall, InstallEventView::Completed(r)) => match r {
            Ok(()) => if assoc_enabled(s) {
                (
                    with_phase(s, InstallPhase::RegisteringAssoc),
                    act(
                        seq![assoc_report()],
                        InstallWorkView::ApplyRegistry {
                            root: s.root,
                            ops: register_plan(s.assoc, main_exe(s)),
                        },
                    ),
                )
            } else {
                start_shortcuts(s)
            },
            Err(m) => finish_err(s, m),
        },
        (InstallPhase::RegisteringAssoc, InstallEventView::Completed(r)) => match r {
            Ok(()) => start_shortcuts(s),
            Err(m) => finish_err(s, m),
        },
        (InstallPhase::Shortcuts, InstallEventView::Completed(r)) => {
            let reports = match r {
                Ok(()) => seq![],
                Err(m) => seq![shortcut_warning(shortcut_targets(s)[s.index as int], m)],
            };
            if s.index + 1 < shortcut_targets(s).len() {
                let s2 = InstallerView { index: s.index + 1, ..s };
                (s2, act(reports, shortcut_work(s2, s2.index as int)))
            } else {
                (
                    with_phase(s, InstallPhase::Finished),
                    act(
                        reports.push(finished_view(MSG_INSTALL_DONE@)),
                        InstallWorkView::Finish { result: Ok(()) },
                    ),
                )
            }
        },
        _ => (s, act(seq![], InstallWorkView::Finish { result: Ok(()) })),
    }
}

fn report(step: &str, percent: u8, message: String) -> (r: InstallProgress)
    ensures
        r@ == running_view(step@, percent, message@),
{
    InstallProgress::running(step, percent, message)
}

fn make_close_report() -> (r: InstallProgress)
    ensures
        r@ == close_report(),
{
    report(STEP_CLOSE, 0, join3(MSG_CLOSING, APP_DISPLAY_NAME, "..."))
}

fn make_close_warning(e: &str) -> (r: InstallProgress)
    ensures
        r@ == close_warning(e@),
{
    report(STEP_CLOSE, 0, join2(MSG_WARNING, e))
}

fn make_extract_start() -> (r: InstallProgress)
    ensures
        r@ == extract_start_report(),
{
    report(STEP_EXTRACT, 0, String::from_str(MSG_EXTRACTING))
}

fn make_extract_report(percent: u8, done: usize, total: usize) -> (r: InstallProgress)
    ensures
        r@ == extract_report(percent, done as nat, total as nat),
{
    let d = decimal(done as u64);
    let t = decimal(total as u64);
    let mut m = join4(MSG_EXTRACTING_OPEN, d.as_str(), "/", t.as_str());
    m.append(")...");
    report(STEP_EXTRACT, percent, m)
}

fn make_copy_report() -> (r: InstallProgress)
    ensures
        r@ == copy_report(),
{
    report(STEP_COPY, 82, String::from_str(MSG_COPYING))
}

fn make_register_report() -> (r: InstallProgress)
    ensures
        r@ == register_report(),
{
    report(STEP_REGISTER, 88, String::from_str(MSG_REGISTERING))
}

fn make_assoc_report() -> (r: InstallProgress)
    ensures
        r@ == assoc_report(),
{
    report(STEP_REGISTER, 92, String::from_str(MSG_ASSOCIATING))
}

fn make_shortcut_report() -> (r: InstallProgress)
    ensures
        r@ == shortcut_report(),
{
    report(STEP_SHORTCUT, 96, String::from_str(MSG_SHORTCUTS))
}

fn make_shortcut_warning(lnk: &str, e: &str) -> (r: InstallProgress)
    ensures
        r@ == shortcut_warning(lnk@, e@),
{
    let mut m = join4(MSG_SHORTCUT_FAILED, lnk, " 失败（", e);
    m.append("），已跳过");
    report(STEP_SHORTCUT, 97, m)
}

/// An empty list of reports.
fn none() -> (r: Vec<InstallProgress>)
    ensures
        reports_view(r@) == Seq::<ProgressView>::empty(),
{
    let v: Vec<InstallProgress> = Vec::new();
    assert(reports_view(v@) =~= Seq::<ProgressView>::empty());
    v
}

/// A list of reports holding `p` only.
fn one(p: InstallProgress) -> (r: Vec<InstallProgress>)
    ensures
        reports_view(r@) == seq![p@],
{
    let mut v: Vec<InstallProgress> = Vec::new();
    v.push(p);
    assert(reports_view(v@) =~= seq![p@]);
    v
}

/// Appends `p` to a list of reports.
fn push_report(v: &mut Vec<InstallProgress>, p: InstallProgress)
    ensures
        reports_view(final(v)@) == reports_view(old(v)@).push(p@),
{
    v.push(p);
    assert(reports_view(v@) =~= reports_view(old(v)@).push(p@));
}

fn finish_with_error(e: String) -> (r: InstallAction)
    ensures
        r@ == act(seq![], InstallWorkView::Finish { result: Err(e@) }),
{
    let a = InstallAction { reports: Vec::new(), work: InstallWork::Finish { result: Err(e) } };
    assert(reports_view(a.reports@) =~= Seq::<ProgressView>::empty());
    a
}

fn action(reports: Vec<InstallProgress>, work: InstallWork) -> (r: InstallAction)
    ensures
        r@ == act(reports_view(reports@), work@),
{
    InstallAction { reports, work }
}

impl<'a> Installer<'a> {
    /// A machine about to install with `opts` in `ctx`.
    fn new(opts: InstallOptions, ctx: InstallContext<'a>) -> (r: Installer<'a>)
        ensures
            r@.phase == InstallPhase::Begin,
            r@.is_system == opts.is_system,
            r@.install_dir == opts.install_dir@,
            r@.desktop_shortcut == opts.desktop_shortcut,
            r@.file_assoc == opts.file_assoc,
            r@.root == ctx.root,
            r@.app_id == ctx.app_id@,
            r@.assoc == ctx.assoc@,
            r@.start_menu_dir == ctx.start_menu_dir@,
            r@.desktop_dir == ctx.desktop_dir@,
            r@.version == ctx.version@,
            r@.bundle == ctx.bundle@,
            r@.total == 0,
            r@.index == 0,
            r@.last_percent == 0,
            r@.extracted == 0,
            r@.pending == 0,
            r@.dest.len() == 0,
            r@.archive is None,
            install_wf(r@),
    {
        Installer {
            opts,
            ctx,
            phase: InstallPhase::Begin,
            total: 0,
            index: 0,
            last_percent: 0,
            extracted: 0,
            pending: 0,
            dest: String::new(),
            archive: None,
        }
    }

    /// Where the run stands.
    pub fn phase(&self) -> (r: InstallPhase)
        ensures
            r == self@.phase,
    {
        self.phase
    }

    /// Answers the `OpenBundle` work: opens the bundle the machine was given
    /// and keeps it for the reads that follow. The answer agrees with the
    /// bundle (see `answer_fits`); a failure reads `读取安装包失败: {error}`.
    pub fn open_bundle_event(&mut self) -> (r: InstallEvent)
        requires
            install_wf(old(self)@),
            old(self)@.phase == InstallPhase::Opening,
        ensures
            final(self)@ == (InstallerView { archive: final(self)@.archive, ..old(self)@ }),
            install_wf(final(self)@),
            answer_fits(final(self)@, r@),
            r@ matches InstallEventView::BundleOpened(res) && (res is Ok <==> zip_archive_names(
                old(self)@.bundle,
            ) is Some) && (res matches Err(m) ==> has_prefix(m, MSG_READ_BUNDLE@)),
    {
        match open_bundle(self.ctx.bundle) {
            Ok(a) => {
                let n = entry_count(&a);
                self.archive = Some(a);
                InstallEvent::BundleOpened(Ok(n))
            },
            Err(e) => InstallEvent::BundleOpened(Err(e)),
        }
    }

    /// Answers the `ReadEntry` work from the bundle the machine holds (see
    /// `read_bundle_entry`): the entry being extracted, placed below the
    /// install directory.
    pub fn read_entry_event(&mut self) -> (r: InstallEvent)
        requires
            install_wf(old(self)@),
            old(self)@.phase == InstallPhase::Reading,
        ensures
            final(self)@ == (InstallerView { archive: final(self)@.archive, ..old(self)@ }),
            bundle_names(final(self)@) == bundle_names(old(self)@),
            install_wf(final(self)@),
            answer_fits(final(self)@, r@),
            r@ is EntryRead,
    {
        let mut a = self.archive.take().unwrap();
        let r = read_bundle_entry(&mut a, self.index, self.opts.install_dir.as_str());
        self.archive = Some(a);
        InstallEvent::EntryRead(r)
    }

    /// Answers the `ReadData` work from the bundle the machine holds (see
    /// `read_entry_data`): the contents of the entry being extracted.
    pub fn read_data_event(&mut self) -> (r: InstallEvent)
        requires
            install_wf(old(self)@),
            old(self)@.phase == InstallPhase::ReadingData,
        ensures
            final(self)@ == (InstallerView { archive: final(self)@.archive, ..old(self)@ }),
            bundle_names(final(self)@) == bundle_names(old(self)@),
            install_wf(final(self)@),
            answer_fits(final(self)@, r@),
            r@ is DataRead,
    {
        let mut a = self.archive.take().unwrap();
        let r = read_entry_data(&mut a, self.index, self.dest.as_str());
        self.archive = Some(a);
        InstallEvent::DataRead(r)
    }

    fn wizard_path(&self) -> (r: String)
        ensures
            r@ == wizard_dest(self@),
    {
        join_path(self.opts.install_dir.as_str(), WIZARD_EXE_NAME)
    }

    fn main_exe_path(&self) -> (r: String)
        ensures
            r@ == main_exe(self@),
    {
        join_path(self.opts.install_dir.as_str(), MAIN_EXE_NAME)
    }

    fn shortcut_path(&self, k: usize) -> (r: String)
        requires
            k < shortcut_targets(self@).len(),
        ensures
            r@ == shortcut_targets(self@)[k as int],
    {
        let lnk = join2(APP_DISPLAY_NAME, LNK_SUFFIX);
        if k == 0 {
            join_path(self.ctx.start_menu_dir.as_str(), lnk.as_str())
        } else {
            join_path(self.ctx.desktop_dir.as_str(), lnk.as_str())
        }
    }

    fn shortcut_count(&self) -> (r: usize)
        ensures
            r == shortcut_targets(self@).len(),
    {
        if self.opts.desktop_shortcut {
            2
        } else {
            1
        }
    }

    fn shortcut_job(&self, k: usize) -> (r: InstallWork)
        requires
            k < shortcut_targets(self@).len(),
        ensures
            r@ == shortcut_work(self@, k as int),
    {
        InstallWork::CreateShortcut {
            target: self.main_exe_path(),
            shortcut: self.shortcut_path(k),
            description: String::from_str(APP_DISPLAY_NAME),
            working_dir: self.opts.install_dir.clone(),
            icon: self.main_exe_path(),
        }
    }

    fn info(&self) -> (r: InstallInfo)
        ensures
            r@ == install_info_of(self@),
    {
        InstallInfo {
            is_system: self.opts.is_system,
            version: String::from_str(self.ctx.version),
            install_dir: self.opts.install_dir.clone(),
            app_id: String::from_str(self.ctx.app_id),
            progid: String::from_str(self.ctx.assoc.progid),
            created_desktop_shortcut: self.opts.desktop_shortcut,
            file_assoc: self.opts.file_assoc,
        }
    }

    fn uninstall_entry(&self) -> (r: UninstallInfo)
        ensures
            r@ == uninstall_info_of(self@),
    {
        proof {
            reveal_strlit("\"");
        }
        let kb = self.extracted / 1024;
        let size: u32 = if kb > 4294967295 {
            4294967295
        } else {
            kb as u32
        };
        let wizard = self.wizard_path();
        let u = join3("\"", wizard.as_str(), UNINSTALL_SWITCH);
        assert(u@ =~= seq!['"'] + wizard_dest(self@) + UNINSTALL_SWITCH@);
        UninstallInfo {
            display_name: String::from_str(APP_DISPLAY_NAME),
            display_version: String::from_str(self.ctx.version),
            publisher: String::from_str(PUBLISHER),
            uninstall_string: u,
            install_location: self.opts.install_dir.clone(),
            display_icon: self.main_exe_path(),
            estimated_size_kb: size,
        }
    }

    /// Enter the shortcut step.
    fn begin_shortcuts(&mut self) -> (r: InstallAction)
        ensures
            (final(self)@, r@) == start_shortcuts(old(self)@),
            install_wf(final(self)@),
    {
        self.phase = InstallPhase::Shortcuts;
        self.index = 0;
        action(one(make_shortcut_report()), self.shortcut_job(0))
    }

    /// Report the copy step and ask for the uninstaller check.
    fn end_extract(&mut self, reports: Vec<InstallProgress>) -> (r: InstallAction)
        ensures
            (final(self)@, r@) == after_extract(old(self)@, reports_view(reports@)),
            install_wf(final(self)@),
    {
        let mut reports = reports;
        push_report(&mut reports, make_copy_report());
        let path = self.wizard_path();
        self.phase = InstallPhase::CheckingWizard;
        action(reports, InstallWork::CheckWizard { path })
    }

    fn fail(&mut self, e: String) -> (r: InstallAction)
        ensures
            (final(self)@, r@) == finish_err(old(self)@, e@),
    {
        self.phase = InstallPhase::Finished;
        finish_with_error(e)
    }

    /// Takes the answer to the last piece of work and gives the next action.
    pub fn step(&mut self, event: InstallEvent) -> (r: InstallAction)
        requires
            install_wf(old(self)@),
            install_accepts(old(self)@, event@),
            answer_fits(old(self)@, event@),
        ensures
            (final(self)@, r@) == install_step(old(self)@, event@),
            install_wf(final(self)@),
    {
        match self.phase {
            InstallPhase::Begin => {
                self.phase = InstallPhase::CheckingDir;
                action(none(), InstallWork::CheckDirExists { path: self.opts.install_dir.clone() })
            },
            InstallPhase::CheckingDir => {
                let exists = match event {
                    InstallEvent::DirChecked(b) => b,
                    _ => false,
                };
                if exists {
                    self.phase = InstallPhase::Closing;
                    action(
                        one(make_close_report()),
                        InstallWork::CloseProcesses { dir: self.opts.install_dir.clone() },
                    )
                } else {
                    self.phase = InstallPhase::Opening;
                    action(one(make_extract_start()), InstallWork::OpenBundle)
                }
            },
            InstallPhase::Closing => {
                let ws = match event {
                    InstallEvent::ProcessesClosed(ws) => ws,
                    _ => Vec::new(),
                };
                let ghost wv = ws@.map_values(|w: String| w@);
                let mut reports = none();
                let n = ws.len();
                let mut i: usize = 0;
                while i < n
                    invariant
                        n == ws@.len(),
                        i <= n,
                        wv == ws@.map_values(|w: String| w@),
                        reports_view(reports@) == wv.map_values(
                            |w: Seq<char>| close_warning(w),
                        ).take(i as int),
                    decreases n - i,
                {
                    push_report(&mut reports, make_close_warning(ws[i].as_str()));
                    proof {
                        let all = wv.map_values(|w: Seq<char>| close_warning(w));
                        assert(all.take(i + 1) =~= all.take(i as int).push(all[i as int]));
                    }
                    i = i + 1;
                }
                proof {
                    let all = wv.map_values(|w: Seq<char>| close_warning(w));
                    assert(all.take(n as int) =~= all);
                }
                push_report(&mut reports, make_extract_start());
                self.phase = InstallPhase::Opening;
                action(reports, InstallWork::OpenBundle)
            },
            InstallPhase::Opening => {
                match event {
                    InstallEvent::BundleOpened(Ok(n)) => {
                        self.phase = InstallPhase::CreatingDir;
                        self.total = n;
                        self.last_percent = 0;
                        action(
                            none(),
                            InstallWork::CreateDir { path: self.opts.install_dir.clone() },
                        )
                    },
                    InstallEvent::BundleOpened(Err(e)) => self.fail(e),
                    _ => self.fail(String::new()),
                }
            },
            InstallPhase::CreatingDir => {
                match event {
                    InstallEvent::Completed(Ok(())) => {
                        if self.total == 0 {
                            self.end_extract(none())
                        } else {
                            self.phase = InstallPhase::Reading;
                            self.index = 0;
                            self.pending = 0;
                            action(
                                none(),
                                InstallWork::ReadEntry { index: 0, dir: self.opts.install_dir.clone() },
                            )
                        }
                    },
                    InstallEvent::Completed(Err(e)) => self.fail(e),
                    _ => self.fail(String::new()),
                }
            },
            InstallPhase::Reading => {
                match event {
                    InstallEvent::EntryRead(Ok(entry)) => {
                        self.dest = entry.dest.clone();
                        if entry.is_dir {
                            self.phase = InstallPhase::Writing;
                            self.pending = 0;
                            action(none(), InstallWork::MakeDir { path: entry.dest })
                        } else {
                            self.phase = InstallPhase::MakingParent;
                            action(none(), InstallWork::MakeParentDir { path: entry.dest })
                        }
                    },
                    InstallEvent::EntryRead(Err(e)) => self.fail(e),
                    _ => self.fail(String::new()),
                }
            },
            InstallPhase::MakingParent => {
                match event {
                    InstallEvent::Completed(Ok(())) => {
                        self.phase = InstallPhase::ReadingData;
                        action(
                            none(),
                            InstallWork::ReadData { index: self.index, dest: self.dest.clone() },
                        )
                    },
                    InstallEvent::Completed(Err(e)) => self.fail(e),
                    _ => self.fail(String::new()),
                }
            },
            InstallPhase::ReadingData => {
                match event {
                    InstallEvent::DataRead(Ok(data)) => {
                        self.phase = InstallPhase::Writing;
                        self.pending = data.len() as u64;
                        action(none(), InstallWork::WriteFile { path: self.dest.clone(), data })
                    },
                    InstallEvent::DataRead(Err(e)) => self.fail(e),
                    _ => self.fail(String::new()),
                }
            },
            InstallPhase::Writing => {
                match event {
                    InstallEvent::Completed(Ok(())) => {
                        let done = self.index + 1;
                        let p = extract_percent(done, self.total);
                        let reports = if p != self.last_percent {
                            one(make_extract_report(p, done, self.total))
                        } else {
                            none()
                        };
                        self.extracted = self.extracted.saturating_add(self.pending);
                        self.last_percent = p;
                        self.pending = 0;
                        if done < self.total {
                            self.phase = InstallPhase::Reading;
                            self.index = done;
                            action(
                                reports,
                                InstallWork::ReadEntry { index: done, dir: self.opts.install_dir.clone() },
                            )
                        } else {
                            self.end_extract(reports)
                        }
                    },
                    InstallEvent::Completed(Err(e)) => self.fail(e),
                    _ => self.fail(String::new()),
                }
            },
            InstallPhase::CheckingWizard => {
                let found = match event {
                    InstallEvent::WizardChecked(b) => b,
                    _ => false,
                };
                if found {
                    self.phase = InstallPhase::Saving;
                    let info = self.info();
                    action(
                        Vec::new(),
                        InstallWork::SaveInstallInfo { dir: self.opts.install_dir.clone(), info },
                    )
                } else {
                    let mut m = join2(MSG_MISSING_WIZARD, WIZARD_EXE_NAME);
                    m.append(MSG_MISSING_WIZARD_TAIL);
                    self.fail(m)
                }
            },
            InstallPhase::Saving => {
                match event {
                    InstallEvent::Completed(Ok(())) => {
                        self.phase = InstallPhase::RegisteringUninstall;
                        let entry = self.uninstall_entry();
                        let ops = write_uninstall_info(self.ctx.app_id, &entry);
                        action(
                            one(make_register_report()),
                            InstallWork::ApplyRegistry { root: self.ctx.root, ops },
                        )
                    },
                    InstallEvent::Completed(Err(e)) => self.fail(e),
                    _ => self.fail(String::new()),
                }
            },
            InstallPhase::RegisteringUninstall => {
                match event {
                    InstallEvent::Completed(Ok(())) => {
                        if self.opts.file_assoc && self.ctx.assoc.extensions.len() > 0 {
                            self.phase = InstallPhase::RegisteringAssoc;
                            let exe = self.main_exe_path();
                            let ops = register_file_associations(&self.ctx.assoc, exe.as_str());
                            action(
                                one(make_assoc_report()),
                                InstallWork::ApplyRegistry { root: self.ctx.root, ops },
                            )
                        } else {
                            self.begin_shortcuts()
                        }
                    },
                    InstallEvent::Completed(Err(e)) => self.fail(e),
                    _ => self.fail(String::new()),
                }
            },
            InstallPhase::RegisteringAssoc => {
                match event {
                    InstallEvent::Completed(Ok(())) => self.begin_shortcuts(),
                    InstallEvent::Completed(Err(e)) => self.fail(e),
                    _ => self.fail(String::new()),
                }
            },
            InstallPhase::Shortcuts => {
                let k = self.index;
                let mut reports = match event {
                    InstallEvent::Completed(Err(e)) => {
                        let lnk = self.shortcut_path(k);
                        one(make_shortcut_warning(lnk.as_str(), e.as_str()))
                    },
                    _ => none(),
                };
                if k + 1 < self.shortcut_count() {
                    self.index = k + 1;
                    action(reports, self.shortcut_job(k + 1))
                } else {
                    self.phase = InstallPhase::Finished;
                    push_report(&mut reports, InstallProgress::finished());
                    action(reports, InstallWork::Finish { result: Ok(()) })
                }
            },
            InstallPhase::Finished => {
                action(none(), InstallWork::Finish { result: Ok(()) })
            },
        }
    }
}

/// The highest percentage reported so far (at most), which every later
/// report reaches at least.
pub open spec fn progress_floor(s: InstallerView) -> int {
    match s.phase {
        InstallPhase::Reading | InstallPhase::MakingParent | InstallPhase::ReadingData
        | InstallPhase::Writing => s.last_percent as int,
        InstallPhase::CheckingWizard | InstallPhase::Saving => 82,
        InstallPhase::RegisteringUninstall => 88,
        InstallPhase::RegisteringAssoc => 92,
        InstallPhase::Shortcuts => 97,
        InstallPhase::Finished => 100,
        _ => 0,
    }
}

/// Install progress never goes back: the reports of one step are in
/// non-decreasing order of percentage, none is below what was reported
/// before, and none is above what later steps report.
pub proof fn lemma_install_progress_monotonic(s: InstallerView, e: InstallEventView)
    requires
        install_wf(s),
        install_accepts(s, e),
    ensures
        ({
            let (s2, a) = install_step(s, e);
            &&& progress_floor(s) <= progress_floor(s2)
            &&& forall|i: int|
                0 <= i < a.reports.len() ==> progress_floor(s) <= #[trigger] a.reports[i].percent
                    <= progress_floor(s2)
            &&& forall|i: int, j: int|
                0 <= i <= j < a.reports.len() ==> #[trigger] a.reports[i].percent
                    <= #[trigger] a.reports[j].percent
        }),
{
    let (s2, a) = install_step(s, e);
    if s.phase == InstallPhase::Writing {
        if let InstallEventView::Completed(Ok(())) = e {
            let done = s.index + 1;
            lemma_extract_percent_monotonic(s.index as int, done as int, s.total as int);
            let t = s.total as int;
            assert(extract_percent_of(done as int, t) <= 80) by {
                vstd::arithmetic::div_mod::lemma_div_is_ordered((done * 80) as int, t * 80, t);
                vstd::arithmetic::div_mod::lemma_div_multiples_vanish(80, t);
                assert(t * 80 == 80 * t);
            }
        }
    }
}

/// Nothing is recorded before the uninstaller is known to be in place: the
/// install info is saved only right after the uninstaller was found, and the
/// registry is written only after the install info was saved.
pub proof fn lemma_install_records_after_uninstaller(s: InstallerView, e: InstallEventView)
    requires
        install_accepts(s, e),
    ensures
        ({
            let (s2, a) = install_step(s, e);
            &&& a.work is SaveInstallInfo ==> s.phase == InstallPhase::CheckingWizard && e
                == InstallEventView::WizardChecked(true)
            &&& a.work is ApplyRegistry ==> s.phase == InstallPhase::Saving || s.phase
                == InstallPhase::RegisteringUninstall
            &&& (s.phase == InstallPhase::CheckingWizard && e == InstallEventView::WizardChecked(
                false,
            )) ==> a.reports.len() == 0 && a.work == InstallWorkView::Finish {
                result: Err(missing_wizard_error()),
            }
        }),
{
}

/// An install over an existing directory first closes what runs from it; a
/// fresh install starts with extraction.
pub proof fn lemma_install_first_report(s: InstallerView, exists: bool)
    requires
        s.phase == InstallPhase::CheckingDir,
    ensures
        ({
            let (s2, a) = install_step(s, InstallEventView::DirChecked(exists));
            &&& a.reports.len() == 1
            &&& a.reports[0].step == (if exists {
                STEP_CLOSE@
            } else {
                STEP_EXTRACT@
            })
        }),
{
}

/// A successful install ends with the final report: step `done`, 100%.
pub proof fn lemma_install_success_announced(s: InstallerView, e: InstallEventView)
    requires
        install_accepts(s, e),
    ensures
        ({
            let (s2, a) = install_step(s, e);
            a.work == InstallWorkView::Finish { result: Ok(()) } ==> a.reports.len() > 0
                && a.reports.last() == finished_view(MSG_INSTALL_DONE@) && s2.phase
                == InstallPhase::Finished
        }),
{
}

/// A shortcut that cannot be made only warns: the install goes on with the
/// next shortcut, or ends in success after the last one.
pub proof fn lemma_install_shortcut_failure_only_warns(s: InstallerView, m: Seq<char>)
    requires
        install_wf(s),
        s.phase == InstallPhase::Shortcuts,
    ensures
        ({
            let (s2, a) = install_step(s, InstallEventView::Completed(Err(m)));
            &&& a.reports.len() >= 1
            &&& a.reports[0] == shortcut_warning(shortcut_targets(s)[s.index as int], m)
            &&& a.work is CreateShortcut || a.work == InstallWorkView::Finish { result: Ok(()) }
        }),
{
}

/// The shortcuts launch the installed main program: every shortcut the
/// install asks for targets the main executable in the install directory
/// (the program the control panel entry shows as its icon), takes its icon
/// from it, starts in the install directory and is described by the app's
/// name; it is the start menu link, or the desktop link when one was chosen.
pub proof fn lemma_install_shortcuts_launch_main_program(s: InstallerView, e: InstallEventView)
    requires
        install_wf(s),
        install_accepts(s, e),
    ensures
        ({
            let (s2, a) = install_step(s, e);
            a.work matches InstallWorkView::CreateShortcut {
                target,
                shortcut,
                description,
                working_dir,
                icon,
            } ==> {
                &&& target == path_join(s.install_dir, MAIN_EXE_NAME@)
                &&& target == uninstall_info_of(s).display_icon
                &&& icon == target
                &&& working_dir == s.install_dir
                &&& description == APP_DISPLAY_NAME@
                &&& (shortcut == path_join(s.start_menu_dir, APP_DISPLAY_NAME@ + LNK_SUFFIX@) || (
                s.desktop_shortcut && shortcut == path_join(
                    s.desktop_dir,
                    APP_DISPLAY_NAME@ + LNK_SUFFIX@,
                )))
            }
        }),
{
}

/// What the install writes comes from its bundle. With answers that agree
/// with the bundle (see `answer_fits`): a bundle that `zip` cannot read ends
/// the run in failure before anything is extracted; entries are read in
/// archive order, each below the count the bundle names; each directory made
/// for an entry, and each file written, lies where the entry's name lands in
/// the install directory, a directory only for a name ending in a separator;
/// and each file holds the entry's decompressed contents.
pub proof fn lemma_install_extracts_bundle(s: InstallerView, e: InstallEventView)
    requires
        install_wf(s),
        install_accepts(s, e),
        answer_fits(s, e),
    ensures
        ({
            let (s2, a) = install_step(s, e);
            &&& (s.phase == InstallPhase::Opening && zip_archive_names(s.bundle) is None) ==> (
            a.work matches InstallWorkView::Finish { result } && result is Err)
            &&& a.work matches InstallWorkView::ReadEntry { index, dir } ==> index == s2.index
                && index < bundle_names(s2).len() && bundle_names(s2) == bundle_names(s) && dir
                == s.install_dir && (if s.phase == InstallPhase::Writing {
                index == s.index + 1
            } else {
                index == 0
            })
            &&& a.work matches InstallWorkView::MakeDir { path } ==> s.phase
                == InstallPhase::Reading && path == entry_dest(s, s.index as int) && names_dir(
                bundle_names(s)[s.index as int],
            )
            &&& a.work matches InstallWorkView::MakeParentDir { path } ==> path == entry_dest(
                s,
                s.index as int,
            ) && !names_dir(bundle_names(s)[s.index as int])
            &&& a.work matches InstallWorkView::ReadData { index, dest } ==> index == s.index
                && dest == entry_dest(s, index as int)
            &&& a.work matches InstallWorkView::WriteFile { path, data } ==> path == entry_dest(
                s,
                s.index as int,
            ) && s.archive is Some && zip_entry_content(s.archive->0, s.index as int) == Some(
                data,
            )
        }),
{
}

/// The install of `opts` in `ctx`, as a machine to drive (see `Installer::step`),
/// starting with the `Started` event.
pub fn run_install_with<'a>(opts: InstallOptions, ctx: InstallContext<'a>) -> (r: Installer<'a>)
    ensures
        r@.phase == InstallPhase::Begin,
        r@.is_system == opts.is_system,
        r@.install_dir == opts.install_dir@,
        r@.desktop_shortcut == opts.desktop_shortcut,
        r@.file_assoc == opts.file_assoc,
        r@.root == ctx.root,
        r@.app_id == ctx.app_id@,
        r@.assoc == ctx.assoc@,
        r@.start_menu_dir == ctx.start_menu_dir@,
        r@.desktop_dir == ctx.desktop_dir@,
        r@.version == ctx.version@,
        r@.bundle == ctx.bundle@,
        r@.total == 0,
        r@.index == 0,
        r@.last_percent == 0,
        r@.extracted == 0,
        r@.pending == 0,
        r@.dest.len() == 0,
        r@.archive is None,
        install_wf(r@),
{
    Installer::new(opts, ctx)
}

/// The release install of `opts`: the embedded bundle, the standard folders
/// of the install kind, the release registry keys. Fails when the bundle is
/// only a placeholder or a folder variable is missing.
pub fn run_install<'a>(
    opts: InstallOptions,
    embedded: &'a [u8],
    env: &KnownFolders,
    version: &'a str,
) -> (r: Result<Installer<'a>, String>)
    ensures
        embedded@.len() == 0 ==> (r matches Err(e) && e@ == MSG_NOT_EMBEDDED@),
        (embedded@.len() > 0 && resolved_paths(opts.is_system, *env) is Err) ==> (r matches Err(
            e,
        ) && resolved_paths(opts.is_system, *env) == Err::<(Seq<char>, Seq<char>, Seq<char>), Seq<char>>(
            e@,
        )),
        r is Ok <==> (embedded@.len() > 0 && resolved_paths(opts.is_system, *env) is Ok),
        r matches Ok(m) ==> {
            let (_, start_menu, desktop) = resolved_paths(opts.is_system, *env)->Ok_0;
            &&& m@.phase == InstallPhase::Begin
            &&& m@.is_system == opts.is_system
            &&& m@.install_dir == opts.install_dir@
            &&& m@.desktop_shortcut == opts.desktop_shortcut
            &&& m@.file_assoc == opts.file_assoc
            &&& m@.root == (if opts.is_system {
                Hive::LocalMachine
            } else {
                Hive::CurrentUser
            })
            &&& m@.app_id == APP_ID@
            &&& m@.assoc == release_assoc_view()
            &&& m@.start_menu_dir == start_menu
            &&& m@.desktop_dir == desktop
            &&& m@.version == version@
            &&& m@.bundle == embedded@
            &&& m@.total == 0
            &&& m@.index == 0
            &&& m@.last_percent == 0
            &&& m@.extracted == 0
            &&& m@.pending == 0
            &&& m@.dest.len() == 0
            &&& m@.archive is None
            &&& install_wf(m@)
        },
{
    let bundle = match embedded_bundle(embedded) {
        Ok(b) => b,
        Err(e) => return Err(e),
    };
    let paths = match InstallPaths::resolve(opts.is_system, env) {
        Ok(p) => p,
        Err(e) => return Err(e),
    };
    let root = root_for(opts.is_system);
    let ctx = InstallContext {
        root,
        app_id: APP_ID,
        assoc: release_assoc(),
        start_menu_dir: paths.start_menu_dir,
        desktop_dir: paths.desktop_dir,
        bundle,
        version,
    };
    Ok(Installer::new(opts, ctx))
}

} // verus!
