//! The registry surface of the installer as plans: the control panel
//! uninstall entry and the file association surface (ProgID, Applications,
//! Capabilities, RegisteredApplications, OpenWithProgids). A plan is a list of
//! operations that the caller carries out in order on the chosen root,
//! stopping at the first one that fails.
use vstd::prelude::*;
use vstd::string::*;

use crate::config::{APP_DESCRIPTION, ASSOC_FILE_TYPE_NAME};
use crate::text::{join2, join3};

verus! {

pub const UNINSTALL_PATH: &'static str = "Software\\Microsoft\\Windows\\CurrentVersion\\Uninstall";

pub const CLASSES_PATH: &'static str = "Software\\Classes";

pub const REGISTERED_APPS_PATH: &'static str = "Software\\RegisteredApplications";

/// A registry root.
#[derive(Debug, Clone, Copy, PartialEq, Eq)]
pub enum Hive {
    CurrentUser,
    LocalMachine,
}

/// The root of an install kind: HKLM for a system-wide install, HKCU for a
/// per-user one.
pub fn root_for(is_system: bool) -> (r: Hive)
    ensures
        r == (if is_system {
            Hive::LocalMachine
        } else {
            Hive::CurrentUser
        }),
{
    if is_system {
        Hive::LocalMachine
    } else {
        Hive::CurrentUser
    }
}

/// A registry value.
#[derive(Debug, PartialEq)]
pub enum RegValue {
    Str(String),
    Dword(u32),
}

/// One registry operation.
#[derive(Debug, PartialEq)]
pub enum RegOp {
    /// Create (or open) the key `path`; the following `SetValue`s write to it. A
    /// failure ends the plan with `failure` followed by the error text.
    CreateKey { path: String, failure: String },
    /// Write value `name` (empty: the default value) on the key of the last
    /// `CreateKey`. A failure ends the plan with `failure` and the error text.
    SetValue { name: String, value: RegValue, failure: String },
    /// Delete the key `path` with its subtree; a missing key is no failure,
    /// any other failure ends the plan with `failure` and the error text.
    DeleteTree { path: String, failure: String },
    /// When the key `path` opens and its default value equals `expected`, delete
    /// that default value. Never fails.
    ClearDefaultIfEquals { path: String, expected: String },
    /// When the key `path` opens, delete its value `name`. Never fails.
    DeleteValue { path: String, name: String },
    /// Tell the shell that file associations changed.
    NotifyAssocChanged,
}

pub enum RegValueView {
    Str(Seq<char>),
    Dword(u32),
}

pub enum RegOpView {
    CreateKey { path: Seq<char>, failure: Seq<char> },
    SetValue { name: Seq<char>, value: RegValueView, failure: Seq<char> },
    DeleteTree { path: Seq<char>, failure: Seq<char> },
    ClearDefaultIfEquals { path: Seq<char>, expected: Seq<char> },
    DeleteValue { path: Seq<char>, name: Seq<char> },
    NotifyAssocChanged,
}

impl View for RegValue {
    type V = RegValueView;

    open spec fn view(&self) -> RegValueView {
        match self {
            RegValue::Str(s) => RegValueView::Str(s@),
            RegValue::Dword(d) => RegValueView::Dword(*d),
        }
    }
}

impl View for RegOp {
    type V = RegOpView;

    open spec fn view(&self) -> RegOpView {
        match self {
            RegOp::CreateKey { path, failure } => RegOpView::CreateKey { path: path@, failure: failure@ },
            RegOp::SetValue { name, value, failure } => RegOpView::SetValue {
                name: name@,
                value: value@,
                failure: failure@,
            },
            RegOp::DeleteTree { path, failure } => RegOpView::DeleteTree {
                path: path@,
                failure: failure@,
            },
            RegOp::ClearDefaultIfEquals { path, expected } => RegOpView::ClearDefaultIfEquals {
                path: path@,
                expected: expected@,
            },
            RegOp::DeleteValue { path, name } => RegOpView::DeleteValue {
                path: path@,
                name: name@,
            },
            RegOp::NotifyAssocChanged => RegOpView::NotifyAssocChanged,
        }
    }
}

/// The views of a plan.
pub open spec fn plan_view(ops: Seq<RegOp>) -> Seq<RegOpView> {
    ops.map_values(|o: RegOp| o@)
}

/// `parent\child`.
pub open spec fn subkey(parent: Seq<char>, child: Seq<char>) -> Seq<char> {
    parent + seq!['\\'] + child
}

pub const MSG_CREATE_KEY_PREFIX: &'static str = "创建注册表键 ";

pub const MSG_SET_VALUE_PREFIX: &'static str = "写入注册表值 ";

pub const MSG_DELETE_KEY_PREFIX: &'static str = "删除注册表键 ";

pub const MSG_FAILED_SUFFIX: &'static str = " 失败: ";

/// The failure text of writing value `name`.
pub open spec fn set_failure(name: Seq<char>) -> Seq<char> {
    MSG_SET_VALUE_PREFIX@ + name + MSG_FAILED_SUFFIX@
}

pub open spec fn create_op(path: Seq<char>, failure: Seq<char>) -> RegOpView {
    RegOpView::CreateKey { path, failure }
}

pub open spec fn set_str_op(name: Seq<char>, value: Seq<char>) -> RegOpView {
    RegOpView::SetValue { name, value: RegValueView::Str(value), failure: set_failure(name) }
}

pub open spec fn set_dword_op(name: Seq<char>, value: u32) -> RegOpView {
    RegOpView::SetValue { name, value: RegValueView::Dword(value), failure: set_failure(name) }
}

pub open spec fn delete_tree_op(path: Seq<char>) -> RegOpView {
    RegOpView::DeleteTree { path, failure: MSG_DELETE_KEY_PREFIX@ + path + MSG_FAILED_SUFFIX@ }
}

/// `parent\child` as a new string.
pub fn subkey_of(parent: &str, child: &str) -> (r: String)
    ensures
        r@ == subkey(parent@, child@),
{
    proof {
        reveal_strlit("\\");
    }
    let r = join3(parent, "\\", child);
    assert(r@ =~= subkey(parent@, child@));
    r
}

fn create(path: String, failure: String) -> (r: RegOp)
    ensures
        r@ == create_op(path@, failure@),
{
    RegOp::CreateKey { path, failure }
}

fn set_str(name: &str, value: &str) -> (r: RegOp)
    ensures
        r@ == set_str_op(name@, value@),
{
    RegOp::SetValue {
        name: String::from_str(name),
        value: RegValue::Str(String::from_str(value)),
        failure: join3(MSG_SET_VALUE_PREFIX, name, MSG_FAILED_SUFFIX),
    }
}

fn set_dword(name: &str, value: u32) -> (r: RegOp)
    ensures
        r@ == set_dword_op(name@, value),
{
    RegOp::SetValue {
        name: String::from_str(name),
        value: RegValue::Dword(value),
        failure: join3(MSG_SET_VALUE_PREFIX, name, MSG_FAILED_SUFFIX),
    }
}

fn delete_tree(path: String) -> (r: RegOp)
    ensures
        r@ == delete_tree_op(path@),
{
    let failure = join3(MSG_DELETE_KEY_PREFIX, path.as_str(), MSG_FAILED_SUFFIX);
    RegOp::DeleteTree { path, failure }
}

/// Appends `op` to a plan.
fn push_op(ops: &mut Vec<RegOp>, op: RegOp)
    ensures
        plan_view(final(ops)@) == plan_view(old(ops)@).push(op@),
{
    ops.push(op);
    assert(plan_view(ops@) =~= plan_view(old(ops)@).push(op@));
}

/// The control panel entry ("Programs and Features"), with the same values
/// NSIS writes.
pub struct UninstallInfo {
    pub display_name: String,
    pub display_version: String,
    pub publisher: String,
    pub uninstall_string: String,
    pub install_location: String,
    pub display_icon: String,
    pub estimated_size_kb: u32,
}

/// What `UninstallInfo` holds, as character sequences.
pub struct UninstallInfoView {
    pub display_name: Seq<char>,
    pub display_version: Seq<char>,
    pub publisher: Seq<char>,
    pub uninstall_string: Seq<char>,
    pub install_location: Seq<char>,
    pub display_icon: Seq<char>,
    pub estimated_size_kb: u32,
}

impl View for UninstallInfo {
    type V = UninstallInfoView;

    open spec fn view(&self) -> UninstallInfoView {
        UninstallInfoView {
            display_name: self.display_name@,
            display_version: self.display_version@,
            publisher: self.publisher@,
            uninstall_string: self.uninstall_string@,
            install_location: self.install_location@,
            display_icon: self.display_icon@,
            estimated_size_kb: self.estimated_size_kb,
        }
    }
}

/// The uninstall key of `app_id`.
pub open spec fn uninstall_key(app_id: Seq<char>) -> Seq<char> {
    subkey(UNINSTALL_PATH@, app_id)
}

/// The plan that writes the control panel entry of `app_id`.
pub open spec fn uninstall_info_plan(app_id: Seq<char>, info: UninstallInfoView) -> Seq<RegOpView> {
    let path = uninstall_key(app_id);
    seq![
        create_op(path, MSG_CREATE_KEY_PREFIX@ + path + MSG_FAILED_SUFFIX@),
        set_str_op("DisplayName"@, info.display_name),
        set_str_op("DisplayVersion"@, info.display_version),
        set_str_op("Publisher"@, info.publisher),
        set_str_op("UninstallString"@, info.uninstall_string),
        set_str_op("InstallLocation"@, info.install_location),
        set_str_op("DisplayIcon"@, info.display_icon),
        set_dword_op("EstimatedSize"@, info.estimated_size_kb),
        set_dword_op("NoModify"@, 1),
        set_dword_op("NoRepair"@, 1),
    ]
}

/// Writes the control panel entry to `...\Uninstall\{app_id}`.
pub fn write_uninstall_info(app_id: &str, info: &UninstallInfo) -> (r: Vec<RegOp>)
    ensures
        plan_view(r@) == uninstall_info_plan(app_id@, info@),
{
    let path = subkey_of(UNINSTALL_PATH, app_id);
    let failure = join3(MSG_CREATE_KEY_PREFIX, path.as_str(), MSG_FAILED_SUFFIX);
    let mut ops: Vec<RegOp> = Vec::new();
    push_op(&mut ops, create(path, failure));
    push_op(&mut ops, set_str("DisplayName", info.display_name.as_str()));
    push_op(&mut ops, set_str("DisplayVersion", info.display_version.as_str()));
    push_op(&mut ops, set_str("Publisher", info.publisher.as_str()));
    push_op(&mut ops, set_str("UninstallString", info.uninstall_string.as_str()));
    push_op(&mut ops, set_str("InstallLocation", info.install_location.as_str()));
    push_op(&mut ops, set_str("DisplayIcon", info.display_icon.as_str()));
    push_op(&mut ops, set_dword("EstimatedSize", info.estimated_size_kb));
    push_op(&mut ops, set_dword("NoModify", 1));
    push_op(&mut ops, set_dword("NoRepair", 1));
    assert(plan_view(ops@) =~= uninstall_info_plan(app_id@, info@));
    ops
}

/// The plan that removes the control panel entry of `app_id` (a missing key
/// is no failure).
pub open spec fn remove_uninstall_info_plan(app_id: Seq<char>) -> Seq<RegOpView> {
    seq![delete_tree_op(uninstall_key(app_id))]
}

/// Removes the control panel entry of `app_id`.
pub fn remove_uninstall_info(app_id: &str) -> (r: Vec<RegOp>)
    ensures
        plan_view(r@) == remove_uninstall_info_plan(app_id@),
{
    let mut ops: Vec<RegOp> = Vec::new();
    push_op(&mut ops, delete_tree(subkey_of(UNINSTALL_PATH, app_id)));
    assert(plan_view(ops@) =~= remove_uninstall_info_plan(app_id@));
    ops
}

/// Key names of the file association surface. Besides the ProgID and the
/// extensions, the system "Open with" and "Default apps" lists need the
/// Applications and Capabilities entries.
#[derive(Clone, Copy)]
pub struct AssocParams<'a> {
    pub progid: &'a str,
    pub extensions: &'a [&'a str],
    /// Key name under `Software\Classes\Applications`: the main program's file name.
    pub exe_name: &'a str,
    /// Parent key of `Capabilities`, relative to the root (such as `Software\MyApp`).
    pub capability_key: &'a str,
    /// Name registered under `RegisteredApplications`.
    pub app_name: &'a str,
}

/// What `AssocParams` holds, as character sequences.
#[verifier::ext_equal]
pub struct AssocView {
    pub progid: Seq<char>,
    pub extensions: Seq<Seq<char>>,
    pub exe_name: Seq<char>,
    pub capability_key: Seq<char>,
    pub app_name: Seq<char>,
}

impl<'a> View for AssocParams<'a> {
    type V = AssocView;

    open spec fn view(&self) -> AssocView {
        AssocView {
            progid: self.progid@,
            extensions: self.extensions@.map_values(|e: &str| e@),
            exe_name: self.exe_name@,
            capability_key: self.capability_key@,
            app_name: self.app_name@,
        }
    }
}

/// `"exe",0`: the icon location of the main program.
pub open spec fn icon_location(exe: Seq<char>) -> Seq<char> {
    seq!['"'] + exe + seq!['"', ',', '0']
}

/// `"exe" "%1"`: the command that opens a document with the main program.
pub open spec fn open_command(exe: Seq<char>) -> Seq<char> {
    seq!['"'] + exe + seq!['"', ' ', '"', '%', '1', '"']
}

/// `.ext`.
pub open spec fn dotted(ext: Seq<char>) -> Seq<char> {
    seq!['.'] + ext
}

/// `Software\Classes\{progid}`.
pub open spec fn progid_key(p: AssocView) -> Seq<char> {
    subkey(CLASSES_PATH@, p.progid)
}

/// `Software\Classes\Applications\{exe_name}`.
pub open spec fn application_key(p: AssocView) -> Seq<char> {
    subkey(subkey(CLASSES_PATH@, "Applications"@), p.exe_name)
}

/// `{capability_key}\Capabilities`.
pub open spec fn capabilities_key(p: AssocView) -> Seq<char> {
    subkey(p.capability_key, "Capabilities"@)
}

/// `Software\Classes\.{ext}`.
pub open spec fn extension_key(ext: Seq<char>) -> Seq<char> {
    subkey(CLASSES_PATH@, dotted(ext))
}

/// `Software\Classes\.{ext}\OpenWithProgids`.
pub open spec fn open_with_key(ext: Seq<char>) -> Seq<char> {
    subkey(extension_key(ext), "OpenWithProgids"@)
}

/// The failure text of creating `what`.
pub open spec fn create_failure(what: Seq<char>) -> Seq<char> {
    "创建 "@ + what + " 键失败: "@
}

/// One `.ext` value per extension, each holding `value`.
pub open spec fn ext_values(exts: Seq<Seq<char>>, value: Seq<char>) -> Seq<RegOpView> {
    Seq::new(exts.len(), |i: int| set_str_op(dotted(exts[i]), value))
}

/// The ProgID put among the "Open with" candidates of every extension.
pub open spec fn open_with_ops(exts: Seq<Seq<char>>, progid: Seq<char>) -> Seq<RegOpView> {
    Seq::new(
        (2 * exts.len()) as nat,
        |i: int|
            if i % 2 == 0 {
                create_op(
                    open_with_key(exts[i / 2]),
                    create_failure(dotted(exts[i / 2]) + " OpenWithProgids"@),
                )
            } else {
                set_str_op(progid, seq![])
            },
    )
}

/// The ProgID: its type name, icon and open command.
pub open spec fn register_progid(p: AssocView, exe: Seq<char>) -> Seq<RegOpView> {
    let progid_path = progid_key(p);
    seq![
        create_op(progid_path, create_failure("ProgID"@)),
        set_str_op(seq![], ASSOC_FILE_TYPE_NAME@),
        create_op(subkey(progid_path, "DefaultIcon"@), create_failure("DefaultIcon"@)),
        set_str_op(seq![], icon_location(exe)),
        create_op(subkey(progid_path, "shell\\open\\command"@), create_failure("open command"@)),
        set_str_op(seq![], open_command(exe)),
    ]
}

/// The Applications entry: friendly name, icon, open command and the
/// SupportedTypes key.
pub open spec fn register_application(p: AssocView, exe: Seq<char>) -> Seq<RegOpView> {
    let app_path = application_key(p);
    seq![
        create_op(app_path, create_failure("Applications"@)),
        set_str_op("FriendlyAppName"@, p.app_name),
        create_op(subkey(app_path, "DefaultIcon"@), create_failure("Applications DefaultIcon"@)),
        set_str_op(seq![], icon_location(exe)),
        create_op(
            subkey(app_path, "shell\\open\\command"@),
            create_failure("Applications command"@),
        ),
        set_str_op(seq![], open_command(exe)),
        create_op(subkey(app_path, "SupportedTypes"@), create_failure("SupportedTypes"@)),
    ]
}

/// The ProgID, then the Applications entry.
pub open spec fn register_head(p: AssocView, exe: Seq<char>) -> Seq<RegOpView> {
    register_progid(p, exe) + register_application(p, exe)
}

/// The Capabilities key with its name, description and FileAssociations key.
pub open spec fn register_caps(p: AssocView) -> Seq<RegOpView> {
    let cap_path = capabilities_key(p);
    seq![
        create_op(cap_path, create_failure("Capabilities"@)),
        set_str_op("ApplicationName"@, p.app_name),
        set_str_op("ApplicationDescription"@, APP_DESCRIPTION@),
        create_op(subkey(cap_path, "FileAssociations"@), create_failure("FileAssociations"@)),
    ]
}

/// The RegisteredApplications entry that points at the Capabilities key.
pub open spec fn register_listing(p: AssocView) -> Seq<RegOpView> {
    seq![
        create_op(REGISTERED_APPS_PATH@, "打开 RegisteredApplications 失败: "@),
        set_str_op(p.app_name, capabilities_key(p)),
    ]
}

/// The plan that registers the file association surface for the main
/// program at `exe`: ProgID (type name, icon, open command), Applications
/// (friendly name, icon, open command, supported types), Capabilities with
/// its FileAssociations and the RegisteredApplications entry, then the ProgID
/// among each extension's OpenWithProgids. The extension's own default value
/// is never written.
pub open spec fn register_plan(p: AssocView, exe: Seq<char>) -> Seq<RegOpView> {
    register_head(p, exe) + ext_values(p.extensions, seq![]) + register_caps(p) + ext_values(
        p.extensions,
        p.progid,
    ) + register_listing(p) + open_with_ops(p.extensions, p.progid) + seq![
        RegOpView::NotifyAssocChanged,
    ]
}

/// For every extension: clear its default value when it names this ProgID
/// (left dangling by older installers), and drop the ProgID from its
/// OpenWithProgids. Other applications' values stay.
pub open spec fn release_extension_ops(exts: Seq<Seq<char>>, progid: Seq<char>) -> Seq<
    RegOpView,
> {
    Seq::new(
        (2 * exts.len()) as nat,
        |i: int|
            if i % 2 == 0 {
                RegOpView::ClearDefaultIfEquals { path: extension_key(exts[i / 2]), expected: progid }
            } else {
                RegOpView::DeleteValue { path: open_with_key(exts[i / 2]), name: progid }
            },
    )
}

/// The plan that removes the file association surface, the mirror of
/// `register_plan`.
pub open spec fn unregister_plan(p: AssocView) -> Seq<RegOpView> {
    release_extension_ops(p.extensions, p.progid) + seq![
        delete_tree_op(progid_key(p)),
        delete_tree_op(application_key(p)),
        delete_tree_op(p.capability_key),
        RegOpView::DeleteValue { path: REGISTERED_APPS_PATH@, name: p.app_name },
        RegOpView::NotifyAssocChanged,
    ]
}

/// `"创建 {what} 键失败: "`.
fn create_failure_text(what: &str) -> (r: String)
    ensures
        r@ == create_failure(what@),
{
    join3("创建 ", what, " 键失败: ")
}

/// Appends one `.ext` value per extension, each holding `value`.
fn push_ext_values(ops: &mut Vec<RegOp>, exts: &[&str], value: &str)
    ensures
        plan_view(final(ops)@) == plan_view(old(ops)@) + ext_values(
            exts@.map_values(|e: &str| e@),
            value@,
        ),
{
    let ghost start = plan_view(ops@);
    let ghost ev = exts@.map_values(|e: &str| e@);
    let n = exts.len();
    let mut i: usize = 0;
    while i < n
        invariant
            n == exts@.len(),
            i <= n,
            ev == exts@.map_values(|e: &str| e@),
            plan_view(ops@) == start + ext_values(ev, value@).take(i as int),
        decreases n - i,
    {
        proof {
            reveal_strlit(".");
        }
        let name = join2(".", exts[i]);
        assert(name@ =~= dotted(ev[i as int]));
        let ghost before = plan_view(ops@);
        push_op(ops, set_str(name.as_str(), value));
        proof {
            let xs = ext_values(ev, value@);
            assert(xs[i as int] == set_str_op(dotted(ev[i as int]), value@));
            assert(xs.take(i + 1) =~= xs.take(i as int).push(xs[i as int]));
            assert(plan_view(ops@) =~= start + xs.take(i + 1));
        }
        i = i + 1;
    }
    assert(ext_values(ev, value@).take(n as int) =~= ext_values(ev, value@));
}

/// Appends, per extension, its OpenWithProgids key and the ProgID value.
fn push_open_with(ops: &mut Vec<RegOp>, exts: &[&str], progid: &str)
    ensures
        plan_view(final(ops)@) == plan_view(old(ops)@) + open_with_ops(
            exts@.map_values(|e: &str| e@),
            progid@,
        ),
{
    let ghost start = plan_view(ops@);
    let ghost ev = exts@.map_values(|e: &str| e@);
    let n = exts.len();
    let mut i: usize = 0;
    while i < n
        invariant
            n == exts@.len(),
            i <= n,
            ev == exts@.map_values(|e: &str| e@),
            plan_view(ops@) == start + open_with_ops(ev, progid@).take(2 * i),
        decreases n - i,
    {
        proof {
            reveal_strlit(".");
            reveal_strlit("OpenWithProgids");
            reveal_strlit(" OpenWithProgids");
        }
        let dot = join2(".", exts[i]);
        let ext_key = subkey_of(CLASSES_PATH, dot.as_str());
        let key = subkey_of(ext_key.as_str(), "OpenWithProgids");
        let what = join2(dot.as_str(), " OpenWithProgids");
        assert(dot@ =~= dotted(ev[i as int]));
        assert(key@ =~= open_with_key(ev[i as int]));
        let failure = create_failure_text(what.as_str());
        assert(failure@ =~= create_failure(dotted(ev[i as int]) + " OpenWithProgids"@));
        push_op(ops, create(key, failure));
        proof {
            reveal_strlit("");
        }
        let e: &str = "";
        assert(e@ =~= Seq::<char>::empty());
        push_op(ops, set_str(progid, e));
        proof {
            let ow = open_with_ops(ev, progid@);
            assert((2 * i) % 2 == 0);
            assert((2 * i + 1) % 2 == 1);
            assert((2 * i) / 2 == i);
            assert((2 * i + 1) / 2 == i);
            assert(ow[2 * i] == create_op(
                open_with_key(ev[i as int]),
                create_failure(dotted(ev[i as int]) + " OpenWithProgids"@),
            ));
            assert(ow[2 * i + 1] == set_str_op(progid@, seq![]));
            assert(ow.take(2 * i + 2) =~= ow.take(2 * i).push(ow[2 * i]).push(ow[2 * i + 1]));
            assert(plan_view(ops@) =~= start + ow.take(2 * (i + 1)));
        }
        i = i + 1;
    }
    assert(open_with_ops(ev, progid@).take(2 * n) =~= open_with_ops(ev, progid@));
}

/// Registers the file association surface for the main program at `exe_path`.
/// The extensions' default values are not written: since Windows 10 the
/// UserChoice hash keeps programs from taking the default, so the surface
/// only makes the application a candidate; the user picks the default.
pub fn register_file_associations(params: &AssocParams, exe_path: &str) -> (r: Vec<RegOp>)
    ensures
        plan_view(r@) == register_plan(params@, exe_path@),
{
    proof {
        reveal_strlit("\"");
        reveal_strlit("\",0");
        reveal_strlit("\" \"%1\"");
        reveal_strlit("");
    }
    let icon = join3("\"", exe_path, "\",0");
    let cmd = join3("\"", exe_path, "\" \"%1\"");
    assert(icon@ =~= icon_location(exe_path@));
    assert(cmd@ =~= open_command(exe_path@));
    let progid_path = subkey_of(CLASSES_PATH, params.progid);
    let classes_apps = subkey_of(CLASSES_PATH, "Applications");
    let app_path = subkey_of(classes_apps.as_str(), params.exe_name);
    let cap_path = subkey_of(params.capability_key, "Capabilities");
    let ghost head = plan_view(Seq::<RegOp>::empty());
    let mut ops: Vec<RegOp> = Vec::new();
    push_op(&mut ops, create(progid_path.clone(), create_failure_text("ProgID")));
    push_op(&mut ops, set_str("", ASSOC_FILE_TYPE_NAME));
    push_op(
        &mut ops,
        create(subkey_of(progid_path.as_str(), "DefaultIcon"), create_failure_text("DefaultIcon")),
    );
    push_op(&mut ops, set_str("", icon.as_str()));
    push_op(
        &mut ops,
        create(
            subkey_of(progid_path.as_str(), "shell\\open\\command"),
            create_failure_text("open command"),
        ),
    );
    push_op(&mut ops, set_str("", cmd.as_str()));
    push_op(&mut ops, create(app_path.clone(), create_failure_text("Applications")));
    push_op(&mut ops, set_str("FriendlyAppName", params.app_name));
    push_op(
        &mut ops,
        create(
            subkey_of(app_path.as_str(), "DefaultIcon"),
            create_failure_text("Applications DefaultIcon"),
        ),
    );
    push_op(&mut ops, set_str("", icon.as_str()));
    push_op(
        &mut ops,
        create(
            subkey_of(app_path.as_str(), "shell\\open\\command"),
            create_failure_text("Applications command"),
        ),
    );
    push_op(&mut ops, set_str("", cmd.as_str()));
    push_op(
        &mut ops,
        create(subkey_of(app_path.as_str(), "SupportedTypes"), create_failure_text("SupportedTypes")),
    );
    let ghost part1 = plan_view(ops@);
    push_ext_values(&mut ops, params.extensions, "");
    let ghost part2 = plan_view(ops@);
    push_op(&mut ops, create(cap_path.clone(), create_failure_text("Capabilities")));
    push_op(&mut ops, set_str("ApplicationName", params.app_name));
    push_op(&mut ops, set_str("ApplicationDescription", APP_DESCRIPTION));
    push_op(
        &mut ops,
        create(
            subkey_of(cap_path.as_str(), "FileAssociations"),
            create_failure_text("FileAssociations"),
        ),
    );
    let ghost part3 = plan_view(ops@);
    push_ext_values(&mut ops, params.extensions, params.progid);
    let ghost part4 = plan_view(ops@);
    push_op(
        &mut ops,
        create(
            String::from_str(REGISTERED_APPS_PATH),
            String::from_str("打开 RegisteredApplications 失败: "),
        ),
    );
    push_op(&mut ops, set_str(params.app_name, cap_path.as_str()));
    let ghost part5 = plan_view(ops@);
    push_open_with(&mut ops, params.extensions, params.progid);
    push_op(&mut ops, RegOp::NotifyAssocChanged);
    proof {
        let pv = params@;
        let exe = exe_path@;
        let e: Seq<char> = seq![];
        assert(""@ =~= e);
        assert(progid_path@ == progid_key(pv));
        assert(app_path@ == application_key(pv));
        assert(cap_path@ == capabilities_key(pv));
        let h1 = register_head(pv, exe);
        assert(part1 =~= h1);
        let h2 = register_caps(pv);
        assert(part3 =~= part2 + h2);
        let h3 = register_listing(pv);
        assert(part5 =~= part4 + h3);
        assert(plan_view(ops@) =~= register_plan(params@, exe_path@));
    }
    ops
}

/// Removes the file association surface (the mirror of the registration,
/// every step idempotent); other applications' default values and
/// OpenWithProgids candidates are left alone.
pub fn unregister_file_associations(params: &AssocParams) -> (r: Vec<RegOp>)
    ensures
        plan_view(r@) == unregister_plan(params@),
{
    let ghost ev = params.extensions@.map_values(|e: &str| e@);
    let mut ops: Vec<RegOp> = Vec::new();
    let n = params.extensions.len();
    let mut i: usize = 0;
    while i < n
        invariant
            n == params.extensions@.len(),
            i <= n,
            ev == params.extensions@.map_values(|e: &str| e@),
            plan_view(ops@) == release_extension_ops(ev, params.progid@).take(2 * i),
        decreases n - i,
    {
        proof {
            reveal_strlit(".");
        }
        let dot = join2(".", params.extensions[i]);
        let ext_key = subkey_of(CLASSES_PATH, dot.as_str());
        let with_key = subkey_of(ext_key.as_str(), "OpenWithProgids");
        proof {
            reveal_strlit("OpenWithProgids");
        }
        assert(dot@ =~= dotted(ev[i as int]));
        assert(ext_key@ =~= extension_key(ev[i as int]));
        assert(with_key@ =~= open_with_key(ev[i as int]));
        push_op(
            &mut ops,
            RegOp::ClearDefaultIfEquals { path: ext_key, expected: String::from_str(params.progid) },
        );
        push_op(
            &mut ops,
            RegOp::DeleteValue { path: with_key, name: String::from_str(params.progid) },
        );
        proof {
            let ro = release_extension_ops(ev, params.progid@);
            assert((2 * i) % 2 == 0);
            assert((2 * i + 1) % 2 == 1);
            assert((2 * i) / 2 == i);
            assert((2 * i + 1) / 2 == i);
            assert(ro.take(2 * i + 2) =~= ro.take(2 * i).push(ro[2 * i]).push(ro[2 * i + 1]));
            assert(plan_view(ops@) =~= ro.take(2 * (i + 1)));
        }
        i = i + 1;
    }
    assert(release_extension_ops(ev, params.progid@).take(2 * n) =~= release_extension_ops(
        ev,
        params.progid@,
    ));
    let progid_path = subkey_of(CLASSES_PATH, params.progid);
    let classes_apps = subkey_of(CLASSES_PATH, "Applications");
    let app_path = subkey_of(classes_apps.as_str(), params.exe_name);
    push_op(&mut ops, delete_tree(progid_path));
    push_op(&mut ops, delete_tree(app_path));
    push_op(&mut ops, delete_tree(String::from_str(params.capability_key)));
    push_op(
        &mut ops,
        RegOp::DeleteValue {
            path: String::from_str(REGISTERED_APPS_PATH),
            name: String::from_str(params.app_name),
        },
    );
    push_op(&mut ops, RegOp::NotifyAssocChanged);
    assert(plan_view(ops@) =~= unregister_plan(params@));
    ops
}

} // verus!
