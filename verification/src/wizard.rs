//! The wizard around the install and uninstall machines: its mode, the
//! configuration the UI asks for, and the command lines of the processes it
//! relaunches (elevated installer, elevated uninstall worker, temporary copy
//! of the uninstaller).
use vstd::prelude::*;
use vstd::string::*;

use crate::args::{
    detected_args_of, DetectedArgsView, UninstallSite, ARG_DETECTED_DESKTOP_SHORTCUT,
    ARG_DETECTED_INSTALL_DIR, ARG_DETECTED_SYSTEM, ARG_DETECTED_USER, ARG_DESKTOP_SHORTCUT,
    ARG_FILE_ASSOC, ARG_INSTALL_PATH, ARG_PROGRESS_FILE,
};
use crate::config::APP_DISPLAY_NAME;
use crate::install::InstallOptions;
use crate::paths::{install_dir_error, is_under, path_is_under, resolved_paths, valid_install_dir, InstallPaths, KnownFolders};
use crate::text::{first_value, has_prefix, join2, join3, same_text, trim_end, trim_end_char, views};

verus! {

pub const MODE_INSTALL: &'static str = "install";

pub const MODE_UNINSTALL: &'static str = "uninstall";

pub const ARG_UNINSTALL: &'static str = "--uninstall";

pub const ARG_CONFIRM: &'static str = "--confirm";

pub const ARG_ELEVATED: &'static str = "--elevated";

pub const ARG_REMOVE_USER_DATA: &'static str = "--remove-user-data";

/// The wizard's mode: install, or uninstall with the site it found (none:
/// the UI shows "no install found").
pub struct WizardState {
    pub mode: &'static str,
    pub uninstall_site: Option<UninstallSite>,
}

impl WizardState {
    /// The state of the install wizard.
    pub fn install() -> (r: WizardState)
        ensures
            r.mode@ == MODE_INSTALL@,
            r.uninstall_site is None,
    {
        WizardState { mode: MODE_INSTALL, uninstall_site: None }
    }
}

/// The state of the uninstall wizard for `site`.
pub fn run_uninstaller(site: Option<UninstallSite>) -> (r: WizardState)
    ensures
        r.mode@ == MODE_UNINSTALL@,
        r.uninstall_site == site,
{
    WizardState { mode: MODE_UNINSTALL, uninstall_site: site }
}

pub const UNINSTALL_TITLE_SUFFIX: &'static str = " 卸载";

/// The title given to the wizard's main window: in uninstall mode the app
/// name followed by the word for uninstall; in any other mode the window
/// keeps the title it was built with (`None`).
pub fn window_title(state: &WizardState) -> (r: Option<String>)
    ensures
        state.mode@ == MODE_UNINSTALL@ ==> (r matches Some(t) && t@ == APP_DISPLAY_NAME@
            + UNINSTALL_TITLE_SUFFIX@),
        state.mode@ != MODE_UNINSTALL@ ==> r is None,
{
    if same_text(state.mode, MODE_UNINSTALL) {
        Some(join2(APP_DISPLAY_NAME, UNINSTALL_TITLE_SUFFIX))
    } else {
        None
    }
}

/// What the UI asks for at start-up.
pub struct InstallConfig {
    pub version: String,
    pub system_default_dir: String,
    pub user_default_dir: String,
    /// `install` or `uninstall`: the UI branches on it.
    pub mode: String,
    /// The uninstall site in uninstall mode; none in install mode or when no
    /// install was found.
    pub uninstall_info: Option<UninstallSite>,
}

/// The options of the uninstall confirmation page.
pub struct UninstallUiOptions {
    pub remove_user_data: bool,
}

/// The configuration for the UI: the version, the default install
/// directories of both install kinds, the mode and the uninstall site.
pub fn get_install_config(state: &WizardState, env: &KnownFolders, version: &str) -> (r: Result<
    InstallConfig,
    String,
>)
    ensures
        r is Ok <==> (resolved_paths(true, *env) is Ok && resolved_paths(false, *env) is Ok),
        resolved_paths(true, *env) matches Err(e) ==> (r matches Err(m) && m@ == e),
        (resolved_paths(true, *env) is Ok && resolved_paths(false, *env) is Err) ==> (r matches Err(
            m,
        ) && m@ == resolved_paths(false, *env)->Err_0),
        r matches Ok(c) ==> {
            &&& c.version@ == version@
            &&& c.system_default_dir@ == resolved_paths(true, *env)->Ok_0.0
            &&& c.user_default_dir@ == resolved_paths(false, *env)->Ok_0.0
            &&& c.mode@ == state.mode@
            &&& c.uninstall_info is Some == state.uninstall_site is Some
            &&& (c.uninstall_info matches Some(u) ==> {
                let s = state.uninstall_site->0;
                u.is_system == s.is_system && u.install_dir@ == s.install_dir@
                    && u.created_desktop_shortcut == s.created_desktop_shortcut
            })
        },
{
    let system = match InstallPaths::resolve(true, env) {
        Ok(p) => p,
        Err(e) => return Err(e),
    };
    let user = match InstallPaths::resolve(false, env) {
        Ok(p) => p,
        Err(e) => return Err(e),
    };
    let uninstall_info = match &state.uninstall_site {
        Some(s) => Some(
            UninstallSite {
                is_system: s.is_system,
                install_dir: s.install_dir.clone(),
                created_desktop_shortcut: s.created_desktop_shortcut,
            },
        ),
        None => None,
    };
    Ok(
        InstallConfig {
            version: String::from_str(version),
            system_default_dir: system.default_install_dir,
            user_default_dir: user.default_install_dir,
            mode: String::from_str(state.mode),
            uninstall_info,
        },
    )
}

pub const DEFAULT_APPS_URI: &'static str = "ms-settings:defaultapps?";

pub const DEFAULT_APPS_MACHINE: &'static str = "registeredAppMachine=";

pub const DEFAULT_APPS_USER: &'static str = "registeredAppUser=";

/// The settings deep link to this application's "Default apps" page
/// (`registeredAppMachine` for an HKLM registration, `registeredAppUser` for
/// HKCU): Windows lets only the user pick the default application.
pub fn default_apps_uri(is_system: bool) -> (r: String)
    ensures
        r@ == DEFAULT_APPS_URI@ + (if is_system {
            DEFAULT_APPS_MACHINE@
        } else {
            DEFAULT_APPS_USER@
        }) + APP_DISPLAY_NAME@,
{
    if is_system {
        join3(DEFAULT_APPS_URI, DEFAULT_APPS_MACHINE, APP_DISPLAY_NAME)
    } else {
        join3(DEFAULT_APPS_URI, DEFAULT_APPS_USER, APP_DISPLAY_NAME)
    }
}

/// Whether the running executable lies inside the install directory (which
/// then cannot be deleted while it runs); an empty directory (a registry
/// detection without `InstallLocation`) holds nothing.
pub fn exe_inside_install_dir(exe: &str, install_dir: &str) -> (r: bool)
    ensures
        r == (install_dir@.len() > 0 && is_under(exe@, install_dir@)),
{
    install_dir.unicode_len() > 0 && path_is_under(exe, install_dir)
}

/// `"s"`: `s` between double quotes.
pub open spec fn quoted(s: Seq<char>) -> Seq<char> {
    seq!['"'] + s + seq!['"']
}

/// ` flag` when `on`, nothing otherwise.
pub open spec fn switch(on: bool, flag: Seq<char>) -> Seq<char> {
    if on {
        seq![' '] + flag
    } else {
        seq![]
    }
}

/// The parameters of the elevated installer: the install directory (its
/// trailing backslashes dropped, as one before the closing quote would escape
/// it) and the progress file, both quoted since they may hold spaces, then the
/// two switches.
pub open spec fn elevated_command_line(
    install_dir: Seq<char>,
    desktop_shortcut: bool,
    file_assoc: bool,
    progress_file: Seq<char>,
) -> Seq<char> {
    ARG_ELEVATED@ + seq![' '] + ARG_INSTALL_PATH@ + quoted(trim_end_char(install_dir, '\\'))
        + seq![' '] + ARG_PROGRESS_FILE@ + quoted(progress_file) + switch(
        desktop_shortcut,
        ARG_DESKTOP_SHORTCUT@,
    ) + switch(file_assoc, ARG_FILE_ASSOC@)
}

/// Appends ` flag` when `on`.
fn push_switch(s: &mut String, on: bool, flag: &str)
    ensures
        final(s)@ == old(s)@ + switch(on, flag@),
{
    proof {
        reveal_strlit(" ");
    }
    if on {
        s.append(" ");
        s.append(flag);
        assert(s@ =~= old(s)@ + switch(on, flag@));
    } else {
        assert(s@ =~= old(s)@ + switch(on, flag@));
    }
}

/// Appends `s` between double quotes.
fn push_quoted(out: &mut String, s: &str)
    ensures
        final(out)@ == old(out)@ + quoted(s@),
{
    proof {
        reveal_strlit("\"");
    }
    out.append("\"");
    out.append(s);
    out.append("\"");
    assert(out@ =~= old(out)@ + quoted(s@));
}

/// The parameters of the elevated installer (see `elevated_command_line`).
pub fn build_elevated_args(options: &InstallOptions, progress_file: &str) -> (r: String)
    ensures
        r@ == elevated_command_line(
            options.install_dir@,
            options.desktop_shortcut,
            options.file_assoc,
            progress_file@,
        ),
{
    proof {
        reveal_strlit(" ");
    }
    let dir = trim_end(options.install_dir.as_str(), '\\');
    let mut s = join3(ARG_ELEVATED, " ", ARG_INSTALL_PATH);
    push_quoted(&mut s, dir);
    s.append(" ");
    s.append(ARG_PROGRESS_FILE);
    push_quoted(&mut s, progress_file);
    push_switch(&mut s, options.desktop_shortcut, ARG_DESKTOP_SHORTCUT);
    push_switch(&mut s, options.file_assoc, ARG_FILE_ASSOC);
    assert(s@ =~= elevated_command_line(
        options.install_dir@,
        options.desktop_shortcut,
        options.file_assoc,
        progress_file@,
    ));
    s
}

/// The install kind flag of the `--detected-*` arguments.
pub open spec fn kind_flag(is_system: bool) -> Seq<char> {
    if is_system {
        ARG_DETECTED_SYSTEM@
    } else {
        ARG_DETECTED_USER@
    }
}

/// The parameters of the elevated uninstall worker: the site's install
/// directory (trailing backslashes dropped, quoted) and kind, the progress
/// file when there is one, then the desktop shortcut and user data switches.
pub open spec fn uninstall_command_line(
    site_dir: Seq<char>,
    is_system: bool,
    desktop_shortcut: bool,
    remove_user_data: bool,
    progress_file: Option<Seq<char>>,
) -> Seq<char> {
    ARG_UNINSTALL@ + seq![' '] + ARG_CONFIRM@ + seq![' '] + ARG_DETECTED_INSTALL_DIR@ + quoted(
        trim_end_char(site_dir, '\\'),
    ) + seq![' '] + kind_flag(is_system) + (match progress_file {
        Some(p) => seq![' '] + ARG_PROGRESS_FILE@ + quoted(p),
        None => seq![],
    }) + switch(desktop_shortcut, ARG_DETECTED_DESKTOP_SHORTCUT@) + switch(
        remove_user_data,
        ARG_REMOVE_USER_DATA@,
    )
}

/// The parameters of the elevated uninstall worker (see `uninstall_command_line`).
pub fn build_uninstall_args(
    site: &UninstallSite,
    remove_user_data: bool,
    progress_file: Option<&str>,
) -> (r: String)
    ensures
        r@ == uninstall_command_line(
            site.install_dir@,
            site.is_system,
            site.created_desktop_shortcut,
            remove_user_data,
            match progress_file {
                Some(p) => Some(p@),
                None => None,
            },
        ),
{
    proof {
        reveal_strlit(" ");
    }
    let dir = trim_end(site.install_dir.as_str(), '\\');
    let mut s = join3(ARG_UNINSTALL, " ", ARG_CONFIRM);
    s.append(" ");
    s.append(ARG_DETECTED_INSTALL_DIR);
    push_quoted(&mut s, dir);
    s.append(" ");
    if site.is_system {
        s.append(ARG_DETECTED_SYSTEM);
    } else {
        s.append(ARG_DETECTED_USER);
    }
    let ghost head = s@;
    match progress_file {
        Some(p) => {
            s.append(" ");
            s.append(ARG_PROGRESS_FILE);
            push_quoted(&mut s, p);
        },
        None => {},
    }
    push_switch(&mut s, site.created_desktop_shortcut, ARG_DETECTED_DESKTOP_SHORTCUT);
    push_switch(&mut s, remove_user_data, ARG_REMOVE_USER_DATA);
    assert(s@ =~= uninstall_command_line(
        site.install_dir@,
        site.is_system,
        site.created_desktop_shortcut,
        remove_user_data,
        match progress_file {
            Some(p) => Some(p@),
            None => None,
        },
    ));
    s
}

/// The argument list of the temporary copy of the uninstaller: the UI mode,
/// or the headless one (`confirm`), with the site passed on as `--detected-*`
/// arguments and the user data switch.
pub open spec fn temp_copy_arg_list(
    site_dir: Seq<char>,
    is_system: bool,
    desktop_shortcut: bool,
    confirm: bool,
    remove_user_data: bool,
) -> Seq<Seq<char>> {
    seq![ARG_UNINSTALL@] + (if confirm {
        seq![ARG_CONFIRM@]
    } else {
        seq![]
    }) + seq![ARG_DETECTED_INSTALL_DIR@ + site_dir, kind_flag(is_system)] + (if desktop_shortcut {
        seq![ARG_DETECTED_DESKTOP_SHORTCUT@]
    } else {
        seq![]
    }) + (if remove_user_data {
        seq![ARG_REMOVE_USER_DATA@]
    } else {
        seq![]
    })
}

/// Appends a copy of `s` to the list.
fn push_arg(v: &mut Vec<String>, s: &str)
    ensures
        views(final(v)@) == views(old(v)@).push(s@),
{
    v.push(String::from_str(s));
    assert(views(v@) =~= views(old(v)@).push(s@));
}

/// The arguments of the temporary copy of the uninstaller (see
/// `temp_copy_arg_list`).
pub fn temp_copy_args(site: &UninstallSite, confirm: bool, remove_user_data: bool) -> (r: Vec<
    String,
>)
    ensures
        views(r@) == temp_copy_arg_list(
            site.install_dir@,
            site.is_system,
            site.created_desktop_shortcut,
            confirm,
            remove_user_data,
        ),
{
    let mut v: Vec<String> = Vec::new();
    push_arg(&mut v, ARG_UNINSTALL);
    if confirm {
        push_arg(&mut v, ARG_CONFIRM);
    }
    let dir = join2(ARG_DETECTED_INSTALL_DIR, site.install_dir.as_str());
    push_arg(&mut v, dir.as_str());
    if site.is_system {
        push_arg(&mut v, ARG_DETECTED_SYSTEM);
    } else {
        push_arg(&mut v, ARG_DETECTED_USER);
    }
    if site.created_desktop_shortcut {
        push_arg(&mut v, ARG_DETECTED_DESKTOP_SHORTCUT);
    }
    if remove_user_data {
        push_arg(&mut v, ARG_REMOVE_USER_DATA);
    }
    assert(views(v@) =~= temp_copy_arg_list(
        site.install_dir@,
        site.is_system,
        site.created_desktop_shortcut,
        confirm,
        remove_user_data,
    ));
    v
}

/// An acceptable install directory is at least three characters long.
proof fn lemma_valid_dir_len(d: Seq<char>)
    requires
        valid_install_dir(d),
    ensures
        d.len() >= 3,
{
    if d.len() < 3 {
        assert(!crate::paths::is_drive_absolute(d));
        assert(!crate::paths::is_verbatim(d));
        assert(!crate::paths::is_device(d));
        assert forall|i: int| !crate::paths::is_unc_split(d, i) by {}
    }
}

/// The temporary copy of the uninstaller rebuilds the very site it was
/// started for: its `--detected-*` arguments parse back to the site's
/// directory, kind and desktop shortcut, and the user data switch survives.
pub proof fn lemma_temp_copy_rebuilds_site(
    site_dir: Seq<char>,
    is_system: bool,
    desktop_shortcut: bool,
    confirm: bool,
    remove_user_data: bool,
)
    requires
        valid_install_dir(site_dir),
    ensures
        detected_args_of(
            temp_copy_arg_list(site_dir, is_system, desktop_shortcut, confirm, remove_user_data),
        ) == Ok::<Option<DetectedArgsView>, Seq<char>>(
            Some(DetectedArgsView { install_dir: site_dir, is_system, desktop_shortcut }),
        ),
        temp_copy_arg_list(site_dir, is_system, desktop_shortcut, confirm, remove_user_data).contains(
            ARG_REMOVE_USER_DATA@,
        ) == remove_user_data,
{
    reveal_strlit("--uninstall");
    reveal_strlit("--confirm");
    reveal_strlit("--detected-install-dir=");
    reveal_strlit("--detected-system");
    reveal_strlit("--detected-user");
    reveal_strlit("--detected-desktop-shortcut");
    reveal_strlit("--remove-user-data");
    lemma_valid_dir_len(site_dir);
    let l = temp_copy_arg_list(site_dir, is_system, desktop_shortcut, confirm, remove_user_data);
    let dir_arg = ARG_DETECTED_INSTALL_DIR@ + site_dir;
    let k: int = if confirm {
        2
    } else {
        1
    };
    // Every argument, by its length and first distinct character.
    assert(l[0] == ARG_UNINSTALL@);
    assert(confirm ==> l[1] == ARG_CONFIRM@);
    assert(l[k] == dir_arg);
    assert(l[k + 1] == kind_flag(is_system));
    assert(!has_prefix(ARG_UNINSTALL@, ARG_DETECTED_INSTALL_DIR@));
    assert(!has_prefix(ARG_CONFIRM@, ARG_DETECTED_INSTALL_DIR@));
    assert(dir_arg.subrange(0, ARG_DETECTED_INSTALL_DIR@.len() as int) =~= ARG_DETECTED_INSTALL_DIR@);
    assert(dir_arg.skip(ARG_DETECTED_INSTALL_DIR@.len() as int) =~= site_dir);
    assert(l.drop_first()[k - 1] == dir_arg);
    if confirm {
        assert(first_value(l.drop_first().drop_first(), ARG_DETECTED_INSTALL_DIR@) == Some(site_dir));
        assert(first_value(l.drop_first(), ARG_DETECTED_INSTALL_DIR@) == Some(site_dir));
    } else {
        assert(first_value(l.drop_first(), ARG_DETECTED_INSTALL_DIR@) == Some(site_dir));
    }
    assert(first_value(l, ARG_DETECTED_INSTALL_DIR@) == Some(site_dir));
    assert(install_dir_error(site_dir) is None);
    // Which flags the list holds.
    assert forall|i: int| 0 <= i < l.len() && l[i] == ARG_DETECTED_SYSTEM@ implies is_system by {
        if i == k + 1 {
            if !is_system {
                assert(l[i].len() != ARG_DETECTED_SYSTEM@.len());
            }
        } else if i == k {
            assert(l[i].len() != ARG_DETECTED_SYSTEM@.len());
        } else if i > k + 1 {
            if desktop_shortcut && i == k + 2 {
                assert(l[i] == ARG_DETECTED_DESKTOP_SHORTCUT@);
            } else {
                assert(l[i] == ARG_REMOVE_USER_DATA@);
            }
            assert(l[i].len() != ARG_DETECTED_SYSTEM@.len());
        }
    }
    assert forall|i: int| 0 <= i < l.len() && l[i] == ARG_DETECTED_USER@ implies !is_system by {
        if i == 0 {
            assert(l[i].len() != ARG_DETECTED_USER@.len());
        } else if i < k {
            assert(l[i] == ARG_CONFIRM@);
            assert(l[i].len() != ARG_DETECTED_USER@.len());
        } else if i == k {
            assert(l[i].len() != ARG_DETECTED_USER@.len());
        } else if i == k + 1 {
            if is_system {
                assert(l[i] == ARG_DETECTED_SYSTEM@);
                assert(l[i].len() != ARG_DETECTED_USER@.len());
            }
        } else {
            if desktop_shortcut && i == k + 2 {
                assert(l[i] == ARG_DETECTED_DESKTOP_SHORTCUT@);
            } else {
                assert(l[i] == ARG_REMOVE_USER_DATA@);
            }
            assert(l[i].len() != ARG_DETECTED_USER@.len());
        }
    }
    assert forall|i: int|
        0 <= i < l.len() && l[i] == ARG_DETECTED_DESKTOP_SHORTCUT@ implies desktop_shortcut by {
        if i == k {
            assert(l[i][11] != ARG_DETECTED_DESKTOP_SHORTCUT@[11]);
        } else if i == k + 1 {
            assert(l[i].len() != ARG_DETECTED_DESKTOP_SHORTCUT@.len());
        } else if i > k + 1 {
            if !desktop_shortcut {
                assert(l[i] == ARG_REMOVE_USER_DATA@);
                assert(l[i].len() != ARG_DETECTED_DESKTOP_SHORTCUT@.len());
            }
        }
    }
    assert forall|i: int| 0 <= i < l.len() && l[i] == ARG_REMOVE_USER_DATA@ implies remove_user_data by {
        if i == 0 {
            assert(l[i].len() != ARG_REMOVE_USER_DATA@.len());
        } else if i < k {
            assert(l[i] == ARG_CONFIRM@);
            assert(l[i].len() != ARG_REMOVE_USER_DATA@.len());
        } else if i == k {
            assert(l[i][2] != ARG_REMOVE_USER_DATA@[2]);
        } else if i == k + 1 {
            assert(l[i] == kind_flag(is_system));
            assert(l[i].len() != ARG_REMOVE_USER_DATA@.len());
        } else if !remove_user_data {
            assert(desktop_shortcut && i == k + 2);
            assert(l[i] == ARG_DETECTED_DESKTOP_SHORTCUT@);
            assert(l[i].len() != ARG_REMOVE_USER_DATA@.len());
        }
    }
    if is_system {
        assert(l.contains(ARG_DETECTED_SYSTEM@));
    } else {
        assert(l.contains(ARG_DETECTED_USER@));
    }
    if desktop_shortcut {
        assert(l[k + 2] == ARG_DETECTED_DESKTOP_SHORTCUT@);
        assert(l.contains(ARG_DETECTED_DESKTOP_SHORTCUT@));
    }
    if remove_user_data {
        assert(l[l.len() - 1] == ARG_REMOVE_USER_DATA@);
        assert(l.contains(ARG_REMOVE_USER_DATA@));
    }
}

} // verus!
