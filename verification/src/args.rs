//! Command-line arguments exchanged between the wizard and the processes it
//! relaunches: `--elevated` (system-wide install after UAC) and the
//! `--detected-*` flags that rebuild an uninstall site.
use vstd::prelude::*;
use vstd::string::*;

use crate::paths::{install_dir_error, valid_install_dir, validate_install_dir};
use crate::text::{find_value, first_value, has_arg, views};

verus! {

pub const ARG_INSTALL_PATH: &'static str = "--install-path=";

pub const ARG_PROGRESS_FILE: &'static str = "--progress-file=";

pub const ARG_DESKTOP_SHORTCUT: &'static str = "--desktop-shortcut";

pub const ARG_FILE_ASSOC: &'static str = "--file-assoc";

pub const ARG_DETECTED_INSTALL_DIR: &'static str = "--detected-install-dir=";

pub const ARG_DETECTED_SYSTEM: &'static str = "--detected-system";

pub const ARG_DETECTED_USER: &'static str = "--detected-user";

pub const ARG_DETECTED_DESKTOP_SHORTCUT: &'static str = "--detected-desktop-shortcut";

pub const MSG_MISSING_INSTALL_PATH: &'static str = "缺少 --install-path 参数";

pub const MSG_DETECTED_KIND: &'static str =
    "--detected-install-dir 需要且只能搭配 --detected-system / --detected-user 之一";

/// The character view of an optional string.
pub open spec fn opt_view(o: Option<String>) -> Option<Seq<char>> {
    match o {
        Some(s) => Some(s@),
        None => None,
    }
}

/// Arguments of the `--elevated` mode: the UI process builds them, the
/// elevated process rebuilds its install options from them.
#[derive(Debug, PartialEq)]
pub struct ElevatedArgs {
    pub install_path: String,
    pub desktop_shortcut: bool,
    pub file_assoc: bool,
    pub progress_file: Option<String>,
}

/// What `ElevatedArgs` holds, as character sequences.
pub struct ElevatedArgsView {
    pub install_path: Seq<char>,
    pub desktop_shortcut: bool,
    pub file_assoc: bool,
    pub progress_file: Option<Seq<char>>,
}

impl View for ElevatedArgs {
    type V = ElevatedArgsView;

    open spec fn view(&self) -> ElevatedArgsView {
        ElevatedArgsView {
            install_path: self.install_path@,
            desktop_shortcut: self.desktop_shortcut,
            file_assoc: self.file_assoc,
            progress_file: opt_view(self.progress_file),
        }
    }
}

/// The meaning of an `--elevated` command line: `--install-path=` must be
/// present (first occurrence wins) and name an acceptable install directory;
/// the two switches default to off; `--progress-file=` is optional.
pub open spec fn elevated_args_of(args: Seq<Seq<char>>) -> Result<ElevatedArgsView, Seq<char>> {
    match first_value(args, ARG_INSTALL_PATH@) {
        None => Err(MSG_MISSING_INSTALL_PATH@),
        Some(path) => match install_dir_error(path) {
            Some(e) => Err(e),
            None => Ok(
                ElevatedArgsView {
                    install_path: path,
                    desktop_shortcut: args.contains(ARG_DESKTOP_SHORTCUT@),
                    file_assoc: args.contains(ARG_FILE_ASSOC@),
                    progress_file: first_value(args, ARG_PROGRESS_FILE@),
                },
            ),
        },
    }
}

/// Parses the arguments of the `--elevated` mode.
pub fn parse_elevated_args(args: &[String]) -> (r: Result<ElevatedArgs, String>)
    ensures
        r is Ok <==> elevated_args_of(views(args@)) is Ok,
        r matches Ok(a) ==> elevated_args_of(views(args@)) == Ok::<ElevatedArgsView, Seq<char>>(
            a@,
        ),
        r matches Err(e) ==> elevated_args_of(views(args@)) == Err::<ElevatedArgsView, Seq<char>>(
            e@,
        ),
{
    let install_path = match find_value(args, ARG_INSTALL_PATH) {
        Some(p) => p,
        None => return Err(String::from_str(MSG_MISSING_INSTALL_PATH)),
    };
    match validate_install_dir(install_path) {
        Ok(()) => {},
        Err(e) => return Err(e),
    }
    let progress_file = match find_value(args, ARG_PROGRESS_FILE) {
        Some(p) => Some(String::from_str(p)),
        None => None,
    };
    Ok(
        ElevatedArgs {
            install_path: String::from_str(install_path),
            desktop_shortcut: has_arg(args, ARG_DESKTOP_SHORTCUT),
            file_assoc: has_arg(args, ARG_FILE_ASSOC),
            progress_file,
        },
    )
}

/// An uninstall site: found by detection or rebuilt from `--detected-*`
/// arguments; the UI and the headless paths share it.
#[derive(Debug, Clone, PartialEq)]
pub struct UninstallSite {
    /// true: system-wide (HKLM + Program Files); false: per user (HKCU + LOCALAPPDATA).
    pub is_system: bool,
    pub install_dir: String,
    /// Registry fallback detection cannot tell whether a desktop shortcut was
    /// made, and then says true.
    pub created_desktop_shortcut: bool,
}

/// The `--detected-*` arguments of a temporary copy or of an elevated worker,
/// which cannot read `install-info.json` beside their own executable.
#[derive(Debug, PartialEq)]
pub struct DetectedArgs {
    pub install_dir: String,
    pub is_system: bool,
    pub desktop_shortcut: bool,
}

/// What `DetectedArgs` holds, as character sequences.
pub struct DetectedArgsView {
    pub install_dir: Seq<char>,
    pub is_system: bool,
    pub desktop_shortcut: bool,
}

impl View for DetectedArgs {
    type V = DetectedArgsView;

    open spec fn view(&self) -> DetectedArgsView {
        DetectedArgsView {
            install_dir: self.install_dir@,
            is_system: self.is_system,
            desktop_shortcut: self.desktop_shortcut,
        }
    }
}

impl DetectedArgs {
    /// The uninstall site these arguments describe.
    pub fn to_site(&self) -> (r: UninstallSite)
        ensures
            r.is_system == self.is_system,
            r.install_dir@ == self.install_dir@,
            r.created_desktop_shortcut == self.desktop_shortcut,
    {
        UninstallSite {
            is_system: self.is_system,
            install_dir: self.install_dir.clone(),
            created_desktop_shortcut: self.desktop_shortcut,
        }
    }
}

/// The meaning of the `--detected-*` arguments: absent install dir means no
/// rebuilt site (`Ok(None)`); a present one must be acceptable and come with
/// exactly one of `--detected-system` / `--detected-user`.
pub open spec fn detected_args_of(args: Seq<Seq<char>>) -> Result<
    Option<DetectedArgsView>,
    Seq<char>,
> {
    match first_value(args, ARG_DETECTED_INSTALL_DIR@) {
        None => Ok(None),
        Some(dir) => match install_dir_error(dir) {
            Some(e) => Err(e),
            None => {
                let sys = args.contains(ARG_DETECTED_SYSTEM@);
                let user = args.contains(ARG_DETECTED_USER@);
                if sys == user {
                    Err(MSG_DETECTED_KIND@)
                } else {
                    Ok(
                        Some(
                            DetectedArgsView {
                                install_dir: dir,
                                is_system: sys,
                                desktop_shortcut: args.contains(ARG_DETECTED_DESKTOP_SHORTCUT@),
                            },
                        ),
                    )
                }
            },
        },
    }
}

/// The view of an optional `DetectedArgs`.
pub open spec fn opt_detected_view(o: Option<DetectedArgs>) -> Option<DetectedArgsView> {
    match o {
        Some(d) => Some(d@),
        None => None,
    }
}

/// Parses the `--detected-*` arguments.
pub fn parse_detected_args(args: &[String]) -> (r: Result<Option<DetectedArgs>, String>)
    ensures
        r is Ok <==> detected_args_of(views(args@)) is Ok,
        r matches Ok(d) ==> detected_args_of(views(args@)) == Ok::<
            Option<DetectedArgsView>,
            Seq<char>,
        >(opt_detected_view(d)),
        r matches Err(e) ==> detected_args_of(views(args@)) == Err::<
            Option<DetectedArgsView>,
            Seq<char>,
        >(e@),
{
    let install_dir = match find_value(args, ARG_DETECTED_INSTALL_DIR) {
        Some(d) => d,
        None => return Ok(None),
    };
    match validate_install_dir(install_dir) {
        Ok(()) => {},
        Err(e) => return Err(e),
    }
    let sys = has_arg(args, ARG_DETECTED_SYSTEM);
    let user = has_arg(args, ARG_DETECTED_USER);
    if sys == user {
        return Err(String::from_str(MSG_DETECTED_KIND));
    }
    Ok(
        Some(
            DetectedArgs {
                install_dir: String::from_str(install_dir),
                is_system: sys,
                desktop_shortcut: has_arg(args, ARG_DETECTED_DESKTOP_SHORTCUT),
            },
        ),
    )
}

} // verus!
