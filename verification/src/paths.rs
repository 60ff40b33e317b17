//! Windows path rules: which install directories are accepted, whether a path
//! lies inside a directory, and the standard folders of the two install kinds.
use vstd::prelude::*;
use vstd::string::*;

use crate::config::INSTALL_DIR_NAME;
use crate::text::{ascii_lower, is_ascii_char, blank, contains_char, has_char, has_prefix, is_blank, is_white_space, join2, join3, lowercase, starts_with, to_lower};

verus! {

/// A path separator on Windows.
pub open spec fn is_sep(c: char) -> bool {
    c == '\\' || c == '/'
}

pub open spec fn is_ascii_alpha(c: char) -> bool {
    ('a' <= c && c <= 'z') || ('A' <= c && c <= 'Z')
}

/// `X:\…`: a drive prefix followed by a root separator.
pub open spec fn is_drive_absolute(p: Seq<char>) -> bool {
    p.len() >= 3 && is_ascii_alpha(p[0]) && p[1] == ':' && is_sep(p[2])
}

/// `\\?\…`: a verbatim prefix, written with backslashes only.
pub open spec fn is_verbatim(p: Seq<char>) -> bool {
    p.len() >= 4 && p[0] == '\\' && p[1] == '\\' && p[2] == '?' && p[3] == '\\'
}

/// `\\.\…`: a device namespace prefix.
pub open spec fn is_device(p: Seq<char>) -> bool {
    p.len() >= 4 && is_sep(p[0]) && is_sep(p[1]) && p[2] == '.' && is_sep(p[3])
}

/// Position `i` ends the server name of `\\server\share`: the server runs from
/// index 2 to `i` without separators, and a share name starts after `i`.
pub open spec fn is_unc_split(p: Seq<char>, i: int) -> bool {
    &&& 2 < i && i + 1 < p.len()
    &&& is_sep(p[i])
    &&& !is_sep(p[i + 1])
    &&& forall|j: int| 2 <= j < i ==> !is_sep(#[trigger] p[j])
}

/// `\\server\share…` with a non-empty server and a non-empty share.
pub open spec fn is_unc_share(p: Seq<char>) -> bool {
    p.len() >= 2 && is_sep(p[0]) && is_sep(p[1]) && exists|i: int| is_unc_split(p, i)
}

/// `Path::is_absolute` on Windows: a prefix (drive, verbatim, device or UNC)
/// together with a root.
pub open spec fn is_windows_absolute(p: Seq<char>) -> bool {
    is_drive_absolute(p) || is_verbatim(p) || is_device(p) || is_unc_share(p)
}

pub const MSG_DIR_BLANK: &'static str = "安装路径不能为空";

pub const MSG_DIR_QUOTE: &'static str = "安装路径不能包含引号";

pub const MSG_DIR_RELATIVE: &'static str = "安装路径必须为绝对路径: ";

/// Why an install directory is refused, checked in this order: blank, holds
/// a double quote (it would break the quoting of the elevated command line),
/// not absolute.
pub open spec fn install_dir_error(dir: Seq<char>) -> Option<Seq<char>> {
    if is_blank(dir) {
        Some(MSG_DIR_BLANK@)
    } else if has_char(dir, '"') {
        Some(MSG_DIR_QUOTE@)
    } else if !is_windows_absolute(dir) {
        Some(MSG_DIR_RELATIVE@ + dir)
    } else {
        None
    }
}

/// An install directory that `validate_install_dir` accepts.
pub open spec fn valid_install_dir(dir: Seq<char>) -> bool {
    install_dir_error(dir) is None
}

pub fn is_separator(c: char) -> (r: bool)
    ensures
        r == is_sep(c),
{
    c == '\\' || c == '/'
}

fn is_unc_share_path(p: &str) -> (r: bool)
    ensures
        r == is_unc_share(p@),
{
    let n = p.unicode_len();
    if n < 3 || !is_separator(p.get_char(0)) || !is_separator(p.get_char(1)) {
        proof {
            if n >= 2 && is_sep(p@[0]) && is_sep(p@[1]) {
                assert(n == 2);
                assert forall|i: int| !is_unc_split(p@, i) by {}
            }
        }
        return false;
    }
    let mut i: usize = 2;
    while i < n && !is_separator(p.get_char(i))
        invariant
            n == p@.len(),
            2 <= i <= n,
            forall|j: int| 2 <= j < i ==> !is_sep(#[trigger] p@[j]),
        decreases n - i,
    {
        i = i + 1;
    }
    // `i` is the first separator at or after index 2, or the end.
    if i == 2 || i >= n - 1 || is_separator(p.get_char(i + 1)) {
        proof {
            assert forall|k: int| !is_unc_split(p@, k) by {
                if is_unc_split(p@, k) {
                    if k < i {
                        assert(!is_sep(p@[k]));
                    } else if k > i {
                        assert(!is_sep(p@[i as int]));
                    }
                }
            }
        }
        false
    } else {
        assert(is_unc_split(p@, i as int));
        true
    }
}

/// `Path::is_absolute` as Windows answers it.
pub fn is_absolute(p: &str) -> (r: bool)
    ensures
        r == is_windows_absolute(p@),
{
    let n = p.unicode_len();
    if n >= 3 {
        let c0 = p.get_char(0);
        if (('a' <= c0 && c0 <= 'z') || ('A' <= c0 && c0 <= 'Z')) && p.get_char(1) == ':'
            && is_separator(p.get_char(2)) {
            return true;
        }
    }
    if n >= 4 {
        let c0 = p.get_char(0);
        let c1 = p.get_char(1);
        let c2 = p.get_char(2);
        let c3 = p.get_char(3);
        if c0 == '\\' && c1 == '\\' && c2 == '?' && c3 == '\\' {
            return true;
        }
        if is_separator(c0) && is_separator(c1) && c2 == '.' && is_separator(c3) {
            return true;
        }
    }
    is_unc_share_path(p)
}

/// Checks an install directory: not blank, no double quote, absolute.
/// Both the direct install and the elevated install call it at their entry.
pub fn validate_install_dir(dir: &str) -> (r: Result<(), String>)
    ensures
        r is Ok <==> valid_install_dir(dir@),
        r matches Err(e) ==> install_dir_error(dir@) == Some(e@),
{
    if blank(dir) {
        return Err(String::from_str(MSG_DIR_BLANK));
    }
    if contains_char(dir, '"') {
        return Err(String::from_str(MSG_DIR_QUOTE));
    }
    if !is_absolute(dir) {
        return Err(join2(MSG_DIR_RELATIVE, dir));
    }
    Ok(())
}

/// The directory prefix used to match paths inside `dir`: lower-cased, with
/// one trailing separator.
pub open spec fn dir_prefix_of(dir: Seq<char>) -> Seq<char> {
    let l = lowercase(dir);
    if l.len() > 0 && is_sep(l.last()) {
        l
    } else {
        l.push('\\')
    }
}

/// Whether `path` lies inside `dir`, comparing lower-cased text (Windows
/// paths ignore case) and requiring the separator after the directory name.
pub open spec fn is_under(path: Seq<char>, dir: Seq<char>) -> bool {
    has_prefix(lowercase(path), dir_prefix_of(dir))
}

/// All characters of `s` are ASCII.
pub open spec fn ascii_text(s: Seq<char>) -> bool {
    forall|i: int| 0 <= i < s.len() ==> is_ascii_char(#[trigger] s[i])
}

/// `s` with its ASCII letters lower-cased.
pub open spec fn ascii_lowered(s: Seq<char>) -> Seq<char> {
    s.map_values(|c: char| ascii_lower(c))
}

/// `dir_prefix_of` for ASCII text: lower-cased, ending in a separator.
pub open spec fn ascii_dir_prefix(dir: Seq<char>) -> Seq<char> {
    let l = ascii_lowered(dir);
    if l.len() > 0 && is_sep(l.last()) {
        l
    } else {
        l.push('\\')
    }
}

/// Lower-cased `dir` ending in a separator.
pub fn dir_prefix(dir: &str) -> (r: String)
    ensures
        r@ == dir_prefix_of(dir@),
        ascii_text(dir@) ==> r@ == ascii_dir_prefix(dir@),
{
    let mut s = to_lower(dir);
    let n = s.as_str().unicode_len();
    if n > 0 && is_separator(s.as_str().get_char(n - 1)) {
        s
    } else {
        s.append("\\");
        proof {
            reveal_strlit("\\");
        }
        assert(s@ =~= lowercase(dir@).push('\\'));
        s
    }
}

/// Whether `path` lies inside `dir` (see `is_under`); for ASCII text, the
/// comparison is of the ASCII lower-cased texts. A directory that does not
/// end in a separator is not inside itself.
pub fn path_is_under(path: &str, dir: &str) -> (r: bool)
    ensures
        r == is_under(path@, dir@),
        ascii_text(path@) && ascii_text(dir@) ==> r == has_prefix(
            ascii_lowered(path@),
            ascii_dir_prefix(dir@),
        ),
        path@ == dir@ && (dir@.len() == 0 || !is_sep(dir@.last())) ==> !r,
{
    let p = to_lower(path);
    let d = dir_prefix(dir);
    proof {
        if path@ == dir@ && (dir@.len() == 0 || !is_sep(dir@.last())) {
            assert(dir_prefix_of(dir@) == lowercase(dir@).push('\\'));
            assert(d@.len() > p@.len());
        }
    }
    starts_with(p.as_str(), d.as_str())
}

/// A directory is not inside itself, and a sibling whose name merely extends
/// the directory's name (`My App 2` beside `My App`) is not inside it either:
/// when the lower-cased path is the lower-cased directory (not ending in a
/// separator) followed by text that does not start with a separator, the
/// path is not under the directory.
pub proof fn lemma_sibling_not_under(path: Seq<char>, dir: Seq<char>, rest: Seq<char>)
    requires
        lowercase(path) == lowercase(dir) + rest,
        lowercase(dir).len() == 0 || !is_sep(lowercase(dir).last()),
        rest.len() == 0 || !is_sep(rest[0]),
    ensures
        !is_under(path, dir),
{
    let l = lowercase(dir);
    let p = lowercase(path);
    if has_prefix(p, dir_prefix_of(dir)) {
        assert(dir_prefix_of(dir) == l.push('\\'));
        assert(p[l.len() as int] == dir_prefix_of(dir)[l.len() as int]);
        assert(p[l.len() as int] == rest[0]);
    }
}

/// `Path::join` on Windows for a relative `part`: a separator goes between
/// the two unless `base` is empty, already ends in one, or is a bare drive
/// (`C:`).
pub open spec fn path_join(base: Seq<char>, part: Seq<char>) -> Seq<char> {
    if base.len() == 0 || is_sep(base.last()) || (base.len() == 2 && is_ascii_alpha(base[0])
        && base[1] == ':') {
        base + part
    } else {
        base + seq!['\\'] + part
    }
}

/// `base.join(part)` for a relative `part`.
pub fn join_path(base: &str, part: &str) -> (r: String)
    ensures
        r@ == path_join(base@, part@),
{
    let n = base.unicode_len();
    if n == 0 || is_separator(base.get_char(n - 1)) {
        return join2(base, part);
    }
    if n == 2 {
        let c0 = base.get_char(0);
        if (('a' <= c0 && c0 <= 'z') || ('A' <= c0 && c0 <= 'Z')) && base.get_char(1) == ':' {
            return join2(base, part);
        }
    }
    proof {
        reveal_strlit("\\");
    }
    join3(base, "\\", part)
}

/// The standard folders of one install kind.
pub struct InstallPaths {
    /// Default install directory (the user may change it in the wizard).
    pub default_install_dir: String,
    /// Start menu program group.
    pub start_menu_dir: String,
    /// Desktop folder, where the desktop shortcut goes.
    pub desktop_dir: String,
}

/// The environment variables that locate the standard folders, as read by
/// the caller (`None` when a variable is not set).
pub struct KnownFolders {
    pub program_files: Option<String>,
    pub program_data: Option<String>,
    pub public: Option<String>,
    pub local_app_data: Option<String>,
    pub app_data: Option<String>,
    pub user_profile: Option<String>,
}

pub const START_MENU_SUFFIX: &'static str = "Microsoft\\Windows\\Start Menu\\Programs";

pub const MSG_ENV_PREFIX: &'static str = "环境变量 ";

pub const MSG_ENV_SUFFIX: &'static str = " 不可用";

/// The error for a missing environment variable `name`.
pub open spec fn env_error(name: Seq<char>) -> Seq<char> {
    MSG_ENV_PREFIX@ + name + MSG_ENV_SUFFIX@
}

/// The start menu group below a folder root.
pub open spec fn start_menu_under(root: Seq<char>) -> Seq<char> {
    path_join(root, path_join(START_MENU_SUFFIX@, INSTALL_DIR_NAME@))
}

/// The folders of a system-wide install (`Program Files`, `ProgramData`,
/// public desktop) or of a per-user one (`LOCALAPPDATA\Programs`, `APPDATA`,
/// the user's desktop); an error naming the first variable, in that order,
/// that is not set.
pub open spec fn resolved_paths(is_system: bool, env: KnownFolders) -> Result<
    (Seq<char>, Seq<char>, Seq<char>),
    Seq<char>,
> {
    if is_system {
        match (env.program_files, env.program_data, env.public) {
            (None, _, _) => Err(env_error("ProgramFiles"@)),
            (Some(_), None, _) => Err(env_error("ProgramData"@)),
            (Some(_), Some(_), None) => Err(env_error("PUBLIC"@)),
            (Some(pf), Some(pd), Some(pb)) => Ok(
                (
                    path_join(pf@, INSTALL_DIR_NAME@),
                    start_menu_under(pd@),
                    path_join(pb@, "Desktop"@),
                ),
            ),
        }
    } else {
        match (env.local_app_data, env.app_data, env.user_profile) {
            (None, _, _) => Err(env_error("LOCALAPPDATA"@)),
            (Some(_), None, _) => Err(env_error("APPDATA"@)),
            (Some(_), Some(_), None) => Err(env_error("USERPROFILE"@)),
            (Some(la), Some(ad), Some(up)) => Ok(
                (
                    path_join(path_join(la@, "Programs"@), INSTALL_DIR_NAME@),
                    start_menu_under(ad@),
                    path_join(up@, "Desktop"@),
                ),
            ),
        }
    }
}

fn env_missing(name: &str) -> (r: String)
    ensures
        r@ == env_error(name@),
{
    join3(MSG_ENV_PREFIX, name, MSG_ENV_SUFFIX)
}

impl InstallPaths {
    /// The standard folders of a system-wide (`is_system`) or per-user install.
    pub fn resolve(is_system: bool, env: &KnownFolders) -> (r: Result<InstallPaths, String>)
        ensures
            r is Ok <==> resolved_paths(is_system, *env) is Ok,
            r matches Ok(p) ==> resolved_paths(is_system, *env) == Ok::<
                (Seq<char>, Seq<char>, Seq<char>),
                Seq<char>,
            >((p.default_install_dir@, p.start_menu_dir@, p.desktop_dir@)),
            r matches Err(e) ==> resolved_paths(is_system, *env) == Err::<
                (Seq<char>, Seq<char>, Seq<char>),
                Seq<char>,
            >(e@),
    {
        let suffix = join_path(START_MENU_SUFFIX, INSTALL_DIR_NAME);
        if is_system {
            let pf = match &env.program_files {
                Some(v) => v,
                None => return Err(env_missing("ProgramFiles")),
            };
            let pd = match &env.program_data {
                Some(v) => v,
                None => return Err(env_missing("ProgramData")),
            };
            let pb = match &env.public {
                Some(v) => v,
                None => return Err(env_missing("PUBLIC")),
            };
            Ok(InstallPaths {
                default_install_dir: join_path(pf.as_str(), INSTALL_DIR_NAME),
                start_menu_dir: join_path(pd.as_str(), suffix.as_str()),
                desktop_dir: join_path(pb.as_str(), "Desktop"),
            })
        } else {
            let la = match &env.local_app_data {
                Some(v) => v,
                None => return Err(env_missing("LOCALAPPDATA")),
            };
            let ad = match &env.app_data {
                Some(v) => v,
                None => return Err(env_missing("APPDATA")),
            };
            let up = match &env.user_profile {
                Some(v) => v,
                None => return Err(env_missing("USERPROFILE")),
            };
            let programs = join_path(la.as_str(), "Programs");
            Ok(InstallPaths {
                default_install_dir: join_path(programs.as_str(), INSTALL_DIR_NAME),
                start_menu_dir: join_path(ad.as_str(), suffix.as_str()),
                desktop_dir: join_path(up.as_str(), "Desktop"),
            })
        }
    }
}

/// `X:\…` is absolute with a drive letter of either case, and changing the
/// case of the drive letter never changes whether a path is absolute, nor
/// whether it is accepted as an install directory.
pub proof fn lemma_drive_letter_case_blind(p: Seq<char>, c: char)
    requires
        p.len() > 0,
        ('a' <= p[0] && p[0] <= 'z') || ('A' <= p[0] && p[0] <= 'Z'),
        ('a' <= c && c <= 'z') || ('A' <= c && c <= 'Z'),
        c == p[0] || c as u32 == p[0] as u32 + 32 || p[0] as u32 == c as u32 + 32,
    ensures
        p.len() >= 3 && p[1] == ':' && (p[2] == '\\' || p[2] == '/') ==> is_windows_absolute(p),
        is_windows_absolute(p.update(0, c)) == is_windows_absolute(p),
        valid_install_dir(p.update(0, c)) == valid_install_dir(p),
{
    let q = p.update(0, c);
    assert(!is_sep(p[0]) && !is_sep(q[0]));
    assert(!is_unc_share(p) && !is_unc_share(q));
    assert(is_white_space(q[0]) == is_white_space(p[0]));
    assert(is_blank(q) == is_blank(p)) by {
        assert(!is_white_space(p[0]));
        assert(!is_blank(p));
        assert(!is_blank(q));
    }
    assert(has_char(q, '"') == has_char(p, '"')) by {
        if has_char(p, '"') {
            let i = choose|i: int| 0 <= i < p.len() && p[i] == '"';
            assert(q[i] == '"');
        }
        if has_char(q, '"') {
            let i = choose|i: int| 0 <= i < q.len() && q[i] == '"';
            assert(p[i] == '"');
        }
    }
}

/// On ASCII text, being inside a directory does not depend on letter case:
/// paths, and directories, that differ only in the case of their letters
/// give the same answer.
pub proof fn lemma_under_ignores_ascii_case(
    path: Seq<char>,
    path2: Seq<char>,
    dir: Seq<char>,
    dir2: Seq<char>,
)
    requires
        ascii_lowered(path) == ascii_lowered(path2),
        ascii_lowered(dir) == ascii_lowered(dir2),
    ensures
        has_prefix(ascii_lowered(path), ascii_dir_prefix(dir)) == has_prefix(
            ascii_lowered(path2),
            ascii_dir_prefix(dir2),
        ),
{
}

} // verus!
