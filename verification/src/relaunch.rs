//! The elevated processes the wizard starts: when one is needed, how a
//! headless uninstall proceeds, the outcome of one it waited for (from its
//! exit code and the last report of its progress file), and the quoting of
//! the command lines it passes to them.
use vstd::prelude::*;
use vstd::string::*;

use crate::config::TEMP_PREFIX;
use crate::progress::{finished_view, InstallProgress, MSG_INSTALL_DONE};
use crate::args::{
    ARG_DESKTOP_SHORTCUT, ARG_DETECTED_DESKTOP_SHORTCUT, ARG_DETECTED_INSTALL_DIR,
    ARG_DETECTED_SYSTEM, ARG_DETECTED_USER, ARG_FILE_ASSOC, ARG_INSTALL_PATH, ARG_PROGRESS_FILE,
};
use crate::text::{decimal, decimal_of, has_char, join2, join3, trim_end_char};
use crate::wizard::{
    elevated_command_line, kind_flag, quoted, switch, uninstall_command_line, ARG_CONFIRM,
    ARG_ELEVATED, ARG_REMOVE_USER_DATA, ARG_UNINSTALL,
};

verus! {

/// The message of a finished uninstall.
pub const MSG_UNINSTALL_DONE: &'static str = "卸载完成";

/// What an elevated process was started for.
#[derive(Debug, Clone, Copy, PartialEq, Eq)]
pub enum ElevatedTask {
    Install,
    Uninstall,
}

pub const MSG_ELEVATED_INSTALL_EXIT: &'static str = "提权安装进程异常退出 (exit code: ";

pub const MSG_ELEVATED_UNINSTALL_EXIT: &'static str = "提权卸载进程异常退出 (exit code: ";

pub const MSG_EXIT_LOG_HINT: &'static str = ")，详见 %TEMP%\\";

pub const MSG_USER_LEVEL_HINT: &'static str = "；可取消\"为所有用户安装\"改为用户级安装（无需管理员权限）";

/// The message of an elevated process that ended with `exit_code` and left
/// no error: `提权安装进程异常退出 (exit code: N)，详见 %TEMP%\{TEMP_PREFIX}.log`
/// (`卸载` for an uninstall).
pub open spec fn abnormal_exit(task: ElevatedTask, exit_code: u32) -> Seq<char> {
    (if task == ElevatedTask::Install {
        MSG_ELEVATED_INSTALL_EXIT@
    } else {
        MSG_ELEVATED_UNINSTALL_EXIT@
    }) + decimal_of(exit_code as nat) + MSG_EXIT_LOG_HINT@ + TEMP_PREFIX@ + ".log"@
}

/// The outcome of an elevated run, from its exit code and the last report in
/// its progress file (which the polling may have missed): the error that
/// report carries; otherwise, on exit code 0, success with the final report
/// to emit (`安装完成` or `卸载完成`); otherwise the abnormal exit.
pub fn elevated_outcome(task: ElevatedTask, exit_code: u32, last: Option<InstallProgress>) -> (r:
    Result<InstallProgress, String>)
    ensures
        (last matches Some(p) && p.error is Some) ==> (r matches Err(e) && e@ == last->0.error->0@),
        !(last matches Some(p) && p.error is Some) && exit_code == 0 ==> (r matches Ok(f) && f@
            == finished_view(
            if task == ElevatedTask::Install {
                MSG_INSTALL_DONE@
            } else {
                MSG_UNINSTALL_DONE@
            },
        )),
        !(last matches Some(p) && p.error is Some) && exit_code != 0 ==> (r matches Err(e) && e@
            == abnormal_exit(task, exit_code)),
{
    if let Some(p) = last {
        if let Some(e) = p.error {
            return Err(e);
        }
    }
    if exit_code == 0 {
        return Ok(
            match task {
                ElevatedTask::Install => InstallProgress::finished_with(MSG_INSTALL_DONE),
                ElevatedTask::Uninstall => InstallProgress::finished_with(MSG_UNINSTALL_DONE),
            },
        );
    }
    let head = match task {
        ElevatedTask::Install => MSG_ELEVATED_INSTALL_EXIT,
        ElevatedTask::Uninstall => MSG_ELEVATED_UNINSTALL_EXIT,
    };
    let n = decimal(exit_code as u64);
    let mut m = join3(head, n.as_str(), MSG_EXIT_LOG_HINT);
    m.append(TEMP_PREFIX);
    m.append(".log");
    assert(m@ =~= abnormal_exit(task, exit_code));
    Err(m)
}

/// The failure to start the elevated installer, with the hint that a
/// per-user install needs no administrator rights.
pub fn elevation_refused(e: &str) -> (r: String)
    ensures
        r@ == e@ + MSG_USER_LEVEL_HINT@,
{
    join2(e, MSG_USER_LEVEL_HINT)
}

/// Whether the work must go to an elevated process: a system-wide install
/// or uninstall run from a process without administrator rights.
pub fn needs_elevation(is_system: bool, elevated: bool) -> (r: bool)
    ensures
        r == (is_system && !elevated),
{
    is_system && !elevated
}

/// How a headless uninstall goes on once its site is known.
#[derive(Debug, Clone, Copy, PartialEq, Eq)]
pub enum HeadlessRoute {
    /// Restart elevated with the site passed along (a system-wide site
    /// without administrator rights).
    Elevate,
    /// Restart from a copy in the temporary folder, since the running
    /// executable lies in the directory to remove.
    TempCopy,
    /// Uninstall here.
    InPlace,
}

/// The route of a headless uninstall: elevation comes first, then moving
/// out of the install directory.
pub fn headless_route(is_system: bool, elevated: bool, exe_inside: bool) -> (r: HeadlessRoute)
    ensures
        r == (if is_system && !elevated {
            HeadlessRoute::Elevate
        } else if exe_inside {
            HeadlessRoute::TempCopy
        } else {
            HeadlessRoute::InPlace
        }),
{
    if needs_elevation(is_system, elevated) {
        HeadlessRoute::Elevate
    } else if exe_inside {
        HeadlessRoute::TempCopy
    } else {
        HeadlessRoute::InPlace
    }
}

/// No `"` of `s` follows a `\`: none is escaped, every quote delimits.
pub open spec fn quotes_unescaped(s: Seq<char>) -> bool {
    forall|i: int| 1 <= i < s.len() && #[trigger] s[i] == '"' ==> s[i - 1] != '\\'
}

/// The number of `"` in `s`.
pub open spec fn quote_count(s: Seq<char>) -> nat
    decreases s.len(),
{
    if s.len() == 0 {
        0
    } else {
        quote_count(s.drop_last()) + if s.last() == '"' {
            1nat
        } else {
            0nat
        }
    }
}

proof fn lemma_quote_count_concat(a: Seq<char>, b: Seq<char>)
    ensures
        quote_count(a + b) == quote_count(a) + quote_count(b),
    decreases b.len(),
{
    if b.len() == 0 {
        assert(a + b =~= a);
    } else {
        assert((a + b).drop_last() =~= a + b.drop_last());
        assert((a + b).last() == b.last());
        lemma_quote_count_concat(a, b.drop_last());
    }
}

proof fn lemma_quote_count_none(s: Seq<char>)
    requires
        !has_char(s, '"'),
    ensures
        quote_count(s) == 0,
    decreases s.len(),
{
    if s.len() > 0 {
        assert(s.last() == s[s.len() - 1]);
        assert(!has_char(s.drop_last(), '"')) by {
            if has_char(s.drop_last(), '"') {
                let i = choose|i: int| 0 <= i < s.drop_last().len() && s.drop_last()[i] == '"';
                assert(s[i] == '"');
            }
        }
        lemma_quote_count_none(s.drop_last());
    }
}

/// `a + b` has no escaped quote when neither part has one and a leading
/// quote of `b` does not follow a `\` at the end of `a`.
proof fn lemma_unescaped_concat(a: Seq<char>, b: Seq<char>)
    requires
        quotes_unescaped(a),
        quotes_unescaped(b),
        b.len() > 0 && b[0] == '"' && a.len() > 0 ==> a.last() != '\\',
    ensures
        quotes_unescaped(a + b),
{
    let c = a + b;
    assert forall|i: int| 1 <= i < c.len() && #[trigger] c[i] == '"' implies c[i - 1] != '\\' by {
        if i < a.len() {
            assert(c[i] == a[i] && c[i - 1] == a[i - 1]);
        } else if i == a.len() {
            assert(c[i - 1] == a.last());
        } else {
            assert(c[i] == b[i - a.len()] && c[i - 1] == b[i - 1 - a.len()]);
        }
    }
}

proof fn lemma_unescaped_plain(s: Seq<char>)
    requires
        !has_char(s, '"'),
    ensures
        quotes_unescaped(s),
{
    assert forall|i: int| 1 <= i < s.len() && #[trigger] s[i] == '"' implies s[i - 1] != '\\' by {
        assert(has_char(s, '"'));
    }
}

/// Trimming the trailing `\` leaves a prefix that does not end in `\`.
proof fn lemma_trim_prefix(s: Seq<char>)
    ensures
        trim_end_char(s, '\\').len() <= s.len(),
        trim_end_char(s, '\\') == s.take(trim_end_char(s, '\\').len() as int),
        trim_end_char(s, '\\').len() > 0 ==> trim_end_char(s, '\\').last() != '\\',
    decreases s.len(),
{
    if s.len() > 0 && s.last() == '\\' {
        lemma_trim_prefix(s.drop_last());
        let t = trim_end_char(s.drop_last(), '\\');
        assert(s.drop_last().take(t.len() as int) =~= s.take(t.len() as int));
    } else {
        assert(s.take(s.len() as int) =~= s);
    }
}

proof fn lemma_trim_no_quote(s: Seq<char>)
    requires
        !has_char(s, '"'),
    ensures
        !has_char(trim_end_char(s, '\\'), '"'),
{
    lemma_trim_prefix(s);
    let t = trim_end_char(s, '\\');
    if has_char(t, '"') {
        let i = choose|i: int| 0 <= i < t.len() && t[i] == '"';
        assert(t[i] == s[i]);
    }
}

/// A quoted value with no quote of its own that does not end in `\`.
proof fn lemma_quoted_value(v: Seq<char>)
    requires
        !has_char(v, '"'),
        v.len() > 0 ==> v.last() != '\\',
    ensures
        quotes_unescaped(quoted(v)),
        quote_count(quoted(v)) == 2,
{
    let q = seq!['"'];
    lemma_unescaped_plain(v);
    assert(quotes_unescaped(q));
    lemma_unescaped_concat(q, v);
    lemma_unescaped_concat(q + v, q);
    lemma_quote_count_none(v);
    reveal_with_fuel(quote_count, 2);
    assert(q.drop_last().len() == 0);
    lemma_quote_count_concat(q, v);
    lemma_quote_count_concat(q + v, q);
}

proof fn lemma_literal_no_quote()
    ensures
        !has_char(ARG_ELEVATED@, '"'),
        !has_char(ARG_INSTALL_PATH@, '"'),
        !has_char(ARG_PROGRESS_FILE@, '"'),
        !has_char(ARG_DESKTOP_SHORTCUT@, '"'),
        !has_char(ARG_FILE_ASSOC@, '"'),
        !has_char(ARG_UNINSTALL@, '"'),
        !has_char(ARG_CONFIRM@, '"'),
        !has_char(ARG_DETECTED_INSTALL_DIR@, '"'),
        !has_char(ARG_DETECTED_SYSTEM@, '"'),
        !has_char(ARG_DETECTED_USER@, '"'),
        !has_char(ARG_DETECTED_DESKTOP_SHORTCUT@, '"'),
        !has_char(ARG_REMOVE_USER_DATA@, '"'),
        ARG_INSTALL_PATH@.len() > 0 && ARG_INSTALL_PATH@.last() == '=',
        ARG_PROGRESS_FILE@.len() > 0 && ARG_PROGRESS_FILE@.last() == '=',
        ARG_DETECTED_INSTALL_DIR@.len() > 0 && ARG_DETECTED_INSTALL_DIR@.last() == '=',
{
    reveal_strlit("--elevated");
    reveal_strlit("--install-path=");
    reveal_strlit("--progress-file=");
    reveal_strlit("--desktop-shortcut");
    reveal_strlit("--file-assoc");
    reveal_strlit("--uninstall");
    reveal_strlit("--confirm");
    reveal_strlit("--detected-install-dir=");
    reveal_strlit("--detected-system");
    reveal_strlit("--detected-user");
    reveal_strlit("--detected-desktop-shortcut");
    reveal_strlit("--remove-user-data");
}

proof fn lemma_switch_no_quote(on: bool, flag: Seq<char>)
    requires
        !has_char(flag, '"'),
    ensures
        !has_char(switch(on, flag), '"'),
{
    if on {
        let s = seq![' '] + flag;
        if has_char(s, '"') {
            let i = choose|i: int| 0 <= i < s.len() && s[i] == '"';
            assert(s[i] == flag[i - 1]);
        }
    }
}

proof fn lemma_join_no_quote(a: Seq<char>, b: Seq<char>)
    requires
        !has_char(a, '"'),
        !has_char(b, '"'),
    ensures
        !has_char(a + b, '"'),
{
    if has_char(a + b, '"') {
        let i = choose|i: int| 0 <= i < (a + b).len() && (a + b)[i] == '"';
        if i < a.len() {
            assert((a + b)[i] == a[i]);
        } else {
            assert((a + b)[i] == b[i - a.len()]);
        }
    }
}

/// The command line of the elevated installer keeps its two paths whole:
/// it holds exactly the four quotes around them and none is escaped, since
/// the install directory loses its trailing `\` and neither path holds a
/// quote (the progress file does not end in `\`).
pub proof fn lemma_elevated_command_line_quoting(
    install_dir: Seq<char>,
    desktop_shortcut: bool,
    file_assoc: bool,
    progress_file: Seq<char>,
)
    requires
        !has_char(install_dir, '"'),
        !has_char(progress_file, '"'),
        progress_file.len() > 0 ==> progress_file.last() != '\\',
    ensures
        quotes_unescaped(
            elevated_command_line(install_dir, desktop_shortcut, file_assoc, progress_file),
        ),
        quote_count(elevated_command_line(install_dir, desktop_shortcut, file_assoc, progress_file))
            == 4,
{
    lemma_literal_no_quote();
    let t = trim_end_char(install_dir, '\\');
    lemma_trim_prefix(install_dir);
    lemma_trim_no_quote(install_dir);
    let sp = seq![' '];
    assert(!has_char(sp, '"'));
    let a = ARG_ELEVATED@ + sp + ARG_INSTALL_PATH@;
    lemma_join_no_quote(ARG_ELEVATED@, sp);
    lemma_join_no_quote(ARG_ELEVATED@ + sp, ARG_INSTALL_PATH@);
    let b = sp + ARG_PROGRESS_FILE@;
    lemma_join_no_quote(sp, ARG_PROGRESS_FILE@);
    let s1 = switch(desktop_shortcut, ARG_DESKTOP_SHORTCUT@);
    let s2 = switch(file_assoc, ARG_FILE_ASSOC@);
    lemma_switch_no_quote(desktop_shortcut, ARG_DESKTOP_SHORTCUT@);
    lemma_switch_no_quote(file_assoc, ARG_FILE_ASSOC@);
    lemma_join_no_quote(s1, s2);
    let tail = s1 + s2;
    let c = elevated_command_line(install_dir, desktop_shortcut, file_assoc, progress_file);
    assert(c =~= a + quoted(t) + b + quoted(progress_file) + tail);
    assert(a[a.len() - 1] == ARG_INSTALL_PATH@[ARG_INSTALL_PATH@.len() - 1]);
    assert(b[b.len() - 1] == ARG_PROGRESS_FILE@[ARG_PROGRESS_FILE@.len() - 1]);
    lemma_quoted_value(t);
    lemma_quoted_value(progress_file);
    lemma_unescaped_plain(a);
    lemma_unescaped_plain(b);
    lemma_unescaped_plain(tail);
    assert(quoted(t)[0] == '"' && quoted(progress_file)[0] == '"');
    lemma_unescaped_concat(a, quoted(t));
    assert((a + quoted(t)).last() == '"');
    lemma_unescaped_concat(a + quoted(t), b);
    lemma_unescaped_concat(a + quoted(t) + b, quoted(progress_file));
    assert((a + quoted(t) + b + quoted(progress_file)).last() == '"');
    lemma_unescaped_concat(a + quoted(t) + b + quoted(progress_file), tail);
    lemma_quote_count_none(a);
    lemma_quote_count_none(b);
    lemma_quote_count_none(tail);
    lemma_quote_count_concat(a, quoted(t));
    lemma_quote_count_concat(a + quoted(t), b);
    lemma_quote_count_concat(a + quoted(t) + b, quoted(progress_file));
    lemma_quote_count_concat(a + quoted(t) + b + quoted(progress_file), tail);
}

/// The command line of the elevated uninstall worker keeps its paths whole
/// in the same way: quotes only around the site's directory (its trailing
/// `\` dropped) and around the progress file when there is one, none
/// escaped.
#[verifier::rlimit(30)]
pub proof fn lemma_uninstall_command_line_quoting(
    site_dir: Seq<char>,
    is_system: bool,
    desktop_shortcut: bool,
    remove_user_data: bool,
    progress_file: Option<Seq<char>>,
)
    requires
        !has_char(site_dir, '"'),
        progress_file matches Some(p) ==> !has_char(p, '"') && (p.len() > 0 ==> p.last() != '\\'),
    ensures
        quotes_unescaped(
            uninstall_command_line(
                site_dir,
                is_system,
                desktop_shortcut,
                remove_user_data,
                progress_file,
            ),
        ),
        quote_count(
            uninstall_command_line(
                site_dir,
                is_system,
                desktop_shortcut,
                remove_user_data,
                progress_file,
            ),
        ) == if progress_file is Some {
            4nat
        } else {
            2nat
        },
{
    lemma_literal_no_quote();
    let t = trim_end_char(site_dir, '\\');
    lemma_trim_prefix(site_dir);
    lemma_trim_no_quote(site_dir);
    let sp = seq![' '];
    assert(!has_char(sp, '"'));
    let a = ARG_UNINSTALL@ + sp + ARG_CONFIRM@ + sp + ARG_DETECTED_INSTALL_DIR@;
    lemma_join_no_quote(ARG_UNINSTALL@, sp);
    lemma_join_no_quote(ARG_UNINSTALL@ + sp, ARG_CONFIRM@);
    lemma_join_no_quote(ARG_UNINSTALL@ + sp + ARG_CONFIRM@, sp);
    lemma_join_no_quote(ARG_UNINSTALL@ + sp + ARG_CONFIRM@ + sp, ARG_DETECTED_INSTALL_DIR@);
    let kind = sp + kind_flag(is_system);
    lemma_join_no_quote(sp, kind_flag(is_system));
    let s1 = switch(desktop_shortcut, ARG_DETECTED_DESKTOP_SHORTCUT@);
    let s2 = switch(remove_user_data, ARG_REMOVE_USER_DATA@);
    lemma_switch_no_quote(desktop_shortcut, ARG_DETECTED_DESKTOP_SHORTCUT@);
    lemma_switch_no_quote(remove_user_data, ARG_REMOVE_USER_DATA@);
    lemma_join_no_quote(s1, s2);
    let tail = s1 + s2;
    let c = uninstall_command_line(site_dir, is_system, desktop_shortcut, remove_user_data, progress_file);
    assert(a[a.len() - 1] == ARG_DETECTED_INSTALL_DIR@[ARG_DETECTED_INSTALL_DIR@.len() - 1]);
    lemma_quoted_value(t);
    lemma_unescaped_plain(a);
    lemma_unescaped_plain(kind);
    lemma_unescaped_plain(tail);
    assert(quoted(t)[0] == '"');
    lemma_unescaped_concat(a, quoted(t));
    let head = a + quoted(t) + kind;
    lemma_unescaped_concat(a + quoted(t), kind);
    lemma_quote_count_none(a);
    lemma_quote_count_none(kind);
    lemma_quote_count_none(tail);
    lemma_quote_count_concat(a, quoted(t));
    lemma_quote_count_concat(a + quoted(t), kind);
    match progress_file {
        Some(pf) => {
            let b = sp + ARG_PROGRESS_FILE@;
            lemma_join_no_quote(sp, ARG_PROGRESS_FILE@);
            assert(b[b.len() - 1] == ARG_PROGRESS_FILE@[ARG_PROGRESS_FILE@.len() - 1]);
            assert(c =~= head + b + quoted(pf) + tail);
            lemma_quoted_value(pf);
            lemma_unescaped_plain(b);
            lemma_unescaped_concat(head, b);
            assert(quoted(pf)[0] == '"');
            lemma_unescaped_concat(head + b, quoted(pf));
            assert((head + b + quoted(pf)).last() == '"');
            lemma_unescaped_concat(head + b + quoted(pf), tail);
            lemma_quote_count_none(b);
            lemma_quote_count_concat(head, b);
            lemma_quote_count_concat(head + b, quoted(pf));
            lemma_quote_count_concat(head + b + quoted(pf), tail);
        },
        None => {
            assert(c =~= head + tail);
            lemma_unescaped_concat(head, tail);
            lemma_quote_count_concat(head, tail);
        },
    }
}

/// What trimming trailing `\` leaves: a prefix without a quote when there
/// was none, not ending in `\`.
pub proof fn lemma_trim_facts(s: Seq<char>)
    ensures
        trim_end_char(s, '\\').len() > 0 ==> trim_end_char(s, '\\').last() != '\\',
        !has_char(s, '"') ==> !has_char(trim_end_char(s, '\\'), '"'),
{
    lemma_trim_prefix(s);
    if !has_char(s, '"') {
        lemma_trim_no_quote(s);
    }
}

} // verus!
