//! How the elevated process gets its arguments back: a model of the Windows
//! command-line splitting rules (the documented `CommandLineToArgvW` rules
//! that std's `env::args` follows for the arguments after the program name),
//! and the law that the command line the wizard builds splits and parses back
//! to the options it was built from.
use vstd::prelude::*;
use vstd::string::*;

use crate::args::{
    detected_args_of, elevated_args_of, DetectedArgsView, ElevatedArgsView, ARG_DESKTOP_SHORTCUT,
    ARG_DETECTED_DESKTOP_SHORTCUT, ARG_DETECTED_INSTALL_DIR, ARG_DETECTED_SYSTEM, ARG_DETECTED_USER,
    ARG_FILE_ASSOC, ARG_INSTALL_PATH, ARG_PROGRESS_FILE,
};
use crate::paths::valid_install_dir;
use crate::text::{first_value, has_char, has_prefix, trim_end_char};
use crate::wizard::{
    elevated_command_line, kind_flag, quoted, switch, uninstall_command_line, ARG_CONFIRM,
    ARG_ELEVATED, ARG_REMOVE_USER_DATA, ARG_UNINSTALL,
};

verus! {

/// Where the splitting stands: the arguments so far, the one being read,
/// whether one is being read, whether inside quotes, and how many `\` end
/// the current argument (they may escape a following quote).
pub struct SplitState {
    pub args: Seq<Seq<char>>,
    pub cur: Seq<char>,
    pub in_arg: bool,
    pub in_quotes: bool,
    pub backslashes: nat,
}

/// Space and tab separate arguments outside quotes.
pub open spec fn is_gap(c: char) -> bool {
    c == ' ' || c == '\t'
}

/// One character: `\` is kept and counted; `"` after `2n` backslashes keeps
/// `n` of them and opens or closes quotes, after `2n+1` keeps `n` and is a
/// literal quote; a gap outside quotes ends the argument; anything else is
/// kept.
pub open spec fn split_step(st: SplitState, c: char) -> SplitState {
    if c == '\\' {
        SplitState { cur: st.cur.push('\\'), in_arg: true, backslashes: st.backslashes + 1, ..st }
    } else if c == '"' {
        let half = st.backslashes / 2;
        if st.backslashes % 2 == 1 {
            SplitState {
                cur: st.cur.take(st.cur.len() - half - 1).push('"'),
                in_arg: true,
                backslashes: 0,
                ..st
            }
        } else {
            SplitState {
                cur: st.cur.take(st.cur.len() - half),
                in_arg: true,
                in_quotes: !st.in_quotes,
                backslashes: 0,
                ..st
            }
        }
    } else if is_gap(c) && !st.in_quotes {
        if st.in_arg {
            SplitState {
                args: st.args.push(st.cur),
                cur: seq![],
                in_arg: false,
                backslashes: 0,
                ..st
            }
        } else {
            SplitState { backslashes: 0, ..st }
        }
    } else {
        SplitState { cur: st.cur.push(c), in_arg: true, backslashes: 0, ..st }
    }
}

/// The walk over `rest`; inside quotes, `""` (after an even number of
/// backslashes) is one literal quote.
pub open spec fn split_walk(st: SplitState, rest: Seq<char>) -> SplitState
    decreases rest.len(),
{
    if rest.len() == 0 {
        st
    } else if rest[0] == '"' && st.backslashes % 2 == 0 && st.in_quotes && rest.len() > 1 && rest[1]
        == '"' {
        split_walk(
            SplitState {
                cur: st.cur.take(st.cur.len() - st.backslashes / 2).push('"'),
                in_arg: true,
                backslashes: 0,
                ..st
            },
            rest.skip(2),
        )
    } else {
        split_walk(split_step(st, rest[0]), rest.drop_first())
    }
}

/// The arguments a command line splits into.
pub open spec fn split_command_line(line: Seq<char>) -> Seq<Seq<char>> {
    let st = split_walk(
        SplitState { args: seq![], cur: seq![], in_arg: false, in_quotes: false, backslashes: 0 },
        line,
    );
    if st.in_arg {
        st.args.push(st.cur)
    } else {
        st.args
    }
}

/// `split_step` over each character of `s`, in order.
pub open spec fn split_steps(st: SplitState, s: Seq<char>) -> SplitState
    decreases s.len(),
{
    if s.len() == 0 {
        st
    } else {
        split_steps(split_step(st, s[0]), s.drop_first())
    }
}

/// Without a quote in `s`, the walk takes it character by character.
proof fn lemma_walk_no_quote(st: SplitState, s: Seq<char>, rest: Seq<char>)
    requires
        !has_char(s, '"'),
    ensures
        split_walk(st, s + rest) == split_walk(split_steps(st, s), rest),
    decreases s.len(),
{
    if s.len() == 0 {
        assert(s + rest =~= rest);
    } else {
        assert((s + rest)[0] == s[0]);
        assert((s + rest).drop_first() =~= s.drop_first() + rest);
        assert(!has_char(s.drop_first(), '"')) by {
            if has_char(s.drop_first(), '"') {
                let i = choose|i: int| 0 <= i < s.drop_first().len() && s.drop_first()[i] == '"';
                assert(s[i + 1] == '"');
            }
        }
        lemma_walk_no_quote(split_step(st, s[0]), s.drop_first(), rest);
    }
}

/// Text without a quote, inside quotes or without gaps, is kept as it is;
/// after it, no backslash is pending when it ends in another character.
proof fn lemma_steps_literal(st: SplitState, s: Seq<char>)
    requires
        !has_char(s, '"'),
        !st.in_quotes ==> forall|i: int| 0 <= i < s.len() ==> !is_gap(#[trigger] s[i]),
    ensures
        split_steps(st, s).args == st.args,
        split_steps(st, s).cur == st.cur + s,
        split_steps(st, s).in_quotes == st.in_quotes,
        split_steps(st, s).in_arg == (st.in_arg || s.len() > 0),
        s.len() == 0 ==> split_steps(st, s).backslashes == st.backslashes,
        s.len() > 0 && s.last() != '\\' ==> split_steps(st, s).backslashes == 0,
    decreases s.len(),
{
    if s.len() == 0 {
        assert(st.cur + s =~= st.cur);
    } else {
        assert(s[0] != '"') by {
            assert(!(s[0] == '"'));
        }
        if !st.in_quotes {
            assert(!is_gap(s[0]));
        }
        let st1 = split_step(st, s[0]);
        let t = s.drop_first();
        assert(!has_char(t, '"')) by {
            if has_char(t, '"') {
                let i = choose|i: int| 0 <= i < t.len() && t[i] == '"';
                assert(s[i + 1] == '"');
            }
        }
        assert(!st1.in_quotes ==> forall|i: int| 0 <= i < t.len() ==> !is_gap(#[trigger] t[i])) by {
            if !st1.in_quotes {
                assert forall|i: int| 0 <= i < t.len() implies !is_gap(#[trigger] t[i]) by {
                    assert(t[i] == s[i + 1]);
                }
            }
        }
        lemma_steps_literal(st1, t);
        assert(st1.cur == st.cur.push(s[0]));
        assert(st.cur.push(s[0]) + t =~= st.cur + s);
        if t.len() > 0 {
            assert(t.last() == s.last());
        }
    }
}

/// The state after an argument's text `w` is read outside quotes.
pub open spec fn after_text(st: SplitState, w: Seq<char>) -> SplitState {
    SplitState { cur: st.cur + w, in_arg: true, backslashes: 0, ..st }
}

/// The state after a gap ends the argument being read.
pub open spec fn after_gap(st: SplitState) -> SplitState {
    SplitState { args: st.args.push(st.cur), cur: seq![], in_arg: false, backslashes: 0, ..st }
}

/// Text that reads alone as part of an argument outside quotes.
pub open spec fn bare(w: Seq<char>) -> bool {
    &&& w.len() > 0
    &&& !has_char(w, '"')
    &&& w.last() != '\\'
    &&& forall|i: int| 0 <= i < w.len() ==> !is_gap(#[trigger] w[i])
}

proof fn lemma_walk_bare(st: SplitState, w: Seq<char>, rest: Seq<char>)
    requires
        !st.in_quotes,
        bare(w),
    ensures
        split_walk(st, w + rest) == split_walk(after_text(st, w), rest),
{
    lemma_walk_no_quote(st, w, rest);
    lemma_steps_literal(st, w);
    assert(split_steps(st, w) == after_text(st, w));
}

proof fn lemma_walk_gap(st: SplitState, rest: Seq<char>)
    requires
        !st.in_quotes,
        st.in_arg,
    ensures
        split_walk(st, seq![' '] + rest) == split_walk(after_gap(st), rest),
{
    let sp = seq![' '];
    assert(!has_char(sp, '"'));
    lemma_walk_no_quote(st, sp, rest);
    reveal_with_fuel(split_steps, 2);
    assert(sp.drop_first().len() == 0);
}

proof fn lemma_walk_quoted(st: SplitState, v: Seq<char>, rest: Seq<char>)
    requires
        !st.in_quotes,
        st.backslashes == 0,
        !has_char(v, '"'),
        v.len() > 0 ==> v.last() != '\\',
        rest.len() > 0 ==> rest[0] != '"',
    ensures
        split_walk(st, quoted(v) + rest) == split_walk(after_text(st, v), rest),
{
    let q = seq!['"'];
    let line = quoted(v) + rest;
    assert(line =~= q + (v + (q + rest)));
    assert(line[0] == '"');
    assert(line.drop_first() =~= v + (q + rest));
    let st1 = split_step(st, '"');
    assert(st.cur.take(st.cur.len() - 0) =~= st.cur);
    assert(st1 == SplitState { in_arg: true, in_quotes: true, ..st });
    assert(split_walk(st, line) == split_walk(st1, v + (q + rest)));
    lemma_walk_no_quote(st1, v, q + rest);
    lemma_steps_literal(st1, v);
    let st2 = split_steps(st1, v);
    assert(st2.backslashes == 0);
    let r2 = q + rest;
    assert(r2[0] == '"');
    if r2.len() > 1 {
        assert(r2[1] == rest[0]);
    }
    assert(r2.drop_first() =~= rest);
    let st3 = split_step(st2, '"');
    assert(st2.cur.take(st2.cur.len() - 0) =~= st2.cur);
    assert(st3 == after_text(st, v));
}

proof fn lemma_walk_switch(st: SplitState, on: bool, flag: Seq<char>, rest: Seq<char>)
    requires
        !st.in_quotes,
        st.in_arg,
        bare(flag),
    ensures
        split_walk(st, switch(on, flag) + rest) == split_walk(
            if on {
                after_text(after_gap(st), flag)
            } else {
                st
            },
            rest,
        ),
{
    if on {
        assert(switch(on, flag) + rest =~= seq![' '] + (flag + rest));
        lemma_walk_gap(st, flag + rest);
        lemma_walk_bare(after_gap(st), flag, rest);
    } else {
        assert(switch(on, flag) + rest =~= rest);
    }
}

/// The names of the elevated command line read as bare text.
proof fn lemma_names_bare()
    ensures
        bare(ARG_ELEVATED@),
        bare(ARG_INSTALL_PATH@),
        bare(ARG_PROGRESS_FILE@),
        bare(ARG_DESKTOP_SHORTCUT@),
        bare(ARG_FILE_ASSOC@),
        ARG_ELEVATED@.len() == 10,
        ARG_INSTALL_PATH@.len() == 15,
        ARG_PROGRESS_FILE@.len() == 16,
        ARG_DESKTOP_SHORTCUT@.len() == 18,
        ARG_FILE_ASSOC@.len() == 12,
        ARG_ELEVATED@[0] == '-' && ARG_INSTALL_PATH@[0] == '-' && ARG_PROGRESS_FILE@[0] == '-'
            && ARG_DESKTOP_SHORTCUT@[0] == '-' && ARG_FILE_ASSOC@[0] == '-',
        ARG_INSTALL_PATH@[2] == 'i' && ARG_PROGRESS_FILE@[2] == 'p' && ARG_DESKTOP_SHORTCUT@[2]
            == 'd' && ARG_FILE_ASSOC@[2] == 'f' && ARG_ELEVATED@[2] == 'e',
{
    reveal_strlit("--elevated");
    reveal_strlit("--install-path=");
    reveal_strlit("--progress-file=");
    reveal_strlit("--desktop-shortcut");
    reveal_strlit("--file-assoc");
}

/// The arguments the elevated command line is meant to give.
pub open spec fn elevated_argument_list(
    install_dir: Seq<char>,
    desktop_shortcut: bool,
    file_assoc: bool,
    progress_file: Seq<char>,
) -> Seq<Seq<char>> {
    seq![
        ARG_ELEVATED@,
        ARG_INSTALL_PATH@ + trim_end_char(install_dir, '\\'),
        ARG_PROGRESS_FILE@ + progress_file,
    ] + (if desktop_shortcut {
        seq![ARG_DESKTOP_SHORTCUT@]
    } else {
        seq![]
    }) + (if file_assoc {
        seq![ARG_FILE_ASSOC@]
    } else {
        seq![]
    })
}

/// The elevated command line splits into the arguments it is meant to give,
/// when neither path holds a quote, the trimmed install directory is not
/// empty and the progress file does not end in `\`.
pub proof fn lemma_elevated_command_line_splits(
    install_dir: Seq<char>,
    desktop_shortcut: bool,
    file_assoc: bool,
    progress_file: Seq<char>,
)
    requires
        !has_char(install_dir, '"'),
        trim_end_char(install_dir, '\\').len() > 0,
        !has_char(progress_file, '"'),
        progress_file.len() > 0 ==> progress_file.last() != '\\',
    ensures
        split_command_line(
            elevated_command_line(install_dir, desktop_shortcut, file_assoc, progress_file),
        ) == elevated_argument_list(install_dir, desktop_shortcut, file_assoc, progress_file),
{
    lemma_names_bare();
    let t = trim_end_char(install_dir, '\\');
    crate::relaunch::lemma_trim_facts(install_dir);
    let pf = progress_file;
    let e = ARG_ELEVATED@;
    let ip = ARG_INSTALL_PATH@;
    let pfl = ARG_PROGRESS_FILE@;
    let sp = seq![' '];
    let s1 = switch(desktop_shortcut, ARG_DESKTOP_SHORTCUT@);
    let s2 = switch(file_assoc, ARG_FILE_ASSOC@);
    let tail = s1 + s2;
    let line = elevated_command_line(install_dir, desktop_shortcut, file_assoc, progress_file);
    let r4 = quoted(pf) + tail;
    let r3 = pfl + r4;
    let r2 = sp + r3;
    let r1 = quoted(t) + r2;
    let r0 = ip + r1;
    assert(line =~= e + (sp + r0));
    let st0 = SplitState { args: seq![], cur: seq![], in_arg: false, in_quotes: false, backslashes: 0 };
    lemma_walk_bare(st0, e, sp + r0);
    let st1 = after_text(st0, e);
    lemma_walk_gap(st1, r0);
    let st2 = after_gap(st1);
    lemma_walk_bare(st2, ip, r1);
    let st3 = after_text(st2, ip);
    lemma_walk_quoted(st3, t, r2);
    let st4 = after_text(st3, t);
    lemma_walk_gap(st4, r3);
    let st5 = after_gap(st4);
    lemma_walk_bare(st5, pfl, r4);
    let st6 = after_text(st5, pfl);
    if tail.len() > 0 {
        assert(tail[0] == ' ');
    }
    lemma_walk_quoted(st6, pf, tail);
    let st7 = after_text(st6, pf);
    assert(tail =~= s1 + (s2 + seq![]));
    lemma_walk_switch(st7, desktop_shortcut, ARG_DESKTOP_SHORTCUT@, s2 + seq![]);
    let st8 = if desktop_shortcut {
        after_text(after_gap(st7), ARG_DESKTOP_SHORTCUT@)
    } else {
        st7
    };
    lemma_walk_switch(st8, file_assoc, ARG_FILE_ASSOC@, seq![]);
    let st9 = if file_assoc {
        after_text(after_gap(st8), ARG_FILE_ASSOC@)
    } else {
        st8
    };
    assert(split_walk(st9, seq![]) == st9);
    assert(st0.cur + e =~= e);
    assert(st2.cur + ip =~= ip);
    assert(st5.cur + pfl =~= pfl);
    assert(after_gap(st7).cur + ARG_DESKTOP_SHORTCUT@ =~= ARG_DESKTOP_SHORTCUT@);
    assert(after_gap(st8).cur + ARG_FILE_ASSOC@ =~= ARG_FILE_ASSOC@);
    assert(st9.args.push(st9.cur) =~= elevated_argument_list(
        install_dir,
        desktop_shortcut,
        file_assoc,
        progress_file,
    ));
}

/// The elevated process gets back the options the wizard started it with:
/// its arguments (the program's path, which does not start with `-`, then
/// the split command line) parse to the trimmed install directory, the two
/// switches and the progress file, when the trimmed directory is one that
/// `validate_install_dir` accepts, neither path holds a quote and the
/// progress file does not end in `\`. (A directory such as `C:\` trims to
/// `C:`, which is refused as relative.)
pub proof fn lemma_elevated_args_round_trip(
    install_dir: Seq<char>,
    desktop_shortcut: bool,
    file_assoc: bool,
    progress_file: Seq<char>,
    exe: Seq<char>,
)
    requires
        !has_char(install_dir, '"'),
        valid_install_dir(trim_end_char(install_dir, '\\')),
        !has_char(progress_file, '"'),
        progress_file.len() > 0 ==> progress_file.last() != '\\',
        exe.len() > 0 && exe[0] != '-',
    ensures
        elevated_args_of(
            seq![exe] + split_command_line(
                elevated_command_line(install_dir, desktop_shortcut, file_assoc, progress_file),
            ),
        ) == Ok::<ElevatedArgsView, Seq<char>>(
            ElevatedArgsView {
                install_path: trim_end_char(install_dir, '\\'),
                desktop_shortcut,
                file_assoc,
                progress_file: Some(progress_file),
            },
        ),
{
    let t = trim_end_char(install_dir, '\\');
    assert(t.len() > 0) by {
        if t.len() == 0 {
            assert(crate::text::is_blank(t));
        }
    }
    lemma_elevated_command_line_splits(install_dir, desktop_shortcut, file_assoc, progress_file);
    lemma_names_bare();
    let e = ARG_ELEVATED@;
    let ip = ARG_INSTALL_PATH@;
    let pfl = ARG_PROGRESS_FILE@;
    let ds = ARG_DESKTOP_SHORTCUT@;
    let fa = ARG_FILE_ASSOC@;
    let a1 = ip + t;
    let a2 = pfl + progress_file;
    let args = seq![exe] + elevated_argument_list(
        install_dir,
        desktop_shortcut,
        file_assoc,
        progress_file,
    );
    assert(args[0] == exe && args[1] == e && args[2] == a1 && args[3] == a2);
    assert(a1[2] == 'i' && a2[2] == 'p');
    assert(a1[0] == '-' && a2[0] == '-');
    // the install path
    assert(!has_prefix(exe, ip)) by {
        if has_prefix(exe, ip) {
            assert(exe.subrange(0, 15)[0] == exe[0]);
        }
    }
    assert(!has_prefix(e, ip));
    assert(a1.subrange(0, ip.len() as int) =~= ip);
    assert(a1.skip(ip.len() as int) =~= t);
    assert(first_value(args.drop_first().drop_first(), ip) == Some(t));
    assert(first_value(args.drop_first(), ip) == Some(t));
    assert(first_value(args, ip) == Some(t));
    // the progress file
    assert(!has_prefix(exe, pfl)) by {
        if has_prefix(exe, pfl) {
            assert(exe.subrange(0, 16)[0] == exe[0]);
        }
    }
    assert(!has_prefix(e, pfl));
    assert(!has_prefix(a1, pfl)) by {
        if has_prefix(a1, pfl) {
            assert(a1.subrange(0, 16)[2] == a1[2]);
        }
    }
    assert(a2.subrange(0, pfl.len() as int) =~= pfl);
    assert(a2.skip(pfl.len() as int) =~= progress_file);
    assert(first_value(args.drop_first().drop_first().drop_first(), pfl) == Some(progress_file));
    assert(first_value(args.drop_first().drop_first(), pfl) == Some(progress_file));
    assert(first_value(args.drop_first(), pfl) == Some(progress_file));
    assert(first_value(args, pfl) == Some(progress_file));
    // the switches
    let k: int = if desktop_shortcut {
        5
    } else {
        4
    };
    if desktop_shortcut {
        assert(args[4] == ds);
    }
    if file_assoc {
        assert(args[k] == fa);
    }
    assert forall|i: int| 0 <= i < args.len() && args[i] == ds implies desktop_shortcut by {
        if i == 0 {
            assert(exe[0] != ds[0]);
        } else if i == 1 {
            assert(e.len() != ds.len());
        } else if i == 2 {
            assert(a1[2] != ds[2]);
        } else if i == 3 {
            assert(a2[2] != ds[2]);
        } else if !desktop_shortcut {
            assert(args[i] == fa);
            assert(fa.len() != ds.len());
        }
    }
    assert forall|i: int| 0 <= i < args.len() && args[i] == fa implies file_assoc by {
        if i == 0 {
            assert(exe[0] != fa[0]);
        } else if i == 1 {
            assert(e.len() != fa.len());
        } else if i == 2 {
            assert(a1[2] != fa[2]);
        } else if i == 3 {
            assert(a2[2] != fa[2]);
        } else if desktop_shortcut && i == 4 {
            assert(ds.len() != fa.len());
        }
    }
    if desktop_shortcut {
        assert(args.contains(ds));
    }
    if file_assoc {
        assert(args.contains(fa));
    }
}

/// The names of the uninstall command line read as bare text, with the
/// lengths and characters that tell them apart.
proof fn lemma_uninstall_names_bare()
    ensures
        bare(ARG_UNINSTALL@),
        bare(ARG_CONFIRM@),
        bare(ARG_DETECTED_INSTALL_DIR@),
        bare(ARG_DETECTED_SYSTEM@),
        bare(ARG_DETECTED_USER@),
        bare(ARG_PROGRESS_FILE@),
        bare(ARG_DETECTED_DESKTOP_SHORTCUT@),
        bare(ARG_REMOVE_USER_DATA@),
        ARG_UNINSTALL@.len() == 11,
        ARG_CONFIRM@.len() == 9,
        ARG_DETECTED_INSTALL_DIR@.len() == 23,
        ARG_DETECTED_SYSTEM@.len() == 17,
        ARG_DETECTED_USER@.len() == 15,
        ARG_PROGRESS_FILE@.len() == 16,
        ARG_DETECTED_DESKTOP_SHORTCUT@.len() == 27,
        ARG_REMOVE_USER_DATA@.len() == 18,
        ARG_UNINSTALL@[0] == '-' && ARG_CONFIRM@[0] == '-' && ARG_DETECTED_INSTALL_DIR@[0] == '-'
            && ARG_DETECTED_SYSTEM@[0] == '-' && ARG_DETECTED_USER@[0] == '-'
            && ARG_PROGRESS_FILE@[0] == '-' && ARG_DETECTED_DESKTOP_SHORTCUT@[0] == '-'
            && ARG_REMOVE_USER_DATA@[0] == '-',
        ARG_UNINSTALL@[2] == 'u' && ARG_CONFIRM@[2] == 'c' && ARG_DETECTED_INSTALL_DIR@[2] == 'd'
            && ARG_DETECTED_SYSTEM@[2] == 'd' && ARG_DETECTED_USER@[2] == 'd'
            && ARG_PROGRESS_FILE@[2] == 'p' && ARG_DETECTED_DESKTOP_SHORTCUT@[2] == 'd'
            && ARG_REMOVE_USER_DATA@[2] == 'r',
        ARG_DETECTED_INSTALL_DIR@[11] == 'i' && ARG_DETECTED_DESKTOP_SHORTCUT@[11] == 'd',
{
    reveal_strlit("--uninstall");
    reveal_strlit("--confirm");
    reveal_strlit("--detected-install-dir=");
    reveal_strlit("--detected-system");
    reveal_strlit("--detected-user");
    reveal_strlit("--progress-file=");
    reveal_strlit("--detected-desktop-shortcut");
    reveal_strlit("--remove-user-data");
}

/// The arguments the uninstall command line is meant to give.
pub open spec fn uninstall_argument_list(
    site_dir: Seq<char>,
    is_system: bool,
    desktop_shortcut: bool,
    remove_user_data: bool,
    progress_file: Option<Seq<char>>,
) -> Seq<Seq<char>> {
    seq![
        ARG_UNINSTALL@,
        ARG_CONFIRM@,
        ARG_DETECTED_INSTALL_DIR@ + trim_end_char(site_dir, '\\'),
        kind_flag(is_system),
    ] + uninstall_tail_list(desktop_shortcut, remove_user_data, progress_file)
}

/// What follows the install kind on the uninstall command line: the
/// progress file when there is one, then the two switches.
pub open spec fn uninstall_tail(
    desktop_shortcut: bool,
    remove_user_data: bool,
    progress_file: Option<Seq<char>>,
) -> Seq<char> {
    (match progress_file {
        Some(p) => seq![' '] + ARG_PROGRESS_FILE@ + quoted(p),
        None => seq![],
    }) + switch(desktop_shortcut, ARG_DETECTED_DESKTOP_SHORTCUT@) + switch(
        remove_user_data,
        ARG_REMOVE_USER_DATA@,
    )
}

/// The arguments the tail of the uninstall command line gives.
pub open spec fn uninstall_tail_list(
    desktop_shortcut: bool,
    remove_user_data: bool,
    progress_file: Option<Seq<char>>,
) -> Seq<Seq<char>> {
    (match progress_file {
        Some(p) => seq![ARG_PROGRESS_FILE@ + p],
        None => seq![],
    }) + (if desktop_shortcut {
        seq![ARG_DETECTED_DESKTOP_SHORTCUT@]
    } else {
        seq![]
    }) + (if remove_user_data {
        seq![ARG_REMOVE_USER_DATA@]
    } else {
        seq![]
    })
}

proof fn lemma_walk_uninstall_tail(
    st: SplitState,
    desktop_shortcut: bool,
    remove_user_data: bool,
    progress_file: Option<Seq<char>>,
) -> (r: SplitState)
    requires
        !st.in_quotes,
        st.in_arg,
        st.backslashes == 0,
        progress_file matches Some(p) ==> !has_char(p, '"') && (p.len() > 0 ==> p.last() != '\\'),
    ensures
        split_walk(st, uninstall_tail(desktop_shortcut, remove_user_data, progress_file)) == r,
        r.in_arg,
        r.args.push(r.cur) == st.args.push(st.cur) + uninstall_tail_list(
            desktop_shortcut,
            remove_user_data,
            progress_file,
        ),
{
    lemma_uninstall_names_bare();
    let sp = seq![' '];
    let s1 = switch(desktop_shortcut, ARG_DETECTED_DESKTOP_SHORTCUT@);
    let s2 = switch(remove_user_data, ARG_REMOVE_USER_DATA@);
    let tail = s1 + s2;
    if tail.len() > 0 {
        assert(tail[0] == ' ');
    }
    let line = uninstall_tail(desktop_shortcut, remove_user_data, progress_file);
    let st9 = match progress_file {
        Some(p) => {
            let pfl = ARG_PROGRESS_FILE@;
            assert(line =~= sp + (pfl + (quoted(p) + tail)));
            lemma_walk_gap(st, pfl + (quoted(p) + tail));
            let a = after_gap(st);
            lemma_walk_bare(a, pfl, quoted(p) + tail);
            let b = after_text(a, pfl);
            lemma_walk_quoted(b, p, tail);
            assert(a.cur + pfl =~= pfl);
            after_text(b, p)
        },
        None => {
            assert(line =~= tail);
            st
        },
    };
    assert(split_walk(st, line) == split_walk(st9, tail));
    assert(tail =~= s1 + (s2 + seq![]));
    lemma_walk_switch(st9, desktop_shortcut, ARG_DETECTED_DESKTOP_SHORTCUT@, s2 + seq![]);
    let st10 = if desktop_shortcut {
        after_text(after_gap(st9), ARG_DETECTED_DESKTOP_SHORTCUT@)
    } else {
        st9
    };
    lemma_walk_switch(st10, remove_user_data, ARG_REMOVE_USER_DATA@, seq![]);
    let st11 = if remove_user_data {
        after_text(after_gap(st10), ARG_REMOVE_USER_DATA@)
    } else {
        st10
    };
    assert(split_walk(st11, seq![]) == st11);
    assert(after_gap(st9).cur + ARG_DETECTED_DESKTOP_SHORTCUT@ =~= ARG_DETECTED_DESKTOP_SHORTCUT@);
    assert(after_gap(st10).cur + ARG_REMOVE_USER_DATA@ =~= ARG_REMOVE_USER_DATA@);
    assert(st11.args.push(st11.cur) =~= st.args.push(st.cur) + uninstall_tail_list(
        desktop_shortcut,
        remove_user_data,
        progress_file,
    ));
    st11
}

/// The start of the uninstall command line, up to the install kind.
spec fn uninstall_head(t: Seq<char>, k: Seq<char>) -> Seq<char> {
    ARG_UNINSTALL@ + seq![' '] + ARG_CONFIRM@ + seq![' '] + ARG_DETECTED_INSTALL_DIR@ + quoted(t)
        + seq![' '] + k
}

proof fn lemma_walk_uninstall_head(t: Seq<char>, k: Seq<char>, tl: Seq<char>) -> (r: SplitState)
    requires
        !has_char(t, '"'),
        t.len() > 0 ==> t.last() != '\\',
        bare(k),
    ensures
        split_walk(
            SplitState { args: seq![], cur: seq![], in_arg: false, in_quotes: false, backslashes: 0 },
            uninstall_head(t, k) + tl,
        ) == split_walk(r, tl),
        !r.in_quotes,
        r.in_arg,
        r.backslashes == 0,
        r.args.push(r.cur) == seq![ARG_UNINSTALL@, ARG_CONFIRM@, ARG_DETECTED_INSTALL_DIR@ + t, k],
{
    lemma_uninstall_names_bare();
    let u = ARG_UNINSTALL@;
    let c = ARG_CONFIRM@;
    let d = ARG_DETECTED_INSTALL_DIR@;
    let sp = seq![' '];
    let r6 = k + tl;
    let r5 = sp + r6;
    let r4 = quoted(t) + r5;
    let r3 = d + r4;
    let r2 = sp + r3;
    let r1 = c + r2;
    let r0 = sp + r1;
    assert(uninstall_head(t, k) + tl =~= u + r0);
    let st0 = SplitState { args: seq![], cur: seq![], in_arg: false, in_quotes: false, backslashes: 0 };
    lemma_walk_bare(st0, u, r0);
    let st1 = after_text(st0, u);
    lemma_walk_gap(st1, r1);
    let st2 = after_gap(st1);
    lemma_walk_bare(st2, c, r2);
    let st3 = after_text(st2, c);
    lemma_walk_gap(st3, r3);
    let st4 = after_gap(st3);
    lemma_walk_bare(st4, d, r4);
    let st5 = after_text(st4, d);
    lemma_walk_quoted(st5, t, r5);
    let st6 = after_text(st5, t);
    lemma_walk_gap(st6, r6);
    let st7 = after_gap(st6);
    lemma_walk_bare(st7, k, tl);
    let st8 = after_text(st7, k);
    assert(st0.cur + u =~= u);
    assert(st2.cur + c =~= c);
    assert(st4.cur + d =~= d);
    assert(st7.cur + k =~= k);
    assert(st8.args.push(st8.cur) =~= seq![u, c, d + t, k]);
    st8
}

/// The uninstall command line splits into the arguments it is meant to give,
/// when the install directory holds no quote and the progress file, if any,
/// holds none and does not end in `\`.
pub proof fn lemma_uninstall_command_line_splits(
    site_dir: Seq<char>,
    is_system: bool,
    desktop_shortcut: bool,
    remove_user_data: bool,
    progress_file: Option<Seq<char>>,
)
    requires
        !has_char(site_dir, '"'),
        progress_file matches Some(p) ==> !has_char(p, '"') && (p.len() > 0 ==> p.last() != '\\'),
    ensures
        split_command_line(
            uninstall_command_line(
                site_dir,
                is_system,
                desktop_shortcut,
                remove_user_data,
                progress_file,
            ),
        ) == uninstall_argument_list(
            site_dir,
            is_system,
            desktop_shortcut,
            remove_user_data,
            progress_file,
        ),
{
    lemma_uninstall_names_bare();
    let t = trim_end_char(site_dir, '\\');
    crate::relaunch::lemma_trim_facts(site_dir);
    let k = kind_flag(is_system);
    let tl = uninstall_tail(desktop_shortcut, remove_user_data, progress_file);
    let line = uninstall_command_line(
        site_dir,
        is_system,
        desktop_shortcut,
        remove_user_data,
        progress_file,
    );
    assert(line =~= uninstall_head(t, k) + tl);
    let st8 = lemma_walk_uninstall_head(t, k, tl);
    let st11 = lemma_walk_uninstall_tail(st8, desktop_shortcut, remove_user_data, progress_file);
    assert(split_walk(st11, seq![]) == st11);
}

/// The elevated uninstall worker gets back what the wizard started it
/// with, whatever the progress file: its arguments (the program's path,
/// which does not start with `-`, then the split command line) hold
/// `--uninstall` and `--confirm`, hold `--remove-user-data` exactly when the
/// user asked for the user data to be removed, and parse back to the site
/// (the trimmed install directory, its kind and whether a desktop shortcut
/// was made), when the trimmed directory is one that `validate_install_dir`
/// accepts, the directory holds no quote and the progress file, if any,
/// holds none and does not end in `\`.
pub proof fn lemma_uninstall_args_round_trip(
    site_dir: Seq<char>,
    is_system: bool,
    desktop_shortcut: bool,
    remove_user_data: bool,
    progress_file: Option<Seq<char>>,
    exe: Seq<char>,
)
    requires
        !has_char(site_dir, '"'),
        valid_install_dir(trim_end_char(site_dir, '\\')),
        progress_file matches Some(p) ==> !has_char(p, '"') && (p.len() > 0 ==> p.last() != '\\'),
        exe.len() > 0 && exe[0] != '-',
    ensures
        ({
            let args = seq![exe] + split_command_line(
                uninstall_command_line(
                    site_dir,
                    is_system,
                    desktop_shortcut,
                    remove_user_data,
                    progress_file,
                ),
            );
            &&& args.contains(ARG_UNINSTALL@)
            &&& args.contains(ARG_CONFIRM@)
            &&& args.contains(ARG_REMOVE_USER_DATA@) <==> remove_user_data
            &&& detected_args_of(args) == Ok::<Option<DetectedArgsView>, Seq<char>>(
                Some(
                    DetectedArgsView {
                        install_dir: trim_end_char(site_dir, '\\'),
                        is_system,
                        desktop_shortcut,
                    },
                ),
            )
        }),
{
    let t = trim_end_char(site_dir, '\\');
    lemma_uninstall_command_line_splits(
        site_dir,
        is_system,
        desktop_shortcut,
        remove_user_data,
        progress_file,
    );
    lemma_uninstall_names_bare();
    let u = ARG_UNINSTALL@;
    let c = ARG_CONFIRM@;
    let d = ARG_DETECTED_INSTALL_DIR@;
    let sys = ARG_DETECTED_SYSTEM@;
    let usr = ARG_DETECTED_USER@;
    let pfl = ARG_PROGRESS_FILE@;
    let ds = ARG_DETECTED_DESKTOP_SHORTCUT@;
    let rud = ARG_REMOVE_USER_DATA@;
    let k = kind_flag(is_system);
    let a3 = d + t;
    let args = seq![exe] + uninstall_argument_list(
        site_dir,
        is_system,
        desktop_shortcut,
        remove_user_data,
        progress_file,
    );
    assert(args[0] == exe && args[1] == u && args[2] == c && args[3] == a3 && args[4] == k);
    assert(a3[0] == '-' && a3[2] == 'd' && a3[11] == 'i' && a3.len() >= 23);
    // the positions after the install kind
    let kp: int = if progress_file is Some {
        6
    } else {
        5
    };
    let kd: int = if desktop_shortcut {
        kp + 1
    } else {
        kp
    };
    assert(args.len() == kd + (if remove_user_data {
        1int
    } else {
        0
    }));
    if let Some(p) = progress_file {
        assert(args[5] == pfl + p);
        assert((pfl + p)[2] == 'p');
    }
    if desktop_shortcut {
        assert(args[kp] == ds);
    }
    if remove_user_data {
        assert(args[kd] == rud);
    }
    // every argument after the install kind is one of those
    assert forall|i: int| 5 <= i < args.len() implies (progress_file is Some && i == 5 && args[i][2]
        == 'p') || (desktop_shortcut && i == kp && args[i] == ds) || (remove_user_data && i == kd
        && args[i] == rud) by {
        if progress_file is Some && i == 5 {
            let p = progress_file->0;
            assert(args[5] == pfl + p);
        } else if desktop_shortcut && i == kp {
        } else {
            assert(i == kd);
        }
    }
    // the switch for the user data
    assert forall|i: int| 0 <= i < args.len() && args[i] == rud implies remove_user_data by {
        if i == 0 {
            assert(exe[0] != rud[0]);
        } else if 1 <= i <= 4 {
            assert(args[i][2] != rud[2]);
        } else if !remove_user_data {
            assert(args[i][2] != rud[2]);
        }
    }
    if remove_user_data {
        assert(args.contains(rud));
    }
    assert(args.contains(u));
    assert(args.contains(c));
    // the install directory
    assert(!has_prefix(exe, d)) by {
        if has_prefix(exe, d) {
            assert(exe.subrange(0, 23)[0] == exe[0]);
        }
    }
    assert(!has_prefix(u, d));
    assert(!has_prefix(c, d));
    assert(a3.subrange(0, d.len() as int) =~= d);
    assert(a3.skip(d.len() as int) =~= t);
    assert(first_value(args.drop_first().drop_first().drop_first(), d) == Some(t));
    assert(first_value(args.drop_first().drop_first(), d) == Some(t));
    assert(first_value(args.drop_first(), d) == Some(t));
    assert(first_value(args, d) == Some(t));
    // the install kind
    assert forall|i: int| 0 <= i < args.len() && args[i] == sys implies is_system by {
        if i == 0 {
            assert(exe[0] != sys[0]);
        } else if i == 1 || i == 2 || i == 3 {
            assert(args[i].len() != sys.len());
        } else if i == 4 {
            if !is_system {
                assert(usr.len() != sys.len());
            }
        } else if progress_file is Some && i == 5 {
            assert(args[i][2] != sys[2]);
        } else if desktop_shortcut && i == kp {
            assert(ds.len() != sys.len());
        } else {
            assert(rud.len() != sys.len());
        }
    }
    assert forall|i: int| 0 <= i < args.len() && args[i] == usr implies !is_system by {
        if i == 0 {
            assert(exe[0] != usr[0]);
        } else if i == 1 || i == 2 || i == 3 {
            assert(args[i].len() != usr.len());
        } else if i == 4 {
            if is_system {
                assert(usr.len() != sys.len());
            }
        } else if progress_file is Some && i == 5 {
            assert(args[i][2] != usr[2]);
        } else if desktop_shortcut && i == kp {
            assert(ds.len() != usr.len());
        } else {
            assert(rud.len() != usr.len());
        }
    }
    if is_system {
        assert(args.contains(sys));
    } else {
        assert(args.contains(usr));
    }
    // the desktop shortcut
    assert forall|i: int| 0 <= i < args.len() && args[i] == ds implies desktop_shortcut by {
        if i == 0 {
            assert(exe[0] != ds[0]);
        } else if i == 1 || i == 2 || i == 4 {
            assert(args[i].len() != ds.len());
        } else if i == 3 {
            assert(a3[11] != ds[11]);
        } else if progress_file is Some && i == 5 {
            assert(args[i][2] != 'd');
        } else if !desktop_shortcut {
            assert(rud.len() != ds.len());
        }
    }
    if desktop_shortcut {
        assert(args.contains(ds));
    }
}

} // verus!
