//! What a registry plan does to a registry: a model of the keys and values
//! under one root, and the laws that the plans of `registry` keep under it.
//!
//! The model is a registry that accepts every write: key and value names are
//! compared as written, and creating a key creates that key alone (its
//! parents are left as they are).
use vstd::prelude::*;

use vstd::string::*;

use crate::config::ASSOC_FILE_TYPE_NAME;
use crate::install::{
    install_step, uninstall_info_of, wizard_dest, InstallEventView, InstallPhase, InstallWorkView,
    InstallerView, UNINSTALL_SWITCH,
};
use crate::uninstall::{uninstall_step, UninstallEventView, UninstallPhase, UninstallWorkView, UninstallerView};
use crate::registry::{
    application_key, capabilities_key, create_failure, create_op, dotted, ext_values, open_command,
    icon_location, open_with_ops, register_application, register_caps, register_progid, register_head, register_listing, register_plan, set_str_op, delete_tree_op, extension_key, open_with_key, progid_key,
    release_extension_ops, remove_uninstall_info_plan, subkey, CLASSES_PATH, uninstall_info_plan, uninstall_key,
    unregister_plan, AssocView, RegOpView, RegValueView, UninstallInfoView, REGISTERED_APPS_PATH,
};

verus! {

/// The keys under one root, each with its values, and the key that the last
/// `CreateKey` opened (where the following `SetValue`s write).
pub struct HiveState {
    pub keys: Map<Seq<char>, Map<Seq<char>, RegValueView>>,
    pub current: Option<Seq<char>>,
}

/// `k` is `root` or lies below it.
pub open spec fn within(k: Seq<char>, root: Seq<char>) -> bool {
    k == root || (root + seq!['\\']).is_prefix_of(k)
}

/// The value `n` of key `k`, if the key and the value exist.
pub open spec fn value_of(s: HiveState, k: Seq<char>, n: Seq<char>) -> Option<RegValueView> {
    if s.keys.dom().contains(k) && s.keys[k].dom().contains(n) {
        Some(s.keys[k][n])
    } else {
        None
    }
}

/// The keys of `keys` that do not lie within `root`.
pub open spec fn without_tree(
    keys: Map<Seq<char>, Map<Seq<char>, RegValueView>>,
    root: Seq<char>,
) -> Map<Seq<char>, Map<Seq<char>, RegValueView>> {
    Map::new(|k: Seq<char>| keys.dom().contains(k) && !within(k, root), |k: Seq<char>| keys[k])
}

/// One operation carried out on `s`.
pub open spec fn apply_op(s: HiveState, op: RegOpView) -> HiveState {
    match op {
        RegOpView::CreateKey { path, .. } => HiveState {
            keys: if s.keys.dom().contains(path) {
                s.keys
            } else {
                s.keys.insert(path, Map::empty())
            },
            current: Some(path),
        },
        RegOpView::SetValue { name, value, .. } => match s.current {
            Some(c) => if s.keys.dom().contains(c) {
                HiveState { keys: s.keys.insert(c, s.keys[c].insert(name, value)), current: s.current }
            } else {
                s
            },
            None => s,
        },
        RegOpView::DeleteTree { path, .. } => HiveState {
            keys: without_tree(s.keys, path),
            current: s.current,
        },
        RegOpView::ClearDefaultIfEquals { path, expected } => if value_of(s, path, seq![])
            == Some(RegValueView::Str(expected)) {
            HiveState { keys: s.keys.insert(path, s.keys[path].remove(seq![])), current: s.current }
        } else {
            s
        },
        RegOpView::DeleteValue { path, name } => if value_of(s, path, name) is Some {
            HiveState { keys: s.keys.insert(path, s.keys[path].remove(name)), current: s.current }
        } else {
            s
        },
        RegOpView::NotifyAssocChanged => s,
    }
}

/// A plan carried out on `s`, in order.
pub open spec fn run_plan(s: HiveState, ops: Seq<RegOpView>) -> HiveState
    decreases ops.len(),
{
    if ops.len() == 0 {
        s
    } else {
        run_plan(apply_op(s, ops[0]), ops.drop_first())
    }
}

/// The key that is open after `op`, when `cur` was open before.
pub open spec fn next_current(cur: Option<Seq<char>>, op: RegOpView) -> Option<Seq<char>> {
    match op {
        RegOpView::CreateKey { path, .. } => Some(path),
        _ => cur,
    }
}

/// The key that is open after `ops`, when `cur` was open before.
pub open spec fn current_after(cur: Option<Seq<char>>, ops: Seq<RegOpView>) -> Option<Seq<char>>
    decreases ops.len(),
{
    if ops.len() == 0 {
        cur
    } else {
        current_after(next_current(cur, ops[0]), ops.drop_first())
    }
}

/// `op`, run with `cur` open, leaves value `n` of key `k` at `v`.
pub open spec fn op_keeps(
    k: Seq<char>,
    n: Seq<char>,
    v: Option<RegValueView>,
    cur: Option<Seq<char>>,
    op: RegOpView,
) -> bool {
    match op {
        RegOpView::CreateKey { .. } => true,
        RegOpView::SetValue { name, value, .. } => !(cur == Some(k) && name == n) || v == Some(value),
        RegOpView::DeleteTree { path, .. } => v is None || !within(k, path),
        RegOpView::ClearDefaultIfEquals { path, expected } => !(path == k && n.len() == 0 && v
            == Some(RegValueView::Str(expected))),
        RegOpView::DeleteValue { path, name } => v is None || !(path == k && name == n),
        RegOpView::NotifyAssocChanged => true,
    }
}

/// Every operation of `ops` leaves value `n` of key `k` at `v`.
pub open spec fn plan_keeps(
    k: Seq<char>,
    n: Seq<char>,
    v: Option<RegValueView>,
    cur: Option<Seq<char>>,
    ops: Seq<RegOpView>,
) -> bool
    decreases ops.len(),
{
    ops.len() == 0 || (op_keeps(k, n, v, cur, ops[0]) && plan_keeps(
        k,
        n,
        v,
        next_current(cur, ops[0]),
        ops.drop_first(),
    ))
}

proof fn lemma_apply_keeps(s: HiveState, k: Seq<char>, n: Seq<char>, op: RegOpView)
    requires
        op_keeps(k, n, value_of(s, k, n), s.current, op),
    ensures
        value_of(apply_op(s, op), k, n) == value_of(s, k, n),
        apply_op(s, op).current == next_current(s.current, op),
{
    let t = apply_op(s, op);
    match op {
        RegOpView::CreateKey { path, .. } => {
            if !s.keys.dom().contains(path) && path == k {
                assert(!t.keys[k].dom().contains(n));
            }
        },
        RegOpView::SetValue { name, value, .. } => {},
        RegOpView::DeleteTree { path, .. } => {},
        RegOpView::ClearDefaultIfEquals { path, expected } => {},
        RegOpView::DeleteValue { path, name } => {},
        RegOpView::NotifyAssocChanged => {},
    }
}

/// A plan that keeps value `n` of key `k` leaves it as it was.
pub proof fn lemma_plan_keeps(s: HiveState, k: Seq<char>, n: Seq<char>, ops: Seq<RegOpView>)
    requires
        plan_keeps(k, n, value_of(s, k, n), s.current, ops),
    ensures
        value_of(run_plan(s, ops), k, n) == value_of(s, k, n),
        run_plan(s, ops).current == current_after(s.current, ops),
    decreases ops.len(),
{
    if ops.len() > 0 {
        lemma_apply_keeps(s, k, n, ops[0]);
        lemma_plan_keeps(apply_op(s, ops[0]), k, n, ops.drop_first());
    }
}

/// Running `a + b` is running `a`, then `b`.
pub proof fn lemma_run_concat(s: HiveState, a: Seq<RegOpView>, b: Seq<RegOpView>)
    ensures
        run_plan(s, a + b) == run_plan(run_plan(s, a), b),
        current_after(s.current, a + b) == current_after(current_after(s.current, a), b),
    decreases a.len(),
{
    if a.len() == 0 {
        assert(a + b =~= b);
    } else {
        assert((a + b)[0] == a[0]);
        assert((a + b).drop_first() =~= a.drop_first() + b);
        lemma_run_concat(apply_op(s, a[0]), a.drop_first(), b);
        lemma_current_concat(s.current, a, b);
    }
}

proof fn lemma_current_concat(cur: Option<Seq<char>>, a: Seq<RegOpView>, b: Seq<RegOpView>)
    ensures
        current_after(cur, a + b) == current_after(current_after(cur, a), b),
    decreases a.len(),
{
    if a.len() == 0 {
        assert(a + b =~= b);
    } else {
        assert((a + b)[0] == a[0]);
        assert((a + b).drop_first() =~= a.drop_first() + b);
        lemma_current_concat(next_current(cur, a[0]), a.drop_first(), b);
    }
}

/// `a + b` keeps a value when `a` keeps it and `b` keeps it from the key
/// that `a` leaves open.
pub proof fn lemma_keeps_concat(
    k: Seq<char>,
    n: Seq<char>,
    v: Option<RegValueView>,
    cur: Option<Seq<char>>,
    a: Seq<RegOpView>,
    b: Seq<RegOpView>,
)
    ensures
        plan_keeps(k, n, v, cur, a + b) == (plan_keeps(k, n, v, cur, a) && plan_keeps(
            k,
            n,
            v,
            current_after(cur, a),
            b,
        )),
    decreases a.len(),
{
    if a.len() == 0 {
        assert(a + b =~= b);
    } else {
        assert((a + b)[0] == a[0]);
        assert((a + b).drop_first() =~= a.drop_first() + b);
        lemma_keeps_concat(k, n, v, next_current(cur, a[0]), a.drop_first(), b);
    }
}

/// A plan that opens no key keeps a value when each of its operations does,
/// and leaves the open key as it was.
pub proof fn lemma_keeps_no_create(
    k: Seq<char>,
    n: Seq<char>,
    v: Option<RegValueView>,
    cur: Option<Seq<char>>,
    ops: Seq<RegOpView>,
)
    requires
        forall|i: int|
            0 <= i < ops.len() ==> !(#[trigger] ops[i] is CreateKey) && op_keeps(
                k,
                n,
                v,
                cur,
                ops[i],
            ),
    ensures
        plan_keeps(k, n, v, cur, ops),
        current_after(cur, ops) == cur,
    decreases ops.len(),
{
    if ops.len() > 0 {
        assert(!(ops[0] is CreateKey));
        assert(forall|i: int|
            0 <= i < ops.drop_first().len() ==> #[trigger] ops.drop_first()[i] == ops[i + 1]);
        lemma_keeps_no_create(k, n, v, cur, ops.drop_first());
    }
}

/// `t` holds the control panel entry of `app_id` with the values of `info`.
pub open spec fn holds_uninstall_info(t: HiveState, app_id: Seq<char>, info: UninstallInfoView) -> bool {
    let k = uninstall_key(app_id);
    &&& value_of(t, k, "DisplayName"@) == Some(RegValueView::Str(info.display_name))
    &&& value_of(t, k, "DisplayVersion"@) == Some(RegValueView::Str(info.display_version))
    &&& value_of(t, k, "Publisher"@) == Some(RegValueView::Str(info.publisher))
    &&& value_of(t, k, "UninstallString"@) == Some(RegValueView::Str(info.uninstall_string))
    &&& value_of(t, k, "InstallLocation"@) == Some(RegValueView::Str(info.install_location))
    &&& value_of(t, k, "DisplayIcon"@) == Some(RegValueView::Str(info.display_icon))
    &&& value_of(t, k, "EstimatedSize"@) == Some(RegValueView::Dword(info.estimated_size_kb))
    &&& value_of(t, k, "NoModify"@) == Some(RegValueView::Dword(1))
    &&& value_of(t, k, "NoRepair"@) == Some(RegValueView::Dword(1))
}

/// Writing the control panel entry, from any state, leaves the entry readable
/// with the values written, and touches no other key.
pub proof fn lemma_uninstall_info_written(s: HiveState, app_id: Seq<char>, info: UninstallInfoView)
    ensures
        holds_uninstall_info(run_plan(s, uninstall_info_plan(app_id, info)), app_id, info),
        forall|k: Seq<char>, n: Seq<char>|
            k != uninstall_key(app_id) ==> value_of(
                run_plan(s, uninstall_info_plan(app_id, info)),
                k,
                n,
            ) == value_of(s, k, n),
{
    reveal_strlit("DisplayName");
    reveal_strlit("DisplayVersion");
    reveal_strlit("Publisher");
    reveal_strlit("UninstallString");
    reveal_strlit("InstallLocation");
    reveal_strlit("DisplayIcon");
    reveal_strlit("EstimatedSize");
    reveal_strlit("NoModify");
    reveal_strlit("NoRepair");
    reveal_with_fuel(run_plan, 11);
    let plan = uninstall_info_plan(app_id, info);
    let k = uninstall_key(app_id);
    let t = run_plan(s, plan);
    assert(plan.drop_first().drop_first().drop_first().drop_first().drop_first().drop_first().drop_first().drop_first().drop_first().drop_first().len() == 0);
    assert("DisplayName"@[7] != "DisplayIcon"@[7]);
    assert("UninstallString"@[0] != "InstallLocation"@[0]);
    assert("NoModify"@[2] != "NoRepair"@[2]);
}

/// Removing the control panel entry, from any state, leaves no key within
/// it and touches nothing else.
pub proof fn lemma_uninstall_info_removed(s: HiveState, app_id: Seq<char>)
    ensures
        forall|k: Seq<char>|
            within(k, uninstall_key(app_id)) ==> !run_plan(
                s,
                remove_uninstall_info_plan(app_id),
            ).keys.dom().contains(k),
        forall|k: Seq<char>, n: Seq<char>|
            !within(k, uninstall_key(app_id)) ==> value_of(
                run_plan(s, remove_uninstall_info_plan(app_id)),
                k,
                n,
            ) == value_of(s, k, n),
{
    reveal_with_fuel(run_plan, 2);
    let plan = remove_uninstall_info_plan(app_id);
    assert(plan.drop_first().len() == 0);
}

/// Removing the control panel entry twice is removing it once.
pub proof fn lemma_uninstall_info_remove_idempotent(s: HiveState, app_id: Seq<char>)
    ensures
        run_plan(run_plan(s, remove_uninstall_info_plan(app_id)), remove_uninstall_info_plan(app_id))
            == run_plan(s, remove_uninstall_info_plan(app_id)),
{
    reveal_with_fuel(run_plan, 2);
    let plan = remove_uninstall_info_plan(app_id);
    assert(plan.drop_first().len() == 0);
    let t = run_plan(s, plan);
    assert(run_plan(t, plan).keys =~= t.keys);
}

/// `op` removes keys or values and writes none.
pub open spec fn removes_only(op: RegOpView) -> bool {
    !(op is CreateKey) && !(op is SetValue)
}

/// A plan that only removes leaves every value either gone or as it was,
/// and adds no key.
pub proof fn lemma_removals_shrink(s: HiveState, ops: Seq<RegOpView>)
    requires
        forall|i: int| 0 <= i < ops.len() ==> removes_only(#[trigger] ops[i]),
    ensures
        forall|k: Seq<char>, n: Seq<char>|
            #![trigger value_of(run_plan(s, ops), k, n)]
            value_of(run_plan(s, ops), k, n) is None || value_of(run_plan(s, ops), k, n)
                == value_of(s, k, n),
        forall|k: Seq<char>|
            #[trigger] run_plan(s, ops).keys.dom().contains(k) ==> s.keys.dom().contains(k),
    decreases ops.len(),
{
    if ops.len() > 0 {
        let t = apply_op(s, ops[0]);
        assert(removes_only(ops[0]));
        assert(forall|i: int|
            0 <= i < ops.drop_first().len() ==> #[trigger] ops.drop_first()[i] == ops[i + 1]);
        lemma_removals_shrink(t, ops.drop_first());
        assert forall|k: Seq<char>, n: Seq<char>|
            value_of(t, k, n) is None || value_of(t, k, n) == value_of(s, k, n) by {
            match ops[0] {
                RegOpView::ClearDefaultIfEquals { path, expected } => {},
                RegOpView::DeleteValue { path, name } => {},
                _ => {},
            }
        }
    }
}

/// Each operation of `ops` leaves `t` as it is.
pub proof fn lemma_run_fixed(t: HiveState, ops: Seq<RegOpView>)
    requires
        forall|i: int| 0 <= i < ops.len() ==> apply_op(t, #[trigger] ops[i]) == t,
    ensures
        run_plan(t, ops) == t,
    decreases ops.len(),
{
    if ops.len() > 0 {
        assert(apply_op(t, ops[0]) == t);
        assert(forall|i: int|
            0 <= i < ops.drop_first().len() ==> #[trigger] ops.drop_first()[i] == ops[i + 1]);
        lemma_run_fixed(t, ops.drop_first());
    }
}

/// A value that unregistering `p` from `s` may remove: the ProgID, the
/// Applications and the Capabilities trees, the RegisteredApplications
/// entry, the ProgID among each extension's OpenWithProgids, and an
/// extension's default value when it names the ProgID.
pub open spec fn unregister_touches(p: AssocView, s: HiveState, k: Seq<char>, n: Seq<char>) -> bool {
    ||| within(k, progid_key(p))
    ||| within(k, application_key(p))
    ||| within(k, p.capability_key)
    ||| (k == REGISTERED_APPS_PATH@ && n == p.app_name)
    ||| (exists|i: int|
        0 <= i < p.extensions.len() && k == open_with_key(#[trigger] p.extensions[i]) && n
            == p.progid)
    ||| (exists|i: int|
        0 <= i < p.extensions.len() && k == extension_key(#[trigger] p.extensions[i]) && n.len()
            == 0 && value_of(s, k, n) == Some(RegValueView::Str(p.progid)))
}

/// After unregistering, none of the association surface is left: no key
/// within the ProgID, Applications or Capabilities trees, no
/// RegisteredApplications entry, no ProgID among an extension's
/// OpenWithProgids, and no extension default that names the ProgID.
pub open spec fn assoc_surface_clear(t: HiveState, p: AssocView) -> bool {
    &&& forall|k: Seq<char>| within(k, progid_key(p)) ==> !#[trigger] t.keys.dom().contains(k)
    &&& forall|k: Seq<char>| within(k, application_key(p)) ==> !#[trigger] t.keys.dom().contains(k)
    &&& forall|k: Seq<char>| within(k, p.capability_key) ==> !#[trigger] t.keys.dom().contains(k)
    &&& value_of(t, REGISTERED_APPS_PATH@, p.app_name) is None
    &&& forall|i: int|
        0 <= i < p.extensions.len() ==> value_of(t, open_with_key(#[trigger] p.extensions[i]), p.progid)
            is None
    &&& forall|i: int|
        0 <= i < p.extensions.len() ==> value_of(t, extension_key(#[trigger] p.extensions[i]), seq![])
            != Some(RegValueView::Str(p.progid))
}

/// The last five operations of the unregistering plan.
pub open spec fn unregister_tail(p: AssocView) -> Seq<RegOpView> {
    unregister_plan(p).skip((2 * p.extensions.len()) as int)
}

proof fn lemma_unregister_split(p: AssocView)
    ensures
        unregister_plan(p) == release_extension_ops(p.extensions, p.progid) + unregister_tail(p),
        unregister_tail(p) == seq![
            delete_tree_op(progid_key(p)),
            delete_tree_op(application_key(p)),
            delete_tree_op(p.capability_key),
            RegOpView::DeleteValue { path: REGISTERED_APPS_PATH@, name: p.app_name },
            RegOpView::NotifyAssocChanged,
        ],
        forall|i: int| 0 <= i < unregister_plan(p).len() ==> removes_only(#[trigger] unregister_plan(p)[i]),
{
    let r = release_extension_ops(p.extensions, p.progid);
    let u = unregister_plan(p);
    assert(u.skip((2 * p.extensions.len()) as int) =~= u.skip(r.len() as int));
    assert(u =~= r + u.skip(r.len() as int));
}

/// Unregistering leaves every value outside the association surface as it
/// was: other applications' extension defaults and OpenWithProgids
/// candidates stay.
pub proof fn lemma_unregister_frame(s: HiveState, p: AssocView, k: Seq<char>, n: Seq<char>)
    requires
        !unregister_touches(p, s, k, n),
    ensures
        value_of(run_plan(s, unregister_plan(p)), k, n) == value_of(s, k, n),
{
    lemma_unregister_split(p);
    let v = value_of(s, k, n);
    let r = release_extension_ops(p.extensions, p.progid);
    assert forall|i: int| 0 <= i < r.len() implies !(#[trigger] r[i] is CreateKey) && op_keeps(
        k,
        n,
        v,
        s.current,
        r[i],
    ) by {
        let e = p.extensions[i / 2];
        if i % 2 == 0 {
            assert(r[i] == RegOpView::ClearDefaultIfEquals { path: extension_key(e), expected: p.progid });
        } else {
            assert(r[i] == RegOpView::DeleteValue { path: open_with_key(e), name: p.progid });
        }
    }
    lemma_keeps_no_create(k, n, v, s.current, r);
    let t = unregister_tail(p);
    reveal_with_fuel(plan_keeps, 6);
    assert(t.drop_first().drop_first().drop_first().drop_first().drop_first().len() == 0);
    assert(plan_keeps(k, n, v, s.current, t));
    lemma_keeps_concat(k, n, v, s.current, r, t);
    lemma_plan_keeps(s, k, n, unregister_plan(p));
}

/// After the release operations of the `i`-th extension, and whatever
/// removals follow, the extension no longer lists the ProgID nor defaults
/// to it.
#[verifier::spinoff_prover]
#[verifier::rlimit(40)]
proof fn lemma_release_step(s: HiveState, p: AssocView, i: int)
    requires
        0 <= i < p.extensions.len(),
    ensures
        value_of(run_plan(s, unregister_plan(p)), open_with_key(p.extensions[i]), p.progid) is None,
        value_of(run_plan(s, unregister_plan(p)), extension_key(p.extensions[i]), seq![])
            != Some(RegValueView::Str(p.progid)),
        value_of(s, extension_key(p.extensions[i]), seq![]) == Some(RegValueView::Str(p.progid))
            ==> value_of(run_plan(s, unregister_plan(p)), extension_key(p.extensions[i]), seq![])
            is None,
{
    lemma_unregister_split(p);
    let u = unregister_plan(p);
    let e = p.extensions[i];
    let ek = extension_key(e);
    let ok = open_with_key(e);
    let a = u.take(2 * i);
    let c = u.skip(2 * i + 2);
    assert(u[2 * i] == RegOpView::ClearDefaultIfEquals { path: ek, expected: p.progid }) by {
        assert((2 * i) % 2 == 0);
        assert((2 * i) / 2 == i);
    }
    assert(u[2 * i + 1] == RegOpView::DeleteValue { path: ok, name: p.progid }) by {
        assert((2 * i + 1) % 2 == 1);
        assert((2 * i + 1) / 2 == i);
    }
    let rest = seq![u[2 * i + 1]] + c;
    assert(u =~= a + (seq![u[2 * i]] + rest));
    assert(rest =~= u.skip(2 * i + 1));
    assert(c =~= u.skip(2 * i + 2));
    lemma_run_concat(s, a, seq![u[2 * i]] + rest);
    let s1 = run_plan(s, a);
    assert(forall|j: int| 0 <= j < a.len() ==> #[trigger] a[j] == u[j]);
    lemma_removals_shrink(s, a);
    assert(value_of(s1, ek, seq![]) is None || value_of(s1, ek, seq![]) == value_of(s, ek, seq![]));
    lemma_run_concat(s1, seq![u[2 * i]], rest);
    reveal_with_fuel(run_plan, 2);
    assert(seq![u[2 * i]].drop_first().len() == 0);
    let s2 = apply_op(s1, u[2 * i]);
    assert(run_plan(s1, seq![u[2 * i]]) == s2);
    assert(value_of(s2, ek, seq![]) != Some(RegValueView::Str(p.progid)));
    assert(value_of(s, ek, seq![]) == Some(RegValueView::Str(p.progid)) ==> value_of(s2, ek, seq![])
        is None);
    assert(forall|j: int| 0 <= j < rest.len() ==> #[trigger] rest[j] == u[2 * i + 1 + j]);
    lemma_removals_shrink(s2, rest);
    lemma_run_concat(s2, seq![u[2 * i + 1]], c);
    assert(seq![u[2 * i + 1]].drop_first().len() == 0);
    let s3 = apply_op(s2, u[2 * i + 1]);
    assert(run_plan(s2, seq![u[2 * i + 1]]) == s3);
    assert(value_of(s3, ok, p.progid) is None);
    assert(forall|j: int| 0 <= j < c.len() ==> #[trigger] c[j] == u[2 * i + 2 + j]);
    lemma_removals_shrink(s3, c);
    assert(run_plan(s, u) == run_plan(s3, c));
}

/// Unregistering, from any state, clears the whole association surface; a
/// default value left pointing at the ProgID goes with it.
pub proof fn lemma_unregister_clears(s: HiveState, p: AssocView)
    ensures
        assoc_surface_clear(run_plan(s, unregister_plan(p)), p),
{
    lemma_unregister_split(p);
    let u = unregister_plan(p);
    let r = release_extension_ops(p.extensions, p.progid);
    let tail = unregister_tail(p);
    let fin = run_plan(s, u);
    assert forall|i: int| 0 <= i < p.extensions.len() implies value_of(
        fin,
        open_with_key(#[trigger] p.extensions[i]),
        p.progid,
    ) is None && value_of(fin, extension_key(p.extensions[i]), seq![]) != Some(
        RegValueView::Str(p.progid),
    ) by {
        lemma_release_step(s, p, i);
    }
    lemma_run_concat(s, r, tail);
    let s1 = run_plan(s, r);
    reveal_with_fuel(run_plan, 6);
    assert(tail.drop_first().drop_first().drop_first().drop_first().drop_first().len() == 0);
    assert(fin == run_plan(s1, tail));
}

/// Unregistering twice is unregistering once.
pub proof fn lemma_unregister_idempotent(s: HiveState, p: AssocView)
    ensures
        run_plan(run_plan(s, unregister_plan(p)), unregister_plan(p)) == run_plan(
            s,
            unregister_plan(p),
        ),
{
    lemma_unregister_split(p);
    lemma_unregister_clears(s, p);
    let u = unregister_plan(p);
    let t = run_plan(s, u);
    let n = p.extensions.len();
    assert forall|i: int| 0 <= i < u.len() implies apply_op(t, #[trigger] u[i]) == t by {
        if i < 2 * n {
            let e = p.extensions[i / 2];
            assert(value_of(t, open_with_key(e), p.progid) is None);
            assert(value_of(t, extension_key(e), seq![]) != Some(RegValueView::Str(p.progid)));
        } else {
            let tail = unregister_tail(p);
            assert(u[i] == tail[i - 2 * n]);
            assert(without_tree(t.keys, progid_key(p)) =~= t.keys);
            assert(without_tree(t.keys, application_key(p)) =~= t.keys);
            assert(without_tree(t.keys, p.capability_key) =~= t.keys);
        }
    }
    lemma_run_fixed(t, u);
}

/// `x` holds no `\`: a single key name.
pub open spec fn plain(x: Seq<char>) -> bool {
    forall|i: int| 0 <= i < x.len() ==> x[i] != '\\'
}

/// Two paths that are equal and end in single names have the same parent
/// and the same last name.
pub proof fn lemma_last_segment(a: Seq<char>, b: Seq<char>, c: Seq<char>, d: Seq<char>)
    requires
        plain(b),
        plain(d),
        subkey(a, b) == subkey(c, d),
    ensures
        a == c,
        b == d,
{
    let x = subkey(a, b);
    let y = subkey(c, d);
    assert(x[a.len() as int] == '\\');
    assert(y[c.len() as int] == '\\');
    assert(x.len() == a.len() + 1 + b.len());
    assert(y.len() == c.len() + 1 + d.len());
    assert(a.len() + b.len() == c.len() + d.len());
    let cs = c + seq!['\\'];
    let as_ = a + seq!['\\'];
    assert(y == cs + d);
    assert(x == as_ + d || x == as_ + b);
    if b.len() < d.len() {
        let q = a.len() as int;
        assert(q >= cs.len());
        assert((cs + d)[q] == d[q - cs.len()]);
        assert(false);
    } else if d.len() < b.len() {
        let q = c.len() as int;
        assert(q >= as_.len());
        assert((as_ + b)[q] == b[q - as_.len()]);
        assert(false);
    } else {
        assert(a =~= x.take(a.len() as int));
        assert(c =~= y.take(c.len() as int));
        assert(b =~= x.skip(a.len() as int + 1));
        assert(d =~= y.skip(c.len() as int + 1));
    }
}

proof fn lemma_plain_names()
    ensures
        plain("DefaultIcon"@),
        plain("command"@),
        plain("Capabilities"@),
        plain("FileAssociations"@),
        plain("SupportedTypes"@),
        plain("RegisteredApplications"@),
        plain("OpenWithProgids"@),
{
    reveal_strlit("DefaultIcon");
    reveal_strlit("command");
    reveal_strlit("Capabilities");
    reveal_strlit("FileAssociations");
    reveal_strlit("SupportedTypes");
    reveal_strlit("RegisteredApplications");
    reveal_strlit("OpenWithProgids");
}

/// Running `a` then one more operation.
proof fn lemma_run_push(s: HiveState, a: Seq<RegOpView>, op: RegOpView)
    ensures
        run_plan(s, a.push(op)) == apply_op(run_plan(s, a), op),
{
    lemma_run_concat(s, a, seq![op]);
    assert(a.push(op) =~= a + seq![op]);
    reveal_with_fuel(run_plan, 2);
    assert(seq![op].drop_first().len() == 0);
}

/// Writing one `.ext` value per extension on the open key `c`.
pub proof fn lemma_run_ext_values(s: HiveState, exts: Seq<Seq<char>>, value: Seq<char>)
    requires
        s.current is Some,
        s.keys.dom().contains(s.current->0),
    ensures
        run_plan(s, ext_values(exts, value)).current == s.current,
        run_plan(s, ext_values(exts, value)).keys.dom() == s.keys.dom(),
        forall|i: int|
            0 <= i < exts.len() ==> value_of(
                run_plan(s, ext_values(exts, value)),
                s.current->0,
                dotted(#[trigger] exts[i]),
            ) == Some(RegValueView::Str(value)),
        forall|k: Seq<char>, n: Seq<char>|
            value_of(run_plan(s, ext_values(exts, value)), k, n) != value_of(s, k, n) ==> k
                == s.current->0 && exists|i: int| 0 <= i < exts.len() && n == dotted(exts[i]),
    decreases exts.len(),
{
    let c = s.current->0;
    if exts.len() == 0 {
        assert(ext_values(exts, value).len() == 0);
    } else {
        let init = exts.drop_last();
        let last = exts.last();
        lemma_run_ext_values(s, init, value);
        assert(ext_values(exts, value) =~= ext_values(init, value).push(
            set_str_op(dotted(last), value),
        ));
        let t0 = run_plan(s, ext_values(init, value));
        lemma_run_push(s, ext_values(init, value), set_str_op(dotted(last), value));
        let t = apply_op(t0, set_str_op(dotted(last), value));
        assert forall|i: int| 0 <= i < exts.len() implies value_of(t, c, dotted(#[trigger] exts[i]))
            == Some(RegValueView::Str(value)) by {
            if i < exts.len() - 1 {
                assert(exts[i] == init[i]);
            }
        }
        assert forall|k: Seq<char>, n: Seq<char>| value_of(t, k, n) != value_of(s, k, n) implies k
            == c && exists|i: int| 0 <= i < exts.len() && n == dotted(exts[i]) by {
            if value_of(t0, k, n) != value_of(s, k, n) {
                let i = choose|i: int| 0 <= i < init.len() && n == dotted(init[i]);
                assert(exts[i] == init[i]);
            } else {
                assert(exts[exts.len() - 1] == last);
            }
        }
        assert(t.keys.dom() =~= s.keys.dom());
    }
}

/// Listing the ProgID among each extension's OpenWithProgids.
pub proof fn lemma_run_open_with(s: HiveState, exts: Seq<Seq<char>>, progid: Seq<char>)
    ensures
        forall|i: int|
            0 <= i < exts.len() ==> value_of(
                run_plan(s, open_with_ops(exts, progid)),
                open_with_key(#[trigger] exts[i]),
                progid,
            ) == Some(RegValueView::Str(seq![])),
        forall|k: Seq<char>, n: Seq<char>|
            value_of(run_plan(s, open_with_ops(exts, progid)), k, n) != value_of(s, k, n) ==> n
                == progid && exists|i: int| 0 <= i < exts.len() && k == open_with_key(exts[i]),
    decreases exts.len(),
{
    if exts.len() == 0 {
        assert(open_with_ops(exts, progid).len() == 0);
    } else {
        let init = exts.drop_last();
        let last = exts.last();
        let ow = open_with_ops(exts, progid);
        let ow0 = open_with_ops(init, progid);
        let cr = create_op(open_with_key(last), create_failure(dotted(last) + " OpenWithProgids"@));
        let st = set_str_op(progid, seq![]);
        assert(ow.len() == ow0.len() + 2);
        assert forall|j: int| 0 <= j < ow.len() implies #[trigger] ow[j] == ow0.push(cr).push(st)[j] by {
            if j < ow0.len() {
                assert(j / 2 < init.len());
                assert(init[j / 2] == exts[j / 2]);
            } else if j == ow0.len() {
                assert(j % 2 == 0);
                assert(j / 2 == exts.len() - 1);
            } else {
                assert(j % 2 == 1);
                assert(j / 2 == exts.len() - 1);
            }
        }
        assert(ow =~= ow0.push(cr).push(st));
        lemma_run_open_with(s, init, progid);
        let t0 = run_plan(s, ow0);
        lemma_run_push(s, ow0, cr);
        lemma_run_push(s, ow0.push(cr), st);
        let t1 = apply_op(t0, cr);
        let t = apply_op(t1, st);
        assert(run_plan(s, ow) == t);
        assert forall|i: int| 0 <= i < exts.len() implies value_of(
            t,
            open_with_key(#[trigger] exts[i]),
            progid,
        ) == Some(RegValueView::Str(seq![])) by {
            if i < exts.len() - 1 {
                assert(exts[i] == init[i]);
            }
        }
        assert forall|k: Seq<char>, n: Seq<char>| value_of(t, k, n) != value_of(s, k, n) implies n
            == progid && exists|i: int| 0 <= i < exts.len() && k == open_with_key(exts[i]) by {
            if value_of(t0, k, n) != value_of(s, k, n) {
                let i = choose|i: int| 0 <= i < init.len() && k == open_with_key(init[i]);
                assert(exts[i] == init[i]);
            } else {
                assert(exts[exts.len() - 1] == last);
            }
        }
    }
}

/// `x\shell\open\command` ends in the single name `command`.
proof fn lemma_command_path(x: Seq<char>)
    ensures
        subkey(x, "shell\\open\\command"@) == subkey(subkey(x, "shell\\open"@), "command"@),
{
    reveal_strlit("shell\\open\\command");
    reveal_strlit("shell\\open");
    reveal_strlit("command");
    assert(subkey(x, "shell\\open\\command"@) =~= subkey(subkey(x, "shell\\open"@), "command"@));
}

/// The values the ProgID and Applications part writes.
pub open spec fn head_writes(p: AssocView, k: Seq<char>, n: Seq<char>) -> bool {
    let pk = progid_key(p);
    let ak = application_key(p);
    ||| (n.len() == 0 && (k == pk || k == subkey(pk, "DefaultIcon"@) || k == subkey(
        pk,
        "shell\\open\\command"@,
    ) || k == subkey(ak, "DefaultIcon"@) || k == subkey(ak, "shell\\open\\command"@)))
    ||| (k == ak && n == "FriendlyAppName"@)
}

/// Running the ProgID part.
proof fn lemma_run_progid(s: HiveState, p: AssocView, exe: Seq<char>)
    ensures
        value_of(
            run_plan(s, register_progid(p, exe)),
            subkey(progid_key(p), "shell\\open\\command"@),
            seq![],
        ) == Some(RegValueView::Str(open_command(exe))),
        value_of(run_plan(s, register_progid(p, exe)), progid_key(p), seq![]) == Some(
            RegValueView::Str(ASSOC_FILE_TYPE_NAME@),
        ),
        forall|k: Seq<char>, n: Seq<char>|
            value_of(run_plan(s, register_progid(p, exe)), k, n) != value_of(s, k, n) ==> n.len()
                == 0 && (k == progid_key(p) || k == subkey(progid_key(p), "DefaultIcon"@) || k
                == subkey(progid_key(p), "shell\\open\\command"@)),
{
    let pk = progid_key(p);
    assert(pk.len() != subkey(pk, "DefaultIcon"@).len());
    assert(pk.len() != subkey(pk, "shell\\open\\command"@).len());
    reveal_with_fuel(run_plan, 7);
    let h = register_progid(p, exe);
    assert(h.drop_first().drop_first().drop_first().drop_first().drop_first().drop_first().len()
        == 0);
}

/// Running the Applications part.
proof fn lemma_run_application(s: HiveState, p: AssocView, exe: Seq<char>)
    ensures
        run_plan(s, register_application(p, exe)).current == Some(
            subkey(application_key(p), "SupportedTypes"@),
        ),
        run_plan(s, register_application(p, exe)).keys.dom().contains(
            subkey(application_key(p), "SupportedTypes"@),
        ),
        value_of(
            run_plan(s, register_application(p, exe)),
            subkey(application_key(p), "shell\\open\\command"@),
            seq![],
        ) == Some(RegValueView::Str(open_command(exe))),
        value_of(run_plan(s, register_application(p, exe)), application_key(p), "FriendlyAppName"@)
            == Some(RegValueView::Str(p.app_name)),
        forall|k: Seq<char>, n: Seq<char>|
            value_of(run_plan(s, register_application(p, exe)), k, n) != value_of(s, k, n) ==> (
            n.len() == 0 && (k == subkey(application_key(p), "DefaultIcon"@) || k == subkey(
                application_key(p),
                "shell\\open\\command"@,
            ))) || (k == application_key(p) && n == "FriendlyAppName"@),
{
    reveal_strlit("FriendlyAppName");
    reveal_with_fuel(run_plan, 8);
    let h = register_application(p, exe);
    assert(h.drop_first().drop_first().drop_first().drop_first().drop_first().drop_first().drop_first().len()
        == 0);
}

/// Running the ProgID and Applications part.
pub proof fn lemma_run_head(s: HiveState, p: AssocView, exe: Seq<char>)
    ensures
        run_plan(s, register_head(p, exe)).current == Some(subkey(application_key(p), "SupportedTypes"@)),
        run_plan(s, register_head(p, exe)).keys.dom().contains(
            subkey(application_key(p), "SupportedTypes"@),
        ),
        value_of(
            run_plan(s, register_head(p, exe)),
            subkey(progid_key(p), "shell\\open\\command"@),
            seq![],
        ) == Some(RegValueView::Str(open_command(exe))),
        value_of(run_plan(s, register_head(p, exe)), application_key(p), "FriendlyAppName"@) == Some(
            RegValueView::Str(p.app_name),
        ),
        plain(p.progid) ==> value_of(run_plan(s, register_head(p, exe)), progid_key(p), seq![])
            == Some(RegValueView::Str(ASSOC_FILE_TYPE_NAME@)),
        forall|k: Seq<char>, n: Seq<char>|
            value_of(run_plan(s, register_head(p, exe)), k, n) != value_of(s, k, n) ==> head_writes(
                p,
                k,
                n,
            ),
{
    let pk = progid_key(p);
    let ak = application_key(p);
    let hp = register_progid(p, exe);
    let ha = register_application(p, exe);
    lemma_run_concat(s, hp, ha);
    lemma_run_progid(s, p, exe);
    let s1 = run_plan(s, hp);
    lemma_run_application(s1, p, exe);
    reveal_strlit("FriendlyAppName");
    reveal_strlit("DefaultIcon");
    reveal_strlit("Software\\Classes");
    lemma_plain_names();
    lemma_command_path(pk);
    lemma_command_path(ak);
    let pcmd = subkey(pk, "shell\\open\\command"@);
    let acmd = subkey(ak, "shell\\open\\command"@);
    if pcmd == subkey(ak, "DefaultIcon"@) {
        lemma_last_segment(subkey(pk, "shell\\open"@), "command"@, ak, "DefaultIcon"@);
        reveal_strlit("command");
        assert("command"@[0] != "DefaultIcon"@[0]);
    }
    if plain(p.progid) {
        if pk == subkey(ak, "DefaultIcon"@) {
            lemma_last_segment(crate::registry::CLASSES_PATH@, p.progid, ak, "DefaultIcon"@);
        }
        if pk == acmd {
            lemma_last_segment(
                crate::registry::CLASSES_PATH@,
                p.progid,
                subkey(ak, "shell\\open"@),
                "command"@,
            );
        }
    }
    assert("FriendlyAppName"@.len() != 0);
}

/// Running the Capabilities part.
pub proof fn lemma_run_caps(s: HiveState, p: AssocView)
    ensures
        run_plan(s, register_caps(p)).current == Some(subkey(capabilities_key(p), "FileAssociations"@)),
        run_plan(s, register_caps(p)).keys.dom().contains(
            subkey(capabilities_key(p), "FileAssociations"@),
        ),
        value_of(run_plan(s, register_caps(p)), capabilities_key(p), "ApplicationName"@) == Some(
            RegValueView::Str(p.app_name),
        ),
        forall|k: Seq<char>, n: Seq<char>|
            value_of(run_plan(s, register_caps(p)), k, n) != value_of(s, k, n) ==> k
                == capabilities_key(p) && (n == "ApplicationName"@ || n
                == "ApplicationDescription"@),
{
    reveal_strlit("ApplicationName");
    reveal_strlit("ApplicationDescription");
    reveal_with_fuel(run_plan, 5);
    let h = register_caps(p);
    assert(h.drop_first().drop_first().drop_first().drop_first().len() == 0);
}

/// Running the RegisteredApplications part.
pub proof fn lemma_run_listing(s: HiveState, p: AssocView)
    ensures
        run_plan(s, register_listing(p)).current == Some(REGISTERED_APPS_PATH@),
        value_of(run_plan(s, register_listing(p)), REGISTERED_APPS_PATH@, p.app_name) == Some(
            RegValueView::Str(capabilities_key(p)),
        ),
        forall|k: Seq<char>, n: Seq<char>|
            value_of(run_plan(s, register_listing(p)), k, n) != value_of(s, k, n) ==> k
                == REGISTERED_APPS_PATH@ && n == p.app_name,
{
    reveal_with_fuel(run_plan, 3);
    let h = register_listing(p);
    assert(h.drop_first().drop_first().len() == 0);
}

/// The states a registration passes through, part by part.
pub open spec fn register_stages(s: HiveState, p: AssocView, exe: Seq<char>) -> Seq<HiveState> {
    let s1 = run_plan(s, register_head(p, exe));
    let s2 = run_plan(s1, ext_values(p.extensions, seq![]));
    let s3 = run_plan(s2, register_caps(p));
    let s4 = run_plan(s3, ext_values(p.extensions, p.progid));
    let s5 = run_plan(s4, register_listing(p));
    let s6 = run_plan(s5, open_with_ops(p.extensions, p.progid));
    seq![s, s1, s2, s3, s4, s5, s6]
}

proof fn lemma_register_stages(s: HiveState, p: AssocView, exe: Seq<char>)
    ensures
        run_plan(s, register_plan(p, exe)) == register_stages(s, p, exe)[6],
{
    let h1 = register_head(p, exe);
    let e1 = ext_values(p.extensions, seq![]);
    let h2 = register_caps(p);
    let e2 = ext_values(p.extensions, p.progid);
    let h3 = register_listing(p);
    let o = open_with_ops(p.extensions, p.progid);
    let nt = seq![RegOpView::NotifyAssocChanged];
    lemma_run_concat(s, h1 + e1 + h2 + e2 + h3 + o, nt);
    lemma_run_concat(s, h1 + e1 + h2 + e2 + h3, o);
    lemma_run_concat(s, h1 + e1 + h2 + e2, h3);
    lemma_run_concat(s, h1 + e1 + h2, e2);
    lemma_run_concat(s, h1 + e1, h2);
    lemma_run_concat(s, h1, e1);
    reveal_with_fuel(run_plan, 2);
    assert(nt.drop_first().len() == 0);
}

/// An extension key `Software\Classes\.x` is none of the keys a
/// registration writes, when the ProgID is a single name that does not start
/// with a dot.
proof fn lemma_extension_key_apart(p: AssocView, x: Seq<char>)
    requires
        plain(x),
        plain(p.progid),
        p.progid.len() == 0 || p.progid[0] != '.',
    ensures
        ({
            let ek = extension_key(x);
            let pk = progid_key(p);
            let ak = application_key(p);
            let ck = capabilities_key(p);
            &&& ek != pk
            &&& ek != subkey(pk, "DefaultIcon"@)
            &&& ek != subkey(pk, "shell\\open\\command"@)
            &&& ek != ak
            &&& ek != subkey(ak, "DefaultIcon"@)
            &&& ek != subkey(ak, "shell\\open\\command"@)
            &&& ek != subkey(ak, "SupportedTypes"@)
            &&& ek != ck
            &&& ek != subkey(ck, "FileAssociations"@)
            &&& ek != REGISTERED_APPS_PATH@
            &&& forall|e: Seq<char>| ek != #[trigger] open_with_key(e)
        }),
{
    let ek = extension_key(x);
    let d = dotted(x);
    let pk = progid_key(p);
    let ak = application_key(p);
    let ck = capabilities_key(p);
    assert(plain(d)) by {
        assert forall|i: int| 0 <= i < d.len() implies d[i] != '\\' by {
            if i > 0 {
                assert(d[i] == x[i - 1]);
            }
        }
    }
    reveal_strlit("Software\\Classes");
    reveal_strlit("Software\\RegisteredApplications");
    reveal_strlit("Applications");
    reveal_strlit("DefaultIcon");
    reveal_strlit("command");
    reveal_strlit("Capabilities");
    reveal_strlit("FileAssociations");
    reveal_strlit("OpenWithProgids");
    lemma_plain_names();
    assert(d[0] == '.');
    if ek == pk {
        lemma_last_segment(CLASSES_PATH@, d, CLASSES_PATH@, p.progid);
    }
    if ek == subkey(pk, "DefaultIcon"@) {
        lemma_last_segment(CLASSES_PATH@, d, pk, "DefaultIcon"@);
    }
    lemma_command_path(pk);
    if ek == subkey(pk, "shell\\open\\command"@) {
        lemma_last_segment(CLASSES_PATH@, d, subkey(pk, "shell\\open"@), "command"@);
    }
    assert(ek[17] == '.');
    assert(ak[17] == 'A');
    assert(subkey(ak, "DefaultIcon"@)[17] == 'A');
    assert(subkey(ak, "shell\\open\\command"@)[17] == 'A');
    assert(subkey(ak, "SupportedTypes"@)[17] == 'A');
    if ek == ck {
        lemma_last_segment(CLASSES_PATH@, d, p.capability_key, "Capabilities"@);
    }
    if ek == subkey(ck, "FileAssociations"@) {
        lemma_last_segment(CLASSES_PATH@, d, ck, "FileAssociations"@);
    }
    assert(ek[9] == 'C');
    assert(REGISTERED_APPS_PATH@[9] == 'R');
    assert forall|e: Seq<char>| ek != #[trigger] open_with_key(e) by {
        if ek == open_with_key(e) {
            lemma_last_segment(CLASSES_PATH@, d, extension_key(e), "OpenWithProgids"@);
        }
    }
}

/// Registering never writes an extension's own key: its default value and
/// every other value stay as they were (the user, not the installer, picks
/// the default program).
pub proof fn lemma_register_keeps_extension_values(
    s: HiveState,
    p: AssocView,
    exe: Seq<char>,
    x: Seq<char>,
    n: Seq<char>,
)
    requires
        plain(x),
        plain(p.progid),
        p.progid.len() == 0 || p.progid[0] != '.',
    ensures
        value_of(run_plan(s, register_plan(p, exe)), extension_key(x), n) == value_of(
            s,
            extension_key(x),
            n,
        ),
{
    let st = register_stages(s, p, exe);
    let ek = extension_key(x);
    lemma_register_stages(s, p, exe);
    lemma_extension_key_apart(p, x);
    lemma_run_head(s, p, exe);
    lemma_run_ext_values(st[1], p.extensions, seq![]);
    lemma_run_caps(st[2], p);
    lemma_run_ext_values(st[3], p.extensions, p.progid);
    lemma_run_listing(st[4], p);
    lemma_run_open_with(st[5], p.extensions, p.progid);
    assert(value_of(st[1], ek, n) == value_of(s, ek, n));
    assert(value_of(st[2], ek, n) == value_of(st[1], ek, n));
    assert(value_of(st[3], ek, n) == value_of(st[2], ek, n));
    assert(value_of(st[4], ek, n) == value_of(st[3], ek, n));
    assert(value_of(st[5], ek, n) == value_of(st[4], ek, n));
    if value_of(st[6], ek, n) != value_of(st[5], ek, n) {
        let i = choose|i: int|
            0 <= i < p.extensions.len() && ek == open_with_key(p.extensions[i]);
        assert(ek != open_with_key(p.extensions[i]));
    }
}

/// The keys a registration writes lie apart from each other where the
/// surface needs it.
proof fn lemma_surface_keys_apart(p: AssocView)
    ensures
        ({
            let pk = progid_key(p);
            let pcmd = subkey(pk, "shell\\open\\command"@);
            let ak = application_key(p);
            let st = subkey(ak, "SupportedTypes"@);
            let ck = capabilities_key(p);
            let fa = subkey(ck, "FileAssociations"@);
            let reg = REGISTERED_APPS_PATH@;
            &&& pcmd != st && pcmd != reg
            &&& ak != st && ak != reg
            &&& ck != fa && ck != reg
            &&& st != ck && st != fa && st != reg
            &&& fa != reg
            &&& forall|e: Seq<char>|
                {
                    let ok = #[trigger] open_with_key(e);
                    &&& ok != pcmd && ok != ak && ok != ck && ok != reg && ok != st && ok != fa
                    &&& ok != subkey(pk, "DefaultIcon"@) && ok != subkey(ak, "DefaultIcon"@)
                    &&& ok != subkey(ak, "shell\\open\\command"@)
                    &&& plain(p.progid) ==> ok != pk
                }
            &&& plain(p.progid) ==> pk != reg
        }),
{
    let pk = progid_key(p);
    let pcmd = subkey(pk, "shell\\open\\command"@);
    let ak = application_key(p);
    let st = subkey(ak, "SupportedTypes"@);
    let ck = capabilities_key(p);
    let fa = subkey(ck, "FileAssociations"@);
    let reg = REGISTERED_APPS_PATH@;
    reveal_strlit("Software\\Classes");
    reveal_strlit("Software\\RegisteredApplications");
    reveal_strlit("Software");
    reveal_strlit("RegisteredApplications");
    reveal_strlit("Applications");
    reveal_strlit("command");
    reveal_strlit("Capabilities");
    reveal_strlit("FileAssociations");
    reveal_strlit("OpenWithProgids");
    reveal_strlit("SupportedTypes");
    reveal_strlit("DefaultIcon");
    lemma_plain_names();
    assert(reg =~= subkey("Software"@, "RegisteredApplications"@));
    lemma_command_path(pk);
    let pso = subkey(pk, "shell\\open"@);
    if pcmd == st {
        lemma_last_segment(pso, "command"@, ak, "SupportedTypes"@);
    }
    assert(pcmd[9] == 'C');
    assert(reg[9] == 'R');
    assert(ak[9] == 'C');
    assert(st[9] == 'C');
    assert(ak[17] == 'A');
    assert(ak.len() < st.len());
    assert(ck.len() < fa.len());
    if ck == reg {
        lemma_last_segment(p.capability_key, "Capabilities"@, "Software"@, "RegisteredApplications"@);
    }
    if st == ck {
        lemma_last_segment(ak, "SupportedTypes"@, p.capability_key, "Capabilities"@);
    }
    if st == fa {
        lemma_last_segment(ak, "SupportedTypes"@, ck, "FileAssociations"@);
    }
    if fa == reg {
        lemma_last_segment(ck, "FileAssociations"@, "Software"@, "RegisteredApplications"@);
    }
    assert forall|e: Seq<char>|
        {
            let ok = #[trigger] open_with_key(e);
            &&& ok != pcmd && ok != ak && ok != ck && ok != reg && ok != st && ok != fa
            &&& ok != subkey(pk, "DefaultIcon"@) && ok != subkey(ak, "DefaultIcon"@)
            &&& ok != subkey(ak, "shell\\open\\command"@)
            &&& plain(p.progid) ==> ok != pk
        } by {
        let ok = open_with_key(e);
        let ek = extension_key(e);
        if ok == subkey(pk, "DefaultIcon"@) {
            lemma_last_segment(ek, "OpenWithProgids"@, pk, "DefaultIcon"@);
        }
        if ok == subkey(ak, "DefaultIcon"@) {
            lemma_last_segment(ek, "OpenWithProgids"@, ak, "DefaultIcon"@);
        }
        lemma_command_path(ak);
        if ok == subkey(ak, "shell\\open\\command"@) {
            lemma_last_segment(ek, "OpenWithProgids"@, subkey(ak, "shell\\open"@), "command"@);
        }
        assert(ok[9] == 'C');
        assert(ok[17] == '.');
        if ok == pcmd {
            lemma_last_segment(ek, "OpenWithProgids"@, pso, "command"@);
        }
        if ok == ck {
            lemma_last_segment(ek, "OpenWithProgids"@, p.capability_key, "Capabilities"@);
        }
        if ok == st {
            lemma_last_segment(ek, "OpenWithProgids"@, ak, "SupportedTypes"@);
        }
        if ok == fa {
            lemma_last_segment(ek, "OpenWithProgids"@, ck, "FileAssociations"@);
        }
        if plain(p.progid) && ok == pk {
            lemma_last_segment(ek, "OpenWithProgids"@, CLASSES_PATH@, p.progid);
        }
    }
    assert(pk[9] == 'C');
}

/// `t` holds the association surface of `p` for the main program at `exe`:
/// the ProgID's open command, the Applications friendly name and supported
/// types, the Capabilities name and file associations, the
/// RegisteredApplications entry, and the ProgID among every extension's
/// OpenWithProgids.
pub open spec fn holds_assoc_surface(t: HiveState, p: AssocView, exe: Seq<char>) -> bool {
    let ak = application_key(p);
    let ck = capabilities_key(p);
    &&& value_of(t, subkey(progid_key(p), "shell\\open\\command"@), seq![]) == Some(
        RegValueView::Str(open_command(exe)),
    )
    &&& value_of(t, ak, "FriendlyAppName"@) == Some(RegValueView::Str(p.app_name))
    &&& value_of(t, ck, "ApplicationName"@) == Some(RegValueView::Str(p.app_name))
    &&& value_of(t, REGISTERED_APPS_PATH@, p.app_name) == Some(RegValueView::Str(ck))
    &&& forall|i: int|
        0 <= i < p.extensions.len() ==> value_of(
            t,
            subkey(ak, "SupportedTypes"@),
            dotted(#[trigger] p.extensions[i]),
        ) == Some(RegValueView::Str(seq![]))
    &&& forall|i: int|
        0 <= i < p.extensions.len() ==> value_of(
            t,
            subkey(ck, "FileAssociations"@),
            dotted(#[trigger] p.extensions[i]),
        ) == Some(RegValueView::Str(p.progid))
    &&& forall|i: int|
        0 <= i < p.extensions.len() ==> value_of(t, open_with_key(#[trigger] p.extensions[i]), p.progid)
            == Some(RegValueView::Str(seq![]))
}

/// Registering, from any state, leaves the whole association surface in
/// place; when the ProgID is a single name, its default value is the file
/// type name.
pub proof fn lemma_register_writes_surface(s: HiveState, p: AssocView, exe: Seq<char>)
    ensures
        holds_assoc_surface(run_plan(s, register_plan(p, exe)), p, exe),
        plain(p.progid) ==> value_of(run_plan(s, register_plan(p, exe)), progid_key(p), seq![])
            == Some(RegValueView::Str(ASSOC_FILE_TYPE_NAME@)),
{
    let st = register_stages(s, p, exe);
    let exts = p.extensions;
    let pk = progid_key(p);
    let pcmd = subkey(pk, "shell\\open\\command"@);
    let ak = application_key(p);
    let sk = subkey(ak, "SupportedTypes"@);
    let ck = capabilities_key(p);
    let fa = subkey(ck, "FileAssociations"@);
    let reg = REGISTERED_APPS_PATH@;
    let fan = "FriendlyAppName"@;
    let an = "ApplicationName"@;
    let ad = "ApplicationDescription"@;
    let e: Seq<char> = seq![];
    lemma_register_stages(s, p, exe);
    lemma_surface_keys_apart(p);
    lemma_run_head(s, p, exe);
    lemma_run_ext_values(st[1], exts, e);
    lemma_run_caps(st[2], p);
    lemma_run_ext_values(st[3], exts, p.progid);
    lemma_run_listing(st[4], p);
    lemma_run_open_with(st[5], exts, p.progid);
    reveal_strlit("FriendlyAppName");
    reveal_strlit("ApplicationName");
    reveal_strlit("ApplicationDescription");
    assert forall|x: Seq<char>| #[trigger] dotted(x) != e && dotted(x) != fan by {
        assert(dotted(x).len() >= 1);
        assert(dotted(x)[0] == '.');
        assert(fan[0] == 'F');
    }
    assert(an.len() > 0 && ad.len() > 0);
    assert(fan[0] != an[0] && fan[0] != ad[0]);
    // after the open command and the friendly name are written
    assert(value_of(st[2], pcmd, e) == value_of(st[1], pcmd, e));
    assert(value_of(st[2], ak, fan) == value_of(st[1], ak, fan));
    assert(value_of(st[3], pcmd, e) == value_of(st[2], pcmd, e));
    assert(value_of(st[3], ak, fan) == value_of(st[2], ak, fan));
    assert(value_of(st[4], pcmd, e) == value_of(st[3], pcmd, e));
    assert(value_of(st[4], ak, fan) == value_of(st[3], ak, fan));
    assert(value_of(st[4], ck, an) == value_of(st[3], ck, an));
    assert(value_of(st[5], pcmd, e) == value_of(st[4], pcmd, e));
    assert(value_of(st[5], ak, fan) == value_of(st[4], ak, fan));
    assert(value_of(st[5], ck, an) == value_of(st[4], ck, an));
    if plain(p.progid) {
        assert(value_of(st[2], pk, e) == value_of(st[1], pk, e));
        assert(value_of(st[3], pk, e) == value_of(st[2], pk, e));
        assert(value_of(st[4], pk, e) == value_of(st[3], pk, e));
        assert(value_of(st[5], pk, e) == value_of(st[4], pk, e));
        assert(value_of(st[6], pk, e) == value_of(st[5], pk, e));
    }
    assert forall|i: int| 0 <= i < exts.len() implies value_of(st[6], sk, dotted(#[trigger] exts[i]))
        == Some(RegValueView::Str(e)) by {
        let d = dotted(exts[i]);
        assert(value_of(st[2], sk, d) == Some(RegValueView::Str(e)));
        assert(value_of(st[3], sk, d) == value_of(st[2], sk, d));
        assert(value_of(st[4], sk, d) == value_of(st[3], sk, d));
        assert(value_of(st[5], sk, d) == value_of(st[4], sk, d));
    }
    assert forall|i: int| 0 <= i < exts.len() implies value_of(st[6], fa, dotted(#[trigger] exts[i]))
        == Some(RegValueView::Str(p.progid)) by {
        let d = dotted(exts[i]);
        assert(value_of(st[4], fa, d) == Some(RegValueView::Str(p.progid)));
        assert(value_of(st[5], fa, d) == value_of(st[4], fa, d));
    }
}

/// Single names throughout: a ProgID that does not start with a dot, and
/// extensions without `\`.
pub open spec fn assoc_names_plain(p: AssocView) -> bool {
    &&& plain(p.progid)
    &&& p.progid.len() == 0 || p.progid[0] != '.'
    &&& forall|i: int| 0 <= i < p.extensions.len() ==> plain(#[trigger] p.extensions[i])
}

/// Neither `Software\Classes\.x` nor anything below it lies within the
/// ProgID or the Applications tree.
proof fn lemma_extension_outside_trees(p: AssocView, x: Seq<char>, k: Seq<char>)
    requires
        plain(p.progid),
        p.progid.len() == 0 || p.progid[0] != '.',
        k == extension_key(x) || k == open_with_key(x),
    ensures
        !within(k, progid_key(p)),
        !within(k, application_key(p)),
{
    reveal_strlit("Software\\Classes");
    reveal_strlit("Applications");
    reveal_strlit("OpenWithProgids");
    let pk = progid_key(p);
    let ak = application_key(p);
    assert(k[17] == '.');
    assert(k.len() >= 18);
    assert((pk + seq!['\\'])[17] != '.');
    assert(ak[17] == 'A');
    assert((ak + seq!['\\'])[17] == 'A');
    if within(k, pk) {
        if k == pk {
            if p.progid.len() == 0 {
                assert(pk.len() == 17);
            } else {
                assert(pk[17] == p.progid[0]);
            }
        } else {
            assert((pk + seq!['\\']).len() >= 18);
            assert(k[17] == (pk + seq!['\\'])[17]);
        }
    }
    if within(k, ak) {
        if k != ak {
            assert(k[17] == (ak + seq!['\\'])[17]);
        }
    }
}

/// Registering and then unregistering leaves other applications' values as
/// they were: an extension's default value (unless it named this ProgID)
/// and every candidate in its OpenWithProgids other than this ProgID.
pub proof fn lemma_register_unregister_keeps_others(
    s: HiveState,
    p: AssocView,
    exe: Seq<char>,
    x: Seq<char>,
    m: Seq<char>,
)
    requires
        assoc_names_plain(p),
        plain(x),
        !within(extension_key(x), p.capability_key),
        !within(open_with_key(x), p.capability_key),
    ensures
        ({
            let t = run_plan(run_plan(s, register_plan(p, exe)), unregister_plan(p));
            &&& (m.len() != 0 || value_of(s, extension_key(x), m) != Some(
                RegValueView::Str(p.progid),
            )) ==> value_of(t, extension_key(x), m) == value_of(s, extension_key(x), m)
            &&& m != p.progid ==> value_of(t, open_with_key(x), m) == value_of(
                s,
                open_with_key(x),
                m,
            )
        }),
{
    let r = run_plan(s, register_plan(p, exe));
    let ek = extension_key(x);
    let ok = open_with_key(x);
    lemma_extension_key_apart(p, x);
    lemma_extension_outside_trees(p, x, ek);
    lemma_extension_outside_trees(p, x, ok);
    lemma_surface_keys_apart(p);
    if m.len() != 0 || value_of(s, ek, m) != Some(RegValueView::Str(p.progid)) {
        lemma_register_keeps_extension_values(s, p, exe, x, m);
        assert forall|i: int| 0 <= i < p.extensions.len() implies ek != open_with_key(
            #[trigger] p.extensions[i],
        ) by {}
        assert(!unregister_touches(p, r, ek, m));
        lemma_unregister_frame(r, p, ek, m);
    }
    if m != p.progid {
        let st = register_stages(s, p, exe);
        lemma_register_stages(s, p, exe);
        lemma_run_head(s, p, exe);
        lemma_run_ext_values(st[1], p.extensions, seq![]);
        lemma_run_caps(st[2], p);
        lemma_run_ext_values(st[3], p.extensions, p.progid);
        lemma_run_listing(st[4], p);
        lemma_run_open_with(st[5], p.extensions, p.progid);
        assert(value_of(st[1], ok, m) == value_of(s, ok, m));
        assert(value_of(st[2], ok, m) == value_of(st[1], ok, m));
        assert(value_of(st[3], ok, m) == value_of(st[2], ok, m));
        assert(value_of(st[4], ok, m) == value_of(st[3], ok, m));
        assert(value_of(st[5], ok, m) == value_of(st[4], ok, m));
        assert(value_of(st[6], ok, m) == value_of(st[5], ok, m));
        assert forall|i: int| 0 <= i < p.extensions.len() implies ok != extension_key(
            #[trigger] p.extensions[i],
        ) by {
            lemma_extension_key_apart(p, p.extensions[i]);
        }
        assert(!unregister_touches(p, r, ok, m));
        lemma_unregister_frame(r, p, ok, m);
    }
}

/// Removals keep the association surface cleared.
proof fn lemma_clear_survives_removals(s: HiveState, p: AssocView, ops: Seq<RegOpView>)
    requires
        assoc_surface_clear(s, p),
        forall|i: int| 0 <= i < ops.len() ==> removes_only(#[trigger] ops[i]),
    ensures
        assoc_surface_clear(run_plan(s, ops), p),
{
    lemma_removals_shrink(s, ops);
    let t = run_plan(s, ops);
    assert(value_of(t, REGISTERED_APPS_PATH@, p.app_name) is None || value_of(
        t,
        REGISTERED_APPS_PATH@,
        p.app_name,
    ) == value_of(s, REGISTERED_APPS_PATH@, p.app_name));
    assert forall|i: int| 0 <= i < p.extensions.len() implies value_of(
        t,
        open_with_key(#[trigger] p.extensions[i]),
        p.progid,
    ) is None && value_of(t, extension_key(p.extensions[i]), seq![]) != Some(
        RegValueView::Str(p.progid),
    ) by {
        assert(value_of(t, open_with_key(p.extensions[i]), p.progid) is None || value_of(
            t,
            open_with_key(p.extensions[i]),
            p.progid,
        ) == value_of(s, open_with_key(p.extensions[i]), p.progid));
        assert(value_of(t, extension_key(p.extensions[i]), seq![]) is None || value_of(
            t,
            extension_key(p.extensions[i]),
            seq![],
        ) == value_of(s, extension_key(p.extensions[i]), seq![]));
    }
}

/// What the uninstall takes out of the registry (the association surface,
/// then the control panel entry) is everything the install put there: after
/// both, neither the entry nor any part of the surface is left, whatever was
/// in the registry before.
pub proof fn lemma_uninstall_undoes_install_registry(
    h: HiveState,
    app_id: Seq<char>,
    info: UninstallInfoView,
    p: AssocView,
    exe: Seq<char>,
)
    ensures
        ({
            let installed = run_plan(
                run_plan(h, uninstall_info_plan(app_id, info)),
                register_plan(p, exe),
            );
            let t = run_plan(
                run_plan(installed, unregister_plan(p)),
                remove_uninstall_info_plan(app_id),
            );
            &&& assoc_surface_clear(t, p)
            &&& forall|k: Seq<char>|
                within(k, uninstall_key(app_id)) ==> !#[trigger] t.keys.dom().contains(k)
        }),
{
    let installed = run_plan(run_plan(h, uninstall_info_plan(app_id, info)), register_plan(p, exe));
    let cleared = run_plan(installed, unregister_plan(p));
    lemma_unregister_clears(installed, p);
    let rm = remove_uninstall_info_plan(app_id);
    assert(forall|i: int| 0 <= i < rm.len() ==> removes_only(#[trigger] rm[i]));
    lemma_clear_survives_removals(cleared, p, rm);
    lemma_uninstall_info_removed(cleared, app_id);
}

/// The control panel entry an install writes leads back to it: from any
/// registry state, the entry's `InstallLocation` is the install directory
/// and its `UninstallString` starts the uninstaller placed there.
pub proof fn lemma_install_entry_locates_install(h: HiveState, s: InstallerView)
    requires
        s.phase == InstallPhase::Saving,
    ensures
        ({
            let (s2, a) = install_step(s, InstallEventView::Completed(Ok(())));
            a.work matches InstallWorkView::ApplyRegistry { root, ops } && {
                let t = run_plan(h, ops);
                &&& root == s.root
                &&& holds_uninstall_info(t, s.app_id, uninstall_info_of(s))
                &&& value_of(t, uninstall_key(s.app_id), "InstallLocation"@) == Some(
                    RegValueView::Str(s.install_dir),
                )
                &&& value_of(t, uninstall_key(s.app_id), "UninstallString"@) == Some(
                    RegValueView::Str(seq!['"'] + wizard_dest(s) + UNINSTALL_SWITCH@),
                )
            }
        }),
{
    lemma_uninstall_info_written(h, s.app_id, uninstall_info_of(s));
}

/// The uninstall takes out its own control panel entry: the registry work it
/// asks for after the file association is done goes to the machine's root,
/// and, from any registry state, leaves no key within the entry of the
/// machine's app id, and every value outside that entry as it was.
pub proof fn lemma_uninstall_removes_own_entry(
    h: HiveState,
    s: UninstallerView,
    r: Result<(), Seq<char>>,
)
    requires
        s.phase == UninstallPhase::Unassociating,
    ensures
        ({
            let (s2, a) = uninstall_step(s, UninstallEventView::Completed(r));
            a.work matches UninstallWorkView::ApplyRegistry { root, ops } && {
                let t = run_plan(h, ops);
                &&& root == s.root
                &&& forall|k: Seq<char>|
                    within(k, uninstall_key(s.app_id)) ==> !#[trigger] t.keys.dom().contains(k)
                &&& forall|k: Seq<char>, n: Seq<char>|
                    !within(k, uninstall_key(s.app_id)) ==> #[trigger] value_of(t, k, n)
                        == value_of(h, k, n)
            }
        }),
{
    lemma_uninstall_info_removed(h, s.app_id);
}

/// A default value left pointing at the ProgID (by an older installer or by
/// hand) is removed outright by unregistering, not only changed.
pub proof fn lemma_unregister_removes_dangling_default(s: HiveState, p: AssocView, i: int)
    requires
        0 <= i < p.extensions.len(),
        value_of(s, extension_key(p.extensions[i]), seq![]) == Some(RegValueView::Str(p.progid)),
    ensures
        value_of(run_plan(s, unregister_plan(p)), extension_key(p.extensions[i]), seq![]) is None,
{
    lemma_release_step(s, p, i);
}

} // verus!
