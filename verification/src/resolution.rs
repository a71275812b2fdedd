//! Choosing the capture target of a recording request: by id, by name, or by
//! the app that owns a window, with errors that say what to do next.

use vstd::prelude::*;
use crate::backend::{capture_kind_arg, find_target, kind_arg, resolve_target, resolve_target_spec, targets_view};
use crate::digits::{decimal, decimal_chars};
use crate::protocol::{agent_error, AgentError, AgentErrorView, TargetSelector};
use crate::settings::{CaptureSourceKind, CaptureTarget, CaptureTargetView, RecorderError, RecorderSettings};
use crate::text::{
    chars_of, contains, contains_seq, has_prefix, has_suffix, lowercase, occurs_at, push_chars, push_str, split_once,
    split_once_spec, starts_with, string_of, to_lowercase, trim, trim_spec, chars_eq,
};

verus! {

/// Text compared case-insensitively and without surrounding white space.
pub open spec fn normalized(s: Seq<char>) -> Seq<char> {
    lowercase(trim_spec(s))
}

/// The app part of a window title `App — Title` or `App - Title`.
pub open spec fn app_name_spec(name: Seq<char>) -> Seq<char> {
    match split_once_spec(name, " \u{2014} "@) {
        Some((app, _)) => app,
        None => match split_once_spec(name, " - "@) {
            Some((app, _)) => app,
            None => name,
        },
    }
}

/// What a query is compared with: the normalized name, or the normalized
/// app part of the name.
pub open spec fn target_key(t: CaptureTargetView, by_app: bool) -> Seq<char> {
    normalized(if by_app { app_name_spec(t.name) } else { t.name })
}

/// Match levels, tried in order: 0 exact, 1 prefix, 2 contains.
pub open spec fn hits(key: Seq<char>, q: Seq<char>, level: nat) -> bool {
    if level == 0 {
        key == q
    } else if level == 1 {
        has_prefix(key, q)
    } else {
        contains_seq(key, q)
    }
}

/// The candidates whose key matches `q` at `level`, in order.
pub open spec fn matching(cs: Seq<CaptureTargetView>, q: Seq<char>, level: nat, by_app: bool) -> Seq<CaptureTargetView>
    decreases cs.len(),
{
    if cs.len() == 0 {
        Seq::empty()
    } else {
        let rest = matching(cs.drop_last(), q, level, by_app);
        if hits(target_key(cs.last(), by_app), q, level) { rest.push(cs.last()) } else { rest }
    }
}

/// The targets whose kind is `kind`, or all of them when `kind` is `None`.
pub open spec fn of_kind(ts: Seq<CaptureTargetView>, kind: Option<CaptureSourceKind>) -> Seq<CaptureTargetView>
    decreases ts.len(),
{
    if ts.len() == 0 {
        Seq::empty()
    } else {
        let rest = of_kind(ts.drop_last(), kind);
        if kind is None || ts.last().kind == kind->0 { rest.push(ts.last()) } else { rest }
    }
}

/// `kind:id name` for an ambiguity message.
pub open spec fn describe(t: CaptureTargetView) -> Seq<char> {
    kind_arg(t.kind) + ":"@ + decimal(t.id as nat) + " "@ + t.name
}

/// The descriptions of `ts`, joined by `, `.
pub open spec fn describe_all(ts: Seq<CaptureTargetView>) -> Seq<char>
    decreases ts.len(),
{
    if ts.len() == 0 {
        Seq::empty()
    } else if ts.len() == 1 {
        describe(ts[0])
    } else {
        describe_all(ts.drop_last()) + ", "@ + describe(ts.last())
    }
}

/// The only match, or an error listing all of them.
pub open spec fn unique_spec(ms: Seq<CaptureTargetView>, label: Seq<char>, q: Seq<char>) -> Result<CaptureTargetView, AgentErrorView> {
    if ms.len() == 1 {
        Ok(ms[0])
    } else {
        Err(AgentErrorView {
            code: "ambiguous_target"@,
            message: "multiple "@ + label + "s match `"@ + q + "`: "@ + describe_all(ms),
            recoverable: true,
            next: "Pass `--target kind:id` to choose one exact target."@,
        })
    }
}

/// Resolution by name (or by app, when `by_app`): exact matches first, then
/// prefix matches, then substring matches; the first level with any match
/// decides, and it must have exactly one.
pub open spec fn resolve_by_spec(
    cs: Seq<CaptureTargetView>,
    query: Seq<char>,
    by_app: bool,
    label: Seq<char>,
) -> Result<CaptureTargetView, AgentErrorView> {
    let q = normalized(query);
    if q.len() == 0 {
        if by_app {
            Err(AgentErrorView {
                code: "empty_app_query"@,
                message: "app query cannot be empty"@,
                recoverable: true,
                next: "Pass an app name or use `wrec targets --json` to choose a window id."@,
            })
        } else {
            Err(AgentErrorView {
                code: "empty_target_query"@,
                message: label + " query cannot be empty"@,
                recoverable: true,
                next: "Pass a non-empty target name or use `wrec targets --json` to choose an id."@,
            })
        }
    } else if matching(cs, q, 0, by_app).len() > 0 {
        unique_spec(matching(cs, q, 0, by_app), label, q)
    } else if matching(cs, q, 1, by_app).len() > 0 {
        unique_spec(matching(cs, q, 1, by_app), label, q)
    } else if matching(cs, q, 2, by_app).len() > 0 {
        unique_spec(matching(cs, q, 2, by_app), label, q)
    } else if by_app {
        Err(AgentErrorView {
            code: "app_not_found"@,
            message: "no app matches `"@ + q + "`"@,
            recoverable: true,
            next: "Run `wrec targets --json` and pass `--target window:id` for an exact window."@,
        })
    } else {
        Err(AgentErrorView {
            code: "target_not_found"@,
            message: "no "@ + label + " matches `"@ + q + "`"@,
            recoverable: true,
            next: "Run `wrec targets --json` and pass `--target kind:id` for an exact target."@,
        })
    }
}

/// The error for a target id or default that could not be found.
pub open spec fn target_error_spec(message: Seq<char>) -> AgentErrorView {
    AgentErrorView {
        code: "target_not_found"@,
        message,
        recoverable: true,
        next: "Run `wrec targets --json` and pass one of the listed target ids."@,
    }
}

/// The target a recording request records.
pub open spec fn resolve_record_target_spec(
    ts: Seq<CaptureTargetView>,
    kind: CaptureSourceKind,
    selector: Option<crate::protocol::TargetSelectorView>,
    saved_id: Option<u64>,
) -> Result<CaptureTargetView, AgentErrorView> {
    match selector {
        Some(crate::protocol::TargetSelectorView::Id { kind: k, id }) => match resolve_target_spec(ts, k, Some(id), None) {
            Ok(t) => Ok(t),
            Err(m) => Err(target_error_spec(m)),
        },
        Some(crate::protocol::TargetSelectorView::Name { kind: k, query }) =>
            resolve_by_spec(of_kind(ts, k), query, false, "target"@),
        Some(crate::protocol::TargetSelectorView::App { query }) =>
            resolve_by_spec(of_kind(ts, Some(CaptureSourceKind::Window)), query, true, "app"@),
        None => match resolve_target_spec(ts, kind, None, saved_id) {
            Ok(t) => Ok(t),
            Err(m) => Err(target_error_spec(m)),
        },
    }
}

/// The view of a resolution result.
pub open spec fn resolved_view(r: Result<CaptureTarget, AgentError>) -> Result<CaptureTargetView, AgentErrorView> {
    match r {
        Ok(t) => Ok(t@),
        Err(e) => Err(e@),
    }
}

/// In `a + sep + t`, no occurrence of `sep` starts before `a` ends.
proof fn lemma_no_early_separator(a: Seq<char>, sep: Seq<char>, t: Seq<char>, j: int)
    requires
        sep.len() == 3,
        sep[0] == ' ',
        sep[2] == ' ',
        sep[1] != ' ',
        !contains_seq(a, sep),
        !has_suffix(a, sep.take(2)),
        0 <= j < a.len(),
    ensures
        !occurs_at(a + sep + t, sep, j),
{
    let n = a + sep + t;
    let k = a.len() as int;
    if occurs_at(n, sep, j) {
        let w = n.subrange(j, j + 3);
        assert(w[0] == sep[0] && w[1] == sep[1] && w[2] == sep[2]);
        if j + 3 <= k {
            assert(a.subrange(j, j + 3) =~= w);
            assert(occurs_at(a, sep, j));
        } else if j == k - 2 {
            assert(w[0] == a[k - 2]);
            assert(w[1] == a[k - 1]);
            assert(a.skip(k - 2) =~= sep.take(2));
        } else {
            assert(w[1] == n[k]);
            assert(n[k] == sep[0]);
        }
    }
}

/// A three-character separator ` x ` splits `a + sep + t` right after `a`
/// when `a` holds no separator and does not end in its first two characters.
#[verifier::spinoff_prover]
proof fn lemma_split_after(a: Seq<char>, sep: Seq<char>, t: Seq<char>)
    requires
        sep.len() == 3,
        sep[0] == ' ',
        sep[2] == ' ',
        sep[1] != ' ',
        !contains_seq(a, sep),
        !has_suffix(a, sep.take(2)),
    ensures
        split_once_spec(a + sep + t, sep) == Some((a, t)),
{
    let n = a + sep + t;
    let k = a.len() as int;
    assert(n.subrange(k, k + 3) =~= sep);
    assert forall|j: int| 0 <= j < k implies !occurs_at(n, sep, j) by {
        lemma_no_early_separator(a, sep, t, j);
    }
    crate::text::lemma_first_occurrence(n, sep, k);
    assert(n.take(k) =~= a);
    assert(n.skip(k + 3) =~= t);
}

/// The app of a window titled `A - T` is `A`: the title is split at its
/// first ` - `, when `A` holds no ` - ` and does not end in ` -`, and the
/// title holds no ` \u{2014} ` (which is looked for first).
pub proof fn the_app_of_a_dashed_title_is_its_first_part(a: Seq<char>, t: Seq<char>)
    requires
        !contains_seq(a, " - "@),
        !has_suffix(a, " -"@),
        !contains_seq(a + " - "@ + t, " \u{2014} "@),
    ensures
        app_name_spec(a + " - "@ + t) == a,
{
    reveal_strlit(" - ");
    reveal_strlit(" -");
    assert(" - "@.take(2) =~= " -"@);
    lemma_split_after(a, " - "@, t);
}

/// The app of a window titled `A \u{2014} T` is `A`, when `A` holds no
/// ` \u{2014} ` and does not end in ` \u{2014}`.
pub proof fn the_app_of_an_em_dashed_title_is_its_first_part(a: Seq<char>, t: Seq<char>)
    requires
        !contains_seq(a, " \u{2014} "@),
        !has_suffix(a, " \u{2014}"@),
    ensures
        app_name_spec(a + " \u{2014} "@ + t) == a,
{
    reveal_strlit(" \u{2014} ");
    reveal_strlit(" \u{2014}");
    assert(" \u{2014} "@.take(2) =~= " \u{2014}"@);
    lemma_split_after(a, " \u{2014} "@, t);
}

/// With no window of kind `Window` whose app key is `q`, no window matches
/// `q` exactly by app.
proof fn lemma_no_exact_app(ts: Seq<CaptureTargetView>, q: Seq<char>)
    requires
        forall|j: int| 0 <= j < ts.len() && ts[j].kind == CaptureSourceKind::Window ==> target_key(#[trigger] ts[j], true) != q,
    ensures
        matching(of_kind(ts, Some(CaptureSourceKind::Window)), q, 0, true) =~= Seq::<CaptureTargetView>::empty(),
    decreases ts.len(),
{
    if ts.len() > 0 {
        let d = ts.drop_last();
        assert forall|j: int| 0 <= j < d.len() && d[j].kind == CaptureSourceKind::Window implies target_key(#[trigger] d[j], true) != q by {
            assert(d[j] == ts[j]);
        }
        lemma_no_exact_app(d, q);
        let w = of_kind(d, Some(CaptureSourceKind::Window));
        if ts.last().kind == CaptureSourceKind::Window {
            assert(target_key(ts[ts.len() - 1], true) != q);
            assert(of_kind(ts, Some(CaptureSourceKind::Window)) == w.push(ts.last()));
            assert(w.push(ts.last()).drop_last() =~= w);
        }
    }
}

/// With exactly one window (index `i`) whose app key is `q`, the exact
/// app matches are that window alone.
proof fn lemma_one_exact_app(ts: Seq<CaptureTargetView>, q: Seq<char>, i: int)
    requires
        0 <= i < ts.len(),
        ts[i].kind == CaptureSourceKind::Window,
        target_key(ts[i], true) == q,
        forall|j: int| 0 <= j < ts.len() && j != i && ts[j].kind == CaptureSourceKind::Window ==> target_key(#[trigger] ts[j], true) != q,
    ensures
        matching(of_kind(ts, Some(CaptureSourceKind::Window)), q, 0, true) =~= seq![ts[i]],
    decreases ts.len(),
{
    let d = ts.drop_last();
    let w = of_kind(d, Some(CaptureSourceKind::Window));
    if i == ts.len() - 1 {
        assert forall|j: int| 0 <= j < d.len() && d[j].kind == CaptureSourceKind::Window implies target_key(#[trigger] d[j], true) != q by {
            assert(d[j] == ts[j]);
        }
        lemma_no_exact_app(d, q);
        assert(of_kind(ts, Some(CaptureSourceKind::Window)) == w.push(ts.last()));
        assert(w.push(ts.last()).drop_last() =~= w);
        assert(w.push(ts.last()).last() == ts[i]);
    } else {
        assert forall|j: int| 0 <= j < d.len() && j != i && d[j].kind == CaptureSourceKind::Window implies target_key(#[trigger] d[j], true) != q by {
            assert(d[j] == ts[j]);
        }
        assert(d[i] == ts[i]);
        lemma_one_exact_app(d, q, i);
        if ts.last().kind == CaptureSourceKind::Window {
            assert(target_key(ts[ts.len() - 1], true) != q);
            assert(of_kind(ts, Some(CaptureSourceKind::Window)) == w.push(ts.last()));
            assert(w.push(ts.last()).drop_last() =~= w);
        }
    }
}

/// `--app q` records the one window whose app part equals `q`, both
/// compared trimmed and lower-cased, when no other window has that app.
pub proof fn an_app_query_selects_the_only_window_of_that_app(
    ts: Seq<CaptureTargetView>,
    kind: CaptureSourceKind,
    query: Seq<char>,
    saved_id: Option<u64>,
    i: int,
)
    requires
        0 <= i < ts.len(),
        ts[i].kind == CaptureSourceKind::Window,
        normalized(query).len() > 0,
        normalized(app_name_spec(ts[i].name)) == normalized(query),
        forall|j: int|
            0 <= j < ts.len() && j != i && ts[j].kind == CaptureSourceKind::Window
                ==> normalized(app_name_spec(#[trigger] ts[j].name)) != normalized(query),
    ensures
        resolve_record_target_spec(ts, kind, Some(crate::protocol::TargetSelectorView::App { query }), saved_id)
            == Ok::<CaptureTargetView, AgentErrorView>(ts[i]),
{
    let q = normalized(query);
    assert forall|j: int| 0 <= j < ts.len() && j != i && ts[j].kind == CaptureSourceKind::Window implies target_key(#[trigger] ts[j], true) != q by {
        assert(normalized(app_name_spec(ts[j].name)) != q);
    }
    lemma_one_exact_app(ts, q, i);
}

/// Normalizes text for comparison: trimmed, then lower-cased.
pub fn normalize(s: &Vec<char>) -> (r: Vec<char>)
    ensures
        r@ == normalized(s@),
{
    let t = trim(s);
    to_lowercase(&t)
}

/// The app part of a window title.
pub fn app_name(name: &Vec<char>) -> (r: Vec<char>)
    ensures
        r@ == app_name_spec(name@),
{
    let em = chars_of(" \u{2014} ");
    match split_once(name, &em) {
        Some((app, _)) => app,
        None => {
            let dash = chars_of(" - ");
            match split_once(name, &dash) {
                Some((app, _)) => app,
                None => {
                    let copy = crate::text::slice(name, 0, name.len());
                    assert(name@.subrange(0, name@.len() as int) == name@);
                    copy
                },
            }
        },
    }
}

fn key_of(t: &CaptureTarget, by_app: bool) -> (r: Vec<char>)
    ensures
        r@ == target_key(t@, by_app),
{
    let name = chars_of(t.name.as_str());
    if by_app {
        normalize(&app_name(&name))
    } else {
        normalize(&name)
    }
}

fn hits_x(key: &Vec<char>, q: &Vec<char>, level: u8) -> (r: bool)
    requires
        level <= 2,
    ensures
        r == hits(key@, q@, level as nat),
{
    if level == 0 {
        chars_eq(key, q)
    } else if level == 1 {
        starts_with(key, q)
    } else {
        contains(key, q)
    }
}

fn copy_targets_where(ts: &Vec<CaptureTarget>, kind: Option<CaptureSourceKind>) -> (r: Vec<CaptureTarget>)
    ensures
        targets_view(&r) == of_kind(targets_view(ts), kind),
{
    let mut out: Vec<CaptureTarget> = Vec::new();
    let mut i: usize = 0;
    while i < ts.len()
        invariant
            i <= ts.len(),
            targets_view(&out) == of_kind(targets_view(ts).take(i as int), kind),
        decreases ts.len() - i,
    {
        let ghost before = targets_view(&out);
        assert(targets_view(ts).take(i + 1).drop_last() == targets_view(ts).take(i as int));
        assert(targets_view(ts).take(i + 1).last() == ts@[i as int]@);
        let keep = match kind {
            Some(k) => ts[i].kind == k,
            None => true,
        };
        if keep {
            out.push(ts[i].duplicate());
            assert(targets_view(&out) =~= before.push(ts@[i as int]@));
        } else {
            assert(targets_view(&out) =~= before);
        }
        i = i + 1;
    }
    assert(targets_view(ts).take(ts.len() as int) == targets_view(ts));
    out
}

fn matching_x(cs: &Vec<CaptureTarget>, q: &Vec<char>, level: u8, by_app: bool) -> (r: Vec<CaptureTarget>)
    requires
        level <= 2,
    ensures
        targets_view(&r) == matching(targets_view(cs), q@, level as nat, by_app),
{
    let mut out: Vec<CaptureTarget> = Vec::new();
    let mut i: usize = 0;
    while i < cs.len()
        invariant
            i <= cs.len(),
            level <= 2,
            targets_view(&out) == matching(targets_view(cs).take(i as int), q@, level as nat, by_app),
        decreases cs.len() - i,
    {
        let ghost before = targets_view(&out);
        assert(targets_view(cs).take(i + 1).drop_last() == targets_view(cs).take(i as int));
        assert(targets_view(cs).take(i + 1).last() == cs@[i as int]@);
        let key = key_of(&cs[i], by_app);
        if hits_x(&key, q, level) {
            out.push(cs[i].duplicate());
            assert(targets_view(&out) =~= before.push(cs@[i as int]@));
        } else {
            assert(targets_view(&out) =~= before);
        }
        i = i + 1;
    }
    assert(targets_view(cs).take(cs.len() as int) == targets_view(cs));
    out
}

fn describe_x(t: &CaptureTarget) -> (r: Vec<char>)
    ensures
        r@ == describe(t@),
{
    let mut m: Vec<char> = Vec::new();
    push_str(&mut m, capture_kind_arg(t.kind));
    push_str(&mut m, ":");
    push_chars(&mut m, &decimal_chars(t.id));
    push_str(&mut m, " ");
    push_chars(&mut m, &chars_of(t.name.as_str()));
    assert(Seq::<char>::empty() + kind_arg(t.kind) == kind_arg(t.kind));
    m
}

fn describe_all_x(ts: &Vec<CaptureTarget>) -> (r: Vec<char>)
    ensures
        r@ == describe_all(targets_view(ts)),
{
    let mut m: Vec<char> = Vec::new();
    let mut i: usize = 0;
    while i < ts.len()
        invariant
            i <= ts.len(),
            m@ == describe_all(targets_view(ts).take(i as int)),
        decreases ts.len() - i,
    {
        assert(targets_view(ts).take(i + 1).drop_last() == targets_view(ts).take(i as int));
        assert(targets_view(ts).take(i + 1).last() == ts@[i as int]@);
        if i > 0 {
            push_str(&mut m, ", ");
        } else {
            assert(targets_view(ts).take(1)[0] == ts@[0]@);
            assert(Seq::<char>::empty() + describe(ts@[0]@) == describe(ts@[0]@));
        }
        push_chars(&mut m, &describe_x(&ts[i]));
        i = i + 1;
    }
    assert(targets_view(ts).take(ts.len() as int) == targets_view(ts));
    m
}

fn unique_match(ms: &Vec<CaptureTarget>, label: &str, q: &Vec<char>) -> (r: Result<CaptureTarget, AgentError>)
    ensures
        resolved_view(r) == unique_spec(targets_view(ms), label@, q@),
{
    if ms.len() == 1 {
        assert(targets_view(ms)[0] == ms@[0]@);
        return Ok(ms[0].duplicate());
    }
    let mut m: Vec<char> = Vec::new();
    push_str(&mut m, "multiple ");
    push_str(&mut m, label);
    push_str(&mut m, "s match `");
    push_chars(&mut m, q);
    push_str(&mut m, "`: ");
    push_chars(&mut m, &describe_all_x(ms));
    assert(Seq::<char>::empty() + "multiple "@ == "multiple "@);
    Err(agent_error("ambiguous_target", string_of(&m), true, "Pass `--target kind:id` to choose one exact target."))
}

fn resolve_by(cs: &Vec<CaptureTarget>, query: &Vec<char>, by_app: bool, label: &str) -> (r: Result<CaptureTarget, AgentError>)
    ensures
        resolved_view(r) == resolve_by_spec(targets_view(cs), query@, by_app, label@),
{
    let q = normalize(query);
    if q.len() == 0 {
        if by_app {
            return Err(agent_error(
                "empty_app_query",
                "app query cannot be empty".to_string(),
                true,
                "Pass an app name or use `wrec targets --json` to choose a window id.",
            ));
        } else {
            let mut m: Vec<char> = Vec::new();
            push_str(&mut m, label);
            push_str(&mut m, " query cannot be empty");
            assert(Seq::<char>::empty() + label@ == label@);
            return Err(agent_error(
                "empty_target_query",
                string_of(&m),
                true,
                "Pass a non-empty target name or use `wrec targets --json` to choose an id.",
            ));
        }
    }
    let exact = matching_x(cs, &q, 0, by_app);
    if exact.len() > 0 {
        return unique_match(&exact, label, &q);
    }
    let prefix = matching_x(cs, &q, 1, by_app);
    if prefix.len() > 0 {
        return unique_match(&prefix, label, &q);
    }
    let inner = matching_x(cs, &q, 2, by_app);
    if inner.len() > 0 {
        return unique_match(&inner, label, &q);
    }
    if by_app {
        let m = crate::text::text3("no app matches `", &q, "`");
        Err(agent_error(
            "app_not_found",
            m,
            true,
            "Run `wrec targets --json` and pass `--target window:id` for an exact window.",
        ))
    } else {
        let mut m: Vec<char> = Vec::new();
        push_str(&mut m, "no ");
        push_str(&mut m, label);
        push_str(&mut m, " matches `");
        push_chars(&mut m, &q);
        push_str(&mut m, "`");
        assert(Seq::<char>::empty() + "no "@ == "no "@);
        Err(agent_error(
            "target_not_found",
            string_of(&m),
            true,
            "Run `wrec targets --json` and pass `--target kind:id` for an exact target.",
        ))
    }
}

/// The error for a target id or default that could not be found.
pub fn target_error(message: String) -> (r: AgentError)
    ensures
        r@ == target_error_spec(message@),
{
    agent_error(
        "target_not_found",
        message,
        true,
        "Run `wrec targets --json` and pass one of the listed target ids.",
    )
}

/// The view of an optional selector.
pub open spec fn opt_selector_view(s: Option<&TargetSelector>) -> Option<crate::protocol::TargetSelectorView> {
    match s {
        Some(x) => Some(x@),
        None => None,
    }
}

/// Picks the target a recording request records: by id, by name among the
/// targets of the selector's kind, by app among the windows, or else the
/// saved or first target of `kind`.
pub fn resolve_record_target(
    targets: &Vec<CaptureTarget>,
    kind: CaptureSourceKind,
    selector: Option<&TargetSelector>,
    saved_id: Option<u64>,
) -> (r: Result<CaptureTarget, AgentError>)
    ensures
        resolved_view(r) == resolve_record_target_spec(targets_view(targets), kind, opt_selector_view(selector), saved_id),
{
    match selector {
        Some(TargetSelector::Id { kind: k, id }) => match resolve_target(targets, *k, Some(*id), None) {
            Ok(t) => Ok(t),
            Err(m) => Err(target_error(m)),
        },
        Some(TargetSelector::Name { kind: k, query }) => {
            let cs = copy_targets_where(targets, *k);
            let q = chars_of(query.as_str());
            resolve_by(&cs, &q, false, "target")
        },
        Some(TargetSelector::App { query }) => {
            let cs = copy_targets_where(targets, Some(CaptureSourceKind::Window));
            let q = chars_of(query.as_str());
            resolve_by(&cs, &q, true, "app")
        },
        None => match resolve_target(targets, kind, None, saved_id) {
            Ok(t) => Ok(t),
            Err(m) => Err(target_error(m)),
        },
    }
}

/// The settings of a recording follow the kind of its resolved target;
/// nothing else changes.
pub fn settings_for_target(settings: RecorderSettings, target: &CaptureTarget) -> (r: RecorderSettings)
    ensures
        r == (RecorderSettings { source: target.kind, ..settings }),
{
    let mut s = settings;
    s.source = target.kind;
    s
}

/// The error a failed permission check is answered with.
pub open spec fn permission_error_spec(e: RecorderError) -> AgentErrorView {
    match e {
        RecorderError::MissingScreenRecordingPermission => AgentErrorView {
            code: "screen_recording_permission_missing"@,
            message: "screen recording permission is not granted"@,
            recoverable: true,
            next: "Grant Screen Recording permission, then retry."@,
        },
        RecorderError::Backend(m) => if contains_seq(m@, "capture-engine"@) {
            AgentErrorView {
                code: "capture_engine_missing"@,
                message: "backend error: "@ + m@,
                recoverable: true,
                next: "Build the daemon through Cargo or install the full wrec runtime so daemon and capture-engine are present together."@,
            }
        } else {
            AgentErrorView {
                code: "screen_recording_permission_failed"@,
                message: crate::settings::recorder_error_text(e),
                recoverable: true,
                next: "Fix the backend error above, then retry the permission check."@,
            }
        },
        RecorderError::NoCaptureTarget => AgentErrorView {
            code: "screen_recording_permission_failed"@,
            message: crate::settings::recorder_error_text(e),
            recoverable: true,
            next: "Fix the backend error above, then retry the permission check."@,
        },
    }
}

/// The error a failed permission check is answered with: missing permission,
/// a missing capture engine, or any other failure.
pub fn permission_error(error: RecorderError) -> (r: AgentError)
    ensures
        r@ == permission_error_spec(error),
{
    match &error {
        RecorderError::MissingScreenRecordingPermission => {
            return agent_error(
                "screen_recording_permission_missing",
                "screen recording permission is not granted".to_string(),
                true,
                "Grant Screen Recording permission, then retry.",
            );
        },
        RecorderError::Backend(message) => {
            let cs = chars_of(message.as_str());
            let pat = chars_of("capture-engine");
            if contains(&cs, &pat) {
                return agent_error(
                    "capture_engine_missing",
                    error.message(),
                    true,
                    "Build the daemon through Cargo or install the full wrec runtime so daemon and capture-engine are present together.",
                );
            }
        },
        RecorderError::NoCaptureTarget => {},
    }
    agent_error(
        "screen_recording_permission_failed",
        error.message(),
        true,
        "Fix the backend error above, then retry the permission check.",
    )
}

/// The answer on a platform that wrec does not support.
pub fn unsupported_platform_error() -> (r: AgentError)
    ensures
        r@ == (AgentErrorView {
            code: "unsupported_platform"@,
            message: "wrec only supports macOS and Windows"@,
            recoverable: false,
            next: "Run wrec on macOS 15+ or Windows 10 1903+."@,
        }),
{
    agent_error(
        "unsupported_platform",
        "wrec only supports macOS and Windows".to_string(),
        false,
        "Run wrec on macOS 15+ or Windows 10 1903+.",
    )
}

} // verus!
