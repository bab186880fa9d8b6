//! Choosing a window to capture: the exclusion rules, their short-circuit
//! evaluation against one candidate, and the pick among the survivors.

use crate::setup::CaptureSource;
use vstd::prelude::*;

verus! {

/// Window style bit of a disabled window.
pub const WS_DISABLED: u32 = 0x0800_0000;

/// Cloak reason of a window that the shell has cloaked.
pub const DWM_CLOAKED_SHELL: u32 = 2;

/// Extended style bit of a window that is transparent to hit testing.
pub const WS_EX_TRANSPARENT: u32 = 0x0000_0020;

/// Extended style bit of a tool window.
pub const WS_EX_TOOLWINDOW: u32 = 0x0000_0080;

/// Extended style bit of a window that does not take activation.
pub const WS_EX_NOACTIVATE: u32 = 0x0800_0000;

/// The name of what `String::from_utf16_lossy` makes of a sequence of
/// UTF-16 code units.
pub uninterp spec fn utf16_lossy(units: Seq<u16>) -> Seq<char>;

/// A window that may be captured.
#[derive(Debug)]
pub struct Window {
    pub hwnd: isize,
    pub name: String,
}

/// The mathematical value of a `Window`.
pub struct WindowView {
    pub hwnd: isize,
    pub name: Seq<char>,
}

impl View for Window {
    type V = WindowView;

    open spec fn view(&self) -> WindowView {
        WindowView { hwnd: self.hwnd, name: self.name@ }
    }
}

/// A reason to leave a window out.
#[derive(Clone, Copy, Debug, PartialEq, Eq, Structural)]
pub enum FilterRule {
    /// It is the desktop shell's own window.
    ShellWindow,
    /// It is not visible.
    Invisible,
    /// Its root ancestor is another window.
    NotTopLevel,
    /// It carries the disabled style bit.
    Disabled,
    /// The compositor cloaks it on behalf of the shell.
    CloakedByShell,
    /// Its title is empty.
    EmptyTitle,
}

/// What the platform reported about a window, in answer to one rule.
#[derive(Clone, Copy, Debug)]
pub enum Observation<'a> {
    /// The handle of the shell's window.
    ShellWindow(isize),
    /// Whether the window is visible.
    Visible(bool),
    /// The handle of the window's root ancestor.
    RootAncestor(isize),
    /// The window's style bits.
    Style(u32),
    /// The cloak query: whether it succeeded, and the cloak reasons read.
    Cloak { ok: bool, reasons: u32 },
    /// The window's title, in UTF-16 code units.
    Title(&'a [u16]),
}

/// Whether `observation` is the kind of answer that `rule` asks for.
pub open spec fn fits(rule: FilterRule, observation: Observation) -> bool {
    match rule {
        FilterRule::ShellWindow => observation is ShellWindow,
        FilterRule::Invisible => observation is Visible,
        FilterRule::NotTopLevel => observation is RootAncestor,
        FilterRule::Disabled => observation is Style,
        FilterRule::CloakedByShell => observation is Cloak,
        FilterRule::EmptyTitle => observation is Title,
    }
}

/// Whether `rule` leaves out the window `hwnd`, given the platform's answer.
/// Only the cloak reason "by the shell" counts, and only if the query
/// succeeded.
pub open spec fn excludes(rule: FilterRule, hwnd: isize, observation: Observation) -> bool {
    match (rule, observation) {
        (FilterRule::ShellWindow, Observation::ShellWindow(shell)) => shell == hwnd,
        (FilterRule::Invisible, Observation::Visible(visible)) => !visible,
        (FilterRule::NotTopLevel, Observation::RootAncestor(root)) => root != hwnd,
        (FilterRule::Disabled, Observation::Style(style)) => style & WS_DISABLED == WS_DISABLED,
        (FilterRule::CloakedByShell, Observation::Cloak { ok, reasons }) => ok && reasons
            == DWM_CLOAKED_SHELL,
        (FilterRule::EmptyTitle, Observation::Title(units)) => units@.len() == 0,
        _ => false,
    }
}

/// The default policy: the six rules in the order in which they are tried.
pub open spec fn default_rules() -> Seq<FilterRule> {
    seq![
        FilterRule::ShellWindow,
        FilterRule::Invisible,
        FilterRule::NotTopLevel,
        FilterRule::Disabled,
        FilterRule::CloakedByShell,
        FilterRule::EmptyTitle,
    ]
}

/// Whether `observation` answers `rule`.
pub fn observation_fits(rule: FilterRule, observation: &Observation) -> (fit: bool)
    ensures
        fit == fits(rule, *observation),
{
    match (rule, observation) {
        (FilterRule::ShellWindow, Observation::ShellWindow(_)) => true,
        (FilterRule::Invisible, Observation::Visible(_)) => true,
        (FilterRule::NotTopLevel, Observation::RootAncestor(_)) => true,
        (FilterRule::Disabled, Observation::Style(_)) => true,
        (FilterRule::CloakedByShell, Observation::Cloak { .. }) => true,
        (FilterRule::EmptyTitle, Observation::Title(_)) => true,
        _ => false,
    }
}

/// Evaluates one rule against one window.
pub fn rule_excludes(rule: FilterRule, hwnd: isize, observation: &Observation) -> (out: bool)
    ensures
        out == excludes(rule, hwnd, *observation),
{
    match (rule, observation) {
        (FilterRule::ShellWindow, Observation::ShellWindow(shell)) => *shell == hwnd,
        (FilterRule::Invisible, Observation::Visible(visible)) => !*visible,
        (FilterRule::NotTopLevel, Observation::RootAncestor(root)) => *root != hwnd,
        (FilterRule::Disabled, Observation::Style(style)) => *style & WS_DISABLED == WS_DISABLED,
        (FilterRule::CloakedByShell, Observation::Cloak { ok, reasons }) => *ok && *reasons
            == DWM_CLOAKED_SHELL,
        (FilterRule::EmptyTitle, Observation::Title(units)) => units.len() == 0,
        _ => false,
    }
}

/// The default policy.
pub fn default_filter_rules() -> (rules: Vec<FilterRule>)
    ensures
        rules@ == default_rules(),
{
    let mut rules: Vec<FilterRule> = Vec::new();
    rules.push(FilterRule::ShellWindow);
    rules.push(FilterRule::Invisible);
    rules.push(FilterRule::NotTopLevel);
    rules.push(FilterRule::Disabled);
    rules.push(FilterRule::CloakedByShell);
    rules.push(FilterRule::EmptyTitle);
    rules
}

/// Decodes a title with `String::from_utf16_lossy`: the result is what that
/// function makes of the given code units, and depends on nothing else.
#[verifier::external_body]
fn decode_title(units: &[u16]) -> (name: String)
    ensures
        name@ == utf16_lossy(units@),
{
    String::from_utf16_lossy(units)
}

/// The mathematical state of the evaluation of a rule list against one
/// window.
pub struct FilterView {
    pub hwnd: isize,
    pub rules: Seq<FilterRule>,
    /// How many rules were evaluated so far.
    pub asked: nat,
    /// Whether the rule evaluated last left the window out.
    pub excluded: bool,
    /// The window's title, once a title rule has let it pass.
    pub name: Seq<char>,
}

/// The state before any rule was evaluated.
pub open spec fn filter_begin(hwnd: isize, rules: Seq<FilterRule>) -> FilterView {
    FilterView { hwnd: hwnd, rules: rules, asked: 0, excluded: false, name: Seq::empty() }
}

/// The rule to evaluate next: the first one not yet evaluated, unless the
/// window is out already.
pub open spec fn pending_rule(f: FilterView) -> Option<FilterRule> {
    if !f.excluded && f.asked < f.rules.len() {
        Some(f.rules[f.asked as int])
    } else {
        None
    }
}

/// Whether the window has passed every rule.
pub open spec fn accepted(f: FilterView) -> bool {
    !f.excluded && f.asked >= f.rules.len()
}

/// The state after the platform's answer to the pending rule. The rule is
/// counted as evaluated; the window is out if the rule excludes it. An
/// answer that does not fit the pending rule, or that comes when no rule is
/// pending, changes nothing.
pub open spec fn filter_advance(f: FilterView, observation: Observation) -> FilterView {
    match pending_rule(f) {
        Some(rule) => if fits(rule, observation) {
            let out = excludes(rule, f.hwnd, observation);
            FilterView {
                asked: f.asked + 1,
                excluded: out,
                name: match observation {
                    Observation::Title(units) => if out {
                        f.name
                    } else {
                        utf16_lossy(units@)
                    },
                    _ => f.name,
                },
                ..f
            }
        } else {
            f
        },
        None => f,
    }
}

/// The evaluation of a rule list against one window, one rule at a time.
pub struct WindowFilter {
    hwnd: isize,
    rules: Vec<FilterRule>,
    asked: usize,
    excluded: bool,
    name: String,
}

impl View for WindowFilter {
    type V = FilterView;

    closed spec fn view(&self) -> FilterView {
        FilterView {
            hwnd: self.hwnd,
            rules: self.rules@,
            asked: self.asked as nat,
            excluded: self.excluded,
            name: self.name@,
        }
    }
}

impl WindowFilter {
    /// Starts the evaluation of `rules` against the window `hwnd`.
    pub fn begin(hwnd: isize, rules: Vec<FilterRule>) -> (filter: WindowFilter)
        ensures
            filter@ == filter_begin(hwnd, rules@),
    {
        WindowFilter { hwnd: hwnd, rules: rules, asked: 0, excluded: false, name: String::new() }
    }

    /// The rule whose answer is wanted next, or `None` when the evaluation
    /// has ended.
    pub fn next_rule(&self) -> (rule: Option<FilterRule>)
        ensures
            rule == pending_rule(self@),
    {
        if !self.excluded && self.asked < self.rules.len() {
            Some(self.rules[self.asked])
        } else {
            None
        }
    }

    /// The number of rules evaluated so far.
    pub fn asked(&self) -> (asked: usize)
        ensures
            asked == self@.asked,
    {
        self.asked
    }

    /// Whether a rule has left the window out.
    pub fn is_excluded(&self) -> (excluded: bool)
        ensures
            excluded == self@.excluded,
    {
        self.excluded
    }

    /// Whether the window has passed every rule.
    pub fn is_accepted(&self) -> (passed: bool)
        ensures
            passed == accepted(self@),
    {
        !self.excluded && self.asked >= self.rules.len()
    }

    /// Takes in the platform's answer to the pending rule.
    pub fn advance(&mut self, observation: &Observation)
        ensures
            final(self)@ == filter_advance(old(self)@, *observation),
    {
        if !self.excluded && self.asked < self.rules.len() {
            let rule = self.rules[self.asked];
            if observation_fits(rule, observation) {
                let out = rule_excludes(rule, self.hwnd, observation);
                self.asked = self.asked + 1;
                self.excluded = out;
                if !out {
                    if let Observation::Title(units) = observation {
                        self.name = decode_title(units);
                    }
                }
            }
        }
    }

    /// The window, if it has passed every rule.
    pub fn into_window(self) -> (window: Option<Window>)
        ensures
            accepted(self@) ==> window is Some && window->Some_0@ == (WindowView {
                hwnd: self@.hwnd,
                name: self@.name,
            }),
            !accepted(self@) ==> window is None,
    {
        if !self.excluded && self.asked >= self.rules.len() {
            Some(Window { hwnd: self.hwnd, name: self.name })
        } else {
            None
        }
    }
}

/// The state after the answers of `answers` were taken in, in order.
pub open spec fn filter_run(f: FilterView, answers: Seq<Observation>) -> FilterView
    decreases answers.len(),
{
    if answers.len() == 0 {
        f
    } else {
        filter_run(filter_advance(f, answers[0]), answers.drop_first())
    }
}

/// A window that is out stays out, and no further rule is evaluated for it:
/// whatever answers follow, the state does not change and no rule is
/// pending.
pub proof fn lemma_excluded_is_final(f: FilterView, answers: Seq<Observation>)
    requires
        f.excluded,
    ensures
        filter_run(f, answers) == f,
        pending_rule(filter_run(f, answers)) is None,
    decreases answers.len(),
{
    if answers.len() > 0 {
        lemma_excluded_is_final(f, answers.drop_first());
    }
}

/// Evaluation stops at the first rule that excludes the window. For any
/// list of rules: if the window passes the next `k` rules and the one after
/// them excludes it, then exactly `k + 1` more rules are evaluated, however
/// many answers are offered afterwards. The rules behind the excluding one
/// are never evaluated.
pub proof fn lemma_short_circuit(f: FilterView, answers: Seq<Observation>, k: int)
    requires
        !f.excluded,
        0 <= k < answers.len(),
        f.asked + k < f.rules.len(),
        forall|i: int| 0 <= i <= k ==> fits(f.rules[f.asked + i], #[trigger] answers[i]),
        forall|i: int| 0 <= i < k ==> !excludes(f.rules[f.asked + i], f.hwnd, #[trigger] answers[i]),
        excludes(f.rules[f.asked + k], f.hwnd, answers[k]),
    ensures
        filter_run(f, answers).asked == f.asked + k + 1,
        filter_run(f, answers).excluded,
        pending_rule(filter_run(f, answers)) is None,
    decreases k,
{
    let next = filter_advance(f, answers[0]);
    let rest = answers.drop_first();
    assert(fits(f.rules[f.asked as int], answers[0]));
    if k == 0 {
        lemma_excluded_is_final(next, rest);
    } else {
        assert(!excludes(f.rules[f.asked as int], f.hwnd, answers[0]));
        assert forall|i: int| 0 <= i <= k - 1 implies fits(
            next.rules[next.asked + i],
            #[trigger] rest[i],
        ) by {
            assert(rest[i] == answers[i + 1]);
        }
        assert forall|i: int| 0 <= i < k - 1 implies !excludes(
            next.rules[next.asked + i],
            next.hwnd,
            #[trigger] rest[i],
        ) by {
            assert(rest[i] == answers[i + 1]);
        }
        assert(rest[k - 1] == answers[k]);
        lemma_short_circuit(next, rest, k - 1);
    }
}

/// A window is accepted only after every rule was evaluated and none
/// excluded it: with a fitting, passing answer to each remaining rule, all
/// of them are evaluated and the window is accepted.
pub proof fn lemma_all_rules_pass(f: FilterView, answers: Seq<Observation>)
    requires
        !f.excluded,
        f.asked + answers.len() == f.rules.len(),
        forall|i: int| 0 <= i < answers.len() ==> fits(f.rules[f.asked + i], #[trigger] answers[i]),
        forall|i: int|
            0 <= i < answers.len() ==> !excludes(f.rules[f.asked + i], f.hwnd, #[trigger] answers[i]),
    ensures
        filter_run(f, answers).asked == f.rules.len(),
        accepted(filter_run(f, answers)),
    decreases answers.len(),
{
    if answers.len() > 0 {
        let next = filter_advance(f, answers[0]);
        let rest = answers.drop_first();
        assert(fits(f.rules[f.asked as int], answers[0]));
        assert(!excludes(f.rules[f.asked as int], f.hwnd, answers[0]));
        assert forall|i: int| 0 <= i < rest.len() implies fits(
            next.rules[next.asked + i],
            #[trigger] rest[i],
        ) by {
            assert(rest[i] == answers[i + 1]);
        }
        assert forall|i: int| 0 <= i < rest.len() implies !excludes(
            next.rules[next.asked + i],
            next.hwnd,
            #[trigger] rest[i],
        ) by {
            assert(rest[i] == answers[i + 1]);
        }
        lemma_all_rules_pass(next, rest);
    }
}

/// Everything the rules can ask about one window, read at one moment.
#[derive(Debug)]
pub struct WindowSnapshot {
    pub hwnd: isize,
    pub visible: bool,
    /// The handle of the window's root ancestor.
    pub root: isize,
    pub style: u32,
    /// Whether the cloak query succeeded.
    pub cloak_ok: bool,
    pub cloak_reasons: u32,
    /// The title in UTF-16 code units.
    pub title: Vec<u16>,
}

/// The mathematical value of a `WindowSnapshot`.
pub struct SnapshotView {
    pub hwnd: isize,
    pub visible: bool,
    pub root: isize,
    pub style: u32,
    pub cloak_ok: bool,
    pub cloak_reasons: u32,
    pub title: Seq<u16>,
}

impl View for WindowSnapshot {
    type V = SnapshotView;

    open spec fn view(&self) -> SnapshotView {
        SnapshotView {
            hwnd: self.hwnd,
            visible: self.visible,
            root: self.root,
            style: self.style,
            cloak_ok: self.cloak_ok,
            cloak_reasons: self.cloak_reasons,
            title: self.title@,
        }
    }
}

/// Whether `rule` leaves out the window of the snapshot, `shell` being the
/// handle of the shell's window.
pub open spec fn snapshot_excludes(rule: FilterRule, shell: isize, snap: SnapshotView) -> bool {
    match rule {
        FilterRule::ShellWindow => shell == snap.hwnd,
        FilterRule::Invisible => !snap.visible,
        FilterRule::NotTopLevel => snap.root != snap.hwnd,
        FilterRule::Disabled => snap.style & WS_DISABLED == WS_DISABLED,
        FilterRule::CloakedByShell => snap.cloak_ok && snap.cloak_reasons == DWM_CLOAKED_SHELL,
        FilterRule::EmptyTitle => snap.title.len() == 0,
    }
}

/// The number of leading rules of `rules` that let the window pass.
pub open spec fn rules_passed(rules: Seq<FilterRule>, shell: isize, snap: SnapshotView) -> nat
    decreases rules.len(),
{
    if rules.len() == 0 || snapshot_excludes(rules[0], shell, snap) {
        0
    } else {
        1 + rules_passed(rules.drop_first(), shell, snap)
    }
}

/// Whether the window passes every rule of `rules`.
pub open spec fn passes(rules: Seq<FilterRule>, shell: isize, snap: SnapshotView) -> bool {
    rules_passed(rules, shell, snap) == rules.len()
}

/// Whether a title rule is among the first `count` rules.
pub open spec fn title_rule_within(rules: Seq<FilterRule>, count: int) -> bool {
    exists|i: int| 0 <= i < count && i < rules.len() && #[trigger] rules[i] == FilterRule::EmptyTitle
}

/// The state in which the evaluation of `rules` against a snapshot ends:
/// the rules that pass are evaluated, and the first that excludes, and none
/// behind it. The title is read if a title rule let the window pass.
pub open spec fn snapshot_verdict(rules: Seq<FilterRule>, shell: isize, snap: SnapshotView)
    -> FilterView {
    let passed = rules_passed(rules, shell, snap);
    FilterView {
        hwnd: snap.hwnd,
        rules: rules,
        asked: if passed == rules.len() {
            passed
        } else {
            passed + 1
        },
        excluded: passed != rules.len(),
        name: if title_rule_within(rules, passed as int) {
            utf16_lossy(snap.title)
        } else {
            Seq::empty()
        },
    }
}

/// Answers `rule` from a snapshot.
pub fn observe<'a>(shell: isize, snap: &'a WindowSnapshot, rule: FilterRule) -> (answer:
    Observation<'a>)
    ensures
        fits(rule, answer),
        excludes(rule, snap.hwnd, answer) == snapshot_excludes(rule, shell, snap@),
        answer matches Observation::Title(units) ==> units@ == snap@.title,
{
    match rule {
        FilterRule::ShellWindow => Observation::ShellWindow(shell),
        FilterRule::Invisible => Observation::Visible(snap.visible),
        FilterRule::NotTopLevel => Observation::RootAncestor(snap.root),
        FilterRule::Disabled => Observation::Style(snap.style),
        FilterRule::CloakedByShell => Observation::Cloak {
            ok: snap.cloak_ok,
            reasons: snap.cloak_reasons,
        },
        FilterRule::EmptyTitle => Observation::Title(snap.title.as_slice()),
    }
}

/// `rules_passed` counts from the front: if the first `i` rules pass, the
/// count is `i` more than that of the remaining rules.
pub proof fn lemma_rules_passed_from(rules: Seq<FilterRule>, shell: isize, snap: SnapshotView, i: int)
    requires
        0 <= i <= rules.len(),
        forall|j: int| 0 <= j < i ==> !snapshot_excludes(#[trigger] rules[j], shell, snap),
    ensures
        rules_passed(rules, shell, snap) == i + rules_passed(rules.skip(i), shell, snap),
    decreases i,
{
    if i == 0 {
        assert(rules.skip(0) =~= rules);
    } else {
        let rest = rules.drop_first();
        assert(!snapshot_excludes(rules[0], shell, snap));
        assert forall|j: int| 0 <= j < i - 1 implies !snapshot_excludes(
            #[trigger] rest[j],
            shell,
            snap,
        ) by {
            assert(rest[j] == rules[j + 1]);
        }
        lemma_rules_passed_from(rest, shell, snap, i - 1);
        assert(rest.skip(i - 1) =~= rules.skip(i));
    }
}

/// Evaluates `rules` against a snapshot, stopping at the first rule that
/// excludes the window.
pub fn filter_snapshot(shell: isize, snap: &WindowSnapshot, rules: Vec<FilterRule>) -> (filter:
    WindowFilter)
    ensures
        filter@ == snapshot_verdict(rules@, shell, snap@),
{
    let ghost all = rules@;
    let mut filter = WindowFilter::begin(snap.hwnd, rules);
    loop
        invariant
            filter@.hwnd == snap.hwnd,
            filter@.rules == all,
            filter@.asked <= all.len(),
            !filter@.excluded ==> forall|j: int|
                0 <= j < filter@.asked ==> !snapshot_excludes(#[trigger] all[j], shell, snap@),
            filter@.excluded ==> filter@.asked >= 1 && snapshot_excludes(
                all[filter@.asked - 1],
                shell,
                snap@,
            ) && forall|j: int|
                0 <= j < filter@.asked - 1 ==> !snapshot_excludes(#[trigger] all[j], shell, snap@),
            filter@.name == if title_rule_within(
                all,
                if filter@.excluded {
                    filter@.asked - 1
                } else {
                    filter@.asked as int
                },
            ) {
                utf16_lossy(snap@.title)
            } else {
                Seq::empty()
            },
        ensures
            pending_rule(filter@) is None,
        decreases all.len() - filter@.asked, if filter@.excluded { 0int } else { 1int },
    {
        match filter.next_rule() {
            None => {
                break ;
            },
            Some(rule) => {
                let ghost before = filter@;
                let answer = observe(shell, snap, rule);
                filter.advance(&answer);
                proof {
                    let k = before.asked as int;
                    assert(all[k] == rule);
                    if filter@.excluded {
                        assert(title_rule_within(all, k) == title_rule_within(all, filter@.asked - 1));
                    } else {
                        if rule == FilterRule::EmptyTitle {
                            assert(title_rule_within(all, k + 1));
                        } else {
                            if title_rule_within(all, k + 1) {
                                let i = choose|i: int|
                                    0 <= i < k + 1 && i < all.len() && #[trigger] all[i]
                                        == FilterRule::EmptyTitle;
                                assert(i < k);
                                assert(title_rule_within(all, k));
                            }
                        }
                    }
                }
            },
        }
    }
    proof {
        let passed: int = if filter@.excluded {
            filter@.asked - 1
        } else {
            filter@.asked as int
        };
        lemma_rules_passed_from(all, shell, snap@, passed);
        let rest = all.skip(passed);
        if filter@.excluded {
            assert(rest[0] == all[passed]);
        } else {
            assert(rest.len() == 0);
        }
        assert(rules_passed(rest, shell, snap@) == 0);
    }
    filter
}

/// The window that an accepted snapshot becomes.
pub open spec fn window_of(snap: SnapshotView) -> WindowView {
    WindowView { hwnd: snap.hwnd, name: utf16_lossy(snap.title) }
}

/// The windows of `snaps` that pass the default policy, in the order of
/// `snaps`.
pub open spec fn survivors(shell: isize, snaps: Seq<WindowSnapshot>) -> Seq<WindowView>
    decreases snaps.len(),
{
    if snaps.len() == 0 {
        Seq::empty()
    } else {
        let earlier = survivors(shell, snaps.drop_last());
        if passes(default_rules(), shell, snaps.last()@) {
            earlier.push(window_of(snaps.last()@))
        } else {
            earlier
        }
    }
}

/// The mathematical values of a sequence of windows.
pub open spec fn window_views(windows: Seq<Window>) -> Seq<WindowView> {
    Seq::new(windows.len(), |i: int| windows[i]@)
}

/// The default policy spelled out: a window passes if it is not the shell's
/// window, is visible, is its own root ancestor, is not disabled, is not
/// cloaked by the shell and has a title.
pub proof fn lemma_default_policy(shell: isize, snap: SnapshotView)
    ensures
        passes(default_rules(), shell, snap) <==> {
            &&& shell != snap.hwnd
            &&& snap.visible
            &&& snap.root == snap.hwnd
            &&& snap.style & WS_DISABLED != WS_DISABLED
            &&& !(snap.cloak_ok && snap.cloak_reasons == DWM_CLOAKED_SHELL)
            &&& snap.title.len() > 0
        },
{
    let r0 = default_rules();
    let r1 = r0.drop_first();
    let r2 = r1.drop_first();
    let r3 = r2.drop_first();
    let r4 = r3.drop_first();
    let r5 = r4.drop_first();
    let r6 = r5.drop_first();
    assert(r6.len() == 0);
    assert(rules_passed(r6, shell, snap) == 0);
    assert(r5[0] == FilterRule::EmptyTitle);
    assert(r4[0] == FilterRule::CloakedByShell);
    assert(r3[0] == FilterRule::Disabled);
    assert(r2[0] == FilterRule::NotTopLevel);
    assert(r1[0] == FilterRule::Invisible);
    assert(r0[0] == FilterRule::ShellWindow);
    assert(rules_passed(r5, shell, snap) <= 1);
    assert(rules_passed(r4, shell, snap) <= 2);
    assert(rules_passed(r3, shell, snap) <= 3);
    assert(rules_passed(r2, shell, snap) <= 4);
    assert(rules_passed(r1, shell, snap) <= 5);
}

/// The namespace of window enumeration.
#[derive(Debug)]
pub struct Windows;

impl Windows {
    /// Filters the candidate windows by the default policy, keeping the
    /// order in which they were enumerated. Each survivor carries its handle
    /// and its decoded title.
    pub fn enumerate(shell: isize, candidates: &Vec<WindowSnapshot>) -> (windows: Vec<Window>)
        ensures
            window_views(windows@) == survivors(shell, candidates@),
    {
        let mut windows: Vec<Window> = Vec::new();
        let mut i: usize = 0;
        while i < candidates.len()
            invariant
                i <= candidates.len(),
                window_views(windows@) == survivors(shell, candidates@.take(i as int)),
            decreases candidates.len() - i,
        {
            let filter = filter_snapshot(shell, &candidates[i], default_filter_rules());
            let ghost kept = windows@;
            proof {
                assert(candidates@.take(i + 1).drop_last() =~= candidates@.take(i as int));
                assert(candidates@.take(i + 1).last() == candidates@[i as int]);
                if accepted(filter@) {
                    assert(default_rules()[5] == FilterRule::EmptyTitle);
                    assert(title_rule_within(default_rules(), 6));
                }
            }
            match filter.into_window() {
                Some(window) => {
                    windows.push(window);
                    proof {
                        assert(window_views(windows@) =~= window_views(kept).push(window@));
                    }
                },
                None => {},
            }
            i = i + 1;
        }
        proof {
            assert(candidates@.take(candidates.len() as int) =~= candidates@);
        }
        windows
    }
}

/// Which of the extended style bits of interest a window carries.
#[derive(Clone, Copy, Debug, PartialEq, Eq, Structural)]
pub struct ExStyleFlags {
    pub transparent: bool,
    pub tool_window: bool,
    pub no_activate: bool,
}

/// Tells which of the three extended style bits are set in `styles`.
pub fn get_styles_ex(styles: u32) -> (flags: ExStyleFlags)
    ensures
        flags.transparent == (styles & WS_EX_TRANSPARENT == WS_EX_TRANSPARENT),
        flags.tool_window == (styles & WS_EX_TOOLWINDOW == WS_EX_TOOLWINDOW),
        flags.no_activate == (styles & WS_EX_NOACTIVATE == WS_EX_NOACTIVATE),
{
    ExStyleFlags {
        transparent: styles & WS_EX_TRANSPARENT == WS_EX_TRANSPARENT,
        tool_window: styles & WS_EX_TOOLWINDOW == WS_EX_TOOLWINDOW,
        no_activate: styles & WS_EX_NOACTIVATE == WS_EX_NOACTIVATE,
    }
}

/// Compares with `str::starts_with`: whether the characters of `prefix` are
/// the first characters of `name`.
#[verifier::external_body]
fn name_starts_with(name: &str, prefix: &str) -> (starts: bool)
    ensures
        starts == prefix@.is_prefix_of(name@),
{
    name.starts_with(prefix)
}

/// Picks the window to capture and returns its position in `windows`.
///
/// Without a prefix the pick is the first window. With a prefix it is the
/// first window whose name starts with the prefix, and the first window if
/// no name does. There is no pick only if there is no window.
pub fn select_index(windows: &Vec<Window>, name_prefix: Option<&str>) -> (pick: Option<usize>)
    ensures
        pick is None <==> windows.len() == 0,
        pick matches Some(i) ==> i < windows.len() && match name_prefix {
            None => i == 0,
            Some(prefix) => {
                ||| prefix@.is_prefix_of(windows[i as int]@.name) && forall|j: int|
                    0 <= j < i ==> !prefix@.is_prefix_of(#[trigger] windows[j]@.name)
                ||| i == 0 && forall|j: int|
                    0 <= j < windows.len() ==> !prefix@.is_prefix_of(#[trigger] windows[j]@.name)
            },
        },
{
    if windows.len() == 0 {
        return None;
    }
    match name_prefix {
        None => Some(0),
        Some(prefix) => {
            let mut i: usize = 0;
            while i < windows.len()
                invariant
                    i <= windows.len(),
                    name_prefix == Some(prefix),
                    forall|j: int| 0 <= j < i ==> !prefix@.is_prefix_of(#[trigger] windows[j]@.name),
                decreases windows.len() - i,
            {
                if name_starts_with(windows[i].name.as_str(), prefix) {
                    return Some(i);
                }
                i = i + 1;
            }
            Some(0)
        },
    }
}

/// Picks the window to capture, as `select_index` does, and returns it as a
/// capture source.
pub fn select(windows: &Vec<Window>, name_prefix: Option<&str>) -> (source: Option<CaptureSource>)
    ensures
        source is None <==> windows.len() == 0,
        source matches Some(chosen) ==> exists|i: int|
            0 <= i < windows.len() && chosen == CaptureSource::Window(#[trigger] windows[i].hwnd)
                && match name_prefix {
                None => i == 0,
                Some(prefix) => {
                    ||| prefix@.is_prefix_of(windows[i]@.name) && forall|j: int|
                        0 <= j < i ==> !prefix@.is_prefix_of(#[trigger] windows[j]@.name)
                    ||| i == 0 && forall|j: int|
                        0 <= j < windows.len() ==> !prefix@.is_prefix_of(
                            #[trigger] windows[j]@.name,
                        )
                },
            },
{
    match select_index(windows, name_prefix) {
        Some(i) => Some(CaptureSource::Window(windows[i].hwnd)),
        None => None,
    }
}

} // verus!
