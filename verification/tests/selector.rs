use wincapture::screen_enum::{select_screen, Screen, Screens};
use wincapture::setup::CaptureSource;
use wincapture::window_enum::{
    default_filter_rules, filter_snapshot, get_styles_ex, observation_fits, observe, rule_excludes,
    select, select_index, ExStyleFlags, FilterRule, Observation, Window, WindowFilter,
    WindowSnapshot, Windows, DWM_CLOAKED_SHELL, WS_DISABLED, WS_EX_NOACTIVATE, WS_EX_TOOLWINDOW,
    WS_EX_TRANSPARENT,
};

const SHELL: isize = 0x10;

fn units(text: &str) -> Vec<u16> {
    text.encode_utf16().collect()
}

fn good(hwnd: isize, title: &str) -> WindowSnapshot {
    WindowSnapshot {
        hwnd,
        visible: true,
        root: hwnd,
        style: 0x1000_0000,
        cloak_ok: true,
        cloak_reasons: 0,
        title: units(title),
    }
}

fn window(hwnd: isize, name: &str) -> Window {
    Window { hwnd, name: name.to_string() }
}

#[test]
fn constants_have_the_platform_values() {
    assert_eq!(WS_DISABLED, 134217728);
    assert_eq!(DWM_CLOAKED_SHELL, 2);
    assert_eq!(WS_EX_TRANSPARENT, 32);
    assert_eq!(WS_EX_TOOLWINDOW, 128);
    assert_eq!(WS_EX_NOACTIVATE, 134217728);
}

#[test]
fn default_rules_are_the_six_in_order() {
    assert_eq!(
        default_filter_rules(),
        vec![
            FilterRule::ShellWindow,
            FilterRule::Invisible,
            FilterRule::NotTopLevel,
            FilterRule::Disabled,
            FilterRule::CloakedByShell,
            FilterRule::EmptyTitle,
        ]
    );
}

#[test]
fn a_good_window_passes_after_six_rules() {
    let snap = good(0x20, "notes");
    let filter = filter_snapshot(SHELL, &snap, default_filter_rules());
    assert_eq!(filter.asked(), 6);
    assert!(filter.is_accepted());
    assert!(!filter.is_excluded());
    let window = filter.into_window().unwrap();
    assert_eq!(window.hwnd, 0x20);
    assert_eq!(window.name, "notes");
}

#[test]
fn shell_window_is_out_after_one_rule() {
    let snap = good(SHELL, "Program Manager");
    let filter = filter_snapshot(SHELL, &snap, default_filter_rules());
    assert_eq!(filter.asked(), 1);
    assert!(filter.is_excluded());
    assert!(filter.next_rule().is_none());
    assert!(filter.into_window().is_none());
}

#[test]
fn invisible_window_is_out_after_two_rules() {
    let mut snap = good(0x20, "hidden");
    snap.visible = false;
    let filter = filter_snapshot(SHELL, &snap, default_filter_rules());
    assert_eq!(filter.asked(), 2);
    assert!(filter.is_excluded());
}

#[test]
fn child_window_is_out_after_three_rules() {
    let mut snap = good(0x20, "child");
    snap.root = 0x21;
    let filter = filter_snapshot(SHELL, &snap, default_filter_rules());
    assert_eq!(filter.asked(), 3);
    assert!(filter.is_excluded());
}

#[test]
fn disabled_window_is_out_after_four_rules() {
    let mut snap = good(0x20, "disabled");
    snap.style = 0x1800_0000;
    let filter = filter_snapshot(SHELL, &snap, default_filter_rules());
    assert_eq!(filter.asked(), 4);
    assert!(filter.is_excluded());
}

#[test]
fn shell_cloaked_window_is_out_after_five_rules() {
    let mut snap = good(0x20, "cloaked");
    snap.cloak_reasons = 2;
    let filter = filter_snapshot(SHELL, &snap, default_filter_rules());
    assert_eq!(filter.asked(), 5);
    assert!(filter.is_excluded());
}

#[test]
fn other_cloak_reasons_do_not_exclude() {
    let mut by_app = good(0x20, "app cloak");
    by_app.cloak_reasons = 1;
    let mut inherited = good(0x21, "inherited cloak");
    inherited.cloak_reasons = 4;
    let mut mixed = good(0x22, "shell and app");
    mixed.cloak_reasons = 3;
    for snap in [by_app, inherited, mixed] {
        let filter = filter_snapshot(SHELL, &snap, default_filter_rules());
        assert!(filter.is_accepted());
        assert_eq!(filter.asked(), 6);
    }
}

#[test]
fn failed_cloak_query_does_not_exclude() {
    let mut snap = good(0x20, "no dwm");
    snap.cloak_ok = false;
    snap.cloak_reasons = 2;
    let filter = filter_snapshot(SHELL, &snap, default_filter_rules());
    assert!(filter.is_accepted());
}

#[test]
fn untitled_window_is_out_after_six_rules() {
    let snap = good(0x20, "");
    let filter = filter_snapshot(SHELL, &snap, default_filter_rules());
    assert_eq!(filter.asked(), 6);
    assert!(filter.is_excluded());
    assert!(filter.into_window().is_none());
}

#[test]
fn first_failing_rule_wins_when_several_fail() {
    let mut snap = good(0x20, "");
    snap.visible = false;
    snap.style = WS_DISABLED;
    let filter = filter_snapshot(SHELL, &snap, default_filter_rules());
    assert_eq!(filter.asked(), 2);
    assert!(filter.is_excluded());
}

#[test]
fn short_circuit_holds_for_other_rule_orders() {
    let mut snap = good(0x20, "");
    snap.visible = false;
    let rules = vec![FilterRule::Disabled, FilterRule::EmptyTitle, FilterRule::Invisible];
    let filter = filter_snapshot(SHELL, &snap, rules);
    assert_eq!(filter.asked(), 2);
    assert!(filter.is_excluded());

    let rules = vec![FilterRule::Invisible, FilterRule::EmptyTitle, FilterRule::Disabled];
    let filter = filter_snapshot(SHELL, &snap, rules);
    assert_eq!(filter.asked(), 1);

    let filter = filter_snapshot(SHELL, &snap, Vec::new());
    assert_eq!(filter.asked(), 0);
    assert!(filter.is_accepted());
}

#[test]
fn stepwise_filter_asks_rules_in_order_and_stops() {
    let mut filter = WindowFilter::begin(0x20, default_filter_rules());
    assert_eq!(filter.next_rule(), Some(FilterRule::ShellWindow));
    filter.advance(&Observation::ShellWindow(SHELL));
    assert_eq!(filter.next_rule(), Some(FilterRule::Invisible));
    filter.advance(&Observation::Visible(true));
    assert_eq!(filter.next_rule(), Some(FilterRule::NotTopLevel));
    filter.advance(&Observation::RootAncestor(0x99));
    assert!(filter.is_excluded());
    assert_eq!(filter.asked(), 3);
    assert_eq!(filter.next_rule(), None);
    filter.advance(&Observation::Style(0));
    filter.advance(&Observation::Title(&units("late")));
    assert_eq!(filter.asked(), 3);
    assert!(filter.is_excluded());
    assert!(filter.into_window().is_none());
}

#[test]
fn stepwise_filter_ignores_an_answer_of_the_wrong_kind() {
    let mut filter = WindowFilter::begin(0x20, default_filter_rules());
    filter.advance(&Observation::Visible(false));
    assert_eq!(filter.asked(), 0);
    assert!(!filter.is_excluded());
    assert_eq!(filter.next_rule(), Some(FilterRule::ShellWindow));
}

#[test]
fn stepwise_filter_accepts_and_decodes_the_title() {
    let mut filter = WindowFilter::begin(0x20, default_filter_rules());
    filter.advance(&Observation::ShellWindow(SHELL));
    filter.advance(&Observation::Visible(true));
    filter.advance(&Observation::RootAncestor(0x20));
    filter.advance(&Observation::Style(0));
    filter.advance(&Observation::Cloak { ok: false, reasons: 0 });
    assert!(!filter.is_accepted());
    let title = units("Zeichnen \u{2013} Ma\u{df}stab");
    filter.advance(&Observation::Title(&title));
    assert!(filter.is_accepted());
    assert_eq!(filter.asked(), 6);
    let window = filter.into_window().unwrap();
    assert_eq!(window.name, "Zeichnen \u{2013} Ma\u{df}stab");
}

#[test]
fn title_with_a_lone_surrogate_is_decoded_lossily() {
    let mut snap = good(0x20, "ab");
    snap.title = vec![0x0061, 0xD800, 0x0062];
    let window = filter_snapshot(SHELL, &snap, default_filter_rules()).into_window().unwrap();
    assert_eq!(window.name, "a\u{fffd}b");
}

#[test]
fn rule_excludes_by_rule() {
    assert!(rule_excludes(FilterRule::ShellWindow, 5, &Observation::ShellWindow(5)));
    assert!(!rule_excludes(FilterRule::ShellWindow, 5, &Observation::ShellWindow(6)));
    assert!(rule_excludes(FilterRule::Invisible, 5, &Observation::Visible(false)));
    assert!(!rule_excludes(FilterRule::Invisible, 5, &Observation::Visible(true)));
    assert!(rule_excludes(FilterRule::NotTopLevel, 5, &Observation::RootAncestor(4)));
    assert!(!rule_excludes(FilterRule::NotTopLevel, 5, &Observation::RootAncestor(5)));
    assert!(rule_excludes(FilterRule::Disabled, 5, &Observation::Style(0x0800_0000)));
    assert!(rule_excludes(FilterRule::Disabled, 5, &Observation::Style(0xFFFF_FFFF)));
    assert!(!rule_excludes(FilterRule::Disabled, 5, &Observation::Style(0xF7FF_FFFF)));
    assert!(rule_excludes(FilterRule::CloakedByShell, 5, &Observation::Cloak { ok: true, reasons: 2 }));
    assert!(!rule_excludes(FilterRule::CloakedByShell, 5, &Observation::Cloak { ok: false, reasons: 2 }));
    assert!(!rule_excludes(FilterRule::CloakedByShell, 5, &Observation::Cloak { ok: true, reasons: 1 }));
    assert!(rule_excludes(FilterRule::EmptyTitle, 5, &Observation::Title(&[])));
    assert!(!rule_excludes(FilterRule::EmptyTitle, 5, &Observation::Title(&[0x41])));
    assert!(!rule_excludes(FilterRule::EmptyTitle, 5, &Observation::Visible(false)));
}

#[test]
fn observation_fits_its_own_rule_only() {
    assert!(observation_fits(FilterRule::Disabled, &Observation::Style(0)));
    assert!(!observation_fits(FilterRule::Disabled, &Observation::Visible(true)));
    assert!(observation_fits(FilterRule::EmptyTitle, &Observation::Title(&[])));
    assert!(!observation_fits(FilterRule::ShellWindow, &Observation::RootAncestor(1)));
}

#[test]
fn observe_answers_from_the_snapshot() {
    let snap = good(0x20, "A");
    assert!(matches!(observe(SHELL, &snap, FilterRule::ShellWindow), Observation::ShellWindow(SHELL)));
    assert!(matches!(observe(SHELL, &snap, FilterRule::Invisible), Observation::Visible(true)));
    assert!(matches!(observe(SHELL, &snap, FilterRule::NotTopLevel), Observation::RootAncestor(0x20)));
    assert!(matches!(observe(SHELL, &snap, FilterRule::Disabled), Observation::Style(0x1000_0000)));
    assert!(matches!(
        observe(SHELL, &snap, FilterRule::CloakedByShell),
        Observation::Cloak { ok: true, reasons: 0 }
    ));
    match observe(SHELL, &snap, FilterRule::EmptyTitle) {
        Observation::Title(t) => assert_eq!(t, &[0x41u16][..]),
        _ => panic!("title expected"),
    }
}

#[test]
fn enumerate_keeps_survivors_in_order() {
    let mut hidden = good(0x30, "hidden");
    hidden.visible = false;
    let candidates = vec![good(SHELL, "shell"), good(0x20, "first"), hidden, good(0x40, "second")];
    let windows = Windows::enumerate(SHELL, &candidates);
    assert_eq!(windows.len(), 2);
    assert_eq!(windows[0].hwnd, 0x20);
    assert_eq!(windows[0].name, "first");
    assert_eq!(windows[1].hwnd, 0x40);
    assert_eq!(windows[1].name, "second");
}

#[test]
fn enumerate_of_nothing_is_empty() {
    assert!(Windows::enumerate(SHELL, &Vec::new()).is_empty());
    assert!(Windows::enumerate(SHELL, &vec![good(SHELL, "shell")]).is_empty());
}

#[test]
fn three_sources_only_the_second_passes() {
    let mut first = good(0x20, "first");
    first.style = WS_DISABLED;
    let second = good(0x21, "second");
    let third = good(0x22, "");
    let windows = Windows::enumerate(SHELL, &vec![first, second, third]);
    assert_eq!(windows.len(), 1);
    assert_eq!(select(&windows, None), Some(CaptureSource::Window(0x21)));
}

#[test]
fn select_without_prefix_takes_the_first() {
    let windows = vec![window(1, "alpha"), window(2, "notes"), window(3, "notes 2")];
    assert_eq!(select_index(&windows, None), Some(0));
    assert_eq!(select(&windows, None), Some(CaptureSource::Window(1)));
}

#[test]
fn select_with_prefix_takes_the_first_match() {
    let windows = vec![window(1, "alpha"), window(2, "notes"), window(3, "notes 2")];
    assert_eq!(select_index(&windows, Some("notes")), Some(1));
    assert_eq!(select(&windows, Some("notes")), Some(CaptureSource::Window(2)));
    assert_eq!(select_index(&windows, Some("notes ")), Some(2));
    assert_eq!(select_index(&windows, Some("")), Some(0));
}

#[test]
fn select_matches_prefixes_not_substrings() {
    let windows = vec![window(1, "my notes"), window(2, "note"), window(3, "notes")];
    assert_eq!(select_index(&windows, Some("notes")), Some(2));
    assert_eq!(select_index(&windows, Some("no")), Some(1));
}

#[test]
fn select_falls_back_to_the_first_without_a_match() {
    let windows = vec![window(1, "alpha"), window(2, "beta")];
    assert_eq!(select_index(&windows, Some("notes")), Some(0));
    assert_eq!(select(&windows, Some("notes")), Some(CaptureSource::Window(1)));
}

#[test]
fn select_among_none_is_none() {
    let windows: Vec<Window> = Vec::new();
    assert_eq!(select_index(&windows, None), None);
    assert_eq!(select(&windows, Some("notes")), None);
}

#[test]
fn styles_ex_reports_each_bit() {
    assert_eq!(
        get_styles_ex(0),
        ExStyleFlags { transparent: false, tool_window: false, no_activate: false }
    );
    assert_eq!(
        get_styles_ex(0x20),
        ExStyleFlags { transparent: true, tool_window: false, no_activate: false }
    );
    assert_eq!(
        get_styles_ex(0x80),
        ExStyleFlags { transparent: false, tool_window: true, no_activate: false }
    );
    assert_eq!(
        get_styles_ex(0x0800_0000),
        ExStyleFlags { transparent: false, tool_window: false, no_activate: true }
    );
    assert_eq!(
        get_styles_ex(0x0800_00A0 | 0x0004_0000),
        ExStyleFlags { transparent: true, tool_window: true, no_activate: true }
    );
}

#[test]
fn screens_keep_every_monitor_in_order() {
    let screens = Screens::enumerate(&vec![7, 3, 9]);
    assert_eq!(screens, vec![Screen { hmonitor: 7 }, Screen { hmonitor: 3 }, Screen { hmonitor: 9 }]);
    assert!(Screens::enumerate(&Vec::new()).is_empty());
}

#[test]
fn select_screen_takes_the_first_monitor() {
    let screens = Screens::enumerate(&vec![7, 3]);
    assert_eq!(select_screen(&screens), Some(CaptureSource::Monitor(7)));
    assert_eq!(select_screen(&Vec::new()), None);
}
