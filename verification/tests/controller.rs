use dashboard::controller::{
    Action, App, Failure, Setup, AXIS_WIDTH, PROGRESS_FULL, SIN1_STEP, SIN1_WINDOW, SIN2_STEP,
    SIN2_WINDOW, SPARKLINE_STEP, SPARKLINE_WINDOW, TASK_FILE,
};
use dashboard::signal::SampleSource;

struct Ramp {
    next: u64,
    stride: u64,
}

impl SampleSource for Ramp {
    type Item = u64;

    fn next_sample(&mut self) -> u64 {
        let value = self.next;
        self.next += self.stride;
        value
    }
}

fn names(items: &[&str]) -> Vec<String> {
    items.iter().map(|s| s.to_string()).collect()
}

fn app_with(entries: &[&str]) -> App<Ramp, Ramp> {
    let setup = Setup {
        tabs: names(&["Tab0", "Tab1", "Tab2"]),
        entries: names(entries),
        logs: vec![
            ("Event1".to_string(), "INFO".to_string()),
            ("Event2".to_string(), "ERROR".to_string()),
            ("Event3".to_string(), "CRITICAL".to_string()),
        ],
        barchart: vec![("B1".to_string(), 9), ("B2".to_string(), 12), ("B3".to_string(), 5)],
        sparkline_source: Ramp { next: 0, stride: 1 },
        sin1_source: Ramp { next: 0, stride: 2 },
        sin2_source: Ramp { next: 0, stride: 3 },
    };
    App::new("Demo".to_string(), true, setup)
}

fn shown(app: &App<Ramp, Ramp>) -> Vec<String> {
    app.folders.items().iter().map(|t| t.display_name()).collect()
}

fn paths(app: &App<Ramp, Ramp>) -> Vec<String> {
    app.folders.items().iter().map(|t| t.folder_name.clone()).collect()
}

#[test]
fn new_app_starts_running_with_filled_windows() {
    let app = app_with(&["/a/b"]);
    assert_eq!(app.title, "Demo");
    assert!(app.enhanced_graphics);
    assert!(!app.should_quit);
    assert!(!app.show_chart);
    assert_eq!(app.progress, 0);
    assert_eq!(app.last_failure, None);
    assert_eq!(app.tabs.index(), 0);
    assert_eq!(app.tabs.titles(), &names(&["Tab0", "Tab1", "Tab2"]));
    assert_eq!(paths(&app), names(&["/a/b"]));
    assert_eq!(app.folders.selected(), None);
    assert_eq!(app.logs.items().len(), 3);
    assert_eq!(app.logs.selected(), None);
    assert_eq!(app.barchart.len(), 3);
    assert_eq!(app.sparkline.points().len(), SPARKLINE_WINDOW);
    assert_eq!(app.sparkline.tick_rate(), SPARKLINE_STEP);
    assert_eq!(app.signals.sin1.points().len(), SIN1_WINDOW);
    assert_eq!(app.signals.sin1.tick_rate(), SIN1_STEP);
    assert_eq!(app.signals.sin2.points().len(), SIN2_WINDOW);
    assert_eq!(app.signals.sin2.tick_rate(), SIN2_STEP);
    assert_eq!(app.signals.window, (0, AXIS_WIDTH));
    assert_eq!((SPARKLINE_WINDOW, SIN1_WINDOW, SIN2_WINDOW), (300, 100, 200));
    assert_eq!((SPARKLINE_STEP, SIN1_STEP, SIN2_STEP), (1, 5, 10));
    assert_eq!(AXIS_WIDTH, 20);
    assert_eq!(TASK_FILE, "task.txt");
}

#[test]
fn tick_advances_gauge_signals_axis_and_rings() {
    let mut app = app_with(&["/a/b"]);
    app.on_tick();
    assert_eq!(app.progress, 1);
    assert_eq!(app.signals.window, (1, 21));
    assert_eq!(app.sparkline.points().len(), 300);
    assert_eq!(app.sparkline.points()[0], 1);
    assert_eq!(app.sparkline.points()[299], 300);
    assert_eq!(app.signals.sin1.points()[0], 10);
    assert_eq!(app.signals.sin1.points()[99], 208);
    assert_eq!(app.signals.sin2.points()[0], 30);
    assert_eq!(app.signals.sin2.points()[199], 627);
    let logs: Vec<&str> = app.logs.items().iter().map(|l| l.0.as_str()).collect();
    assert_eq!(logs, vec!["Event3", "Event1", "Event2"]);
    let bars: Vec<(&str, u64)> = app.barchart.iter().map(|b| (b.0.as_str(), b.1)).collect();
    assert_eq!(bars, vec![("B3", 5), ("B1", 9), ("B2", 12)]);
    assert_eq!(paths(&app), names(&["/a/b"]));
}

#[test]
fn gauge_wraps_after_the_full_mark() {
    let mut app = app_with(&[]);
    app.progress = PROGRESS_FULL - 1;
    app.on_tick();
    assert_eq!(app.progress, 1000);
    app.on_tick();
    assert_eq!(app.progress, 0);
    app.on_tick();
    assert_eq!(app.progress, 1);
}

#[test]
fn three_ticks_restore_three_element_rings() {
    let mut app = app_with(&[]);
    let logs = app.logs.items().clone();
    let bars = app.barchart.clone();
    for _ in 0..3 {
        app.on_tick();
    }
    assert_eq!(app.logs.items(), &logs);
    assert_eq!(app.barchart, bars);
    assert_eq!(app.signals.window, (3, 23));
}

#[test]
fn direction_keys_move_cursor_and_tabs() {
    let mut app = app_with(&["/a/b", "/a/c", "/a/d"]);
    assert_eq!(app.on_key('j', (0, 0)), Action::Idle);
    assert_eq!(app.folders.selected(), Some(1));
    assert_eq!(app.on_key('k', (0, 0)), Action::Idle);
    assert_eq!(app.folders.selected(), Some(0));
    assert_eq!(app.on_key('k', (0, 0)), Action::Idle);
    assert_eq!(app.folders.selected(), Some(2));
    app.on_down();
    assert_eq!(app.folders.selected(), Some(0));
    app.on_up();
    assert_eq!(app.folders.selected(), Some(2));
    app.on_right();
    assert_eq!(app.tabs.index(), 1);
    app.on_left();
    app.on_left();
    assert_eq!(app.tabs.index(), 2);
}

#[test]
fn toggle_key_flips_the_chart_flag() {
    let mut app = app_with(&[]);
    assert_eq!(app.on_key('t', (0, 0)), Action::Idle);
    assert!(app.show_chart);
    assert_eq!(app.on_key('t', (0, 0)), Action::Idle);
    assert!(!app.show_chart);
}

#[test]
fn unknown_keys_do_nothing() {
    let mut app = app_with(&["/a/b"]);
    for key in ['x', ' ', 'Q', 'J', '\n', '９'] {
        assert_eq!(app.on_key(key, (3, 4)), Action::Idle);
    }
    assert_eq!(app.folders.selected(), None);
    assert!(!app.should_quit);
    assert!(!app.show_chart);
    assert_eq!(app.tabs.index(), 0);
    app.add_task();
    assert_eq!(paths(&app), names(&["/a/b"]));
}

#[test]
fn digit_keys_ask_for_their_bookmark() {
    let mut app = app_with(&[]);
    assert_eq!(app.on_key('1', (0, 0)), Action::Probe("C:\\Users\\ryota-kita".to_string()));
    assert_eq!(
        app.on_key('2', (0, 0)),
        Action::Probe("C:\\Users\\ryota-kita\\Documents\\working".to_string())
    );
    assert_eq!(app.on_key('3', (0, 0)), Action::Probe("E:\\SRC".to_string()));
    assert_eq!(app.on_key('4', (0, 0)), Action::Probe("Z:\\".to_string()));
    assert_eq!(app.on_key('5', (0, 0)), Action::Probe("E:\\機能設計書".to_string()));
    for key in ['0', '6', '7', '8', '9'] {
        assert_eq!(app.on_key(key, (0, 0)), Action::Probe("E:".to_string()));
    }
    assert_eq!(app.get_path_of_number(3), "E:\\SRC");
    assert_eq!(app.get_path_of_number(77), "E:");
}

#[test]
fn enter_without_selection_asks_for_nothing() {
    let mut app = app_with(&["/a/b"]);
    assert_eq!(app.on_enter_dir(), Action::Idle);
    assert_eq!(app.on_key('l', (0, 0)), Action::Idle);
    assert_eq!(app.on_key('c', (0, 0)), Action::Idle);
    assert_eq!(app.on_back_dir(), Action::Idle);
}

#[test]
fn probe_answer_decides_between_list_and_launch() {
    let app = app_with(&[]);
    assert_eq!(app.on_probed("/a/b".to_string(), true), Action::List("/a/b".to_string()));
    assert_eq!(app.on_probed("/a/f".to_string(), false), Action::Launch("/a/f".to_string()));
}

#[test]
fn back_from_deep_entry_lists_the_grandparent() {
    let mut app = app_with(&["/a/b/c.txt", "/a/b/d.txt"]);
    app.on_down();
    assert_eq!(app.folders.selected(), Some(1));
    assert_eq!(app.on_key('h', (0, 0)), Action::List("/a".to_string()));
    assert_eq!(paths(&app), names(&["/a/b/c.txt", "/a/b/d.txt"]));
    app.on_listed(Ok(names(&["/a/b"])));
    assert_eq!(paths(&app), names(&["/a/b"]));
    assert_eq!(app.folders.selected(), None);
}

#[test]
fn back_from_shallow_entry_changes_nothing() {
    let mut app = app_with(&["/a"]);
    app.on_up();
    assert_eq!(app.folders.selected(), Some(0));
    assert_eq!(app.on_key('h', (0, 0)), Action::Idle);
    assert_eq!(app.on_back_dir(), Action::Idle);
    assert_eq!(paths(&app), names(&["/a"]));
    assert_eq!(app.folders.selected(), Some(0));
    assert_eq!(app.last_failure, None);
}

#[test]
fn browsing_down_and_back_up() {
    let mut app = app_with(&["/a/b"]);
    assert_eq!(shown(&app), names(&["b"]));

    app.on_up();
    assert_eq!(app.on_key('l', (0, 0)), Action::Probe("/a/b".to_string()));
    assert_eq!(app.on_probed("/a/b".to_string(), true), Action::List("/a/b".to_string()));
    app.on_listed(Ok(names(&["/a/b/c.txt"])));
    assert_eq!(shown(&app), names(&["c.txt"]));
    assert_eq!(app.folders.selected(), None);

    app.on_down();
    assert_eq!(app.folders.selected(), Some(0));
    assert_eq!(app.on_key('c', (0, 0)), Action::Probe("/a/b/c.txt".to_string()));
    assert_eq!(
        app.on_probed("/a/b/c.txt".to_string(), false),
        Action::Launch("/a/b/c.txt".to_string())
    );
    app.on_launched(Ok(()));
    assert_eq!(paths(&app), names(&["/a/b/c.txt"]));
    assert_eq!(app.folders.selected(), Some(0));
    assert_eq!(app.last_failure, None);

    assert_eq!(app.on_key('h', (0, 0)), Action::List("/a".to_string()));
    app.on_listed(Ok(names(&["/a/b"])));
    assert_eq!(shown(&app), names(&["b"]));
}

#[test]
fn failed_read_is_recorded_and_list_stays() {
    let mut app = app_with(&["/a/b", "/a/c"]);
    app.on_down();
    app.on_listed(Err("permission denied".to_string()));
    assert_eq!(paths(&app), names(&["/a/b", "/a/c"]));
    assert_eq!(app.folders.selected(), Some(1));
    assert_eq!(app.last_failure, Some(Failure::Read("permission denied".to_string())));
    assert!(!app.should_quit);
}

#[test]
fn failed_launch_is_recorded_and_list_stays() {
    let mut app = app_with(&["/a/b"]);
    app.on_launched(Err("no handler".to_string()));
    assert_eq!(paths(&app), names(&["/a/b"]));
    assert_eq!(app.last_failure, Some(Failure::Launch("no handler".to_string())));
    assert!(!app.should_quit);
}

#[test]
fn empty_directory_replaces_the_list() {
    let mut app = app_with(&["/a/b"]);
    app.on_listed(Ok(Vec::new()));
    assert!(app.folders.items().is_empty());
    let list = app.next_dir(names(&["/z/1", "/z/2"]));
    assert_eq!(list.items().len(), 2);
    assert_eq!(list.items()[1].folder_name, "/z/2");
    assert_eq!(list.selected(), None);
}

#[test]
fn quit_persists_one_name_per_line() {
    let mut app = app_with(&["/x/one", "/x/two"]);
    assert_eq!(app.on_key('q', (0, 0)), Action::Persist("one\ntwo\n".to_string()));
    assert!(app.should_quit);
    assert_eq!(paths(&app), names(&["/x/one", "/x/two"]));
}

#[test]
fn quit_with_empty_list_persists_empty_text() {
    let mut app = app_with(&[]);
    assert_eq!(app.on_key('q', (0, 0)), Action::Persist(String::new()));
    assert!(app.should_quit);
}

#[test]
fn nothing_changes_after_quit() {
    let mut app = app_with(&["/a/b/c", "/a/b/d"]);
    app.on_down();
    app.on_key('q', (0, 0));
    let logs = app.logs.items().clone();
    for key in ['j', 'k', 't', 'q', 'l', 'h', '1'] {
        assert_eq!(app.on_key(key, (0, 0)), Action::Idle);
    }
    app.on_tick();
    app.on_listed(Ok(names(&["/other"])));
    app.on_listed(Err("gone".to_string()));
    app.on_launched(Err("no handler".to_string()));
    assert_eq!(app.on_probed("/a".to_string(), true), Action::Idle);
    assert!(app.should_quit);
    assert!(!app.show_chart);
    assert_eq!(app.progress, 0);
    assert_eq!(app.signals.window, (0, 20));
    assert_eq!(app.folders.selected(), Some(1));
    assert_eq!(paths(&app), names(&["/a/b/c", "/a/b/d"]));
    assert_eq!(app.logs.items(), &logs);
    assert_eq!(app.last_failure, None);
    assert_eq!(app.sparkline.points()[0], 0);
}
