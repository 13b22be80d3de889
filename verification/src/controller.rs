//! The top-level state and its dispatch of key presses and ticks.
//!
//! The controller does no input or output of its own. Where a key calls for
//! work outside (looking at the filesystem, opening a file, writing the task
//! file) it returns an [`Action`]; the caller performs it and reports the
//! outcome through `on_probed`, `on_listed` or `on_launched`.

use vstd::prelude::*;
use vstd::string::*;
use crate::path::{ancestor, ancestor_of, BACK_LEVELS};
use crate::ring::{rotate, turned};
use crate::selection::StatefulList;
use crate::signal::{ticked, SampleSource, Signal, Signals};
use crate::tabs::TabsState;
use crate::cursor::{wrap_next, wrap_prev};
use crate::selection::{moved_down, moved_up};
use crate::task::{lines_of, lines_text, paths_of, tasks_from, texts_of, Task};

verus! {

/// The file that the entries are persisted to on quit.
pub const TASK_FILE: &'static str = "task.txt";

/// The progress gauge counts in thousandths; this is the full gauge.
pub const PROGRESS_FULL: u32 = 1000;

/// Samples in the sparkline's window, and how many of them a tick replaces.
pub const SPARKLINE_WINDOW: usize = 300;

pub const SPARKLINE_STEP: usize = 1;

/// Samples in the first wave's window, and how many of them a tick replaces.
pub const SIN1_WINDOW: usize = 100;

pub const SIN1_STEP: usize = 5;

/// Samples in the second wave's window, and how many of them a tick replaces.
pub const SIN2_WINDOW: usize = 200;

pub const SIN2_STEP: usize = 10;

/// Width of the stretch of the x-axis that the waves are drawn over.
pub const AXIS_WIDTH: u64 = 20;

/// Work that the controller asks of its caller.
#[derive(Clone, Debug, PartialEq, Eq)]
pub enum Action {
    /// Nothing to do.
    Idle,
    /// Find out whether the path names a directory; answer with `on_probed`.
    Probe(String),
    /// Read the children of the directory; answer with `on_listed`.
    List(String),
    /// Open the file with the program the desktop has for it; answer with
    /// `on_launched`.
    Launch(String),
    /// Write the text to the task file, replacing what it held.
    Persist(String),
}

/// An `Action` with its text as a sequence of characters.
pub enum ActionView {
    Idle,
    Probe(Seq<char>),
    List(Seq<char>),
    Launch(Seq<char>),
    Persist(Seq<char>),
}

impl View for Action {
    type V = ActionView;

    open spec fn view(&self) -> ActionView {
        match *self {
            Action::Idle => ActionView::Idle,
            Action::Probe(path) => ActionView::Probe(path@),
            Action::List(path) => ActionView::List(path@),
            Action::Launch(path) => ActionView::Launch(path@),
            Action::Persist(text) => ActionView::Persist(text@),
        }
    }
}

/// A failure reported from outside. It is recorded and the session goes on.
#[derive(Clone, Debug, PartialEq, Eq)]
pub enum Failure {
    /// A directory could not be read.
    Read(String),
    /// A file could not be opened.
    Launch(String),
}

/// What a controller is built from.
pub struct Setup<R: SampleSource, S: SampleSource> {
    pub tabs: Vec<String>,
    pub entries: Vec<String>,
    pub logs: Vec<(String, String)>,
    pub barchart: Vec<(String, u64)>,
    pub sparkline_source: R,
    pub sin1_source: S,
    pub sin2_source: S,
}

/// The state of the dashboard.
pub struct App<R: SampleSource, S: SampleSource> {
    pub title: String,
    pub should_quit: bool,
    pub tabs: TabsState,
    pub show_chart: bool,
    /// Progress gauge in thousandths of the full gauge.
    pub progress: u32,
    pub sparkline: Signal<R>,
    pub folders: StatefulList<Task>,
    pub logs: StatefulList<(String, String)>,
    pub signals: Signals<S>,
    pub barchart: Vec<(String, u64)>,
    pub enhanced_graphics: bool,
    /// The most recent failure reported from outside, if any.
    pub last_failure: Option<Failure>,
}

/// The path that a digit key stands for.
pub open spec fn bookmark(number: int) -> Seq<char> {
    if number == 1 {
        "C:\\Users\\ryota-kita"@
    } else if number == 2 {
        "C:\\Users\\ryota-kita\\Documents\\working"@
    } else if number == 3 {
        "E:\\SRC"@
    } else if number == 4 {
        "Z:\\"@
    } else if number == 5 {
        "E:\\機能設計書"@
    } else {
        "E:"@
    }
}

/// Whether the key is one of the digits 0 to 9.
pub open spec fn is_digit(c: char) -> bool {
    '0' <= c && c <= '9'
}

/// The number that a digit key stands for.
pub open spec fn digit_value(c: char) -> int {
    c as int - 48
}

/// The progress gauge after a tick: one thousandth more, and back to empty
/// once it would pass the full gauge.
pub open spec fn progressed(progress: u32) -> u32 {
    if progress >= PROGRESS_FULL {
        0
    } else {
        (progress + 1) as u32
    }
}

impl<R: SampleSource, S: SampleSource> App<R, S> {
    /// All three signals are well formed.
    pub open spec fn well_formed(&self) -> bool {
        &&& self.sparkline.well_formed()
        &&& self.signals.sin1.well_formed()
        &&& self.signals.sin2.well_formed()
    }

    /// Both ends of the x-axis stretch can still move up by one.
    pub open spec fn axis_can_advance(&self) -> bool {
        self.signals.window.0 < u64::MAX && self.signals.window.1 < u64::MAX
    }

    /// The path of the selected entry, if an entry is selected.
    pub open spec fn selected_path(&self) -> Option<Seq<char>> {
        match self.folders.selection() {
            Some(i) => if 0 <= i < self.folders.entries().len() {
                Some(self.folders.entries()[i].folder_name@)
            } else {
                None
            },
            None => None,
        }
    }

    /// What the "enter" key asks for: a look at the selected entry, or
    /// nothing when no entry is selected.
    pub open spec fn enter_request(&self) -> ActionView {
        match self.selected_path() {
            Some(path) => ActionView::Probe(path),
            None => ActionView::Idle,
        }
    }

    /// What the "back" key asks for: the listing of the ancestor
    /// `BACK_LEVELS` above the selected entry, or nothing when no entry is
    /// selected or the entry has no such ancestor.
    pub open spec fn back_request(&self) -> ActionView {
        match self.selected_path() {
            Some(path) => match ancestor(path, BACK_LEVELS as nat) {
                Some(target) => ActionView::List(target),
                None => ActionView::Idle,
            },
            None => ActionView::Idle,
        }
    }

    /// The state differs from `before` in the entry list alone, whose cursor
    /// has moved down.
    pub open spec fn is_down_from(&self, before: &Self) -> bool {
        &&& *self == (App { folders: self.folders, ..*before })
        &&& self.folders.entries() == before.folders.entries()
        &&& self.folders.selection() == moved_down(
            before.folders.selection(),
            before.folders.entries().len() as int,
        )
    }

    /// The state differs from `before` in the entry list alone, whose cursor
    /// has moved up.
    pub open spec fn is_up_from(&self, before: &Self) -> bool {
        &&& *self == (App { folders: self.folders, ..*before })
        &&& self.folders.entries() == before.folders.entries()
        &&& self.folders.selection() == moved_up(
            before.folders.selection(),
            before.folders.entries().len() as int,
        )
    }

    /// The state differs from `before` in the tab bar alone, whose active
    /// view is the next one to the right.
    pub open spec fn is_right_of(&self, before: &Self) -> bool {
        &&& *self == (App { tabs: self.tabs, ..*before })
        &&& self.tabs.labels() == before.tabs.labels()
        &&& self.tabs.active() == wrap_next(before.tabs.active(), before.tabs.labels().len() as int)
    }

    /// The state differs from `before` in the tab bar alone, whose active
    /// view is the next one to the left.
    pub open spec fn is_left_of(&self, before: &Self) -> bool {
        &&& *self == (App { tabs: self.tabs, ..*before })
        &&& self.tabs.labels() == before.tabs.labels()
        &&& self.tabs.active() == wrap_prev(before.tabs.active(), before.tabs.labels().len() as int)
    }

    /// The state is what one tick makes of `before`.
    pub open spec fn is_tick_after(&self, before: &Self) -> bool {
        &&& *self == (App {
            progress: self.progress,
            sparkline: self.sparkline,
            signals: self.signals,
            logs: self.logs,
            barchart: self.barchart,
            ..*before
        })
        &&& self.progress == progressed(before.progress)
        &&& ticked(before.sparkline, self.sparkline)
        &&& ticked(before.signals.sin1, self.signals.sin1)
        &&& ticked(before.signals.sin2, self.signals.sin2)
        &&& self.signals.window.0 == before.signals.window.0 + 1
        &&& self.signals.window.1 == before.signals.window.1 + 1
        &&& self.logs.entries() == turned(before.logs.entries())
        &&& self.logs.selection() == before.logs.selection()
        &&& self.barchart@ == turned(before.barchart@)
    }

    /// What a key press makes of the state `before`, and what it asks for.
    pub open spec fn is_key_outcome(&self, before: &Self, c: char, action: ActionView) -> bool {
        if before.should_quit {
            *self == *before && action == ActionView::Idle
        } else if is_digit(c) {
            *self == *before && action == ActionView::Probe(bookmark(digit_value(c)))
        } else if c == 'q' {
            &&& *self == (App { should_quit: true, ..*before })
            &&& action == ActionView::Persist(lines_of(paths_of(before.folders.entries())))
        } else if c == 't' {
            &&& *self == (App { show_chart: !before.show_chart, ..*before })
            &&& action == ActionView::Idle
        } else if c == 'j' {
            self.is_down_from(before) && action == ActionView::Idle
        } else if c == 'k' {
            self.is_up_from(before) && action == ActionView::Idle
        } else if c == 'c' || c == 'l' {
            *self == *before && action == before.enter_request()
        } else if c == 'h' {
            *self == *before && action == before.back_request()
        } else {
            *self == *before && action == ActionView::Idle
        }
    }

    /// A running controller over the given setup: nothing selected, the
    /// first tab active, the chart hidden, the gauge empty, and each signal's
    /// window filled from its source.
    pub fn new(title: String, enhanced_graphics: bool, setup: Setup<R, S>) -> (app: Self)
        ensures
            app.well_formed(),
            app.title == title,
            app.enhanced_graphics == enhanced_graphics,
            !app.should_quit,
            !app.show_chart,
            app.progress == 0,
            app.last_failure is None,
            app.tabs.labels() == setup.tabs@,
            app.tabs.active() == 0,
            paths_of(app.folders.entries()) == texts_of(setup.entries@),
            app.folders.selection() == None::<int>,
            app.logs.entries() == setup.logs@,
            app.logs.selection() == None::<int>,
            app.barchart == setup.barchart,
            app.sparkline.window().len() == SPARKLINE_WINDOW,
            app.sparkline.step() == SPARKLINE_STEP,
            app.signals.sin1.window().len() == SIN1_WINDOW,
            app.signals.sin1.step() == SIN1_STEP,
            app.signals.sin2.window().len() == SIN2_WINDOW,
            app.signals.sin2.step() == SIN2_STEP,
            app.signals.window == (0u64, AXIS_WIDTH),
    {
        let Setup { tabs, entries, logs, barchart, sparkline_source, sin1_source, sin2_source } =
            setup;
        App {
            title,
            should_quit: false,
            tabs: TabsState::new(tabs),
            show_chart: false,
            progress: 0,
            sparkline: Signal::new(sparkline_source, SPARKLINE_WINDOW, SPARKLINE_STEP),
            folders: StatefulList::with_items(tasks_from(entries)),
            logs: StatefulList::with_items(logs),
            signals: Signals {
                sin1: Signal::new(sin1_source, SIN1_WINDOW, SIN1_STEP),
                sin2: Signal::new(sin2_source, SIN2_WINDOW, SIN2_STEP),
                window: (0, AXIS_WIDTH),
            },
            barchart,
            enhanced_graphics,
            last_failure: None,
        }
    }

    /// The list for a directory whose children are the given paths, in the
    /// order given, with nothing selected.
    pub fn next_dir(&self, children: Vec<String>) -> (list: StatefulList<Task>)
        ensures
            paths_of(list.entries()) == texts_of(children@),
            list.selection() == None::<int>,
    {
        StatefulList::with_items(tasks_from(children))
    }

    /// Moves the cursor of the entry list up.
    pub fn on_up(&mut self)
        ensures
            final(self).is_up_from(old(self)),
    {
        self.folders.previous();
    }

    /// Moves the cursor of the entry list down.
    pub fn on_down(&mut self)
        ensures
            final(self).is_down_from(old(self)),
    {
        self.folders.next();
    }

    /// Activates the tab to the right.
    pub fn on_right(&mut self)
        ensures
            final(self).is_right_of(old(self)),
    {
        self.tabs.next();
    }

    /// Activates the tab to the left.
    pub fn on_left(&mut self)
        ensures
            final(self).is_left_of(old(self)),
    {
        self.tabs.previous();
    }

    /// Asks for a look at the selected entry, so that `on_probed` can list it
    /// if it is a directory and have it opened if it is not. The state stays
    /// as it is.
    pub fn on_enter_dir(&mut self) -> (action: Action)
        ensures
            *final(self) == *old(self),
            action@ == old(self).enter_request(),
    {
        match self.folders.selected() {
            Some(at) => Action::Probe(self.folders.items()[at].folder_name.clone()),
            None => Action::Idle,
        }
    }

    /// Asks for the listing of the ancestor `BACK_LEVELS` above the selected
    /// entry. Where the entry has no such ancestor, or nothing is selected,
    /// nothing is asked for. The state stays as it is.
    pub fn on_back_dir(&mut self) -> (action: Action)
        ensures
            *final(self) == *old(self),
            action@ == old(self).back_request(),
    {
        match self.folders.selected() {
            Some(at) => {
                match ancestor_of(self.folders.items()[at].folder_name.as_str(), BACK_LEVELS) {
                    Some(target) => Action::List(target),
                    None => Action::Idle,
                }
            },
            None => Action::Idle,
        }
    }

    /// The path that the digit stands for.
    pub fn get_path_of_number(&mut self, number: usize) -> (path: String)
        ensures
            *final(self) == *old(self),
            path@ == bookmark(number as int),
    {
        let path: &str = if number == 1 {
            "C:\\Users\\ryota-kita"
        } else if number == 2 {
            "C:\\Users\\ryota-kita\\Documents\\working"
        } else if number == 3 {
            "E:\\SRC"
        } else if number == 4 {
            "Z:\\"
        } else if number == 5 {
            "E:\\機能設計書"
        } else {
            "E:"
        };
        path.to_owned()
    }

    /// The answer to `Action::Probe`: a directory is to be listed, anything
    /// else to be opened. After quit nothing more is asked for.
    pub fn on_probed(&self, path: String, is_dir: bool) -> (action: Action)
        ensures
            action@ == if self.should_quit {
                ActionView::Idle
            } else if is_dir {
                ActionView::List(path@)
            } else {
                ActionView::Launch(path@)
            },
    {
        if self.should_quit {
            Action::Idle
        } else if is_dir {
            Action::List(path)
        } else {
            Action::Launch(path)
        }
    }

    /// The answer to `Action::List`. The children of a directory that was
    /// read replace the entry list, with nothing selected. A failure is
    /// recorded and the entry list stays. After quit nothing changes.
    pub fn on_listed(&mut self, outcome: Result<Vec<String>, String>)
        ensures
            old(self).should_quit ==> *final(self) == *old(self),
            !old(self).should_quit ==> match outcome {
                Ok(children) => {
                    &&& *final(self) == (App { folders: final(self).folders, ..*old(self) })
                    &&& paths_of(final(self).folders.entries()) == texts_of(children@)
                    &&& final(self).folders.selection() == None::<int>
                },
                Err(reason) => *final(self) == (App {
                    last_failure: Some(Failure::Read(reason)),
                    ..*old(self)
                }),
            },
    {
        if !self.should_quit {
            match outcome {
                Ok(children) => {
                    self.folders = self.next_dir(children);
                },
                Err(reason) => {
                    self.last_failure = Some(Failure::Read(reason));
                },
            }
        }
    }

    /// The answer to `Action::Launch`. A failure is recorded; nothing else
    /// changes. After quit nothing changes.
    pub fn on_launched(&mut self, outcome: Result<(), String>)
        ensures
            *final(self) == match outcome {
                Err(reason) if !old(self).should_quit => App {
                    last_failure: Some(Failure::Launch(reason)),
                    ..*old(self)
                },
                _ => *old(self),
            },
    {
        if !self.should_quit {
            match outcome {
                Ok(_) => {},
                Err(reason) => {
                    self.last_failure = Some(Failure::Launch(reason));
                },
            }
        }
    }

    /// Dispatches a key press. Digits ask for a look at their bookmark, `q`
    /// quits and asks for the entries to be persisted, `t` shows or hides
    /// the chart, `j` and `k` move the cursor, `c` and `l` enter, `h` goes
    /// back; every other key, and every key after quit, does nothing.
    pub fn on_key(&mut self, c: char, pos: (u16, u16)) -> (action: Action)
        ensures
            final(self).is_key_outcome(old(self), c, action@),
    {
        if self.should_quit {
            Action::Idle
        } else if '0' <= c && c <= '9' {
            let number: usize = (c as u32 - 48) as usize;
            Action::Probe(self.get_path_of_number(number))
        } else if c == 'q' {
            self.should_quit = true;
            Action::Persist(lines_text(self.folders.items()))
        } else if c == 't' {
            self.show_chart = !self.show_chart;
            Action::Idle
        } else if c == 'j' {
            self.on_down();
            Action::Idle
        } else if c == 'k' {
            self.on_up();
            Action::Idle
        } else if c == 'c' || c == 'l' {
            self.on_enter_dir()
        } else if c == 'h' {
            self.on_back_dir()
        } else {
            Action::Idle
        }
    }

    /// Adding an entry by hand is not offered yet: the state stays as it is.
    pub fn add_task(&mut self)
        ensures
            *final(self) == *old(self),
    {
    }

    /// Advances everything that moves with time: the gauge, the three
    /// signals, the x-axis stretch, and the two ring buffers. After quit
    /// nothing changes.
    pub fn on_tick(&mut self)
        requires
            old(self).well_formed(),
            old(self).axis_can_advance(),
        ensures
            final(self).well_formed(),
            old(self).should_quit ==> *final(self) == *old(self),
            !old(self).should_quit ==> final(self).is_tick_after(old(self)),
    {
        if !self.should_quit {
            self.progress = if self.progress >= PROGRESS_FULL {
                0
            } else {
                self.progress + 1
            };
            self.sparkline.on_tick();
            self.signals.on_tick();
            let mut logs: StatefulList<(String, String)> = StatefulList::with_items(Vec::new());
            core::mem::swap(&mut self.logs, &mut logs);
            self.logs = logs.rotated();
            rotate(&mut self.barchart);
        }
    }
}

} // verus!
