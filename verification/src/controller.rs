//! Application controller: owns one tab selector and one list selector and
//! dispatches each input or tick event to exactly one of them. Rendering and
//! event production are collaborators outside this crate; the controller's
//! loop lives with them and feeds every event through `App::handle_event`.

use vstd::prelude::*;
use crate::list::{next_selection, prev_selection, StatefulList};
use crate::tabs::{next_index, prev_index, AsVec, TabsState};

verus! {

/// The dashboard's pages, a closed enumeration in display order.
#[derive(Clone, Copy, Debug, PartialEq, Eq, Structural)]
pub enum Tab {
    Welcome,
    Monitor,
    Console,
    Settings,
}

impl Tab {
    /// The display name of the tab.
    pub open spec fn spec_title(self) -> Seq<char> {
        match self {
            Tab::Welcome => "Welcome"@,
            Tab::Monitor => "Monitor"@,
            Tab::Console => "Console"@,
            Tab::Settings => "Settings"@,
        }
    }

    /// Returns the display name of the tab.
    pub fn title(&self) -> (r: &'static str)
        ensures
            r@ == self.spec_title(),
    {
        match self {
            Tab::Welcome => "Welcome",
            Tab::Monitor => "Monitor",
            Tab::Console => "Console",
            Tab::Settings => "Settings",
        }
    }
}

impl AsVec<Tab> for Tab {
    open spec fn spec_variants() -> Seq<Tab> {
        seq![Tab::Welcome, Tab::Monitor, Tab::Console, Tab::Settings]
    }

    fn as_vec() -> (r: Vec<Tab>) {
        let mut v: Vec<Tab> = Vec::new();
        v.push(Tab::Welcome);
        v.push(Tab::Monitor);
        v.push(Tab::Console);
        v.push(Tab::Settings);
        assert(v@ =~= Self::spec_variants());
        v
    }
}

/// A key identifier, as the event source reports it. Keys the controller does
/// not react to arrive as `Other`.
#[derive(Clone, Copy, Debug, PartialEq, Eq, Structural)]
pub enum Key {
    Char(char),
    Right,
    Left,
    Down,
    Up,
    Other,
}

/// One event from the event source: a key press, or a timer tick.
#[derive(Clone, Copy, Debug, PartialEq, Eq, Structural)]
pub enum Event {
    Input(Key),
    Tick,
}

/// Whether the event ends the dispatch loop.
pub open spec fn is_quit(event: Event) -> bool {
    event == Event::Input(Key::Char('q'))
}

/// Whether the event moves the tab selection, and so resynchronizes the
/// active tab identifier with the active position.
pub open spec fn moves_tabs(event: Event) -> bool {
    event == Event::Input(Key::Right) || event == Event::Input(Key::Left)
}

/// Whether the event asks for a list-selection move. The move happens only
/// while the list-bearing tab is active.
pub open spec fn moves_list(event: Event) -> bool {
    event == Event::Input(Key::Down) || event == Event::Input(Key::Up)
}

/// The tab position after dispatching `event` from position `i` over `len`
/// tabs: right advances, left retreats, everything else leaves it alone.
pub open spec fn index_after(i: int, len: int, event: Event) -> int {
    if event == Event::Input(Key::Right) {
        next_index(i, len)
    } else if event == Event::Input(Key::Left) {
        prev_index(i, len)
    } else {
        i
    }
}

/// The list selection after dispatching `event` with `active` as the active
/// tab: down advances and up retreats, each only on the list-bearing
/// `Tab::Welcome`; everything else leaves the selection alone.
pub open spec fn selection_after(
    sel: Option<usize>,
    len: nat,
    active: Tab,
    event: Event,
) -> Option<usize> {
    if active == Tab::Welcome && event == Event::Input(Key::Down) {
        next_selection(sel, len)
    } else if active == Tab::Welcome && event == Event::Input(Key::Up) {
        prev_selection(sel, len)
    } else {
        sel
    }
}

/// The application state: one tab selector over the dashboard's pages and one
/// cyclic list selector over the items shown on the list-bearing tab. The
/// controller owns both exclusively; nothing else mutates them.
pub struct App<T> {
    /// The page selector.
    pub tabs: TabsState<Tab>,
    /// The selector over the items of the list-bearing tab.
    pub serial_ports: StatefulList<T>,
}

impl<T> App<T> {
    /// Structural invariant: both selectors are well formed.
    pub open spec fn wf(self) -> bool {
        self.tabs.wf() && self.serial_ports.wf()
    }

    /// Builds the application state: the tab selector over the full page
    /// enumeration starting at `Tab::Welcome`, and the list selector over the
    /// given items with no selection.
    pub fn new(items: Vec<T>) -> (r: App<T>)
        ensures
            r.wf(),
            r.tabs.titles@ == Tab::spec_variants(),
            r.tabs.index == 0,
            r.tabs.current == Tab::Welcome,
            r.serial_ports.items == items,
            r.serial_ports.state.spec_selected() == None::<usize>,
    {
        App {
            tabs: TabsState::new(Tab::Welcome),
            serial_ports: StatefulList::with_items(items),
        }
    }

    /// Dispatches one event to exactly one selector and says whether the loop
    /// must end: the quit key ends it with the state untouched; right and left
    /// move the tab selection; down and up move the list selection while the
    /// list-bearing tab is active; every other event changes nothing.
    pub fn handle_event(&mut self, event: Event) -> (quit: bool)
        requires
            old(self).wf(),
        ensures
            final(self).wf(),
            quit == is_quit(event),
            final(self).tabs.titles == old(self).tabs.titles,
            final(self).serial_ports.items == old(self).serial_ports.items,
            final(self).tabs.index as int == index_after(
                old(self).tabs.index as int,
                old(self).tabs.titles@.len() as int,
                event,
            ),
            moves_tabs(event) ==> final(self).tabs.synced(),
            !moves_tabs(event) ==> final(self).tabs.current == old(self).tabs.current,
            final(self).serial_ports.state.spec_selected() == selection_after(
                old(self).serial_ports.state.spec_selected(),
                old(self).serial_ports.items@.len(),
                old(self).tabs.current,
                event,
            ),
    {
        match event {
            Event::Input(key) => match key {
                Key::Char(c) => c == 'q',
                Key::Right => {
                    self.tabs.next();
                    false
                },
                Key::Left => {
                    self.tabs.previous();
                    false
                },
                Key::Down => {
                    if self.tabs.current == Tab::Welcome {
                        self.serial_ports.next();
                    }
                    false
                },
                Key::Up => {
                    if self.tabs.current == Tab::Welcome {
                        self.serial_ports.previous();
                    }
                    false
                },
                Key::Other => false,
            },
            Event::Tick => false,
        }
    }
}

} // verus!
