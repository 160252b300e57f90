//! The terminal UI's state and its decisions: what a key press, a refresh and a loaded flow do.
//!
//! The functions here tell what to fetch from the daemon's REST API; what came of it goes back
//! in by [`App::refreshed`] and [`App::detail_loaded`]. In which order all this happens is the
//! matter of [`crate::cycle`].

use vstd::prelude::*;

use crate::model::{text_of, Flow, FlowSummary};
use crate::text::{decimal, decimal_text, integer, integer_text, lemma_integer_text_injective};

verus! {

/// The host of the daemon's API, where none is given.
pub const DEFAULT_HOST: &'static str = "127.0.0.1";

/// The port of the daemon's API, where none is given.
pub const DEFAULT_PORT: u16 = 9000;

/// Where the daemon lists its flows.
pub const FLOWS_PATH: &'static str = "/api/v1/flows?limit=500";

/// The list is fetched anew when it is older than this many nanoseconds.
pub const REFRESH_AFTER: i128 = 2_000_000_000;

/// How old, in nanoseconds, the list counts as before it was ever fetched.
pub const AGE_AT_START: i128 = 10_000_000_000;

/// How many milliseconds to wait for a key before looking at the clock again.
pub const POLL_MILLIS: u64 = 400;

/// A key of the terminal.
#[derive(Debug, Clone, Copy, PartialEq, Eq)]
pub enum Key {
    Char(char),
    Esc,
    Up,
    Down,
    Other,
}

/// What a key stands for.
pub enum Intent {
    Nothing,
    Quit,
    Refresh,
    /// Moves the selection by that many places.
    Move(int),
    Top,
    Bottom,
}

/// What the press of a key stands for.
pub open spec fn intent(key: Key) -> Intent {
    match key {
        Key::Char('q') | Key::Esc => Intent::Quit,
        Key::Char('j') | Key::Down => Intent::Move(1),
        Key::Char('k') | Key::Up => Intent::Move(-1),
        Key::Char('g') => Intent::Top,
        Key::Char('G') => Intent::Bottom,
        Key::Char('r') => Intent::Refresh,
        _ => Intent::Nothing,
    }
}

/// What is to be done after a key.
#[derive(Debug, PartialEq)]
pub enum Command {
    /// Nothing.
    Wait,
    /// Leave.
    Quit,
    /// Fetch the list of flows.
    Refresh,
    /// Fetch the flow at that path of the API.
    Load(String),
}

/// The content of a command.
#[verifier::ext_equal]
pub enum CommandView {
    Wait,
    Quit,
    Refresh,
    Load(Seq<char>),
}

impl View for Command {
    type V = CommandView;

    open spec fn view(&self) -> CommandView {
        match *self {
            Command::Wait => CommandView::Wait,
            Command::Quit => CommandView::Quit,
            Command::Refresh => CommandView::Refresh,
            Command::Load(path) => CommandView::Load(path@),
        }
    }
}

/// The command that loads a path, where there is one.
pub open spec fn load_view(path: Option<Seq<char>>) -> CommandView {
    match path {
        Some(path) => CommandView::Load(path),
        None => CommandView::Wait,
    }
}

/// The command that loads a path, where there is one.
fn load(path: Option<String>) -> (r: Command)
    ensures
        r@ == load_view(text_of(path)),
{
    match path {
        Some(path) => Command::Load(path),
        None => Command::Wait,
    }
}

/// The state of the terminal UI.
pub struct App {
    pub host: String,
    pub port: u16,
    pub flows: Vec<FlowSummary>,
    /// The place of the selected flow in the list.
    pub selected: Option<usize>,
    /// The selected flow in full, where it is loaded.
    pub detail: Option<Flow>,
    pub status: String,
    /// When the last refresh ended, in nanoseconds on the caller's clock.
    pub last_refresh: i128,
}

/// The path of the flow of that id in the daemon's API.
pub open spec fn flow_path(id: i64) -> Seq<char> {
    "/api/v1/flows/"@ + integer_text(id as int)
}

/// The path of the flow at a place of the list, where there is one.
pub open spec fn path_at(flows: Seq<FlowSummary>, place: Option<usize>) -> Option<Seq<char>> {
    match place {
        Some(place) => if place < flows.len() {
            Some(flow_path(flows[place as int].id))
        } else {
            None
        },
        None => None,
    }
}

/// What a list of that many flows is announced as.
pub open spec fn count_text(count: nat) -> Seq<char> {
    decimal_text(count) + " flows"@
}

/// The place of the selection after a list of that length has come in: a place beyond the list
/// becomes its last, or none where the list is empty.
pub open spec fn kept_selection(selected: Option<usize>, len: nat) -> Option<usize> {
    let place = match selected {
        Some(place) => place as int,
        None => 0,
    };
    if place < len {
        selected
    } else if len == 0 {
        None
    } else {
        Some((len - 1) as usize)
    }
}

/// The integer that is nearest to `n` in the list of that length.
pub open spec fn clamped(n: int, len: nat) -> int {
    if n < 0 {
        0
    } else if n >= len {
        len - 1
    } else {
        n
    }
}

impl App {
    /// The selection lies in the list, or at its top.
    pub open spec fn wf(self) -> bool {
        match self.selected {
            Some(place) => place == 0 || place < self.flows@.len(),
            None => true,
        }
    }

    /// The place from which the selection moves.
    pub open spec fn cursor(self) -> int {
        match self.selected {
            Some(place) => place as int,
            None => 0,
        }
    }

    /// A flow of the list is selected.
    pub open spec fn has_selection(self) -> bool {
        self.selected is Some && self.selected->Some_0 < self.flows@.len()
    }

    /// Nothing but the selection and the loaded flow differs.
    pub open spec fn same_list(self, other: App) -> bool {
        &&& self.host == other.host
        &&& self.port == other.port
        &&& self.flows == other.flows
        &&& self.status == other.status
        &&& self.last_refresh == other.last_refresh
    }

    /// The path is that of the selected flow, and the loaded flow is as before; or no flow is
    /// selected, there is no path, and no flow is loaded any more.
    pub open spec fn loads(self, before: Option<Flow>, path: Option<Seq<char>>) -> bool {
        &&& path == path_at(self.flows@, self.selected)
        &&& self.detail == if path is Some {
            before
        } else {
            None
        }
    }

    /// The list, or why it could not be fetched, has been taken in, and the path is that from
    /// which the selected flow is to be loaded. After a failure all that was shown stays, but for
    /// the status.
    pub open spec fn took_list(
        self,
        before: App,
        fetched: Result<Vec<FlowSummary>, String>,
        path: Option<Seq<char>>,
    ) -> bool {
        &&& self.host == before.host
        &&& self.port == before.port
        &&& self.last_refresh == before.last_refresh
        &&& match fetched {
            Ok(flows) => {
                &&& self.flows == flows
                &&& self.status@ == count_text(flows@.len())
                &&& self.selected == kept_selection(before.selected, flows@.len())
                &&& self.loads(before.detail, path)
            },
            Err(why) => {
                &&& self.flows == before.flows
                &&& self.status@ == "error: "@ + why@
                &&& self.selected == before.selected
                &&& self.detail == before.detail
                &&& path is None
            },
        }
    }

    /// Nothing but the time of the last refresh differs, which is that time.
    pub open spec fn refreshed_at(self, before: App, now: int) -> bool {
        &&& self.host == before.host
        &&& self.port == before.port
        &&& self.flows == before.flows
        &&& self.selected == before.selected
        &&& self.detail == before.detail
        &&& self.status == before.status
        &&& self.last_refresh == now
    }

    /// The place to which a key event takes the selection, where it is one that selects: only the
    /// press of a key counts, not its repetition or release.
    pub open spec fn key_target(self, pressed: bool, key: Key) -> Option<usize> {
        let len = self.flows@.len();
        if !pressed {
            None
        } else {
            match intent(key) {
                Intent::Move(delta) => if len == 0 {
                    None
                } else {
                    Some(clamped(self.cursor() + delta, len) as usize)
                },
                Intent::Top => Some(0),
                Intent::Bottom => if len == 0 {
                    None
                } else {
                    Some((len - 1) as usize)
                },
                _ => None,
            }
        }
    }

    /// What is to be done after a key event.
    pub open spec fn key_command(self, pressed: bool, key: Key) -> CommandView {
        if !pressed {
            CommandView::Wait
        } else {
            match intent(key) {
                Intent::Quit => CommandView::Quit,
                Intent::Refresh => CommandView::Refresh,
                _ => load_view(path_at(self.flows@, self.key_target(pressed, key))),
            }
        }
    }

    /// A key event has been acted on: the selection has gone where the key takes it, or all is
    /// as before.
    pub open spec fn took_key(self, before: App, pressed: bool, key: Key) -> bool {
        match before.key_target(pressed, key) {
            Some(place) => {
                &&& self.same_list(before)
                &&& self.selected == Some(place)
                &&& self.loads(before.detail, path_at(self.flows@, self.selected))
            },
            None => self == before,
        }
    }

    /// The state at the start, at that time on the clock: no flows, and the list is due.
    pub fn new(host: String, port: u16, now: i128) -> (r: App)
        requires
            now >= i128::MIN + AGE_AT_START,
        ensures
            r.host == host,
            r.port == port,
            r.flows@.len() == 0,
            r.selected == Some(0usize),
            r.detail is None,
            r.status@ == "loading…"@,
            r.last_refresh == now - AGE_AT_START,
            r.wf(),
    {
        App {
            host,
            port,
            flows: Vec::new(),
            selected: Some(0),
            detail: None,
            status: "loading…".to_owned(),
            last_refresh: now - AGE_AT_START,
        }
    }

    /// The list is older than it may be at that time on the clock.
    pub open spec fn is_due(self, now: int) -> bool {
        now - self.last_refresh > REFRESH_AFTER
    }

    /// Tells whether the list is to be fetched anew at that time on the clock.
    pub fn refresh_due(&self, now: i128) -> (r: bool)
        ensures
            r == self.is_due(now as int),
    {
        match now.checked_sub(self.last_refresh) {
            Some(age) => age > REFRESH_AFTER,
            None => now > self.last_refresh,
        }
    }

    /// Turns to the selected flow: the path to load it from, or none where no flow is selected,
    /// in which case no flow is loaded any more.
    pub fn load_detail(&mut self) -> (r: Option<String>)
        ensures
            final(self).same_list(*old(self)),
            final(self).selected == old(self).selected,
            final(self).loads(old(self).detail, text_of(r)),
            old(self).wf() ==> final(self).wf(),
    {
        match self.selected {
            Some(place) if place < self.flows.len() => {
                let mut path = "/api/v1/flows/".to_owned();
                path.append(integer(self.flows[place].id).as_str());
                Some(path)
            },
            _ => {
                self.detail = None;
                None
            },
        }
    }

    /// Takes in the selected flow, or that it could not be loaded.
    pub fn detail_loaded(&mut self, flow: Option<Flow>)
        ensures
            final(self).same_list(*old(self)),
            final(self).selected == old(self).selected,
            final(self).detail == flow,
            old(self).wf() ==> final(self).wf(),
    {
        self.detail = flow;
    }

    /// Takes in the list of flows, or why it could not be fetched, and gives the path from which
    /// the selected flow is to be loaded.
    pub fn refreshed(&mut self, fetched: Result<Vec<FlowSummary>, String>) -> (r: Option<String>)
        ensures
            final(self).took_list(*old(self), fetched, text_of(r)),
            fetched is Ok && final(self).selected is Some ==> final(self).has_selection(),
            old(self).wf() ==> final(self).wf(),
    {
        match fetched {
            Ok(flows) => {
                let mut status = decimal(flows.len() as u64);
                status.append(" flows");
                self.status = status;
                self.flows = flows;
                let place: usize = match self.selected {
                    Some(place) => place,
                    None => 0,
                };
                if place >= self.flows.len() {
                    self.selected = if self.flows.len() == 0 {
                        None
                    } else {
                        Some(self.flows.len() - 1)
                    };
                }
                self.load_detail()
            },
            Err(why) => {
                let mut status = "error: ".to_owned();
                status.append(why.as_str());
                self.status = status;
                None
            },
        }
    }

    /// Ends a refresh, with all that it loads, at that time on the clock.
    pub fn refresh_ended(&mut self, now: i128)
        ensures
            final(self).refreshed_at(*old(self), now as int),
            old(self).wf() ==> final(self).wf(),
    {
        self.last_refresh = now;
    }

    /// Moves the selection by that many places, as far as the list goes, and turns to the flow
    /// there. In an empty list nothing happens.
    pub fn move_by(&mut self, delta: isize) -> (r: Option<String>)
        ensures
            final(self).same_list(*old(self)),
            old(self).flows@.len() == 0 ==> *final(self) == *old(self) && r is None,
            old(self).flows@.len() > 0 ==> {
                &&& final(self).selected == Some(
                    clamped(old(self).cursor() + delta, old(self).flows@.len()) as usize,
                )
                &&& final(self).has_selection()
                &&& final(self).loads(old(self).detail, text_of(r))
            },
            old(self).wf() ==> final(self).wf(),
    {
        let len: usize = self.flows.len();
        if len == 0 {
            return None;
        }
        let place: usize = match self.selected {
            Some(place) => place,
            None => 0,
        };
        let wanted: i128 = place as i128 + delta as i128;
        let next: usize = if wanted < 0 {
            0
        } else if wanted >= len as i128 {
            len - 1
        } else {
            wanted as usize
        };
        self.selected = Some(next);
        self.load_detail()
    }

    /// Acts on a key event.
    pub fn on_key(&mut self, pressed: bool, key: Key) -> (r: Command)
        ensures
            final(self).took_key(*old(self), pressed, key),
            r@ == old(self).key_command(pressed, key),
            old(self).wf() ==> final(self).wf(),
    {
        if !pressed {
            return Command::Wait;
        }
        match key {
            Key::Char('q') | Key::Esc => Command::Quit,
            Key::Char('j') | Key::Down => load(self.move_by(1)),
            Key::Char('k') | Key::Up => load(self.move_by(-1)),
            Key::Char('g') => {
                self.selected = Some(0);
                load(self.load_detail())
            },
            Key::Char('G') => {
                if self.flows.len() > 0 {
                    self.selected = Some(self.flows.len() - 1);
                    load(self.load_detail())
                } else {
                    Command::Wait
                }
            },
            Key::Char('r') => Command::Refresh,
            _ => Command::Wait,
        }
    }
}

/// Moving by some places and back ends where it began, where the end of the list does not come
/// between.
pub proof fn law_moves_cancel(place: int, delta: int, len: nat)
    requires
        0 <= place < len,
        0 <= place + delta < len,
    ensures
        clamped(clamped(place + delta, len) - delta, len) == place,
{
}

/// However far the selection moves, it stays in the list, and stops at the end it moves toward.
pub proof fn law_moves_stay(place: int, delta: int, len: nat)
    requires
        0 <= place < len,
    ensures
        0 <= clamped(place + delta, len) < len,
        delta <= -(len - 1) ==> clamped(place + delta, len) == 0,
        delta >= len - 1 ==> clamped(place + delta, len) == len - 1,
{
}

/// A new list moves the selection only where its place is beyond the list, and leaves it at a
/// flow of the list or nowhere.
pub proof fn law_refresh_keeps_selection(selected: Option<usize>, len: nat)
    requires
        len <= usize::MAX,
    ensures
        selected matches Some(place) && place < len ==> kept_selection(selected, len) == selected,
        kept_selection(selected, len) matches Some(place) ==> place < len,
        len == 0 ==> kept_selection(selected, len) is None,
{
}

/// The list is due at the start; once a refresh has ended, well or not, it is due again when the
/// limit is exceeded from then on, and not before.
pub proof fn law_refresh_pace(app: App, before: App, now: int)
    ensures
        app.last_refresh == now - AGE_AT_START ==> app.is_due(now),
        app.refreshed_at(before, now) ==> forall|later: int|
            app.is_due(later) <==> later > now + REFRESH_AFTER,
{
}

/// Flows of different ids have different paths.
pub proof fn law_paths_tell_flows_apart(a: i64, b: i64)
    requires
        flow_path(a) == flow_path(b),
    ensures
        a == b,
{
    let stem = "/api/v1/flows/"@;
    assert(integer_text(a as int) =~= flow_path(a).skip(stem.len() as int));
    assert(integer_text(b as int) =~= flow_path(b).skip(stem.len() as int));
    lemma_integer_text_injective(a as int, b as int);
}

} // verus!
