//! The state of the proxy's terminal monitor and how key presses and events change it:
//! the known targets, the latest log lines, and the log scroll position.
use vstd::prelude::*;
use crate::text::{decimal, decimal_string, str_eq};

verus! {

/// A moment on the monotonic clock (`std::time::Instant`), carried through as it is.
#[verifier::external_type_specification]
#[verifier::external_body]
pub struct ExInstant(std::time::Instant);

/// A moment on the system clock (`std::time::SystemTime`), carried through as it is.
#[verifier::external_type_specification]
#[verifier::external_body]
pub struct ExSystemTime(std::time::SystemTime);

/// Connection status for display
#[derive(Clone, Copy, Debug, PartialEq, Eq, Structural)]
pub enum ConnectionStatus {
    Online,
    Offline,
    Reconnecting,
    Failed,
}

pub open spec fn status_emoji(s: ConnectionStatus) -> Seq<char> {
    match s {
        ConnectionStatus::Online => "🟢"@,
        ConnectionStatus::Offline => "🔴"@,
        ConnectionStatus::Reconnecting => "🟡"@,
        ConnectionStatus::Failed => "🔴"@,
    }
}

pub open spec fn status_text(s: ConnectionStatus) -> Seq<char> {
    match s {
        ConnectionStatus::Online => "Online"@,
        ConnectionStatus::Offline => "Offline"@,
        ConnectionStatus::Reconnecting => "Reconnecting..."@,
        ConnectionStatus::Failed => "Failed"@,
    }
}

impl ConnectionStatus {
    /// A colored dot: green online, yellow reconnecting, red offline or failed.
    pub fn emoji(&self) -> (r: &'static str)
        ensures
            r@ == status_emoji(*self),
    {
        match self {
            ConnectionStatus::Online => "🟢",
            ConnectionStatus::Offline => "🔴",
            ConnectionStatus::Reconnecting => "🟡",
            ConnectionStatus::Failed => "🔴",
        }
    }

    /// The status in words.
    pub fn text(&self) -> (r: &'static str)
        ensures
            r@ == status_text(*self),
    {
        match self {
            ConnectionStatus::Online => "Online",
            ConnectionStatus::Offline => "Offline",
            ConnectionStatus::Reconnecting => "Reconnecting...",
            ConnectionStatus::Failed => "Failed",
        }
    }

    /// The color the status is shown in: green online, yellow reconnecting, red offline or
    /// failed.
    pub fn color(&self) -> (r: StatusColor)
        ensures
            r == status_color(*self),
    {
        match self {
            ConnectionStatus::Online => StatusColor::Green,
            ConnectionStatus::Offline => StatusColor::Red,
            ConnectionStatus::Reconnecting => StatusColor::Yellow,
            ConnectionStatus::Failed => StatusColor::Red,
        }
    }
}

/// The colors a connection status is shown in.
#[derive(Clone, Copy, Debug, PartialEq, Eq, Structural)]
pub enum StatusColor {
    Green,
    Yellow,
    Red,
}

pub open spec fn status_color(s: ConnectionStatus) -> StatusColor {
    match s {
        ConnectionStatus::Online => StatusColor::Green,
        ConnectionStatus::Offline => StatusColor::Red,
        ConnectionStatus::Reconnecting => StatusColor::Yellow,
        ConnectionStatus::Failed => StatusColor::Red,
    }
}

/// The packet count shown beside a target: `" (n)"`, or nothing before the first packet.
pub open spec fn spec_packet_text(count: u64) -> Seq<char> {
    if count > 0 {
        " ("@ + decimal(count as nat) + ")"@
    } else {
        seq![]
    }
}

/// The packet count shown beside a target (see [`spec_packet_text`]).
pub fn packet_text(count: u64) -> (r: String)
    ensures
        r@ == spec_packet_text(count),
{
    if count > 0 {
        let mut s = String::from_str(" (");
        let digits = decimal_string(count);
        s.append(digits.as_str());
        s.append(")");
        s
    } else {
        String::new()
    }
}

/// When a target is next retried, shown beside it: nothing without a retry planned,
/// `" (retry in Ns)"` with whole seconds left, and `" (retrying...)"` once less than a
/// second is left (or the time has passed).
pub open spec fn spec_retry_text(seconds_left: Option<u64>) -> Seq<char> {
    match seconds_left {
        None => seq![],
        Some(secs) => if secs > 0 {
            " (retry in "@ + decimal(secs as nat) + "s)"@
        } else {
            " (retrying...)"@
        },
    }
}

/// When a target is next retried (see [`spec_retry_text`]); `seconds_left` is the number of
/// whole seconds until the planned attempt (0 once it is due), if one is planned.
pub fn retry_text(seconds_left: Option<u64>) -> (r: String)
    ensures
        r@ == spec_retry_text(seconds_left),
{
    match seconds_left {
        None => String::new(),
        Some(secs) => if secs > 0 {
            let mut s = String::from_str(" (retry in ");
            let digits = decimal_string(secs);
            s.append(digits.as_str());
            s.append("s)");
            s
        } else {
            String::from_str(" (retrying...)")
        },
    }
}

/// Target information for display
pub struct TargetInfo {
    pub name: String,
    pub address: String,
    pub transport: String,
    pub status: ConnectionStatus,
    pub last_packet_time: Option<std::time::SystemTime>,
    pub packet_count: u64,
    pub next_attempt_at: Option<std::time::Instant>,
}

/// A log line for display.
pub struct LogEntry {
    /// When it was logged, in milliseconds since the Unix epoch.
    pub timestamp_millis: i64,
    pub level: String,
    pub target: String,
    pub message: String,
}

/// What other tasks tell the monitor.
pub enum UiEvent {
    /// A target's connection changed.
    TargetInfo {
        name: String,
        address: String,
        transport: String,
        status: ConnectionStatus,
        next_attempt_at: Option<std::time::Instant>,
    },
    /// A line was logged.
    LogEntry(LogEntry),
    /// A packet was forwarded to a target.
    PacketReceived { target: String, packet: String },
}

/// The keys the monitor reacts to.
#[derive(Clone, Copy, Debug, PartialEq, Eq, Structural)]
pub enum KeyCode {
    Char(char),
    F(u8),
    Up,
    Down,
    PageUp,
    PageDown,
    Home,
    End,
    Other,
}

/// The number of log lines a page scroll moves.
pub const PAGE_LINES: usize = 10;

/// The number of log lines kept by default.
pub const DEFAULT_MAX_LOGS: usize = 1000;

/// The monitor's state.
pub struct TuiState {
    /// Target information by name (no name occurs twice)
    pub targets: Vec<(String, TargetInfo)>,
    /// Log entries (latest first)
    pub logs: Vec<LogEntry>,
    /// Maximum number of log entries to keep
    pub max_logs: usize,
    /// Current log scroll position
    pub log_scroll: usize,
    /// Should quit
    pub should_quit: bool,
    /// Help dialog state
    pub show_help: bool,
}

/// The last log line's position: one less than the number of lines, or 0 without lines.
pub open spec fn last_line(n: int) -> int {
    if n == 0 { 0 } else { n - 1 }
}

/// No target name occurs twice.
pub open spec fn distinct_names(ts: Seq<(String, TargetInfo)>) -> bool {
    forall|i: int, j: int| 0 <= i < j < ts.len() ==> (#[trigger] ts[i]).0@ != (#[trigger] ts[j]).0@
}

/// The place of the target named `name`, if any.
pub open spec fn target_index(ts: Seq<(String, TargetInfo)>, name: Seq<char>) -> Option<int> {
    if exists|k: int| 0 <= k < ts.len() && (#[trigger] ts[k]).0@ == name {
        Some(choose|k: int| 0 <= k < ts.len() && (#[trigger] ts[k]).0@ == name)
    } else {
        None
    }
}

/// The key press that the monitor reacts to with each key (see [`TuiState::handle_key`]):
/// the new scroll position.
pub open spec fn scrolled(scroll: int, lines: int, code: KeyCode) -> int {
    match code {
        KeyCode::Up => if scroll > 0 { scroll - 1 } else { scroll },
        KeyCode::Down => if scroll < last_line(lines) { scroll + 1 } else { scroll },
        KeyCode::PageUp => if scroll >= 10 { scroll - 10 } else { 0 },
        KeyCode::PageDown => if scroll + 10 <= last_line(lines) { scroll + 10 } else { last_line(lines) },
        KeyCode::Home => 0,
        KeyCode::End => last_line(lines),
        _ => scroll,
    }
}

/// The targets after an event (see [`TuiState::handle_ui_event`]): new connection info
/// replaces the old (a new target goes last), and a packet for a known target is counted.
pub open spec fn targets_after_event(
    ts: Seq<(String, TargetInfo)>,
    event: UiEvent,
    now: std::time::SystemTime,
) -> Seq<(String, TargetInfo)> {
    match event {
        UiEvent::TargetInfo { name, address, transport, status, next_attempt_at } => match target_index(
            ts,
            name@,
        ) {
            Some(k) => ts.update(
                k,
                (ts[k].0, TargetInfo { address, transport, status, next_attempt_at, ..ts[k].1 }),
            ),
            None => ts.push(
                (
                    name,
                    TargetInfo {
                        name,
                        address,
                        transport,
                        status,
                        last_packet_time: None,
                        packet_count: 0,
                        next_attempt_at,
                    },
                ),
            ),
        },
        UiEvent::LogEntry(_) => ts,
        UiEvent::PacketReceived { target, .. } => match target_index(ts, target@) {
            Some(k) => ts.update(
                k,
                (
                    ts[k].0,
                    TargetInfo {
                        packet_count: (ts[k].1.packet_count + 1) as u64,
                        last_packet_time: Some(now),
                        ..ts[k].1
                    },
                ),
            ),
            None => ts,
        },
    }
}

/// The first `max` lines of `lines`, or all of them when there are no more.
pub open spec fn capped(lines: Seq<LogEntry>, max: usize) -> Seq<LogEntry> {
    if lines.len() > max {
        lines.take(max as int)
    } else {
        lines
    }
}

/// The log lines after an event: a logged line goes on top, dropping the oldest beyond `max`.
pub open spec fn logs_after_event(logs: Seq<LogEntry>, event: UiEvent, max: usize) -> Seq<LogEntry> {
    match event {
        UiEvent::LogEntry(entry) => capped(seq![entry] + logs, max),
        _ => logs,
    }
}

/// The scroll position after an event: back to the top for a logged line.
pub open spec fn scroll_after_event(scroll: int, event: UiEvent) -> int {
    match event {
        UiEvent::LogEntry(_) => 0,
        _ => scroll,
    }
}

/// The targets after the events, one after the other.
pub open spec fn targets_after_events(
    ts: Seq<(String, TargetInfo)>,
    events: Seq<UiEvent>,
    now: std::time::SystemTime,
) -> Seq<(String, TargetInfo)>
    decreases events.len(),
{
    if events.len() == 0 {
        ts
    } else {
        targets_after_event(targets_after_events(ts, events.drop_last(), now), events.last(), now)
    }
}

/// The log lines after the events, one after the other.
pub open spec fn logs_after_events(logs: Seq<LogEntry>, events: Seq<UiEvent>, max: usize) -> Seq<LogEntry>
    decreases events.len(),
{
    if events.len() == 0 {
        logs
    } else {
        logs_after_event(logs_after_events(logs, events.drop_last(), max), events.last(), max)
    }
}

/// The scroll position after the events, one after the other.
pub open spec fn scroll_after_events(scroll: int, events: Seq<UiEvent>) -> int
    decreases events.len(),
{
    if events.len() == 0 {
        scroll
    } else {
        scroll_after_event(scroll_after_events(scroll, events.drop_last()), events.last())
    }
}

/// The lines logged by the events, the latest first.
pub open spec fn logged_latest_first(events: Seq<UiEvent>) -> Seq<LogEntry>
    decreases events.len(),
{
    if events.len() == 0 {
        seq![]
    } else {
        match events.last() {
            UiEvent::LogEntry(entry) => seq![entry] + logged_latest_first(events.drop_last()),
            _ => logged_latest_first(events.drop_last()),
        }
    }
}

/// Whether `event` is a packet forwarded to the target named `name`.
pub open spec fn packet_for(event: UiEvent, name: Seq<char>) -> bool {
    event matches UiEvent::PacketReceived { target, .. } && target@ == name
}

/// How many of the events are packets forwarded to the target named `name`.
pub open spec fn packets_for(events: Seq<UiEvent>, name: Seq<char>) -> nat
    decreases events.len(),
{
    if events.len() == 0 {
        0
    } else {
        (if packet_for(events[0], name) {
            1nat
        } else {
            0nat
        }) + packets_for(events.drop_first(), name)
    }
}

proof fn lemma_packets_at_most(events: Seq<UiEvent>, name: Seq<char>)
    ensures
        packets_for(events, name) <= events.len(),
    decreases events.len(),
{
    if events.len() > 0 {
        lemma_packets_at_most(events.drop_first(), name);
    }
}

/// Draining events keeps the latest lines: after the events, the log holds the lines they
/// logged, latest first, then the lines it held before, as many as fit; and it is scrolled
/// to the top exactly when some line was logged.
pub proof fn lemma_drained_logs(logs: Seq<LogEntry>, events: Seq<UiEvent>, max: usize, scroll: int)
    requires
        logs.len() <= max,
    ensures
        logs_after_events(logs, events, max) == capped(logged_latest_first(events) + logs, max),
        scroll_after_events(scroll, events) == if logged_latest_first(events).len() > 0 {
            0
        } else {
            scroll
        },
    decreases events.len(),
{
    if events.len() > 0 {
        let rest = events.drop_last();
        lemma_drained_logs(logs, rest, max, scroll);
        let before = logs_after_events(logs, rest, max);
        let all = logged_latest_first(rest) + logs;
        if let UiEvent::LogEntry(entry) = events.last() {
            assert(seq![entry] + all =~= logged_latest_first(events) + logs);
            if all.len() > max {
                assert(capped(seq![entry] + all.take(max as int), max) =~= capped(seq![entry] + all, max));
            }
        }
    }
}

/// A name occurs once among distinct names: its place is the one found for it.
proof fn lemma_target_index_at(ts: Seq<(String, TargetInfo)>, m: int)
    requires
        distinct_names(ts),
        0 <= m < ts.len(),
    ensures
        target_index(ts, ts[m].0@) == Some(m),
{
    let name = ts[m].0@;
    assert(exists|k: int| 0 <= k < ts.len() && (#[trigger] ts[k]).0@ == name) by {
        assert(ts[m].0@ == name);
    }
    let c = choose|k: int| 0 <= k < ts.len() && (#[trigger] ts[k]).0@ == name;
    if c < m {
        assert(ts[c].0@ != ts[m].0@);
    } else if m < c {
        assert(ts[m].0@ != ts[c].0@);
    }
}

/// The packets counted by the events, split off at the last event.
proof fn lemma_packets_for_last(events: Seq<UiEvent>, name: Seq<char>)
    requires
        events.len() > 0,
    ensures
        packets_for(events, name) == packets_for(events.drop_last(), name) + if packet_for(events.last(), name) {
            1nat
        } else {
            0nat
        },
    decreases events.len(),
{
    if events.len() > 1 {
        let rest = events.drop_first();
        lemma_packets_for_last(rest, name);
        assert(rest.drop_last() =~= events.drop_last().drop_first());
        assert(rest.last() == events.last());
        assert(events.drop_last()[0] == events[0]);
        assert(packets_for(events.drop_last(), name) == (if packet_for(events[0], name) {
            1nat
        } else {
            0nat
        }) + packets_for(rest.drop_last(), name));
    } else {
        assert(events.drop_last().len() == 0);
        assert(events.drop_first().len() == 0);
        assert(events.last() == events[0]);
        assert(packets_for(events.drop_first(), name) == 0);
        assert(packets_for(events.drop_last(), name) == 0);
    }
}

/// The monitor counts exactly the packets forwarded to each target: after the events, every
/// target known before keeps its name and place, its packet count grows by the number of
/// packets forwarded to it and by nothing else (connection news and log lines leave it as
/// it was), and the time of its last packet is the time of the events when one was
/// forwarded to it, and otherwise what it was.
pub proof fn lemma_packet_counts(ts: Seq<(String, TargetInfo)>, events: Seq<UiEvent>, now: std::time::SystemTime)
    requires
        distinct_names(ts),
        forall|k: int| 0 <= k < ts.len() ==> (#[trigger] ts[k]).1.packet_count + packets_for(events, ts[k].0@) <= u64::MAX,
    ensures
        ({
            let r = targets_after_events(ts, events, now);
            &&& distinct_names(r)
            &&& r.len() >= ts.len()
            &&& forall|k: int|
                0 <= k < ts.len() ==> {
                    &&& (#[trigger] r[k]).0 == ts[k].0
                    &&& r[k].1.packet_count == ts[k].1.packet_count + packets_for(events, ts[k].0@)
                    &&& r[k].1.last_packet_time == if packets_for(events, ts[k].0@) > 0 {
                        Some(now)
                    } else {
                        ts[k].1.last_packet_time
                    }
                }
        }),
    decreases events.len(),
{
    if events.len() > 0 {
        let rest = events.drop_last();
        let e = events.last();
        assert forall|k: int| 0 <= k < ts.len() implies (#[trigger] ts[k]).1.packet_count + packets_for(
            rest,
            ts[k].0@,
        ) <= u64::MAX by {
            lemma_packets_for_last(events, ts[k].0@);
        }
        lemma_packet_counts(ts, rest, now);
        let prev = targets_after_events(ts, rest, now);
        let r = targets_after_events(ts, events, now);
        assert(r == targets_after_event(prev, e, now));
        match e {
            UiEvent::TargetInfo { name, address, transport, status, next_attempt_at } => {
                if let Some(m) = target_index(prev, name@) {
                    assert(prev[m].0@ == name@);
                } else {
                    assert forall|k: int| 0 <= k < prev.len() implies (#[trigger] prev[k]).0@ != name@ by {
                        if prev[k].0@ == name@ {
                            assert(exists|j: int| 0 <= j < prev.len() && (#[trigger] prev[j]).0@ == name@);
                        }
                    }
                    assert forall|i: int, j: int| 0 <= i < j < r.len() implies (#[trigger] r[i]).0@ != (
                    #[trigger] r[j]).0@ by {
                        if j == r.len() - 1 {
                            assert(r[j].0@ == name@);
                            assert(r[i] == prev[i]);
                        } else {
                            assert(r[i] == prev[i]);
                            assert(r[j] == prev[j]);
                        }
                    }
                }
            },
            UiEvent::LogEntry(_) => {},
            UiEvent::PacketReceived { target, .. } => {
                if let Some(m) = target_index(prev, target@) {
                    assert(prev[m].0@ == target@);
                }
            },
        }
        assert forall|k: int| 0 <= k < ts.len() implies {
            &&& (#[trigger] r[k]).0 == ts[k].0
            &&& r[k].1.packet_count == ts[k].1.packet_count + packets_for(events, ts[k].0@)
            &&& r[k].1.last_packet_time == if packets_for(events, ts[k].0@) > 0 {
                Some(now)
            } else {
                ts[k].1.last_packet_time
            }
        } by {
            lemma_packets_for_last(events, ts[k].0@);
            assert(prev[k].0 == ts[k].0);
            if let UiEvent::PacketReceived { target, .. } = e {
                if let Some(m) = target_index(prev, target@) {
                    assert(prev[m].0@ == target@);
                    if m != k {
                        assert(prev[k].0@ != prev[m].0@);
                    }
                } else {
                    if prev[k].0@ == target@ {
                        assert(exists|j: int| 0 <= j < prev.len() && (#[trigger] prev[j]).0@ == target@);
                    }
                }
            }
        }
    }
}

/// News of a target's connection changes only what it says: the target's packet count and
/// the time of its last packet stay as they were, as do all other targets.
pub proof fn lemma_target_info_keeps_counts(ts: Seq<(String, TargetInfo)>, e: UiEvent, now: std::time::SystemTime)
    requires
        e is TargetInfo,
    ensures
        ({
            let r = targets_after_event(ts, e, now);
            &&& r.len() >= ts.len()
            &&& forall|k: int|
                0 <= k < ts.len() ==> {
                    &&& (#[trigger] r[k]).0 == ts[k].0
                    &&& r[k].1.packet_count == ts[k].1.packet_count
                    &&& r[k].1.last_packet_time == ts[k].1.last_packet_time
                    &&& r[k].1.name == ts[k].1.name
                }
        }),
{
}

impl TuiState {
    /// The invariant: at most `max_logs` log lines, the scroll position on a line, and no
    /// target twice.
    pub open spec fn wf(&self) -> bool {
        &&& self.logs@.len() <= self.max_logs
        &&& self.log_scroll <= last_line(self.logs@.len() as int)
        &&& distinct_names(self.targets@)
    }

    /// A monitor showing the given targets, with no log lines yet.
    pub fn new(targets: Vec<(String, TargetInfo)>) -> (r: Self)
        requires
            distinct_names(targets@),
        ensures
            r.targets@ == targets@,
            r.logs@.len() == 0,
            r.max_logs == DEFAULT_MAX_LOGS,
            r.log_scroll == 0,
            !r.should_quit,
            !r.show_help,
            r.wf(),
    {
        TuiState {
            targets,
            logs: Vec::new(),
            max_logs: DEFAULT_MAX_LOGS,
            log_scroll: 0,
            should_quit: false,
            show_help: false,
        }
    }

    pub fn should_quit(&self) -> (r: bool)
        ensures
            r == self.should_quit,
    {
        self.should_quit
    }

    /// Reacts to a pressed key: Ctrl+C quits; `h` or F1 toggles the help; the arrows, page
    /// keys, Home and End scroll the log, staying on a line.
    pub fn handle_key(&mut self, code: KeyCode, control: bool)
        requires
            old(self).wf(),
        ensures
            final(self).wf(),
            final(self).targets@ == old(self).targets@,
            final(self).logs@ == old(self).logs@,
            final(self).max_logs == old(self).max_logs,
            final(self).should_quit == (old(self).should_quit || (code == KeyCode::Char('c')
                && control)),
            final(self).show_help == (if !(code == KeyCode::Char('c') && control) && (code
                == KeyCode::Char('h') || code == KeyCode::F(1)) {
                !old(self).show_help
            } else {
                old(self).show_help
            }),
            final(self).log_scroll == scrolled(
                old(self).log_scroll as int,
                old(self).logs@.len() as int,
                code,
            ),
    {
        let last: usize = if self.logs.len() == 0 { 0 } else { self.logs.len() - 1 };
        match code {
            KeyCode::Char('c') if control => {
                self.should_quit = true;
            },
            KeyCode::Char('h') | KeyCode::F(1) => {
                self.show_help = !self.show_help;
            },
            KeyCode::Up => {
                if self.log_scroll > 0 {
                    self.log_scroll = self.log_scroll - 1;
                }
            },
            KeyCode::Down => {
                if self.log_scroll < last {
                    self.log_scroll = self.log_scroll + 1;
                }
            },
            KeyCode::PageUp => {
                self.log_scroll = if self.log_scroll >= PAGE_LINES { self.log_scroll - PAGE_LINES } else { 0 };
            },
            KeyCode::PageDown => {
                self.log_scroll = if last >= PAGE_LINES && self.log_scroll <= last - PAGE_LINES {
                    self.log_scroll + PAGE_LINES
                } else {
                    last
                };
            },
            KeyCode::Home => {
                self.log_scroll = 0;
            },
            KeyCode::End => {
                self.log_scroll = last;
            },
            _ => {},
        }
    }

    /// Applies an event from another task: a target's connection info is updated (or the
    /// target added), a log line goes on top (dropping the oldest beyond `max_logs`) and
    /// scrolls back to it, and a forwarded packet is counted for its target (if known) at
    /// time `now`.
    pub fn handle_ui_event(&mut self, event: UiEvent, now: std::time::SystemTime)
        requires
            old(self).wf(),
            event matches UiEvent::PacketReceived { target, .. } ==> (target_index(
                old(self).targets@,
                target@,
            ) matches Some(k) ==> old(self).targets@[k].1.packet_count < u64::MAX),
        ensures
            final(self).wf(),
            final(self).max_logs == old(self).max_logs,
            final(self).should_quit == old(self).should_quit,
            final(self).show_help == old(self).show_help,
            final(self).targets@ == targets_after_event(old(self).targets@, event, now),
            final(self).logs@ == logs_after_event(old(self).logs@, event, old(self).max_logs),
            final(self).log_scroll == scroll_after_event(old(self).log_scroll as int, event),
    {
        match event {
            UiEvent::TargetInfo { name, address, transport, status, next_attempt_at } => {
                match self.find_target(&name) {
                    Some(k) => {
                        let (key, info) = self.targets.remove(k);
                        let updated = TargetInfo { address, transport, status, next_attempt_at, ..info };
                        self.targets.insert(k, (key, updated));
                        assert(self.targets@ =~= old(self).targets@.update(k as int, self.targets@[k as int]));
                    },
                    None => {
                        let info = TargetInfo {
                            name: name.clone(),
                            address,
                            transport,
                            status,
                            last_packet_time: None,
                            packet_count: 0,
                            next_attempt_at,
                        };
                        self.targets.push((name, info));
                    },
                }
            },
            UiEvent::LogEntry(log_entry) => {
                self.logs.insert(0, log_entry);
                if self.logs.len() > self.max_logs {
                    self.logs.truncate(self.max_logs);
                }
                self.log_scroll = 0;
            },
            UiEvent::PacketReceived { target, packet: _ } => {
                match self.find_target(&target) {
                    Some(k) => {
                        assert(target_index(old(self).targets@, target@) == Some(k as int));
                        assert(old(self).targets@[k as int].1.packet_count < u64::MAX);
                        let (key, info) = self.targets.remove(k);
                        let updated = TargetInfo {
                            packet_count: info.packet_count + 1,
                            last_packet_time: Some(now),
                            ..info
                        };
                        self.targets.insert(k, (key, updated));
                        assert(self.targets@ =~= old(self).targets@.update(k as int, self.targets@[k as int]));
                    },
                    None => {},
                }
            },
        }
    }

    /// Applies the events one after the other, in the order they were sent (see
    /// [`TuiState::handle_ui_event`]), each forwarded packet counted at time `now`: the
    /// lines they log go on top, latest first, as many as fit, and the log scrolls back to
    /// the top exactly when some line was logged.
    pub fn handle_ui_events(&mut self, events: Vec<UiEvent>, now: std::time::SystemTime)
        requires
            old(self).wf(),
            forall|k: int|
                0 <= k < old(self).targets@.len() ==> (#[trigger] old(self).targets@[k]).1.packet_count
                    + packets_for(events@, old(self).targets@[k].0@) <= u64::MAX,
        ensures
            final(self).wf(),
            final(self).max_logs == old(self).max_logs,
            final(self).should_quit == old(self).should_quit,
            final(self).show_help == old(self).show_help,
            final(self).targets@ == targets_after_events(old(self).targets@, events@, now),
            final(self).logs@ == logs_after_events(old(self).logs@, events@, old(self).max_logs),
            final(self).log_scroll == scroll_after_events(old(self).log_scroll as int, events@),
            final(self).logs@ == capped(logged_latest_first(events@) + old(self).logs@, old(self).max_logs),
            final(self).log_scroll == if logged_latest_first(events@).len() > 0 {
                0
            } else {
                old(self).log_scroll as int
            },
    {
        let ghost all = events@;
        let ghost start = *self;
        proof {
            lemma_drained_logs(start.logs@, all, start.max_logs, start.log_scroll as int);
        }
        let mut events = events;
        let total: usize = events.len();
        let mut i: usize = 0;
        assert(events@ =~= all.skip(0));
        while events.len() > 0
            invariant
                i + events@.len() == all.len(),
                all.len() == total,
                events@ == all.skip(i as int),
                self.wf(),
                self.max_logs == start.max_logs,
                self.should_quit == start.should_quit,
                self.show_help == start.show_help,
                self.targets@ == targets_after_events(start.targets@, all.take(i as int), now),
                self.logs@ == logs_after_events(start.logs@, all.take(i as int), start.max_logs),
                self.log_scroll == scroll_after_events(start.log_scroll as int, all.take(i as int)),
                forall|k: int|
                    0 <= k < self.targets@.len() ==> (#[trigger] self.targets@[k]).1.packet_count
                        + packets_for(events@, self.targets@[k].0@) <= u64::MAX,
            decreases events@.len(),
        {
            let ghost rem = events@;
            let event = events.remove(0);
            let ghost ev = event;
            assert(event == all[i as int]);
            assert(all.take(i + 1).drop_last() =~= all.take(i as int));
            assert(all.take(i + 1).last() == all[i as int]);
            assert(events@ =~= all.skip(i + 1));
            assert(rem.drop_first() =~= events@);
            assert(rem[0] == ev);
            let ghost before = self.targets@;
            proof {
                if let UiEvent::PacketReceived { target, .. } = ev {
                    if let Some(k) = target_index(before, target@) {
                        assert(before[k].0@ == target@);
                        assert(packets_for(rem, before[k].0@) >= 1);
                    }
                }
            }
            self.handle_ui_event(event, now);
            assert forall|k: int| 0 <= k < self.targets@.len() implies (#[trigger] self.targets@[k]).1.packet_count
                + packets_for(events@, self.targets@[k].0@) <= u64::MAX by {
                lemma_packets_at_most(events@, self.targets@[k].0@);
                if k < before.len() {
                    assert(packets_for(rem, before[k].0@) == (if packet_for(ev, before[k].0@) {
                        1nat
                    } else {
                        0nat
                    }) + packets_for(events@, before[k].0@));
                    if let UiEvent::PacketReceived { target, .. } = ev {
                        if let Some(m) = target_index(before, target@) {
                            assert(before[m].0@ == target@);
                            if m != k {
                                assert(before[k].0@ != before[m].0@);
                            }
                        }
                    }
                }
            }
            i = i + 1;
        }
        assert(all.take(i as int) =~= all);
    }

    /// The place of the target named `name`; `None` when it is unknown.
    fn find_target(&self, name: &String) -> (r: Option<usize>)
        requires
            distinct_names(self.targets@),
        ensures
            match target_index(self.targets@, name@) {
                Some(k) => r matches Some(i) && i as int == k && 0 <= k < self.targets@.len(),
                None => r is None,
            },
    {
        let mut k: usize = 0;
        while k < self.targets.len()
            invariant
                k <= self.targets@.len(),
                distinct_names(self.targets@),
                forall|m: int| 0 <= m < k ==> (#[trigger] self.targets@[m]).0@ != name@,
            decreases self.targets@.len() - k,
        {
            if str_eq(self.targets[k].0.as_str(), name.as_str()) {
                let ghost c = choose|c: int| 0 <= c < self.targets@.len() && (#[trigger] self.targets@[c]).0@ == name@;
                assert(self.targets@[k as int].0@ == name@);
                assert(c == k);
                return Some(k);
            }
            k = k + 1;
        }
        None
    }
}

} // verus!
