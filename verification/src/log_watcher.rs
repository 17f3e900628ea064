//! Gameplay events read from the game client's live text log.

use crate::event_bus::{BusView, EventBus, Subscription};
use crate::text::{
    contains, extract_field, field_after, find, lemma_first_match_contains, parse_decimal,
    parse_unsigned, string_of, to_chars,
};
use vstd::prelude::*;

verus! {

/// One gameplay event recognised in a line of the log.
#[derive(Debug, Clone)]
pub enum LogEvent {
    RoundEnded { round_num: u32 },
    MatchEnded { winning_team: String },
    PlayerDied,
    BombInteraction { agent: String },
    GameplayStarted,
}

/// The mathematical value of a `LogEvent`.
pub enum LogEventView {
    RoundEnded { round_num: u32 },
    MatchEnded { winning_team: Seq<char> },
    PlayerDied,
    BombInteraction { agent: Seq<char> },
    GameplayStarted,
}

impl View for LogEvent {
    type V = LogEventView;

    open spec fn view(&self) -> LogEventView {
        match *self {
            LogEvent::RoundEnded { round_num } => LogEventView::RoundEnded { round_num },
            LogEvent::MatchEnded { winning_team } => LogEventView::MatchEnded {
                winning_team: winning_team@,
            },
            LogEvent::PlayerDied => LogEventView::PlayerDied,
            LogEvent::BombInteraction { agent } => LogEventView::BombInteraction { agent: agent@ },
            LogEvent::GameplayStarted => LogEventView::GameplayStarted,
        }
    }
}

impl LogEvent {
    /// A copy of the event.
    pub fn duplicate(&self) -> (r: LogEvent)
        ensures
            r == *self,
    {
        match self {
            LogEvent::RoundEnded { round_num } => LogEvent::RoundEnded { round_num: *round_num },
            LogEvent::MatchEnded { winning_team } => LogEvent::MatchEnded {
                winning_team: winning_team.clone(),
            },
            LogEvent::PlayerDied => LogEvent::PlayerDied,
            LogEvent::BombInteraction { agent } => LogEvent::BombInteraction { agent: agent.clone() },
            LogEvent::GameplayStarted => LogEvent::GameplayStarted,
        }
    }
}

/// The round-ended detector: its marker, then the round number between the
/// quote that follows `round` and the next quote.
pub open spec fn round_ended(line: Seq<char>) -> Option<LogEventView> {
    match field_after(line, "round '"@, '\'') {
        Some(digits) => match parse_unsigned(digits, u32::MAX as nat) {
            Some(n) => Some(LogEventView::RoundEnded { round_num: n as u32 }),
            None => None,
        },
        None => None,
    }
}

/// The match-ended detector: the winning team stands between the quote
/// that follows `Winning Team:` and the next quote; a line that names no
/// winning team so gives no event.
pub open spec fn match_ended(line: Seq<char>) -> Option<LogEventView> {
    match field_after(line, "Winning Team: '"@, '\'') {
        Some(team) => Some(LogEventView::MatchEnded { winning_team: team }),
        None => None,
    }
}

/// The signature of the line that acknowledges the player's death.
pub open spec fn is_player_death(line: Seq<char>) -> bool {
    &&& contains(line, "_PostDeath_PC"@)
    &&& contains(line, "AcknowledgePawn"@)
    &&& !contains(line, "PrevPawn"@)
    &&& contains(line, "ClientRestart_Implementation"@)
}

/// The bomb-interaction detector: the agent is what stands between the
/// effect-added marker and the first underscore after it.
pub open spec fn bomb_interaction(line: Seq<char>) -> Option<LogEventView> {
    match field_after(line, "InternalOnActiveGameplayEffectAdded "@, '_') {
        Some(agent) => Some(LogEventView::BombInteraction { agent }),
        None => None,
    }
}

/// The event that a line of the log stands for, if any. The detectors are
/// tried in a fixed order and the first whose marker occurs in the line
/// decides; where its payload cannot be read the line gives no event.
pub open spec fn classify(line: Seq<char>) -> Option<LogEventView> {
    if contains(line, "AShooterGameState::OnRoundEnded for round"@) {
        round_ended(line)
    } else if contains(line, "Match Ended: Completion State"@) {
        match_ended(line)
    } else if is_player_death(line) {
        Some(LogEventView::PlayerDied)
    } else if contains(line, "BombInteractionBuff_C"@) {
        bomb_interaction(line)
    } else if contains(line, "Gameplay started at local time 0."@) {
        Some(LogEventView::GameplayStarted)
    } else {
        None
    }
}

/// Whether `marker` occurs in `line`.
fn has_marker(line: &Vec<char>, marker: &str) -> (r: bool)
    ensures
        r == contains(line@, marker@),
{
    let pat = to_chars(marker);
    proof {
        lemma_first_match_contains(line@, pat@);
    }
    find(line, &pat).is_some()
}

/// The text after the first `opener` in `line`, up to `stop`.
fn text_field(line: &Vec<char>, opener: &str, stop: char) -> (r: Option<Vec<char>>)
    ensures
        match r {
            Some(field) => field_after(line@, opener@, stop) == Some(field@),
            None => field_after(line@, opener@, stop) is None,
        },
{
    let pat = to_chars(opener);
    extract_field(line, &pat, stop)
}

/// `r` is what classifying `line` gives.
pub open spec fn is_classification(line: Seq<char>, r: Option<LogEvent>) -> bool {
    match r {
        Some(event) => classify(line) == Some(event@),
        None => classify(line) is None,
    }
}

/// Classifying is a function of the text of the line alone: two results
/// for lines of the same text, whenever and in whatever order they were
/// obtained, are the same event or both none.
pub proof fn law_classification_is_determined(
    a: Seq<char>,
    b: Seq<char>,
    first: Option<LogEvent>,
    second: Option<LogEvent>,
)
    requires
        a == b,
        is_classification(a, first),
        is_classification(b, second),
    ensures
        first is Some <==> second is Some,
        first is Some ==> first->0@ == second->0@,
{
}

/// Classifies one line of the log.
pub fn parse_line(line: &str) -> (r: Option<LogEvent>)
    ensures
        is_classification(line@, r),
{
    let chars = to_chars(line);
    if has_marker(&chars, "AShooterGameState::OnRoundEnded for round") {
        let digits = match text_field(&chars, "round '", '\'') {
            Some(d) => d,
            None => { return None; },
        };
        return match parse_decimal(&digits, 0xffff_ffff) {
            Some(n) => Some(LogEvent::RoundEnded { round_num: n as u32 }),
            None => None,
        };
    }
    if has_marker(&chars, "Match Ended: Completion State") {
        return match text_field(&chars, "Winning Team: '", '\'') {
            Some(team) => Some(LogEvent::MatchEnded { winning_team: string_of(&team) }),
            None => None,
        };
    }
    if has_marker(&chars, "_PostDeath_PC") && has_marker(&chars, "AcknowledgePawn") && !has_marker(
        &chars,
        "PrevPawn",
    ) {
        if has_marker(&chars, "ClientRestart_Implementation") {
            return Some(LogEvent::PlayerDied);
        }
    }
    if has_marker(&chars, "BombInteractionBuff_C") {
        return match text_field(&chars, "InternalOnActiveGameplayEffectAdded ", '_') {
            Some(agent) => Some(LogEvent::BombInteraction { agent: string_of(&agent) }),
            None => None,
        };
    }
    if has_marker(&chars, "Gameplay started at local time 0.") {
        return Some(LogEvent::GameplayStarted);
    }
    None
}

/// How many events the queue of one subscription holds.
pub const QUEUE_CAPACITY: usize = 64;

/// How long the tailer waits, in milliseconds, after a read that brought
/// nothing new.
pub const POLL_INTERVAL_MS: u64 = 100;

/// Where the tailer stands: `Opening` until the log is open, `Tailing`
/// while it reads what is appended, `Stopped` for good after a failure.
#[derive(Debug, Clone, Copy, PartialEq, Eq, Structural)]
pub enum TailState {
    Opening,
    Tailing,
    Stopped,
}

/// What happened when the last action was carried out.
#[derive(Debug)]
pub enum TailInput {
    /// The log was opened.
    Opened,
    /// The log could not be opened.
    OpenFailed,
    /// A read brought this text, a line or the unfinished rest of one.
    Line(String),
    /// A read brought nothing: the cursor is at the end of the file.
    NoData,
    /// A read failed.
    ReadFailed,
}

/// The mathematical value of a `TailInput`.
pub enum TailInputView {
    Opened,
    OpenFailed,
    Line(Seq<char>),
    NoData,
    ReadFailed,
}

impl View for TailInput {
    type V = TailInputView;

    open spec fn view(&self) -> TailInputView {
        match *self {
            TailInput::Opened => TailInputView::Opened,
            TailInput::OpenFailed => TailInputView::OpenFailed,
            TailInput::Line(text) => TailInputView::Line(text@),
            TailInput::NoData => TailInputView::NoData,
            TailInput::ReadFailed => TailInputView::ReadFailed,
        }
    }
}

/// What is to be done next for the tailer.
#[derive(Debug, Clone, Copy, PartialEq, Eq, Structural)]
pub enum TailAction {
    /// Open the log.
    Open,
    /// Move the cursor to the end of the log, so that nothing written
    /// before now is read, then read.
    SkipToEndAndRead,
    /// Read the next line.
    Read,
    /// Wait for `millis` milliseconds, then read.
    WaitAndRead { millis: u64 },
    /// Do nothing more.
    Stop,
}

/// The state after `input` arrived in `state`. An input that the state
/// did not ask for leaves it unchanged.
pub open spec fn next_state(state: TailState, input: TailInputView) -> TailState {
    match (state, input) {
        (TailState::Opening, TailInputView::Opened) => TailState::Tailing,
        (TailState::Opening, TailInputView::OpenFailed) => TailState::Stopped,
        (TailState::Tailing, TailInputView::ReadFailed) => TailState::Stopped,
        _ => state,
    }
}

/// The action that follows `input` arriving in `state`.
pub open spec fn next_action(state: TailState, input: TailInputView) -> TailAction {
    match (state, input) {
        (TailState::Opening, TailInputView::Opened) => TailAction::SkipToEndAndRead,
        (TailState::Opening, TailInputView::OpenFailed) => TailAction::Stop,
        (TailState::Opening, _) => TailAction::Open,
        (TailState::Tailing, TailInputView::NoData) => TailAction::WaitAndRead {
            millis: POLL_INTERVAL_MS,
        },
        (TailState::Tailing, TailInputView::ReadFailed) => TailAction::Stop,
        (TailState::Tailing, _) => TailAction::Read,
        (TailState::Stopped, _) => TailAction::Stop,
    }
}

/// The event that `input` arriving in `state` publishes: the one that a
/// line read while tailing stands for.
pub open spec fn published(state: TailState, input: TailInputView) -> Option<LogEventView> {
    match (state, input) {
        (TailState::Tailing, TailInputView::Line(text)) => classify(text),
        _ => None,
    }
}

/// The mathematical value of a `LogWatcher`.
pub struct WatcherView {
    pub state: TailState,
    pub bus: BusView,
}

impl WatcherView {
    /// The watcher after `input`.
    pub open spec fn step(self, input: TailInputView) -> WatcherView {
        WatcherView {
            state: next_state(self.state, input),
            bus: match published(self.state, input) {
                Some(event) => self.bus.publish(event),
                None => self.bus,
            },
        }
    }
}

/// The events that the lines `lines` stand for, in the order of the
/// lines; a line that stands for none adds none.
pub open spec fn events_of(lines: Seq<Seq<char>>) -> Seq<LogEventView>
    decreases lines.len(),
{
    if lines.len() == 0 {
        Seq::empty()
    } else {
        match classify(lines.last()) {
            Some(event) => events_of(lines.drop_last()).push(event),
            None => events_of(lines.drop_last()),
        }
    }
}

impl WatcherView {
    /// The watcher after the lines `lines` were read, one after the other.
    pub open spec fn read_all(self, lines: Seq<Seq<char>>) -> WatcherView
        decreases lines.len(),
    {
        if lines.len() == 0 {
            self
        } else {
            self.read_all(lines.drop_last()).step(TailInputView::Line(lines.last()))
        }
    }
}

/// The tailer of the log with the bus that it publishes to.
pub struct LogWatcher {
    state: TailState,
    bus: EventBus,
}

impl View for LogWatcher {
    type V = WatcherView;

    closed spec fn view(&self) -> WatcherView {
        WatcherView { state: self.state, bus: self.bus@ }
    }
}

impl LogWatcher {
    /// A watcher that has not opened the log yet, with its first
    /// subscription.
    pub fn new() -> (r: (LogWatcher, Subscription))
        ensures
            r.0@.state == TailState::Opening,
            r.0@.bus.capacity == QUEUE_CAPACITY,
            r.0@.bus.queues == seq![Some(Seq::<LogEventView>::empty())],
            r.0@.bus.bounded(),
            r.1.id() == 0,
    {
        let mut bus = EventBus::new(QUEUE_CAPACITY);
        let first = bus.subscribe();
        assert(bus@.queues =~= seq![Some(Seq::<LogEventView>::empty())]);
        (LogWatcher { state: TailState::Opening, bus }, first)
    }

    /// Registers a new subscription, which sees only what is published
    /// from now on.
    pub fn subscribe(&mut self) -> (sub: Subscription)
        ensures
            sub.id() == old(self)@.bus.free_slot(),
            !old(self)@.bus.is_active(sub.id()),
            final(self)@.state == old(self)@.state,
            final(self)@.bus == old(self)@.bus.subscribe(),
            old(self)@.bus.bounded() ==> final(self)@.bus.bounded(),
    {
        self.bus.subscribe()
    }

    /// Gives up the subscription `sub`.
    pub fn unsubscribe(&mut self, sub: Subscription)
        ensures
            final(self)@.state == old(self)@.state,
            final(self)@.bus == old(self)@.bus.unsubscribe(sub.id()),
            old(self)@.bus.bounded() ==> final(self)@.bus.bounded(),
    {
        self.bus.unsubscribe(sub)
    }

    /// Takes the oldest pending event of the subscription `sub`.
    pub fn poll(&mut self, sub: &Subscription) -> (event: Option<LogEvent>)
        ensures
            final(self)@.state == old(self)@.state,
            final(self)@.bus == old(self)@.bus.poll(sub.id()),
            match event {
                Some(e) => old(self)@.bus.is_active(sub.id()) && old(self)@.bus.queue(
                    sub.id(),
                ).len() > 0 && e@ == old(self)@.bus.queue(sub.id())[0],
                None => !old(self)@.bus.is_active(sub.id()) || old(self)@.bus.queue(
                    sub.id(),
                ).len() == 0,
            },
            old(self)@.bus.bounded() ==> final(self)@.bus.bounded(),
    {
        self.bus.poll(sub)
    }

    /// Where the tailer stands.
    pub fn state(&self) -> (s: TailState)
        ensures
            s == self@.state,
    {
        self.state
    }

    /// The action that the tailer begins with in its present state.
    pub fn start(&self) -> (action: TailAction)
        ensures
            action == match self@.state {
                TailState::Opening => TailAction::Open,
                TailState::Tailing => TailAction::Read,
                TailState::Stopped => TailAction::Stop,
            },
    {
        match self.state {
            TailState::Opening => TailAction::Open,
            TailState::Tailing => TailAction::Read,
            TailState::Stopped => TailAction::Stop,
        }
    }

    /// Takes in what the last action brought: moves to the next state,
    /// publishes the event of a line read while tailing, and says what to
    /// do next.
    pub fn step(&mut self, input: &TailInput) -> (action: TailAction)
        ensures
            final(self)@ == old(self)@.step(input@),
            action == next_action(old(self)@.state, input@),
            old(self)@.bus.bounded() ==> final(self)@.bus.bounded(),
    {
        match self.state {
            TailState::Opening => match input {
                TailInput::Opened => {
                    self.state = TailState::Tailing;
                    TailAction::SkipToEndAndRead
                },
                TailInput::OpenFailed => {
                    self.state = TailState::Stopped;
                    TailAction::Stop
                },
                _ => TailAction::Open,
            },
            TailState::Tailing => match input {
                TailInput::Line(text) => {
                    match parse_line(text.as_str()) {
                        Some(event) => {
                            self.bus.publish(&event);
                        },
                        None => {},
                    }
                    TailAction::Read
                },
                TailInput::NoData => TailAction::WaitAndRead { millis: POLL_INTERVAL_MS },
                TailInput::ReadFailed => {
                    self.state = TailState::Stopped;
                    TailAction::Stop
                },
                _ => TailAction::Read,
            },
            TailState::Stopped => TailAction::Stop,
        }
    }
}

/// `Stopped` is terminal: no input leads out of it, publishes anything or
/// asks for anything but to stop.
pub proof fn law_stopped_is_terminal(input: TailInputView)
    ensures
        next_state(TailState::Stopped, input) == TailState::Stopped,
        next_action(TailState::Stopped, input) == TailAction::Stop,
        published(TailState::Stopped, input) is None,
{
}

/// Opening the log publishes nothing and asks for the cursor to be moved
/// to the end; the first line read after that gives exactly the event it
/// stands for, once, to a subscription that had nothing pending.
pub proof fn law_first_line_after_open_yields_its_event(
    watcher: WatcherView,
    id: int,
    line: Seq<char>,
)
    requires
        watcher.state == TailState::Opening,
        watcher.bus.capacity >= 1,
        watcher.bus.is_active(id),
        watcher.bus.queue(id).len() == 0,
    ensures
        watcher.step(TailInputView::Opened).bus == watcher.bus,
        next_action(watcher.state, TailInputView::Opened) == TailAction::SkipToEndAndRead,
        ({
            let after = watcher.step(TailInputView::Opened).step(TailInputView::Line(line));
            match classify(line) {
                Some(event) => after.bus.queue(id) == seq![event],
                None => after.bus == watcher.bus,
            }
        }),
{
    let after = watcher.step(TailInputView::Opened).step(TailInputView::Line(line));
    if let Some(event) = classify(line) {
        assert(after.bus.queue(id) =~= seq![event]);
    }
}

/// While tailing, the lines read are published in their order: after the
/// lines `lines` the bus has received exactly the events that they stand
/// for, one per recognised line, in the order of the lines, and the tailer
/// is still tailing.
pub proof fn law_lines_are_published_in_order(watcher: WatcherView, lines: Seq<Seq<char>>)
    requires
        watcher.state == TailState::Tailing,
    ensures
        watcher.read_all(lines).state == TailState::Tailing,
        watcher.read_all(lines).bus == watcher.bus.publish_all(events_of(lines)),
    decreases lines.len(),
{
    if lines.len() > 0 {
        law_lines_are_published_in_order(watcher, lines.drop_last());
        let before = events_of(lines.drop_last());
        if let Some(event) = classify(lines.last()) {
            assert(before.push(event).drop_last() =~= before);
        }
    }
}

} // verus!
