//! The progress spinner: a symbol that turns with every message, in front of the latest message.
use vstd::prelude::*;

verus! {

/// The position of the spinner.
#[derive(Debug, Clone, Copy, PartialEq, Eq, PartialOrd, Ord, Structural)]
pub enum SpinnerState {
    Hor,
    Left,
    Vert,
    Right,
}

impl Default for SpinnerState {
    /// The spinner starts out lying down.
    fn default() -> (state: Self)
        ensures
            state == SpinnerState::Hor,
    {
        SpinnerState::Hor
    }
}

impl SpinnerState {
    /// The position after this one.
    pub open spec fn successor(self) -> Self {
        match self {
            SpinnerState::Hor => SpinnerState::Left,
            SpinnerState::Left => SpinnerState::Vert,
            SpinnerState::Vert => SpinnerState::Right,
            SpinnerState::Right => SpinnerState::Hor,
        }
    }

    /// The position after `turns` turns.
    pub open spec fn turned(self, turns: nat) -> Self
        decreases turns,
    {
        if turns == 0 {
            self
        } else {
            self.turned((turns - 1) as nat).successor()
        }
    }

    /// The text that shows this position.
    pub open spec fn shown(self) -> Seq<char> {
        match self {
            SpinnerState::Hor => "-"@,
            SpinnerState::Left => "\\"@,
            SpinnerState::Vert => "|"@,
            SpinnerState::Right => "/"@,
        }
    }

    /// Turns the spinner by one position.
    pub fn next(&mut self)
        ensures
            *final(self) == old(self).successor(),
    {
        *self = match *self {
            SpinnerState::Hor => SpinnerState::Left,
            SpinnerState::Left => SpinnerState::Vert,
            SpinnerState::Vert => SpinnerState::Right,
            SpinnerState::Right => SpinnerState::Hor,
        };
    }

    /// The text that shows this position.
    pub fn symbol(self) -> (symbol: &'static str)
        ensures
            symbol@ == self.shown(),
    {
        match self {
            SpinnerState::Hor => "-",
            SpinnerState::Left => "\\",
            SpinnerState::Vert => "|",
            SpinnerState::Right => "/",
        }
    }

    /// The spinner comes round after four turns, and not before.
    pub proof fn comes_round(self, turns: nat)
        ensures
            self.turned(turns) == self <==> turns % 4 == 0,
            self.turned(turns + 4) == self.turned(turns),
    {
        reveal_with_fuel(SpinnerState::turned, 5);
        self.turned_modulo(turns);
    }

    proof fn turned_modulo(self, turns: nat)
        ensures
            self.turned(turns) == self.turned(turns % 4),
        decreases turns,
    {
        reveal_with_fuel(SpinnerState::turned, 5);
        if turns >= 4 {
            self.turned_modulo((turns - 4) as nat);
            assert((turns - 4) as nat % 4 == turns % 4);
        }
    }

    /// Different positions look different.
    pub proof fn symbols_differ(self, other: Self)
        ensures
            self.shown() == other.shown() ==> self == other,
    {
        reveal_strlit("-");
        reveal_strlit("\\");
        reveal_strlit("|");
        reveal_strlit("/");
        assert(self.shown()[0] == other.shown()[0] ==> self == other);
    }
}

/// What a look at the message channel found.
#[derive(Debug)]
pub enum Signal {
    /// A new message.
    Message(String),
    /// Nothing new.
    Empty,
    /// No message will ever come again.
    Disconnected,
}

/// What the spinner does after a look at the message channel.
#[derive(Debug, PartialEq, Eq)]
pub enum Report {
    /// Look again.
    Nothing,
    /// Show this line in place of the one shown before, then look again.
    Line(String),
    /// Stop for good.
    Stop,
}

/// The spinner with the message that it shows.
#[derive(Debug)]
pub struct Spinner {
    pub state: SpinnerState,
    pub msg: Option<String>,
}

/// A spinner as a value: the position and the text of the message.
pub struct SpinnerView {
    pub state: SpinnerState,
    pub msg: Option<Seq<char>>,
}

impl View for Spinner {
    type V = SpinnerView;

    open spec fn view(&self) -> SpinnerView {
        SpinnerView {
            state: self.state,
            msg: match self.msg {
                Some(msg) => Some(msg@),
                None => None,
            },
        }
    }
}

impl SpinnerView {
    /// The spinner before any message.
    pub open spec fn start() -> SpinnerView {
        SpinnerView { state: SpinnerState::Hor, msg: None }
    }

    /// The spinner after the signal.
    pub open spec fn after(self, signal: Signal) -> SpinnerView {
        match signal {
            Signal::Message(msg) => SpinnerView { state: self.state.successor(), msg: Some(msg@) },
            Signal::Empty | Signal::Disconnected => self,
        }
    }

    /// The spinner after all the signals.
    pub open spec fn after_all(self, signals: Seq<Signal>) -> SpinnerView
        decreases signals.len(),
    {
        if signals.len() == 0 {
            self
        } else {
            self.after_all(signals.drop_last()).after(signals.last())
        }
    }

    /// The line that shows the spinner, once there is a message.
    pub open spec fn line(self) -> Option<Seq<char>> {
        match self.msg {
            Some(msg) => Some(self.state.shown() + " "@ + msg),
            None => None,
        }
    }
}

/// The messages among the signals, in order.
pub open spec fn messages(signals: Seq<Signal>) -> Seq<Seq<char>>
    decreases signals.len(),
{
    if signals.len() == 0 {
        Seq::empty()
    } else {
        match signals.last() {
            Signal::Message(msg) => messages(signals.drop_last()).push(msg@),
            Signal::Empty | Signal::Disconnected => messages(signals.drop_last()),
        }
    }
}

impl Spinner {
    /// A spinner that has no message yet.
    pub fn new() -> (spinner: Self)
        ensures
            spinner@ == SpinnerView::start(),
    {
        Spinner { state: SpinnerState::default(), msg: None }
    }

    /// Takes in what a look at the channel found, and says what to do about it.
    ///
    /// A new message turns the spinner and takes the place of the one before. With nothing new, the message is shown
    /// again, if there is one.
    pub fn step(&mut self, signal: Signal) -> (report: Report)
        ensures
            final(self)@ == old(self)@.after(signal),
            report is Stop <==> signal is Disconnected,
            match report {
                Report::Line(line) => signal is Empty && old(self)@.line() == Some(line@),
                Report::Nothing => signal is Message || (signal is Empty && old(self)@.line() is None),
                Report::Stop => true,
            },
    {
        match signal {
            Signal::Message(msg) => {
                self.state.next();
                self.msg = Some(msg);
                Report::Nothing
            },
            Signal::Disconnected => Report::Stop,
            Signal::Empty => match &self.msg {
                None => Report::Nothing,
                Some(msg) => {
                    let mut line = String::new();
                    line.append(self.state.symbol());
                    line.append(" ");
                    line.append(msg.as_str());
                    assert(line@ =~= self.state.shown() + " "@ + msg@);
                    Report::Line(line)
                },
            },
        }
    }
}

/// The spinner always holds the latest message, and has turned once for every message.
pub proof fn shows_the_latest_message(signals: Seq<Signal>)
    ensures
        SpinnerView::start().after_all(signals).state == SpinnerState::Hor.turned(messages(signals).len()),
        SpinnerView::start().after_all(signals).msg == (if messages(signals).len() == 0 {
            None
        } else {
            Some(messages(signals).last())
        }),
    decreases signals.len(),
{
    if signals.len() > 0 {
        shows_the_latest_message(signals.drop_last());
    }
}

/// A message turns the spinner by one position, in the order of `-`, `\\`, `|` and `/`, and takes the place of the one
/// before; nothing else changes the spinner.
pub proof fn only_messages_change_the_spinner(spinner: SpinnerView, signal: Signal)
    ensures
        signal matches Signal::Message(msg) ==> {
            let next = spinner.after(signal);
            &&& next.msg == Some(msg@)
            &&& spinner.state.shown() == "-"@ ==> next.state.shown() == "\\"@
            &&& spinner.state.shown() == "\\"@ ==> next.state.shown() == "|"@
            &&& spinner.state.shown() == "|"@ ==> next.state.shown() == "/"@
            &&& spinner.state.shown() == "/"@ ==> next.state.shown() == "-"@
        },
        !(signal is Message) ==> spinner.after(signal) == spinner,
        SpinnerView::start().state.shown() == "-"@,
        SpinnerView::start().msg is None,
{
    spinner.state.symbols_differ(SpinnerState::Hor);
    spinner.state.symbols_differ(SpinnerState::Left);
    spinner.state.symbols_differ(SpinnerState::Vert);
    spinner.state.symbols_differ(SpinnerState::Right);
}

/// The line is the symbol, a space and the whole message.
pub proof fn the_line_shows_the_whole_message(spinner: SpinnerView)
    ensures
        match spinner.msg {
            Some(msg) => spinner.line() matches Some(line) && line == spinner.state.shown() + " "@ + msg,
            None => spinner.line() is None,
        },
{
}

/// What is looked at of a spinner is what it holds.
pub proof fn views_hold_everything(spinner: Spinner)
    ensures
        spinner@.state == spinner.state,
        spinner.msg matches Some(msg) ==> spinner@.msg == Some(msg@),
        spinner.msg is None ==> spinner@.msg is None,
{
}

/// The messages among the signals are taken in order, and the spinner goes through signals one by one.
pub proof fn signals_are_taken_one_by_one(spinner: SpinnerView, signals: Seq<Signal>, signal: Signal)
    ensures
        spinner.after_all(signals.push(signal)) == spinner.after_all(signals).after(signal),
        spinner.after_all(Seq::empty()) == spinner,
        messages(signals.push(signal)) == (match signal {
            Signal::Message(msg) => messages(signals).push(msg@),
            Signal::Empty | Signal::Disconnected => messages(signals),
        }),
        messages(Seq::empty()) == Seq::<Seq<char>>::empty(),
{
    assert(signals.push(signal).drop_last() =~= signals);
}

} // verus!
