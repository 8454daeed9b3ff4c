use ostep::spinner::{Report, Signal, Spinner, SpinnerState};

#[test]
fn spinner_comes_round_after_four_turns() {
    let mut state = SpinnerState::default();
    let mut shown = Vec::new();
    for _ in 0..5 {
        shown.push(state.symbol());
        state.next();
    }
    assert_eq!(shown, ["-", "\\", "|", "/", "-"]);
}

#[test]
fn nothing_is_shown_before_the_first_message() {
    let mut spinner = Spinner::new();
    assert_eq!(spinner.step(Signal::Empty), Report::Nothing);
    assert_eq!(spinner.step(Signal::Empty), Report::Nothing);
    assert_eq!(spinner.state, SpinnerState::Hor);
}

#[test]
fn the_latest_message_is_shown_until_the_next() {
    let mut spinner = Spinner::new();
    assert_eq!(spinner.step(Signal::Message("parsing tests".to_owned())), Report::Nothing);
    assert_eq!(spinner.step(Signal::Empty), Report::Line("\\ parsing tests".to_owned()));
    assert_eq!(spinner.step(Signal::Empty), Report::Line("\\ parsing tests".to_owned()));
    assert_eq!(spinner.step(Signal::Message("generating tests".to_owned())), Report::Nothing);
    assert_eq!(spinner.step(Signal::Message("running tests".to_owned())), Report::Nothing);
    assert_eq!(spinner.step(Signal::Empty), Report::Line("/ running tests".to_owned()));
}

#[test]
fn the_spinner_stops_when_the_channel_closes() {
    let mut spinner = Spinner::new();
    spinner.step(Signal::Message("a".to_owned()));
    assert_eq!(spinner.step(Signal::Disconnected), Report::Stop);
}
