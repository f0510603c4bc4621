use typestate_tcp::Event;
use typestate_tcp::EventHandler;
use typestate_tcp::EventLog;
use typestate_tcp::Generic;
use typestate_tcp::Styles;
use typestate_tcp::listen_events;

#[test]
fn listen_events_delivers_a_message() {
    let mut log = EventLog::new();
    listen_events(&mut log);
    assert_eq!(log.events().as_slice(), &[Event::Message]);
}

#[test]
fn event_log_records_in_order() {
    let mut log = EventLog::new();
    log.receive_event(Event::UserJoin);
    log.receive_event(Event::Mention);
    log.receive_event(Event::UserLeave);
    assert_eq!(
        log.events().as_slice(),
        &[Event::UserJoin, Event::Mention, Event::UserLeave]
    );
}

#[test]
fn single_styles_render_their_codes() {
    assert_eq!(Styles::reset().style(), "\x1b[0m");
    assert_eq!(Styles::bold().style(), "\x1b[1m");
    assert_eq!(Styles::italic().style(), "\x1b[3m");
    assert_eq!(Styles::underline().style(), "\x1b[4m");
    assert_eq!(Styles::strikethrough().style(), "\x1b[9m");
    assert_eq!(Styles::hidden().style(), "\x1b[8m");
}

#[test]
fn combined_styles_render_in_bit_order() {
    let s = Styles::italic().bitor(Styles::bold());
    assert_eq!(s.style(), "\x1b[1m\x1b[3m");
    let all = Styles::reset()
        .bitor(Styles::bold())
        .bitor(Styles::italic())
        .bitor(Styles::underline())
        .bitor(Styles::strikethrough())
        .bitor(Styles::hidden());
    assert_eq!(
        all.styles_as_string(),
        "\x1b[0m\x1b[1m\x1b[3m\x1b[4m\x1b[9m\x1b[8m"
    );
}

#[test]
fn bitor_is_idempotent_on_a_style() {
    let s = Styles::bold();
    assert_eq!(s.bitor(s).style(), Styles::bold().style());
}

#[test]
fn generic_returns_what_was_stored() {
    let g = Generic::new(42u32);
    assert_eq!(*g.get(), 42u32);
    let g = Generic::new(String::from("stored"));
    assert_eq!(g.get(), "stored");
}
