use mctl::config::Config;
use mctl::control::{resolve, Call, Control, Operation, Outcome, Player};
use mctl::error::{Error, ErrorKind};
use mctl::status::{PlayerInfo, State};

fn control(mpd: bool, mpris: bool) -> Control {
    Control::with_config(&Config::default(), mpd, mpris)
}

fn call(target: Player, operation: Operation) -> Call {
    Call { target, operation }
}

fn failure(target: Player, message: &str) -> Error {
    Error::new(ErrorKind::BackendCallFailed(target, String::from(message)))
}

#[test]
fn resolver_table() {
    assert_eq!(resolve(State::Playing, true), Player::Both);
    assert_eq!(resolve(State::Playing, false), Player::Mpd);
    assert_eq!(resolve(State::Paused, true), Player::Mpris);
    assert_eq!(resolve(State::Stopped, true), Player::Mpris);
    assert_eq!(resolve(State::Paused, false), Player::Neither);
    assert_eq!(resolve(State::Stopped, false), Player::Neither);
}

#[test]
fn resolver_treats_absent_backends_as_idle() {
    assert_eq!(control(false, true).player(State::Playing, true), Player::Mpris);
    assert_eq!(control(true, false).player(State::Playing, true), Player::Mpd);
    assert_eq!(control(false, false).player(State::Playing, true), Player::Neither);
    assert_eq!(control(true, true).player(State::Paused, true), Player::Mpris);
}

#[test]
fn backend_sensitive_routing() {
    let c = control(true, true);
    for op in [Operation::Play, Operation::Next, Operation::Prev] {
        assert_eq!(c.handle(op, Player::Mpd), vec![call(Player::Mpd, op)]);
        assert_eq!(c.handle(op, Player::Mpris), vec![call(Player::Mpris, op)]);
        assert_eq!(
            c.handle(op, Player::Both),
            vec![call(Player::Mpd, op), call(Player::Mpris, op)]
        );
        assert!(c.handle(op, Player::Neither).is_empty());
    }
}

#[test]
fn status_routing_shows_session_bus_first() {
    let c = control(true, true);
    let op = Operation::Status;
    assert_eq!(c.handle(op, Player::Mpd), vec![call(Player::Mpd, op)]);
    assert_eq!(c.handle(op, Player::Mpris), vec![call(Player::Mpris, op)]);
    assert_eq!(
        c.handle(op, Player::Both),
        vec![call(Player::Mpris, op), call(Player::Mpd, op)]
    );
    assert!(c.handle(op, Player::Neither).is_empty());
}

#[test]
fn backend_agnostic_routing() {
    let c = control(true, true);
    for op in [Operation::Pause, Operation::Toggle, Operation::Stop] {
        for p in [Player::Mpd, Player::Mpris, Player::Both, Player::Neither] {
            assert_eq!(
                c.handle(op, p),
                vec![call(Player::Mpd, op), call(Player::Mpris, op)]
            );
        }
    }
    assert_eq!(c.pause(), vec![call(Player::Mpd, Operation::Pause), call(Player::Mpris, Operation::Pause)]);
    assert_eq!(c.toggle(), vec![call(Player::Mpd, Operation::Toggle), call(Player::Mpris, Operation::Toggle)]);
    assert_eq!(c.stop(), vec![call(Player::Mpd, Operation::Stop), call(Player::Mpris, Operation::Stop)]);
}

#[test]
fn absent_backends_get_no_calls() {
    let none = control(false, false);
    for op in [
        Operation::Play,
        Operation::Pause,
        Operation::Toggle,
        Operation::Prev,
        Operation::Next,
        Operation::Stop,
        Operation::Status,
    ] {
        assert!(none.handle(op, Player::Both).is_empty());
    }
    let only_mpd = control(true, false);
    assert_eq!(only_mpd.toggle(), vec![call(Player::Mpd, Operation::Toggle)]);
    assert!(only_mpd.play(Player::Mpris).is_empty());
    assert_eq!(only_mpd.next(Player::Both), vec![call(Player::Mpd, Operation::Next)]);
}

#[test]
fn pause_twice_stays_quiet() {
    let c = control(true, true);
    let first = c.handle(Operation::Pause, Player::Both);
    let second = c.handle(Operation::Pause, Player::Both);
    assert_eq!(first, second);
    assert!(first.iter().all(|x| x.operation == Operation::Pause));
    let (text, result) = Control::conclude(vec![Outcome::Done, Outcome::Done]);
    assert_eq!(text, "");
    assert!(result.is_ok());
}

#[test]
fn scenario_status_with_queue_daemon_playing() {
    let c = Control::with_config(&Config::default(), true, false);
    let player = c.player(State::Playing, false);
    assert_eq!(player, Player::Mpd);
    let calls = c.handle(Operation::Status, player);
    assert_eq!(calls, vec![call(Player::Mpd, Operation::Status)]);
    let info = PlayerInfo::queue_daemon(Some(String::from("Tune")), State::Playing);
    let (text, result) = Control::conclude(vec![Outcome::Reported(info)]);
    assert!(result.is_ok());
    assert_eq!(text, "Player: Mpd\nState: Playing\nTitle: Tune\nArtist: \n");
}

#[test]
fn scenario_stop_reaches_both_backends() {
    let c = control(true, true);
    let player = c.player(State::Stopped, true);
    assert_eq!(player, Player::Mpris);
    let calls = c.handle(Operation::Stop, player);
    assert_eq!(
        calls,
        vec![call(Player::Mpd, Operation::Stop), call(Player::Mpris, Operation::Stop)]
    );
}

#[test]
fn scenario_play_both_with_queue_daemon_absent() {
    let c = control(false, true);
    let calls = c.handle(Operation::Play, Player::Both);
    assert_eq!(calls, vec![call(Player::Mpris, Operation::Play)]);
    let (text, result) = Control::conclude(vec![Outcome::Done]);
    assert_eq!(text, "");
    assert!(result.is_ok());
}

#[test]
fn conclude_reports_first_failure_and_keeps_output() {
    let info = PlayerInfo::session_bus(Some(String::from("X")), None, State::Paused);
    let outcomes = vec![
        Outcome::Failed(failure(Player::Mpris, "bus gone")),
        Outcome::Reported(info),
        Outcome::Failed(failure(Player::Mpd, "refused")),
    ];
    let (text, result) = Control::conclude(outcomes);
    assert_eq!(text, "Player: Mpris\nState: Paused\nTitle: X\nArtist: \n");
    match result {
        Err(e) => match e.kind {
            ErrorKind::BackendCallFailed(p, m) => {
                assert_eq!(p, Player::Mpris);
                assert_eq!(m, "bus gone");
            }
            other => panic!("unexpected error {:?}", other),
        },
        Ok(()) => panic!("failure lost"),
    }
}

#[test]
fn conclude_two_reports() {
    let a = PlayerInfo::session_bus(Some(String::from("A")), Some(vec![String::from("P"), String::from("Q")]), State::Playing);
    let b = PlayerInfo::queue_daemon(Some(String::from("B")), State::Stopped);
    let (text, result) = Control::conclude(vec![Outcome::Reported(a), Outcome::Reported(b)]);
    assert!(result.is_ok());
    assert_eq!(
        text,
        "Player: Mpris\nState: Playing\nTitle: A\nArtists: P, Q\nPlayer: Mpd\nState: Stopped\nTitle: B\nArtist: \n"
    );
}

#[test]
fn config_defaults_and_address() {
    let c = Config::default();
    assert_eq!(c.mpd_port, 6600);
    assert_eq!(c.mpd_host, "localhost");
    assert_eq!(c.priority, Player::Mpd);
    assert_eq!(c.address(), "localhost:6600");
    let other = Config { mpd_port: 0, mpd_host: String::from("h"), priority: Player::Both };
    assert_eq!(other.address(), "h:0");
    let top = Config { mpd_port: 65535, mpd_host: String::from("10.0.0.1"), priority: Player::Neither };
    assert_eq!(top.address(), "10.0.0.1:65535");
    assert_eq!(Control::with_config(&top, true, true).priority, Player::Neither);
}
