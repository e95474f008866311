//! Backend choice, operations, backend resolution and dispatch.
use vstd::prelude::*;
use crate::error::{Error, ErrorKind};
use crate::text::{folds_to, keyword_matches, matches_keyword};
use crate::config::Config;
use crate::status::{State, PlayerInfo, info_text};

verus! {

/// A backend, or an aggregate answer of the resolver.
#[derive(Debug, Clone, Copy, PartialEq, Eq, Structural)]
pub enum Player {
    /// The queue daemon, reached over the network.
    Mpd,
    /// The active player on the session bus.
    Mpris,
    /// Both backends.
    Both,
    /// No backend.
    Neither,
}

/// The backend that `s` names, ignoring ASCII case.
pub open spec fn player_named(s: Seq<char>) -> Option<Player> {
    if keyword_matches(s, "mpd"@) {
        Option::Some(Player::Mpd)
    } else if keyword_matches(s, "mpris"@) {
        Option::Some(Player::Mpris)
    } else if keyword_matches(s, "both"@) {
        Option::Some(Player::Both)
    } else if keyword_matches(s, "none"@) {
        Option::Some(Player::Neither)
    } else {
        Option::None
    }
}

/// The name under which a backend is shown.
pub open spec fn player_text(p: Player) -> Seq<char> {
    match p {
        Player::Mpd => "Mpd"@,
        Player::Mpris => "Mpris"@,
        Player::Both => "Both"@,
        Player::Neither => "None"@,
    }
}

impl Player {
    /// Reads a backend choice, ignoring ASCII case; unknown text is an error.
    pub fn parse(s: &str) -> (r: Result<Player, Error>)
        ensures
            player_named(s@) matches Option::Some(p) ==> r == Ok::<Player, Error>(p),
            player_named(s@) is None ==> r is Err && r->Err_0.kind is InvalidBackendChoice
                && r->Err_0.kind->InvalidBackendChoice_0@ == s@,
    {
        if matches_keyword(s, "mpd") {
            Ok(Player::Mpd)
        } else if matches_keyword(s, "mpris") {
            Ok(Player::Mpris)
        } else if matches_keyword(s, "both") {
            Ok(Player::Both)
        } else if matches_keyword(s, "none") {
            Ok(Player::Neither)
        } else {
            Err(Error::new(ErrorKind::InvalidBackendChoice(s.to_owned())))
        }
    }

    /// The name under which this backend is shown.
    pub fn name(&self) -> (r: String)
        ensures
            r@ == player_text(*self),
    {
        match self {
            Player::Mpd => String::from_str("Mpd"),
            Player::Mpris => String::from_str("Mpris"),
            Player::Both => String::from_str("Both"),
            Player::Neither => String::from_str("None"),
        }
    }
}

impl std::str::FromStr for Player {
    type Err = Error;

    fn from_str(s: &str) -> (r: Result<Player, Error>)
        ensures
            player_named(s@) matches Option::Some(p) ==> r == Ok::<Player, Error>(p),
            player_named(s@) is None ==> r is Err && r->Err_0.kind is InvalidBackendChoice
                && r->Err_0.kind->InvalidBackendChoice_0@ == s@,
    {
        Player::parse(s)
    }
}

/// An operation on the players.
#[derive(Debug, Clone, Copy, PartialEq, Eq, Structural)]
pub enum Operation {
    Play,
    Pause,
    Toggle,
    Prev,
    Next,
    Stop,
    Status,
}

/// The operation that `s` names, ignoring ASCII case.
pub open spec fn operation_named(s: Seq<char>) -> Option<Operation> {
    if keyword_matches(s, "play"@) {
        Option::Some(Operation::Play)
    } else if keyword_matches(s, "pause"@) {
        Option::Some(Operation::Pause)
    } else if keyword_matches(s, "toggle"@) {
        Option::Some(Operation::Toggle)
    } else if keyword_matches(s, "prev"@) {
        Option::Some(Operation::Prev)
    } else if keyword_matches(s, "next"@) {
        Option::Some(Operation::Next)
    } else if keyword_matches(s, "stop"@) {
        Option::Some(Operation::Stop)
    } else if keyword_matches(s, "status"@) {
        Option::Some(Operation::Status)
    } else {
        Option::None
    }
}

/// The lower-case name of an operation.
pub open spec fn operation_text(op: Operation) -> Seq<char> {
    match op {
        Operation::Play => "play"@,
        Operation::Pause => "pause"@,
        Operation::Toggle => "toggle"@,
        Operation::Prev => "prev"@,
        Operation::Next => "next"@,
        Operation::Stop => "stop"@,
        Operation::Status => "status"@,
    }
}

impl Operation {
    /// Reads an operation, ignoring ASCII case; unknown text is an error.
    pub fn parse(s: &str) -> (r: Result<Operation, Error>)
        ensures
            operation_named(s@) matches Option::Some(op) ==> r == Ok::<Operation, Error>(op),
            operation_named(s@) is None ==> r is Err && r->Err_0.kind is UnknownOperation
                && r->Err_0.kind->UnknownOperation_0@ == s@,
    {
        if matches_keyword(s, "play") {
            Ok(Operation::Play)
        } else if matches_keyword(s, "pause") {
            Ok(Operation::Pause)
        } else if matches_keyword(s, "toggle") {
            Ok(Operation::Toggle)
        } else if matches_keyword(s, "prev") {
            Ok(Operation::Prev)
        } else if matches_keyword(s, "next") {
            Ok(Operation::Next)
        } else if matches_keyword(s, "stop") {
            Ok(Operation::Stop)
        } else if matches_keyword(s, "status") {
            Ok(Operation::Status)
        } else {
            Err(Error::new(ErrorKind::UnknownOperation(s.to_owned())))
        }
    }
}

impl std::str::FromStr for Operation {
    type Err = Error;

    fn from_str(s: &str) -> (r: Result<Operation, Error>)
        ensures
            operation_named(s@) matches Option::Some(op) ==> r == Ok::<Operation, Error>(op),
            operation_named(s@) is None ==> r is Err && r->Err_0.kind is UnknownOperation
                && r->Err_0.kind->UnknownOperation_0@ == s@,
    {
        Operation::parse(s)
    }
}

/// The resolver's precedence table: a playing queue daemon counts, a paused or
/// stopped one does not.
pub open spec fn resolved(mpd_state: State, mpris_running: bool) -> Player {
    if mpd_state == State::Playing {
        if mpris_running { Player::Both } else { Player::Mpd }
    } else {
        if mpris_running { Player::Mpris } else { Player::Neither }
    }
}

/// Operations sent to every present backend whatever backend was chosen.
pub open spec fn backend_agnostic(op: Operation) -> bool {
    op == Operation::Pause || op == Operation::Toggle || op == Operation::Stop
}

/// Whether `op` aimed at `player` reaches the single backend `b`.
pub open spec fn targets(op: Operation, player: Player, b: Player) -> bool {
    backend_agnostic(op) || player == Player::Both || player == b
}

/// One call of one operation on one backend.
#[derive(Debug, Clone, Copy, PartialEq, Eq, Structural)]
pub struct Call {
    /// `Player::Mpd` or `Player::Mpris`.
    pub target: Player,
    pub operation: Operation,
}

/// The outcome of one call.
#[derive(Debug, Clone)]
pub enum Outcome {
    /// The call succeeded with nothing to show.
    Done,
    /// The call succeeded and reported a status.
    Reported(PlayerInfo),
    /// The call failed.
    Failed(Error),
}

/// The dispatcher: which backends were reached at start-up, and the
/// configured priority.
#[derive(Debug, Clone)]
pub struct Control {
    /// The queue daemon was reached.
    pub mpd_connected: bool,
    /// An active session-bus player was found.
    pub mpris_found: bool,
    pub priority: Player,
}

/// Whether the single backend `b` is present.
pub open spec fn present(c: Control, b: Player) -> bool {
    (b == Player::Mpd && c.mpd_connected) || (b == Player::Mpris && c.mpris_found)
}

/// The calls `op` aimed at `player` makes, in order: each targeted backend
/// that is present gets one call; a status report shows the session-bus
/// player first.
pub open spec fn planned(c: Control, op: Operation, player: Player) -> Seq<Call> {
    let m = if c.mpd_connected && targets(op, player, Player::Mpd) {
        seq![Call { target: Player::Mpd, operation: op }]
    } else {
        Seq::empty()
    };
    let s = if c.mpris_found && targets(op, player, Player::Mpris) {
        seq![Call { target: Player::Mpris, operation: op }]
    } else {
        Seq::empty()
    };
    if op == Operation::Status { s + m } else { m + s }
}

/// The text printed for a run of outcomes: each reported status block on its
/// own line, in order.
pub open spec fn outcomes_text(outcomes: Seq<Outcome>) -> Seq<char>
    decreases outcomes.len(),
{
    if outcomes.len() == 0 {
        Seq::empty()
    } else {
        outcomes_text(outcomes.drop_last()) + match outcomes.last() {
            Outcome::Reported(i) => info_text(i) + "\n"@,
            _ => Seq::empty(),
        }
    }
}

/// Index of the first failed outcome, if any.
pub open spec fn first_failure(outcomes: Seq<Outcome>) -> Option<int>
    decreases outcomes.len(),
{
    if outcomes.len() == 0 {
        Option::None
    } else {
        match first_failure(outcomes.drop_last()) {
            Option::Some(i) => Option::Some(i),
            Option::None => if outcomes.last() is Failed {
                Option::Some(outcomes.len() - 1)
            } else {
                Option::None
            },
        }
    }
}

impl Control {
    /// A dispatcher for the backends that were reached.
    pub fn with_config(config: &Config, mpd_connected: bool, mpris_found: bool) -> (r: Control)
        ensures
            r.mpd_connected == mpd_connected,
            r.mpris_found == mpris_found,
            r.priority == config.priority,
    {
        Control { mpd_connected, mpris_found, priority: config.priority }
    }

    /// The active backends, from the queue daemon's state and whether the
    /// session-bus player runs; an absent backend counts as stopped or not
    /// running, whatever is passed for it.
    pub fn player(&self, mpd_state: State, mpris_running: bool) -> (r: Player)
        ensures
            r == resolved(
                if self.mpd_connected { mpd_state } else { State::Stopped },
                self.mpris_found && mpris_running,
            ),
    {
        let state = if self.mpd_connected { mpd_state } else { State::Stopped };
        resolve(state, self.mpris_found && mpris_running)
    }

    /// The calls of `op` on the present backends that `player` selects.
    fn plan(&self, op: Operation, player: Player) -> (r: Vec<Call>)
        ensures
            r@ == planned(*self, op, player),
    {
        let mut calls: Vec<Call> = Vec::new();
        let to_mpd = self.mpd_connected && (op == Operation::Pause || op == Operation::Toggle
            || op == Operation::Stop || player == Player::Both || player == Player::Mpd);
        let to_mpris = self.mpris_found && (op == Operation::Pause || op == Operation::Toggle
            || op == Operation::Stop || player == Player::Both || player == Player::Mpris);
        let mpd_call = Call { target: Player::Mpd, operation: op };
        let mpris_call = Call { target: Player::Mpris, operation: op };
        if op == Operation::Status {
            if to_mpris {
                calls.push(mpris_call);
            }
            if to_mpd {
                calls.push(mpd_call);
            }
        } else {
            if to_mpd {
                calls.push(mpd_call);
            }
            if to_mpris {
                calls.push(mpris_call);
            }
        }
        assert(calls@ =~= planned(*self, op, player));
        calls
    }

    /// The calls that start playback on the chosen backends.
    pub fn play(&self, player: Player) -> (r: Vec<Call>)
        ensures
            r@ == planned(*self, Operation::Play, player),
    {
        self.plan(Operation::Play, player)
    }

    /// The calls that engage pause on every present backend.
    pub fn pause(&self) -> (r: Vec<Call>)
        ensures
            r@ == planned(*self, Operation::Pause, Player::Neither),
    {
        self.plan(Operation::Pause, Player::Neither)
    }

    /// The calls that toggle play and pause on every present backend.
    pub fn toggle(&self) -> (r: Vec<Call>)
        ensures
            r@ == planned(*self, Operation::Toggle, Player::Neither),
    {
        self.plan(Operation::Toggle, Player::Neither)
    }

    /// The calls that skip to the next track on the chosen backends.
    pub fn next(&self, player: Player) -> (r: Vec<Call>)
        ensures
            r@ == planned(*self, Operation::Next, player),
    {
        self.plan(Operation::Next, player)
    }

    /// The calls that go back to the previous track on the chosen backends.
    pub fn prev(&self, player: Player) -> (r: Vec<Call>)
        ensures
            r@ == planned(*self, Operation::Prev, player),
    {
        self.plan(Operation::Prev, player)
    }

    /// The calls that stop playback on every present backend.
    pub fn stop(&self) -> (r: Vec<Call>)
        ensures
            r@ == planned(*self, Operation::Stop, Player::Neither),
    {
        self.plan(Operation::Stop, Player::Neither)
    }

    /// The calls that read the status of the chosen backends.
    pub fn status(&self, player: Player) -> (r: Vec<Call>)
        ensures
            r@ == planned(*self, Operation::Status, player),
    {
        self.plan(Operation::Status, player)
    }

    /// The calls that carry out `operation` for the backend choice `player`.
    pub fn handle(&self, operation: Operation, player: Player) -> (r: Vec<Call>)
        ensures
            r@ == planned(*self, operation, player),
    {
        match operation {
            Operation::Play => self.play(player),
            Operation::Pause => self.pause(),
            Operation::Toggle => self.toggle(),
            Operation::Prev => self.prev(player),
            Operation::Next => self.next(player),
            Operation::Stop => self.stop(),
            Operation::Status => self.status(player),
        }
    }

    /// What a run of calls adds up to: the text to print, and the first
    /// failure, or success when none failed. Every call has been attempted
    /// before this is asked, so one failure never keeps another backend from
    /// being called.
    pub fn conclude(outcomes: Vec<Outcome>) -> (r: (String, Result<(), Error>))
        ensures
            r.0@ == outcomes_text(outcomes@),
            first_failure(outcomes@) is None ==> r.1 is Ok,
            first_failure(outcomes@) is Some ==> r.1 is Err && outcomes@[first_failure(
                outcomes@,
            )->Some_0] == Outcome::Failed(r.1->Err_0),
    {
        let mut text = String::new();
        let mut first: Option<usize> = None;
        let mut i: usize = 0;
        while i < outcomes.len()
            invariant
                i <= outcomes@.len(),
                text@ == outcomes_text(outcomes@.subrange(0, i as int)),
                first_failure(outcomes@.subrange(0, i as int)) is None <==> first is None,
                first is Some ==> first_failure(outcomes@.subrange(0, i as int)) == Option::Some(
                    first->Some_0 as int,
                ) && first->Some_0 < i && outcomes@[first->Some_0 as int] is Failed,
            decreases outcomes@.len() - i,
        {
            proof {
                let next = outcomes@.subrange(0, i + 1);
                assert(next.drop_last() =~= outcomes@.subrange(0, i as int));
                assert(next.last() == outcomes@[i as int]);
            }
            match &outcomes[i] {
                Outcome::Reported(info) => {
                    text.append(info.to_string().as_str());
                    text.append("\n");
                },
                Outcome::Failed(_) => {
                    if first.is_none() {
                        first = Some(i);
                    }
                },
                Outcome::Done => {},
            }
            i = i + 1;
        }
        assert(outcomes@.subrange(0, outcomes@.len() as int) =~= outcomes@);
        match first {
            Some(k) => {
                let mut rest = outcomes;
                match rest.remove(k) {
                    Outcome::Failed(e) => (text, Err(e)),
                    _ => (text, Ok(())),
                }
            },
            None => (text, Ok(())),
        }
    }
}

/// Routing: every planned call carries the requested operation to a present
/// backend that the operation targets, and every present backend that it
/// targets gets exactly one call.
pub proof fn lemma_routing(c: Control, op: Operation, player: Player)
    ensures
        planned(c, op, player).len() <= 2,
        forall|i: int|
            0 <= i < planned(c, op, player).len() ==> {
                let call = #[trigger] planned(c, op, player)[i];
                &&& call.operation == op
                &&& present(c, call.target)
                &&& targets(op, player, call.target)
            },
        forall|b: Player|
            present(c, b) && targets(op, player, b) ==> exists|i: int|
                0 <= i < planned(c, op, player).len() && #[trigger] planned(c, op, player)[i].target
                    == b,
        forall|i: int, j: int|
            0 <= i < planned(c, op, player).len() && 0 <= j < planned(c, op, player).len()
                && #[trigger] planned(c, op, player)[i].target == #[trigger] planned(
                c,
                op,
                player,
            )[j].target ==> i == j,
{
    let plan = planned(c, op, player);
    assert forall|b: Player| present(c, b) && targets(op, player, b) implies exists|i: int|
        0 <= i < plan.len() && #[trigger] plan[i].target == b by {
        if b == Player::Mpd {
            if op == Operation::Status && c.mpris_found && targets(op, player, Player::Mpris) {
                assert(plan[1].target == b);
            } else {
                assert(plan[0].target == b);
            }
        } else {
            if op != Operation::Status && c.mpd_connected && targets(op, player, Player::Mpd) {
                assert(plan[1].target == b);
            } else {
                assert(plan[0].target == b);
            }
        }
    }
}

/// Pausing is the same request however often it is made: the calls do not
/// depend on the backend choice, and each engages pause rather than toggling
/// it, so a second pause asks the backends for the state they are already in.
pub proof fn lemma_pause_repeatable(c: Control, first: Player, second: Player)
    ensures
        planned(c, Operation::Pause, first) == planned(c, Operation::Pause, second),
        forall|i: int|
            0 <= i < planned(c, Operation::Pause, first).len() ==> (#[trigger] planned(
                c,
                Operation::Pause,
                first,
            )[i]).operation == Operation::Pause,
{
}

/// The name of every operation reads back as that operation.
pub proof fn lemma_operation_round_trip(op: Operation)
    ensures
        operation_named(operation_text(op)) == Option::Some(op),
{
    reveal_strlit("play");
    reveal_strlit("pause");
    reveal_strlit("toggle");
    reveal_strlit("prev");
    reveal_strlit("next");
    reveal_strlit("stop");
    reveal_strlit("status");
    match op {
        Operation::Prev => {
            assert(!folds_to("prev"@[1], "play"@[1]));
        },
        Operation::Next => {
            assert(!folds_to("next"@[0], "play"@[0]));
            assert(!folds_to("next"@[0], "prev"@[0]));
        },
        Operation::Stop => {
            assert(!folds_to("stop"@[0], "play"@[0]));
            assert(!folds_to("stop"@[0], "prev"@[0]));
            assert(!folds_to("stop"@[0], "next"@[0]));
        },
        Operation::Status => {
            assert(!folds_to("status"@[0], "toggle"@[0]));
        },
        _ => {},
    }
}

/// Applies the resolver's precedence table.
pub fn resolve(mpd_state: State, mpris_running: bool) -> (r: Player)
    ensures
        r == resolved(mpd_state, mpris_running),
        mpd_state == State::Playing && mpris_running ==> r == Player::Both,
        mpd_state == State::Playing && !mpris_running ==> r == Player::Mpd,
        mpd_state != State::Playing && mpris_running ==> r == Player::Mpris,
        mpd_state != State::Playing && !mpris_running ==> r == Player::Neither,
{
    match (mpd_state, mpris_running) {
        (State::Playing, true) => Player::Both,
        (State::Playing, false) => Player::Mpd,
        (_, true) => Player::Mpris,
        (_, false) => Player::Neither,
    }
}

} // verus!
