//! Playback state and the normalized status of one backend.
use vstd::prelude::*;
use crate::control::{Player, player_text};
use crate::text::{joined, append_joined};
use mpd::status::State as MpdState;

verus! {

/// The playback state shared by both backends.
#[derive(Debug, Clone, Copy, PartialEq, Eq, Structural)]
pub enum State {
    Playing,
    Paused,
    Stopped,
}

/// The name under which a state is shown.
pub open spec fn state_text(s: State) -> Seq<char> {
    match s {
        State::Playing => "Playing"@,
        State::Paused => "Paused"@,
        State::Stopped => "Stopped"@,
    }
}

/// Declares mpd's `status::State` as it stands in the crate: its three
/// variants `Stop`, `Play` and `Pause`, read as declared.
#[verifier::external_type_specification]
pub struct ExMpdState(MpdState);

/// The common state of a queue-daemon state.
pub open spec fn from_mpd_state(s: MpdState) -> State {
    match s {
        MpdState::Stop => State::Stopped,
        MpdState::Pause => State::Paused,
        MpdState::Play => State::Playing,
    }
}

impl State {
    /// The name under which this state is shown.
    pub fn name(&self) -> (r: String)
        ensures
            r@ == state_text(*self),
    {
        match self {
            State::Playing => String::from_str("Playing"),
            State::Paused => String::from_str("Paused"),
            State::Stopped => String::from_str("Stopped"),
        }
    }
}

impl From<MpdState> for State {
    fn from(s: MpdState) -> (r: State)
        ensures
            r == from_mpd_state(s),
    {
        match s {
            MpdState::Stop => State::Stopped,
            MpdState::Pause => State::Paused,
            MpdState::Play => State::Playing,
        }
    }
}

impl vstd::std_specs::convert::FromSpecImpl<MpdState> for State {
    open spec fn obeys_from_spec() -> bool {
        true
    }

    open spec fn from_spec(s: MpdState) -> State {
        from_mpd_state(s)
    }
}

/// What one backend is playing.
#[derive(Debug, Clone)]
pub struct PlayerInfo {
    pub kind: Player,
    pub title: String,
    pub artists: Vec<String>,
    pub state: State,
}

/// The text of an optional value, empty when absent.
pub open spec fn text_or_empty(t: Option<String>) -> Seq<char> {
    match t {
        Option::Some(s) => s@,
        Option::None => Seq::empty(),
    }
}

/// The artist line: singular label unless there are two or more artists.
pub open spec fn artists_text(artists: Seq<String>) -> Seq<char> {
    (if artists.len() > 1 { "Artists: "@ } else { "Artist: "@ }) + joined(artists)
}

/// The status block of a backend, without a final line break.
pub open spec fn info_text(i: PlayerInfo) -> Seq<char> {
    "Player: "@ + player_text(i.kind) + "\nState: "@ + state_text(i.state) + "\nTitle: "@
        + i.title@ + "\n"@ + artists_text(i.artists@)
}

impl PlayerInfo {
    /// The status of the queue daemon, which reports no artists.
    pub fn queue_daemon(title: Option<String>, state: State) -> (r: PlayerInfo)
        ensures
            r.kind == Player::Mpd,
            r.title@ == text_or_empty(title),
            r.artists@.len() == 0,
            r.state == state,
    {
        let title = match title {
            Some(t) => t,
            None => String::new(),
        };
        PlayerInfo { kind: Player::Mpd, title, artists: Vec::new(), state }
    }

    /// The status of the session-bus player.
    pub fn session_bus(title: Option<String>, artists: Option<Vec<String>>, state: State) -> (r:
        PlayerInfo)
        ensures
            r.kind == Player::Mpris,
            r.title@ == text_or_empty(title),
            artists matches Option::Some(a) ==> r.artists@ == a@,
            artists is None ==> r.artists@.len() == 0,
            r.state == state,
    {
        let title = match title {
            Some(t) => t,
            None => String::new(),
        };
        let artists = match artists {
            Some(a) => a,
            None => Vec::new(),
        };
        PlayerInfo { kind: Player::Mpris, title, artists, state }
    }

    /// The status block shown for this backend.
    pub fn to_string(&self) -> (r: String)
        ensures
            r@ == info_text(*self),
    {
        let mut out = String::from_str("Player: ");
        out.append(self.kind.name().as_str());
        out.append("\nState: ");
        out.append(self.state.name().as_str());
        out.append("\nTitle: ");
        out.append(self.title.as_str());
        out.append("\n");
        if self.artists.len() > 1 {
            out.append("Artists: ");
        } else {
            out.append("Artist: ");
        }
        append_joined(&mut out, &self.artists);
        assert(out@ =~= info_text(*self));
        out
    }
}

} // verus!
