//! Settings read at start-up.
use vstd::prelude::*;
use crate::control::Player;

verus! {

/// Where the queue daemon listens, and which backend is preferred.
#[derive(Debug, Clone)]
pub struct Config {
    pub mpd_port: u16,
    pub mpd_host: String,
    pub priority: Player,
}

impl Default for Config {
    fn default() -> (r: Config)
        ensures
            r.mpd_port == 6600,
            r.mpd_host@ == "localhost"@,
            r.priority == Player::Mpd,
    {
        Config { mpd_port: 6600, mpd_host: String::from_str("localhost"), priority: Player::Mpd }
    }
}

/// The decimal text of a digit.
pub open spec fn digit_text(d: nat) -> Seq<char> {
    if d == 0 { "0"@ }
    else if d == 1 { "1"@ }
    else if d == 2 { "2"@ }
    else if d == 3 { "3"@ }
    else if d == 4 { "4"@ }
    else if d == 5 { "5"@ }
    else if d == 6 { "6"@ }
    else if d == 7 { "7"@ }
    else if d == 8 { "8"@ }
    else { "9"@ }
}

/// The decimal text of `n`, without leading zeros.
pub open spec fn decimal(n: nat) -> Seq<char>
    decreases n,
{
    if n < 10 {
        digit_text(n)
    } else {
        decimal(n / 10) + digit_text(n % 10)
    }
}

fn digit(d: u16) -> (r: &'static str)
    requires
        d < 10,
    ensures
        r@ == digit_text(d as nat),
{
    if d == 0 { "0" }
    else if d == 1 { "1" }
    else if d == 2 { "2" }
    else if d == 3 { "3" }
    else if d == 4 { "4" }
    else if d == 5 { "5" }
    else if d == 6 { "6" }
    else if d == 7 { "7" }
    else if d == 8 { "8" }
    else { "9" }
}

fn append_decimal(out: &mut String, n: u16)
    ensures
        final(out)@ == old(out)@ + decimal(n as nat),
    decreases n,
{
    if n >= 10 {
        append_decimal(out, n / 10);
    }
    out.append(digit(n % 10));
    assert(out@ =~= old(out)@ + decimal(n as nat));
}

impl Config {
    /// The queue daemon's address, `host:port`.
    pub fn address(&self) -> (r: String)
        ensures
            r@ == self.mpd_host@ + ":"@ + decimal(self.mpd_port as nat),
    {
        let mut out = self.mpd_host.clone();
        out.append(":");
        append_decimal(&mut out, self.mpd_port);
        out
    }
}

} // verus!
