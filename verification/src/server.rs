//! The process lifecycle around the listener: the configuration the process
//! is started with, and how the bootstrap reacts to what the runtime reports.

use vstd::prelude::*;

verus! {

/// The phases a server process passes through: it is not started, or it is
/// bound and serving, or it has terminated.
#[derive(Clone, Copy, PartialEq, Eq, Structural, Debug)]
pub enum Phase {
    NotStarted,
    Serving,
    Terminated,
}

/// What the runtime reports back to the bootstrap: the bind either succeeded
/// or failed, or the process was told from outside to stop.
#[derive(Clone, Copy, PartialEq, Eq, Structural, Debug)]
pub enum Event {
    BindSucceeded,
    BindFailed,
    Stopped,
}

/// The lifecycle transition: a successful bind starts serving, a failed bind
/// terminates at once (no retry, no fallback), and an external stop
/// terminates from any phase. Any other report changes nothing.
pub open spec fn step_spec(p: Phase, e: Event) -> Phase {
    match e {
        Event::Stopped => Phase::Terminated,
        Event::BindSucceeded => if p == Phase::NotStarted {
            Phase::Serving
        } else {
            p
        },
        Event::BindFailed => if p == Phase::NotStarted {
            Phase::Terminated
        } else {
            p
        },
    }
}

/// The configuration a process is started with: a host and a port, both
/// supplied from outside; nothing here validates or defaults them.
pub struct Config {
    pub host: String,
    pub port: u16,
}

/// The character of one decimal digit.
pub open spec fn digit_char(d: int) -> char {
    if d == 0 {
        '0'
    } else if d == 1 {
        '1'
    } else if d == 2 {
        '2'
    } else if d == 3 {
        '3'
    } else if d == 4 {
        '4'
    } else if d == 5 {
        '5'
    } else if d == 6 {
        '6'
    } else if d == 7 {
        '7'
    } else if d == 8 {
        '8'
    } else {
        '9'
    }
}

/// The decimal digits of a number, most significant first, without sign or
/// leading zeros (the number zero reads as a single zero digit).
pub open spec fn decimal_spec(n: int) -> Seq<char>
    decreases n,
{
    if n < 10 {
        seq![digit_char(n)]
    } else {
        decimal_spec(n / 10).push(digit_char(n % 10))
    }
}

/// The address string a listener is bound to: the host, a colon, the port in
/// decimal.
pub open spec fn bind_address_spec(host: Seq<char>, port: int) -> Seq<char> {
    host + ":"@ + decimal_spec(port)
}

/// Relies on String::push: it appends the one character at the end of the
/// string and changes nothing else.
#[verifier::external_body]
fn push_char(s: &mut String, c: char)
    ensures
        final(s)@ == old(s)@.push(c),
{
    s.push(c)
}

/// The character of one decimal digit.
fn digit(d: u16) -> (c: char)
    requires
        d < 10,
    ensures
        c == digit_char(d as int),
{
    if d == 0 {
        '0'
    } else if d == 1 {
        '1'
    } else if d == 2 {
        '2'
    } else if d == 3 {
        '3'
    } else if d == 4 {
        '4'
    } else if d == 5 {
        '5'
    } else if d == 6 {
        '6'
    } else if d == 7 {
        '7'
    } else if d == 8 {
        '8'
    } else {
        '9'
    }
}

/// Append the decimal digits of `n`, most significant first.
fn push_decimal(s: &mut String, n: u16)
    ensures
        final(s)@ == old(s)@ + decimal_spec(n as int),
    decreases n,
{
    if n >= 10 {
        push_decimal(s, n / 10);
        push_char(s, digit(n % 10));
        proof {
            assert(old(s)@ + decimal_spec(n as int) =~= (old(s)@ + decimal_spec(n as int / 10)).push(
                digit_char(n as int % 10),
            ));
        }
    } else {
        push_char(s, digit(n));
        proof {
            assert(old(s)@ + decimal_spec(n as int) =~= old(s)@.push(digit_char(n as int)));
        }
    }
}

impl Config {
    /// The "host:port" string the listener is bound to.
    pub fn bind_address(&self) -> (s: String)
        ensures
            s@ == bind_address_spec(self.host@, self.port as int),
    {
        let mut s: String = self.host.clone();
        push_char(&mut s, ':');
        push_decimal(&mut s, self.port);
        proof {
            reveal_strlit(":");
            assert(self.host@ + ":"@ + decimal_spec(self.port as int) =~= self.host@.push(
                ':',
            ) + decimal_spec(self.port as int));
        }
        s
    }
}

/// Advance the lifecycle by one reported event.
pub fn step(p: Phase, e: Event) -> (next: Phase)
    ensures
        next == step_spec(p, e),
{
    match e {
        Event::Stopped => Phase::Terminated,
        Event::BindSucceeded => if p == Phase::NotStarted {
            Phase::Serving
        } else {
            p
        },
        Event::BindFailed => if p == Phase::NotStarted {
            Phase::Terminated
        } else {
            p
        },
    }
}

/// Law: a failed bind at startup terminates the process at once; no listener
/// and no serving phase ever comes of it.
pub proof fn lemma_failed_bind_terminates(e: Event)
    requires
        e == Event::BindFailed,
    ensures
        step_spec(Phase::NotStarted, e) == Phase::Terminated,
        step_spec(Phase::NotStarted, e) != Phase::Serving,
{
}

/// Law: the serving phase is entered only through a successful bind from
/// startup; no event carries a terminated process back into it.
pub proof fn lemma_serving_only_after_bind(p: Phase, e: Event)
    requires
        step_spec(p, e) == Phase::Serving,
    ensures
        p == Phase::Serving || (p == Phase::NotStarted && e == Event::BindSucceeded),
{
}

} // verus!
