//! The Bluetooth command relay: what the GATT characteristic answers.
//!
//! A connected peer reads the characteristic to fetch the command queued
//! last, and writes to it to hand a message to the application's observer,
//! which may answer. The configuration is shared between the application and
//! the radio's callbacks behind a lock that neither side waits for: a side
//! that cannot take it falls back to the answers below.

pub mod bring_up;
pub mod gatt;

use vstd::prelude::*;

verus! {

/// What a read answers when no command is queued, or when the configuration
/// is held elsewhere.
pub open spec fn fallback_reply() -> Seq<char> {
    seq!['N', 'O', 'N', 'E']
}

/// The shared configuration of the relay: an optional observer of written
/// messages, and the queue of commands waiting to be read, last in first out.
pub struct BleConfig<F> {
    on_receive: Option<F>,
    commands: Vec<String>,
}

impl<F> BleConfig<F> {
    /// The observer of written messages: called with the bytes of each
    /// write, its answer is sent back where the peer asked for a response.
    pub closed spec fn observer(&self) -> Option<F> {
        self.on_receive
    }

    /// The commands waiting to be read, oldest first.
    pub closed spec fn commands(&self) -> Seq<String> {
        self.commands@
    }

    /// A configuration with no observer and no queued command.
    pub fn new() -> (r: Self)
        ensures
            r.observer() is None,
            r.commands() == Seq::<String>::empty(),
    {
        BleConfig { on_receive: None, commands: Vec::new() }
    }

    /// The same configuration with `f` as the observer of written messages.
    pub fn on_receive(self, f: F) -> (r: Self)
        ensures
            r.observer() == Some(f),
            r.commands() == self.commands(),
    {
        BleConfig { on_receive: Some(f), commands: self.commands }
    }

    /// Queues a command for the peer to read.
    pub fn send(&mut self, command: String)
        ensures
            final(self).commands() == old(self).commands().push(command),
            final(self).observer() == old(self).observer(),
    {
        self.commands.push(command);
    }

    /// Takes the command queued last, if any.
    pub fn next_command(&mut self) -> (r: Option<String>)
        ensures
            old(self).commands().len() == 0 ==> r is None && final(self).commands()
                == old(self).commands(),
            old(self).commands().len() > 0 ==> r == Some(old(self).commands().last())
                && final(self).commands() == old(self).commands().drop_last(),
            final(self).observer() == old(self).observer(),
    {
        self.commands.pop()
    }
}

impl<F: Fn(&[u8]) -> Option<String>> BleConfig<F> {
    /// Hands a written message to the observer, if there is one, and returns
    /// its answer.
    pub fn observe(&self, value: &[u8]) -> (r: Option<String>)
        requires
            self.observer() matches Some(f) ==> f.requires((value,)),
        ensures
            self.observer() is None ==> r is None,
            self.observer() matches Some(f) ==> f.ensures((value,), r),
    {
        match &self.on_receive {
            Some(f) => f(value),
            None => None,
        }
    }
}

/// The text of an observer's answer: the answer itself, or nothing where
/// there was none.
pub open spec fn answer_text(answer: Option<String>) -> Seq<char> {
    match answer {
        Some(s) => s@,
        None => Seq::empty(),
    }
}

/// What the characteristic answers a read with: the command taken from the
/// queue, or "NONE" where there was none to take.
pub fn read_response(next: Option<String>) -> (r: String)
    ensures
        next matches Some(c) ==> r@ == c@,
        next is None ==> r@ == fallback_reply(),
{
    match next {
        Some(c) => c,
        None => {
            let r = "NONE".to_owned();
            proof {
                reveal_strlit("NONE");
                assert(r@ =~= fallback_reply());
            }
            r
        },
    }
}

/// What the relay does with a write request.
#[derive(Debug, PartialEq, Eq)]
pub enum WriteOutcome {
    /// A prepared (long) write, which the relay does not take: nothing is sent.
    Unsupported,
    /// The peer asked for no response: nothing is sent.
    NoResponse,
    /// The answer to send back, with an OK status.
    Respond(String),
}

/// Whether `outcome` sends back exactly `text`.
pub open spec fn responds_with(outcome: WriteOutcome, text: Seq<char>) -> bool {
    outcome matches WriteOutcome::Respond(s) && s@ == text
}

/// What a plain write that the observer answered with `answer` leads to:
/// where the peer asked for a response, the answer, or an empty one.
pub fn write_response(need_rsp: bool, answer: Option<String>) -> (r: WriteOutcome)
    ensures
        !need_rsp ==> r == WriteOutcome::NoResponse,
        need_rsp ==> responds_with(r, answer_text(answer)),
{
    if need_rsp {
        match answer {
            Some(s) => WriteOutcome::Respond(s),
            None => WriteOutcome::Respond(String::new()),
        }
    } else {
        WriteOutcome::NoResponse
    }
}

/// Handles a write of `value` to the characteristic. `config` is the shared
/// configuration where the lock could be taken, and `None` where it is held
/// elsewhere. A prepared write is refused; otherwise the observer, if there
/// is one and the configuration could be had, sees the message, and its
/// answer goes back where the peer asked for a response.
pub fn on_write<F: Fn(&[u8]) -> Option<String>>(
    config: Option<&BleConfig<F>>,
    value: &[u8],
    is_prep: bool,
    need_rsp: bool,
) -> (r: WriteOutcome)
    requires
        config matches Some(c) ==> (c.observer() matches Some(f) ==> f.requires((value,))),
    ensures
        is_prep ==> r == WriteOutcome::Unsupported,
        !is_prep && !need_rsp ==> r == WriteOutcome::NoResponse,
        !is_prep && need_rsp && (config is None || config->0.observer() is None) ==> responds_with(
            r,
            Seq::empty(),
        ),
        config matches Some(c) ==> (c.observer() matches Some(f) ==> (!is_prep && need_rsp ==> (
        exists|answer: Option<String>|
            f.ensures((value,), answer) && responds_with(r, answer_text(answer))))),
{
    if is_prep {
        return WriteOutcome::Unsupported;
    }
    let answer = match config {
        Some(c) => c.observe(value),
        None => None,
    };
    write_response(need_rsp, answer)
}

/// Commands come back out of the queue last in, first out: after `a` and then
/// `b` are queued on an empty queue, the first take gives `b`, the second
/// `a`, and the queue is then empty.
pub proof fn lemma_commands_last_in_first_out(a: String, b: String)
    ensures
        ({
            let queued = Seq::<String>::empty().push(a).push(b);
            &&& queued.len() > 0 && queued.last() == b
            &&& queued.drop_last().len() > 0 && queued.drop_last().last() == a
            &&& queued.drop_last().drop_last().len() == 0
        }),
{
}

} // verus!
