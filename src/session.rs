use vstd::prelude::*;
use crate::error::Error;

verus! {

/// The native calls of the session protocol.
#[derive(Debug, Clone, Copy, PartialEq, Eq, Structural)]
pub enum NativeCall {
    Connect,
    IsPaired,
    ValidatePairing,
    StartSession,
    StopSession,
    Disconnect,
}

/// What the caller must do after a native call of the opening sequence.
#[derive(Debug, Clone, Copy, PartialEq, Eq, Structural)]
pub enum OpenStep {
    /// Make this native call next and report its status.
    Call(NativeCall),
    /// The session is open.
    Opened,
    /// Opening failed; nothing is to be released.
    Failed(Error),
}

/// The first native call of the opening sequence.
pub fn open_first() -> (c: NativeCall)
    ensures
        c == NativeCall::Connect,
{
    NativeCall::Connect
}

/// The opening sequence: connect; check that the device is paired (for that
/// call a status of zero means "not paired"); validate the pairing; start the
/// session. Any failure ends the sequence.
pub open spec fn open_next_spec(done: NativeCall, status: i32) -> OpenStep {
    match done {
        NativeCall::Connect => if status != 0 {
            OpenStep::Failed(Error::Protocol(status))
        } else {
            OpenStep::Call(NativeCall::IsPaired)
        },
        NativeCall::IsPaired => if status == 0 {
            OpenStep::Failed(Error::PairingLost)
        } else {
            OpenStep::Call(NativeCall::ValidatePairing)
        },
        NativeCall::ValidatePairing => if status != 0 {
            OpenStep::Failed(Error::PairingInvalid)
        } else {
            OpenStep::Call(NativeCall::StartSession)
        },
        NativeCall::StartSession => if status != 0 {
            OpenStep::Failed(Error::Protocol(status))
        } else {
            OpenStep::Opened
        },
        _ => OpenStep::Failed(Error::Protocol(status)),
    }
}

/// Decides the next step of the opening sequence from the call just made and
/// the status it returned.
pub fn open_next(done: NativeCall, status: i32) -> (s: OpenStep)
    ensures
        s == open_next_spec(done, status),
{
    match done {
        NativeCall::Connect => if status != 0 {
            OpenStep::Failed(Error::Protocol(status))
        } else {
            OpenStep::Call(NativeCall::IsPaired)
        },
        NativeCall::IsPaired => if status == 0 {
            OpenStep::Failed(Error::PairingLost)
        } else {
            OpenStep::Call(NativeCall::ValidatePairing)
        },
        NativeCall::ValidatePairing => if status != 0 {
            OpenStep::Failed(Error::PairingInvalid)
        } else {
            OpenStep::Call(NativeCall::StartSession)
        },
        NativeCall::StartSession => if status != 0 {
            OpenStep::Failed(Error::Protocol(status))
        } else {
            OpenStep::Opened
        },
        _ => OpenStep::Failed(Error::Protocol(status)),
    }
}

/// The outcome of the whole opening sequence, given the status that each of
/// its four calls would return.
pub open spec fn open_outcome(connect: i32, paired: i32, validate: i32, start: i32) -> Result<
    (),
    Error,
> {
    if connect != 0 {
        Err(Error::Protocol(connect))
    } else if paired == 0 {
        Err(Error::PairingLost)
    } else if validate != 0 {
        Err(Error::PairingInvalid)
    } else if start != 0 {
        Err(Error::Protocol(start))
    } else {
        Ok(())
    }
}

/// Runs the opening sequence over the statuses of its four calls, in order.
pub open spec fn run_open(statuses: Seq<i32>, next: NativeCall, fuel: nat) -> OpenStep
    decreases fuel,
{
    if fuel == 0 || statuses.len() == 0 {
        OpenStep::Call(next)
    } else {
        match open_next_spec(next, statuses[0]) {
            OpenStep::Call(c) => run_open(statuses.drop_first(), c, (fuel - 1) as nat),
            s => s,
        }
    }
}

/// Driving `open_next` from `open_first` over the four statuses opens the
/// session exactly when every call succeeds, and otherwise fails with the
/// error of the first call that did not.
pub proof fn lemma_open_sequence(connect: i32, paired: i32, validate: i32, start: i32)
    ensures
        ({
            let s = run_open(seq![connect, paired, validate, start], NativeCall::Connect, 4);
            match open_outcome(connect, paired, validate, start) {
                Ok(_) => s == OpenStep::Opened,
                Err(e) => s == OpenStep::Failed(e),
            }
        }),
{
    let s0 = seq![connect, paired, validate, start];
    let s1 = s0.drop_first();
    let s2 = s1.drop_first();
    let s3 = s2.drop_first();
    assert(s1 =~= seq![paired, validate, start]);
    assert(s2 =~= seq![validate, start]);
    assert(s3 =~= seq![start]);
    reveal_with_fuel(run_open, 5);
}

/// An open session on one device handle. Releasing it yields the native calls
/// that close it, once.
pub struct Session {
    handle: u64,
    open: bool,
}

/// The native calls that releasing a session makes: stop, then disconnect,
/// for an open session; nothing for one already released.
pub open spec fn release_calls(open: bool) -> Seq<NativeCall> {
    if open {
        seq![NativeCall::StopSession, NativeCall::Disconnect]
    } else {
        Seq::empty()
    }
}

/// How many times a call occurs in a sequence of calls.
pub open spec fn count_calls(calls: Seq<NativeCall>, c: NativeCall) -> nat
    decreases calls.len(),
{
    if calls.len() == 0 {
        0
    } else {
        (if calls[0] == c {
            1nat
        } else {
            0nat
        }) + count_calls(calls.drop_first(), c)
    }
}

impl Session {
    /// The session that a successful opening sequence established on `handle`.
    pub fn opened(handle: u64) -> (s: Session)
        ensures
            s.handle() == handle,
            s.is_open(),
    {
        Session { handle, open: true }
    }

    /// The result of opening a session on `handle` once the opening sequence
    /// reached `step`: `None` while calls remain, the open session when it
    /// opened, the error when it failed.
    pub fn from_step(handle: u64, step: OpenStep) -> (r: Option<Result<Session, Error>>)
        ensures
            match step {
                OpenStep::Call(_) => r is None,
                OpenStep::Opened => r matches Some(Ok(s)) && s.handle() == handle && s.is_open(),
                OpenStep::Failed(e) => r matches Some(Err(x)) && x == e,
            },
    {
        match step {
            OpenStep::Call(_) => None,
            OpenStep::Opened => Some(Ok(Session::opened(handle))),
            OpenStep::Failed(e) => Some(Err(e)),
        }
    }

    pub closed spec fn handle(&self) -> u64 {
        self.handle
    }

    pub closed spec fn is_open(&self) -> bool {
        self.open
    }

    /// The device handle the session is bound to.
    pub fn device(&self) -> (h: u64)
        ensures
            h == self.handle(),
    {
        self.handle
    }

    /// Whether the session has not been released yet.
    pub fn open(&self) -> (b: bool)
        ensures
            b == self.is_open(),
    {
        self.open
    }

    /// Releases the session: the calls to make are stop, then disconnect, the
    /// first time; nothing after that. Their statuses are not consulted.
    pub fn release(&mut self) -> (calls: Vec<NativeCall>)
        ensures
            calls@ == release_calls(old(self).is_open()),
            !final(self).is_open(),
            final(self).handle() == old(self).handle(),
    {
        if self.open {
            self.open = false;
            vec![NativeCall::StopSession, NativeCall::Disconnect]
        } else {
            Vec::new()
        }
    }
}

/// However an operation inside an open session ends, releasing the session
/// (`before` it is released, `after` the first release), even more than once,
/// disconnects the handle exactly once and stops the session exactly once.
pub proof fn lemma_release_disconnects_once(before: Session, after: Session)
    requires
        before.is_open(),
        !after.is_open(),
    ensures
        count_calls(release_calls(before.is_open()) + release_calls(after.is_open()),
            NativeCall::Disconnect) == 1,
        count_calls(release_calls(before.is_open()) + release_calls(after.is_open()),
            NativeCall::StopSession) == 1,
{
    let s = release_calls(before.is_open()) + release_calls(after.is_open());
    assert(s =~= seq![NativeCall::StopSession, NativeCall::Disconnect]);
    assert(s.drop_first() =~= seq![NativeCall::Disconnect]);
    assert(s.drop_first().drop_first() =~= Seq::<NativeCall>::empty());
    reveal_with_fuel(count_calls, 3);
}

} // verus!
