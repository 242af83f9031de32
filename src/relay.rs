use vstd::prelude::*;

verus! {

/// What a non-blocking read from one side of the relay gave.
pub enum ReadOutcome {
    /// These bytes were read.
    Data(Vec<u8>),
    /// The read returned zero bytes: the side closed in order.
    Closed,
    /// No data was available yet.
    WouldBlock,
    /// The read failed with another error.
    Failed,
}

/// Which side the relay reads next, or that the connection is over.
#[derive(Debug, Clone, Copy, PartialEq, Eq, Structural)]
pub enum RelayPhase {
    /// Read from the local client.
    PollClient,
    /// The client had nothing: read from the device.
    PollDevice,
    /// The connection's relay loop has ended.
    Ended,
}

/// What the caller does after reporting a read.
pub enum RelayAction {
    /// Write these bytes to the device socket, then read the client again.
    WriteDevice(Vec<u8>),
    /// Write these bytes to the client socket, then read the client again.
    WriteClient(Vec<u8>),
    /// Read from the device socket.
    ReadDevice,
    /// Neither side had data: wait a short interval, then read the client.
    Sleep,
    /// Close this client connection and wait for the next one.
    EndConnection,
}

/// One step of the relay: the phase after a read in `phase` gave `o`, and
/// the action to take.
pub open spec fn relay_step(phase: RelayPhase, o: ReadOutcome) -> (RelayPhase, RelayAction) {
    match phase {
        RelayPhase::PollClient => match o {
            ReadOutcome::Data(b) => if b@.len() == 0 {
                (RelayPhase::Ended, RelayAction::EndConnection)
            } else {
                (RelayPhase::PollClient, RelayAction::WriteDevice(b))
            },
            ReadOutcome::WouldBlock => (RelayPhase::PollDevice, RelayAction::ReadDevice),
            _ => (RelayPhase::Ended, RelayAction::EndConnection),
        },
        RelayPhase::PollDevice => match o {
            ReadOutcome::Data(b) => if b@.len() == 0 {
                (RelayPhase::Ended, RelayAction::EndConnection)
            } else {
                (RelayPhase::PollClient, RelayAction::WriteClient(b))
            },
            ReadOutcome::WouldBlock => (RelayPhase::PollClient, RelayAction::Sleep),
            _ => (RelayPhase::Ended, RelayAction::EndConnection),
        },
        RelayPhase::Ended => (RelayPhase::Ended, RelayAction::EndConnection),
    }
}

/// The relay loop of one accepted client connection.
pub struct Relay {
    phase: RelayPhase,
}

impl Relay {
    pub closed spec fn phase(&self) -> RelayPhase {
        self.phase
    }

    /// A relay for a freshly accepted connection: it starts by reading the client.
    pub fn new() -> (r: Relay)
        ensures
            r.phase() == RelayPhase::PollClient,
    {
        Relay { phase: RelayPhase::PollClient }
    }

    /// The side to read next, or `Ended` once the connection is over.
    pub fn next_read(&self) -> (p: RelayPhase)
        ensures
            p == self.phase(),
    {
        self.phase
    }

    /// Whether the connection's relay loop has ended.
    pub fn ended(&self) -> (b: bool)
        ensures
            b == (self.phase() == RelayPhase::Ended),
    {
        match self.phase {
            RelayPhase::Ended => true,
            _ => false,
        }
    }

    /// Reports the outcome of the read that `next_read` asked for and returns
    /// what to do with it. Data read on one side is handed, unchanged, to the
    /// other; a zero-length read or an error on either side ends this
    /// connection only.
    pub fn on_read(&mut self, o: ReadOutcome) -> (a: RelayAction)
        ensures
            (final(self).phase(), a) == relay_step(old(self).phase(), o),
    {
        match self.phase {
            RelayPhase::PollClient => match o {
                ReadOutcome::Data(b) => if b.len() == 0 {
                    self.phase = RelayPhase::Ended;
                    RelayAction::EndConnection
                } else {
                    RelayAction::WriteDevice(b)
                },
                ReadOutcome::WouldBlock => {
                    self.phase = RelayPhase::PollDevice;
                    RelayAction::ReadDevice
                },
                _ => {
                    self.phase = RelayPhase::Ended;
                    RelayAction::EndConnection
                },
            },
            RelayPhase::PollDevice => match o {
                ReadOutcome::Data(b) => if b.len() == 0 {
                    self.phase = RelayPhase::Ended;
                    RelayAction::EndConnection
                } else {
                    self.phase = RelayPhase::PollClient;
                    RelayAction::WriteClient(b)
                },
                ReadOutcome::WouldBlock => {
                    self.phase = RelayPhase::PollClient;
                    RelayAction::Sleep
                },
                _ => {
                    self.phase = RelayPhase::Ended;
                    RelayAction::EndConnection
                },
            },
            RelayPhase::Ended => RelayAction::EndConnection,
        }
    }
}

/// The actions taken over a run of read outcomes, starting in `phase`.
pub open spec fn run_actions(phase: RelayPhase, os: Seq<ReadOutcome>) -> Seq<RelayAction>
    decreases os.len(),
{
    if os.len() == 0 {
        Seq::empty()
    } else {
        let (p, a) = relay_step(phase, os[0]);
        seq![a] + run_actions(p, os.drop_first())
    }
}

/// The bytes read from the client or from the device (`from_client`) over a
/// run of read outcomes, starting in `phase`, while the connection is open.
pub open spec fn bytes_read(phase: RelayPhase, os: Seq<ReadOutcome>, from_client: bool) -> Seq<u8>
    decreases os.len(),
{
    if os.len() == 0 {
        Seq::empty()
    } else {
        let here = match (phase, os[0]) {
            (RelayPhase::PollClient, ReadOutcome::Data(b)) => if from_client {
                b@
            } else {
                Seq::empty()
            },
            (RelayPhase::PollDevice, ReadOutcome::Data(b)) => if from_client {
                Seq::empty()
            } else {
                b@
            },
            _ => Seq::empty(),
        };
        here + bytes_read(relay_step(phase, os[0]).0, os.drop_first(), from_client)
    }
}

/// The bytes that a sequence of actions writes to the device (`to_device`) or
/// to the client, in order.
pub open spec fn bytes_written(acts: Seq<RelayAction>, to_device: bool) -> Seq<u8>
    decreases acts.len(),
{
    if acts.len() == 0 {
        Seq::empty()
    } else {
        let here = match acts[0] {
            RelayAction::WriteDevice(b) => if to_device {
                b@
            } else {
                Seq::empty()
            },
            RelayAction::WriteClient(b) => if to_device {
                Seq::empty()
            } else {
                b@
            },
            _ => Seq::empty(),
        };
        here + bytes_written(acts.drop_first(), to_device)
    }
}

/// Relay fidelity: over any run of reads, the bytes written to the device are
/// exactly the bytes read from the client, in order, and the bytes written to
/// the client are exactly those read from the device.
pub proof fn lemma_relay_fidelity(phase: RelayPhase, os: Seq<ReadOutcome>)
    ensures
        bytes_written(run_actions(phase, os), true) == bytes_read(phase, os, true),
        bytes_written(run_actions(phase, os), false) == bytes_read(phase, os, false),
    decreases os.len(),
{
    if os.len() > 0 {
        let (p, a) = relay_step(phase, os[0]);
        lemma_relay_fidelity(p, os.drop_first());
        let acts = run_actions(phase, os);
        assert(acts[0] == a);
        assert(acts.drop_first() =~= run_actions(p, os.drop_first()));
        assert(bytes_written(acts, true) =~= bytes_read(phase, os, true));
        assert(bytes_written(acts, false) =~= bytes_read(phase, os, false));
    }
}

/// Once a connection has ended, further reads write nothing to either side.
pub proof fn lemma_ended_is_silent(os: Seq<ReadOutcome>)
    ensures
        bytes_written(run_actions(RelayPhase::Ended, os), true) == Seq::<u8>::empty(),
        bytes_written(run_actions(RelayPhase::Ended, os), false) == Seq::<u8>::empty(),
{
    lemma_relay_fidelity(RelayPhase::Ended, os);
    lemma_ended_reads_nothing(os);
}

proof fn lemma_ended_reads_nothing(os: Seq<ReadOutcome>)
    ensures
        bytes_read(RelayPhase::Ended, os, true) == Seq::<u8>::empty(),
        bytes_read(RelayPhase::Ended, os, false) == Seq::<u8>::empty(),
    decreases os.len(),
{
    if os.len() > 0 {
        lemma_ended_reads_nothing(os.drop_first());
        assert(bytes_read(RelayPhase::Ended, os, true) =~= Seq::<u8>::empty());
        assert(bytes_read(RelayPhase::Ended, os, false) =~= Seq::<u8>::empty());
    }
}

/// Relay termination: on an active connection, a zero-length read or a closed
/// side, from either side, ends that connection's loop (and nothing else: the
/// next accepted connection starts a fresh relay that reads the client).
pub proof fn lemma_close_ends_connection(phase: RelayPhase, b: Vec<u8>)
    requires
        phase != RelayPhase::Ended,
        b@.len() == 0,
    ensures
        relay_step(phase, ReadOutcome::Closed).0 == RelayPhase::Ended,
        relay_step(phase, ReadOutcome::Closed).1 is EndConnection,
        relay_step(phase, ReadOutcome::Data(b)).0 == RelayPhase::Ended,
        relay_step(phase, ReadOutcome::Data(b)).1 is EndConnection,
        relay_step(phase, ReadOutcome::Failed).0 == RelayPhase::Ended,
{
}

} // verus!
