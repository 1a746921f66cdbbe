//! The per-call session state machines. A read session samples one pin on a
//! cadence and lives until a delivery to the client fails — its sole
//! termination condition. A write session consumes an inbound message
//! stream: it binds its pin from the first message, then applies each later
//! value to that pin, in arrival order, through the shared registry.

use vstd::prelude::*;

use std::sync::Arc;

use crate::GpioError;
use crate::protocol::{
    GpioCommand, WriteRequest, WriteState, run_from, session_accepts, session_commands, step_spec,
};
use crate::registry::{LineRegistry, read_line};

verus! {

/// Lifecycle of a read session: it stays active until a delivery to the
/// client fails.
#[derive(Clone, Copy, PartialEq, Eq, Structural, Debug)]
pub enum ReadState {
    Active,
    Terminated,
}

/// One in-progress read call: the pin it samples, the cadence it samples at,
/// and whether it still delivers. An `interval_ms` of zero is valid and
/// means a busy loop: the caller waits no time between ticks.
pub struct ReadSession {
    pub pin: u32,
    pub interval_ms: u64,
    pub state: ReadState,
}

impl ReadSession {
    /// Whether the session still delivers samples.
    pub open spec fn active(&self) -> bool {
        self.state is Active
    }

    /// Start a session that samples `pin` every `interval_ms` milliseconds.
    pub fn new(pin: u32, interval_ms: u64) -> (s: ReadSession)
        ensures
            s.pin == pin,
            s.interval_ms == interval_ms,
            s.active(),
    {
        ReadSession { pin, interval_ms, state: ReadState::Active }
    }

    /// One tick: read a sample through the line acquired for this session's
    /// pin, nonzero reading as `true`. The caller gets the handle from the
    /// registry's get-or-create — under a lock scoped to that step alone —
    /// and the read itself needs no lock: the handle is freely shared.
    pub fn tick(&self, line: &Arc<gpio_cdev::LineHandle>) -> (r: Result<bool, GpioError>)
        requires
            self.active(),
        ensures
            r matches Err(e) ==> e == GpioError::HardwareIo,
    {
        read_line(line)
    }

    /// Record the outcome of handing a sample to the client: a failed
    /// delivery terminates the session, and nothing else does.
    pub fn on_delivery(&mut self, delivered: bool)
        ensures
            final(self).active() <==> old(self).active() && delivered,
            final(self).pin == old(self).pin,
            final(self).interval_ms == old(self).interval_ms,
    {
        if !delivered {
            self.state = ReadState::Terminated;
        }
    }

    /// Whether the session should run another tick.
    pub fn is_active(&self) -> (r: bool)
        ensures
            r == self.active(),
    {
        match self.state {
            ReadState::Active => true,
            ReadState::Terminated => false,
        }
    }
}

/// One in-progress write call: the protocol state it has reached. Its view
/// is that state — unbound until the first message names a pin.
pub struct WriteSession {
    state: WriteState,
}

impl View for WriteSession {
    type V = WriteState;

    closed spec fn view(&self) -> WriteState {
        self.state
    }
}

impl WriteSession {
    /// A session that has not yet seen its first message.
    pub fn new() -> (s: WriteSession)
        ensures
            s@ == WriteState::Unbound,
    {
        WriteSession { state: WriteState::Unbound }
    }

    /// Advance the protocol by one inbound message without touching any
    /// hardware: bind on the first pin message (no command), decide one
    /// set-value command for each value message once bound, and refuse
    /// anything else as a protocol violation, which leaves the state as it
    /// was. A caller who guards the registry with a lock takes the decision
    /// here first and needs the lock only to acquire the decided command's
    /// line.
    pub fn advance(&mut self, msg: &WriteRequest) -> (r: Result<Option<GpioCommand>, GpioError>)
        ensures
            match step_spec(old(self)@, *msg) {
                Some(t) => r == Ok::<_, GpioError>(t.1) && final(self)@ == t.0,
                None => r == Err::<Option<GpioCommand>, _>(GpioError::ProtocolViolation)
                    && final(self)@ == old(self)@,
            },
    {
        match self.state.step(msg) {
            Ok((next, cmd)) => {
                self.state = next;
                Ok(cmd)
            },
            Err(e) => Err(e),
        }
    }

    /// End of the inbound stream: a session still unbound saw no leading pin
    /// message — the stream was empty — which the protocol refuses; a bound
    /// session ends in the empty success acknowledgement.
    pub fn finish(&self) -> (r: Result<(), GpioError>)
        ensures
            r is Ok <==> self@ is Bound,
            r matches Err(e) ==> e == GpioError::ProtocolViolation,
    {
        match self.state {
            WriteState::Bound { .. } => Ok(()),
            WriteState::Unbound => Err(GpioError::ProtocolViolation),
        }
    }

    /// Handle one inbound message: bind on the first pin message, apply a
    /// value message to the bound pin through the registry, and refuse
    /// anything else as a protocol violation. A violation or a failed
    /// hardware call leaves the registry's cache intact but for the lazy
    /// acquisition itself.
    pub fn handle(&mut self, registry: &mut LineRegistry, msg: &WriteRequest) -> (r: Result<
        (),
        GpioError,
    >)
        ensures
            step_spec(old(self)@, *msg) is None ==> {
                &&& r == Err::<(), GpioError>(GpioError::ProtocolViolation)
                &&& final(self)@ == old(self)@
                &&& final(registry)@ == old(registry)@
            },
            step_spec(old(self)@, *msg) matches Some(t) ==> {
                &&& final(self)@ == t.0
                &&& (t.1 is None ==> r is Ok && final(registry)@ == old(registry)@)
                &&& (t.1 matches Some(c) ==> {
                    &&& old(registry)@.contains_key(c.pin) ==> final(registry)@ == old(registry)@
                    &&& r is Ok ==> final(registry)@.contains_key(c.pin)
                    &&& final(registry)@.dom() == old(registry)@.dom() || final(registry)@.dom()
                        == old(registry)@.dom().insert(c.pin)
                    &&& forall|q: u32|
                        #[trigger] old(registry)@.contains_key(q) ==> final(registry)@.contains_key(q)
                            && final(registry)@[q] == old(registry)@[q]
                    &&& (r matches Err(e) ==> (e == GpioError::LineAcquisition || e
                        == GpioError::HardwareIo))
                })
            },
    {
        match self.advance(msg) {
            Ok(Some(c)) => registry.apply(c.pin, c.value),
            Ok(None) => Ok(()),
            Err(e) => Err(e),
        }
    }

    /// Run a whole inbound sequence to its end, applying each decided
    /// command as it arrives; the commands already applied stay applied when
    /// a later message violates the protocol.
    pub fn run(
        registry: &mut LineRegistry,
        msgs: &Vec<WriteRequest>,
    ) -> (r: Result<(), GpioError>)
        ensures
            r is Ok ==> session_accepts(msgs@),
            session_accepts(msgs@) ==> (r is Ok || (r matches Err(e) && (e
                == GpioError::LineAcquisition || e == GpioError::HardwareIo))),
            session_accepts(msgs@) && session_commands(msgs@).len() == 0 ==> r is Ok,
            !session_accepts(msgs@) && session_commands(msgs@).len() == 0 ==> r == Err::<
                (),
                GpioError,
            >(GpioError::ProtocolViolation),
            forall|q: u32|
                #[trigger] old(registry)@.contains_key(q) ==> final(registry)@.contains_key(q)
                    && final(registry)@[q] == old(registry)@[q],
    {
        if msgs.len() == 0 {
            return Err(GpioError::ProtocolViolation);
        }
        let ghost orig = registry@;
        let ghost total = run_from(WriteState::Unbound, msgs@);
        let ghost mut done: Seq<GpioCommand> = Seq::<GpioCommand>::empty();
        let mut session = WriteSession::new();
        let mut i: usize = 0;
        proof {
            assert(msgs@.skip(0) =~= msgs@);
        }
        while i < msgs.len()
            invariant
                0 <= i <= msgs@.len(),
                orig == old(registry)@,
                total == run_from(WriteState::Unbound, msgs@),
                run_from(session@, msgs@.skip(i as int)).1 == total.1,
                done + run_from(session@, msgs@.skip(i as int)).0 == total.0,
                forall|q: u32| #[trigger]
                    orig.contains_key(q) ==> registry@.contains_key(q) && registry@[q] == orig[q],
            decreases msgs@.len() - i,
        {
            proof {
                assert(msgs@.skip(i as int).drop_first() =~= msgs@.skip(i as int + 1));
                assert(msgs@.skip(i as int)[0] == msgs@[i as int]);
            }
            let ghost pre = registry@;
            let ghost pre_state = session@;
            let step = session.handle(registry, &msgs[i]);
            proof {
                assert forall|q: u32| #[trigger] orig.contains_key(q) implies registry@.contains_key(
                    q,
                ) && registry@[q] == orig[q] by {
                    assert(pre.contains_key(q) && pre[q] == orig[q]);
                }
                match step_spec(pre_state, msgs@[i as int]) {
                    Some(t) => {
                        match t.1 {
                            Some(c) => {
                                assert(run_from(pre_state, msgs@.skip(i as int)).0 == seq![c]
                                    + run_from(t.0, msgs@.skip(i as int + 1)).0);
                                assert(total.0.len() >= done.len() + 1);
                                assert(done + (seq![c] + run_from(t.0, msgs@.skip(i as int + 1)).0)
                                    =~= done.push(c) + run_from(t.0, msgs@.skip(i as int + 1)).0);
                                done = done.push(c);
                            },
                            None => {},
                        }
                    },
                    None => {
                        assert(!total.1);
                    },
                }
            }
            if let Err(e) = step {
                return Err(e);
            }
            i = i + 1;
        }
        proof {
            assert(msgs@.skip(msgs@.len() as int) =~= Seq::<WriteRequest>::empty());
        }
        Ok(())
    }
}

} // verus!
