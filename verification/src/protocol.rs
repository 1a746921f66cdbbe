//! The write-session protocol: a two-phase handshake over an ordered inbound
//! message stream. The first message must bind a pin; every later message
//! must carry a value, applied to the bound pin in arrival order. Any other
//! shape is a protocol violation.

use vstd::prelude::*;

use crate::GpioError;

verus! {

/// One inbound message of a write session: either binds the session to a pin
/// or carries a value for the pin bound earlier.
#[derive(Clone, Copy, PartialEq, Eq, Structural, Debug)]
pub enum WriteRequest {
    Pin { pin: u32 },
    Value { value: bool },
}

/// One set-value command a write session has decided on: drive `pin` to
/// `value`.
#[derive(Clone, Copy, PartialEq, Eq, Structural, Debug)]
pub struct GpioCommand {
    pub pin: u32,
    pub value: bool,
}

/// Protocol state of a write session: unbound until the first message names
/// a pin, bound to that pin for the rest of its lifetime afterwards.
#[derive(Clone, Copy, PartialEq, Eq, Structural, Debug)]
pub enum WriteState {
    Unbound,
    Bound { pin: u32 },
}

/// What one protocol step decides: the successor state and, for a value
/// message, the command to apply; `None` marks a protocol violation.
pub open spec fn step_spec(s: WriteState, m: WriteRequest) -> Option<(WriteState, Option<
    GpioCommand,
>)> {
    match (s, m) {
        (WriteState::Unbound, WriteRequest::Pin { pin }) => Some(
            (WriteState::Bound { pin }, None::<GpioCommand>),
        ),
        (WriteState::Bound { pin }, WriteRequest::Value { value }) => Some(
            (WriteState::Bound { pin }, Some(GpioCommand { pin, value })),
        ),
        _ => None,
    }
}

/// Run the protocol from state `s` over the whole of `msgs`: the commands
/// decided before the first violation, in arrival order, and whether the
/// stream ran to its end without a violation.
pub open spec fn run_from(s: WriteState, msgs: Seq<WriteRequest>) -> (Seq<GpioCommand>, bool)
    decreases msgs.len(),
{
    if msgs.len() == 0 {
        (Seq::<GpioCommand>::empty(), true)
    } else {
        match step_spec(s, msgs[0]) {
            Some(t) => {
                let rest = run_from(t.0, msgs.drop_first());
                match t.1 {
                    Some(c) => (seq![c] + rest.0, rest.1),
                    None => rest,
                }
            },
            None => (Seq::<GpioCommand>::empty(), false),
        }
    }
}

/// A write session ends in the success acknowledgement exactly when its
/// stream is nonempty, opens with a pin binding, and never violates the
/// protocol afterwards.
pub open spec fn session_accepts(msgs: Seq<WriteRequest>) -> bool {
    msgs.len() > 0 && run_from(WriteState::Unbound, msgs).1
}

/// The set-value commands a write session performs on the stream `msgs`:
/// those decided before the first violation, in arrival order.
pub open spec fn session_commands(msgs: Seq<WriteRequest>) -> Seq<GpioCommand> {
    run_from(WriteState::Unbound, msgs).0
}

/// A stream that the protocol accepts in full: nonempty, a pin binding
/// first, values only afterwards.
pub open spec fn wellformed_stream(msgs: Seq<WriteRequest>) -> bool {
    &&& msgs.len() > 0
    &&& msgs[0] is Pin
    &&& forall|i: int| 1 <= i < msgs.len() ==> msgs[i] is Value
}

/// How many messages at the front of `msgs` carry values.
pub open spec fn value_prefix_len(msgs: Seq<WriteRequest>) -> nat
    decreases msgs.len(),
{
    if msgs.len() == 0 {
        0
    } else if msgs[0] is Value {
        1 + value_prefix_len(msgs.drop_first())
    } else {
        0
    }
}

proof fn lemma_run_bound(p: u32, msgs: Seq<WriteRequest>)
    ensures
        value_prefix_len(msgs) <= msgs.len(),
        run_from(WriteState::Bound { pin: p }, msgs).1 <==> value_prefix_len(msgs) == msgs.len(),
        run_from(WriteState::Bound { pin: p }, msgs).0 =~= Seq::new(
            value_prefix_len(msgs),
            |i: int| (GpioCommand { pin: p, value: msgs[i]->value }),
        ),
    decreases msgs.len(),
{
    if msgs.len() > 0 {
        lemma_run_bound(p, msgs.drop_first());
    }
}

proof fn lemma_value_prefix_is_values(msgs: Seq<WriteRequest>)
    ensures
        forall|i: int| 0 <= i < value_prefix_len(msgs) ==> msgs[i] is Value,
        value_prefix_len(msgs) < msgs.len() ==> !(msgs[value_prefix_len(msgs) as int] is Value),
        (forall|i: int| 0 <= i < msgs.len() ==> msgs[i] is Value) ==> value_prefix_len(msgs)
            == msgs.len(),
    decreases msgs.len(),
{
    if msgs.len() > 0 {
        let d = msgs.drop_first();
        lemma_value_prefix_is_values(d);
        assert forall|i: int| 0 <= i < value_prefix_len(msgs) implies msgs[i] is Value by {
            if i >= 1 {
                assert(d[i - 1] == msgs[i]);
                assert(d[i - 1] is Value);
            }
        }
        if value_prefix_len(msgs) < msgs.len() && msgs[0] is Value {
            assert(msgs[value_prefix_len(msgs) as int] == d[value_prefix_len(d) as int]);
        }
        if forall|i: int| 0 <= i < msgs.len() ==> msgs[i] is Value {
            assert forall|j: int| 0 <= j < d.len() implies d[j] is Value by {
                assert(d[j] == msgs[j + 1]);
                assert(msgs[j + 1] is Value);
            }
            assert(value_prefix_len(d) == d.len());
        }
    }
}

/// Law: a write session succeeds exactly on the well-formed streams — a
/// leading pin binding followed by value messages only — and an empty
/// stream, a leading value, or a second pin binding is refused.
pub proof fn lemma_session_accepts_iff_wellformed(msgs: Seq<WriteRequest>)
    ensures
        session_accepts(msgs) <==> wellformed_stream(msgs),
{
    if msgs.len() > 0 && msgs[0] is Pin {
        let d = msgs.drop_first();
        let p = msgs[0]->pin;
        lemma_run_bound(p, d);
        lemma_value_prefix_is_values(d);
        if session_accepts(msgs) {
            assert forall|i: int| 1 <= i < msgs.len() implies msgs[i] is Value by {
                assert(d[i - 1] == msgs[i]);
                assert(d[i - 1] is Value);
            }
        }
        if wellformed_stream(msgs) {
            assert forall|j: int| 0 <= j < d.len() implies d[j] is Value by {
                assert(d[j] == msgs[j + 1]);
            }
            assert(value_prefix_len(d) == d.len());
        }
    }
}

/// Law: the commands of a write session are the values of the longest run of
/// value messages after a leading pin binding, each addressed to that pin,
/// in arrival order; without a leading pin binding no command at all is
/// decided.
pub proof fn lemma_session_commands_exact(msgs: Seq<WriteRequest>)
    ensures
        (msgs.len() == 0 || !(msgs[0] is Pin)) ==> session_commands(msgs)
            =~= Seq::<GpioCommand>::empty(),
        msgs.len() > 0 && msgs[0] is Pin ==> {
            &&& value_prefix_len(msgs.drop_first()) <= msgs.len() - 1
            &&& session_commands(msgs) =~= Seq::new(
                value_prefix_len(msgs.drop_first()),
                |i: int| (GpioCommand { pin: msgs[0]->pin, value: msgs[i + 1]->value }),
            )
        },
{
    if msgs.len() > 0 && msgs[0] is Pin {
        let p = msgs[0]->pin;
        lemma_run_bound(p, msgs.drop_first());
        assert(forall|i: int|
            1 <= i < msgs.len() ==> msgs[i] == #[trigger] msgs.drop_first()[i - 1]);
    }
}

impl WriteState {
    /// Advance the state machine by one inbound message: bind on the first
    /// pin message, decide a command for each value message once bound,
    /// refuse anything else.
    pub fn step(&self, m: &WriteRequest) -> (r: Result<
        (WriteState, Option<GpioCommand>),
        GpioError,
    >)
        ensures
            match step_spec(*self, *m) {
                Some(t) => r == Ok::<_, GpioError>(t),
                None => r == Err::<(WriteState, Option<GpioCommand>), _>(
                    GpioError::ProtocolViolation,
                ),
            },
    {
        match (self, m) {
            (WriteState::Unbound, WriteRequest::Pin { pin }) => Ok(
                (WriteState::Bound { pin: *pin }, None),
            ),
            (WriteState::Bound { pin }, WriteRequest::Value { value }) => Ok(
                (WriteState::Bound { pin: *pin }, Some(GpioCommand { pin: *pin, value: *value })),
            ),
            _ => Err(GpioError::ProtocolViolation),
        }
    }
}

/// Decide a whole write session at once: the commands it applies, in order,
/// and whether it ends in the success acknowledgement or in a protocol
/// violation.
pub fn plan_session(msgs: &Vec<WriteRequest>) -> (r: (Vec<GpioCommand>, Result<(), GpioError>))
    ensures
        r.0@ == session_commands(msgs@),
        r.1 is Ok <==> session_accepts(msgs@),
        r.1 matches Err(e) ==> e == GpioError::ProtocolViolation,
{
    let mut cmds: Vec<GpioCommand> = Vec::new();
    if msgs.len() == 0 {
        return (cmds, Err(GpioError::ProtocolViolation));
    }
    let mut st = WriteState::Unbound;
    let mut i: usize = 0;
    proof {
        assert(msgs@.skip(0) =~= msgs@);
    }
    while i < msgs.len()
        invariant
            0 <= i <= msgs@.len(),
            cmds@ + run_from(st, msgs@.skip(i as int)).0 == run_from(
                WriteState::Unbound,
                msgs@,
            ).0,
            run_from(st, msgs@.skip(i as int)).1 == run_from(WriteState::Unbound, msgs@).1,
        decreases msgs@.len() - i,
    {
        proof {
            assert(msgs@.skip(i as int).drop_first() =~= msgs@.skip(i as int + 1));
            assert(msgs@.skip(i as int)[0] == msgs@[i as int]);
        }
        match st.step(&msgs[i]) {
            Ok((next, cmd)) => {
                match cmd {
                    Some(c) => {
                        proof {
                            assert(cmds@ + (seq![c] + run_from(next, msgs@.skip(i as int + 1)).0)
                                =~= cmds@.push(c) + run_from(next, msgs@.skip(i as int + 1)).0);
                        }
                        cmds.push(c);
                    },
                    None => {},
                }
                st = next;
            },
            Err(e) => {
                return (cmds, Err(e));
            },
        }
        i = i + 1;
    }
    proof {
        assert(msgs@.skip(msgs@.len() as int) =~= Seq::<WriteRequest>::empty());
    }
    (cmds, Ok(()))
}

} // verus!
