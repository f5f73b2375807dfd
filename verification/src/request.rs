use vstd::prelude::*;

verus! {

/// Size of the fixed, per-call receive buffer. A response whose body does
/// not fit is a failure, not a silent truncation: callers must size the
/// buffer for the largest response they expect.
pub const RESPONSE_CAPACITY: usize = 4096;

/// Request-scope failures. Any failure at a pipeline stage is surfaced as
/// a terminal failure of that call; the executor never retries internally.
#[derive(Clone, Copy, Debug, PartialEq, Eq, Structural)]
pub enum RequestError {
    /// The host could not be resolved.
    DnsFailed,
    /// The TCP connection could not be opened.
    ConnectFailed,
    /// The TLS handshake failed.
    TlsFailed,
    /// Sending the request failed.
    SendFailed,
    /// Reading the response failed, or the peer went silent for good.
    ReadFailed,
    /// The response exceeds the fixed receive buffer.
    BufferTooSmall,
    /// The deadline passed before the response was complete.
    DeadlineExceeded,
}

/// What the socket (raced against the wall clock) reported to the read
/// loop, in the order observed. Every observation carries the instant
/// `at`, in milliseconds, at which it was made.
#[derive(Debug)]
pub enum ReadEvent {
    /// A chunk of response body arrived.
    Data { at: u64, chunk: Vec<u8> },
    /// A scheduler tick passed with nothing to read.
    Tick { at: u64 },
    /// The peer closed the connection: the body is complete.
    Closed { at: u64 },
    /// The read itself failed.
    Failed { at: u64 },
}

/// Whether the trace settles the read loop: some event closes the
/// connection, fails, oversteps the deadline, or overflows the buffer.
/// `have` is the number of body bytes accumulated so far.
pub open spec fn spec_read_concludes(
    events: Seq<ReadEvent>,
    have: nat,
    cap: nat,
    deadline: u64,
) -> bool
    decreases events.len(),
{
    if events.len() == 0 {
        false
    } else {
        match events[0] {
            ReadEvent::Data { at, chunk } => {
                if at > deadline {
                    true
                } else if have + chunk@.len() > cap {
                    true
                } else {
                    spec_read_concludes(events.drop_first(), have + chunk@.len(), cap, deadline)
                }
            },
            ReadEvent::Tick { at } => {
                if at > deadline {
                    true
                } else {
                    spec_read_concludes(events.drop_first(), have, cap, deadline)
                }
            },
            ReadEvent::Closed { at: _ } => true,
            ReadEvent::Failed { at: _ } => true,
        }
    }
}

/// What the read loop returns for a trace, starting from the already
/// accumulated body `acc`: the first event past the deadline abandons the
/// read at once; a chunk that would overflow the buffer is a capacity
/// error, never a truncation; a timely close completes the body exactly.
/// A trace that ends without settling stands for a socket that went
/// silent for good, which surfaces as a read failure.
pub open spec fn spec_read_outcome(
    events: Seq<ReadEvent>,
    acc: Seq<u8>,
    cap: nat,
    deadline: u64,
) -> Result<Seq<u8>, RequestError>
    decreases events.len(),
{
    if events.len() == 0 {
        Err(RequestError::ReadFailed)
    } else {
        match events[0] {
            ReadEvent::Data { at, chunk } => {
                if at > deadline {
                    Err(RequestError::DeadlineExceeded)
                } else if acc.len() + chunk@.len() > cap {
                    Err(RequestError::BufferTooSmall)
                } else {
                    spec_read_outcome(events.drop_first(), acc + chunk@, cap, deadline)
                }
            },
            ReadEvent::Tick { at } => {
                if at > deadline {
                    Err(RequestError::DeadlineExceeded)
                } else {
                    spec_read_outcome(events.drop_first(), acc, cap, deadline)
                }
            },
            ReadEvent::Closed { at } => {
                if at > deadline {
                    Err(RequestError::DeadlineExceeded)
                } else {
                    Ok(acc)
                }
            },
            ReadEvent::Failed { at } => {
                if at > deadline {
                    Err(RequestError::DeadlineExceeded)
                } else {
                    Err(RequestError::ReadFailed)
                }
            },
        }
    }
}

/// Append the bytes of `src` to `dst`.
fn append_bytes(dst: &mut Vec<u8>, src: &Vec<u8>)
    ensures
        final(dst)@ == old(dst)@ + src@,
{
    let mut k: usize = 0;
    while k < src.len()
        invariant
            k <= src@.len(),
            dst@ == old(dst)@ + src@.take(k as int),
        decreases src@.len() - k,
    {
        dst.push(src[k]);
        proof {
            assert(old(dst)@ + src@.take(k as int) + seq![src@[k as int]] =~= old(dst)@
                + src@.take(k as int + 1));
        }
        k = k + 1;
    }
    proof {
        assert(src@.take(src@.len() as int) =~= src@);
    }
}

/// Run the deadline-bounded read loop over a trace of socket observations,
/// accumulating the response body in a buffer of the given capacity.
///
/// The caller must hand over a trace that settles the loop; the firmware's
/// read loop guarantees this by observing a scheduler tick whenever there
/// is nothing to read, so the wall clock alone eventually concludes it.
pub fn read_to_end(events: &Vec<ReadEvent>, capacity: usize, deadline: u64) -> (r: Result<
    Vec<u8>,
    RequestError,
>)
    requires
        spec_read_concludes(events@, 0, capacity as nat, deadline),
    ensures
        r matches Ok(body) ==> spec_read_outcome(events@, Seq::empty(), capacity as nat, deadline)
            == Ok::<Seq<u8>, RequestError>(body@),
        r matches Err(e) ==> spec_read_outcome(events@, Seq::empty(), capacity as nat, deadline)
            == Err::<Seq<u8>, RequestError>(e),
{
    let ghost cap = capacity as nat;
    let mut body: Vec<u8> = Vec::new();
    let mut i: usize = 0;
    proof {
        assert(events@.skip(0) =~= events@);
    }
    while i < events.len()
        invariant
            i <= events@.len(),
            body@.len() <= capacity,
            cap == capacity as nat,
            spec_read_concludes(events@.skip(i as int), body@.len() as nat, cap, deadline),
            spec_read_outcome(events@, Seq::empty(), cap, deadline) == spec_read_outcome(
                events@.skip(i as int),
                body@,
                cap,
                deadline,
            ),
        decreases events@.len() - i,
    {
        proof {
            assert(events@.skip(i as int).drop_first() =~= events@.skip(i as int + 1));
        }
        match &events[i] {
            ReadEvent::Data { at, chunk } => {
                if *at > deadline {
                    return Err(RequestError::DeadlineExceeded);
                }
                if chunk.len() > capacity - body.len() {
                    return Err(RequestError::BufferTooSmall);
                }
                append_bytes(&mut body, chunk);
            },
            ReadEvent::Tick { at } => {
                if *at > deadline {
                    return Err(RequestError::DeadlineExceeded);
                }
            },
            ReadEvent::Closed { at } => {
                if *at > deadline {
                    return Err(RequestError::DeadlineExceeded);
                }
                return Ok(body);
            },
            ReadEvent::Failed { at } => {
                if *at > deadline {
                    return Err(RequestError::DeadlineExceeded);
                }
                return Err(RequestError::ReadFailed);
            },
        }
        i = i + 1;
    }
    proof {
        assert(events@.skip(events@.len() as int) =~= Seq::<ReadEvent>::empty());
        assert(false);
    }
    Err(RequestError::ReadFailed)
}

/// The body bytes the peer delivers before closing, with scheduler ticks
/// skipped; what a completed read must return, exactly.
pub open spec fn spec_delivered(events: Seq<ReadEvent>) -> Seq<u8>
    decreases events.len(),
{
    if events.len() == 0 {
        Seq::empty()
    } else {
        match events[0] {
            ReadEvent::Data { at: _, chunk } => chunk@ + spec_delivered(events.drop_first()),
            ReadEvent::Tick { at: _ } => spec_delivered(events.drop_first()),
            ReadEvent::Closed { at: _ } => Seq::empty(),
            ReadEvent::Failed { at: _ } => Seq::empty(),
        }
    }
}

/// Law (no silent truncation): a read that completes returns exactly the
/// bytes already held plus every byte the peer delivered before closing,
/// and the whole body fits the buffer. Nothing is dropped and nothing —
/// no residue of any earlier buffer content — is added.
pub proof fn lemma_completed_body_exact(
    events: Seq<ReadEvent>,
    acc: Seq<u8>,
    cap: nat,
    deadline: u64,
)
    requires
        acc.len() <= cap,
    ensures
        spec_read_outcome(events, acc, cap, deadline) matches Ok(body) ==> body == acc
            + spec_delivered(events) && body.len() <= cap,
    decreases events.len(),
{
    if events.len() == 0 {
    } else {
        match events[0] {
            ReadEvent::Data { at, chunk } => {
                if at <= deadline && acc.len() + chunk@.len() <= cap {
                    lemma_completed_body_exact(events.drop_first(), acc + chunk@, cap, deadline);
                    assert((acc + chunk@) + spec_delivered(events.drop_first()) =~= acc + (chunk@
                        + spec_delivered(events.drop_first())));
                }
            },
            ReadEvent::Tick { at: _ } => {
                lemma_completed_body_exact(events.drop_first(), acc, cap, deadline);
            },
            ReadEvent::Closed { at: _ } => {
                assert(acc + Seq::<u8>::empty() =~= acc);
            },
            ReadEvent::Failed { at: _ } => {},
        }
    }
}

/// The shape of a response that overflows: walking the trace, every
/// observation stays within the deadline and, before anything closes or
/// fails, the delivered bytes outgrow the buffer.
pub open spec fn spec_overflows_in_time(
    events: Seq<ReadEvent>,
    have: nat,
    cap: nat,
    deadline: u64,
) -> bool
    decreases events.len(),
{
    if events.len() == 0 {
        false
    } else {
        match events[0] {
            ReadEvent::Data { at, chunk } => at <= deadline && (have + chunk@.len() > cap
                || spec_overflows_in_time(events.drop_first(), have + chunk@.len(), cap, deadline)),
            ReadEvent::Tick { at } => at <= deadline && spec_overflows_in_time(
                events.drop_first(),
                have,
                cap,
                deadline,
            ),
            ReadEvent::Closed { at: _ } => false,
            ReadEvent::Failed { at: _ } => false,
        }
    }
}

/// Law (buffer-capacity error, not truncated success): whenever the peer
/// delivers, in time, more body than the buffer holds, the read fails
/// with the capacity error — for every such trace, whatever follows the
/// overflowing chunk.
pub proof fn lemma_oversized_is_capacity_error(
    events: Seq<ReadEvent>,
    acc: Seq<u8>,
    cap: nat,
    deadline: u64,
)
    requires
        spec_overflows_in_time(events, acc.len(), cap, deadline),
    ensures
        spec_read_outcome(events, acc, cap, deadline) == Err::<Seq<u8>, RequestError>(
            RequestError::BufferTooSmall,
        ),
    decreases events.len(),
{
    match events[0] {
        ReadEvent::Data { at, chunk } => {
            if acc.len() + chunk@.len() <= cap {
                lemma_oversized_is_capacity_error(events.drop_first(), acc + chunk@, cap, deadline);
            }
        },
        ReadEvent::Tick { at: _ } => {
            lemma_oversized_is_capacity_error(events.drop_first(), acc, cap, deadline);
        },
        ReadEvent::Closed { at: _ } => {},
        ReadEvent::Failed { at: _ } => {},
    }
}

/// The shape of a peer that never concludes the response: nothing closes,
/// nothing fails, nothing overflows the buffer, and the wall clock — a
/// data chunk or a bare scheduler tick — eventually passes the deadline.
pub open spec fn spec_runs_past_deadline(
    events: Seq<ReadEvent>,
    have: nat,
    cap: nat,
    deadline: u64,
) -> bool
    decreases events.len(),
{
    if events.len() == 0 {
        false
    } else {
        match events[0] {
            ReadEvent::Data { at, chunk } => at > deadline || (have + chunk@.len() <= cap
                && spec_runs_past_deadline(events.drop_first(), have + chunk@.len(), cap, deadline)),
            ReadEvent::Tick { at } => at > deadline || spec_runs_past_deadline(
                events.drop_first(),
                have,
                cap,
                deadline,
            ),
            ReadEvent::Closed { at: _ } => false,
            ReadEvent::Failed { at: _ } => false,
        }
    }
}

/// Law (the read loop ends at the deadline): against a peer that never
/// closes the connection, the loop is abandoned with the deadline error at
/// the first observation past the deadline — at most one scheduler tick
/// beyond it — for every such trace.
pub proof fn lemma_deadline_bounds_read(
    events: Seq<ReadEvent>,
    acc: Seq<u8>,
    cap: nat,
    deadline: u64,
)
    requires
        spec_runs_past_deadline(events, acc.len(), cap, deadline),
    ensures
        spec_read_outcome(events, acc, cap, deadline) == Err::<Seq<u8>, RequestError>(
            RequestError::DeadlineExceeded,
        ),
    decreases events.len(),
{
    match events[0] {
        ReadEvent::Data { at, chunk } => {
            if at <= deadline {
                lemma_deadline_bounds_read(events.drop_first(), acc + chunk@, cap, deadline);
            }
        },
        ReadEvent::Tick { at } => {
            if at <= deadline {
                lemma_deadline_bounds_read(events.drop_first(), acc, cap, deadline);
            }
        },
        ReadEvent::Closed { at: _ } => {},
        ReadEvent::Failed { at: _ } => {},
    }
}

/// The instant at which an observation was made.
pub open spec fn spec_event_at(e: ReadEvent) -> u64 {
    match e {
        ReadEvent::Data { at, chunk: _ } => at,
        ReadEvent::Tick { at } => at,
        ReadEvent::Closed { at } => at,
        ReadEvent::Failed { at } => at,
    }
}

/// Law (at most one observation beyond the deadline): whatever follows
/// the first observation past the deadline is never consumed — the
/// outcome over the whole trace equals the outcome over the prefix that
/// ends with that observation. The loop lives past the deadline for at
/// most the one scheduler tick that reveals it.
pub proof fn lemma_read_stops_at_first_late_event(
    events: Seq<ReadEvent>,
    acc: Seq<u8>,
    cap: nat,
    deadline: u64,
    k: int,
)
    requires
        0 <= k < events.len(),
        spec_event_at(events[k]) > deadline,
        forall|j: int| 0 <= j < k ==> spec_event_at(events[j]) <= deadline,
    ensures
        spec_read_outcome(events, acc, cap, deadline) == spec_read_outcome(
            events.take(k + 1),
            acc,
            cap,
            deadline,
        ),
    decreases k,
{
    assert(events.take(k + 1)[0] == events[0]);
    if k == 0 {
    } else {
        assert(events.take(k + 1).drop_first() =~= events.drop_first().take(k));
        assert(spec_event_at(events.drop_first()[k - 1]) > deadline);
        assert(forall|j: int|
            0 <= j < k - 1 ==> spec_event_at(#[trigger] events.drop_first()[j]) <= deadline);
        match events[0] {
            ReadEvent::Data { at, chunk } => {
                if acc.len() + chunk@.len() <= cap {
                    lemma_read_stops_at_first_late_event(
                        events.drop_first(),
                        acc + chunk@,
                        cap,
                        deadline,
                        k - 1,
                    );
                }
            },
            ReadEvent::Tick { at } => {
                lemma_read_stops_at_first_late_event(events.drop_first(), acc, cap, deadline, k - 1);
            },
            ReadEvent::Closed { at: _ } => {},
            ReadEvent::Failed { at: _ } => {},
        }
    }
}

/// One decision of the bounded teardown wait that follows an abandoned
/// read: a graceful disconnect was requested, and the stack pump is given
/// until `close_by` for the close to complete before the socket is
/// aborted outright.
pub open spec fn spec_teardown_step(now: u64, close_by: u64, socket_closed: bool) -> TeardownStep {
    if socket_closed {
        TeardownStep::ClosedGracefully
    } else if now > close_by {
        TeardownStep::ForcedAbort
    } else {
        TeardownStep::KeepPumping
    }
}

/// What the teardown wait does next.
#[derive(Clone, Copy, Debug, PartialEq, Eq, Structural)]
pub enum TeardownStep {
    /// Keep pumping the stack and check again.
    KeepPumping,
    /// The socket reached closed state gracefully.
    ClosedGracefully,
    /// The window ran out: abort the socket now.
    ForcedAbort,
}

/// Decide the next move of the teardown wait from the clock and the
/// socket's state.
pub fn teardown_step(now: u64, close_by: u64, socket_closed: bool) -> (t: TeardownStep)
    ensures
        t == spec_teardown_step(now, close_by, socket_closed),
{
    if socket_closed {
        TeardownStep::ClosedGracefully
    } else if now > close_by {
        TeardownStep::ForcedAbort
    } else {
        TeardownStep::KeepPumping
    }
}

/// Law (teardown within the window): past `close_by` the teardown wait
/// never keeps pumping — the socket reaches a closed state, gracefully or
/// by abort, within the configured teardown window.
pub proof fn lemma_teardown_bounded(now: u64, close_by: u64, socket_closed: bool)
    ensures
        now > close_by ==> spec_teardown_step(now, close_by, socket_closed)
            != TeardownStep::KeepPumping,
{
}

/// The absolute deadline a read that starts `timeout_ms` before the end of
/// time still gets: the clock saturates rather than wraps.
pub fn deadline_after(now: u64, timeout_ms: u64) -> (d: u64)
    ensures
        d == if now + timeout_ms <= u64::MAX {
            (now + timeout_ms) as int
        } else {
            u64::MAX as int
        },
{
    if timeout_ms > u64::MAX - now {
        u64::MAX
    } else {
        now + timeout_ms
    }
}

} // verus!
