//! Connection retry decisions and reassembly of a close-delimited stream.
//! The caller performs the I/O; these types decide what happens next.
use vstd::prelude::*;
use crate::error::ClientError;

verus! {

/// How many times to attempt an operation, and how long to wait between attempts.
#[derive(Debug, Clone, PartialEq, Eq)]
pub struct RetryPolicy {
    pub max_attempts: u32,
    pub delay_ms: u64,
}

/// The outcome of one connect-and-handshake attempt.
#[derive(Debug, Clone, PartialEq, Eq)]
pub enum ConnectOutcome {
    Connected,
    Failed(String),
}

/// What the caller does after an attempt.
#[derive(Debug, Clone, PartialEq, Eq)]
pub enum ConnectStep {
    /// Use the established connection.
    Ready,
    /// Wait this many milliseconds, then attempt again.
    RetryAfter(u64),
    /// Stop: every attempt failed.
    GiveUp(ClientError),
}

/// The step after attempt number `made` (counting from 1) ended in `outcome`.
pub open spec fn connect_step(p: RetryPolicy, made: nat, outcome: ConnectOutcome) -> ConnectStep {
    match outcome {
        ConnectOutcome::Connected => ConnectStep::Ready,
        ConnectOutcome::Failed(cause) => if made < p.max_attempts {
            ConnectStep::RetryAfter(p.delay_ms)
        } else {
            ConnectStep::GiveUp(ClientError::NetworkError(cause))
        },
    }
}

/// When every attempt from number `made` on fails with `cause`: the number of
/// attempts made in all, and the total time waited from attempt `made` on.
pub open spec fn failing_run(p: RetryPolicy, made: nat, cause: String) -> (nat, nat)
    decreases p.max_attempts - made,
{
    match connect_step(p, made, ConnectOutcome::Failed(cause)) {
        ConnectStep::RetryAfter(d) => if made < p.max_attempts {
            let rest = failing_run(p, made + 1, cause);
            (rest.0, rest.1 + d as nat)
        } else {
            (made, 0)
        },
        _ => (made, 0),
    }
}

impl RetryPolicy {
    pub fn new(max_attempts: u32, delay_ms: u64) -> (r: RetryPolicy)
        ensures
            r.max_attempts == max_attempts,
            r.delay_ms == delay_ms,
    {
        RetryPolicy { max_attempts, delay_ms }
    }

    /// Decides what follows attempt number `made` (counting from 1): a
    /// connection is used at once; a failure is retried after the delay while
    /// attempts remain, and otherwise ends in `NetworkError` with its cause.
    pub fn after_attempt(&self, made: u32, outcome: ConnectOutcome) -> (r: ConnectStep)
        ensures
            r == connect_step(*self, made as nat, outcome),
    {
        match outcome {
            ConnectOutcome::Connected => ConnectStep::Ready,
            ConnectOutcome::Failed(cause) => {
                if made < self.max_attempts {
                    ConnectStep::RetryAfter(self.delay_ms)
                } else {
                    ConnectStep::GiveUp(ClientError::NetworkError(cause))
                }
            },
        }
    }
}

proof fn lemma_failing_run_from(p: RetryPolicy, made: nat, cause: String)
    requires
        1 <= made <= p.max_attempts,
    ensures
        failing_run(p, made, cause) == (p.max_attempts as nat, ((p.max_attempts - made) * p.delay_ms) as nat),
    decreases p.max_attempts - made,
{
    let k = p.max_attempts - made;
    let d = p.delay_ms as int;
    if made < p.max_attempts {
        lemma_failing_run_from(p, made + 1, cause);
        assert(k * d == (k - 1) * d + d) by (nonlinear_arith);
        assert((k - 1) * d >= 0) by (nonlinear_arith)
            requires
                k >= 1,
                d >= 0,
        ;
    } else {
        assert(k == 0);
        assert(k * d == 0);
    }
}

/// When every attempt fails, exactly `max_attempts` attempts are made, with
/// the delay between each two of them, and the last failure ends the run in
/// `NetworkError` carrying its cause.
pub proof fn lemma_retry_exhaustion(p: RetryPolicy, cause: String)
    requires
        p.max_attempts >= 1,
    ensures
        failing_run(p, 1, cause) == (p.max_attempts as nat, ((p.max_attempts - 1) * p.delay_ms) as nat),
        connect_step(p, p.max_attempts as nat, ConnectOutcome::Failed(cause))
            == ConnectStep::GiveUp(ClientError::NetworkError(cause)),
{
    lemma_failing_run_from(p, 1, cause);
}

/// Accumulates the bytes of a response that ends when the peer closes.
pub struct StreamReader {
    received: Vec<u8>,
}

/// What a read of a chunk means to the reader.
#[derive(Debug, Clone, PartialEq, Eq)]
pub enum ReadStep {
    /// Data arrived; holds the number of bytes received so far.
    Progress(usize),
    /// The peer closed the connection (a read of zero bytes).
    Closed,
}

/// The result of a stream once the peer has closed it.
pub open spec fn close_verdict(received: Seq<u8>) -> Result<Seq<u8>, ClientError> {
    if received.len() == 0 {
        Err(ClientError::ConnectionClosedEarly)
    } else {
        Ok(received)
    }
}

/// The chunks joined in order.
pub open spec fn joined(chunks: Seq<Seq<u8>>) -> Seq<u8>
    decreases chunks.len(),
{
    if chunks.len() == 0 {
        Seq::empty()
    } else {
        chunks[0] + joined(chunks.skip(1))
    }
}

/// The bytes held after a reader holding `received` reads `chunk`: a
/// zero-length read (the peer closed) leaves them as they are.
pub open spec fn after_read(received: Seq<u8>, chunk: Seq<u8>) -> Seq<u8> {
    if chunk.len() == 0 {
        received
    } else {
        received + chunk
    }
}

/// The bytes held after a reader holding `start` reads each chunk in turn.
pub open spec fn fed(start: Seq<u8>, chunks: Seq<Seq<u8>>) -> Seq<u8>
    decreases chunks.len(),
{
    if chunks.len() == 0 {
        start
    } else {
        fed(after_read(start, chunks[0]), chunks.skip(1))
    }
}

impl View for StreamReader {
    type V = Seq<u8>;

    closed spec fn view(&self) -> Seq<u8> {
        self.received@
    }
}

impl StreamReader {
    pub fn new() -> (r: StreamReader)
        ensures
            r@ == Seq::<u8>::empty(),
    {
        StreamReader { received: Vec::new() }
    }

    /// The number of bytes received so far.
    pub fn total(&self) -> (r: usize)
        ensures
            r == self@.len(),
    {
        self.received.len()
    }

    /// Takes the result of one read: a zero-length chunk means the peer
    /// closed; any other chunk is appended in order.
    pub fn on_read(&mut self, chunk: &[u8]) -> (r: ReadStep)
        ensures
            final(self)@ == after_read(old(self)@, chunk@),
            chunk@.len() == 0 ==> r == ReadStep::Closed,
            chunk@.len() > 0 ==> r == ReadStep::Progress(final(self)@.len() as usize),
    {
        if chunk.len() == 0 {
            return ReadStep::Closed;
        }
        let ghost before = self.received@;
        let mut i: usize = 0;
        while i < chunk.len()
            invariant
                i <= chunk@.len(),
                self.received@ == before + chunk@.subrange(0, i as int),
            decreases chunk@.len() - i,
        {
            self.received.push(chunk[i]);
            i = i + 1;
            assert(self.received@ =~= before + chunk@.subrange(0, i as int));
        }
        assert(chunk@ =~= chunk@.subrange(0, chunk@.len() as int));
        ReadStep::Progress(self.received.len())
    }

    /// The outcome once the peer has closed: the bytes received, or
    /// `ConnectionClosedEarly` when not one byte came.
    pub fn finish(self) -> (r: Result<Vec<u8>, ClientError>)
        ensures
            r matches Ok(v) ==> close_verdict(self@) == Ok::<Seq<u8>, ClientError>(v@),
            r is Err ==> r == Err::<Vec<u8>, ClientError>(ClientError::ConnectionClosedEarly)
                && close_verdict(self@) is Err,
    {
        if self.received.len() == 0 {
            Err(ClientError::ConnectionClosedEarly)
        } else {
            Ok(self.received)
        }
    }
}

proof fn lemma_fed_joined(start: Seq<u8>, chunks: Seq<Seq<u8>>)
    requires
        forall|i: int| 0 <= i < chunks.len() ==> #[trigger] chunks[i].len() >= 1,
    ensures
        fed(start, chunks) == start + joined(chunks),
    decreases chunks.len(),
{
    if chunks.len() == 0 {
        assert(start + joined(chunks) =~= start);
    } else {
        assert(chunks[0].len() >= 1);
        assert forall|i: int| 0 <= i < chunks.skip(1).len() implies #[trigger] chunks.skip(1)[i].len()
            >= 1 by {
            assert(chunks.skip(1)[i] == chunks[i + 1]);
        }
        lemma_fed_joined(start + chunks[0], chunks.skip(1));
        assert(start + chunks[0] + joined(chunks.skip(1)) =~= start + (chunks[0] + joined(
            chunks.skip(1),
        )));
    }
}

proof fn lemma_joined_nonempty(chunks: Seq<Seq<u8>>)
    requires
        chunks.len() >= 1,
        chunks[0].len() >= 1,
    ensures
        joined(chunks).len() >= 1,
{
}

/// Bytes that arrive in any number of non-empty reads before the peer closes
/// are handed back whole and in their original order.
pub proof fn lemma_chunked_stream(chunks: Seq<Seq<u8>>)
    requires
        chunks.len() >= 1,
        forall|i: int| 0 <= i < chunks.len() ==> #[trigger] chunks[i].len() >= 1,
    ensures
        fed(Seq::empty(), chunks) == joined(chunks),
        close_verdict(fed(Seq::empty(), chunks)) == Ok::<Seq<u8>, ClientError>(joined(chunks)),
{
    lemma_fed_joined(Seq::empty(), chunks);
    assert(Seq::<u8>::empty() + joined(chunks) =~= joined(chunks));
    assert(chunks[0].len() >= 1);
    lemma_joined_nonempty(chunks);
}

/// A peer that closes before sending anything gives `ConnectionClosedEarly`;
/// once a read has brought data, closing gives back those bytes.
pub proof fn lemma_early_close(received: Seq<u8>, chunk: Seq<u8>)
    ensures
        close_verdict(Seq::empty()) == Err::<Seq<u8>, ClientError>(ClientError::ConnectionClosedEarly),
        chunk.len() > 0 ==> close_verdict(after_read(received, chunk)) == Ok::<Seq<u8>, ClientError>(
            received + chunk,
        ),
{
}

} // verus!
