//! Reading a body of unknown length into a growable buffer.

use vstd::prelude::*;

verus! {

/// Why no body came out of a read.
#[derive(Clone, Copy, Debug, PartialEq, Eq, Structural)]
pub enum ReadError {
    /// The stream ended before a single byte arrived.
    Empty,
    /// The source failed, and the failure was not the end of the stream.
    Source,
}

/// What the source reported for one read into the unfilled tail of the buffer.
#[derive(Clone, Copy, Debug, PartialEq, Eq, Structural)]
pub enum ReadOutcome {
    /// That many bytes were written at the start of the tail; zero is the end of the stream.
    Bytes(usize),
    /// The source failed in a way that only says the stream is over.
    Ended,
    /// The source failed otherwise.
    Failed,
}

/// How a read of the source has failed.
#[derive(Clone, Copy, Debug, PartialEq, Eq, Structural)]
pub enum FailureKind {
    /// The other side has reset the connection.
    ConnectionReset,
    /// The connection was given up.
    ConnectionAborted,
    /// There is no connection.
    NotConnected,
    /// The other side has closed the pipe.
    BrokenPipe,
    /// Anything else.
    Other,
}

/// What the reader does after one read.
#[derive(Clone, Copy, Debug, PartialEq, Eq)]
pub enum ReadStep {
    /// Read again into the tail that starts at this many filled bytes.
    Again(usize),
    /// The body is complete, or lost.
    Done(Result<usize, ReadError>),
}

impl ReadOutcome {
    /// The number of bytes that the read added to the buffer.
    pub open spec fn gained(self) -> nat {
        match self {
            ReadOutcome::Bytes(n) => n as nat,
            _ => 0,
        }
    }

    /// Whether the read was the last one of its stream.
    pub open spec fn stops(self) -> bool {
        self.gained() == 0
    }
}

/// What a failed read counts as: the end of the stream where the failure
/// only says that the other side is gone, a failure of the source otherwise.
pub fn failed_read(kind: FailureKind) -> (outcome: ReadOutcome)
    ensures
        outcome == if kind is Other {
            ReadOutcome::Failed
        } else {
            ReadOutcome::Ended
        },
{
    match kind {
        FailureKind::Other => ReadOutcome::Failed,
        _ => ReadOutcome::Ended,
    }
}

/// `n` zero bytes.
pub open spec fn zeros(n: nat) -> Seq<u8> {
    Seq::new(n, |i: int| 0u8)
}

/// The step that follows a read, by the buffer's length and the bytes filled before the read.
pub open spec fn step_after(len: nat, filled: nat, outcome: ReadOutcome) -> ReadStep {
    match outcome {
        ReadOutcome::Failed => ReadStep::Done(Err(ReadError::Source)),
        _ => if outcome.gained() > 0 {
            ReadStep::Again((filled + outcome.gained()) as usize)
        } else if filled == 0 {
            ReadStep::Done(Err(ReadError::Empty))
        } else {
            ReadStep::Done(Ok(filled as usize))
        },
    }
}

/// The buffer that a read leaves: doubled with zeros once it is full, cut to
/// the filled bytes at the end of a stream that held any, untouched otherwise.
pub open spec fn buffer_after(buf: Seq<u8>, filled: nat, outcome: ReadOutcome) -> Seq<u8> {
    match outcome {
        ReadOutcome::Failed => buf,
        _ => if outcome.gained() > 0 {
            if filled + outcome.gained() == buf.len() {
                buf + zeros(buf.len())
            } else {
                buf
            }
        } else if filled == 0 {
            buf
        } else {
            buf.subrange(0, filled as int)
        },
    }
}

/// Counts `gained` fresh bytes as filled, and doubles the buffer with zeros if
/// that leaves it full. Gives the new count of filled bytes.
pub fn take_in(buf: &mut Vec<u8>, filled: usize, gained: usize) -> (now: usize)
    requires
        gained > 0,
        filled + gained <= old(buf).len(),
        filled + gained == old(buf).len() ==> 2 * old(buf).len() <= usize::MAX,
    ensures
        now == filled + gained,
        final(buf)@ == buffer_after(old(buf)@, filled as nat, ReadOutcome::Bytes(gained)),
        now < final(buf).len(),
{
    let now: usize = filled + gained;
    let len: usize = buf.len();
    if now == len {
        buf.resize(len * 2, 0u8);
    }
    now
}

/// Ends the read: cuts the buffer to the `filled` bytes and gives their
/// count, or reports the stream as empty and leaves the buffer alone.
pub fn finish(buf: &mut Vec<u8>, filled: usize) -> (res: Result<usize, ReadError>)
    requires
        filled <= old(buf).len(),
    ensures
        filled == 0 ==> res == Err::<usize, ReadError>(ReadError::Empty) && final(buf)@ == old(
            buf,
        )@,
        filled > 0 ==> res == Ok::<usize, ReadError>(filled) && final(buf)@ == old(buf)@.subrange(
            0,
            filled as int,
        ),
{
    if filled == 0 {
        Err(ReadError::Empty)
    } else {
        buf.truncate(filled);
        Ok(filled)
    }
}

/// Takes in what one read reported. `filled` counts the bytes of the body that
/// `buf` already holds; the read was made into `buf[filled..]`.
pub fn read_step(buf: &mut Vec<u8>, filled: usize, outcome: ReadOutcome) -> (step: ReadStep)
    requires
        filled <= old(buf).len(),
        outcome.gained() <= old(buf).len() - filled,
        outcome.gained() > 0 && filled + outcome.gained() == old(buf).len() ==> 2 * old(buf).len()
            <= usize::MAX,
    ensures
        step == step_after(old(buf).len() as nat, filled as nat, outcome),
        final(buf)@ == buffer_after(old(buf)@, filled as nat, outcome),
{
    match outcome {
        ReadOutcome::Failed => ReadStep::Done(Err(ReadError::Source)),
        ReadOutcome::Bytes(n) if n > 0 => ReadStep::Again(take_in(buf, filled, n)),
        _ => ReadStep::Done(finish(buf, filled)),
    }
}

/// What a source gives to one read, for a reader that is run over reads
/// that were written down.
#[derive(Clone, Debug, PartialEq, Eq)]
pub enum Incoming {
    /// These bytes; none at all is the end of the stream.
    Bytes(Vec<u8>),
    /// A failure that only says the stream is over.
    Ended,
    /// Any other failure.
    Failed,
}

impl Incoming {
    /// The bytes that the read has to give.
    pub open spec fn bytes(self) -> Seq<u8> {
        match self {
            Incoming::Bytes(bytes) => bytes@,
            _ => Seq::empty(),
        }
    }
}

/// The bytes that a stream delivers when its reads come back as `reads`:
/// those of the reads before the first that gives none, which ends the stream.
pub open spec fn stream_data(reads: Seq<Incoming>) -> Seq<u8>
    decreases reads.len(),
{
    if reads.len() == 0 || reads[0].bytes().len() == 0 {
        Seq::empty()
    } else {
        reads[0].bytes() + stream_data(reads.drop_first())
    }
}

/// Whether the first read of `reads` that gives no bytes is a failure other
/// than the end of the stream.
pub open spec fn stream_failed(reads: Seq<Incoming>) -> bool
    decreases reads.len(),
{
    if reads.len() == 0 {
        false
    } else if reads[0].bytes().len() == 0 {
        reads[0] is Failed
    } else {
        stream_failed(reads.drop_first())
    }
}

/// How far the bytes filled reach beyond a buffer of `len` bytes, and one more; nothing if they do not.
pub open spec fn room_to_grow(len: nat, filled: nat) -> nat {
    if filled >= len {
        (filled - len + 1) as nat
    } else {
        0
    }
}

/// The length to which a buffer of `len` bytes has grown once it holds
/// `filled` bytes: doubled as often as it was full.
pub open spec fn grown_len(len: nat, filled: nat) -> nat
    decreases room_to_grow(len, filled),
{
    if len == 0 || filled < len {
        len
    } else {
        grown_len(2 * len, filled)
    }
}

/// The buffer `buf` after `data` has been read into it from its first byte
/// on and the read has not been ended: grown with zeros as far as `data`
/// made it, and behind `data` as it was.
pub open spec fn filled_buffer(buf: Seq<u8>, data: Seq<u8>) -> Seq<u8> {
    let len = grown_len(buf.len(), data.len());
    data + (buf + zeros((len - buf.len()) as nat)).subrange(data.len() as int, len as int)
}

/// What reading a stream into `buf` comes to, and the buffer it leaves. A
/// buffer without room never receives a byte: its first read decides. A read
/// that fails ends the stream as a failure, with the bytes read so far left
/// in the grown buffer. A stream that ends holds its bytes, which are then
/// all that the buffer holds, or holds none.
pub open spec fn response(reads: Seq<Incoming>, buf: Seq<u8>) -> (Result<nat, ReadError>, Seq<u8>) {
    if buf.len() == 0 {
        if reads.len() > 0 && reads[0] is Failed {
            (Err(ReadError::Source), buf)
        } else {
            (Err(ReadError::Empty), buf)
        }
    } else if stream_failed(reads) {
        (Err(ReadError::Source), filled_buffer(buf, stream_data(reads)))
    } else if stream_data(reads).len() == 0 {
        (Err(ReadError::Empty), buf)
    } else {
        (Ok(stream_data(reads).len()), stream_data(reads))
    }
}

/// A buffer that takes in more bytes, but no more than it has room for,
/// keeps its length until it is full, and is then twice as long.
pub proof fn lemma_grown_len_step(len: nat, filled: nat, more: nat)
    requires
        len > 0,
        filled + more <= grown_len(len, filled),
    ensures
        filled < grown_len(len, filled),
        filled + more < grown_len(len, filled) ==> grown_len(len, filled + more) == grown_len(
            len,
            filled,
        ),
        filled + more == grown_len(len, filled) ==> grown_len(len, filled + more) == 2 * grown_len(
            len,
            filled,
        ),
    decreases room_to_grow(len, filled),
{
    if filled >= len {
        lemma_grown_len_step(2 * len, filled, more);
    } else if filled + more == len {
        assert(grown_len(2 * len, len) == 2 * len);
    }
}

/// Copies `n` bytes of `chunk`, from `from` on, over those of `buf` from `at` on.
fn copy_into(buf: &mut Vec<u8>, at: usize, chunk: &Vec<u8>, from: usize, n: usize)
    requires
        at + n <= old(buf).len(),
        from + n <= chunk.len(),
    ensures
        final(buf)@ == old(buf)@.subrange(0, at as int) + chunk@.subrange(
            from as int,
            from + n,
        ) + old(buf)@.subrange(at + n, old(buf).len() as int),
{
    let mut k: usize = 0;
    while k < n
        invariant
            k <= n,
            at + n <= buf.len(),
            from + n <= chunk.len(),
            buf.len() == old(buf).len(),
            buf@ == old(buf)@.subrange(0, at as int) + chunk@.subrange(from as int, from + k)
                + old(buf)@.subrange(at + k, old(buf).len() as int),
        decreases n - k,
    {
        buf.set(at + k, chunk[from + k]);
        k += 1;
    }
}

/// Reads a body whose reads come back as `reads` into `buf`, which is
/// offered to the source from its first byte. Bytes that are more than the
/// unfilled tail takes come in as much at a time as the tail takes. A read
/// that gives no bytes, or the end of `reads`, ends the stream; a read that
/// failed otherwise ends it as a failure.
pub fn read_response(reads: &Vec<Incoming>, buf: &mut Vec<u8>) -> (res: Result<usize, ReadError>)
    requires
        2 * stream_data(reads@).len() <= usize::MAX,
    ensures
        final(buf)@ == response(reads@, old(buf)@).1,
        match res {
            Ok(n) => response(reads@, old(buf)@).0 == Ok::<nat, ReadError>(n as nat),
            Err(e) => response(reads@, old(buf)@).0 == Err::<nat, ReadError>(e),
        },
{
    if buf.len() == 0 {
        if reads.len() > 0 {
            if let Incoming::Failed = reads[0] {
                return Err(ReadError::Source);
            }
        }
        return Err(ReadError::Empty);
    }
    let ghost all = reads@;
    let ghost start = buf@;
    let mut filled: usize = 0;
    let mut i: usize = 0;
    assert(all.skip(0) =~= all);
    while i < reads.len()
        invariant_except_break
            i <= reads.len(),
            stream_data(all) == buf@.subrange(0, filled as int) + stream_data(all.skip(i as int)),
            stream_failed(all) == stream_failed(all.skip(i as int)),
        invariant
            all == reads@,
            start == old(buf)@,
            start.len() > 0,
            filled < buf.len(),
            buf.len() == grown_len(start.len(), filled as nat),
            forall|j: int|
                filled <= j < buf.len() ==> buf@[j] == if j < start.len() {
                    start[j]
                } else {
                    0u8
                },
            2 * stream_data(all).len() <= usize::MAX,
            filled == 0 ==> buf@ == start,
        ensures
            stream_data(all) == buf@.subrange(0, filled as int),
            !stream_failed(all),
        decreases reads.len() - i,
    {
        let ghost rest_of_stream = all.skip(i as int);
        assert(rest_of_stream.drop_first() =~= all.skip(i + 1));
        match &reads[i] {
            Incoming::Failed => {
                return Err(ReadError::Source);
            },
            Incoming::Ended => {
                break ;
            },
            Incoming::Bytes(chunk) => {
                if chunk.len() == 0 {
                    break ;
                }
                let ghost before = buf@.subrange(0, filled as int);
                let mut pos: usize = 0;
                while pos < chunk.len()
                    invariant
                        pos <= chunk.len(),
                        start.len() > 0,
                        filled < buf.len(),
                        buf.len() == grown_len(start.len(), filled as nat),
                        forall|j: int|
                            filled <= j < buf.len() ==> buf@[j] == if j < start.len() {
                                start[j]
                            } else {
                                0u8
                            },
                        buf@.subrange(0, filled as int) == before + chunk@.subrange(0, pos as int),
                        stream_data(all) == before + chunk@ + stream_data(all.skip(i + 1)),
                        2 * stream_data(all).len() <= usize::MAX,
                        pos > 0 ==> filled > 0,
                        filled == 0 ==> buf@ == start,
                    decreases chunk.len() - pos,
                {
                    let window: usize = buf.len() - filled;
                    let rest: usize = chunk.len() - pos;
                    let part: usize = if rest < window {
                        rest
                    } else {
                        window
                    };
                    proof {
                        lemma_grown_len_step(start.len(), filled as nat, part as nat);
                    }
                    copy_into(buf, filled, chunk, pos, part);
                    filled = take_in(buf, filled, part);
                    pos += part;
                }
            },
        }
        i += 1;
    }
    finish(buf, filled)
}

/// A read leaves the buffer no longer than it was, or than twice the bytes it holds.
pub proof fn lemma_growth_is_bounded(buf: Seq<u8>, filled: nat, outcome: ReadOutcome)
    requires
        filled + outcome.gained() <= buf.len(),
    ensures
        buffer_after(buf, filled, outcome).len() <= buf.len() || buffer_after(
            buf,
            filled,
            outcome,
        ).len() == 2 * (filled + outcome.gained()),
        filled + outcome.gained() <= buffer_after(buf, filled, outcome).len(),
{
}

/// The number of bytes that `reads` have to give together.
pub open spec fn total_len(reads: Seq<Incoming>) -> nat
    decreases reads.len(),
{
    if reads.len() == 0 {
        0
    } else {
        reads[0].bytes().len() + total_len(reads.drop_first())
    }
}

/// Reads that each give some bytes, and then a read that gives none, make a
/// stream of as many bytes as the reads gave together, whatever is read
/// after the read of none; and the stream has failed if that read has.
pub proof fn lemma_stream_ends_at_empty_read(
    reads: Seq<Incoming>,
    last: Incoming,
    rest: Seq<Incoming>,
)
    requires
        forall|i: int| 0 <= i < reads.len() ==> reads[i].bytes().len() > 0,
        last.bytes().len() == 0,
    ensures
        stream_data(reads + seq![last] + rest) == stream_data(reads),
        stream_data(reads).len() == total_len(reads),
        stream_failed(reads + seq![last] + rest) == (last is Failed),
        !stream_failed(reads),
    decreases reads.len(),
{
    if reads.len() > 0 {
        let whole = reads + seq![last] + rest;
        let later = reads.drop_first();
        lemma_stream_ends_at_empty_read(later, last, rest);
        assert(whole.drop_first() =~= later + seq![last] + rest);
    }
}

/// Reads of some bytes each, `n` bytes together, that end in a read of no
/// bytes leave a buffer that had room with those `n` bytes as all that it
/// holds, and give `n` as their count; without any bytes they give an empty
/// stream. If the last read has failed instead, the read has failed.
pub proof fn lemma_reads_give_their_sum(
    reads: Seq<Incoming>,
    last: Incoming,
    rest: Seq<Incoming>,
    buf: Seq<u8>,
)
    requires
        buf.len() > 0,
        forall|i: int| 0 <= i < reads.len() ==> reads[i].bytes().len() > 0,
        last.bytes().len() == 0,
    ensures
        ({
            let (result, left) = response(reads + seq![last] + rest, buf);
            &&& last is Failed ==> result == Err::<nat, ReadError>(ReadError::Source)
            &&& !(last is Failed) && total_len(reads) == 0 ==> result == Err::<nat, ReadError>(
                ReadError::Empty,
            ) && left == buf
            &&& !(last is Failed) && total_len(reads) > 0 ==> result == Ok::<nat, ReadError>(
                total_len(reads),
            ) && left.len() == total_len(reads) && left == stream_data(reads)
        }),
{
    lemma_stream_ends_at_empty_read(reads, last, rest);
}

/// Where and how often a stream is cut into reads does not matter, nor what
/// the buffer held or how long it was: two streams of the same bytes that
/// both end leave the same buffer and give the same count.
pub proof fn lemma_chunking_does_not_matter(
    one: Seq<Incoming>,
    other: Seq<Incoming>,
    buf_of_one: Seq<u8>,
    buf_of_other: Seq<u8>,
)
    requires
        stream_data(one) == stream_data(other),
        stream_data(one).len() > 0,
        !stream_failed(one),
        !stream_failed(other),
        buf_of_one.len() > 0,
        buf_of_other.len() > 0,
    ensures
        response(one, buf_of_one) == response(other, buf_of_other),
        response(one, buf_of_one) == (
            Ok::<nat, ReadError>(stream_data(one).len()),
            stream_data(one),
        ),
{
}

/// The bytes that the reads of `outcomes` gave together.
pub open spec fn gains(outcomes: Seq<ReadOutcome>) -> nat
    decreases outcomes.len(),
{
    if outcomes.len() == 0 {
        0
    } else {
        outcomes[0].gained() + gains(outcomes.drop_first())
    }
}

/// Whether each read of `outcomes` gave no more than the tail it was offered,
/// when the first of them is made into `buf` with `filled` bytes before it.
pub open spec fn fit(buf: Seq<u8>, filled: nat, outcomes: Seq<ReadOutcome>) -> bool
    decreases outcomes.len(),
{
    outcomes.len() == 0 || {
        &&& filled + outcomes[0].gained() <= buf.len()
        &&& fit(
            buffer_after(buf, filled, outcomes[0]),
            filled + outcomes[0].gained(),
            outcomes.drop_first(),
        )
    }
}

/// The buffer and the step that `read_step` leaves when it is given
/// `outcomes` one after the other, each with the count of the step before,
/// until one of them ends the read.
pub open spec fn replay(buf: Seq<u8>, filled: nat, outcomes: Seq<ReadOutcome>) -> (
    Seq<u8>,
    ReadStep,
)
    decreases outcomes.len(),
{
    if outcomes.len() == 0 {
        (buf, ReadStep::Again(filled as usize))
    } else {
        let step = step_after(buf.len(), filled, outcomes[0]);
        let after = buffer_after(buf, filled, outcomes[0]);
        match step {
            ReadStep::Again(_) => replay(
                after,
                filled + outcomes[0].gained(),
                outcomes.drop_first(),
            ),
            ReadStep::Done(_) => (after, step),
        }
    }
}

/// Reads that each give some bytes, followed by one that ends the stream,
/// leave the reader with the count of all the bytes given and with a buffer
/// of exactly that length; if no byte was ever given, they leave it with an
/// empty stream and the buffer as it was.
pub proof fn lemma_reads_add_up(
    buf: Seq<u8>,
    filled: nat,
    reads: Seq<ReadOutcome>,
    last: ReadOutcome,
)
    requires
        filled <= buf.len(),
        forall|i: int| 0 <= i < reads.len() ==> reads[i].gained() > 0,
        last.stops(),
        last != ReadOutcome::Failed,
        fit(buf, filled, reads),
        filled + gains(reads) <= usize::MAX,
    ensures
        ({
            let total = filled + gains(reads);
            let (end, step) = replay(buf, filled, reads.push(last));
            &&& total == 0 ==> step == ReadStep::Done(Err(ReadError::Empty)) && end == buf
            &&& total > 0 ==> step == ReadStep::Done(Ok(total as usize)) && end.len() == total
        }),
    decreases reads.len(),
{
    if reads.len() > 0 {
        let first = reads[0];
        let later = reads.drop_first();
        assert(reads.push(last).drop_first() =~= later.push(last));
        lemma_reads_add_up(
            buffer_after(buf, filled, first),
            filled + first.gained(),
            later,
            last,
        );
    }
}

impl ReadError {
    /// What the failure says of itself.
    pub open spec fn message_text(self) -> Seq<char> {
        match self {
            ReadError::Empty => "The stream held no bytes"@,
            ReadError::Source => "The source failed"@,
        }
    }

    /// What the failure says of itself.
    pub fn message(&self) -> (message: &'static str)
        ensures
            message@ == self.message_text(),
    {
        match self {
            ReadError::Empty => "The stream held no bytes",
            ReadError::Source => "The source failed",
        }
    }
}

} // verus!
