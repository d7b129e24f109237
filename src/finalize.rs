use vstd::prelude::*;

verus! {

/// What the byte stream, or the reader as a whole, answered to one
/// fill-buffer call: not ready yet, a count of bytes (zero at the end of the
/// stream), or an error.
#[derive(Debug, PartialEq, Eq)]
pub enum ReadPoll<E> {
    Pending,
    Ready(Result<usize, E>),
}

/// What the closing handshake answered when it was polled.
#[derive(Debug, PartialEq, Eq)]
pub enum FinalizePoll<E> {
    Pending,
    Ready(Result<(), E>),
}

/// What the driver does after the byte stream answered.
#[derive(Debug, PartialEq, Eq)]
pub enum ReadStep<E> {
    /// Hand this answer to the caller.
    Reply(ReadPoll<E>),
    /// The handshake was started: poll it now, within the same call.
    PollFinalize,
}

/// Where a reader stands in its life.
#[derive(Clone, Copy, Debug, PartialEq, Eq, Structural)]
pub enum Phase {
    /// Data flows from the byte stream; the connection is held.
    Reading,
    /// The closing handshake runs; it owns the connection.
    Finalizing,
    /// The handshake has completed; nothing is held.
    Done,
}

/// The reader's state. The connection is held in `Reading` until the stream
/// ends, then moved into the handshake, in one step.
pub enum State<C, F> {
    Reading(Option<C>),
    Finalize(F),
    Done,
}

/// True when an answer of the byte stream ends it: an error, or zero bytes.
pub open spec fn ends_stream<E>(data: ReadPoll<E>) -> bool {
    match data {
        ReadPoll::Ready(Ok(n)) => n == 0,
        ReadPoll::Ready(Err(_)) => true,
        ReadPoll::Pending => false,
    }
}

/// A poll of the handshake: the phase after it and the caller's answer.
pub open spec fn finalize_spec<E>(fin: FinalizePoll<E>) -> (Phase, ReadPoll<E>) {
    match fin {
        FinalizePoll::Pending => (Phase::Finalizing, ReadPoll::Pending),
        FinalizePoll::Ready(Ok(())) => (Phase::Done, ReadPoll::Ready(Ok(0))),
        FinalizePoll::Ready(Err(e)) => (Phase::Done, ReadPoll::Ready(Err(e))),
    }
}

/// One fill-buffer call of the caller, in `phase`, where the byte stream
/// would answer `data` and the handshake `fin`: the phase after the call and
/// the caller's answer. The byte stream is asked only while reading; the
/// handshake only once it runs.
pub open spec fn poll_spec<E>(phase: Phase, data: ReadPoll<E>, fin: FinalizePoll<E>) -> (
    Phase,
    ReadPoll<E>,
) {
    match phase {
        Phase::Reading => if ends_stream(data) {
            finalize_spec(fin)
        } else {
            (Phase::Reading, data)
        },
        Phase::Finalizing => finalize_spec(fin),
        Phase::Done => (Phase::Done, ReadPoll::Ready(Ok(0))),
    }
}

/// Successive fill-buffer calls from `phase`, the i-th of them seeing
/// `polls[i]` from the byte stream and the handshake: the phase at the end
/// and the caller's answers, in order.
pub open spec fn run_spec<E>(phase: Phase, polls: Seq<(ReadPoll<E>, FinalizePoll<E>)>) -> (
    Phase,
    Seq<ReadPoll<E>>,
)
    decreases polls.len(),
{
    if polls.len() == 0 {
        (phase, Seq::empty())
    } else {
        let (next, answer) = poll_spec(phase, polls[0].0, polls[0].1);
        let (end, answers) = run_spec(next, polls.drop_first());
        (end, seq![answer] + answers)
    }
}

/// Calls on a stream that yields the non-empty `chunks` and then ends, with a
/// handshake that stays pending for `waits` polls and then completes with
/// `outcome`.
pub open spec fn handshake_script<E>(chunks: Seq<usize>, waits: nat, outcome: Result<(), E>) -> Seq<
    (ReadPoll<E>, FinalizePoll<E>),
> {
    chunks.map_values(|n: usize| (ReadPoll::Ready(Ok(n)), FinalizePoll::Pending)) + closing_script(
        waits,
        outcome,
    )
}

/// The calls from the end of the stream on: the first sees the stream end,
/// the handshake answers the last one.
pub open spec fn closing_script<E>(waits: nat, outcome: Result<(), E>) -> Seq<
    (ReadPoll<E>, FinalizePoll<E>),
> {
    if waits == 0 {
        seq![(ReadPoll::Ready(Ok(0)), FinalizePoll::Ready(outcome))]
    } else {
        seq![(ReadPoll::Ready(Ok(0)), FinalizePoll::Pending)] + waiting_script(
            (waits - 1) as nat,
            outcome,
        )
    }
}

/// Calls while the handshake runs: `k` polls pending, then its `outcome`.
pub open spec fn waiting_script<E>(k: nat, outcome: Result<(), E>) -> Seq<
    (ReadPoll<E>, FinalizePoll<E>),
> {
    Seq::new(k, |i: int| (ReadPoll::Pending, FinalizePoll::Pending)) + seq![
        (ReadPoll::Pending, FinalizePoll::Ready(outcome))
    ]
}

/// What the caller hears at the end of the handshake.
pub open spec fn closing_answer<E>(outcome: Result<(), E>) -> ReadPoll<E> {
    match outcome {
        Ok(()) => ReadPoll::Ready(Ok(0)),
        Err(e) => ReadPoll::Ready(Err(e)),
    }
}

proof fn lemma_run_append<E>(
    phase: Phase,
    a: Seq<(ReadPoll<E>, FinalizePoll<E>)>,
    b: Seq<(ReadPoll<E>, FinalizePoll<E>)>,
)
    ensures
        run_spec(phase, a + b) == (
            run_spec(run_spec(phase, a).0, b).0,
            run_spec(phase, a).1 + run_spec(run_spec(phase, a).0, b).1,
        ),
    decreases a.len(),
{
    if a.len() == 0 {
        assert(a + b =~= b);
        assert(run_spec(phase, a).1 + run_spec(phase, b).1 =~= run_spec(phase, b).1);
    } else {
        let next = poll_spec(phase, a[0].0, a[0].1).0;
        assert((a + b).drop_first() =~= a.drop_first() + b);
        lemma_run_append(next, a.drop_first(), b);
        let answer = poll_spec(phase, a[0].0, a[0].1).1;
        assert(seq![answer] + (run_spec(next, a.drop_first()).1 + run_spec(
            run_spec(next, a.drop_first()).0,
            b,
        ).1) =~= (seq![answer] + run_spec(next, a.drop_first()).1) + run_spec(
            run_spec(next, a.drop_first()).0,
            b,
        ).1);
    }
}

proof fn lemma_run_chunks<E>(chunks: Seq<usize>)
    requires
        forall|i: int| 0 <= i < chunks.len() ==> chunks[i] > 0,
    ensures
        run_spec(
            Phase::Reading,
            chunks.map_values(|n: usize| (ReadPoll::<E>::Ready(Ok(n)), FinalizePoll::<E>::Pending)),
        ) == (Phase::Reading, chunks.map_values(|n: usize| ReadPoll::<E>::Ready(Ok(n)))),
    decreases chunks.len(),
{
    let polls = chunks.map_values(
        |n: usize| (ReadPoll::<E>::Ready(Ok(n)), FinalizePoll::<E>::Pending),
    );
    if chunks.len() > 0 {
        let rest = chunks.drop_first();
        lemma_run_chunks::<E>(rest);
        assert(polls.drop_first() =~= rest.map_values(
            |n: usize| (ReadPoll::<E>::Ready(Ok(n)), FinalizePoll::<E>::Pending),
        ));
        assert(chunks.map_values(|n: usize| ReadPoll::<E>::Ready(Ok(n))) =~= seq![
            ReadPoll::<E>::Ready(Ok(chunks[0]))
        ] + rest.map_values(|n: usize| ReadPoll::<E>::Ready(Ok(n))));
    } else {
        assert(chunks.map_values(|n: usize| ReadPoll::<E>::Ready(Ok(n))) =~= Seq::empty());
    }
}

proof fn lemma_run_waiting<E>(k: nat, outcome: Result<(), E>)
    ensures
        run_spec(Phase::Finalizing, waiting_script(k, outcome)) == (
            Phase::Done,
            Seq::new(k, |i: int| ReadPoll::<E>::Pending) + seq![closing_answer(outcome)],
        ),
    decreases k,
{
    let polls = waiting_script::<E>(k, outcome);
    if k == 0 {
        assert(polls[0] == (ReadPoll::<E>::Pending, FinalizePoll::Ready(outcome)));
        assert(polls.drop_first() =~= Seq::empty());
        assert(poll_spec(Phase::Finalizing, polls[0].0, polls[0].1) == (Phase::Done, closing_answer(outcome)));
        assert(run_spec(Phase::Done, polls.drop_first()) == (Phase::Done, Seq::<ReadPoll<E>>::empty()));
        assert(run_spec(Phase::Finalizing, polls).0 == Phase::Done);
        assert(run_spec(Phase::Finalizing, polls).1 == seq![closing_answer(outcome)] + Seq::<ReadPoll<E>>::empty());
        assert(Seq::new(k, |i: int| ReadPoll::<E>::Pending) + seq![closing_answer(outcome)]
            =~= seq![closing_answer(outcome)] + Seq::empty());
    } else {
        lemma_run_waiting::<E>((k - 1) as nat, outcome);
        assert(polls[0] == (ReadPoll::<E>::Pending, FinalizePoll::<E>::Pending));
        assert(polls.drop_first() =~= waiting_script::<E>((k - 1) as nat, outcome));
        assert(Seq::new(k, |i: int| ReadPoll::<E>::Pending) + seq![closing_answer(outcome)]
            =~= seq![ReadPoll::<E>::Pending] + (Seq::new(
            (k - 1) as nat,
            |i: int| ReadPoll::<E>::Pending,
        ) + seq![closing_answer(outcome)]));
    }
}

proof fn lemma_run_closing<E>(waits: nat, outcome: Result<(), E>)
    ensures
        run_spec(Phase::Reading, closing_script(waits, outcome)) == (
            Phase::Done,
            Seq::new(waits, |i: int| ReadPoll::<E>::Pending) + seq![closing_answer(outcome)],
        ),
{
    let polls = closing_script::<E>(waits, outcome);
    if waits == 0 {
        assert(polls[0] == (ReadPoll::<E>::Ready(Ok(0)), FinalizePoll::Ready(outcome)));
        assert(polls.drop_first() =~= Seq::empty());
        assert(run_spec(Phase::Done, polls.drop_first()) == (Phase::Done, Seq::<ReadPoll<E>>::empty()));
        assert(run_spec(Phase::Reading, polls).1 == seq![closing_answer(outcome)] + Seq::<ReadPoll<E>>::empty());
        assert(Seq::new(waits, |i: int| ReadPoll::<E>::Pending) + seq![closing_answer(outcome)]
            =~= seq![closing_answer(outcome)] + Seq::empty());
    } else {
        lemma_run_waiting::<E>((waits - 1) as nat, outcome);
        assert(polls[0] == (ReadPoll::<E>::Ready(Ok(0)), FinalizePoll::<E>::Pending));
        assert(polls.drop_first() =~= waiting_script::<E>((waits - 1) as nat, outcome));
        assert(poll_spec(Phase::Reading, polls[0].0, polls[0].1) == (Phase::Finalizing, ReadPoll::<E>::Pending));
        assert(Seq::new(waits, |i: int| ReadPoll::<E>::Pending) + seq![closing_answer(outcome)]
            =~= seq![ReadPoll::<E>::Pending] + (Seq::new(
            (waits - 1) as nat,
            |i: int| ReadPoll::<E>::Pending,
        ) + seq![closing_answer(outcome)]));
    }
}

/// A stream of non-empty chunks that then ends: the caller hears each chunk
/// once, in order, then nothing but "not ready" while the handshake is
/// pending, and then exactly one closing answer, which is the end of the
/// stream if the handshake succeeded and its error if it failed. No answer
/// of zero bytes comes before the handshake has completed, and the reader is
/// done after it.
pub proof fn lemma_end_reported_after_handshake<E>(
    chunks: Seq<usize>,
    waits: nat,
    outcome: Result<(), E>,
)
    requires
        forall|i: int| 0 <= i < chunks.len() ==> chunks[i] > 0,
    ensures
        run_spec(Phase::Reading, handshake_script(chunks, waits, outcome)) == (
            Phase::Done,
            chunks.map_values(|n: usize| ReadPoll::<E>::Ready(Ok(n))) + Seq::new(
                waits,
                |i: int| ReadPoll::<E>::Pending,
            ) + seq![closing_answer(outcome)],
        ),
{
    let head = chunks.map_values(
        |n: usize| (ReadPoll::<E>::Ready(Ok(n)), FinalizePoll::<E>::Pending),
    );
    lemma_run_chunks::<E>(chunks);
    lemma_run_closing::<E>(waits, outcome);
    lemma_run_append(Phase::Reading, head, closing_script(waits, outcome));
    assert(chunks.map_values(|n: usize| ReadPoll::<E>::Ready(Ok(n))) + (Seq::new(
        waits,
        |i: int| ReadPoll::<E>::Pending,
    ) + seq![closing_answer(outcome)]) =~= chunks.map_values(
        |n: usize| ReadPoll::<E>::Ready(Ok(n)),
    ) + Seq::new(waits, |i: int| ReadPoll::<E>::Pending) + seq![closing_answer(outcome)]);
}

/// A handshake that fails turns the call that ends the stream into an error
/// for the caller, never into a successful read of zero bytes.
pub proof fn lemma_failed_handshake_is_an_error<E>(phase: Phase, data: ReadPoll<E>, e: E)
    requires
        phase == Phase::Finalizing || (phase == Phase::Reading && ends_stream(data)),
    ensures
        poll_spec(phase, data, FinalizePoll::Ready(Err(e))) == (Phase::Done, ReadPoll::<E>::Ready(
            Err(e),
        )),
{
}

/// The end of the stream moves the reader out of `Reading` in the same call,
/// so a second end of the stream can never find it reading and take the
/// connection again.
pub proof fn lemma_connection_taken_once<E>(
    data: ReadPoll<E>,
    fin: FinalizePoll<E>,
    later: Seq<(ReadPoll<E>, FinalizePoll<E>)>,
)
    requires
        ends_stream(data),
    ensures
        poll_spec(Phase::Reading, data, fin).0 != Phase::Reading,
        run_spec(poll_spec(Phase::Reading, data, fin).0, later).0 != Phase::Reading,
{
    lemma_never_back_to_reading(poll_spec(Phase::Reading, data, fin).0, later);
}

proof fn lemma_never_back_to_reading<E>(phase: Phase, polls: Seq<(ReadPoll<E>, FinalizePoll<E>)>)
    requires
        phase != Phase::Reading,
    ensures
        run_spec(phase, polls).0 != Phase::Reading,
    decreases polls.len(),
{
    if polls.len() > 0 {
        lemma_never_back_to_reading(poll_spec(phase, polls[0].0, polls[0].1).0, polls.drop_first());
    }
}

/// A reader over a byte stream that came with a pooled, stateful connection.
/// At the end of the stream, or on an error, it runs the connection's closing
/// handshake before it reports the end, so that the connection goes back to
/// its pool fit for reuse.
pub struct FtpReader<R, C, F> {
    reader: R,
    state: State<C, F>,
}

impl<R, C, F> FtpReader<R, C, F> {
    /// A reader of `r` that holds the connection `c`.
    pub fn new(r: R, c: C) -> (s: Self)
        ensures
            s.wf(),
            s.phase() == Phase::Reading,
            s.reader() == r,
            s.connection() == c,
    {
        FtpReader { reader: r, state: State::Reading(Some(c)) }
    }

    /// While reading, the connection is present.
    pub closed spec fn wf(&self) -> bool {
        !(self.state matches State::Reading(None))
    }

    /// The phase of the reader.
    pub closed spec fn phase(&self) -> Phase {
        match self.state {
            State::Reading(_) => Phase::Reading,
            State::Finalize(_) => Phase::Finalizing,
            State::Done => Phase::Done,
        }
    }

    /// The byte stream.
    pub closed spec fn reader(&self) -> R {
        self.reader
    }

    /// The connection held while reading.
    pub closed spec fn connection(&self) -> C
        recommends
            self.phase() == Phase::Reading,
            self.wf(),
    {
        self.state->Reading_0->0
    }

    /// The handshake in flight.
    pub closed spec fn handshake(&self) -> F
        recommends
            self.phase() == Phase::Finalizing,
    {
        self.state->Finalize_0
    }

    /// The phase of the reader: which of the two the driver polls next.
    pub fn current_phase(&self) -> (r: Phase)
        ensures
            r == self.phase(),
    {
        match &self.state {
            State::Reading(_) => Phase::Reading,
            State::Finalize(_) => Phase::Finalizing,
            State::Done => Phase::Done,
        }
    }

    /// The byte stream, to poll it.
    pub fn reader_mut(&mut self) -> (r: &mut R)
        ensures
            *r == old(self).reader(),
            final(self).reader() == *final(r),
            final(self).phase() == old(self).phase(),
            final(self).wf() == old(self).wf(),
    {
        &mut self.reader
    }

    /// The handshake in flight, to poll it.
    pub fn handshake_mut(&mut self) -> (r: &mut F)
        requires
            old(self).phase() == Phase::Finalizing,
        ensures
            *r == old(self).handshake(),
            final(self).handshake() == *final(r),
            final(self).reader() == old(self).reader(),
            final(self).phase() == Phase::Finalizing,
            final(self).wf(),
    {
        match &mut self.state {
            State::Finalize(f) => f,
            _ => vstd::pervasive::unreached(),
        }
    }

    /// Takes the byte stream's answer while reading. A genuine answer goes to
    /// the caller as it is. An end of the stream, or an error, moves the
    /// connection into the handshake that `make` builds from it, and the
    /// handshake must then be polled before the caller hears anything.
    pub fn on_read<E, M: FnOnce(C) -> F>(&mut self, data: ReadPoll<E>, make: M) -> (r: ReadStep<E>)
        requires
            old(self).wf(),
            old(self).phase() == Phase::Reading,
            forall|c: C| make.requires((c,)),
        ensures
            final(self).wf(),
            final(self).reader() == old(self).reader(),
            ends_stream(data) ==> {
                &&& r == ReadStep::<E>::PollFinalize
                &&& final(self).phase() == Phase::Finalizing
                &&& make.ensures((old(self).connection(),), final(self).handshake())
            },
            !ends_stream(data) ==> {
                &&& r == ReadStep::Reply(data)
                &&& final(self).phase() == Phase::Reading
                &&& final(self).connection() == old(self).connection()
            },
    {
        let ends = match &data {
            ReadPoll::Ready(Ok(n)) => *n == 0,
            ReadPoll::Ready(Err(_)) => true,
            ReadPoll::Pending => false,
        };
        if !ends {
            return ReadStep::Reply(data);
        }
        let mut state = State::Done;
        std::mem::swap(&mut self.state, &mut state);
        let c = match state {
            State::Reading(Some(c)) => c,
            _ => vstd::pervasive::unreached(),
        };
        self.state = State::Finalize(make(c));
        ReadStep::PollFinalize
    }

    /// Takes the handshake's answer while it runs. Only once it has succeeded
    /// does the caller hear of the end of the stream; a failed handshake is
    /// the caller's error.
    pub fn on_finalize<E>(&mut self, fin: FinalizePoll<E>) -> (r: ReadPoll<E>)
        requires
            old(self).wf(),
            old(self).phase() == Phase::Finalizing,
        ensures
            final(self).wf(),
            final(self).reader() == old(self).reader(),
            (final(self).phase(), r) == finalize_spec(fin),
            fin is Pending ==> final(self).handshake() == old(self).handshake(),
    {
        match fin {
            FinalizePoll::Pending => ReadPoll::Pending,
            FinalizePoll::Ready(res) => {
                self.state = State::Done;
                match res {
                    Ok(()) => ReadPoll::Ready(Ok(0)),
                    Err(e) => ReadPoll::Ready(Err(e)),
                }
            },
        }
    }

    /// The answer to every call once the handshake has completed: the end of
    /// the stream.
    pub fn finished_poll<E>(&self) -> (r: ReadPoll<E>)
        requires
            self.phase() == Phase::Done,
        ensures
            r == ReadPoll::<E>::Ready(Ok(0)),
            (self.phase(), r) == poll_spec(self.phase(), ReadPoll::<E>::Pending, FinalizePoll::<E>::Pending),
    {
        ReadPoll::Ready(Ok(0))
    }
}

} // verus!
