use vstd::prelude::*;

use std::collections::VecDeque;

use crate::aino_config::AinoConfig;
use crate::transaction::Transaction;
use crate::AinoError;

verus! {

/// Upper bound on the number of transactions in one outbound batch.
pub const MAX_BATCH_SIZE: usize = 500;

/// A control message on the submission channel: either one transaction to
/// enqueue, or the request to shut the dispatch loop down.
pub enum Msg {
    /// Ask the dispatch loop to drain the buffer and exit.
    Cancel,
    /// Enqueue one transaction for a later batch.
    Trx(Transaction),
}

/// What one poll of the submission channel produced.
pub enum ChannelEvent {
    /// A message was waiting and has been taken off the channel.
    Received(Msg),
    /// No message was waiting; nothing to do this tick.
    Empty,
    /// Every producer handle is gone; treated as a shutdown request.
    Disconnected,
}

/// Outcome of one listen step: keep running, or begin the shutdown drain.
pub enum ListenResult {
    /// Keep draining messages and flushing on policy.
    Continue,
    /// A shutdown was requested (or the channel closed).
    Shutdown,
}

/// The dispatch loop's lifecycle states.
#[derive(Clone, Copy, PartialEq, Eq, Structural, Debug)]
pub enum LoopState {
    /// Draining the channel and flushing on policy.
    Running,
    /// Shutting down: flushing unconditionally until the buffer is empty.
    Draining,
    /// The loop has exited; nothing is drained or flushed any more.
    Stopped,
}

/// One outbound payload: up to [`MAX_BATCH_SIZE`] transactions in arrival order.
pub struct BatchRequest {
    /// The transactions of this batch, oldest first.
    pub transactions: Vec<Transaction>,
}

/// What the dispatch loop asks its driver to do after one tick.
pub enum TickAction {
    /// Nothing to do; the driver may sleep until the next tick.
    Idle,
    /// Hand this batch to the transport.
    Send(BatchRequest),
    /// The buffer is drained and the loop has stopped; confirm completion.
    Finished,
}

/// The batching state owned by the dispatch loop: its lifecycle state and
/// the pending buffer of transactions awaiting dispatch, oldest first.
pub struct DispatchState {
    /// Where the loop stands in its lifecycle.
    pub state: LoopState,
    /// The pending buffer, in arrival (FIFO) order.
    pub buffer: VecDeque<Transaction>,
}

/// The flush decision: flush iff something is buffered and either the send
/// interval has elapsed or the buffer has outgrown one batch.
pub open spec fn flush_policy(elapsed_millis: int, send_interval: int, buffer_len: int) -> bool {
    buffer_len > 0 && (elapsed_millis >= send_interval || buffer_len > MAX_BATCH_SIZE as int)
}

/// How many records one batch takes off the front of a buffer of the given
/// length: all of them, capped at [`MAX_BATCH_SIZE`].
pub open spec fn spec_batch_size(buffer_len: int) -> int {
    if buffer_len <= MAX_BATCH_SIZE as int {
        buffer_len
    } else {
        MAX_BATCH_SIZE as int
    }
}

/// Decides whether a batch should be flushed now, given the time elapsed
/// since the last flush, the configured send interval and the number of
/// buffered transactions.
pub fn can_send_batch(elapsed_millis: u128, config: &AinoConfig, buffer_len: usize) -> (r: bool)
    ensures
        r == flush_policy(elapsed_millis as int, config.send_interval as int, buffer_len as int),
{
    buffer_len > 0
        && (elapsed_millis >= config.send_interval as u128 || MAX_BATCH_SIZE < buffer_len)
}

/// Removes `min(MAX_BATCH_SIZE, buffer.len())` transactions from the front
/// of the buffer and returns them as one batch, oldest first; the remainder
/// stays queued. An empty buffer yields an empty batch and stays untouched.
pub fn create_batch_request(buffer: &mut VecDeque<Transaction>) -> (r: BatchRequest)
    ensures
        r.transactions@ == old(buffer)@.take(spec_batch_size(old(buffer)@.len() as int)),
        final(buffer)@ == old(buffer)@.skip(spec_batch_size(old(buffer)@.len() as int)),
        r.transactions@ + final(buffer)@ == old(buffer)@,
        r.transactions@.len() <= MAX_BATCH_SIZE,
        old(buffer)@.len() == 0 ==> r.transactions@ == Seq::<Transaction>::empty()
            && final(buffer)@ == old(buffer)@,
{
    let ghost orig = buffer@;
    let batch_size = if buffer.len() < MAX_BATCH_SIZE {
        buffer.len()
    } else {
        MAX_BATCH_SIZE
    };
    let mut transactions: Vec<Transaction> = Vec::new();
    while transactions.len() < batch_size
        invariant
            batch_size == spec_batch_size(orig.len() as int),
            batch_size <= orig.len(),
            transactions@.len() <= batch_size,
            transactions@ == orig.take(transactions@.len() as int),
            buffer@ == orig.skip(transactions@.len() as int),
        decreases batch_size - transactions.len(),
    {
        let ghost k = transactions@.len() as int;
        let t = buffer.pop_front().unwrap();
        transactions.push(t);
        proof {
            assert(orig.take(k + 1) =~= orig.take(k).push(orig[k]));
            assert(orig.skip(k + 1) =~= orig.skip(k).subrange(1, orig.skip(k).len() as int));
        }
    }
    proof {
        let bs = spec_batch_size(orig.len() as int);
        assert(orig.take(bs) + orig.skip(bs) =~= orig);
        if orig.len() == 0 {
            assert(orig.take(0) =~= Seq::<Transaction>::empty());
            assert(orig.skip(0) =~= orig);
        }
    }
    BatchRequest { transactions }
}

/// Whether the event tells the loop to begin shutting down: an explicit
/// cancel message, or a channel whose producers are all gone.
pub open spec fn is_shutdown_event(event: ChannelEvent) -> bool {
    event matches ChannelEvent::Received(Msg::Cancel) || event is Disconnected
}

/// The buffer after the loop has drained one channel event into it: a
/// received transaction is appended at the back; anything else leaves the
/// buffer as it was.
pub open spec fn buffer_after_event(buf: Seq<Transaction>, event: ChannelEvent) -> Seq<
    Transaction,
> {
    match event {
        ChannelEvent::Received(Msg::Trx(t)) => buf.push(t),
        _ => buf,
    }
}

/// The transaction an event carries into the buffer, if any.
pub open spec fn event_transactions(event: ChannelEvent) -> Seq<Transaction> {
    match event {
        ChannelEvent::Received(Msg::Trx(t)) => seq![t],
        _ => Seq::empty(),
    }
}

/// The transactions a tick hands to the transport: the batch of a `Send`,
/// nothing otherwise.
pub open spec fn tick_transactions(action: TickAction) -> Seq<Transaction> {
    match action {
        TickAction::Send(b) => b.transactions@,
        _ => Seq::empty(),
    }
}

/// What one unconditional drain step does: on an empty buffer the loop
/// stops and reports completion; otherwise it sends one batch off the
/// front and keeps draining.
pub open spec fn drain_step_spec(
    pre_buf: Seq<Transaction>,
    post: DispatchState,
    action: TickAction,
) -> bool {
    if pre_buf.len() == 0 {
        &&& post.state is Stopped
        &&& post.buffer@ == pre_buf
        &&& action is Finished
    } else {
        &&& post.state is Draining
        &&& post.buffer@ == pre_buf.skip(spec_batch_size(pre_buf.len() as int))
        &&& action matches TickAction::Send(b) && b.transactions@ == pre_buf.take(
            spec_batch_size(pre_buf.len() as int),
        )
    }
}

/// Applies one drained channel event to the buffer: a transaction is
/// appended in arrival order, a cancel (or a closed channel) asks for
/// shutdown, and an empty poll is not an error, just nothing to do.
pub fn listen_messages(event: ChannelEvent, buffer: &mut VecDeque<Transaction>) -> (r:
    ListenResult)
    ensures
        final(buffer)@ == buffer_after_event(old(buffer)@, event),
        (r is Shutdown) == is_shutdown_event(event),
{
    match event {
        ChannelEvent::Received(msg) => match msg {
            Msg::Cancel => ListenResult::Shutdown,
            Msg::Trx(t) => {
                buffer.push_back(t);
                ListenResult::Continue
            },
        },
        ChannelEvent::Empty => ListenResult::Continue,
        ChannelEvent::Disconnected => ListenResult::Shutdown,
    }
}

/// One step of the shutdown drain; see [`drain_step_spec`].
fn drain_tick(d: &mut DispatchState) -> (r: TickAction)
    requires
        old(d).state is Draining,
    ensures
        drain_step_spec(old(d).buffer@, *final(d), r),
{
    if d.buffer.len() == 0 {
        d.state = LoopState::Stopped;
        TickAction::Finished
    } else {
        TickAction::Send(create_batch_request(&mut d.buffer))
    }
}

/// One tick of the dispatch loop, fed with what one poll of the submission
/// channel produced and with the time elapsed since the last flush.
///
/// Running: the event is drained into the buffer; a shutdown request moves
/// the loop to Draining (immediately performing one drain step), and
/// otherwise the flush policy decides whether one batch is sent. Draining:
/// the event is ignored (the channel is no longer read) and one drain step
/// runs. Stopped: nothing happens.
///
/// No transaction is lost or duplicated: whatever arrives in the event
/// ends up, in order, either in the buffer or in the batch handed out.
pub fn dispatch_tick(
    d: &mut DispatchState,
    event: ChannelEvent,
    elapsed_millis: u128,
    config: &AinoConfig,
) -> (r: TickAction)
    ensures
        old(d).state is Stopped ==> *final(d) == *old(d) && r is Idle,
        old(d).state is Draining ==> drain_step_spec(old(d).buffer@, *final(d), r),
        old(d).state is Running && is_shutdown_event(event) ==> drain_step_spec(
            old(d).buffer@,
            *final(d),
            r,
        ),
        old(d).state is Running && !is_shutdown_event(event) ==> ({
            let buf = buffer_after_event(old(d).buffer@, event);
            &&& final(d).state is Running
            &&& flush_policy(
                elapsed_millis as int,
                config.send_interval as int,
                buf.len() as int,
            ) ==> final(d).buffer@ == buf.skip(spec_batch_size(buf.len() as int)) && (
            r matches TickAction::Send(b) && b.transactions@ == buf.take(
                spec_batch_size(buf.len() as int),
            ))
            &&& !flush_policy(
                elapsed_millis as int,
                config.send_interval as int,
                buf.len() as int,
            ) ==> final(d).buffer@ == buf && r is Idle
        }),
        old(d).state is Running ==> tick_transactions(r) + final(d).buffer@ == old(d).buffer@
            + event_transactions(event),
        old(d).state is Draining ==> tick_transactions(r) + final(d).buffer@ == old(d).buffer@,
{
    let ghost pre = *d;
    let r = match d.state {
        LoopState::Stopped => TickAction::Idle,
        LoopState::Draining => drain_tick(d),
        LoopState::Running => {
            match listen_messages(event, &mut d.buffer) {
                ListenResult::Shutdown => {
                    d.state = LoopState::Draining;
                    drain_tick(d)
                },
                ListenResult::Continue => {
                    if can_send_batch(elapsed_millis, config, d.buffer.len()) {
                        TickAction::Send(create_batch_request(&mut d.buffer))
                    } else {
                        TickAction::Idle
                    }
                },
            }
        },
    };
    proof {
        if pre.state is Running {
            assert(tick_transactions(r) + d.buffer@ =~= pre.buffer@ + event_transactions(event));
        }
        if pre.state is Draining {
            assert(tick_transactions(r) + d.buffer@ =~= pre.buffer@);
        }
    }
    r
}

/// The agent handle: the submission side, the dispatch loop's state and
/// the once-only lifecycle, as one explicitly constructed, caller-owned
/// value. A driver typically keeps one such handle per process and lets a
/// background worker run the dispatch loop, polling [`agent_tick`] and
/// performing the returned actions.
pub struct Agent {
    /// Whether `start` has already claimed the consumer side; it can be
    /// claimed at most once.
    pub started: bool,
    /// The submission channel's content: control messages submitted but
    /// not yet drained by the dispatch loop, oldest first.
    pub queue: VecDeque<Msg>,
    /// The dispatch loop's batching state.
    pub dispatch: DispatchState,
    /// The configuration `start` was given, if it has run.
    pub config: Option<AinoConfig>,
}

/// The transactions still travelling through the submission channel, in
/// submission order.
pub open spec fn queued_transactions(queue: Seq<Msg>) -> Seq<Transaction>
    decreases queue.len(),
{
    if queue.len() == 0 {
        Seq::empty()
    } else {
        match queue[0] {
            Msg::Trx(t) => seq![t] + queued_transactions(queue.drop_first()),
            Msg::Cancel => queued_transactions(queue.drop_first()),
        }
    }
}

impl Agent {
    /// The handle is well formed: a configuration is held exactly while
    /// the agent is started, and before `start` the loop has not moved.
    pub open spec fn wf(self) -> bool {
        &&& self.config is Some <==> self.started
        &&& !self.started ==> self.dispatch.state is Running
    }

    /// Whether the dispatch loop has exited, closing the consumer side for
    /// good.
    pub open spec fn stopped(self) -> bool {
        self.dispatch.state is Stopped
    }

    /// The configured send interval, once the agent is started.
    pub open spec fn interval(self) -> int {
        match self.config {
            Some(c) => c.send_interval as int,
            None => 0,
        }
    }

    /// A fresh, not yet started agent handle with nothing queued.
    pub fn new() -> (a: Agent)
        ensures
            a.wf(),
            !a.started,
            !a.stopped(),
            a.queue@ == Seq::<Msg>::empty(),
            a.dispatch.state is Running,
            a.dispatch.buffer@ == Seq::<Transaction>::empty(),
            a.config is None,
    {
        Agent {
            started: false,
            queue: VecDeque::new(),
            dispatch: DispatchState { state: LoopState::Running, buffer: VecDeque::new() },
            config: None,
        }
    }
}

/// Starts the agent: claims the consumer side of the submission channel
/// and hands the dispatch loop its configuration. Valid exactly once: a
/// second call returns an error and starts nothing.
pub fn start(agent: &mut Agent, config: AinoConfig) -> (r: Result<(), AinoError>)
    requires
        old(agent).wf(),
    ensures
        final(agent).wf(),
        old(agent).started ==> *final(agent) == *old(agent) && (r matches Err(e) && e@
            == "Failed to start Aino.io agent"@),
        !old(agent).started ==> r is Ok && final(agent).started && final(agent).config == Some(
            config,
        ) && final(agent).queue == old(agent).queue && final(agent).dispatch == old(
            agent,
        ).dispatch,
{
    if agent.started {
        Err(AinoError::new("Failed to start Aino.io agent".to_owned()))
    } else {
        agent.started = true;
        agent.config = Some(config);
        Ok(())
    }
}

/// Adds the [`Transaction`] to the queue to be sent later. Succeeds even
/// before `start` (the messages queue up unconsumed); fails only once the
/// dispatch loop has exited and the consumer side is closed for good.
pub fn add_transaction(agent: &mut Agent, transaction: Transaction) -> (r: Result<
    (),
    AinoError,
>)
    ensures
        final(agent).started == old(agent).started,
        final(agent).config == old(agent).config,
        final(agent).dispatch == old(agent).dispatch,
        old(agent).wf() ==> final(agent).wf(),
        old(agent).stopped() ==> final(agent).queue == old(agent).queue && (r matches Err(e)
            && e@ == "Aino error: sending on a closed channel"@),
        !old(agent).stopped() ==> r is Ok && final(agent).queue@ == old(agent).queue@.push(
            Msg::Trx(transaction),
        ),
{
    match agent.dispatch.state {
        LoopState::Stopped => Err(
            AinoError::new("Aino error: sending on a closed channel".to_owned()),
        ),
        _ => {
            agent.queue.push_back(Msg::Trx(transaction));
            Ok(())
        },
    }
}

/// Requests an orderly shutdown: puts the cancel message on the submission
/// channel, after which the dispatch loop drains every buffered
/// transaction and then stops. Stopping is lifecycle misuse unless the
/// agent has been started and has not yet stopped: before `start` and
/// after the loop has exited the call fails with an explicit, typed error
/// instead of waiting forever.
///
/// The synchronous wait (`stop` returns to its caller only once the loop
/// has confirmed completion) belongs to the driver: it keeps polling
/// [`agent_tick`] until the `Finished` action comes back.
pub fn stop(agent: &mut Agent) -> (r: Result<(), AinoError>)
    ensures
        final(agent).started == old(agent).started,
        final(agent).config == old(agent).config,
        final(agent).dispatch == old(agent).dispatch,
        old(agent).wf() ==> final(agent).wf(),
        !old(agent).started ==> *final(agent) == *old(agent) && (r matches Err(e) && e@
            == "Aino error: the agent has not been started"@),
        old(agent).started && old(agent).stopped() ==> final(agent).queue == old(agent).queue
            && (r matches Err(e) && e@ == "Aino error: the agent has already been stopped"@),
        old(agent).started && !old(agent).stopped() ==> r is Ok && final(agent).queue@ == old(
            agent,
        ).queue@.push(Msg::Cancel),
{
    if !agent.started {
        return Err(AinoError::new("Aino error: the agent has not been started".to_owned()));
    }
    match agent.dispatch.state {
        LoopState::Stopped => Err(
            AinoError::new("Aino error: the agent has already been stopped".to_owned()),
        ),
        _ => {
            agent.queue.push_back(Msg::Cancel);
            Ok(())
        },
    }
}

/// The channel event one tick of a started agent consumes: the oldest
/// queued message while the loop still reads the channel, else nothing.
pub open spec fn tick_event(a: Agent) -> ChannelEvent {
    if a.dispatch.state is Running && a.queue@.len() > 0 {
        ChannelEvent::Received(a.queue@[0])
    } else {
        ChannelEvent::Empty
    }
}

/// One tick of a started agent: while the loop is running it drains at
/// most one message off the submission channel and feeds [`dispatch_tick`]
/// with it; while draining or stopped the channel is left alone. Before
/// `start` nothing happens at all.
///
/// No transaction is lost or duplicated: the transactions handed to the
/// transport, still buffered, and still queued add up, in order, to what
/// was buffered and queued before the tick.
pub fn agent_tick(agent: &mut Agent, elapsed_millis: u128) -> (r: TickAction)
    requires
        old(agent).wf(),
    ensures
        final(agent).wf(),
        final(agent).started == old(agent).started,
        final(agent).config == old(agent).config,
        !old(agent).started ==> *final(agent) == *old(agent) && r is Idle,
        old(agent).started ==> ({
            let event = tick_event(*old(agent));
            &&& old(agent).dispatch.state is Stopped ==> *final(agent) == *old(agent) && r is Idle
            &&& old(agent).dispatch.state is Draining ==> drain_step_spec(
                old(agent).dispatch.buffer@,
                final(agent).dispatch,
                r,
            ) && final(agent).queue == old(agent).queue
            &&& old(agent).dispatch.state is Running ==> {
                &&& final(agent).queue@ == (if old(agent).queue@.len() > 0 {
                    old(agent).queue@.drop_first()
                } else {
                    old(agent).queue@
                })
                &&& is_shutdown_event(event) ==> drain_step_spec(
                    old(agent).dispatch.buffer@,
                    final(agent).dispatch,
                    r,
                )
                &&& !is_shutdown_event(event) ==> ({
                    let buf = buffer_after_event(old(agent).dispatch.buffer@, event);
                    &&& final(agent).dispatch.state is Running
                    &&& flush_policy(elapsed_millis as int, old(agent).interval(), buf.len() as int)
                        ==> final(agent).dispatch.buffer@ == buf.skip(
                        spec_batch_size(buf.len() as int),
                    ) && (r matches TickAction::Send(b) && b.transactions@ == buf.take(
                        spec_batch_size(buf.len() as int),
                    ))
                    &&& !flush_policy(
                        elapsed_millis as int,
                        old(agent).interval(),
                        buf.len() as int,
                    ) ==> final(agent).dispatch.buffer@ == buf && r is Idle
                })
            }
        }),
        old(agent).started ==> tick_transactions(r) + final(agent).dispatch.buffer@
            + queued_transactions(final(agent).queue@) == old(agent).dispatch.buffer@
            + queued_transactions(old(agent).queue@),
{
    if !agent.started {
        return TickAction::Idle;
    }
    let ghost pre = *agent;
    let event = if agent.dispatch.state == LoopState::Running {
        match agent.queue.pop_front() {
            Some(m) => ChannelEvent::Received(m),
            None => ChannelEvent::Empty,
        }
    } else {
        ChannelEvent::Empty
    };
    proof {
        assert(event == tick_event(pre));
        if pre.dispatch.state is Running && pre.queue@.len() > 0 {
            assert(agent.queue@ =~= pre.queue@.drop_first());
        }
    }
    let r = match &agent.config {
        Some(cfg) => dispatch_tick(&mut agent.dispatch, event, elapsed_millis, cfg),
        None => {
            proof {
                assert(false);
            }
            TickAction::Idle
        },
    };
    proof {
        lemma_conservation(pre, *agent, event, r);
    }
    r
}

/// The accounting behind [`agent_tick`]'s conservation clause: popping the
/// oldest message off the queue and crediting its transaction (if any) to
/// the buffer or the outgoing batch balances out.
proof fn lemma_conservation(pre: Agent, post: Agent, event: ChannelEvent, r: TickAction)
    requires
        pre.started,
        event == tick_event(pre),
        post.queue@ == (if pre.dispatch.state is Running && pre.queue@.len() > 0 {
            pre.queue@.drop_first()
        } else {
            pre.queue@
        }),
        pre.dispatch.state is Running ==> tick_transactions(r) + post.dispatch.buffer@
            == pre.dispatch.buffer@ + event_transactions(event),
        pre.dispatch.state is Draining ==> tick_transactions(r) + post.dispatch.buffer@
            == pre.dispatch.buffer@,
        pre.dispatch.state is Stopped ==> tick_transactions(r) == Seq::<Transaction>::empty()
            && post.dispatch.buffer@ == pre.dispatch.buffer@,
    ensures
        tick_transactions(r) + post.dispatch.buffer@ + queued_transactions(post.queue@)
            == pre.dispatch.buffer@ + queued_transactions(pre.queue@),
{
    let lhs = tick_transactions(r) + post.dispatch.buffer@ + queued_transactions(post.queue@);
    let rhs = pre.dispatch.buffer@ + queued_transactions(pre.queue@);
    if pre.dispatch.state is Running && pre.queue@.len() > 0 {
        assert(queued_transactions(pre.queue@) == event_transactions(event)
            + queued_transactions(pre.queue@.drop_first()));
        assert(lhs =~= rhs);
    } else {
        assert(event_transactions(event) =~= Seq::<Transaction>::empty());
        assert(lhs =~= rhs);
    }
}

/// An empty buffer is never flushed, however much time has elapsed.
pub proof fn lemma_flush_policy_empty_buffer(elapsed_millis: int, send_interval: int)
    ensures
        !flush_policy(elapsed_millis, send_interval, 0),
{
}

/// A buffer that has outgrown one batch is flushed, however little time
/// has elapsed.
pub proof fn lemma_flush_policy_overfull_buffer(
    elapsed_millis: int,
    send_interval: int,
    buffer_len: int,
)
    requires
        buffer_len > MAX_BATCH_SIZE as int,
    ensures
        flush_policy(elapsed_millis, send_interval, buffer_len),
{
}

/// For a non-empty buffer within the batch cap, the clock alone decides:
/// the buffer is flushed exactly when the send interval has elapsed.
pub proof fn lemma_flush_policy_interval(
    elapsed_millis: int,
    send_interval: int,
    buffer_len: int,
)
    requires
        0 < buffer_len <= MAX_BATCH_SIZE as int,
    ensures
        flush_policy(elapsed_millis, send_interval, buffer_len) <==> elapsed_millis
            >= send_interval,
{
}

/// The batches that repeated calls of [`create_batch_request`] slice off a
/// buffer until it is empty, in the order they are built.
pub open spec fn batches_of(buf: Seq<Transaction>) -> Seq<Seq<Transaction>>
    decreases buf.len(),
{
    if buf.len() == 0 {
        Seq::empty()
    } else {
        seq![buf.take(spec_batch_size(buf.len() as int))] + batches_of(
            buf.skip(spec_batch_size(buf.len() as int)),
        )
    }
}

/// All the transactions of a sequence of batches, in order.
pub open spec fn concat_batches(batches: Seq<Seq<Transaction>>) -> Seq<Transaction>
    decreases batches.len(),
{
    if batches.len() == 0 {
        Seq::empty()
    } else {
        batches[0] + concat_batches(batches.drop_first())
    }
}

/// Each drain step sends exactly the next batch of [`batches_of`]: a full
/// shutdown drain therefore sends `batches_of` of the buffer it started
/// from, batch by batch, before the loop reports completion.
pub proof fn lemma_drain_follows_batches(
    pre_buf: Seq<Transaction>,
    post: DispatchState,
    action: TickAction,
)
    requires
        pre_buf.len() > 0,
        drain_step_spec(pre_buf, post, action),
    ensures
        tick_transactions(action) == batches_of(pre_buf)[0],
        batches_of(post.buffer@) == batches_of(pre_buf).drop_first(),
{
    assert(batches_of(pre_buf).drop_first() =~= batches_of(
        pre_buf.skip(spec_batch_size(pre_buf.len() as int)),
    ));
}

/// The batch builder is order-preserving and exhaustive over repeated
/// calls: slicing batches off a buffer until it is empty yields the
/// original sequence, concatenated in order, and every intermediate batch
/// is non-empty and at most [`MAX_BATCH_SIZE`] long.
pub proof fn lemma_batches_exhaustive(buf: Seq<Transaction>)
    ensures
        concat_batches(batches_of(buf)) == buf,
        forall|i: int|
            0 <= i < batches_of(buf).len() ==> 0 < (#[trigger] batches_of(buf)[i]).len()
                <= MAX_BATCH_SIZE as int,
    decreases buf.len(),
{
    if buf.len() == 0 {
        assert(concat_batches(batches_of(buf)) =~= buf);
    } else {
        let bs = spec_batch_size(buf.len() as int);
        let rest = buf.skip(bs);
        lemma_batches_exhaustive(rest);
        assert(batches_of(buf).drop_first() =~= batches_of(rest));
        assert(concat_batches(batches_of(buf)) == buf.take(bs) + concat_batches(
            batches_of(rest),
        ));
        assert(buf.take(bs) + rest =~= buf);
        assert forall|i: int|
            0 <= i < batches_of(buf).len() implies 0 < (#[trigger] batches_of(buf)[i]).len()
            <= MAX_BATCH_SIZE as int by {
            if i == 0 {
                assert(batches_of(buf)[0] == buf.take(bs));
            } else {
                assert(batches_of(buf)[i] == batches_of(rest)[i - 1]);
            }
        }
    }
}

} // verus!
