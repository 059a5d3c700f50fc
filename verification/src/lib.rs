//! A background batching dispatch agent: callers submit transaction records,
//! the agent buffers them and hands them out as bounded, order-preserving
//! batches according to a size-or-time flush policy, and an orderly shutdown
//! drains every buffered record before the loop reports completion.
//!
//! The batching core is verified: the flush policy, the batch builder, the
//! dispatch loop's state machine and the lifecycle rules all carry contracts.
//! Wiring that Verus cannot see (threads, channels, the HTTP transport and
//! configuration loading) lives outside this library and drives it through
//! the event-based entry points.

use vstd::prelude::*;

mod aino_agent;
mod aino_config;
mod status;
mod transaction;

pub use aino_agent::{
    add_transaction, agent_tick, batches_of, buffer_after_event, can_send_batch, concat_batches,
    create_batch_request, dispatch_tick, drain_step_spec, event_transactions, flush_policy,
    is_shutdown_event, lemma_batches_exhaustive, lemma_drain_follows_batches,
    lemma_flush_policy_empty_buffer, lemma_flush_policy_interval,
    lemma_flush_policy_overfull_buffer, listen_messages, queued_transactions, spec_batch_size,
    start, stop, tick_event, tick_transactions, Agent, BatchRequest, ChannelEvent, DispatchState,
    ListenResult, LoopState, Msg, TickAction, MAX_BATCH_SIZE,
};
pub use aino_config::AinoConfig;
pub use status::Status;
pub use transaction::{
    ids_seq, metadata_seq, Transaction, TransactionId, TransactionMetadata,
};

verus! {

/// Error object for the agent: a human-readable message describing what
/// went wrong, surfaced to the caller instead of a panic.
#[derive(Debug)]
pub struct AinoError {
    msg: String,
}

impl View for AinoError {
    type V = Seq<char>;

    closed spec fn view(&self) -> Seq<char> {
        self.msg@
    }
}

impl AinoError {
    /// Construct a new `AinoError` carrying the given message.
    pub fn new(msg: String) -> (r: Self)
        ensures
            r@ == msg@,
    {
        AinoError { msg }
    }

    /// The message the error carries.
    pub fn message(&self) -> (r: &String)
        ensures
            r@ == self@,
    {
        &self.msg
    }
}

} // verus!
