//! The shared state of one transfer, with the event handlers of the callback
//! side and the polls of the consumer side.

use crate::model::{
    handed_out, ErrorKind, Reaction, ReceivedResponse, ResponseMetadata, TransferModel,
    TransportCommand,
};
use crate::slot::{held, slot_new, slot_store, slot_swap, ResponseSlot};
use vstd::prelude::*;

verus! {

/// The state that the callback side and the consumer side share.
pub struct TransferState {
    latest_response: ResponseSlot,
    body_buffer: Vec<u8>,
    completed: bool,
    captured_error: Option<ErrorKind>,
    max_buffer_size: Option<u64>,
}

impl View for TransferState {
    type V = TransferModel;

    closed spec fn view(&self) -> TransferModel {
        TransferModel {
            response: held(self.latest_response),
            body: self.body_buffer@,
            completed: self.completed,
            error: self.captured_error,
            limit: self.max_buffer_size,
        }
    }
}

impl TransferState {
    /// The buffered body respects the configured bound. This holds of a new
    /// state, and every operation keeps it.
    pub open spec fn wf(&self) -> bool {
        self@.wf()
    }

    /// The state of a new transfer, with an optional bound on the bytes that
    /// may wait unread.
    pub fn new(max_response_buffer_size: Option<u64>) -> (state: Self)
        ensures
            state@ == TransferModel::fresh(max_response_buffer_size),
            state.wf(),
    {
        TransferState {
            latest_response: slot_new(None),
            body_buffer: Vec::new(),
            completed: false,
            captured_error: None,
            max_buffer_size: max_response_buffer_size,
        }
    }

    /// Handles the arrival of the response: stores it over whatever was
    /// stored before, whether or not it is an HTTP response.
    /// `flow_controlled` says whether the transport waits for an explicit
    /// resume.
    pub fn on_headers_received(
        &mut self,
        received: ReceivedResponse,
        flow_controlled: bool,
    ) -> (reaction: Reaction)
        ensures
            final(self)@ == old(self)@.after_headers(received),
            old(self).wf() ==> final(self).wf(),
            reaction == TransferModel::headers_reaction(flow_controlled),
    {
        slot_store(&mut self.latest_response, Some(received));
        Reaction {
            command: if flow_controlled {
                TransportCommand::Resume
            } else {
                TransportCommand::Nothing
            },
            wake: true,
        }
    }

    /// Handles the arrival of a body chunk. The bound is tested before
    /// anything is appended, so the buffer never holds more than the bound.
    pub fn on_data_received(&mut self, chunk: &[u8]) -> (reaction: Reaction)
        ensures
            final(self)@ == old(self)@.after_data(chunk@),
            old(self).wf() ==> final(self).wf(),
            reaction == old(self)@.data_reaction(chunk@),
    {
        if self.captured_error.is_some() {
            return Reaction { command: TransportCommand::Nothing, wake: false };
        }
        if let Some(max) = self.max_buffer_size {
            if self.body_buffer.len() as u128 + chunk.len() as u128 > max as u128 {
                self.captured_error = Some(ErrorKind::ResponseTooLarge);
                return Reaction { command: TransportCommand::Cancel, wake: false };
            }
        }
        self.body_buffer.extend_from_slice(chunk);
        assert(self.body_buffer@ =~= old(self).body_buffer@ + chunk@);
        Reaction { command: TransportCommand::Nothing, wake: false }
    }

    /// Handles the terminal event. The first captured error wins: `error` is
    /// recorded only where none is waiting.
    pub fn on_completed(&mut self, error: Option<ErrorKind>) -> (reaction: Reaction)
        ensures
            final(self)@ == old(self)@.after_completed(error),
            old(self).wf() ==> final(self).wf(),
            reaction == TransferModel::completed_reaction(),
    {
        self.completed = true;
        if self.captured_error.is_none() {
            self.captured_error = error;
        }
        Reaction { command: TransportCommand::Nothing, wake: true }
    }

    /// Whether the terminal event arrived.
    pub fn is_completed(&self) -> (done: bool)
        ensures
            done == self@.completed,
    {
        self.completed
    }

    /// The number of body bytes that wait unread.
    pub fn buffered_len(&self) -> (n: usize)
        ensures
            n == self@.body.len(),
    {
        self.body_buffer.len()
    }

    /// Surfaces a waiting error, once; without one, empties the slot and hands
    /// out the metadata of the HTTP response that it held, if it held one.
    pub fn try_take_response(&mut self) -> (polled: Result<
        Option<ResponseMetadata>,
        ErrorKind,
    >)
        ensures
            polled == old(self)@.response_poll(),
            final(self)@ == old(self)@.after_response_poll(),
            old(self).wf() ==> final(self).wf(),
    {
        if let Some(error) = self.captured_error.take() {
            return Err(error);
        }
        let stored = slot_swap(&mut self.latest_response, None);
        let found = match stored {
            Some(ReceivedResponse::Http(metadata)) => Some(metadata),
            _ => None,
        };
        assert(found == handed_out(stored));
        Ok(found)
    }

    /// Surfaces a waiting error, once; without one, hands out the buffered
    /// body and leaves the buffer empty.
    pub fn take_response_buffer(&mut self) -> (polled: Result<Vec<u8>, ErrorKind>)
        ensures
            match polled {
                Ok(bytes) => old(self)@.body_poll() == Ok::<Seq<u8>, ErrorKind>(bytes@),
                Err(e) => old(self)@.body_poll() == Err::<Seq<u8>, ErrorKind>(e),
            },
            final(self)@ == old(self)@.after_body_poll(),
            old(self).wf() ==> final(self).wf(),
    {
        if let Some(error) = self.captured_error.take() {
            return Err(error);
        }
        let mut bytes: Vec<u8> = Vec::new();
        core::mem::swap(&mut self.body_buffer, &mut bytes);
        Ok(bytes)
    }
}

} // verus!
