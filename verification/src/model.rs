//! The mathematical model of one transfer: what the shared state holds, and
//! how each event and each poll changes it.

use vstd::prelude::*;

verus! {

/// What the transport reported when the response headers arrived.
#[derive(Clone, Copy, Debug, PartialEq, Eq, Structural)]
pub struct ResponseMetadata {
    /// The HTTP status code, as the transport reported it.
    pub status: i64,
}

/// What a headers event brought: an HTTP response with its metadata, or a
/// response of another kind, which is stored like any other and handed out
/// as nothing.
#[derive(Clone, Copy, Debug, PartialEq, Eq, Structural)]
pub enum ReceivedResponse {
    /// An HTTP response.
    Http(ResponseMetadata),
    /// A response that is no HTTP response.
    Other,
}

/// What a poll hands out of the response slot: the metadata of a stored HTTP
/// response, and nothing for an empty slot or a response of another kind.
pub open spec fn handed_out(stored: Option<ReceivedResponse>) -> Option<ResponseMetadata> {
    match stored {
        Some(ReceivedResponse::Http(metadata)) => Some(metadata),
        _ => None,
    }
}

/// Why a transfer failed.
#[derive(Clone, Copy, Debug, PartialEq, Eq, Structural)]
pub enum ErrorKind {
    /// The body would have outgrown the configured buffer bound.
    ResponseTooLarge,
    /// The transport ended the transfer with its own error code.
    Transport(i64),
}

/// What the callback side asks of the transport after an event.
#[derive(Clone, Copy, Debug, PartialEq, Eq, Structural)]
pub enum TransportCommand {
    /// Leave the transfer as it is.
    Nothing,
    /// Let delivery go on.
    Resume,
    /// Abort the transfer.
    Cancel,
}

/// What the callback side does once the state has been updated.
#[derive(Clone, Copy, Debug, PartialEq, Eq, Structural)]
pub struct Reaction {
    /// The command for the transport.
    pub command: TransportCommand,
    /// Whether the waiting consumer is woken.
    pub wake: bool,
}

/// One thing that happens to a transfer: an event of the transport, or a
/// poll of the consumer.
pub enum Step {
    /// The response headers arrived.
    Headers(ReceivedResponse),
    /// A body chunk arrived.
    Data(Seq<u8>),
    /// The terminal event arrived, with the transport's error if it failed.
    Completed(Option<ErrorKind>),
    /// The consumer polled for the response.
    PollResponse,
    /// The consumer polled for the body.
    PollBody,
}

/// The state of one transfer as plain mathematical values.
pub struct TransferModel {
    /// The response that arrived last and was not read yet.
    pub response: Option<ReceivedResponse>,
    /// The accepted body bytes that were not read yet, in arrival order.
    pub body: Seq<u8>,
    /// Whether the terminal event arrived.
    pub completed: bool,
    /// The error that was captured and not surfaced yet.
    pub error: Option<ErrorKind>,
    /// The bound on `body`, if one was configured.
    pub limit: Option<u64>,
}

impl TransferModel {
    /// The state of a transfer on which no event arrived yet.
    pub open spec fn fresh(limit: Option<u64>) -> Self {
        TransferModel { response: None, body: Seq::empty(), completed: false, error: None, limit }
    }

    /// The buffered body respects the configured bound.
    pub open spec fn wf(self) -> bool {
        self.limit matches Some(m) ==> self.body.len() <= m
    }

    /// Whether `n` more bytes would push the buffered body over the bound.
    pub open spec fn would_exceed(self, n: nat) -> bool {
        self.limit matches Some(m) && self.body.len() + n > m
    }

    /// The state after a headers event: the response replaces what was there.
    pub open spec fn after_headers(self, received: ReceivedResponse) -> Self {
        TransferModel { response: Some(received), ..self }
    }

    /// What the callback side does after a headers event. A transport under
    /// explicit flow control is resumed at once; the consumer is always woken.
    pub open spec fn headers_reaction(flow_controlled: bool) -> Reaction {
        Reaction {
            command: if flow_controlled {
                TransportCommand::Resume
            } else {
                TransportCommand::Nothing
            },
            wake: true,
        }
    }

    /// The state after a data event. While an error waits to be surfaced the
    /// chunk is ignored; a chunk that would exceed the bound is dropped whole
    /// and recorded as `ResponseTooLarge`; any other chunk is appended.
    pub open spec fn after_data(self, chunk: Seq<u8>) -> Self {
        if self.error is Some {
            self
        } else if self.would_exceed(chunk.len()) {
            TransferModel { error: Some(ErrorKind::ResponseTooLarge), ..self }
        } else {
            TransferModel { body: self.body + chunk, ..self }
        }
    }

    /// What the callback side does after a data event: the transfer is
    /// cancelled exactly when this chunk was the one that broke the bound.
    /// A data event wakes nobody.
    pub open spec fn data_reaction(self, chunk: Seq<u8>) -> Reaction {
        Reaction {
            command: if self.error is None && self.would_exceed(chunk.len()) {
                TransportCommand::Cancel
            } else {
                TransportCommand::Nothing
            },
            wake: false,
        }
    }

    /// The state after the terminal event. An error that was captured earlier
    /// is kept; otherwise the terminal error, if any, is captured.
    pub open spec fn after_completed(self, error: Option<ErrorKind>) -> Self {
        TransferModel {
            completed: true,
            error: if self.error is Some {
                self.error
            } else {
                error
            },
            ..self
        }
    }

    /// What the callback side does after the terminal event.
    pub open spec fn completed_reaction() -> Reaction {
        Reaction { command: TransportCommand::Nothing, wake: true }
    }

    /// The state after any poll that surfaces errors, when one was waiting.
    pub open spec fn without_error(self) -> Self {
        TransferModel { error: None, ..self }
    }

    /// What a poll for the response returns.
    pub open spec fn response_poll(self) -> Result<Option<ResponseMetadata>, ErrorKind> {
        match self.error {
            Some(e) => Err(e),
            None => Ok(handed_out(self.response)),
        }
    }

    /// The state after a poll for the response: a waiting error is cleared and
    /// nothing else; without one the response slot is emptied.
    pub open spec fn after_response_poll(self) -> Self {
        if self.error is Some {
            self.without_error()
        } else {
            TransferModel { response: None, ..self }
        }
    }

    /// What a poll for the body returns.
    pub open spec fn body_poll(self) -> Result<Seq<u8>, ErrorKind> {
        match self.error {
            Some(e) => Err(e),
            None => Ok(self.body),
        }
    }

    /// The state after a poll for the body: a waiting error is cleared and
    /// nothing else; without one the buffer is emptied.
    pub open spec fn after_body_poll(self) -> Self {
        if self.error is Some {
            self.without_error()
        } else {
            TransferModel { body: Seq::empty(), ..self }
        }
    }

    /// The state after one step.
    pub open spec fn after_step(self, step: Step) -> Self {
        match step {
            Step::Headers(received) => self.after_headers(received),
            Step::Data(chunk) => self.after_data(chunk),
            Step::Completed(error) => self.after_completed(error),
            Step::PollResponse => self.after_response_poll(),
            Step::PollBody => self.after_body_poll(),
        }
    }

    /// The state after `steps`, in order.
    pub open spec fn after_steps(self, steps: Seq<Step>) -> Self
        decreases steps.len(),
    {
        if steps.len() == 0 {
            self
        } else {
            self.after_steps(steps.drop_last()).after_step(steps.last())
        }
    }

    /// The bytes that the data events among `steps` put into the buffer, in
    /// arrival order: the chunks that were neither ignored nor dropped.
    pub open spec fn bytes_accepted(self, steps: Seq<Step>) -> Seq<u8>
        decreases steps.len(),
    {
        if steps.len() == 0 {
            Seq::empty()
        } else {
            let before = self.after_steps(steps.drop_last());
            let earlier = self.bytes_accepted(steps.drop_last());
            match steps.last() {
                Step::Data(chunk) => if before.error is None && !before.would_exceed(
                    chunk.len(),
                ) {
                    earlier + chunk
                } else {
                    earlier
                },
                _ => earlier,
            }
        }
    }

    /// The bytes that the polls for the body among `steps` returned, in the
    /// order of the polls.
    pub open spec fn bytes_polled(self, steps: Seq<Step>) -> Seq<u8>
        decreases steps.len(),
    {
        if steps.len() == 0 {
            Seq::empty()
        } else {
            let before = self.after_steps(steps.drop_last());
            let earlier = self.bytes_polled(steps.drop_last());
            match steps.last() {
                Step::PollBody => match before.body_poll() {
                    Ok(bytes) => earlier + bytes,
                    Err(_) => earlier,
                },
                _ => earlier,
            }
        }
    }

    /// The state after the data events `chunks`, delivered in order.
    pub open spec fn after_chunks(self, chunks: Seq<Seq<u8>>) -> Self
        decreases chunks.len(),
    {
        if chunks.len() == 0 {
            self
        } else {
            self.after_chunks(chunks.drop_last()).after_data(chunks.last())
        }
    }
}

/// The bytes of `chunks`, one chunk after the other.
pub open spec fn joined(chunks: Seq<Seq<u8>>) -> Seq<u8>
    decreases chunks.len(),
{
    if chunks.len() == 0 {
        Seq::empty()
    } else {
        joined(chunks.drop_last()) + chunks.last()
    }
}

} // verus!
