//! Laws that relate several operations on a transfer, proved over the model
//! in which the contracts of [`crate::state::TransferState`] are stated.

use crate::model::{
    handed_out, joined, ErrorKind, ReceivedResponse, ResponseMetadata, Step, TransferModel,
};
use vstd::prelude::*;

verus! {

/// The length of a concatenation grows with every chunk.
pub proof fn lemma_joined_grows(chunks: Seq<Seq<u8>>)
    requires
        chunks.len() > 0,
    ensures
        joined(chunks).len() == joined(chunks.drop_last()).len() + chunks.last().len(),
{
}

/// Chunks that together fit under the bound are all accepted: with no error
/// waiting, the buffer afterwards holds what it held before, followed by the
/// chunks in arrival order, and nothing else has changed.
pub proof fn law_fitting_chunks_accumulate(s: TransferModel, chunks: Seq<Seq<u8>>)
    requires
        s.error is None,
        s.limit matches Some(m) ==> s.body.len() + joined(chunks).len() <= m,
    ensures
        s.after_chunks(chunks) == (TransferModel { body: s.body + joined(chunks), ..s }),
        s.after_chunks(chunks).wf(),
    decreases chunks.len(),
{
    if chunks.len() == 0 {
        assert(s.body + joined(chunks) =~= s.body);
    } else {
        lemma_joined_grows(chunks);
        law_fitting_chunks_accumulate(s, chunks.drop_last());
        let before = s.after_chunks(chunks.drop_last());
        assert(!before.would_exceed(chunks.last().len()));
        assert(before.body + chunks.last() =~= s.body + joined(chunks));
    }
}

/// Chunks delivered while the bound is not reached come back, after a
/// completion without error, as one poll for the body: what was buffered
/// before, followed by the chunks in arrival order.
pub proof fn law_body_is_concatenation(s: TransferModel, chunks: Seq<Seq<u8>>)
    requires
        s.error is None,
        s.limit matches Some(m) ==> s.body.len() + joined(chunks).len() <= m,
    ensures
        s.after_chunks(chunks).after_completed(None).body_poll() == Ok::<Seq<u8>, ErrorKind>(
            s.body + joined(chunks),
        ),
{
    law_fitting_chunks_accumulate(s, chunks);
}

/// On a new transfer, chunks that fit under the bound come back after
/// completion as exactly their concatenation.
pub proof fn law_fresh_body_is_concatenation(limit: Option<u64>, chunks: Seq<Seq<u8>>)
    requires
        limit matches Some(m) ==> joined(chunks).len() <= m,
    ensures
        TransferModel::fresh(limit).after_chunks(chunks).after_completed(None).body_poll() == Ok::<
            Seq<u8>,
            ErrorKind,
        >(joined(chunks)),
{
    let s = TransferModel::fresh(limit);
    law_body_is_concatenation(s, chunks);
    assert(s.body + joined(chunks) =~= joined(chunks));
}

/// A chunk that would push the buffer over the bound is dropped whole: the
/// buffer stays as it was. Unless a transport error was already waiting, the
/// next poll of either kind returns `ResponseTooLarge`.
pub proof fn law_oversize_chunk_is_dropped(s: TransferModel, chunk: Seq<u8>)
    requires
        s.wf(),
        s.would_exceed(chunk.len()),
    ensures
        s.after_data(chunk).body == s.body,
        s.after_data(chunk).wf(),
        !(s.error matches Some(ErrorKind::Transport(_))) ==> {
            &&& s.after_data(chunk).response_poll() == Err::<Option<ResponseMetadata>, ErrorKind>(
                ErrorKind::ResponseTooLarge,
            )
            &&& s.after_data(chunk).body_poll() == Err::<Seq<u8>, ErrorKind>(
                ErrorKind::ResponseTooLarge,
            )
        },
{
}

/// The bound is a ceiling: whatever event arrives and whatever is polled,
/// the buffer never holds more than the bound, and the bound stays what it
/// was configured to be.
pub proof fn law_bound_is_a_ceiling(
    s: TransferModel,
    received: ReceivedResponse,
    chunk: Seq<u8>,
    error: Option<ErrorKind>,
)
    requires
        s.wf(),
    ensures
        s.after_headers(received).wf() && s.after_headers(received).limit == s.limit,
        s.after_data(chunk).wf() && s.after_data(chunk).limit == s.limit,
        s.after_completed(error).wf() && s.after_completed(error).limit == s.limit,
        s.after_response_poll().wf() && s.after_response_poll().limit == s.limit,
        s.after_body_poll().wf() && s.after_body_poll().limit == s.limit,
        TransferModel::fresh(s.limit).wf(),
{
}

/// However events and polls follow one another on a new transfer, the
/// buffer never holds more than the configured bound.
pub proof fn law_every_reachable_state_is_bounded(limit: Option<u64>, steps: Seq<Step>)
    ensures
        TransferModel::fresh(limit).after_steps(steps).wf(),
        TransferModel::fresh(limit).after_steps(steps).limit == limit,
    decreases steps.len(),
{
    if steps.len() > 0 {
        law_every_reachable_state_is_bounded(limit, steps.drop_last());
    }
}

/// Once the terminal event has arrived the transfer stays completed,
/// whatever follows.
pub proof fn law_completed_for_good(s: TransferModel, steps: Seq<Step>)
    requires
        s.completed,
    ensures
        s.after_steps(steps).completed,
    decreases steps.len(),
{
    if steps.len() > 0 {
        law_completed_for_good(s, steps.drop_last());
    }
}

/// Whether the terminal event is among `steps`.
pub open spec fn completion_delivered(steps: Seq<Step>) -> bool {
    exists|i: int| 0 <= i < steps.len() && (#[trigger] steps[i]) is Completed
}

/// The completion flag is set exactly when the terminal event was delivered:
/// no other event and no poll sets it.
pub proof fn law_completed_exactly_after_completion(s: TransferModel, steps: Seq<Step>)
    requires
        !s.completed,
    ensures
        s.after_steps(steps).completed <==> completion_delivered(steps),
    decreases steps.len(),
{
    if steps.len() > 0 {
        let earlier = steps.drop_last();
        law_completed_exactly_after_completion(s, earlier);
        if completion_delivered(earlier) {
            let i = choose|i: int| 0 <= i < earlier.len() && (#[trigger] earlier[i]) is Completed;
            assert(steps[i] == earlier[i]);
        }
        if steps.last() is Completed {
            assert(steps[steps.len() - 1] is Completed);
        }
        if completion_delivered(steps) {
            let i = choose|i: int| 0 <= i < steps.len() && (#[trigger] steps[i]) is Completed;
            if i < steps.len() - 1 {
                assert(earlier[i] == steps[i]);
            }
        }
    }
}

/// Every accepted byte is handed out exactly once, in arrival order, however
/// events and polls interleave: what was buffered at the start followed by
/// what was accepted since is what the body polls returned followed by what
/// still waits in the buffer.
pub proof fn law_every_byte_is_handed_out_once(s: TransferModel, steps: Seq<Step>)
    ensures
        s.body + s.bytes_accepted(steps) == s.bytes_polled(steps) + s.after_steps(steps).body,
    decreases steps.len(),
{
    if steps.len() == 0 {
        assert(s.body + Seq::<u8>::empty() =~= Seq::<u8>::empty() + s.body);
    } else {
        let earlier = steps.drop_last();
        law_every_byte_is_handed_out_once(s, earlier);
        let before = s.after_steps(earlier);
        let accepted = s.bytes_accepted(earlier);
        let polled = s.bytes_polled(earlier);
        match steps.last() {
            Step::Data(chunk) => {
                if before.error is None && !before.would_exceed(chunk.len()) {
                    assert(s.body + (accepted + chunk) =~= (s.body + accepted) + chunk);
                    assert(polled + (before.body + chunk) =~= (polled + before.body) + chunk);
                }
            },
            Step::PollBody => {
                if before.error is None {
                    assert((polled + before.body) + Seq::<u8>::empty() =~= polled + before.body);
                }
            },
            _ => {},
        }
    }
}

/// Polls hand out only what data events put in: without a data event among
/// `steps`, the buffer does not grow.
pub proof fn law_only_data_events_fill_the_buffer(s: TransferModel, steps: Seq<Step>)
    requires
        forall|i: int| 0 <= i < steps.len() ==> !(#[trigger] steps[i] is Data),
    ensures
        s.after_steps(steps).body.len() <= s.body.len(),
    decreases steps.len(),
{
    if steps.len() > 0 {
        assert forall|i: int| 0 <= i < steps.drop_last().len() implies !(
        #[trigger] steps.drop_last()[i] is Data) by {
            assert(steps.drop_last()[i] == steps[i]);
        }
        law_only_data_events_fill_the_buffer(s, steps.drop_last());
        assert(!(steps[steps.len() - 1] is Data));
    }
}

/// A headers event with an HTTP response, with no error waiting: the next
/// poll for the response returns its metadata. A response of another kind
/// takes the slot too, and the next poll returns `None`.
pub proof fn law_headers_reach_the_next_poll(s: TransferModel, metadata: ResponseMetadata)
    requires
        s.error is None,
    ensures
        s.after_headers(ReceivedResponse::Http(metadata)).response_poll() == Ok::<
            Option<ResponseMetadata>,
            ErrorKind,
        >(Some(metadata)),
        s.after_headers(ReceivedResponse::Other).response_poll() == Ok::<
            Option<ResponseMetadata>,
            ErrorKind,
        >(None),
{
}

/// Two polls for the response in a row, with no error waiting: the first
/// returns the metadata that the slot held, the second returns `None`.
pub proof fn law_response_drains_once(s: TransferModel)
    requires
        s.error is None,
    ensures
        s.response_poll() == Ok::<Option<ResponseMetadata>, ErrorKind>(handed_out(s.response)),
        s.after_response_poll().response_poll() == Ok::<Option<ResponseMetadata>, ErrorKind>(None),
{
}

/// Two polls for the body in a row, with no error waiting: the first returns
/// the buffered bytes, the second an empty sequence.
pub proof fn law_body_drains_once(s: TransferModel)
    requires
        s.error is None,
    ensures
        s.body_poll() == Ok::<Seq<u8>, ErrorKind>(s.body),
        s.after_body_poll().body_poll() == Ok::<Seq<u8>, ErrorKind>(Seq::empty()),
{
}

/// Data that arrives between two polls for the body, and fits, is what the
/// second poll returns.
pub proof fn law_body_poll_returns_new_data(s: TransferModel, chunk: Seq<u8>)
    requires
        s.error is None,
        !s.after_body_poll().would_exceed(chunk.len()),
    ensures
        s.after_body_poll().after_data(chunk).body_poll() == Ok::<Seq<u8>, ErrorKind>(chunk),
{
    assert(Seq::<u8>::empty() + chunk =~= chunk);
}

/// A completion with an error, on a transfer with no error waiting: the
/// transfer is completed, the next poll of either kind returns that error,
/// and the poll after it returns none.
pub proof fn law_completion_error_surfaces_once(s: TransferModel, e: ErrorKind)
    requires
        s.error is None,
    ensures
        s.after_completed(Some(e)).completed,
        s.after_completed(Some(e)).response_poll() == Err::<Option<ResponseMetadata>, ErrorKind>(e),
        s.after_completed(Some(e)).body_poll() == Err::<Seq<u8>, ErrorKind>(e),
        s.after_completed(Some(e)).after_response_poll().response_poll() is Ok,
        s.after_completed(Some(e)).after_response_poll().body_poll() is Ok,
        s.after_completed(Some(e)).after_body_poll().response_poll() is Ok,
        s.after_completed(Some(e)).after_body_poll().body_poll() is Ok,
{
}

/// A poll that surfaces an error leaves the response and the bytes that were
/// accepted before the error in place for the polls that follow.
pub proof fn law_error_keeps_accepted_data(s: TransferModel)
    requires
        s.error is Some,
    ensures
        s.after_response_poll().response_poll() == Ok::<Option<ResponseMetadata>, ErrorKind>(
            handed_out(s.response),
        ),
        s.after_response_poll().body_poll() == Ok::<Seq<u8>, ErrorKind>(s.body),
        s.after_body_poll().response_poll() == Ok::<Option<ResponseMetadata>, ErrorKind>(
            handed_out(s.response),
        ),
        s.after_body_poll().body_poll() == Ok::<Seq<u8>, ErrorKind>(s.body),
{
}

/// The first captured error wins: while one waits, neither a data event nor
/// the terminal event replaces it.
pub proof fn law_first_error_wins(s: TransferModel, chunk: Seq<u8>, later: Option<ErrorKind>)
    requires
        s.error is Some,
    ensures
        s.after_data(chunk) == s,
        s.after_completed(later).error == s.error,
{
}

/// Completion is permanent: no event and no poll resets the flag.
pub proof fn law_completion_is_permanent(
    s: TransferModel,
    received: ReceivedResponse,
    chunk: Seq<u8>,
    error: Option<ErrorKind>,
)
    requires
        s.completed,
    ensures
        s.after_headers(received).completed,
        s.after_data(chunk).completed,
        s.after_completed(error).completed,
        s.after_response_poll().completed,
        s.after_body_poll().completed,
{
}

} // verus!
