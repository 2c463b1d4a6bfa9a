//! Responses of the send RPCs: one per accepted message, and the batch
//! summary with its failures.
use vstd::prelude::*;
use crate::clock::{Timestamp, now_instant};

verus! {

/// Most messages one batch send accepts.
pub const MAX_BATCH_SEND: usize = 100;

/// What sending a message produced.
#[derive(Debug, Clone)]
pub struct SendMessageOutcome {
    pub message_id: String,
    pub conversation_seq: u64,
    /// The acknowledgement durability code.
    pub durability: i32,
}

/// The answer to one accepted message.
#[derive(Debug, Clone)]
pub struct SendMessageResponse {
    pub success: bool,
    pub server_msg_id: String,
    pub conversation_seq: u64,
    pub sent_at: Timestamp,
    /// The timeline's creation time, in milliseconds.
    pub created_at_ms: i64,
    pub durability: i32,
}

/// A message of a batch that was not sent.
#[derive(Debug, Clone, PartialEq, Eq)]
pub struct FailedMessage {
    pub message_id: String,
    pub code: i32,
    pub error_message: String,
}

/// The answer to a batch send.
#[derive(Debug, Clone)]
pub struct BatchSendMessageResponse {
    pub success_count: i32,
    pub fail_count: i32,
    pub successes: Vec<SendMessageResponse>,
    pub failures: Vec<FailedMessage>,
}

/// The response to a sent message, stamped with the current time: it keeps
/// the server id, the conversation seq and the durability of the outcome.
pub fn send_response_from_outcome(outcome: SendMessageOutcome) -> (r: SendMessageResponse)
    ensures
        r.success,
        r.server_msg_id == outcome.message_id,
        r.conversation_seq == outcome.conversation_seq,
        r.durability == outcome.durability,
        r.created_at_ms == r.sent_at.seconds * 1000 + r.sent_at.nanos / 1_000_000,
{
    let now = now_instant();
    SendMessageResponse {
        success: true,
        server_msg_id: outcome.message_id,
        conversation_seq: outcome.conversation_seq,
        sent_at: now.timestamp,
        created_at_ms: now.millis,
        durability: outcome.durability,
    }
}

/// A batch larger than 100 messages is refused as a whole.
pub fn check_batch_size(count: usize) -> (r: Result<(), &'static str>)
    ensures
        count > MAX_BATCH_SEND ==> (r matches Err(m) && m@ == "batch send supports at most 100 messages"@),
        count <= MAX_BATCH_SEND ==> r is Ok,
{
    if count > MAX_BATCH_SEND {
        Err("batch send supports at most 100 messages")
    } else {
        Ok(())
    }
}

/// The failure recorded for a batch entry without a message: code 400.
pub open spec fn is_missing_message_failure(f: FailedMessage) -> bool {
    f.message_id@.len() == 0 && f.code == 400 && f.error_message@ == "message required"@
}

/// The present entries of a batch, in order, and a failure for each entry
/// without a message (none is silently dropped).
pub fn split_batch<T>(entries: Vec<Option<T>>) -> (r: (Vec<T>, Vec<FailedMessage>))
    ensures
        r.0@ == entries@.filter(|e: Option<T>| e is Some).map_values(|e: Option<T>| e->0),
        r.0@.len() + r.1@.len() == entries@.len(),
        forall|i: int| 0 <= i < r.1@.len() ==> is_missing_message_failure(#[trigger] r.1@[i]),
{
    let ghost all = entries@;
    let ghost f = |e: Option<T>| e is Some;
    let ghost g = |e: Option<T>| e->0;
    let mut present: Vec<T> = Vec::new();
    let mut failures: Vec<FailedMessage> = Vec::new();
    let mut rest = entries;
    let ghost mut k: int = 0;
    assert(all.subrange(0, 0).filter(f) =~= Seq::<Option<T>>::empty()) by {
        reveal(Seq::filter);
    }
    assert(rest@ =~= all.subrange(0, all.len() as int));
    while rest.len() > 0
        invariant
            f == (|e: Option<T>| e is Some),
            g == (|e: Option<T>| e->0),
            0 <= k <= all.len(),
            rest@ == all.subrange(k, all.len() as int),
            present@ == all.subrange(0, k).filter(f).map_values(g),
            present@.len() + failures@.len() == k,
            forall|i: int| 0 <= i < failures@.len() ==> is_missing_message_failure(#[trigger] failures@[i]),
        decreases rest@.len(),
    {
        let e = rest.remove(0);
        let ghost ge = e;
        proof {
            assert(all[k] == e);
            assert(all.subrange(0, k + 1).last() == ge);
            assert(all.subrange(0, k + 1) =~= all.subrange(0, k).push(e));
            reveal(Seq::filter);
            assert(all.subrange(0, k + 1).drop_last() =~= all.subrange(0, k));
            assert(rest@ =~= all.subrange(k + 1, all.len() as int));
            lemma_filter_len(all.subrange(0, k), f);
        }
        if e.is_some() {
            let v = e.unwrap();
            present.push(v);
            proof {
                assert(f(ge));
                assert(all.subrange(0, k + 1).filter(f) == all.subrange(0, k).filter(f).push(ge));
                assert(g(ge) == present@.last());
                assert(present@ =~= all.subrange(0, k + 1).filter(f).map_values(g));
            }
        } else {
            failures.push(
                FailedMessage { message_id: String::new(), code: 400, error_message: String::from_str("message required") },
            );
            proof {
                assert(all.subrange(0, k + 1).filter(f) == all.subrange(0, k).filter(f));
            }
        }
        proof {
            k = k + 1;
        }
    }
    assert(all.subrange(0, k) =~= all);
    (present, failures)
}

proof fn lemma_filter_len<A>(s: Seq<A>, f: spec_fn(A) -> bool)
    ensures
        s.filter(f).len() <= s.len(),
    decreases s.len(),
{
    reveal(Seq::filter);
    if s.len() > 0 {
        lemma_filter_len(s.drop_last(), f);
    }
}

/// The failure of a message the batch could not send: the error's code
/// (1 when it has none) and text.
pub fn failure_of(code: Option<i32>, error_message: String) -> (r: FailedMessage)
    ensures
        r.message_id@.len() == 0,
        r.code == (match code {
            Some(c) => c,
            None => 1,
        }),
        r.error_message == error_message,
{
    FailedMessage {
        message_id: String::new(),
        code: match code {
            Some(c) => c,
            None => 1,
        },
        error_message,
    }
}

/// The outcome or the error (code, text) of one message of a batch.
pub type SendResult = Result<SendMessageOutcome, (Option<i32>, String)>;

/// The outcomes of the messages that were sent, in order.
pub open spec fn sent_outcomes(results: Seq<SendResult>) -> Seq<SendMessageOutcome> {
    results.filter(|x: SendResult| x is Ok).map_values(|x: SendResult| x->Ok_0)
}

/// The errors of the messages that were not sent, in order.
pub open spec fn send_errors(results: Seq<SendResult>) -> Seq<(Option<i32>, String)> {
    results.filter(|x: SendResult| x is Err).map_values(|x: SendResult| x->Err_0)
}

/// The code a failure carries: the error's own, else 1.
pub open spec fn failure_code(code: Option<i32>) -> i32 {
    match code {
        Some(c) => c,
        None => 1,
    }
}

/// `s` answers the sent outcome `o`.
pub open spec fn answers(s: SendMessageResponse, o: SendMessageOutcome) -> bool {
    &&& s.success
    &&& s.server_msg_id == o.message_id
    &&& s.conversation_seq == o.conversation_seq
    &&& s.durability == o.durability
}

/// `f` records the error `e` of a message that was not sent.
pub open spec fn records(f: FailedMessage, e: (Option<i32>, String)) -> bool {
    &&& f.message_id@.len() == 0
    &&& f.code == failure_code(e.0)
    &&& f.error_message == e.1
}

/// The batch response: each sent message's response in order, then each
/// failed one after the entries that had no message.
pub fn batch_response(results: Vec<SendResult>, failures: Vec<FailedMessage>) -> (r:
    BatchSendMessageResponse)
    requires
        results@.len() + failures@.len() <= i32::MAX,
    ensures
        r.success_count == r.successes@.len(),
        r.fail_count == r.failures@.len(),
        r.successes@.len() == sent_outcomes(results@).len(),
        forall|j: int|
            0 <= j < r.successes@.len() ==> answers(
                #[trigger] r.successes@[j],
                sent_outcomes(results@)[j],
            ),
        r.failures@.len() == failures@.len() + send_errors(results@).len(),
        r.failures@.subrange(0, failures@.len() as int) == failures@,
        forall|j: int|
            0 <= j < send_errors(results@).len() ==> records(
                #[trigger] r.failures@[failures@.len() + j],
                send_errors(results@)[j],
            ),
{
    let ghost all = results@;
    let ghost is_ok = |x: SendResult| x is Ok;
    let ghost is_err = |x: SendResult| x is Err;
    let ghost ok_of = |x: SendResult| x->Ok_0;
    let ghost err_of = |x: SendResult| x->Err_0;
    let mut successes: Vec<SendMessageResponse> = Vec::new();
    let mut all_failures = failures;
    let ghost initial = all_failures@;
    let mut rest = results;
    let ghost mut k: int = 0;
    assert(all.subrange(0, 0).filter(is_ok) =~= Seq::<SendResult>::empty()) by {
        reveal(Seq::filter);
    }
    assert(all.subrange(0, 0).filter(is_err) =~= Seq::<SendResult>::empty()) by {
        reveal(Seq::filter);
    }
    assert(rest@ =~= all.subrange(0, all.len() as int));
    while rest.len() > 0
        invariant
            is_ok == (|x: SendResult| x is Ok),
            is_err == (|x: SendResult| x is Err),
            ok_of == (|x: SendResult| x->Ok_0),
            err_of == (|x: SendResult| x->Err_0),
            0 <= k <= all.len(),
            all.len() + initial.len() <= i32::MAX,
            rest@ == all.subrange(k, all.len() as int),
            successes@.len() == all.subrange(0, k).filter(is_ok).len(),
            forall|j: int|
                0 <= j < successes@.len() ==> answers(
                    #[trigger] successes@[j],
                    all.subrange(0, k).filter(is_ok).map_values(ok_of)[j],
                ),
            all_failures@.len() == initial.len() + all.subrange(0, k).filter(is_err).len(),
            all_failures@.subrange(0, initial.len() as int) == initial,
            forall|j: int|
                0 <= j < all.subrange(0, k).filter(is_err).len() ==> records(
                    #[trigger] all_failures@[initial.len() + j],
                    all.subrange(0, k).filter(is_err).map_values(err_of)[j],
                ),
            successes@.len() + all_failures@.len() == initial.len() + k,
        decreases rest@.len(),
    {
        let item = rest.remove(0);
        let ghost gi = item;
        proof {
            assert(all[k] == gi);
            assert(all.subrange(0, k + 1) =~= all.subrange(0, k).push(gi));
            assert(all.subrange(0, k + 1).drop_last() =~= all.subrange(0, k));
            assert(all.subrange(0, k + 1).last() == gi);
            reveal(Seq::filter);
            assert(rest@ =~= all.subrange(k + 1, all.len() as int));
            lemma_filter_len(all.subrange(0, k), is_ok);
            lemma_filter_len(all.subrange(0, k), is_err);
        }
        match item {
            Ok(outcome) => {
                let ghost before = successes@;
                let resp = send_response_from_outcome(outcome);
                successes.push(resp);
                proof {
                    assert(is_ok(gi));
                    assert(!is_err(gi));
                    assert(all.subrange(0, k + 1).filter(is_ok) == all.subrange(0, k).filter(
                        is_ok,
                    ).push(gi));
                    assert(all.subrange(0, k + 1).filter(is_err) == all.subrange(0, k).filter(
                        is_err,
                    ));
                    assert forall|j: int| 0 <= j < successes@.len() implies answers(
                        #[trigger] successes@[j],
                        all.subrange(0, k + 1).filter(is_ok).map_values(ok_of)[j],
                    ) by {
                        if j < before.len() {
                            assert(successes@[j] == before[j]);
                        }
                    }
                }
            },
            Err(e) => {
                let ghost before = all_failures@;
                let (code, message) = e;
                all_failures.push(failure_of(code, message));
                proof {
                    assert(is_err(gi));
                    assert(!is_ok(gi));
                    assert(all.subrange(0, k + 1).filter(is_err) == all.subrange(0, k).filter(
                        is_err,
                    ).push(gi));
                    assert(all.subrange(0, k + 1).filter(is_ok) == all.subrange(0, k).filter(
                        is_ok,
                    ));
                    assert(all_failures@.subrange(0, initial.len() as int) =~= before.subrange(
                        0,
                        initial.len() as int,
                    ));
                }
            },
        }
        proof {
            k = k + 1;
        }
    }
    assert(all.subrange(0, k) =~= all);
    let success_count = successes.len() as i32;
    let fail_count = all_failures.len() as i32;
    BatchSendMessageResponse { success_count, fail_count, successes, failures: all_failures }
}

} // verus!
