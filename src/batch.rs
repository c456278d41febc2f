use vstd::prelude::*;

verus! {

/// Received count and failure flag after one more message.
pub open spec fn record_step(state: (nat, bool), failed: bool) -> (nat, bool) {
    (state.0 + 1, state.1 || failed)
}

/// Received count and failure flag after the messages `msgs` (each `true`
/// when it reported a failure), starting from a fresh counter.
pub open spec fn state_after(msgs: Seq<bool>) -> (nat, bool)
    decreases msgs.len(),
{
    if msgs.len() == 0 {
        (0, false)
    } else {
        record_step(state_after(msgs.drop_last()), msgs.last())
    }
}

/// Whether a batch expecting `expected` messages stops in state `state`.
pub open spec fn batch_done(expected: nat, state: (nat, bool)) -> bool {
    state.0 >= expected
}

/// The state of one batch's aggregation: how many outcome messages are
/// expected, how many have come, and whether any of them was a failure.
pub struct BatchCounter {
    expected: usize,
    received: usize,
    failure: bool,
}

impl BatchCounter {
    pub closed spec fn expected_spec(&self) -> nat {
        self.expected as nat
    }

    pub closed spec fn state(&self) -> (nat, bool) {
        (self.received as nat, self.failure)
    }

    pub open spec fn done_spec(&self) -> bool {
        batch_done(self.expected_spec(), self.state())
    }

    /// A fresh counter for a batch of `expected` submitted jobs.
    pub fn new(expected: usize) -> (r: BatchCounter)
        ensures
            r.expected_spec() == expected,
            r.state() == state_after(Seq::empty()),
    {
        BatchCounter { expected, received: 0, failure: false }
    }

    /// Whether every expected message has been received; with nothing
    /// expected, true from the start, so the channel is never read.
    pub fn is_done(&self) -> (r: bool)
        ensures
            r == self.done_spec(),
    {
        self.received >= self.expected
    }

    /// Counts one received message; `failed` tells whether it reported a
    /// failure.
    pub fn record(&mut self, failed: bool)
        requires
            !old(self).done_spec(),
        ensures
            final(self).expected_spec() == old(self).expected_spec(),
            final(self).state() == record_step(old(self).state(), failed),
    {
        self.received = self.received + 1;
        self.failure = self.failure || failed;
    }

    pub fn received(&self) -> (r: usize)
        ensures
            r == self.state().0,
    {
        self.received
    }

    /// Whether any received message reported a failure.
    pub fn failed(&self) -> (r: bool)
        ensures
            r == self.state().1,
    {
        self.failure
    }
}

pub proof fn lemma_state_after_count(msgs: Seq<bool>)
    ensures
        state_after(msgs).0 == msgs.len(),
    decreases msgs.len(),
{
    if msgs.len() > 0 {
        lemma_state_after_count(msgs.drop_last());
    }
}

/// A batch of `expected` jobs stops after exactly `expected` messages: not
/// after any shorter prefix of them, and at once when nothing is expected.
pub proof fn lemma_batch_stops_after_expected(expected: nat, msgs: Seq<bool>)
    requires
        msgs.len() == expected,
    ensures
        batch_done(expected, state_after(msgs)),
        forall|k: int| 0 <= k < expected ==> !batch_done(expected, #[trigger] state_after(msgs.take(k))),
        expected == 0 ==> batch_done(expected, state_after(Seq::empty())),
{
    lemma_state_after_count(msgs);
    assert forall|k: int| 0 <= k < expected implies !batch_done(expected, #[trigger] state_after(msgs.take(k))) by {
        lemma_state_after_count(msgs.take(k));
    }
}

/// A batch has failed exactly when one of its messages
/// reported a failure.
pub proof fn lemma_failed_iff_some_message_failed(msgs: Seq<bool>)
    ensures
        state_after(msgs).1 <==> exists|i: int| 0 <= i < msgs.len() && msgs[i],
    decreases msgs.len(),
{
    if msgs.len() > 0 {
        let init = msgs.drop_last();
        lemma_failed_iff_some_message_failed(init);
        if state_after(init).1 {
            let i = choose|i: int| 0 <= i < init.len() && init[i];
            assert(msgs[i]);
        }
        if exists|i: int| 0 <= i < msgs.len() && msgs[i] {
            let i = choose|i: int| 0 <= i < msgs.len() && msgs[i];
            if i < init.len() {
                assert(init[i]);
            }
        }
    }
}

} // verus!
