//! A queue that hands messages out by their time.
use crate::message::{Message, MessageView};
use vstd::prelude::*;

verus! {

/// Messages that wait to be written, earliest first. Messages of the same time leave in the order
/// in which they came.
pub struct SortQueue {
    // Latest first, so that the next message to leave is the last one here.
    items: Vec<Message>,
}

/// Whether the messages stand in the order of their times.
pub open spec fn in_time_order(messages: Seq<MessageView>) -> bool {
    forall|i: int, j: int|
        0 <= i <= j < messages.len() ==> (#[trigger] messages[i]).ts <= (#[trigger] messages[j]).ts
}

/// Where a message of the time `ts` goes among messages in the order of their times: behind all
/// that are not later.
pub open spec fn place(messages: Seq<MessageView>, ts: u64) -> int
    decreases messages.len(),
{
    if messages.len() == 0 || messages.last().ts <= ts {
        messages.len() as int
    } else {
        place(messages.drop_last(), ts)
    }
}

/// The messages with one more in its place.
pub open spec fn inserted(messages: Seq<MessageView>, message: MessageView) -> Seq<MessageView> {
    messages.insert(place(messages, message.ts), message)
}

/// A queue to which messages came in the given order.
pub open spec fn queued(arrivals: Seq<MessageView>) -> Seq<MessageView>
    decreases arrivals.len(),
{
    if arrivals.len() == 0 {
        Seq::empty()
    } else {
        inserted(queued(arrivals.drop_last()), arrivals.last())
    }
}

/// Having the time `ts`.
pub open spec fn at_time(ts: u64) -> spec_fn(MessageView) -> bool {
    |message: MessageView| message.ts == ts
}

/// The messages of one time, in the order in which they stand.
pub open spec fn of_time(messages: Seq<MessageView>, ts: u64) -> Seq<MessageView> {
    messages.filter(at_time(ts))
}

/// The views of a sequence of messages.
pub open spec fn message_views(messages: Seq<Message>) -> Seq<MessageView> {
    Seq::new(messages.len(), |i: int| messages[i]@)
}

impl View for SortQueue {
    type V = Seq<MessageView>;

    closed spec fn view(&self) -> Seq<MessageView> {
        Seq::new(self.items@.len(), |i: int| self.items@[self.items@.len() - 1 - i]@)
    }
}

impl SortQueue {
    /// Whether the queue is in order.
    pub open spec fn wf(&self) -> bool {
        in_time_order(self@)
    }

    /// A queue without messages.
    pub fn new() -> (queue: SortQueue)
        ensures
            queue.wf(),
            queue@ == Seq::<MessageView>::empty(),
    {
        SortQueue { items: Vec::new() }
    }

    /// Puts a message in its place.
    pub fn push(&mut self, message: Message)
        requires
            old(self).wf(),
        ensures
            final(self).wf(),
            final(self)@ == inserted(old(self)@, message@),
    {
        let ghost before = self@;
        let mut low: usize = 0;
        let mut high: usize = self.items.len();
        while low < high
            invariant
                self@ == before,
                in_time_order(before),
                low <= high <= self.items.len(),
                forall|i: int| 0 <= i < low ==> (#[trigger] self.items@[i]).ts > message.ts,
                forall|i: int|
                    high <= i < self.items.len() ==> (#[trigger] self.items@[i]).ts <= message.ts,
            decreases high - low,
        {
            let middle: usize = low + (high - low) / 2;
            let ghost n = self.items@.len();
            if self.items[middle].ts > message.ts {
                proof {
                    assert forall|i: int| 0 <= i < middle + 1 implies (
                    #[trigger] self.items@[i]).ts > message.ts by {
                        assert(before[n - 1 - middle].ts <= before[n - 1 - i].ts);
                    }
                }
                low = middle + 1;
            } else {
                proof {
                    assert forall|i: int| middle <= i < n implies (#[trigger] self.items@[i]).ts
                        <= message.ts by {
                        assert(before[n - 1 - i].ts <= before[n - 1 - middle].ts);
                    }
                }
                high = middle;
            }
        }
        proof {
            let n = self.items@.len();
            let at = n - low;
            assert forall|i: int| 0 <= i < at implies (#[trigger] before[i]).ts <= message.ts by {
                assert(before[i] == self.items@[n - 1 - i]@);
            }
            assert forall|i: int| at <= i < n implies (#[trigger] before[i]).ts > message.ts by {
                assert(before[i] == self.items@[n - 1 - i]@);
            }
            lemma_place(before, message.ts, at);
            law_insertion_keeps_order(before, message@);
        }
        self.items.insert(low, message);
        proof {
            assert(self@ =~= inserted(before, message@));
        }
    }

    /// Takes out the earliest message, of several the one that came first.
    pub fn pop(&mut self) -> (message: Option<Message>)
        requires
            old(self).wf(),
        ensures
            final(self).wf(),
            match message {
                Some(first) => {
                    &&& old(self)@.len() > 0
                    &&& first@ == old(self)@[0]
                    &&& final(self)@ == old(self)@.drop_first()
                },
                None => old(self)@.len() == 0 && final(self)@ == old(self)@,
            },
    {
        let ghost before = self@;
        let message = self.items.pop();
        proof {
            if message is Some {
                assert(self@ =~= before.drop_first());
            }
        }
        message
    }

    /// Takes out all messages, in order.
    pub fn drain(&mut self) -> (messages: Vec<Message>)
        requires
            old(self).wf(),
        ensures
            final(self).wf(),
            final(self)@ == Seq::<MessageView>::empty(),
            message_views(messages@) == old(self)@,
    {
        let ghost before = self@;
        let mut messages: Vec<Message> = Vec::new();
        loop
            invariant
                self.wf(),
                before == message_views(messages@) + self@,
            ensures
                self.wf(),
                self@.len() == 0,
                before == message_views(messages@) + self@,
            decreases self@.len(),
        {
            let ghost rest = self@;
            let ghost taken = messages@;
            match self.pop() {
                Some(message) => {
                    messages.push(message);
                    proof {
                        assert(message_views(messages@) =~= message_views(taken).push(rest[0]));
                        assert(message_views(messages@) + self@ =~= message_views(taken) + rest);
                    }
                },
                None => {
                    break ;
                },
            }
        }
        proof {
            assert(self@ =~= Seq::<MessageView>::empty());
            assert(message_views(messages@) =~= before);
        }
        messages
    }
}

/// The place of a message is the only one with nothing later before it and nothing else behind.
proof fn lemma_place(messages: Seq<MessageView>, ts: u64, at: int)
    requires
        0 <= at <= messages.len(),
        forall|i: int| 0 <= i < at ==> (#[trigger] messages[i]).ts <= ts,
        forall|i: int| at <= i < messages.len() ==> (#[trigger] messages[i]).ts > ts,
    ensures
        place(messages, ts) == at,
    decreases messages.len(),
{
    if messages.len() > 0 && messages.last().ts > ts {
        let shorter = messages.drop_last();
        assert forall|i: int| 0 <= i < at implies (#[trigger] shorter[i]).ts <= ts by {
            assert(shorter[i] == messages[i]);
        }
        assert forall|i: int| at <= i < shorter.len() implies (#[trigger] shorter[i]).ts > ts by {
            assert(shorter[i] == messages[i]);
        }
        lemma_place(shorter, ts, at);
    }
}

/// Among messages in order, those before the place of a message are not later, all others are.
proof fn lemma_place_bounds(messages: Seq<MessageView>, ts: u64)
    requires
        in_time_order(messages),
    ensures
        0 <= place(messages, ts) <= messages.len(),
        forall|i: int| 0 <= i < place(messages, ts) ==> (#[trigger] messages[i]).ts <= ts,
        forall|i: int| place(messages, ts) <= i < messages.len() ==> (#[trigger] messages[i]).ts > ts,
    decreases messages.len(),
{
    if messages.len() == 0 {
    } else if messages.last().ts <= ts {
        assert forall|i: int| 0 <= i < messages.len() implies (#[trigger] messages[i]).ts <= ts by {
            assert(messages[i].ts <= messages[messages.len() - 1].ts);
        }
    } else {
        let shorter = messages.drop_last();
        assert(in_time_order(shorter)) by {
            assert forall|i: int, j: int| 0 <= i <= j < shorter.len() implies (
            #[trigger] shorter[i]).ts <= (#[trigger] shorter[j]).ts by {
                assert(messages[i].ts <= messages[j].ts);
            }
        }
        lemma_place_bounds(shorter, ts);
        assert forall|i: int| 0 <= i < place(messages, ts) implies (#[trigger] messages[i]).ts
            <= ts by {
            assert(shorter[i].ts <= ts);
        }
        assert forall|i: int| place(messages, ts) <= i < messages.len() implies (
        #[trigger] messages[i]).ts > ts by {
            if i < shorter.len() {
                assert(shorter[i].ts > ts);
            }
        }
    }
}

/// A message put in its place leaves the others in order.
pub proof fn law_insertion_keeps_order(messages: Seq<MessageView>, message: MessageView)
    requires
        in_time_order(messages),
    ensures
        in_time_order(inserted(messages, message)),
{
    lemma_place_bounds(messages, message.ts);
    let at = place(messages, message.ts);
    let longer = inserted(messages, message);
    assert forall|i: int, j: int| 0 <= i <= j < longer.len() implies (#[trigger] longer[i]).ts <= (
    #[trigger] longer[j]).ts by {
        let a = if i < at { i } else { i - 1 };
        let b = if j < at { j } else { j - 1 };
        if i != at {
            assert(longer[i] == messages[a]);
        }
        if j != at {
            assert(longer[j] == messages[b]);
        }
        if i != at && j != at {
            assert(messages[a].ts <= messages[b].ts);
        }
    }
}

/// The messages around the place of a message.
proof fn lemma_inserted_parts(messages: Seq<MessageView>, message: MessageView)
    requires
        in_time_order(messages),
    ensures
        ({
            let at = place(messages, message.ts);
            &&& messages == messages.take(at) + messages.skip(at)
            &&& inserted(messages, message) == messages.take(at).push(message) + messages.skip(at)
        }),
{
    lemma_place_bounds(messages, message.ts);
}

/// A message put in its place is added to the others, of which none goes.
pub proof fn law_insertion_adds_one(messages: Seq<MessageView>, message: MessageView)
    requires
        in_time_order(messages),
    ensures
        inserted(messages, message).to_multiset() == messages.to_multiset().insert(message),
{
    let at = place(messages, message.ts);
    let front = messages.take(at);
    let back = messages.skip(at);
    lemma_inserted_parts(messages, message);
    vstd::seq_lib::lemma_multiset_commutative(front, back);
    vstd::seq_lib::lemma_multiset_commutative(front.push(message), back);
    front.to_multiset_ensures();
    assert(front.push(message).to_multiset() == front.to_multiset().insert(message));
    assert(front.to_multiset().insert(message).add(back.to_multiset()) =~= front.to_multiset().add(
        back.to_multiset(),
    ).insert(message));
}

proof fn lemma_pushed_of_time(messages: Seq<MessageView>, message: MessageView, ts: u64)
    ensures
        of_time(messages.push(message), ts) == if message.ts == ts {
            of_time(messages, ts).push(message)
        } else {
            of_time(messages, ts)
        },
{
    reveal(Seq::filter);
    assert(messages.push(message).drop_last() == messages);
}

proof fn lemma_inserted_of_time(messages: Seq<MessageView>, message: MessageView, ts: u64)
    requires
        in_time_order(messages),
    ensures
        of_time(inserted(messages, message), ts) == of_time(messages.push(message), ts),
{
    let at = place(messages, message.ts);
    let front = messages.take(at);
    let back = messages.skip(at);
    lemma_inserted_parts(messages, message);
    lemma_place_bounds(messages, message.ts);
    Seq::filter_distributes_over_add(front, back, at_time(ts));
    Seq::filter_distributes_over_add(front.push(message), back, at_time(ts));
    lemma_pushed_of_time(front, message, ts);
    lemma_pushed_of_time(messages, message, ts);
    if message.ts == ts {
        assert forall|i: int| 0 <= i < back.len() implies !at_time(ts)(#[trigger] back[i]) by {
            assert(back[i] == messages[at + i]);
        }
        back.lemma_all_neg_filter_empty(at_time(ts));
        assert(of_time(back, ts) == Seq::<MessageView>::empty());
    }
}

/// A queue hands out exactly what came, in the order of the times; messages of the same time
/// leave in the order in which they came.
pub proof fn law_queue_sorts_stably(arrivals: Seq<MessageView>)
    ensures
        in_time_order(queued(arrivals)),
        queued(arrivals).to_multiset() == arrivals.to_multiset(),
        forall|ts: u64| #[trigger] of_time(queued(arrivals), ts) == of_time(arrivals, ts),
    decreases arrivals.len(),
{
    if arrivals.len() == 0 {
        assert(queued(arrivals) == arrivals);
    } else {
        let earlier = arrivals.drop_last();
        let last = arrivals.last();
        law_queue_sorts_stably(earlier);
        law_insertion_keeps_order(queued(earlier), last);
        law_insertion_adds_one(queued(earlier), last);
        assert(arrivals == earlier.push(last));
        earlier.to_multiset_ensures();
        assert forall|ts: u64| #[trigger] of_time(queued(arrivals), ts) == of_time(arrivals, ts) by {
            lemma_inserted_of_time(queued(earlier), last, ts);
            lemma_pushed_of_time(queued(earlier), last, ts);
            lemma_pushed_of_time(earlier, last, ts);
            assert(of_time(queued(earlier), ts) == of_time(earlier, ts));
        }
    }
}

/// What the words of the queue mean: messages are in order if no later one stands before an
/// earlier one, the messages of a time are those that have it, and messages are seen each in its
/// place.
pub proof fn law_order_is_that_of_the_times(messages: Seq<MessageView>, held: Seq<Message>)
    ensures
        in_time_order(messages) <==> forall|i: int, j: int|
            0 <= i <= j < messages.len() ==> (#[trigger] messages[i]).ts <= (
            #[trigger] messages[j]).ts,
        forall|ts: u64, message: MessageView| #[trigger]
            at_time(ts)(message) <==> message.ts == ts,
        forall|ts: u64| #[trigger] of_time(messages, ts) == messages.filter(at_time(ts)),
        message_views(held).len() == held.len(),
        forall|i: int| 0 <= i < held.len() ==> #[trigger] message_views(held)[i] == held[i]@,
{
}

/// A message goes behind all that are not later and before all that are: the others keep their
/// order around it.
pub proof fn law_insertion_is_behind_equals(messages: Seq<MessageView>, message: MessageView)
    requires
        in_time_order(messages),
    ensures
        exists|at: int|
            #![trigger messages.take(at)]
            0 <= at <= messages.len() && inserted(messages, message) == messages.take(at).push(
                message,
            ) + messages.skip(at) && (forall|i: int|
                0 <= i < at ==> (#[trigger] messages[i]).ts <= message.ts) && (forall|i: int|
                at <= i < messages.len() ==> (#[trigger] messages[i]).ts > message.ts),
{
    let at = place(messages, message.ts);
    lemma_place_bounds(messages, message.ts);
    lemma_inserted_parts(messages, message);
    assert(messages.take(at) == messages.take(at));
}

/// A queue is empty before anything comes, and each message that comes is put in its place.
pub proof fn law_queue_takes_each_arrival(arrivals: Seq<MessageView>, message: MessageView)
    ensures
        queued(Seq::empty()) == Seq::<MessageView>::empty(),
        queued(arrivals.push(message)) == inserted(queued(arrivals), message),
{
    assert(arrivals.push(message).drop_last() == arrivals);
}

} // verus!
