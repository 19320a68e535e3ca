use std::collections::VecDeque;
use vstd::prelude::*;

verus! {

broadcast use vstd::std_specs::vecdeque::group_vec_dequeue_axioms;

/// How many received messages a session keeps.
pub const MAX_MESSAGES: usize = 100;

/// One received publish: its topic, its payload read as text, and the
/// wall-clock time of arrival in milliseconds since the epoch.
#[derive(Debug)]
pub struct Message {
    pub topic: String,
    pub payload: String,
    pub timestamp: u64,
}

impl Message {
    pub fn duplicate(&self) -> (r: Message)
        ensures
            r == *self,
    {
        Message { topic: self.topic.clone(), payload: self.payload.clone(), timestamp: self.timestamp }
    }
}

impl Clone for Message {
    fn clone(&self) -> Message {
        self.duplicate()
    }
}

/// The contents after one arrival: at capacity the oldest message leaves first.
pub open spec fn pushed(s: Seq<Message>, m: Message) -> Seq<Message> {
    if s.len() >= MAX_MESSAGES {
        s.drop_first().push(m)
    } else {
        s.push(m)
    }
}

/// The contents after the given arrivals, in order, into an empty buffer.
pub open spec fn filled(arrivals: Seq<Message>) -> Seq<Message>
    decreases arrivals.len(),
{
    if arrivals.len() == 0 {
        Seq::empty()
    } else {
        pushed(filled(arrivals.drop_last()), arrivals.last())
    }
}

/// The last `MAX_MESSAGES` arrivals, or all of them when there are fewer.
pub open spec fn newest(arrivals: Seq<Message>) -> Seq<Message> {
    if arrivals.len() <= MAX_MESSAGES {
        arrivals
    } else {
        arrivals.subrange(arrivals.len() - MAX_MESSAGES, arrivals.len() as int)
    }
}

/// Fixed-capacity first-in first-out store of received messages.
pub struct MessageBuffer {
    items: VecDeque<Message>,
}

impl View for MessageBuffer {
    type V = Seq<Message>;

    closed spec fn view(&self) -> Seq<Message> {
        self.items@
    }
}

impl MessageBuffer {
    pub closed spec fn wf(&self) -> bool {
        self.items@.len() <= MAX_MESSAGES
    }

    pub fn new() -> (r: MessageBuffer)
        ensures
            r.wf(),
            r@ == Seq::<Message>::empty(),
    {
        MessageBuffer { items: VecDeque::new() }
    }

    pub fn len(&self) -> (r: usize)
        ensures
            r == self@.len(),
    {
        self.items.len()
    }

    /// Appends a message, evicting the oldest one when the buffer is full.
    pub fn push(&mut self, m: Message)
        requires
            old(self).wf(),
        ensures
            final(self).wf(),
            final(self)@ == pushed(old(self)@, m),
    {
        if self.items.len() >= MAX_MESSAGES {
            self.items.pop_front();
        }
        self.items.push_back(m);
        proof {
            if old(self)@.len() >= MAX_MESSAGES {
                assert(old(self)@.drop_first() =~= old(self)@.subrange(1, old(self)@.len() as int));
            }
        }
    }

    pub fn clear(&mut self)
        ensures
            final(self).wf(),
            final(self)@ == Seq::<Message>::empty(),
    {
        self.items.clear();
    }

    /// A copy of the contents, oldest first.
    pub fn to_vec(&self) -> (r: Vec<Message>)
        ensures
            r@ == self@,
    {
        let mut out: Vec<Message> = Vec::new();
        let mut i: usize = 0;
        while i < self.items.len()
            invariant
                i <= self.items@.len(),
                out@ == self.items@.subrange(0, i as int),
            decreases self.items@.len() - i,
        {
            out.push(self.items[i].duplicate());
            i = i + 1;
        }
        assert(self.items@.subrange(0, self.items@.len() as int) =~= self.items@);
        out
    }
}

/// Arrivals fill an empty buffer in arrival order up to its capacity; past it,
/// the buffer holds exactly the newest `MAX_MESSAGES` arrivals, oldest first.
pub proof fn lemma_buffer_keeps_newest(arrivals: Seq<Message>)
    ensures
        filled(arrivals) == newest(arrivals),
        filled(arrivals).len() <= MAX_MESSAGES,
    decreases arrivals.len(),
{
    if arrivals.len() > 0 {
        let prev = arrivals.drop_last();
        lemma_buffer_keeps_newest(prev);
        let n = arrivals.len();
        if n <= MAX_MESSAGES {
            assert(prev.push(arrivals.last()) =~= arrivals);
        } else if n == MAX_MESSAGES + 1 {
            assert(prev.drop_first().push(arrivals.last()) =~= arrivals.subrange(1, n as int));
        } else {
            assert(prev.subrange(prev.len() - MAX_MESSAGES, prev.len() as int).drop_first().push(
                arrivals.last(),
            ) =~= arrivals.subrange(n - MAX_MESSAGES, n as int));
        }
    }
}

} // verus!
