use vstd::prelude::*;

verus! {

/// The topics of a sequence, as character sequences.
pub open spec fn topics_view(v: Seq<String>) -> Seq<Seq<char>> {
    v.map_values(|t: String| t@)
}

/// Active topic filters in the order they were first subscribed, each once.
pub struct SubscriptionSet {
    topics: Vec<String>,
}

impl View for SubscriptionSet {
    type V = Seq<Seq<char>>;

    closed spec fn view(&self) -> Seq<Seq<char>> {
        topics_view(self.topics@)
    }
}

/// The list after `t` is added: unchanged if present, else `t` at the end.
pub open spec fn added(s: Seq<Seq<char>>, t: Seq<char>) -> Seq<Seq<char>> {
    if s.contains(t) {
        s
    } else {
        s.push(t)
    }
}

/// The list after `t` is removed, the others kept in order.
pub open spec fn removed(s: Seq<Seq<char>>, t: Seq<char>) -> Seq<Seq<char>> {
    s.filter(|x: Seq<char>| x != t)
}

impl SubscriptionSet {
    pub open spec fn wf(&self) -> bool {
        self@.no_duplicates()
    }

    pub fn new() -> (r: SubscriptionSet)
        ensures
            r.wf(),
            r@ == Seq::<Seq<char>>::empty(),
    {
        SubscriptionSet { topics: Vec::new() }
    }

    pub fn contains(&self, topic: &str) -> (r: bool)
        ensures
            r == self@.contains(topic@),
    {
        let target = topic.to_owned();
        let mut i: usize = 0;
        while i < self.topics.len()
            invariant
                i <= self.topics@.len(),
                target@ == topic@,
                forall|j: int| 0 <= j < i ==> self@[j] != topic@,
            decreases self.topics@.len() - i,
        {
            if self.topics[i] == target {
                assert(self@[i as int] == topic@);
                return true;
            }
            i = i + 1;
        }
        false
    }

    /// Records `topic`, unless it is already recorded.
    pub fn add(&mut self, topic: &str)
        requires
            old(self).wf(),
        ensures
            final(self).wf(),
            final(self)@ == added(old(self)@, topic@),
    {
        if !self.contains(topic) {
            self.topics.push(topic.to_owned());
            assert(self@ =~= old(self)@.push(topic@));
        }
    }

    /// Forgets `topic`, keeping the others in order.
    pub fn remove(&mut self, topic: &str)
        requires
            old(self).wf(),
        ensures
            final(self).wf(),
            final(self)@ == removed(old(self)@, topic@),
    {
        let target = topic.to_owned();
        let mut kept: Vec<String> = Vec::new();
        let ghost src = self@;
        let mut i: usize = 0;
        while i < self.topics.len()
            invariant
                i <= self.topics@.len(),
                src == self@,
                src.no_duplicates(),
                target@ == topic@,
                topics_view(kept@) == removed(src.subrange(0, i as int), topic@),
                topics_view(kept@).no_duplicates(),
                forall|k: int|
                    0 <= k < kept@.len() ==> exists|j: int| 0 <= j < i && #[trigger] kept@[k]@ == src[j],
            decreases self.topics@.len() - i,
        {
            proof {
                assert(src.subrange(0, i + 1).drop_last() =~= src.subrange(0, i as int));
                reveal(Seq::filter);
            }
            if !(self.topics[i] == target) {
                let ghost before = kept@;
                kept.push(self.topics[i].clone());
                assert(topics_view(kept@) =~= topics_view(before).push(src[i as int]));
                assert forall|k: int| 0 <= k < kept@.len() implies exists|j: int|
                    0 <= j < i + 1 && #[trigger] kept@[k]@ == src[j] by {
                    if k == before.len() {
                        assert(kept@[k]@ == src[i as int]);
                    } else {
                        assert(kept@[k] == before[k]);
                    }
                }
                assert forall|k: int| 0 <= k < before.len() implies kept@[k]@ != src[i as int] by {
                    assert(kept@[k] == before[k]);
                    let j = choose|j: int| 0 <= j < i && #[trigger] before[k]@ == src[j];
                }
            } else {
                assert(topics_view(kept@) =~= removed(src.subrange(0, i + 1), topic@));
            }
            i = i + 1;
        }
        assert(src.subrange(0, src.len() as int) =~= src);
        self.topics = kept;
    }

    /// A copy of the topics, in subscription order.
    pub fn to_vec(&self) -> (r: Vec<String>)
        ensures
            topics_view(r@) == self@,
    {
        let mut out: Vec<String> = Vec::new();
        let mut i: usize = 0;
        while i < self.topics.len()
            invariant
                i <= self.topics@.len(),
                out@.len() == i,
                forall|k: int| 0 <= k < i ==> #[trigger] out@[k]@ == self.topics@[k]@,
            decreases self.topics@.len() - i,
        {
            out.push(self.topics[i].clone());
            i = i + 1;
        }
        assert(topics_view(out@) =~= self@);
        out
    }

    pub fn clear(&mut self)
        ensures
            final(self).wf(),
            final(self)@ == Seq::<Seq<char>>::empty(),
    {
        self.topics.clear();
        assert(self@ =~= Seq::<Seq<char>>::empty());
    }
}

/// Subscribing to a topic twice leaves it listed once: adding is idempotent,
/// the topic is present afterwards, and no other position holds it.
pub proof fn lemma_subscribe_twice(s: Seq<Seq<char>>, t: Seq<char>)
    requires
        s.no_duplicates(),
    ensures
        added(added(s, t), t) == added(s, t),
        added(s, t).contains(t),
        added(s, t).no_duplicates(),
        forall|i: int, j: int|
            0 <= i < added(s, t).len() && 0 <= j < added(s, t).len() && added(s, t)[i] == t
                && added(s, t)[j] == t ==> i == j,
{
    if !s.contains(t) {
        assert(s.push(t).last() == t);
        assert(s.push(t).contains(t));
        assert forall|i: int, j: int|
            0 <= i < s.push(t).len() && 0 <= j < s.push(t).len() && i != j implies s.push(t)[i]
            != s.push(t)[j] by {
            if i < s.len() && j < s.len() {
                assert(s[i] != s[j]);
            } else if i < s.len() {
                assert(s.push(t)[i] == s[i]);
            } else if j < s.len() {
                assert(s.push(t)[j] == s[j]);
            }
        }
    }
}

} // verus!
