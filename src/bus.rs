//! The publish/subscribe relay between the connection and its consumers.
use vstd::prelude::*;
use vstd::string::*;
use crate::protocol::copy_strings;

verus! {

/// One inbox per subscriber. A published frame is appended to every inbox;
/// a subscriber takes what arrived since its last take.
pub struct EventBus {
    inboxes: Vec<Vec<String>>,
}

/// Every inbox with one more frame at its end.
pub open spec fn published(b: Seq<Seq<Seq<char>>>, m: Seq<char>) -> Seq<Seq<Seq<char>>> {
    Seq::new(b.len(), |i: int| b[i].push(m))
}

/// The inboxes after publishing a sequence of frames, first to last.
pub open spec fn published_all(b: Seq<Seq<Seq<char>>>, ms: Seq<Seq<char>>) -> Seq<Seq<Seq<char>>>
    decreases ms.len(),
{
    if ms.len() == 0 {
        b
    } else {
        published(published_all(b, ms.drop_last()), ms.last())
    }
}

impl View for EventBus {
    type V = Seq<Seq<Seq<char>>>;

    closed spec fn view(&self) -> Seq<Seq<Seq<char>>> {
        Seq::new(self.inboxes@.len(), |i: int| self.inboxes@[i].deep_view())
    }
}

impl EventBus {
    /// A bus with no subscriber.
    pub fn new() -> (r: EventBus)
        ensures
            r@ == Seq::<Seq<Seq<char>>>::empty(),
    {
        let r = EventBus { inboxes: Vec::new() };
        assert(r@ =~= Seq::<Seq<Seq<char>>>::empty());
        r
    }

    /// The number of subscribers.
    pub fn subscribers(&self) -> (r: usize)
        ensures
            r == self@.len(),
    {
        self.inboxes.len()
    }

    /// Adds a subscriber with an empty inbox: it receives only what is
    /// published from now on. Returns its handle.
    pub fn subscribe(&mut self) -> (id: usize)
        ensures
            id == old(self)@.len(),
            final(self)@ == old(self)@.push(Seq::empty()),
    {
        let id = self.inboxes.len();
        self.inboxes.push(Vec::new());
        assert(self.inboxes@[id as int].deep_view() =~= Seq::<Seq<char>>::empty());
        assert(self@ =~= old(self)@.push(Seq::empty()));
        id
    }

    /// Appends a frame, verbatim, to the inbox of every current subscriber.
    pub fn publish(&mut self, msg: &str)
        ensures
            final(self)@ == published(old(self)@, msg@),
    {
        let mut next: Vec<Vec<String>> = Vec::new();
        let mut i: usize = 0;
        while i < self.inboxes.len()
            invariant
                i <= self.inboxes@.len(),
                self@ == old(self)@,
                next@.len() == i,
                forall|j: int| 0 <= j < i ==> #[trigger] next@[j].deep_view() == self@[j].push(msg@),
            decreases self.inboxes.len() - i,
        {
            let mut b = copy_strings(&self.inboxes[i]);
            b.push(String::from_str(msg));
            assert(b.deep_view() =~= self@[i as int].push(msg@));
            next.push(b);
            i = i + 1;
        }
        self.inboxes = next;
        assert(self@ =~= published(old(self)@, msg@));
    }

    /// Hands out the frames that reached a subscriber since its last take,
    /// in the order they were published, and empties its inbox.
    pub fn take(&mut self, id: usize) -> (r: Vec<String>)
        requires
            id < old(self)@.len(),
        ensures
            r.deep_view() == old(self)@[id as int],
            final(self)@ == old(self)@.update(id as int, Seq::empty()),
    {
        let r = self.inboxes.remove(id);
        self.inboxes.insert(id, Vec::new());
        assert(self.inboxes@[id as int].deep_view() =~= Seq::<Seq<char>>::empty());
        assert(self@ =~= old(self)@.update(id as int, Seq::empty()));
        r
    }
}

/// Frames published one after another reach every subscriber in the order
/// they were published, after what it had not yet taken.
pub proof fn lemma_fifo(b: Seq<Seq<Seq<char>>>, ms: Seq<Seq<char>>)
    ensures
        published_all(b, ms).len() == b.len(),
        forall|i: int| 0 <= i < b.len() ==> #[trigger] published_all(b, ms)[i] == b[i] + ms,
    decreases ms.len(),
{
    if ms.len() > 0 {
        lemma_fifo(b, ms.drop_last());
        assert forall|i: int| 0 <= i < b.len() implies #[trigger] published_all(b, ms)[i] == b[i] + ms by {
            assert(b[i] + ms =~= (b[i] + ms.drop_last()).push(ms.last()));
        }
    } else {
        assert forall|i: int| 0 <= i < b.len() implies #[trigger] published_all(b, ms)[i] == b[i] + ms by {
            assert(b[i] + ms =~= b[i]);
        }
    }
}

} // verus!
