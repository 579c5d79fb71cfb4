//! The connection service: the lifecycle of the one duplex stream, its
//! bounded outbound queue, and the forwarding of inbound frames to the bus.
use vstd::prelude::*;
use vstd::string::*;
use crate::bus::{published, EventBus};
use crate::protocol::{encode, envelope_text, Envelope, EnvelopeModel};

verus! {

/// `Connecting -> Open -> (Closing ->) Closed`; `Errored` on a transport
/// failure while connecting or open.
#[derive(Clone, Copy, Debug, PartialEq, Eq, Structural)]
pub enum ConnState {
    Connecting,
    Open,
    Closing,
    Closed,
    Errored,
}

#[derive(Clone, Copy, Debug, PartialEq, Eq, Structural)]
pub enum ConnectionError {
    /// The transport could not be opened.
    Unreachable,
}

#[derive(Clone, Copy, Debug, PartialEq, Eq, Structural)]
pub enum SendError {
    /// The connection is not open.
    Closed,
    /// The outbound queue holds as many frames as it was made for.
    Full,
}

pub struct Connection {
    state: ConnState,
    url: String,
    queue: Vec<String>,
    capacity: usize,
}

pub struct ConnModel {
    pub state: ConnState,
    pub url: Seq<char>,
    /// Frames handed to `send` and not yet transmitted, oldest first.
    pub queue: Seq<Seq<char>>,
    pub capacity: nat,
}

impl View for Connection {
    type V = ConnModel;

    closed spec fn view(&self) -> ConnModel {
        ConnModel {
            state: self.state,
            url: self.url@,
            queue: self.queue.deep_view(),
            capacity: self.capacity as nat,
        }
    }
}

impl Connection {
    /// Only an open connection holds frames to transmit, never more than
    /// its capacity.
    pub closed spec fn wf(&self) -> bool {
        &&& self.queue@.len() <= self.capacity
        &&& self.state != ConnState::Open ==> self.queue@.len() == 0
    }

    /// Starts connecting to `url`, with room for `capacity` outbound frames.
    pub fn connect(url: &str, capacity: usize) -> (r: Connection)
        ensures
            r.wf(),
            r@.state == ConnState::Connecting,
            r@.url == url@,
            r@.queue == Seq::<Seq<char>>::empty(),
            r@.capacity == capacity,
    {
        let r = Connection { state: ConnState::Connecting, url: String::from_str(url), queue: Vec::new(), capacity };
        assert(r@.queue =~= Seq::<Seq<char>>::empty());
        r
    }

    pub fn state(&self) -> (r: ConnState)
        ensures
            r == self@.state,
    {
        self.state
    }

    pub fn url(&self) -> (r: &str)
        ensures
            r@ == self@.url,
    {
        self.url.as_str()
    }

    /// The number of frames waiting to be transmitted.
    pub fn pending(&self) -> (r: usize)
        ensures
            r == self@.queue.len(),
    {
        self.queue.len()
    }

    /// Queues a frame for transmission, after those already queued. Never
    /// blocks: a connection that is not open refuses it, as does a full queue.
    pub fn send(&mut self, frame: &str) -> (r: Result<(), SendError>)
        requires
            old(self).wf(),
        ensures
            final(self).wf(),
            old(self)@.state != ConnState::Open ==> r == Err::<(), SendError>(SendError::Closed),
            old(self)@.state == ConnState::Open && old(self)@.queue.len() >= old(self)@.capacity
                ==> r == Err::<(), SendError>(SendError::Full),
            r is Ok <==> old(self)@.state == ConnState::Open && old(self)@.queue.len() < old(self)@.capacity,
            r is Ok ==> final(self)@ == (ConnModel { queue: old(self)@.queue.push(frame@), ..old(self)@ }),
            r is Err ==> final(self)@ == old(self)@,
    {
        if self.state != ConnState::Open {
            return Err(SendError::Closed);
        }
        if self.queue.len() >= self.capacity {
            return Err(SendError::Full);
        }
        self.queue.push(String::from_str(frame));
        assert(self.queue.deep_view() =~= old(self).queue.deep_view().push(frame@));
        Ok(())
    }

    /// The transport opened: the connection becomes usable and its first
    /// frame is the `Register` envelope that carries `username`. Failure to
    /// queue that frame is reported and leaves the connection open. An open
    /// event in any state but `Connecting` changes nothing.
    pub fn on_open(&mut self, username: &str) -> (r: Result<(), SendError>)
        requires
            old(self).wf(),
        ensures
            final(self).wf(),
            old(self)@.state != ConnState::Connecting ==> r == Err::<(), SendError>(SendError::Closed)
                && final(self)@ == old(self)@,
            old(self)@.state == ConnState::Connecting ==> final(self)@.state == ConnState::Open
                && final(self)@.url == old(self)@.url && final(self)@.capacity == old(self)@.capacity,
            old(self)@.state == ConnState::Connecting && old(self)@.capacity > 0 ==> r is Ok
                && final(self)@.queue == seq![envelope_text(EnvelopeModel::Register(username@))],
            old(self)@.state == ConnState::Connecting && old(self)@.capacity == 0 ==> r
                == Err::<(), SendError>(SendError::Full) && final(self)@.queue.len() == 0,
    {
        if self.state != ConnState::Connecting {
            return Err(SendError::Closed);
        }
        self.state = ConnState::Open;
        let frame = encode(&Envelope::Register(String::from_str(username)));
        let r = self.send(frame.as_str());
        assert(old(self)@.queue.push(frame@) =~= seq![frame@]);
        r
    }

    /// The transport failed. While connecting this is the one error that is
    /// surfaced; an open or closing connection drops its queue. A closed or
    /// errored connection is left as it is.
    pub fn on_error(&mut self) -> (r: Option<ConnectionError>)
        requires
            old(self).wf(),
        ensures
            final(self).wf(),
            r == (if old(self)@.state == ConnState::Connecting {
                Some(ConnectionError::Unreachable)
            } else {
                None::<ConnectionError>
            }),
            old(self)@.state == ConnState::Closed || old(self)@.state == ConnState::Errored
                ==> final(self)@ == old(self)@,
            !(old(self)@.state == ConnState::Closed || old(self)@.state == ConnState::Errored)
                ==> final(self)@ == (ConnModel {
                    state: ConnState::Errored,
                    queue: Seq::<Seq<char>>::empty(),
                    ..old(self)@
                }),
    {
        match self.state {
            ConnState::Closed | ConnState::Errored => None,
            s => {
                self.state = ConnState::Errored;
                self.queue = Vec::new();
                assert(self@.queue =~= Seq::<Seq<char>>::empty());
                if s == ConnState::Connecting {
                    Some(ConnectionError::Unreachable)
                } else {
                    None
                }
            },
        }
    }

    /// Asks to close: a connecting or open connection starts closing and
    /// discards the frames it had not transmitted; from then on `send`
    /// refuses. Otherwise nothing changes.
    pub fn close(&mut self)
        requires
            old(self).wf(),
        ensures
            final(self).wf(),
            old(self)@.state == ConnState::Connecting || old(self)@.state == ConnState::Open
                ==> final(self)@ == (ConnModel {
                    state: ConnState::Closing,
                    queue: Seq::<Seq<char>>::empty(),
                    ..old(self)@
                }),
            !(old(self)@.state == ConnState::Connecting || old(self)@.state == ConnState::Open)
                ==> final(self)@ == old(self)@,
    {
        if self.state == ConnState::Connecting || self.state == ConnState::Open {
            self.state = ConnState::Closing;
            self.queue = Vec::new();
            assert(self@.queue =~= Seq::<Seq<char>>::empty());
        }
    }

    /// The transport closed, by either side: the connection is closed and
    /// holds nothing. An errored connection stays errored.
    pub fn on_closed(&mut self)
        requires
            old(self).wf(),
        ensures
            final(self).wf(),
            old(self)@.state == ConnState::Errored ==> final(self)@ == old(self)@,
            old(self)@.state != ConnState::Errored ==> final(self)@ == (ConnModel {
                state: ConnState::Closed,
                queue: Seq::<Seq<char>>::empty(),
                ..old(self)@
            }),
    {
        if self.state != ConnState::Errored {
            self.state = ConnState::Closed;
            self.queue = Vec::new();
            assert(self@.queue =~= Seq::<Seq<char>>::empty());
        }
    }

    /// Takes the oldest queued frame for transmission.
    pub fn next_frame(&mut self) -> (r: Option<String>)
        requires
            old(self).wf(),
        ensures
            final(self).wf(),
            old(self)@.queue.len() == 0 ==> r is None && final(self)@ == old(self)@,
            old(self)@.queue.len() > 0 ==> r is Some && r.unwrap()@ == old(self)@.queue[0]
                && final(self)@ == (ConnModel { queue: old(self)@.queue.drop_first(), ..old(self)@ }),
    {
        if self.queue.len() == 0 {
            return None;
        }
        let f = self.queue.remove(0);
        assert(self.queue.deep_view() =~= old(self)@.queue.drop_first());
        Some(f)
    }

    /// A frame arrived from the remote: an open or closing connection
    /// publishes it verbatim on the bus, in arrival order. Returns whether it
    /// was forwarded.
    pub fn deliver(&self, frame: &str, bus: &mut EventBus) -> (r: bool)
        ensures
            r == (self@.state == ConnState::Open || self@.state == ConnState::Closing),
            r ==> final(bus)@ == published(old(bus)@, frame@),
            !r ==> final(bus)@ == old(bus)@,
    {
        if self.state == ConnState::Open || self.state == ConnState::Closing {
            bus.publish(frame);
            true
        } else {
            false
        }
    }
}

} // verus!
