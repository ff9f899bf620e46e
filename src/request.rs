use vstd::prelude::*;
use crate::resource::{copy_key, key_view, non_empty, RegistryResource};

verus! {

/// Where one request to a registry client stands.
#[derive(PartialEq, Eq, Structural, Clone, Copy, Debug)]
pub enum Phase {
    /// The client decides whether it can answer without the network.
    Deciding,
    /// `before_network` has been handed out and has not returned yet.
    Announcing,
    /// The network request has been sent.
    Transmitting,
    /// Fresh data is being read, for an archive into a scratch file.
    Receiving,
    /// The request has its result.
    Done,
}

/// What a registry answered to a conditional request.
pub enum Reply {
    /// The resource does not exist at this registry.
    Missing,
    /// The cache key sent along is still valid.
    NotModified,
    /// Fresh data follows, tagged with the key to replay next time.
    Fresh { cache_key: Option<String> },
}

/// What happened since the last step.
pub enum Event<T, E> {
    /// The client answered without the network.
    Local(RegistryResource<T>),
    /// The client has to go to the network.
    NetworkNeeded,
    /// `before_network` returned.
    Announced(Result<(), E>),
    /// The network request returned.
    Replied(Result<Reply, E>),
    /// The fresh data was read; for an archive, written to a scratch file.
    Received(Result<T, E>),
}

/// What the driver of the request does next.
pub enum Action<T, E> {
    /// Call `before_network`, and nothing else before it returns.
    InvokeBeforeNetwork,
    /// Send the request, conditional on `cache_key` where there is one.
    Transmit { cache_key: Option<String> },
    /// Read the fresh data; into a newly created scratch file when `into_scratch_file`.
    Receive { into_scratch_file: bool },
    /// Hand this result to the caller.
    Complete(Result<RegistryResource<T>, E>),
}

/// One `get_records` or `download` call of a registry client, as a state
/// machine: the driver performs each action and reports each event.
pub struct Request {
    cache_key: Option<String>,
    for_archive: bool,
    phase: Phase,
    pending_key: Option<String>,
    announced: bool,
    transmitted: bool,
    scratch_requested: bool,
}

impl Request {
    pub closed spec fn phase(&self) -> Phase {
        self.phase
    }

    /// The cache key the caller handed in.
    pub closed spec fn cache_key(&self) -> Option<Seq<char>> {
        key_view(self.cache_key)
    }

    /// Whether the request is for an archive, which is written to a scratch file.
    pub closed spec fn for_archive(&self) -> bool {
        self.for_archive
    }

    /// The key that came with fresh data, to be handed back with it.
    pub closed spec fn pending_key(&self) -> Option<Seq<char>> {
        key_view(self.pending_key)
    }

    /// Whether `before_network` has been invoked.
    pub closed spec fn announced(&self) -> bool {
        self.announced
    }

    /// Whether the network request has been sent.
    pub closed spec fn transmitted(&self) -> bool {
        self.transmitted
    }

    /// Whether a scratch file has been asked for.
    pub closed spec fn scratch_requested(&self) -> bool {
        self.scratch_requested
    }

    /// The order of effects that every request keeps: nothing is sent before
    /// `before_network` has returned, and no scratch file is made before
    /// fresh data has come back.
    pub closed spec fn wf(&self) -> bool {
        &&& self.transmitted ==> self.announced
        &&& self.scratch_requested ==> self.transmitted && self.for_archive
        &&& self.phase == Phase::Deciding ==> !self.announced
        &&& self.phase == Phase::Announcing ==> self.announced && !self.transmitted
        &&& self.phase == Phase::Transmitting ==> self.transmitted && !self.scratch_requested
        &&& self.phase == Phase::Receiving ==> self.transmitted && self.scratch_requested == self.for_archive
    }

    /// A request with the caller's `cache_key`; `for_archive` for a download.
    pub fn new(cache_key: Option<String>, for_archive: bool) -> (r: Self)
        ensures
            r.wf(),
            r.phase() == Phase::Deciding,
            r.cache_key() == key_view(cache_key),
            r.for_archive() == for_archive,
            !r.announced() && !r.transmitted() && !r.scratch_requested(),
    {
        Request {
            cache_key,
            for_archive,
            phase: Phase::Deciding,
            pending_key: None,
            announced: false,
            transmitted: false,
            scratch_requested: false,
        }
    }

    /// Whether the caller handed in a non-empty cache key, the only kind a
    /// client can confirm.
    pub open spec fn has_key(&self) -> bool {
        self.cache_key() matches Some(k) && k.len() > 0
    }

    /// Whether `event` can come in the current phase. A client confirms a
    /// cache key only where the caller handed in a non-empty one.
    pub open spec fn accepts_spec<T, E>(&self, event: &Event<T, E>) -> bool {
        match self.phase() {
            Phase::Deciding => match event {
                Event::Local(res) => res is InCache ==> self.has_key(),
                Event::NetworkNeeded => true,
                _ => false,
            },
            Phase::Announcing => event is Announced,
            Phase::Transmitting => match event {
                Event::Replied(Ok(Reply::NotModified)) => self.has_key(),
                Event::Replied(_) => true,
                _ => false,
            },
            Phase::Receiving => event is Received,
            Phase::Done => false,
        }
    }

    pub fn accepts<T, E>(&self, event: &Event<T, E>) -> (r: bool)
        ensures
            r == self.accepts_spec(event),
    {
        let has_key = match &self.cache_key {
            Some(k) => non_empty(k),
            None => false,
        };
        match self.phase {
            Phase::Deciding => match event {
                Event::Local(RegistryResource::InCache) => has_key,
                Event::Local(_) => true,
                Event::NetworkNeeded => true,
                _ => false,
            },
            Phase::Announcing => match event {
                Event::Announced(_) => true,
                _ => false,
            },
            Phase::Transmitting => match event {
                Event::Replied(Ok(Reply::NotModified)) => has_key,
                Event::Replied(_) => true,
                _ => false,
            },
            Phase::Receiving => match event {
                Event::Received(_) => true,
                _ => false,
            },
            Phase::Done => false,
        }
    }
    /// Takes the next event and says what to do.
    ///
    /// `before_network` is invoked exactly when the client goes to the
    /// network, and a failure from it ends the request with that same failure
    /// before anything is sent. A confirmed cache key that needed no network
    /// leaves `before_network` uninvoked.
    pub fn step<T, E>(&mut self, event: Event<T, E>) -> (r: Action<T, E>)
        requires
            old(self).wf(),
            old(self).accepts_spec(&event),
        ensures
            final(self).wf(),
            final(self).cache_key() == old(self).cache_key(),
            final(self).for_archive() == old(self).for_archive(),
            old(self).transmitted() ==> final(self).transmitted(),
            old(self).announced() ==> final(self).announced(),
            r is Complete <==> final(self).phase() == Phase::Done,
            final(self).transmitted() ==> final(self).announced(),
            final(self).scratch_requested() ==> final(self).transmitted() && final(self).for_archive(),
            r matches Action::Complete(Ok(RegistryResource::InCache)) ==> old(self).has_key(),
            r matches Action::Complete(Ok(RegistryResource::InCache)) && !final(self).transmitted()
                ==> !final(self).announced(),
            match event {
                Event::Local(res) => r == Action::<T, E>::Complete(Ok(res)) && !final(self).announced()
                    && !final(self).transmitted(),
                Event::NetworkNeeded => r is InvokeBeforeNetwork && final(self).phase() == Phase::Announcing
                    && final(self).announced() && !final(self).transmitted(),
                Event::Announced(Err(e)) => r == Action::<T, E>::Complete(Err(e)) && !final(self).transmitted(),
                Event::Announced(Ok(())) => (r matches Action::Transmit { cache_key }
                    && key_view(cache_key) == old(self).cache_key())
                    && final(self).phase() == Phase::Transmitting && final(self).transmitted(),
                Event::Replied(Err(e)) => r == Action::<T, E>::Complete(Err(e)),
                Event::Replied(Ok(Reply::Missing)) => r == Action::<T, E>::Complete(Ok(RegistryResource::NotFound)),
                Event::Replied(Ok(Reply::NotModified)) => r == Action::<T, E>::Complete(Ok(RegistryResource::InCache)),
                Event::Replied(Ok(Reply::Fresh { cache_key })) => r == Action::<T, E>::Receive {
                    into_scratch_file: old(self).for_archive(),
                } && final(self).phase() == Phase::Receiving && final(self).pending_key() == key_view(cache_key),
                Event::Received(Err(e)) => r == Action::<T, E>::Complete(Err(e)),
                Event::Received(Ok(t)) => (r matches Action::Complete(Ok(RegistryResource::Download { resource, cache_key }))
                    && resource == t && key_view(cache_key) == old(self).pending_key()),
            },
            final(self).scratch_requested() == (old(self).scratch_requested() || (event matches Event::Replied(Ok(Reply::Fresh { .. }))
                && old(self).for_archive())),
    {
        match event {
            Event::Local(res) => {
                self.phase = Phase::Done;
                Action::Complete(Ok(res))
            },
            Event::NetworkNeeded => {
                self.phase = Phase::Announcing;
                self.announced = true;
                Action::InvokeBeforeNetwork
            },
            Event::Announced(Err(e)) => {
                self.phase = Phase::Done;
                Action::Complete(Err(e))
            },
            Event::Announced(Ok(())) => {
                self.phase = Phase::Transmitting;
                self.transmitted = true;
                Action::Transmit { cache_key: copy_key(&self.cache_key) }
            },
            Event::Replied(Err(e)) => {
                self.phase = Phase::Done;
                Action::Complete(Err(e))
            },
            Event::Replied(Ok(Reply::Missing)) => {
                self.phase = Phase::Done;
                Action::Complete(Ok(RegistryResource::NotFound))
            },
            Event::Replied(Ok(Reply::NotModified)) => {
                self.phase = Phase::Done;
                Action::Complete(Ok(RegistryResource::InCache))
            },
            Event::Replied(Ok(Reply::Fresh { cache_key })) => {
                self.phase = Phase::Receiving;
                self.pending_key = cache_key;
                self.scratch_requested = self.for_archive;
                Action::Receive { into_scratch_file: self.for_archive }
            },
            Event::Received(Err(e)) => {
                self.phase = Phase::Done;
                Action::Complete(Err(e))
            },
            Event::Received(Ok(t)) => {
                self.phase = Phase::Done;
                let cache_key = copy_key(&self.pending_key);
                Action::Complete(Ok(RegistryResource::Download { resource: t, cache_key }))
            },
        }
    }
}

/// Whether a registry whose data is currently tagged `current` (`None`: the
/// resource does not exist) confirms the caller's `cache_key`.
pub open spec fn confirms(current: Option<Seq<char>>, cache_key: Option<Seq<char>>) -> bool {
    current matches Some(c) && c.len() > 0 && cache_key == current
}

/// How a registry answers a conditional request: it confirms a cache key
/// equal to the tag of its current data, and otherwise sends the data with
/// that tag as the new key.
pub fn conditional_reply(current: Option<&String>, cache_key: Option<&String>) -> (r: Reply)
    ensures
        ({
            let cur = match current {
                Some(c) => Some(c@),
                None => None,
            };
            let key = match cache_key {
                Some(k) => Some(k@),
                None => None,
            };
            match r {
                Reply::Missing => cur is None,
                Reply::NotModified => confirms(cur, key),
                Reply::Fresh { cache_key: k } => cur is Some && !confirms(cur, key) && key_view(k) == cur,
            }
        }),
{
    match current {
        None => Reply::Missing,
        Some(c) => {
            let same = match cache_key {
                Some(k) => non_empty(k) && *k == *c,
                None => false,
            };
            if same {
                Reply::NotModified
            } else {
                Reply::Fresh { cache_key: Some(c.clone()) }
            }
        },
    }
}

/// Fetching without a key from a registry whose data is tagged `current`
/// yields fresh data with key `current`; replaying that key, where it is
/// not empty, against the same
/// data is confirmed, so the request ends in `InCache`.
pub proof fn lemma_round_trip(current: Seq<char>)
    requires
        current.len() > 0,
    ensures
        !confirms(Some(current), None),
        confirms(Some(current), Some(current)),
{
}

} // verus!
