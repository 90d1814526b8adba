//! Correlates arrivals and removals into tracked ports with one unplug signal each.

use vstd::prelude::*;
use crate::dispatch::PlugEvent;
use crate::keyed::{cache_map, keys_unique, position, take, upsert};
use crate::registry::{lower_of, OsError, PortMeta, RegistryError};

verus! {

/// An error surfaced while tracking ports.
#[derive(Debug)]
pub enum TrackingError {
    Io(OsError),
    Scan(RegistryError),
}

/// Whether `m` stands in the allow-list.
pub open spec fn allowed(ids: Seq<(Seq<char>, Seq<char>)>, m: (Seq<char>, Seq<char>)) -> bool {
    ids.contains(m)
}

/// What the tracker asks of its driver after one upstream item.
#[derive(Debug)]
pub enum Step<S> {
    /// The upstream ended: the tracker is complete.
    End,
    /// The upstream reported an error, forwarded unchanged.
    Failed(TrackingError),
    /// A device outside the allow-list arrived.
    Ignored,
    /// A device of the allow-list arrived: the driver makes a oneshot channel,
    /// hands its sender to `register`, and emits a tracked port.
    Track(String, PortMeta),
    /// A tracked port was removed: the driver sets this sender.
    Unplug(String, S),
    /// A port that is not tracked was removed.
    Untracked(String),
}

/// The tracking combinator: an allow-list of ids and, per tracked port, the
/// sender that signals its unplug.
pub struct Tracker<S> {
    ids: Vec<PortMeta>,
    cache: Vec<(String, S)>,
    complete: bool,
}

impl<S> Tracker<S> {
    /// The allow-list.
    pub closed spec fn allow_list(&self) -> Seq<(Seq<char>, Seq<char>)> {
        self.ids@.map_values(|m: PortMeta| m@)
    }

    /// The sender cached for each tracked port.
    pub closed spec fn cache_view(&self) -> Map<Seq<char>, S> {
        cache_map(self.cache@)
    }

    /// Whether the upstream has ended.
    pub closed spec fn complete(&self) -> bool {
        self.complete
    }

    /// At most one cached sender per port.
    pub closed spec fn wf(&self) -> bool {
        keys_unique(self.cache@)
    }

    /// A tracker over the given allow-list, with nothing tracked yet.
    pub fn new(ids: Vec<PortMeta>) -> (r: Tracker<S>)
        ensures
            r.wf(),
            r.allow_list() == ids@.map_values(|m: PortMeta| m@),
            r.cache_view() == Map::<Seq<char>, S>::empty(),
            !r.complete(),
    {
        Tracker { ids, cache: Vec::new(), complete: false }
    }

    /// Whether the upstream has ended; a complete tracker takes no more items.
    pub fn is_complete(&self) -> (r: bool)
        ensures
            r == self.complete(),
    {
        self.complete
    }

    /// Whether a sender is cached for `port`.
    pub fn is_tracking(&self, port: &String) -> (r: bool)
        requires
            self.wf(),
        ensures
            r == self.cache_view().contains_key(port@),
    {
        position(&self.cache, port).is_some()
    }

    fn is_allowed(&self, meta: &PortMeta) -> (r: bool)
        ensures
            r == allowed(self.allow_list(), meta@),
    {
        let mut i: usize = 0;
        while i < self.ids.len()
            invariant
                0 <= i <= self.ids@.len(),
                forall|j: int| 0 <= j < i ==> self.ids@[j]@ != meta@,
            decreases self.ids@.len() - i,
        {
            if self.ids[i] == *meta {
                assert(self.allow_list()[i as int] == meta@);
                return true;
            }
            i = i + 1;
        }
        proof {
            if allowed(self.allow_list(), meta@) {
                let j = choose|j: int| 0 <= j < self.allow_list().len() && self.allow_list()[j] == meta@;
                assert(self.ids@[j]@ == meta@);
            }
        }
        false
    }

    /// Takes one item of the upstream: `None` is its end, `Some(Err(_))` an error.
    pub fn step(&mut self, item: Option<Result<PlugEvent, RegistryError>>) -> (r: Step<S>)
        requires
            old(self).wf(),
            !old(self).complete(),
        ensures
            final(self).wf(),
            final(self).allow_list() == old(self).allow_list(),
            match item {
                None => {
                    &&& r is End
                    &&& final(self).complete()
                    &&& final(self).cache_view() == old(self).cache_view()
                },
                Some(Err(e)) => {
                    &&& r == Step::<S>::Failed(TrackingError::Scan(e))
                    &&& !final(self).complete()
                    &&& final(self).cache_view() == old(self).cache_view()
                },
                Some(Ok(PlugEvent::Arrival(p, m))) => {
                    &&& !final(self).complete()
                    &&& final(self).cache_view() == old(self).cache_view()
                    &&& if allowed(old(self).allow_list(), m@) {
                        r == Step::<S>::Track(p, m)
                    } else {
                        r is Ignored
                    }
                },
                Some(Ok(PlugEvent::RemoveComplete(p))) => {
                    &&& !final(self).complete()
                    &&& if old(self).cache_view().contains_key(p@) {
                        &&& r == Step::<S>::Unplug(p, old(self).cache_view()[p@])
                        &&& final(self).cache_view() == old(self).cache_view().remove(p@)
                    } else {
                        &&& r == Step::<S>::Untracked(p)
                        &&& final(self).cache_view() == old(self).cache_view()
                    }
                },
            },
    {
        match item {
            None => {
                self.complete = true;
                Step::End
            },
            Some(Err(e)) => Step::Failed(TrackingError::Scan(e)),
            Some(Ok(PlugEvent::Arrival(port, meta))) => {
                if self.is_allowed(&meta) {
                    Step::Track(port, meta)
                } else {
                    Step::Ignored
                }
            },
            Some(Ok(PlugEvent::RemoveComplete(port))) => {
                match take(&mut self.cache, &port) {
                    Some(sender) => Step::Unplug(port, sender),
                    None => Step::Untracked(port),
                }
            },
        }
    }

    /// Caches the sender of a newly tracked port. A sender already cached for the
    /// port (a rescan re-announces connected ports) is handed back, not kept beside it.
    pub fn register(&mut self, port: String, sender: S) -> (stale: Option<S>)
        requires
            old(self).wf(),
        ensures
            final(self).wf(),
            final(self).allow_list() == old(self).allow_list(),
            final(self).complete() == old(self).complete(),
            final(self).cache_view() == old(self).cache_view().insert(port@, sender),
            stale == (if old(self).cache_view().contains_key(port@) {
                Some(old(self).cache_view()[port@])
            } else {
                None
            }),
    {
        upsert(&mut self.cache, port, sender)
    }
}

/// The allow-list of a tracker: each `(vendor, product)` pair, lower-cased.
pub open spec fn allow_list_of(ids: Seq<(String, String)>) -> Seq<(Seq<char>, Seq<char>)> {
    ids.map_values(|p: (String, String)| (lower_of(p.0@), lower_of(p.1@)))
}

/// A tracker that follows the devices whose `(vendor, product)` ids are in `ids`
/// (compared lower-cased), with nothing tracked yet.
pub fn track<S>(ids: Vec<(String, String)>) -> (r: Tracker<S>)
    ensures
        r.wf(),
        r.allow_list() == allow_list_of(ids@),
        r.cache_view() == Map::<Seq<char>, S>::empty(),
        !r.complete(),
{
    let mut metas: Vec<PortMeta> = Vec::new();
    let mut i: usize = 0;
    while i < ids.len()
        invariant
            0 <= i <= ids@.len(),
            metas@.map_values(|m: PortMeta| m@) == allow_list_of(ids@).take(i as int),
        decreases ids@.len() - i,
    {
        let meta = PortMeta::from_ids(ids[i].0.as_str(), ids[i].1.as_str());
        let ghost before = metas@;
        metas.push(meta);
        assert(metas@.map_values(|m: PortMeta| m@) =~= before.map_values(|m: PortMeta| m@).push(meta@));
        assert(allow_list_of(ids@).take(i + 1) =~= allow_list_of(ids@).take(i as int).push(meta@));
        i = i + 1;
    }
    assert(allow_list_of(ids@).take(i as int) =~= allow_list_of(ids@));
    Tracker::new(metas)
}

/// A removal unplugs a tracked port once: the step that hands out its sender
/// leaves the port untracked, so a second removal of it is reported as
/// untracked, never as a second unplug.
pub proof fn lemma_unplug_once<S>(before: Tracker<S>, after: Tracker<S>, port: Seq<char>)
    requires
        before.cache_view().contains_key(port),
        after.cache_view() == before.cache_view().remove(port),
    ensures
        !after.cache_view().contains_key(port),
{
}

/// A rescan that re-announces a tracked port overwrites its cache entry: the
/// set of tracked ports stays the same, the port has the new sender only, and
/// the other ports keep theirs.
pub proof fn lemma_rescan_overwrites<S>(before: Tracker<S>, after: Tracker<S>, port: Seq<char>, sender: S)
    requires
        before.cache_view().contains_key(port),
        after.cache_view() == before.cache_view().insert(port, sender),
    ensures
        after.cache_view().dom() == before.cache_view().dom(),
        after.cache_view()[port] == sender,
        forall|q: Seq<char>| q != port && before.cache_view().contains_key(q)
            ==> after.cache_view()[q] == before.cache_view()[q],
{
    assert(after.cache_view().dom() =~= before.cache_view().dom());
}

} // verus!
