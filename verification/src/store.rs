//! A store of values in memory, each under an id that tells when it was stored.
use vstd::prelude::*;

use crate::clock::{clock_shows, representable, Duration, Timestamp};
use crate::timed_uuid::{
    drawn, timed, uuid_time, version, TimedUuid, TimedUuidError, UuidTimeError,
};

verus! {

pub type ID = TimedUuid;

/// What can be stored.
pub trait Value: Send + Sync + 'static {
    /// How long a value is kept.
    const LIFETIME: Duration;
}

#[verifier::external_type_specification]
#[verifier::external_body]
#[verifier::reject_recursive_types(K)]
#[verifier::reject_recursive_types(V)]
#[verifier::reject_recursive_types(H)]
pub struct ExHashMap<K, V, H>(scc::HashMap<K, V, H>) where H: std::hash::BuildHasher;

/// The slots that an index holds, by the bits of their ids.
pub uninterp spec fn slot_numbers(index: scc::HashMap<u128, usize>) -> Map<u128, usize>;

/// `HashMap::new` of the `scc` crate: nothing is in a new map.
#[verifier::external_body]
fn index_new() -> (r: scc::HashMap<u128, usize>)
    ensures
        slot_numbers(r).dom() == Set::<u128>::empty(),
{
    scc::HashMap::new()
}

/// `HashMap::insert_sync` of the `scc` crate: adds a pair unless the key is there already, and
/// tells whether it did.
#[verifier::external_body]
fn index_insert(index: &mut scc::HashMap<u128, usize>, id: u128, slot: usize) -> (r: bool)
    ensures
        r == !slot_numbers(*old(index)).dom().contains(id),
        slot_numbers(*final(index)) == if slot_numbers(*old(index)).dom().contains(id) {
            slot_numbers(*old(index))
        } else {
            slot_numbers(*old(index)).insert(id, slot)
        },
{
    index.insert_sync(id, slot).is_ok()
}

/// `HashMap::contains_sync` of the `scc` crate: whether a key is there.
#[verifier::external_body]
fn index_contains(index: &scc::HashMap<u128, usize>, id: u128) -> (r: bool)
    ensures
        r == slot_numbers(*index).dom().contains(id),
{
    index.contains_sync(&id)
}

/// `HashMap::read_sync` of the `scc` crate: the value under a key.
#[verifier::external_body]
fn index_read(index: &scc::HashMap<u128, usize>, id: u128) -> (r: Option<usize>)
    ensures
        match r {
            Some(slot) => slot_numbers(*index).dom().contains(id) && slot == slot_numbers(
                *index,
            )[id],
            None => !slot_numbers(*index).dom().contains(id),
        },
{
    index.read_sync(&id, |_, slot| *slot)
}

/// `HashMap::remove_sync` of the `scc` crate: takes out the value under a key.
#[verifier::external_body]
fn index_remove(index: &mut scc::HashMap<u128, usize>, id: u128) -> (r: Option<usize>)
    ensures
        match r {
            Some(slot) => slot_numbers(*old(index)).dom().contains(id) && slot == slot_numbers(
                *old(index),
            )[id],
            None => !slot_numbers(*old(index)).dom().contains(id),
        },
        slot_numbers(*final(index)) == slot_numbers(*old(index)).remove(id),
{
    index.remove_sync(&id).map(|pair| pair.1)
}

/// When the value under an id expires, in nanoseconds since the Unix epoch.
pub open spec fn expiry(id: u128, lifetime: Duration) -> int {
    crate::timed_uuid::uuid_time(id)->Ok_0 + lifetime.nanoseconds
}

/// The values that have not expired at a point in time.
pub open spec fn unexpired<T>(
    contents: Map<u128, T>,
    lifetime: Duration,
    now: int,
) -> Map<u128, T> {
    Map::new(
        |id: u128| contents.dom().contains(id) && now < expiry(id, lifetime),
        |id: u128| contents[id],
    )
}

/// Whether every value expires at a point in time in the years from -9999 to 9999.
pub open spec fn expiries_representable<T>(contents: Map<u128, T>, lifetime: Duration) -> bool {
    forall|id: u128| #[trigger]
        contents.dom().contains(id) ==> representable(expiry(id, lifetime))
}

/// Why a value could not be stored.
#[derive(Clone, Copy, Debug, PartialEq, Eq, Structural)]
pub enum StoreError {
    /// No id could be made.
    Uuid(TimedUuidError),
    /// The id is taken.
    KeyExists,
}

impl StoreError {
    /// The sentence that reports the error.
    pub fn message(&self) -> (r: &'static str)
        ensures
            r@ == match self {
                StoreError::Uuid(_) => "Failed to get UUID"@,
                StoreError::KeyExists => "Key already exists"@,
            },
    {
        match self {
            StoreError::Uuid(_) => "Failed to get UUID",
            StoreError::KeyExists => "Key already exists",
        }
    }
}

/// Values in slots, with an index that finds the slot of an id.
pub struct StoreInner<T> {
    index: scc::HashMap<u128, usize>,
    slots: Vec<(ID, T)>,
    lifetime: Duration,
}

impl<T> View for StoreInner<T> {
    type V = Map<u128, T>;

    closed spec fn view(&self) -> Map<u128, T> {
        Map::new(
            |id: u128| slot_numbers(self.index).dom().contains(id),
            |id: u128| self.slots@[slot_numbers(self.index)[id] as int].1,
        )
    }
}

impl<T> StoreInner<T> {
    /// Whether the index finds each value in its slot and nothing else, and every id tells a
    /// point in time.
    pub closed spec fn well_formed(&self) -> bool {
        &&& forall|i: int|
            #![trigger self.slots@[i]]
            0 <= i < self.slots@.len() ==> {
                &&& slot_numbers(self.index).dom().contains(self.slots@[i].0@)
                &&& slot_numbers(self.index)[self.slots@[i].0@] == i
                &&& crate::timed_uuid::uuid_time(self.slots@[i].0@) is Ok
            }
        &&& forall|id: u128|
            #![trigger slot_numbers(self.index)[id]]
            #![trigger slot_numbers(self.index).dom().contains(id)]
            slot_numbers(self.index).dom().contains(id) ==> {
                &&& slot_numbers(self.index)[id] < self.slots@.len()
                &&& self.slots@[slot_numbers(self.index)[id] as int].0@ == id
            }
    }

    /// How long values are kept.
    pub closed spec fn kept_for(&self) -> Duration {
        self.lifetime
    }

    /// An empty store whose values are kept for the given time.
    pub fn new(lifetime: Duration) -> (r: StoreInner<T>)
        ensures
            r.well_formed(),
            r@ == Map::<u128, T>::empty(),
            r.kept_for() == lifetime,
    {
        let store = StoreInner { index: index_new(), slots: Vec::new(), lifetime };
        assert(store@ =~= Map::<u128, T>::empty());
        store
    }

    /// How long values are kept.
    pub fn lifetime(&self) -> (r: Duration)
        ensures
            r == self.kept_for(),
    {
        self.lifetime
    }

    /// Whether there is a value under an id, expired or not.
    pub fn contains(&self, id: &ID) -> (r: bool)
        ensures
            r == self@.dom().contains(id@),
    {
        index_contains(&self.index, id.as_u128())
    }

    /// Puts a value under an id that is not taken.
    pub fn insert_at(&mut self, id: ID, data: T) -> (r: Result<(), StoreError>)
        requires
            old(self).well_formed(),
        ensures
            final(self).well_formed(),
            final(self).kept_for() == old(self).kept_for(),
            match r {
                Ok(_) => !old(self)@.dom().contains(id@) && final(self)@ == old(self)@.insert(
                    id@,
                    data,
                ),
                Err(error) => error == StoreError::KeyExists && old(self)@.dom().contains(id@)
                    && final(self)@ == old(self)@,
            },
    {
        let slot = self.slots.len();
        if !index_insert(&mut self.index, id.as_u128(), slot) {
            assert(self@ =~= old(self)@);
            return Err(StoreError::KeyExists);
        }
        self.slots.push((id, data));
        assert(self@ =~= old(self)@.insert(id@, data));
        Ok(())
    }

    /// Empties a slot; the value of the last slot moves there.
    fn remove_slot(&mut self, at: usize) -> (r: (ID, T))
        requires
            old(self).well_formed(),
            at < old(self).slots@.len(),
        ensures
            final(self).well_formed(),
            final(self).kept_for() == old(self).kept_for(),
            r == old(self).slots@[at as int],
            final(self).slots@ == old(self).slots@.update(
                at as int,
                old(self).slots@.last(),
            ).drop_last(),
            final(self)@ == old(self)@.remove(r.0@),
            old(self)@.dom().contains(r.0@),
            old(self)@[r.0@] == r.1,
    {
        let last = self.slots.len() - 1;
        let removed = self.slots[at].0.as_u128();
        let moved = self.slots[last].0.as_u128();
        index_remove(&mut self.index, removed);
        if at != last {
            assert(moved != removed) by {
                assert(slot_numbers(old(self).index)[moved] == last);
            }
            index_remove(&mut self.index, moved);
            index_insert(&mut self.index, moved, at);
        }
        let taken = self.slots.swap_remove(at);
        assert(self.slots@ =~= old(self).slots@.update(
            at as int,
            old(self).slots@.last(),
        ).drop_last());
        assert(self.well_formed()) by {
            assert forall|i: int| 0 <= i < self.slots@.len() implies {
                &&& slot_numbers(self.index).dom().contains((#[trigger] self.slots@[i]).0@)
                &&& slot_numbers(self.index)[self.slots@[i].0@] == i
                &&& crate::timed_uuid::uuid_time(self.slots@[i].0@) is Ok
            } by {
                let from = if i == at {
                    last as int
                } else {
                    i
                };
                assert(self.slots@[i] == old(self).slots@[from]);
                assert(slot_numbers(old(self).index)[old(self).slots@[from].0@] == from);
            }
        }
        assert(self@ =~= old(self)@.remove(taken.0@));
        taken
    }

    /// Takes out the value under an id.
    pub fn delete(&mut self, id: &ID) -> (r: Option<(ID, T)>)
        requires
            old(self).well_formed(),
        ensures
            final(self).well_formed(),
            final(self).kept_for() == old(self).kept_for(),
            final(self)@ == old(self)@.remove(id@),
            match r {
                Some(pair) => old(self)@.dom().contains(id@) && pair.0@ == id@ && pair.1
                    == old(self)@[id@],
                None => !old(self)@.dom().contains(id@),
            },
    {
        match index_read(&self.index, id.as_u128()) {
            Some(at) => Some(self.remove_slot(at)),
            None => {
                assert(self@ =~= old(self)@.remove(id@));
                None
            },
        }
    }

    /// Puts a value under a new id.
    pub fn insert<'a>(&'a mut self, data: T) -> (r: Result<ValueRef<'a, T>, StoreError>)
        requires
            old(self).well_formed(),
        ensures
            match r {
                Ok(stored) => {
                    &&& !old(self)@.dom().contains(stored.id@)
                    &&& crate::timed_uuid::version(stored.id@) == 7
                    &&& stored.valid()
                    &&& stored.store@ == old(self)@.insert(stored.id@, data)
                    &&& stored.store.kept_for() == old(self).kept_for()
                    &&& *final(stored.store) == *final(self)
                },
                Err(error) => {
                    &&& error is KeyExists || error == StoreError::Uuid(
                        TimedUuidError::InvalidTimestamp(UuidTimeError::InvalidUnixTimestamp),
                    )
                    &&& error is KeyExists ==> exists|id: u128| #[trigger]
                        old(self)@.dom().contains(id) && crate::timed_uuid::version(id) == 7
                    &&& final(self).well_formed()
                    &&& final(self)@ == old(self)@
                    &&& final(self).kept_for() == old(self).kept_for()
                },
            },
            exists|bits: u128| #[trigger]
                drawn(bits) && version(bits) == 7 && match r {
                    Ok(stored) => stored.id@ == bits,
                    Err(StoreError::Uuid(cause)) => timed(bits) == Err::<u128, TimedUuidError>(
                        cause,
                    ),
                    Err(StoreError::KeyExists) => old(self)@.dom().contains(bits)
                        && uuid_time(bits) is Ok,
                },
    {
        let id = match TimedUuid::new_now() {
            Ok(id) => id,
            Err(error) => return Err(StoreError::Uuid(error)),
        };
        match self.insert_at(id, data) {
            Ok(_) => Ok(ValueRef { store: self, id }),
            Err(error) => Err(error),
        }
    }

    /// The value under an id, unless it has expired before the given point in time.
    pub fn query_at<'a>(&'a mut self, id: &ID, now: Timestamp) -> (r: Option<ValueRef<'a, T>>)
        requires
            old(self).well_formed(),
            old(self)@.dom().contains(id@) ==> representable(
                expiry(id@, old(self).kept_for()),
            ),
        ensures
            match r {
                Some(found) => {
                    &&& found_at(old(self)@, old(self).kept_for(), id@, now@)
                    &&& found.id@ == id@
                    &&& found.valid()
                    &&& *found.store == *old(self)
                    &&& *final(found.store) == *final(self)
                },
                None => {
                    &&& !found_at(old(self)@, old(self).kept_for(), id@, now@)
                    &&& *final(self) == *old(self)
                },
            },
    {
        if !self.contains(id) {
            return None;
        }
        let found = ValueRef { store: self, id: *id };
        let expired = now.is_after(&found.expires());
        if expired {
            None
        } else {
            Some(found)
        }
    }

    /// The value under an id, unless it has expired by now.
    pub fn query<'a>(&'a mut self, id: &ID) -> (r: Option<ValueRef<'a, T>>)
        requires
            old(self).well_formed(),
            old(self)@.dom().contains(id@) ==> representable(
                expiry(id@, old(self).kept_for()),
            ),
        ensures
            match r {
                Some(found) => {
                    &&& old(self)@.dom().contains(id@)
                    &&& found.id@ == id@
                    &&& found.valid()
                    &&& *found.store == *old(self)
                    &&& *final(found.store) == *final(self)
                },
                None => *final(self) == *old(self),
            },
            exists|now: int| #[trigger]
                clock_shows(now) && representable(now) && (r is Some <==> found_at(
                    old(self)@,
                    old(self).kept_for(),
                    id@,
                    now,
                )),
    {
        let now = Timestamp::now_utc();
        assert(representable(now@));
        self.query_at(id, now)
    }

    /// Hands each value to a predicate, which may change it, and takes out those that the
    /// predicate turns down.
    pub fn retain<F: FnMut(&ID, &mut T) -> bool>(&mut self, mut pred: F)
        requires
            old(self).well_formed(),
            forall|id: &ID, value: &mut T| call_requires(pred, (id, value)),
        ensures
            final(self).well_formed(),
            final(self).kept_for() == old(self).kept_for(),
            final(self)@.dom().subset_of(old(self)@.dom()),
            forall|id: ID| #[trigger]
                old(self)@.dom().contains(id@) ==> exists|value: &mut T, keep: bool|
                    {
                        &&& #[trigger] call_ensures(pred, (&id, value), keep)
                        &&& *value == old(self)@[id@]
                        &&& keep == final(self)@.dom().contains(id@)
                        &&& keep ==> final(self)@[id@] == *final(value)
                    },
    {
        let ghost given = pred;
        let ghost before = self@;
        let ghost lifetime = self.lifetime;
        let mut i: usize = 0;
        while i < self.slots.len()
            invariant
                pred == given,
                self.well_formed(),
                self.lifetime == lifetime,
                i <= self.slots@.len(),
                forall|id: &ID, value: &mut T| call_requires(given, (id, value)),
                self@.dom().subset_of(before.dom()),
                forall|j: int|
                    i <= j < self.slots@.len() ==> before[(#[trigger] self.slots@[j]).0@]
                        == self.slots@[j].1,
                forall|id: ID| #[trigger]
                    before.dom().contains(id@) ==> {
                        ||| self@.dom().contains(id@) && slot_numbers(self.index)[id@] >= i
                        ||| exists|value: &mut T, keep: bool|
                            {
                                &&& #[trigger] call_ensures(given, (&id, value), keep)
                                &&& *value == before[id@]
                                &&& keep == self@.dom().contains(id@)
                                &&& keep ==> self@[id@] == *final(value)
                            }
                    },
            decreases self.slots@.len() - i,
        {
            let id = self.slots[i].0;
            let ghost earlier = *self;
            let keep = pred(&id, &mut self.slots[i].1);
            assert(exists|value: &mut T|
                {
                    &&& #[trigger] call_ensures(given, (&id, value), keep)
                    &&& *value == earlier.slots@[i as int].1
                    &&& *final(value) == self.slots@[i as int].1
                });
            let ghost changed = *self;
            let ghost at = i;
            assert(self.index == earlier.index);
            assert(self.slots@ =~= earlier.slots@.update(
                i as int,
                (id, changed.slots@[i as int].1),
            ));
            assert(self.well_formed());
            assert(self@.dom() =~= earlier@.dom());
            if keep {
                i += 1;
            } else {
                self.remove_slot(i);
            }
            proof {
                assert forall|other: ID| #[trigger] before.dom().contains(other@) implies {
                    ||| self@.dom().contains(other@) && slot_numbers(self.index)[other@] >= i
                    ||| exists|value: &mut T, keep: bool|
                        {
                            &&& #[trigger] call_ensures(given, (&other, value), keep)
                            &&& *value == before[other@]
                            &&& keep == self@.dom().contains(other@)
                            &&& keep ==> self@[other@] == *final(value)
                        }
                } by {
                    if other@ == id@ {
                        crate::timed_uuid::lemma_id_is_its_bits(other, id);
                        assert(earlier.slots@[at as int].1 == before[id@]);
                        assert(changed@[id@] == changed.slots@[at as int].1);
                        assert(keep ==> self@[id@] == changed@[id@]);
                        assert(keep == self@.dom().contains(id@));
                    } else if earlier@.dom().contains(other@) && slot_numbers(earlier.index)[other@]
                        >= at {
                        assert(slot_numbers(changed.index)[other@] != at);
                        assert(self@.dom().contains(other@));
                        assert(slot_numbers(self.index)[other@] >= i) by {
                            let slot = slot_numbers(self.index)[other@] as int;
                            assert(self.slots@[slot].0@ == other@);
                        }
                    } else {
                        assert(self@.dom().contains(other@) == earlier@.dom().contains(other@));
                        assert(earlier@.dom().contains(other@) ==> self@[other@]
                            == earlier@[other@]);
                    }
                }
            }
        }
    }

    /// Whether every value expires at a point in time in the years from -9999 to 9999.
    pub fn can_expire(&self) -> (r: bool)
        requires
            self.well_formed(),
        ensures
            r == expiries_representable(self@, self.kept_for()),
    {
        let mut i: usize = 0;
        while i < self.slots.len()
            invariant
                self.well_formed(),
                i <= self.slots@.len(),
                forall|j: int|
                    0 <= j < i ==> representable(
                        expiry((#[trigger] self.slots@[j]).0@, self.lifetime),
                    ),
            decreases self.slots@.len() - i,
        {
            if !self.slots[i].0.timestamp().can_add(self.lifetime) {
                assert(self@.dom().contains(self.slots@[i as int].0@));
                return false;
            }
            i += 1;
        }
        assert forall|id: u128| #[trigger] self@.dom().contains(id) implies representable(
            expiry(id, self.lifetime),
        ) by {
            assert(self.slots@[slot_numbers(self.index)[id] as int].0@ == id);
        }
        true
    }

    /// Takes out the values that have expired at the given point in time.
    pub fn cleanup_at(&mut self, now: Timestamp)
        requires
            old(self).well_formed(),
            expiries_representable(old(self)@, old(self).kept_for()),
        ensures
            final(self).well_formed(),
            final(self).kept_for() == old(self).kept_for(),
            final(self)@ == unexpired(old(self)@, old(self).kept_for(), now@),
    {
        let ghost before = self@;
        let ghost lifetime = self.lifetime;
        let mut i: usize = 0;
        while i < self.slots.len()
            invariant
                self.well_formed(),
                self.lifetime == lifetime,
                i <= self.slots@.len(),
                expiries_representable(before, lifetime),
                forall|id: u128| #[trigger]
                    self@.dom().contains(id) ==> before.dom().contains(id) && self@[id]
                        == before[id],
                forall|id: u128| #[trigger]
                    before.dom().contains(id) && !self@.dom().contains(id) ==> now@ >= expiry(
                        id,
                        lifetime,
                    ),
                forall|j: int|
                    0 <= j < i ==> now@ < expiry((#[trigger] self.slots@[j]).0@, lifetime),
            decreases self.slots@.len() - i,
        {
            let id = self.slots[i].0;
            assert(self@.dom().contains(self.slots@[i as int].0@));
            let expires = id.timestamp().plus(self.lifetime);
            if expires.is_after(&now) {
                i += 1;
            } else {
                let ghost slots = self.slots@;
                self.remove_slot(i);
                assert forall|j: int| 0 <= j < i implies now@ < expiry(
                    (#[trigger] self.slots@[j]).0@,
                    lifetime,
                ) by {
                    assert(self.slots@[j] == slots[j]);
                }
            }
        }
        assert(self@ =~= unexpired(before, lifetime, now@)) by {
            assert forall|id: u128| #[trigger] self@.dom().contains(id) implies now@ < expiry(
                id,
                lifetime,
            ) by {
                let at = slot_numbers(self.index)[id] as int;
                assert(self.slots@[at].0@ == id);
            }
        }
    }

    /// Takes out the values that have expired by now.
    pub fn cleanup(&mut self)
        requires
            old(self).well_formed(),
            expiries_representable(old(self)@, old(self).kept_for()),
        ensures
            final(self).well_formed(),
            final(self).kept_for() == old(self).kept_for(),
            exists|now: int| #[trigger]
                clock_shows(now) && representable(now) && final(self)@ == unexpired(
                    old(self)@,
                    old(self).kept_for(),
                    now,
                ),
    {
        let now = Timestamp::now_utc();
        assert(representable(now@));
        self.cleanup_at(now);
    }
}

/// Access to a stored value.
pub struct ValueRef<'a, T> {
    pub store: &'a mut StoreInner<T>,
    pub id: ID,
}

impl<'a, T> ValueRef<'a, T> {
    /// Whether the store is in order and has a value under the id.
    pub open spec fn valid(&self) -> bool {
        self.store.well_formed() && self.store@.dom().contains(self.id@)
    }

    /// When the value expires, in nanoseconds since the Unix epoch.
    pub open spec fn expiry(&self) -> int {
        expiry(self.id@, self.store.kept_for())
    }

    /// The stored value.
    pub open spec fn stored(&self) -> T {
        self.store@[self.id@]
    }

    /// The id of the value.
    pub fn id(&self) -> (r: &ID)
        ensures
            *r == self.id,
    {
        &self.id
    }

    /// When the value expires.
    pub fn expires(&self) -> (r: Timestamp)
        requires
            representable(self.expiry()),
        ensures
            r@ == self.expiry(),
    {
        self.id.timestamp().plus(self.store.lifetime())
    }

    /// The stored value.
    pub fn value(&self) -> (r: &T)
        requires
            self.valid(),
        ensures
            *r == self.stored(),
    {
        match index_read(&self.store.index, self.id.as_u128()) {
            Some(at) => &self.store.slots[at].1,
            None => vstd::pervasive::unreached(),
        }
    }

    /// Lends the stored value, to be changed in place.
    pub fn entry(self) -> (r: &'a mut T)
        requires
            self.valid(),
        ensures
            *r == self.stored(),
            final(self.store).well_formed(),
            final(self.store)@ == old(self.store)@.insert(self.id@, *final(r)),
            final(self.store).kept_for() == old(self.store).kept_for(),
    {
        match index_read(&self.store.index, self.id.as_u128()) {
            Some(at) => &mut self.store.slots[at].1,
            None => vstd::pervasive::unreached(),
        }
    }

    /// Takes out the stored value.
    pub fn remove(self) -> (r: T)
        requires
            self.valid(),
        ensures
            r == self.stored(),
            final(self.store).well_formed(),
            final(self.store)@ == old(self.store)@.remove(self.id@),
            final(self.store).kept_for() == old(self.store).kept_for(),
    {
        match self.store.delete(&self.id) {
            Some(pair) => pair.1,
            None => vstd::pervasive::unreached(),
        }
    }
}

/// A store, and how often expired values are to be taken out of it.
pub struct Store<T> {
    pub inner: StoreInner<T>,
    pub cleanup_intervals: Vec<Duration>,
}

impl<T> Store<T> {
    /// An empty store whose values are kept for the given time.
    pub fn with_lifetime(lifetime: Duration) -> (r: Store<T>)
        ensures
            r.inner.well_formed(),
            r.inner@ == Map::<u128, T>::empty(),
            r.inner.kept_for() == lifetime,
            r.cleanup_intervals@ == Seq::<Duration>::empty(),
    {
        Store { inner: StoreInner::new(lifetime), cleanup_intervals: Vec::new() }
    }

    /// The same store, with one more task that takes out expired values at every interval.
    pub fn with_cleanup(self, interval: Duration) -> (r: Store<T>)
        ensures
            r.inner == self.inner,
            r.cleanup_intervals@ == self.cleanup_intervals@.push(interval),
    {
        let mut cleanup_intervals = self.cleanup_intervals;
        cleanup_intervals.push(interval);
        Store { inner: self.inner, cleanup_intervals }
    }
}

impl<T: Value> Store<T> {
    /// An empty store whose values are kept for the lifetime of their type.
    pub fn new() -> (r: Store<T>)
        ensures
            r.inner.well_formed(),
            r.inner@ == Map::<u128, T>::empty(),
            r.inner.kept_for() == T::LIFETIME,
            r.cleanup_intervals@ == Seq::<Duration>::empty(),
    {
        Store::with_lifetime(T::LIFETIME)
    }

    /// The same store, with one more task that takes out expired values once in a lifetime.
    pub fn with_auto_cleanup(self) -> (r: Store<T>)
        ensures
            r.inner == self.inner,
            r.cleanup_intervals@ == self.cleanup_intervals@.push(T::LIFETIME),
    {
        self.with_cleanup(T::LIFETIME)
    }
}

/// Whether a value is found by a query at a point in time.
pub open spec fn found_at<T>(
    contents: Map<u128, T>,
    lifetime: Duration,
    id: u128,
    now: int,
) -> bool {
    contents.dom().contains(id) && now <= expiry(id, lifetime)
}

/// A value that was put under an id is found there until it expires, and putting it there changes
/// nothing about the other ids.
pub proof fn law_inserted_value_is_found<T>(
    contents: Map<u128, T>,
    lifetime: Duration,
    id: u128,
    data: T,
    now: int,
)
    ensures
        found_at(contents.insert(id, data), lifetime, id, now) <==> now <= expiry(id, lifetime),
        contents.insert(id, data)[id] == data,
        forall|other: u128|
            other != id ==> #[trigger] found_at(contents.insert(id, data), lifetime, other, now)
                == found_at(contents, lifetime, other, now),
        forall|other: u128|
            other != id ==> #[trigger] contents.insert(id, data)[other] == contents[other],
{
}

/// A value that was taken out is never found again, and taking it out changes nothing about the
/// other ids.
pub proof fn law_deleted_value_is_gone<T>(
    contents: Map<u128, T>,
    lifetime: Duration,
    id: u128,
    now: int,
)
    ensures
        !found_at(contents.remove(id), lifetime, id, now),
        forall|other: u128|
            other != id ==> #[trigger] found_at(contents.remove(id), lifetime, other, now)
                == found_at(contents, lifetime, other, now),
        forall|other: u128|
            other != id && contents.dom().contains(other) ==> #[trigger] contents.remove(
                id,
            )[other] == contents[other],
{
}

/// A value that a cleanup leaves in the store is found by a query at the same time, unchanged.
pub proof fn law_kept_values_are_found<T>(
    contents: Map<u128, T>,
    lifetime: Duration,
    id: u128,
    now: int,
)
    requires
        unexpired(contents, lifetime, now).dom().contains(id),
    ensures
        found_at(contents, lifetime, id, now),
        found_at(unexpired(contents, lifetime, now), lifetime, id, now),
        unexpired(contents, lifetime, now)[id] == contents[id],
{
}

/// A cleanup takes out every value that a query at the same time does not find any more.
pub proof fn law_lost_values_are_cleaned_up<T>(
    contents: Map<u128, T>,
    lifetime: Duration,
    id: u128,
    now: int,
)
    requires
        contents.dom().contains(id),
        !found_at(contents, lifetime, id, now),
    ensures
        !unexpired(contents, lifetime, now).dom().contains(id),
{
}

/// A value that is not found at some time is not found later either.
pub proof fn law_expired_values_stay_expired<T>(
    contents: Map<u128, T>,
    lifetime: Duration,
    id: u128,
    now: int,
    later: int,
)
    requires
        !found_at(contents, lifetime, id, now),
        now <= later,
    ensures
        !found_at(contents, lifetime, id, later),
{
}

/// Two cleanups one after the other leave what the later one alone would leave.
pub proof fn law_cleanups_add_up<T>(
    contents: Map<u128, T>,
    lifetime: Duration,
    now: int,
    later: int,
)
    requires
        now <= later,
    ensures
        unexpired(unexpired(contents, lifetime, now), lifetime, later) == unexpired(
            contents,
            lifetime,
            later,
        ),
{
    assert(unexpired(unexpired(contents, lifetime, now), lifetime, later) =~= unexpired(
        contents,
        lifetime,
        later,
    ));
}

/// A value expires when its lifetime has passed since the time that its id tells.
pub proof fn law_value_expires_after_its_lifetime(id: u128, lifetime: Duration, told: int)
    requires
        uuid_time(id) == Ok::<int, UuidTimeError>(told),
    ensures
        expiry(id, lifetime) == told + lifetime.nanoseconds,
{
}

/// A query finds a stored value up to the very moment at which its lifetime has passed, and never
/// after that.
pub proof fn law_query_finds_until_expiry<T>(
    contents: Map<u128, T>,
    lifetime: Duration,
    id: u128,
    told: int,
    now: int,
)
    requires
        uuid_time(id) == Ok::<int, UuidTimeError>(told),
    ensures
        found_at(contents, lifetime, id, now) <==> contents.dom().contains(id) && now - told
            <= lifetime.nanoseconds,
{
}

/// A cleanup keeps a stored value just where less than its lifetime has passed, and keeps it as it
/// is.
pub proof fn law_cleanup_keeps_until_expiry<T>(
    contents: Map<u128, T>,
    lifetime: Duration,
    id: u128,
    told: int,
    now: int,
)
    requires
        uuid_time(id) == Ok::<int, UuidTimeError>(told),
    ensures
        unexpired(contents, lifetime, now).dom().contains(id) <==> contents.dom().contains(id)
            && now - told < lifetime.nanoseconds,
        unexpired(contents, lifetime, now).dom().contains(id) ==> unexpired(
            contents,
            lifetime,
            now,
        )[id] == contents[id],
{
}

/// Storing a value fails for one of two reasons only: the UUID that was drawn lies after the year
/// 9999, or it is taken. What is stored already has no other part in it.
pub proof fn law_insert_fails_for_two_reasons<'a, T>(
    store: &'a mut StoreInner<T>,
    data: T,
    r: Result<ValueRef<'a, T>, StoreError>,
)
    requires
        call_ensures(StoreInner::<T>::insert, (store, data), r),
    ensures
        exists|bits: u128| #[trigger]
            drawn(bits) && (r is Ok <==> uuid_time(bits) is Ok && !old(store)@.dom().contains(bits))
                && (r is Ok ==> r->Ok_0.id@ == bits && old(r->Ok_0.store)@ == old(store)@.insert(
                bits,
                data,
            )) && (r matches Err(StoreError::KeyExists) <==> uuid_time(bits) is Ok && old(
                store,
            )@.dom().contains(bits)) && (r matches Err(StoreError::Uuid(_)) <==> uuid_time(
                bits,
            ) is Err),
{
    let bits = choose|bits: u128| #[trigger]
        drawn(bits) && version(bits) == 7 && match r {
            Ok(stored) => stored.id@ == bits,
            Err(StoreError::Uuid(cause)) => timed(bits) == Err::<u128, TimedUuidError>(cause),
            Err(StoreError::KeyExists) => old(store)@.dom().contains(bits) && uuid_time(
                bits,
            ) is Ok,
        };
    assert(drawn(bits));
}

/// A query by the clock finds a stored value just where its lifetime has not passed at the time
/// that the clock shows.
pub proof fn law_query_goes_by_the_clock<'a, T>(
    store: &'a mut StoreInner<T>,
    id: ID,
    told: int,
    r: Option<ValueRef<'a, T>>,
)
    requires
        call_ensures(StoreInner::<T>::query, (store, &id), r),
        uuid_time(id@) == Ok::<int, UuidTimeError>(told),
    ensures
        exists|now: int| #[trigger]
            clock_shows(now) && (r is Some <==> old(store)@.dom().contains(id@) && now - told
                <= old(store).kept_for().nanoseconds),
{
    let now = choose|now: int| #[trigger]
        clock_shows(now) && representable(now) && (r is Some <==> found_at(
            old(store)@,
            old(store).kept_for(),
            id@,
            now,
        ));
    assert(clock_shows(now));
}

/// Every value expires in the years from -9999 to 9999 just where the lifetime, added to the time
/// that any id tells, stays there.
pub proof fn law_expiries_are_in_range<T>(contents: Map<u128, T>, lifetime: Duration)
    ensures
        expiries_representable(contents, lifetime) <==> forall|id: u128| #[trigger]
            contents.dom().contains(id) ==> representable(
                uuid_time(id)->Ok_0 + lifetime.nanoseconds,
            ),
{
}

/// Access to a stored value shows the value under its id, and that it expires when the lifetime
/// has passed since the time that the id tells.
pub proof fn law_access_shows_the_stored_value<'a, T>(
    access: ValueRef<'a, T>,
    told: int,
    value: &T,
    expires: Timestamp,
)
    requires
        uuid_time(access.id@) == Ok::<int, UuidTimeError>(told),
        call_ensures(ValueRef::<'a, T>::value, (&access,), value),
        call_ensures(ValueRef::<'a, T>::expires, (&access,), expires),
    ensures
        *value == old(access.store)@[access.id@],
        expires@ == told + old(access.store).kept_for().nanoseconds,
{
}

/// A query at a given time finds a stored value just where its lifetime has not passed.
pub proof fn law_query_goes_by_the_given_time<'a, T>(
    store: &'a mut StoreInner<T>,
    id: ID,
    now: Timestamp,
    told: int,
    r: Option<ValueRef<'a, T>>,
)
    requires
        call_ensures(StoreInner::<T>::query_at, (store, &id, now), r),
        uuid_time(id@) == Ok::<int, UuidTimeError>(told),
    ensures
        r is Some <==> old(store)@.dom().contains(id@) && now@ - told <= old(
            store,
        ).kept_for().nanoseconds,
        r matches Some(found) ==> found.id@ == id@,
{
}

/// A value that was put under an id is what taking it out gives back, and then everything is as
/// it was. Putting it there fails just where the id is taken.
pub proof fn law_delete_undoes_insert<T>(
    before: &mut StoreInner<T>,
    id: ID,
    data: T,
    inserted: Result<(), StoreError>,
    after: &mut StoreInner<T>,
    taken: Option<(ID, T)>,
)
    requires
        call_ensures(StoreInner::<T>::insert_at, (before, id, data), inserted),
        call_ensures(StoreInner::<T>::delete, (after, &id), taken),
        *after == *final(before),
    ensures
        inserted is Ok <==> !old(before)@.dom().contains(id@),
        inserted is Ok ==> final(after)@ == old(before)@,
        inserted is Ok ==> (taken matches Some(pair) && pair.0@ == id@ && pair.1 == data),
{
    if inserted is Ok {
        assert(old(before)@.insert(id@, data).remove(id@) =~= old(before)@);
    }
}

/// A cleanup at a given time takes out a value just where its lifetime has passed, and changes no
/// other.
pub proof fn law_cleanup_goes_by_the_given_time<T>(
    store: &mut StoreInner<T>,
    now: Timestamp,
    id: ID,
    told: int,
)
    requires
        call_ensures(StoreInner::<T>::cleanup_at, (store, now), ()),
        uuid_time(id@) == Ok::<int, UuidTimeError>(told),
    ensures
        final(store)@.dom().contains(id@) <==> old(store)@.dom().contains(id@) && now@ - told
            < old(store).kept_for().nanoseconds,
        final(store)@.dom().contains(id@) ==> final(store)@[id@] == old(store)@[id@],
{
}

} // verus!
