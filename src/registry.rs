//! The registry of live devices: each identifier at most once, with the
//! descriptor taken at registration and the handle of the connection.

use vstd::prelude::*;
use crate::device::DeviceInfo;

verus! {

/// A registered device: its descriptor and the handle of its connection.
pub struct DeviceEntry<H> {
    pub info: DeviceInfo,
    pub handle: H,
}

/// Whether some entry has the identifier.
pub open spec fn holds<H>(s: Seq<DeviceEntry<H>>, id: Seq<char>) -> bool {
    exists|i: int| 0 <= i < s.len() && s[i].info.id@ == id
}

/// No identifier occurs twice.
pub open spec fn unique_ids<H>(s: Seq<DeviceEntry<H>>) -> bool {
    forall|i: int, j: int|
        0 <= i < s.len() && 0 <= j < s.len() && i != j ==> s[i].info.id@ != s[j].info.id@
}

/// Where the entry with the identifier stands, for an identifier that is held.
pub open spec fn position_of<H>(s: Seq<DeviceEntry<H>>, id: Seq<char>) -> int {
    choose|i: int| 0 <= i < s.len() && s[i].info.id@ == id
}

/// The entries after a registration: unchanged where the identifier is held.
pub open spec fn registered<H>(s: Seq<DeviceEntry<H>>, e: DeviceEntry<H>) -> Seq<DeviceEntry<H>> {
    if holds(s, e.info.id@) {
        s
    } else {
        s.push(e)
    }
}

/// The entries after the identifier was removed.
pub open spec fn deregistered<H>(s: Seq<DeviceEntry<H>>, id: Seq<char>) -> Seq<DeviceEntry<H>> {
    if holds(s, id) {
        s.remove(position_of(s, id))
    } else {
        s
    }
}

proof fn lemma_position_unique<H>(s: Seq<DeviceEntry<H>>, i: int)
    requires
        unique_ids(s),
        0 <= i < s.len(),
    ensures
        holds(s, s[i].info.id@),
        position_of(s, s[i].info.id@) == i,
{
    let id = s[i].info.id@;
    assert(0 <= i < s.len() && s[i].info.id@ == id);
    let j = position_of(s, id);
    assert(0 <= j < s.len() && s[j].info.id@ == id);
}

/// The live devices, keyed by identifier.
pub struct Registry<H> {
    entries: Vec<DeviceEntry<H>>,
}

impl<H> Registry<H> {
    pub closed spec fn view(&self) -> Seq<DeviceEntry<H>> {
        self.entries@
    }

    pub open spec fn wf(&self) -> bool {
        unique_ids(self.view())
    }

    /// An empty registry.
    pub fn new() -> (r: Registry<H>)
        ensures
            r.view() == Seq::<DeviceEntry<H>>::empty(),
            r.wf(),
    {
        Registry { entries: Vec::new() }
    }

    /// The entries, in order of registration.
    pub fn entries(&self) -> (r: &Vec<DeviceEntry<H>>)
        ensures
            r@ == self.view(),
    {
        &self.entries
    }

    /// The number of live devices.
    pub fn len(&self) -> (r: usize)
        ensures
            r == self.view().len(),
    {
        self.entries.len()
    }

    fn find(&self, id: &String) -> (r: Option<usize>)
        requires
            self.wf(),
        ensures
            match r {
                Some(i) => holds(self.view(), id@) && i == position_of(self.view(), id@) && i
                    < self.view().len(),
                None => !holds(self.view(), id@),
            },
    {
        let mut i: usize = 0;
        while i < self.entries.len()
            invariant
                i <= self.entries@.len(),
                unique_ids(self.entries@),
                forall|k: int| 0 <= k < i ==> self.entries@[k].info.id@ != id@,
            decreases self.entries@.len() - i,
        {
            if self.entries[i].info.id == *id {
                proof {
                    lemma_position_unique(self.entries@, i as int);
                }
                return Some(i);
            }
            i = i + 1;
        }
        None
    }

    /// Whether a device with the identifier is live.
    pub fn contains(&self, id: &String) -> (r: bool)
        requires
            self.wf(),
        ensures
            r == holds(self.view(), id@),
    {
        self.find(id).is_some()
    }

    /// The entry of the device with the identifier, if it is live.
    pub fn get(&self, id: &String) -> (r: Option<&DeviceEntry<H>>)
        requires
            self.wf(),
        ensures
            match r {
                Some(e) => holds(self.view(), id@) && *e == self.view()[position_of(
                    self.view(),
                    id@,
                )] && e.info.id@ == id@,
                None => !holds(self.view(), id@),
            },
    {
        match self.find(id) {
            Some(i) => Some(&self.entries[i]),
            None => None,
        }
    }

    /// Adds the entry unless its identifier is already live; tells whether it
    /// was added. A live entry is never replaced.
    pub fn register(&mut self, entry: DeviceEntry<H>) -> (r: bool)
        requires
            old(self).wf(),
        ensures
            final(self).wf(),
            r == !holds(old(self).view(), entry.info.id@),
            final(self).view() == registered(old(self).view(), entry),
    {
        if self.find(&entry.info.id).is_some() {
            return false;
        }
        proof {
            let s = self.entries@.push(entry);
            assert forall|i: int, j: int|
                0 <= i < s.len() && 0 <= j < s.len() && i != j implies s[i].info.id@
                != s[j].info.id@ by {
                if i < self.entries@.len() && j < self.entries@.len() {
                } else if i < self.entries@.len() {
                    assert(s[i] == self.entries@[i]);
                } else {
                    assert(s[j] == self.entries@[j]);
                }
            }
        }
        self.entries.push(entry);
        true
    }

    /// Removes the device with the identifier and hands back its entry.
    pub fn deregister(&mut self, id: &String) -> (r: Option<DeviceEntry<H>>)
        requires
            old(self).wf(),
        ensures
            final(self).wf(),
            final(self).view() == deregistered(old(self).view(), id@),
            !holds(final(self).view(), id@),
            match r {
                Some(e) => holds(old(self).view(), id@) && e == old(self).view()[position_of(
                    old(self).view(),
                    id@,
                )],
                None => !holds(old(self).view(), id@),
            },
    {
        proof {
            lemma_deregistered_unique(self.entries@, id@);
        }
        match self.find(id) {
            Some(i) => Some(self.entries.remove(i)),
            None => None,
        }
    }
}

proof fn lemma_deregistered_unique<H>(s: Seq<DeviceEntry<H>>, id: Seq<char>)
    requires
        unique_ids(s),
    ensures
        unique_ids(deregistered(s, id)),
        !holds(deregistered(s, id), id),
{
    if holds(s, id) {
        let p = position_of(s, id);
        let t = s.remove(p);
        assert(0 <= p < s.len() && s[p].info.id@ == id);
        assert forall|i: int| 0 <= i < t.len() implies t[i].info.id@ != id by {
            if i < p {
                assert(t[i] == s[i]);
            } else {
                assert(t[i] == s[i + 1]);
            }
        }
        assert forall|i: int, j: int|
            0 <= i < t.len() && 0 <= j < t.len() && i != j implies t[i].info.id@
            != t[j].info.id@ by {
            let si = if i < p { i } else { i + 1 };
            let sj = if j < p { j } else { j + 1 };
            assert(t[i] == s[si]);
            assert(t[j] == s[sj]);
        }
    }
}

/// A second registration under a live identifier changes nothing: the live
/// entry, with its handle and descriptor, stays as it was.
pub proof fn lemma_duplicate_registration_is_ignored<H>(
    s: Seq<DeviceEntry<H>>,
    e: DeviceEntry<H>,
)
    requires
        holds(s, e.info.id@),
    ensures
        registered(s, e) == s,
{
}

/// Once a device is removed its identifier is gone, and removing it again
/// finds nothing: a device is handed back for teardown at most once.
pub proof fn lemma_removal_happens_once<H>(s: Seq<DeviceEntry<H>>, id: Seq<char>)
    requires
        unique_ids(s),
    ensures
        !holds(deregistered(s, id), id),
        deregistered(deregistered(s, id), id) == deregistered(s, id),
{
    lemma_deregistered_unique(s, id);
}

/// Removing one device leaves every other live device, entry and all, in
/// the registry.
pub proof fn lemma_removal_keeps_others<H>(s: Seq<DeviceEntry<H>>, gone: Seq<char>, other: Seq<char>)
    requires
        unique_ids(s),
        holds(s, other),
        other != gone,
    ensures
        holds(deregistered(s, gone), other),
        deregistered(s, gone)[position_of(deregistered(s, gone), other)] == s[position_of(
            s,
            other,
        )],
{
    let q = position_of(s, other);
    assert(0 <= q < s.len() && s[q].info.id@ == other);
    lemma_deregistered_unique(s, gone);
    let t = deregistered(s, gone);
    if holds(s, gone) {
        let p = position_of(s, gone);
        assert(0 <= p < s.len() && s[p].info.id@ == gone);
        assert(q != p);
        let k = if q < p { q } else { q - 1 };
        assert(t[k] == s[q]);
        lemma_position_unique(t, k);
    } else {
        lemma_position_unique(s, q);
    }
}

} // verus!
