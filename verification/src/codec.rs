//! Array marshaling: the two native array conventions, unified behind types
//! that produce a finite sequence of elements.
//!
//! The foreign interface hands arrays over in two incompatible shapes:
//!
//! * *counted*: a two-call protocol — the first call reports the required
//!   length, the second fills a caller-allocated buffer of exactly that
//!   length; see [`CountedSource`] and [`read_counted`];
//! * *sentinel-terminated*: elements are read one at a time from a base
//!   pointer until a null/zero entry marks the end, and afterwards the one
//!   paired bulk-release call is applied to the base pointer; see
//!   [`SentinelList`].
//!
//! Lists the foreign side allocates for us ([`SentinelList`],
//! [`OwnedCountedList`]) carry a release flag: taking their elements hands the
//! allocation back exactly once, and a null base pointer decodes to the empty
//! sequence with no release at all.

use vstd::prelude::*;

use crate::text::c_content;
use crate::text::from_foreign;

verus! {

/// The elements before the first sentinel entry, in order; empty if the very
/// first entry is the sentinel.
pub open spec fn sentinel_prefix<T>(slots: Seq<Option<T>>) -> Seq<T>
    decreases slots.len(),
{
    if slots.len() == 0 {
        Seq::empty()
    } else {
        match slots[0] {
            Option::None => Seq::empty(),
            Option::Some(t) => seq![t] + sentinel_prefix(slots.skip(1)),
        }
    }
}

/// The foreign side of a counted accessor: the element store together with an
/// account of how often each of the two protocol calls was made.
pub struct CountedSource<T> {
    data: Vec<T>,
    queries: u64,
    fills: u64,
}

impl<T: Copy> CountedSource<T> {
    /// The elements the foreign side would report.
    pub closed spec fn elems(&self) -> Seq<T> {
        self.data@
    }

    /// How many length queries (first calls) have been made.
    pub closed spec fn query_count(&self) -> u64 {
        self.queries
    }

    /// How many fill calls (second calls) have been made.
    pub closed spec fn fill_count(&self) -> u64 {
        self.fills
    }

    /// A fresh source holding the given elements, with no calls made yet.
    pub fn new(data: Vec<T>) -> (r: CountedSource<T>)
        ensures
            r.elems() == data@,
            r.query_count() == 0,
            r.fill_count() == 0,
    {
        CountedSource { data, queries: 0, fills: 0 }
    }

    /// The first protocol call: asks the foreign side for the required buffer
    /// length (a null buffer pointer and an out-parameter for the count).
    fn query_len(&mut self) -> (n: usize)
        requires
            old(self).query_count() < u64::MAX,
        ensures
            n == old(self).elems().len(),
            final(self).elems() == old(self).elems(),
            final(self).query_count() == old(self).query_count() + 1,
            final(self).fill_count() == old(self).fill_count(),
    {
        self.queries += 1;
        self.data.len()
    }

    /// The second protocol call: fills the caller-allocated buffer with the
    /// elements.
    fn fill(&mut self, buf: &mut Vec<T>)
        requires
            old(self).fill_count() < u64::MAX,
        ensures
            final(buf)@ == old(self).elems(),
            final(self).elems() == old(self).elems(),
            final(self).query_count() == old(self).query_count(),
            final(self).fill_count() == old(self).fill_count() + 1,
    {
        self.fills += 1;
        buf.clear();
        let mut i: usize = 0;
        while i < self.data.len()
            invariant
                i <= self.data@.len(),
                buf@ == self.data@.subrange(0, i as int),
            decreases self.data@.len() - i,
        {
            buf.push(self.data[i]);
            proof {
                assert(buf@ =~= self.data@.subrange(0, i + 1 as int));
            }
            i += 1;
        }
        proof {
            assert(self.data@.subrange(0, self.data@.len() as int) =~= self.data@);
        }
    }

    /// The number of length queries made so far.
    pub fn queries_made(&self) -> (n: u64)
        ensures
            n == self.query_count(),
    {
        self.queries
    }

    /// The number of fill calls made so far.
    pub fn fills_made(&self) -> (n: u64)
        ensures
            n == self.fill_count(),
    {
        self.fills
    }
}

/// Replays the counted two-call protocol: query the length; with length zero
/// yield the empty sequence without a second call; otherwise allocate a buffer
/// of exactly that length and have it filled.
pub fn read_counted<T: Copy>(src: &mut CountedSource<T>) -> (r: Vec<T>)
    requires
        old(src).query_count() < u64::MAX,
        old(src).fill_count() < u64::MAX,
    ensures
        r@ == old(src).elems(),
        final(src).elems() == old(src).elems(),
        final(src).query_count() == old(src).query_count() + 1,
        final(src).fill_count() == old(src).fill_count() + if old(src).elems().len() == 0 {
            0int
        } else {
            1int
        },
{
    let n = src.query_len();
    if n == 0 {
        proof {
            assert(old(src).elems() =~= Seq::<T>::empty());
        }
        return Vec::new();
    }
    let mut buf: Vec<T> = Vec::with_capacity(n);
    src.fill(&mut buf);
    buf
}

/// A foreign-allocated, sentinel-terminated list whose base pointer must be
/// handed to the paired bulk-release function exactly once. A base pointer
/// equal to the foreign null is modeled by [`SentinelList::null`].
pub struct SentinelList<T> {
    present: bool,
    slots: Vec<Option<T>>,
    freed: bool,
}

impl<T> SentinelList<T> {
    /// Whether the base pointer is non-null.
    pub closed spec fn is_present(&self) -> bool {
        self.present
    }

    /// The raw entries behind the base pointer, sentinel included.
    pub closed spec fn entries(&self) -> Seq<Option<T>> {
        self.slots@
    }

    /// Whether the bulk-release call has been made.
    pub closed spec fn released(&self) -> bool {
        self.freed
    }

    /// What decoding yields: the elements before the first sentinel, or
    /// nothing for a null base pointer.
    pub open spec fn decoded(&self) -> Seq<T> {
        if self.is_present() {
            sentinel_prefix(self.entries())
        } else {
            Seq::empty()
        }
    }

    /// A non-null list is terminated: some entry is the sentinel.
    pub open spec fn wf(&self) -> bool {
        self.is_present() ==> exists|i: int|
            0 <= i < self.entries().len() && self.entries()[i] is None
    }

    /// A list behind a non-null base pointer. The foreign contract guarantees
    /// a terminating sentinel entry.
    pub fn new(slots: Vec<Option<T>>) -> (r: SentinelList<T>)
        requires
            exists|i: int| 0 <= i < slots@.len() && slots@[i] is None,
        ensures
            r.is_present(),
            r.entries() == slots@,
            !r.released(),
            r.wf(),
    {
        SentinelList { present: true, slots, freed: false }
    }

    /// A null base pointer: decodes to nothing, owes no release.
    pub fn null() -> (r: SentinelList<T>)
        ensures
            !r.is_present(),
            !r.released(),
            r.wf(),
    {
        SentinelList { present: false, slots: Vec::new(), freed: false }
    }

    /// Whether the release call has been made; lets a caller observe the
    /// acquire/release pairing.
    pub fn was_released(&self) -> (r: bool)
        ensures
            r == self.released(),
    {
        self.freed
    }

    /// Scans from the base pointer one entry at a time until the sentinel,
    /// moves the surviving elements out, and makes the one bulk-release call
    /// on the base pointer. A null base pointer yields the empty sequence and
    /// no release call at all.
    pub fn take(&mut self) -> (r: Vec<T>)
        requires
            old(self).wf(),
            !old(self).released(),
        ensures
            r@ == old(self).decoded(),
            final(self).is_present() == old(self).is_present(),
            final(self).released() == old(self).is_present(),
    {
        if !self.present {
            return Vec::new();
        }
        let mut slots: Vec<Option<T>> = Vec::new();
        core::mem::swap(&mut slots, &mut self.slots);
        let ghost orig = slots@;
        let mut r: Vec<T> = Vec::new();
        loop
            invariant
                exists|i: int| 0 <= i < slots@.len() && slots@[i] is None,
                sentinel_prefix(orig) == r@ + sentinel_prefix(slots@),
                orig == old(self).entries(),
                old(self).is_present(),
                self.present,
                !self.freed,
            decreases slots@.len(),
        {
            let ghost before = slots@;
            let head = slots.remove(0);
            proof {
                assert(slots@ =~= before.skip(1));
            }
            match head {
                Option::None => {
                    self.freed = true;
                    proof {
                        assert(sentinel_prefix(before) =~= Seq::<T>::empty());
                        assert(r@ =~= sentinel_prefix(orig));
                    }
                    return r;
                },
                Option::Some(t) => {
                    proof {
                        assert(sentinel_prefix(before) =~= seq![t] + sentinel_prefix(
                            before.skip(1),
                        ));
                        let i = choose|i: int|
                            0 <= i < before.len() && before[i] is None;
                        assert(slots@[i - 1] is None);
                    }
                    r.push(t);
                    proof {
                        assert(sentinel_prefix(orig) =~= r@ + sentinel_prefix(slots@));
                    }
                },
            }
        }
    }
}

/// A foreign-allocated array handed over together with its element count,
/// released as a whole by one paired call. A null base pointer is modeled by
/// [`OwnedCountedList::null`].
pub struct OwnedCountedList<T> {
    present: bool,
    items: Vec<T>,
    freed: bool,
}

impl<T> OwnedCountedList<T> {
    /// Whether the base pointer is non-null.
    pub closed spec fn is_present(&self) -> bool {
        self.present
    }

    /// The elements behind the base pointer.
    pub closed spec fn items(&self) -> Seq<T> {
        self.items@
    }

    /// Whether the bulk-release call has been made.
    pub closed spec fn released(&self) -> bool {
        self.freed
    }

    /// What taking the list yields: its elements, or nothing for a null base
    /// pointer.
    pub open spec fn decoded(&self) -> Seq<T> {
        if self.is_present() {
            self.items()
        } else {
            Seq::empty()
        }
    }

    /// A list behind a non-null base pointer, with its reported count.
    pub fn new(items: Vec<T>) -> (r: OwnedCountedList<T>)
        ensures
            r.is_present(),
            r.items() == items@,
            !r.released(),
    {
        OwnedCountedList { present: true, items, freed: false }
    }

    /// A null base pointer: decodes to nothing, owes no release.
    pub fn null() -> (r: OwnedCountedList<T>)
        ensures
            !r.is_present(),
            !r.released(),
    {
        OwnedCountedList { present: false, items: Vec::new(), freed: false }
    }

    /// Whether the release call has been made.
    pub fn was_released(&self) -> (r: bool)
        ensures
            r == self.released(),
    {
        self.freed
    }

    /// The reported element count.
    pub fn count(&self) -> (n: usize)
        ensures
            n == self.decoded().len(),
    {
        if self.present {
            self.items.len()
        } else {
            0
        }
    }

    /// Moves the elements out and makes the one bulk-release call; a null
    /// base pointer yields the empty sequence and no release.
    pub fn take(&mut self) -> (r: Vec<T>)
        requires
            !old(self).released(),
        ensures
            r@ == old(self).decoded(),
            final(self).is_present() == old(self).is_present(),
            final(self).released() == old(self).is_present(),
    {
        if !self.present {
            return Vec::new();
        }
        let mut items: Vec<T> = Vec::new();
        core::mem::swap(&mut items, &mut self.items);
        self.freed = true;
        items
    }
}

/// Decodes a batch of raw, null-terminated foreign strings into host-owned
/// byte strings, one for one.
pub fn decode_all(raw: &Vec<Vec<u8>>) -> (r: Vec<Vec<u8>>)
    ensures
        r@.len() == raw@.len(),
        forall|i: int| 0 <= i < raw@.len() ==> r@[i]@ == c_content(raw@[i]@),
{
    let mut r: Vec<Vec<u8>> = Vec::new();
    let mut i: usize = 0;
    while i < raw.len()
        invariant
            i <= raw@.len(),
            r@.len() == i,
            forall|j: int| 0 <= j < i ==> r@[j]@ == c_content(raw@[j]@),
        decreases raw@.len() - i,
    {
        let s = from_foreign(raw[i].as_slice());
        r.push(s);
        i += 1;
    }
    r
}

/// The sentinel prefix consists of the unwrapped entries before the first
/// sentinel: if the first `i` entries are elements and entry `i` (when
/// present) is the sentinel, the prefix is exactly those elements.
pub proof fn lemma_sentinel_prefix_at<T>(slots: Seq<Option<T>>, i: int)
    requires
        0 <= i <= slots.len(),
        forall|j: int| 0 <= j < i ==> slots[j] is Some,
        i < slots.len() ==> slots[i] is None,
    ensures
        sentinel_prefix(slots).len() == i,
        forall|j: int| 0 <= j < i ==> sentinel_prefix(slots)[j] == slots[j].unwrap(),
    decreases i,
{
    if i > 0 {
        lemma_sentinel_prefix_at(slots.skip(1), i - 1);
        assert(sentinel_prefix(slots) =~= seq![slots[0].unwrap()] + sentinel_prefix(
            slots.skip(1),
        ));
    }
}

/// The texts a sentinel-terminated string array decodes to.
pub open spec fn texts_of(slots: Seq<Option<Vec<u8>>>) -> Seq<Seq<u8>> {
    sentinel_prefix(slots).map_values(|v: Vec<u8>| c_content(v@))
}

/// Decodes a sentinel-terminated string array that is part of a larger
/// foreign allocation (and is released with it): scans until the sentinel and
/// copies each surviving text.
pub fn prefix_texts(slots: &Vec<Option<Vec<u8>>>) -> (r: Vec<Vec<u8>>)
    ensures
        r@.len() == texts_of(slots@).len(),
        forall|i: int| 0 <= i < r@.len() ==> r@[i]@ == texts_of(slots@)[i],
{
    let mut r: Vec<Vec<u8>> = Vec::new();
    let mut i: usize = 0;
    loop
        invariant
            i <= slots@.len(),
            r@.len() == i,
            forall|j: int| 0 <= j < i ==> slots@[j] is Some,
            forall|j: int| 0 <= j < i ==> r@[j]@ == c_content(slots@[j].unwrap()@),
        decreases slots@.len() - i,
    {
        if i == slots.len() {
            proof {
                lemma_sentinel_prefix_at(slots@, i as int);
            }
            return r;
        }
        match &slots[i] {
            Option::None => {
                proof {
                    lemma_sentinel_prefix_at(slots@, i as int);
                }
                return r;
            },
            Option::Some(v) => {
                r.push(from_foreign(v.as_slice()));
            },
        }
        i += 1;
    }
}

/// A single foreign-allocated record handed over whole, released by one
/// paired call; a null record pointer is modeled by [`OwnedRecord::null`].
pub struct OwnedRecord<T> {
    value: Option<T>,
    freed: bool,
}

impl<T> OwnedRecord<T> {
    /// Whether the record pointer is non-null.
    pub open spec fn is_present(&self) -> bool {
        self.record() is Some
    }

    /// The record behind the pointer, before it is taken.
    pub closed spec fn record(&self) -> Option<T> {
        self.value
    }

    /// Whether the release call has been made.
    pub closed spec fn released(&self) -> bool {
        self.freed
    }

    /// A record behind a non-null pointer.
    pub fn new(value: T) -> (r: OwnedRecord<T>)
        ensures
            r.record() == Some(value),
            !r.released(),
    {
        OwnedRecord { value: Some(value), freed: false }
    }

    /// A null record pointer: yields nothing, owes no release.
    pub fn null() -> (r: OwnedRecord<T>)
        ensures
            !r.is_present(),
            !r.released(),
    {
        OwnedRecord { value: None, freed: false }
    }

    /// Whether the release call has been made.
    pub fn was_released(&self) -> (r: bool)
        ensures
            r == self.released(),
    {
        self.freed
    }

    /// Moves the record out and makes the one release call; a null pointer
    /// yields nothing and no release.
    pub fn take(&mut self) -> (r: Option<T>)
        requires
            !old(self).released(),
        ensures
            r == old(self).record(),
            final(self).released() == old(self).is_present(),
    {
        let mut v: Option<T> = None;
        core::mem::swap(&mut v, &mut self.value);
        if v.is_some() {
            self.freed = true;
        }
        v
    }
}

} // verus!
