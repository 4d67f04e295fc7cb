//! A cache of served artifacts: each file is read once and then shared.
//!
//! However many ask for a file at a time, one of them reads it; the others wait, and ask again.
//!
//! The cache is bounded: a new artifact drives out those that were used longest ago until all fit
//! together. An artifact that does not fit by itself is not kept.

use vstd::prelude::*;

use crate::text::{numeral, parse_number, same};

verus! {

/// How many bytes a cache holds where nothing else is set.
pub const DEFAULT_MAX_BYTES: u64 = 1_073_741_824;

/// How many bytes are streamed at a time.
pub const STREAM_CHUNK: usize = 65_536;

// ---------------------------------------------------------------------------------------------
// Shared bytes
// ---------------------------------------------------------------------------------------------

/// Bytes that can be shared without being copied.
#[verifier::external_type_specification]
#[verifier::external_body]
pub struct ExBytes(bytes::Bytes);

/// The bytes that a `bytes::Bytes` holds.
pub uninterp spec fn contents(b: bytes::Bytes) -> Seq<u8>;

/// `bytes::Bytes::from` takes over the bytes of a vector.
#[verifier::external_body]
fn share(bytes: Vec<u8>) -> (r: bytes::Bytes)
    ensures
        contents(r) == bytes@,
{
    bytes::Bytes::from(bytes)
}

/// Cloning a `bytes::Bytes` gives another one with the same bytes.
#[verifier::external_body]
fn another(b: &bytes::Bytes) -> (r: bytes::Bytes)
    ensures
        contents(r) == contents(*b),
{
    b.clone()
}

/// `bytes::Bytes::len` counts the bytes.
#[verifier::external_body]
fn length(b: &bytes::Bytes) -> (r: usize)
    ensures
        r == contents(*b).len(),
{
    b.len()
}

/// `bytes::Bytes::slice` gives the bytes of a range. The range has to lie within the bytes.
#[verifier::external_body]
fn slice(b: &bytes::Bytes, from: usize, to: usize) -> (r: bytes::Bytes)
    requires
        from <= to <= contents(*b).len(),
    ensures
        contents(r) == contents(*b).subrange(from as int, to as int),
{
    b.slice(from..to)
}

/// `bytes::Bytes::split_to` takes the first bytes off and gives them. There have to be that many.
#[verifier::external_body]
fn split_to(b: &mut bytes::Bytes, at: usize) -> (r: bytes::Bytes)
    requires
        at <= contents(*old(b)).len(),
    ensures
        contents(r) == contents(*old(b)).take(at as int),
        contents(*final(b)) == contents(*old(b)).skip(at as int),
{
    b.split_to(at)
}

// ---------------------------------------------------------------------------------------------
// The cache
// ---------------------------------------------------------------------------------------------

/// A cached artifact.
pub struct Entry {
    pub path: String,
    pub bytes: bytes::Bytes,
}

/// A cached artifact as a mathematical value: its path and its bytes.
pub type EntryView = (Seq<char>, Seq<u8>);

impl DeepView for Entry {
    type V = EntryView;

    open spec fn deep_view(&self) -> EntryView {
        (self.path@, contents(self.bytes))
    }
}

/// What a request for an artifact gives.
pub enum GetResult {
    /// Its bytes, which are shared.
    Cached(bytes::Bytes),
    /// It does not fit into the cache; this is its length.
    TooLarge(u64),
}

/// What someone who asks for an artifact is told.
pub enum Asked {
    /// It is cached: these are its bytes, which are shared.
    Cached(bytes::Bytes),
    /// Read it, and hand it in.
    Read,
    /// It is being read: wait, and ask again.
    Wait,
}

/// `Asked` as a mathematical value.
pub enum AskedView {
    Cached(Seq<u8>),
    Read,
    Wait,
}

impl DeepView for Asked {
    type V = AskedView;

    open spec fn deep_view(&self) -> AskedView {
        match self {
            Asked::Cached(bytes) => AskedView::Cached(contents(*bytes)),
            Asked::Read => AskedView::Read,
            Asked::Wait => AskedView::Wait,
        }
    }
}

/// The cached artifacts, in the order of their last use: the first was used longest ago.
pub struct ArtifactCache {
    entries: Vec<Entry>,
    in_flight: Vec<String>,
    max_bytes: u64,
    current_bytes: u64,
}

/// How many bytes the entries hold together.
pub open spec fn total(entries: Seq<EntryView>) -> nat
    decreases entries.len(),
{
    if entries.len() == 0 {
        0
    } else {
        total(entries.drop_last()) + entries.last().1.len()
    }
}

/// No two entries share a path.
pub open spec fn distinct(entries: Seq<EntryView>) -> bool {
    forall|i: int, j: int|
        0 <= i < j < entries.len() ==> (#[trigger] entries[i]).0 != (#[trigger] entries[j]).0
}

/// The place of the entry with a path.
pub open spec fn place(entries: Seq<EntryView>, path: Seq<char>, from: int) -> Option<int>
    decreases entries.len() - from,
{
    if from < 0 || from >= entries.len() {
        None
    } else if entries[from].0 == path {
        Some(from)
    } else {
        place(entries, path, from + 1)
    }
}

/// The entries without the one with a path.
pub open spec fn without(entries: Seq<EntryView>, path: Seq<char>) -> Seq<EntryView> {
    match place(entries, path, 0) {
        Some(i) => entries.remove(i),
        None => entries,
    }
}

/// The bytes of the entry with a path.
pub open spec fn found(entries: Seq<EntryView>, path: Seq<char>) -> Option<Seq<u8>> {
    match place(entries, path, 0) {
        Some(i) => Some(entries[i].1),
        None => None,
    }
}

/// The entries after one of them was used: it comes last.
pub open spec fn used(entries: Seq<EntryView>, path: Seq<char>) -> Seq<EntryView> {
    match place(entries, path, 0) {
        Some(i) => entries.remove(i).push(entries[i]),
        None => entries,
    }
}

/// The entries after those used longest ago were driven out, as many as it takes for the others
/// to fit; the last one stays.
pub open spec fn evicted(entries: Seq<EntryView>, max_bytes: u64) -> Seq<EntryView>
    decreases entries.len(),
{
    if entries.len() > 1 && total(entries) > max_bytes {
        evicted(entries.drop_first(), max_bytes)
    } else {
        entries
    }
}

/// The entries after an artifact was entered.
pub open spec fn entered(
    entries: Seq<EntryView>,
    path: Seq<char>,
    bytes: Seq<u8>,
    max_bytes: u64,
) -> Seq<EntryView> {
    evicted(without(entries, path).push((path, bytes)), max_bytes)
}

/// What someone who asks for an artifact is told, by what is cached and what is being read.
pub open spec fn answer(
    entries: Seq<EntryView>,
    in_flight: Seq<Seq<char>>,
    path: Seq<char>,
) -> AskedView {
    match found(entries, path) {
        Some(bytes) => AskedView::Cached(bytes),
        None => if in_flight.contains(path) {
            AskedView::Wait
        } else {
            AskedView::Read
        },
    }
}

/// What is being read after someone asked for an artifact.
pub open spec fn in_flight_after(
    entries: Seq<EntryView>,
    in_flight: Seq<Seq<char>>,
    path: Seq<char>,
) -> Seq<Seq<char>> {
    if answer(entries, in_flight, path) is Read {
        in_flight.push(path)
    } else {
        in_flight
    }
}

/// What is being read without an artifact.
pub open spec fn released(in_flight: Seq<Seq<char>>, path: Seq<char>) -> Seq<Seq<char>> {
    if in_flight.contains(path) {
        in_flight.remove(in_flight.index_of(path))
    } else {
        in_flight
    }
}

/// What is cached, in the order of its last use, and what is being read.
pub struct CacheView {
    pub entries: Seq<EntryView>,
    pub in_flight: Seq<Seq<char>>,
}

/// What happens to a cache.
pub enum Traffic {
    /// Someone asks for an artifact.
    Ask(Seq<char>),
    /// An artifact that was read is handed in, or nothing where reading it failed.
    HandIn(Seq<char>, Option<Seq<u8>>),
}

/// A cache of at most `max_bytes` after something happened to it.
pub open spec fn after(c: CacheView, t: Traffic, max_bytes: u64) -> CacheView {
    match t {
        Traffic::Ask(path) => CacheView {
            entries: used(c.entries, path),
            in_flight: in_flight_after(c.entries, c.in_flight, path),
        },
        Traffic::HandIn(path, file) => CacheView {
            entries: match file {
                Some(bytes) => if bytes.len() <= max_bytes {
                    entered(c.entries, path, bytes, max_bytes)
                } else {
                    c.entries
                },
                None => c.entries,
            },
            in_flight: released(c.in_flight, path),
        },
    }
}

/// A cache of at most `max_bytes` after several things happened to it.
pub open spec fn after_all(c: CacheView, traffic: Seq<Traffic>, max_bytes: u64) -> CacheView
    decreases traffic.len(),
{
    if traffic.len() == 0 {
        c
    } else {
        after(after_all(c, traffic.drop_last(), max_bytes), traffic.last(), max_bytes)
    }
}

/// How many of those who ask for an artifact are told to read it.
pub open spec fn reads(
    c: CacheView,
    traffic: Seq<Traffic>,
    path: Seq<char>,
    max_bytes: u64,
) -> nat
    decreases traffic.len(),
{
    if traffic.len() == 0 {
        0
    } else {
        let now = after_all(c, traffic.drop_last(), max_bytes);
        let before = reads(c, traffic.drop_last(), path, max_bytes);
        if traffic.last() == Traffic::Ask(path) && answer(
            now.entries,
            now.in_flight,
            path,
        ) is Read {
            before + 1
        } else {
            before
        }
    }
}

/// Nobody hands in an artifact.
pub open spec fn is_not_handed_in(traffic: Seq<Traffic>, path: Seq<char>) -> bool {
    forall|i: int|
        0 <= i < traffic.len() ==> !((#[trigger] traffic[i]) is HandIn && traffic[i]->HandIn_0
            == path)
}

/// Someone asks for an artifact.
pub open spec fn is_asked_for(traffic: Seq<Traffic>, path: Seq<char>) -> bool {
    traffic.contains(Traffic::Ask(path))
}

/// How many bytes a cache is to hold, by what is set: a number above zero, or the default.
pub open spec fn configured_max(setting: Option<Seq<char>>) -> u64 {
    match setting {
        Some(text) => match numeral(text, 10) {
            Some(n) if n > 0 => n,
            _ => DEFAULT_MAX_BYTES,
        },
        None => DEFAULT_MAX_BYTES,
    }
}

proof fn place_is_right(entries: Seq<EntryView>, path: Seq<char>, from: int)
    requires
        0 <= from,
    ensures
        place(entries, path, from) matches Some(i) ==> from <= i < entries.len() && entries[i].0
            == path,
        place(entries, path, from) is None ==> forall|i: int|
            from <= i < entries.len() ==> (#[trigger] entries[i]).0 != path,
    decreases entries.len() - from,
{
    if from < entries.len() && entries[from].0 != path {
        place_is_right(entries, path, from + 1);
    }
}

proof fn place_of_known(entries: Seq<EntryView>, i: int, from: int)
    requires
        distinct(entries),
        0 <= from <= i < entries.len(),
    ensures
        place(entries, entries[i].0, from) == Some(i),
    decreases i - from,
{
    if from < i {
        assert(entries[from].0 != entries[i].0);
        place_of_known(entries, i, from + 1);
    }
}

proof fn total_of_two(a: Seq<EntryView>, b: Seq<EntryView>)
    ensures
        total(a + b) == total(a) + total(b),
    decreases b.len(),
{
    if b.len() == 0 {
        assert(a + b =~= a);
    } else {
        assert((a + b).drop_last() =~= a + b.drop_last());
        total_of_two(a, b.drop_last());
    }
}

proof fn total_of_one(e: EntryView)
    ensures
        total(seq![e]) == e.1.len(),
{
    assert(seq![e].drop_last() =~= Seq::empty());
    assert(total(Seq::<EntryView>::empty()) == 0);
}

proof fn total_without(entries: Seq<EntryView>, i: int)
    requires
        0 <= i < entries.len(),
    ensures
        total(entries.remove(i)) + entries[i].1.len() == total(entries),
{
    let a = entries.take(i);
    let e = entries[i];
    let b = entries.skip(i + 1);
    assert(entries =~= a + seq![e] + b);
    assert(entries.remove(i) =~= a + b);
    total_of_two(a + seq![e], b);
    total_of_two(a, seq![e]);
    total_of_two(a, b);
    total_of_one(e);
}

proof fn distinct_without(entries: Seq<EntryView>, i: int)
    requires
        distinct(entries),
        0 <= i < entries.len(),
    ensures
        distinct(entries.remove(i)),
        forall|j: int|
            0 <= j < entries.len() - 1 ==> (#[trigger] entries.remove(i)[j]).0 != entries[i].0,
{
    let rest = entries.remove(i);
    assert forall|a: int, b: int| 0 <= a < b < rest.len() implies (#[trigger] rest[a]).0 != (
    #[trigger] rest[b]).0 by {
        let p = if a < i {
            a
        } else {
            a + 1
        };
        let q = if b < i {
            b
        } else {
            b + 1
        };
        assert(rest[a] == entries[p] && rest[b] == entries[q]);
        assert(entries[p].0 != entries[q].0);
    }
    assert forall|j: int| 0 <= j < entries.len() - 1 implies (#[trigger] rest[j]).0
        != entries[i].0 by {
        if j < i {
            assert(entries[j].0 != entries[i].0);
        } else {
            assert(entries[i].0 != entries[j + 1].0);
        }
    }
}

proof fn distinct_with_last(entries: Seq<EntryView>, e: EntryView)
    requires
        distinct(entries),
        forall|j: int| 0 <= j < entries.len() ==> (#[trigger] entries[j]).0 != e.0,
    ensures
        distinct(entries.push(e)),
{
    let after = entries.push(e);
    assert forall|a: int, b: int| 0 <= a < b < after.len() implies (#[trigger] after[a]).0 != (
    #[trigger] after[b]).0 by {
        if b < entries.len() {
            assert(entries[a].0 != entries[b].0);
        } else {
            assert(entries[a].0 != e.0);
        }
    }
}

/// `kept` is what is left of the entries without the first of them, and with one more it would
/// not fit.
pub open spec fn is_needed_tail(
    entries: Seq<EntryView>,
    kept: Seq<EntryView>,
    max_bytes: u64,
) -> bool {
    exists|k: int|
        0 <= k < entries.len() && kept == #[trigger] entries.skip(k) && (k > 0 ==> total(
            entries.skip(k - 1),
        ) > max_bytes)
}

proof fn evicted_is_a_tail(entries: Seq<EntryView>, max_bytes: u64)
    requires
        entries.len() > 0,
    ensures
        is_needed_tail(entries, evicted(entries, max_bytes), max_bytes),
        evicted(entries, max_bytes).len() > 0,
        evicted(entries, max_bytes).last() == entries.last(),
        total(evicted(entries, max_bytes)) <= max_bytes || evicted(entries, max_bytes).len() == 1,
        distinct(entries) ==> distinct(evicted(entries, max_bytes)),
    decreases entries.len(),
{
    if entries.len() > 1 && total(entries) > max_bytes {
        let rest = entries.drop_first();
        if distinct(entries) {
            assert forall|a: int, b: int| 0 <= a < b < rest.len() implies (#[trigger] rest[a]).0
                != (#[trigger] rest[b]).0 by {
                assert(entries[a + 1].0 != entries[b + 1].0);
            }
        }
        evicted_is_a_tail(rest, max_bytes);
        let k = choose|k: int|
            0 <= k < rest.len() && evicted(rest, max_bytes) == #[trigger] rest.skip(k) && (k > 0
                ==> total(rest.skip(k - 1)) > max_bytes);
        assert(entries.skip(k + 1) =~= rest.skip(k));
        if k > 0 {
            assert(entries.skip(k) =~= rest.skip(k - 1));
        } else {
            assert(entries.skip(0) =~= entries);
        }
    } else {
        assert(entries.skip(0) =~= entries);
    }
}

impl ArtifactCache {
    /// The entries, in the order of their last use.
    pub closed spec fn entries(&self) -> Seq<EntryView> {
        self.entries.deep_view()
    }

    /// The artifacts that are being read.
    pub closed spec fn in_flight(&self) -> Seq<Seq<char>> {
        self.in_flight.deep_view()
    }

    /// What is cached, and what is being read.
    pub open spec fn state(&self) -> CacheView {
        CacheView { entries: self.entries(), in_flight: self.in_flight() }
    }

    /// How many bytes the cache holds at most.
    pub closed spec fn max(&self) -> u64 {
        self.max_bytes
    }

    /// No two entries share a path, the bytes are counted right, and they fit. Nothing is being
    /// read twice.
    pub closed spec fn wf(&self) -> bool {
        &&& distinct(self.entries())
        &&& self.in_flight().no_duplicates()
        &&& self.current_bytes == total(self.entries())
        &&& total(self.entries()) <= self.max_bytes
    }

    /// An empty cache.
    pub fn new(max_bytes: u64) -> (r: ArtifactCache)
        ensures
            r.wf(),
            r.entries() == Seq::<EntryView>::empty(),
            r.in_flight() == Seq::<Seq<char>>::empty(),
            r.max() == max_bytes,
    {
        let r = ArtifactCache {
            entries: Vec::new(),
            in_flight: Vec::new(),
            max_bytes,
            current_bytes: 0,
        };
        assert(r.entries() =~= Seq::empty());
        assert(r.in_flight() =~= Seq::empty());
        r
    }

    /// How many bytes a cache is to hold, by what is set.
    pub fn max_bytes_from_env(setting: Option<&str>) -> (r: u64)
        ensures
            r == configured_max(
                match setting {
                    Some(s) => Some(s@),
                    None => None,
                },
            ),
    {
        match setting {
            Some(text) => match parse_number(text, 10) {
                Ok(n) => if n > 0 {
                    n
                } else {
                    DEFAULT_MAX_BYTES
                },
                Err(_) => DEFAULT_MAX_BYTES,
            },
            None => DEFAULT_MAX_BYTES,
        }
    }

    /// How many bytes are cached.
    pub fn current_bytes(&self) -> (r: u64)
        requires
            self.wf(),
        ensures
            r == total(self.entries()),
            r <= self.max(),
    {
        self.current_bytes
    }

    fn find(&self, path: &str) -> (r: Option<usize>)
        ensures
            (match r {
                Some(i) => Some(i as int),
                None => None,
            }) == place(self.entries(), path@, 0),
            r matches Some(i) ==> i < self.entries@.len(),
    {
        let mut i: usize = 0;
        while i < self.entries.len()
            invariant
                i <= self.entries.len(),
                place(self.entries(), path@, 0) == place(self.entries(), path@, i as int),
            decreases self.entries.len() - i,
        {
            assert(self.entries()[i as int] == self.entries@[i as int].deep_view());
            if same(self.entries[i].path.as_str(), path) {
                return Some(i);
            }
            i = i + 1;
        }
        None
    }

    /// The bytes of an artifact, if it is cached, which is then the one used last.
    pub fn get_cached(&mut self, path: &str) -> (r: Option<bytes::Bytes>)
        requires
            old(self).wf(),
        ensures
            final(self).wf(),
            final(self).max() == old(self).max(),
            final(self).in_flight() == old(self).in_flight(),
            final(self).entries() == used(old(self).entries(), path@),
            (match r {
                Some(b) => Some(contents(b)),
                None => None,
            }) == found(old(self).entries(), path@),
    {
        match self.find(path) {
            Some(i) => {
                let ghost before = self.entries();
                let entry: Entry = self.entries.remove(i);
                let bytes = another(&entry.bytes);
                proof {
                    place_is_right(before, path@, 0);
                    total_without(before, i as int);
                    distinct_without(before, i as int);
                    distinct_with_last(before.remove(i as int), before[i as int]);
                    total_of_two(before.remove(i as int), seq![before[i as int]]);
                    total_of_one(before[i as int]);
                    assert(before.remove(i as int).push(before[i as int]) =~= before.remove(
                        i as int,
                    ) + seq![before[i as int]]);
                }
                self.entries.push(entry);
                assert(self.entries() =~= used(before, path@));
                Some(bytes)
            },
            None => None,
        }
    }

    /// Enters an artifact and drives out as many of those used longest ago as it takes.
    fn insert(&mut self, path: &str, bytes: bytes::Bytes, len: u64)
        requires
            old(self).wf(),
            len == contents(bytes).len(),
            len <= old(self).max(),
        ensures
            final(self).wf(),
            final(self).max() == old(self).max(),
            final(self).in_flight() == old(self).in_flight(),
            final(self).entries() == entered(
                old(self).entries(),
                path@,
                contents(bytes),
                old(self).max(),
            ),
    {
        let ghost before = self.entries();
        let ghost e = (path@, contents(bytes));
        let ghost rest = without(before, path@);
        let max_bytes: u64 = self.max_bytes;
        proof {
            place_is_right(before, path@, 0);
        }
        match self.find(path) {
            Some(i) => {
                let old_entry: Entry = self.entries.remove(i);
                proof {
                    total_without(before, i as int);
                    distinct_without(before, i as int);
                    assert(old_entry.deep_view() == before[i as int]);
                    assert(self.entries() =~= rest);
                }
                self.current_bytes = self.current_bytes - length(&old_entry.bytes) as u64;
            },
            None => {},
        }
        assert(self.entries() == rest);
        assert(distinct(rest));
        let ghost all = rest.push(e);
        proof {
            distinct_with_last(rest, e);
        }
        let mut gone: Ghost<int> = Ghost(0);
        assert(rest.skip(0).push(e) =~= all);
        while self.entries.len() > 0 && self.current_bytes > max_bytes - len
            invariant
                0 <= gone@ <= rest.len(),
                self.max_bytes == max_bytes,
                self.max() == old(self).max(),
                self.in_flight == old(self).in_flight,
                self.entries() == rest.skip(gone@),
                self.current_bytes == total(self.entries()),
                all == rest.push(e),
                e == (path@, contents(bytes)),
                len == contents(bytes).len(),
                len <= max_bytes,
                distinct(rest),
                evicted(all, max_bytes) == evicted(rest.skip(gone@).push(e), max_bytes),
            decreases self.entries.len(),
        {
            let ghost now = self.entries();
            let victim: Entry = self.entries.remove(0);
            proof {
                assert(now.len() > 0);
                total_without(now, 0);
                assert(victim.deep_view() == now[0]);
                assert(self.entries() =~= now.remove(0));
                assert(now.remove(0) =~= rest.skip(gone@ + 1));
                total_of_two(now, seq![e]);
                total_of_one(e);
                assert(now.push(e) =~= now + seq![e]);
                assert(now.push(e).drop_first() =~= rest.skip(gone@ + 1).push(e));
            }
            self.current_bytes = self.current_bytes - length(&victim.bytes) as u64;
            gone = Ghost(gone@ + 1);
        }
        let ghost kept = self.entries();
        proof {
            total_of_two(kept, seq![e]);
            total_of_one(e);
            assert(kept.push(e) =~= kept + seq![e]);
            if kept.len() == 0 {
                assert(total(kept) == 0);
            }
            assert(evicted(kept.push(e), max_bytes) == kept.push(e));
            evicted_is_a_tail(all, max_bytes);
        }
        self.current_bytes = self.current_bytes + len;
        self.entries.push(Entry { path: path.to_owned(), bytes });
        assert(self.entries() =~= kept.push(e));
    }

    /// Takes over an artifact that was read because it was not cached. One that does not fit by
    /// itself changes nothing.
    pub fn load(&mut self, path: &str, file: Vec<u8>) -> (r: GetResult)
        requires
            old(self).wf(),
        ensures
            final(self).wf(),
            final(self).max() == old(self).max(),
            final(self).in_flight() == old(self).in_flight(),
            file@.len() > old(self).max() ==> final(self).entries() == old(self).entries() && r
                == GetResult::TooLarge(file@.len() as u64),
            file@.len() <= old(self).max() ==> final(self).entries() == entered(
                old(self).entries(),
                path@,
                file@,
                old(self).max(),
            ) && r is Cached && contents(r->Cached_0) == file@,
    {
        let len: u64 = file.len() as u64;
        if len > self.max_bytes {
            return GetResult::TooLarge(len);
        }
        let bytes = share(file);
        let copy = another(&bytes);
        self.insert(path, bytes, len);
        GetResult::Cached(copy)
    }

    fn find_in_flight(&self, path: &str) -> (r: Option<usize>)
        ensures
            r matches Some(i) ==> i < self.in_flight@.len() && self.in_flight()[i as int] == path@,
            r is None ==> !self.in_flight().contains(path@),
    {
        let mut i: usize = 0;
        while i < self.in_flight.len()
            invariant
                i <= self.in_flight.len(),
                forall|j: int| 0 <= j < i ==> self.in_flight()[j] != path@,
            decreases self.in_flight.len() - i,
        {
            assert(self.in_flight()[i as int] == self.in_flight@[i as int]@);
            if same(self.in_flight[i].as_str(), path) {
                return Some(i);
            }
            i = i + 1;
        }
        None
    }

    /// Asks for an artifact. Who is told to read it hands it in with `finish_load`; who is told
    /// to wait asks again once that was done.
    pub fn get_or_load(&mut self, path: &str) -> (r: Asked)
        requires
            old(self).wf(),
        ensures
            final(self).wf(),
            final(self).max() == old(self).max(),
            final(self).state() == after(old(self).state(), Traffic::Ask(path@), old(self).max()),
            r.deep_view() == answer(old(self).entries(), old(self).in_flight(), path@),
    {
        match self.get_cached(path) {
            Some(bytes) => { return Asked::Cached(bytes); },
            None => {},
        }
        match self.find_in_flight(path) {
            Some(i) => {
                assert(self.in_flight().contains(path@));
                Asked::Wait
            },
            None => {
                let ghost before = self.in_flight();
                self.in_flight.push(path.to_owned());
                assert(self.in_flight() =~= before.push(path@));
                Asked::Read
            },
        }
    }

    /// Hands in an artifact that was read, or nothing where that failed: it is no longer being
    /// read.
    pub fn finish_load(&mut self, path: &str, file: Option<Vec<u8>>) -> (r: Option<GetResult>)
        requires
            old(self).wf(),
        ensures
            final(self).wf(),
            final(self).max() == old(self).max(),
            final(self).state() == after(
                old(self).state(),
                Traffic::HandIn(
                    path@,
                    match file {
                        Some(f) => Some(f@),
                        None => None,
                    },
                ),
                old(self).max(),
            ),
            match file {
                Some(f) => if f@.len() > old(self).max() {
                    r == Some(GetResult::TooLarge(f@.len() as u64))
                } else {
                    r is Some && r->0 is Cached && contents(r->0->Cached_0) == f@
                },
                None => r is None,
            },
    {
        match self.find_in_flight(path) {
            Some(i) => {
                let ghost before = self.in_flight();
                proof {
                    assert(before.contains(path@));
                    assert(before.index_of(path@) == i);
                }
                let _ = self.in_flight.remove(i);
                assert(self.in_flight() =~= before.remove(i as int));
                assert(self.entries() == old(self).entries());
            },
            None => {},
        }
        match file {
            Some(f) => Some(self.load(path, f)),
            None => None,
        }
    }
}

/// What happens to a cache leaves no path twice among its entries, nor among what is being read.
proof fn traffic_keeps_paths_distinct(c: CacheView, t: Traffic, max_bytes: u64)
    requires
        distinct(c.entries),
        c.in_flight.no_duplicates(),
    ensures
        distinct(after(c, t, max_bytes).entries),
        after(c, t, max_bytes).in_flight.no_duplicates(),
{
    match t {
        Traffic::Ask(path) => {
            place_is_right(c.entries, path, 0);
            if let Some(i) = place(c.entries, path, 0) {
                distinct_without(c.entries, i);
                distinct_with_last(c.entries.remove(i), c.entries[i]);
            }
        },
        Traffic::HandIn(path, file) => {
            if let Some(bytes) = file {
                place_is_right(c.entries, path, 0);
                if let Some(i) = place(c.entries, path, 0) {
                    distinct_without(c.entries, i);
                }
                let rest = without(c.entries, path);
                distinct_with_last(rest, (path, bytes));
                evicted_is_a_tail(rest.push((path, bytes)), max_bytes);
            }
        },
    }
}

/// Until an artifact is handed in it stays among those that are being read, and what is cached of it
/// stays the same, or goes.
proof fn traffic_leaves_others_alone(c: CacheView, t: Traffic, path: Seq<char>, max_bytes: u64)
    requires
        distinct(c.entries),
        c.in_flight.no_duplicates(),
        !(t is HandIn && t->HandIn_0 == path),
    ensures
        c.in_flight.contains(path) ==> after(c, t, max_bytes).in_flight.contains(path),
        t != Traffic::Ask(path) && after(c, t, max_bytes).in_flight.contains(path)
            ==> c.in_flight.contains(path),
        found(after(c, t, max_bytes).entries, path) is None || found(
            after(c, t, max_bytes).entries,
            path,
        ) == found(c.entries, path),
{
    let next = after(c, t, max_bytes);
    match t {
        Traffic::Ask(other) => {
            use_keeps_what_is_found(c.entries, other, path);
            if c.in_flight.contains(path) {
                let i = c.in_flight.index_of(path);
                assert(next.in_flight[i] == path);
            }
            if other != path && next.in_flight.contains(path) {
                let i = next.in_flight.index_of(path);
                assert(c.in_flight[i] == path);
            }
        },
        Traffic::HandIn(other, file) => {
            if c.in_flight.contains(other) {
                let k = c.in_flight.index_of(other);
                if c.in_flight.contains(path) {
                    let i = c.in_flight.index_of(path);
                    assert(next.in_flight[if i < k {
                        i
                    } else {
                        i - 1
                    }] == path);
                }
                if next.in_flight.contains(path) {
                    let i = next.in_flight.index_of(path);
                    assert(c.in_flight[if i < k {
                        i
                    } else {
                        i + 1
                    }] == path);
                }
            }
            if let Some(bytes) = file {
                let all = without(c.entries, other).push((other, bytes));
                place_is_right(c.entries, path, 0);
                place_is_right(c.entries, other, 0);
                place_is_right(next.entries, path, 0);
                evicted_is_a_tail(all, max_bytes);
                if bytes.len() <= max_bytes {
                    if let Some(j) = place(next.entries, path, 0) {
                        let k = choose|k: int|
                            0 <= k < all.len() && next.entries == #[trigger] all.skip(k) && (k > 0
                                ==> total(all.skip(k - 1)) > max_bytes);
                        assert(all[j + k] == next.entries[j]);
                        assert(j + k < all.len() - 1);
                        let i = match place(c.entries, other, 0) {
                            Some(i) => if j + k < i {
                                j + k
                            } else {
                                j + k + 1
                            },
                            None => j + k,
                        };
                        assert(c.entries[i] == all[j + k]);
                        place_of_known(c.entries, i, 0);
                    }
                }
            }
        },
    }
}

/// One reads at a time: whatever happens to a cache, as long as an artifact is not handed in at
/// most one of those who ask for it is told to read it, and none if it was being read already. If
/// it is neither cached nor being read, and someone asks for it, then exactly one is.
pub proof fn one_reads_at_a_time(
    c: CacheView,
    traffic: Seq<Traffic>,
    path: Seq<char>,
    max_bytes: u64,
)
    requires
        distinct(c.entries),
        c.in_flight.no_duplicates(),
        is_not_handed_in(traffic, path),
    ensures
        reads(c, traffic, path, max_bytes) <= 1,
        c.in_flight.contains(path) ==> reads(c, traffic, path, max_bytes) == 0,
        after_all(c, traffic, max_bytes).in_flight.contains(path) <==> c.in_flight.contains(path)
            || reads(c, traffic, path, max_bytes) == 1,
        found(c.entries, path) is None && !c.in_flight.contains(path) && is_asked_for(traffic, path)
            ==> reads(c, traffic, path, max_bytes) == 1,
        found(c.entries, path) is None ==> found(
            after_all(c, traffic, max_bytes).entries,
            path,
        ) is None,
        distinct(after_all(c, traffic, max_bytes).entries),
        after_all(c, traffic, max_bytes).in_flight.no_duplicates(),
    decreases traffic.len(),
{
    if traffic.len() > 0 {
        let before = traffic.drop_last();
        let t = traffic.last();
        assert forall|i: int| 0 <= i < before.len() implies !((#[trigger] before[i]) is HandIn
            && before[i]->HandIn_0 == path) by {
            assert(traffic[i] == before[i]);
        }
        one_reads_at_a_time(c, before, path, max_bytes);
        let now = after_all(c, before, max_bytes);
        let next = after(now, t, max_bytes);
        assert(traffic[traffic.len() - 1] == t);
        traffic_keeps_paths_distinct(now, t, max_bytes);
        traffic_leaves_others_alone(now, t, path, max_bytes);
        if t == Traffic::Ask(path) && answer(now.entries, now.in_flight, path) is Read {
            assert(next.in_flight[now.in_flight.len() as int] == path);
        }
        if is_asked_for(traffic, path) && t != Traffic::Ask(path) {
            let i = choose|i: int| 0 <= i < traffic.len() && traffic[i] == Traffic::Ask(path);
            assert(before[i] == Traffic::Ask(path));
        }
    }
}

/// Asking changes nothing of what is cached under a path, and nobody is told to read that.
proof fn asking_keeps_what_is_cached(
    c: CacheView,
    first: Seq<Traffic>,
    later: Seq<Traffic>,
    path: Seq<char>,
    max_bytes: u64,
)
    requires
        distinct(after_all(c, first, max_bytes).entries),
        found(after_all(c, first, max_bytes).entries, path) is Some,
        forall|i: int| 0 <= i < later.len() ==> (#[trigger] later[i]) is Ask,
    ensures
        distinct(after_all(c, first + later, max_bytes).entries),
        found(after_all(c, first + later, max_bytes).entries, path) == found(
            after_all(c, first, max_bytes).entries,
            path,
        ),
        reads(c, first + later, path, max_bytes) == reads(c, first, path, max_bytes),
    decreases later.len(),
{
    if later.len() == 0 {
        assert(first + later =~= first);
    } else {
        let less = later.drop_last();
        assert forall|i: int| 0 <= i < less.len() implies (#[trigger] less[i]) is Ask by {
            assert(less[i] == later[i]);
        }
        asking_keeps_what_is_cached(c, first, less, path, max_bytes);
        assert((first + later).drop_last() =~= first + less);
        assert((first + later).last() == later[later.len() - 1]);
        let now = after_all(c, first + less, max_bytes);
        let other = later.last()->Ask_0;
        use_keeps_what_is_found(now.entries, other, path);
        place_is_right(now.entries, other, 0);
        if let Some(i) = place(now.entries, other, 0) {
            distinct_without(now.entries, i);
            distinct_with_last(now.entries.remove(i), now.entries[i]);
        }
    }
}

/// What is cached of an artifact does not change: whatever happens to a cache, as long as the
/// artifact is not handed in once more everyone who asks for it gets the bytes that were cached at
/// first, unless it was driven out.
pub proof fn cached_bytes_do_not_change(
    c: CacheView,
    traffic: Seq<Traffic>,
    path: Seq<char>,
    max_bytes: u64,
)
    requires
        distinct(c.entries),
        c.in_flight.no_duplicates(),
        is_not_handed_in(traffic, path),
        found(c.entries, path) is Some,
    ensures
        ({
            let now = after_all(c, traffic, max_bytes);
            &&& found(now.entries, path) is None || found(now.entries, path) == found(
                c.entries,
                path,
            )
            &&& found(now.entries, path) is Some ==> answer(now.entries, now.in_flight, path)
                == AskedView::Cached(found(c.entries, path)->0)
        }),
    decreases traffic.len(),
{
    if traffic.len() > 0 {
        let before = traffic.drop_last();
        assert forall|i: int| 0 <= i < before.len() implies !((#[trigger] before[i]) is HandIn
            && before[i]->HandIn_0 == path) by {
            assert(traffic[i] == before[i]);
        }
        assert(traffic[traffic.len() - 1] == traffic.last());
        cached_bytes_do_not_change(c, before, path, max_bytes);
        one_reads_at_a_time(c, before, path, max_bytes);
        let now = after_all(c, before, max_bytes);
        traffic_leaves_others_alone(now, traffic.last(), path, max_bytes);
    }
}

/// However many ask for an artifact, it is read once: after one of them was told to read it and
/// handed it in, and if it fits into the cache, everyone who asks for it gets what was handed in.
pub proof fn artifact_is_read_once(
    c: CacheView,
    before: Seq<Traffic>,
    path: Seq<char>,
    bytes: Seq<u8>,
    later: Seq<Traffic>,
    max_bytes: u64,
)
    requires
        distinct(c.entries),
        c.in_flight.no_duplicates(),
        found(c.entries, path) is None,
        !c.in_flight.contains(path),
        is_asked_for(before, path),
        is_not_handed_in(before, path),
        bytes.len() <= max_bytes,
        forall|i: int| 0 <= i < later.len() ==> (#[trigger] later[i]) is Ask,
    ensures
        ({
            let handed_in = before.push(Traffic::HandIn(path, Some(bytes)));
            &&& reads(c, handed_in + later, path, max_bytes) == 1
            &&& answer(
                after_all(c, handed_in + later, max_bytes).entries,
                after_all(c, handed_in + later, max_bytes).in_flight,
                path,
            ) == AskedView::Cached(bytes)
        }),
{
    let handed_in = before.push(Traffic::HandIn(path, Some(bytes)));
    one_reads_at_a_time(c, before, path, max_bytes);
    assert(handed_in.drop_last() =~= before);
    let now = after_all(c, before, max_bytes);
    traffic_keeps_paths_distinct(now, handed_in.last(), max_bytes);
    entered_artifact_is_found(now.entries, path, bytes, max_bytes);
    asking_keeps_what_is_cached(c, handed_in, later, path, max_bytes);
}

/// Those who waited get what the one who read handed in, if it fits into the cache; if it was not
/// handed in, or does not fit, the next of them reads.
pub proof fn waiting_pays(
    entries: Seq<EntryView>,
    in_flight: Seq<Seq<char>>,
    path: Seq<char>,
    bytes: Seq<u8>,
    max_bytes: u64,
)
    requires
        distinct(entries),
        in_flight.no_duplicates(),
        found(entries, path) is None,
    ensures
        answer(entered(entries, path, bytes, max_bytes), released(in_flight, path), path)
            == AskedView::Cached(bytes),
        answer(entries, released(in_flight, path), path) is Read,
{
    entered_artifact_is_found(entries, path, bytes, max_bytes);
    if in_flight.contains(path) {
        let i = in_flight.index_of(path);
        assert(in_flight[i] == path);
        assert forall|j: int| 0 <= j < in_flight.len() - 1 implies in_flight.remove(i)[j]
            != path by {
            let k = if j < i {
                j
            } else {
                j + 1
            };
            assert(in_flight.remove(i)[j] == in_flight[k]);
        }
    }
}

/// An artifact that was entered is found, with its bytes, until something else is entered.
pub proof fn entered_artifact_is_found(
    entries: Seq<EntryView>,
    path: Seq<char>,
    bytes: Seq<u8>,
    max_bytes: u64,
)
    requires
        distinct(entries),
    ensures
        found(entered(entries, path, bytes, max_bytes), path) == Some(bytes),
{
    let rest = without(entries, path);
    let all = rest.push((path, bytes));
    place_is_right(entries, path, 0);
    if let Some(i) = place(entries, path, 0) {
        distinct_without(entries, i);
    }
    distinct_with_last(rest, (path, bytes));
    evicted_is_a_tail(all, max_bytes);
    let after = evicted(all, max_bytes);
    place_of_known(after, after.len() - 1, 0);
}

/// What is cached fits: entering an artifact that fits by itself leaves no more than the cache
/// may hold.
pub proof fn cache_stays_bounded(
    entries: Seq<EntryView>,
    path: Seq<char>,
    bytes: Seq<u8>,
    max_bytes: u64,
)
    requires
        bytes.len() <= max_bytes,
    ensures
        total(entered(entries, path, bytes, max_bytes)) <= max_bytes,
{
    let all = without(entries, path).push((path, bytes));
    evicted_is_a_tail(all, max_bytes);
    let after = evicted(all, max_bytes);
    if after.len() == 1 {
        assert(after =~= seq![(path, bytes)]);
        total_of_one((path, bytes));
    }
}

/// Entering an artifact drives out only those that were used longest ago, and no more than it
/// takes: what stays is a tail of the order of use, and with one more it would not fit.
pub proof fn longest_unused_go_first(
    entries: Seq<EntryView>,
    path: Seq<char>,
    bytes: Seq<u8>,
    max_bytes: u64,
)
    ensures
        is_needed_tail(
            without(entries, path).push((path, bytes)),
            entered(entries, path, bytes, max_bytes),
            max_bytes,
        ),
{
    evicted_is_a_tail(without(entries, path).push((path, bytes)), max_bytes);
}

/// Using an artifact changes no other, nor what is found.
pub proof fn use_keeps_what_is_found(entries: Seq<EntryView>, path: Seq<char>, other: Seq<char>)
    requires
        distinct(entries),
    ensures
        found(used(entries, path), other) == found(entries, other),
        total(used(entries, path)) == total(entries),
{
    place_is_right(entries, path, 0);
    place_is_right(entries, other, 0);
    if let Some(i) = place(entries, path, 0) {
        let e = entries[i];
        let rest = entries.remove(i);
        let after = rest.push(e);
        distinct_without(entries, i);
        distinct_with_last(rest, e);
        total_without(entries, i);
        total_of_two(rest, seq![e]);
        total_of_one(e);
        assert(after =~= rest + seq![e]);
        place_is_right(after, other, 0);
        match place(entries, other, 0) {
            Some(j) => {
                let k = if j == i {
                    after.len() - 1
                } else if j < i {
                    j
                } else {
                    j - 1
                };
                assert(after[k] == entries[j]);
                place_of_known(after, k, 0);
            },
            None => {
                if let Some(k) = place(after, other, 0) {
                    let j = if k == after.len() - 1 {
                        i
                    } else if k < i {
                        k
                    } else {
                        k + 1
                    };
                    assert(entries[j] == after[k]);
                }
            },
        }
    }
}

// ---------------------------------------------------------------------------------------------
// Streaming
// ---------------------------------------------------------------------------------------------

/// The part of shared bytes from one place to another, without a copy.
pub fn part_of(b: &bytes::Bytes, from: usize, to: usize) -> (r: bytes::Bytes)
    requires
        from <= to <= contents(*b).len(),
    ensures
        contents(r) == contents(*b).subrange(from as int, to as int),
{
    slice(b, from, to)
}

/// The first bytes that are streamed.
pub open spec fn first_chunk(bytes: Seq<u8>) -> Seq<u8> {
    bytes.take(if bytes.len() < STREAM_CHUNK { bytes.len() as int } else { STREAM_CHUNK as int })
}

/// The chunks in which bytes are streamed.
pub open spec fn chunks(bytes: Seq<u8>) -> Seq<Seq<u8>>
    decreases bytes.len(),
{
    if bytes.len() == 0 {
        Seq::empty()
    } else {
        seq![first_chunk(bytes)] + chunks(bytes.skip(first_chunk(bytes).len() as int))
    }
}

/// Chunks one after the other.
pub open spec fn rejoined(parts: Seq<Seq<u8>>) -> Seq<u8>
    decreases parts.len(),
{
    if parts.len() == 0 {
        Seq::empty()
    } else {
        parts[0] + rejoined(parts.drop_first())
    }
}

/// Takes the next chunk off the bytes that remain; there is none where none remain.
pub fn next_chunk(remaining: &mut bytes::Bytes) -> (r: Option<bytes::Bytes>)
    ensures
        contents(*old(remaining)).len() == 0 ==> r is None && *final(remaining) == *old(remaining),
        contents(*old(remaining)).len() > 0 ==> r is Some && contents(r->0) == first_chunk(
            contents(*old(remaining)),
        ) && contents(*final(remaining)) == contents(*old(remaining)).skip(
            first_chunk(contents(*old(remaining))).len() as int,
        ),
{
    let len: usize = length(remaining);
    if len == 0 {
        return None;
    }
    let take: usize = if len < STREAM_CHUNK {
        len
    } else {
        STREAM_CHUNK
    };
    Some(split_to(remaining, take))
}

/// Nothing is lost or added on the way: the chunks, one after the other, are the bytes, and each
/// holds at least one byte and at most so many as are streamed at a time.
pub proof fn chunks_rejoin(bytes: Seq<u8>)
    ensures
        rejoined(chunks(bytes)) == bytes,
        forall|i: int|
            0 <= i < chunks(bytes).len() ==> 0 < (#[trigger] chunks(bytes)[i]).len()
                <= STREAM_CHUNK,
    decreases bytes.len(),
{
    if bytes.len() > 0 {
        let first = first_chunk(bytes);
        let rest = bytes.skip(first.len() as int);
        chunks_rejoin(rest);
        assert(chunks(bytes).drop_first() =~= chunks(rest));
        assert(first + rest =~= bytes);
        assert forall|i: int| 0 <= i < chunks(bytes).len() implies 0 < (
        #[trigger] chunks(bytes)[i]).len() <= STREAM_CHUNK by {
            if i > 0 {
                assert(chunks(bytes)[i] == chunks(rest)[i - 1]);
            }
        }
    }
}

} // verus!
