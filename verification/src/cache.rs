//! Content-addressed download cache.
//!
//! A resource is keyed by a 64-bit hash of its URL, rendered as a decimal
//! string; that string names the entry's file inside the cache root. The
//! cache itself is modeled here as a map from key to the downloaded bytes;
//! the caller performs the actual network fetch and disk write and feeds the
//! outcome back in. Once an entry for a URL is recorded, a later resolve of
//! the same URL is a hit and no second fetch is needed.

use vstd::prelude::*;

use std::collections::hash_map::DefaultHasher;
use std::collections::HashMap;
use std::collections::HashSet;
use std::hash::Hasher;
use vstd::std_specs::hash::DefaultHasherAdditionalSpecFns;
use vstd::string::StringExecFns;
use vstd::string::StringSliceAdditionalSpecFns;

verus! {

/// The 64-bit cache key of a URL: the digest of its UTF-8 bytes under the
/// standard library's default hasher, written as one chunk.
pub closed spec fn url_key(url: Seq<char>) -> u64 {
    DefaultHasher::spec_finish(seq![vstd::utf8::encode_utf8(url)])
}

/// The character a decimal digit prints as.
pub open spec fn digit_char(d: nat) -> char
    recommends
        d < 10,
{
    if d == 0 {
        '0'
    } else if d == 1 {
        '1'
    } else if d == 2 {
        '2'
    } else if d == 3 {
        '3'
    } else if d == 4 {
        '4'
    } else if d == 5 {
        '5'
    } else if d == 6 {
        '6'
    } else if d == 7 {
        '7'
    } else if d == 8 {
        '8'
    } else {
        '9'
    }
}

/// The decimal rendering of a number, most significant digit first, with no
/// leading zeros (a bare `0` for zero).
pub open spec fn decimal_chars(n: nat) -> Seq<char>
    decreases n,
{
    if n < 10 {
        seq![digit_char(n)]
    } else {
        decimal_chars(n / 10).push(digit_char(n % 10))
    }
}

/// The file name a URL's cache entry is stored under: the decimal form of
/// its 64-bit key.
pub open spec fn spec_encode(url: Seq<char>) -> Seq<char> {
    decimal_chars(url_key(url) as nat)
}

/// The path of a URL's cache entry: the entry's file name under the root.
pub open spec fn spec_entry_path(root: Seq<char>, url: Seq<char>) -> Seq<char> {
    root + "/"@ + spec_encode(url)
}

/// What a resolve of `url` finds in a cache holding `entries` under `root`:
/// the entry's path on a hit, nothing on a miss.
pub open spec fn spec_lookup(entries: Map<u64, Vec<u8>>, root: Seq<char>, url: Seq<char>) -> Option<
    Seq<char>,
> {
    if entries.contains_key(url_key(url)) {
        Some(spec_entry_path(root, url))
    } else {
        None
    }
}

/// Cache keying is deterministic: the same URL yields the same entry name on
/// every call.
pub proof fn lemma_encode_deterministic(url1: Seq<char>, url2: Seq<char>)
    requires
        url1 == url2,
    ensures
        spec_encode(url1) == spec_encode(url2),
{
}

/// Once a fetched entry for a URL is recorded, a second resolve of the same
/// URL is a hit on the same path, whatever the cache held before: the fetch
/// is performed at most once.
pub proof fn lemma_second_resolve_hits(
    entries: Map<u64, Vec<u8>>,
    root: Seq<char>,
    url: Seq<char>,
    data: Vec<u8>,
)
    ensures
        spec_lookup(entries.insert(url_key(url), data), root, url) == Some(
            spec_entry_path(root, url),
        ),
{
}

fn url_hash(url: &str) -> (k: u64)
    ensures
        k == url_key(url@),
{
    let mut hasher = DefaultHasher::new();
    hasher.write(url.as_bytes());
    proof {
        assert(hasher@ =~= seq![vstd::utf8::encode_utf8(url@)]);
    }
    hasher.finish()
}

fn digit_str(d: u64) -> (r: &'static str)
    requires
        d < 10,
    ensures
        r@ == seq![digit_char(d as nat)],
{
    let r: &'static str = match d {
        0 => "0",
        1 => "1",
        2 => "2",
        3 => "3",
        4 => "4",
        5 => "5",
        6 => "6",
        7 => "7",
        8 => "8",
        _ => "9",
    };
    proof {
        reveal_strlit("0");
        reveal_strlit("1");
        reveal_strlit("2");
        reveal_strlit("3");
        reveal_strlit("4");
        reveal_strlit("5");
        reveal_strlit("6");
        reveal_strlit("7");
        reveal_strlit("8");
        reveal_strlit("9");
        assert(r@ =~= seq![digit_char(d as nat)]);
    }
    r
}

/// Renders a number in decimal, most significant digit first.
pub fn u64_to_decimal(n: u64) -> (r: String)
    ensures
        r@ == decimal_chars(n as nat),
    decreases n,
{
    if n < 10 {
        let r = digit_str(n).to_owned();
        r
    } else {
        assert(n / 10 < n) by (nonlinear_arith)
            requires
                n >= 10,
        ;
        let mut r = u64_to_decimal(n / 10);
        r.append(digit_str(n % 10));
        proof {
            assert(r@ =~= decimal_chars(n as nat));
        }
        r
    }
}

/// Computes the file name a URL's download is cached under.
pub fn encode(url: &str) -> (r: String)
    ensures
        r@ == spec_encode(url@),
{
    let key = url_hash(url);
    u64_to_decimal(key)
}

/// Joins the cache root and a URL's entry name into the entry's path.
pub fn entry_path(root: &str, url: &str) -> (p: String)
    ensures
        p@ == spec_entry_path(root@, url@),
{
    let mut p = root.to_owned();
    p.append("/");
    let name = encode(url);
    p.append(name.as_str());
    proof {
        assert(p@ =~= spec_entry_path(root@, url@));
    }
    p
}

/// Whether a resolve of `url` must perform the fetch itself: only when no
/// entry is recorded and nobody else is already fetching it.
pub open spec fn spec_should_fetch(
    entries: Map<u64, Vec<u8>>,
    pending: Set<u64>,
    url: Seq<char>,
) -> bool {
    !entries.contains_key(url_key(url)) && !pending.contains(url_key(url))
}

/// Once one caller has claimed the fetch of a URL, a concurrent resolve of
/// the same URL claims no second fetch: it can only await the first one's
/// outcome.
pub proof fn lemma_no_duplicate_fetch(entries: Map<u64, Vec<u8>>, pending: Set<u64>, url: Seq<char>)
    ensures
        !spec_should_fetch(entries, pending.insert(url_key(url)), url),
{
}

/// Once a URL's bytes are recorded, no resolve of that URL ever fetches
/// again, whatever fetches are still pending.
pub proof fn lemma_no_refetch_after_record(
    entries: Map<u64, Vec<u8>>,
    pending: Set<u64>,
    url: Seq<char>,
    data: Vec<u8>,
)
    ensures
        !spec_should_fetch(entries.insert(url_key(url), data), pending, url),
{
}

/// The record of downloaded resources: for each cache key, the bytes fetched
/// for it, plus the keys whose fetch is under way. Entries are never evicted
/// or invalidated.
pub struct ContentCache {
    root: String,
    entries: HashMap<u64, Vec<u8>>,
    in_flight: HashSet<u64>,
}

impl ContentCache {
    /// The cache root directory the entry paths are formed under.
    pub closed spec fn spec_root(&self) -> Seq<char> {
        self.root@
    }

    /// The recorded entries, keyed by URL hash.
    pub closed spec fn model(&self) -> Map<u64, Vec<u8>> {
        self.entries@
    }

    /// The keys whose fetch has been claimed but not yet recorded.
    pub closed spec fn pending(&self) -> Set<u64> {
        self.in_flight@
    }

    /// An empty cache under the given root directory.
    pub fn new(root: String) -> (c: ContentCache)
        ensures
            c.spec_root() == root@,
            c.model() == Map::<u64, Vec<u8>>::empty(),
            c.pending() == Set::<u64>::empty(),
    {
        ContentCache { root, entries: HashMap::new(), in_flight: HashSet::new() }
    }

    /// Resolves a URL against the recorded entries: the entry's path if the
    /// URL's key is present, nothing if it is not (the caller must then
    /// fetch and record).
    pub fn lookup(&self, url: &str) -> (r: Option<String>)
        ensures
            match r {
                Some(p) => spec_lookup(self.model(), self.spec_root(), url@) == Some(p@),
                None => spec_lookup(self.model(), self.spec_root(), url@) is None,
            },
    {
        let key = url_hash(url);
        if self.entries.contains_key(&key) {
            Some(entry_path(self.root.as_str(), url))
        } else {
            None
        }
    }

    /// Claims the fetch of a URL: true exactly when this caller must perform
    /// it, because no entry is recorded and no other fetch of the same URL is
    /// under way. A concurrent caller then gets false and awaits the outcome
    /// instead of racing a duplicate download.
    pub fn begin_fetch(&mut self, url: &str) -> (fetch: bool)
        ensures
            fetch == spec_should_fetch(old(self).model(), old(self).pending(), url@),
            final(self).pending() == if fetch {
                old(self).pending().insert(url_key(url@))
            } else {
                old(self).pending()
            },
            final(self).model() == old(self).model(),
            final(self).spec_root() == old(self).spec_root(),
    {
        let key = url_hash(url);
        if self.entries.contains_key(&key) {
            false
        } else if self.in_flight.contains(&key) {
            false
        } else {
            self.in_flight.insert(key);
            true
        }
    }

    /// Records the bytes fetched for a URL and returns the entry's path;
    /// the fetch is no longer pending, and every later lookup of that URL
    /// hits this entry.
    pub fn record(&mut self, url: &str, data: Vec<u8>) -> (p: String)
        ensures
            final(self).model() == old(self).model().insert(url_key(url@), data),
            final(self).pending() == old(self).pending().remove(url_key(url@)),
            final(self).spec_root() == old(self).spec_root(),
            p@ == spec_entry_path(old(self).spec_root(), url@),
            spec_lookup(final(self).model(), final(self).spec_root(), url@) == Some(p@),
    {
        let key = url_hash(url);
        let p = entry_path(self.root.as_str(), url);
        self.entries.insert(key, data);
        self.in_flight.remove(&key);
        p
    }

    /// Abandons a claimed fetch that failed, so a later resolve of the same
    /// URL may try again.
    pub fn abandon_fetch(&mut self, url: &str)
        ensures
            final(self).pending() == old(self).pending().remove(url_key(url@)),
            final(self).model() == old(self).model(),
            final(self).spec_root() == old(self).spec_root(),
    {
        let key = url_hash(url);
        self.in_flight.remove(&key);
    }

    /// The bytes recorded for a URL, if any.
    pub fn contents(&self, url: &str) -> (r: Option<&Vec<u8>>)
        ensures
            match r {
                Some(d) => self.model().contains_key(url_key(url@)) && *d == self.model()[url_key(
                    url@,
                )],
                None => !self.model().contains_key(url_key(url@)),
            },
    {
        let key = url_hash(url);
        self.entries.get(&key)
    }
}

} // verus!
