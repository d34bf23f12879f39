//! The address cache: previously resolved addresses, keyed by the address
//! exactly as it was asked. `AddressCache` is the cache as a value, a hash
//! map; the statements that persist it are built here and run elsewhere.

use crate::geocode_result::{Coordinate, GeocodeRecord, GeocodeResult, ResultSource};
use crate::text::{decimal, push_decimal};
use vstd::hash_map::StringHashMap;
use vstd::prelude::*;

verus! {

/// Creates the cache table where it does not exist yet.
pub const CREATE_CACHE_TABLE_SQL: &'static str =
    "CREATE TABLE IF NOT EXISTS geocode_cache (address TEXT PRIMARY KEY, lat DOUBLE NOT NULL, lon DOUBLE NOT NULL, source TEXT NOT NULL, cached_at TIMESTAMP DEFAULT current_timestamp);";

/// Writes one entry, replacing the entry of the same address.
pub const UPSERT_CACHE_SQL: &'static str =
    "INSERT OR REPLACE INTO geocode_cache (address, lat, lon, source) VALUES ($1, $2, $3, $4)";

/// What the cache keeps for an address.
pub struct CachedLocation {
    pub lat: Coordinate,
    pub lon: Coordinate,
    pub source: Seq<char>,
}

/// The mathematical content of a [`CacheEntry`].
pub struct CacheEntryModel {
    pub address: Seq<char>,
    pub location: CachedLocation,
}

/// One persisted record: an address with both of its coordinates and the
/// tag of the stage that resolved it.
#[derive(Debug, Clone, PartialEq, Eq)]
pub struct CacheEntry {
    pub address: String,
    pub lat: Coordinate,
    pub lon: Coordinate,
    pub source: String,
}

impl View for CacheEntry {
    type V = CacheEntryModel;

    open spec fn view(&self) -> CacheEntryModel {
        CacheEntryModel {
            address: self.address@,
            location: CachedLocation { lat: self.lat, lon: self.lon, source: self.source@ },
        }
    }
}

impl DeepView for CacheEntry {
    type V = CacheEntryModel;

    open spec fn deep_view(&self) -> CacheEntryModel {
        self@
    }
}

impl CacheEntry {
    /// A copy of the entry.
    pub fn duplicate(&self) -> (r: CacheEntry)
        ensures
            r@ == self@,
    {
        CacheEntry {
            address: self.address.clone(),
            lat: self.lat,
            lon: self.lon,
            source: self.source.clone(),
        }
    }
}

/// The cache as a mapping from address to location.
pub type CacheContents = Map<Seq<char>, CachedLocation>;

/// The mapping that a list of entries stands for; a later entry replaces an
/// earlier one of the same address.
pub open spec fn contents_of(entries: Seq<CacheEntryModel>) -> CacheContents
    decreases entries.len(),
{
    if entries.len() == 0 {
        Map::empty()
    } else {
        contents_of(entries.drop_last()).insert(entries.last().address, entries.last().location)
    }
}

/// The row that reports a cache hit.
pub open spec fn hit_record(address: Seq<char>, location: CachedLocation) -> GeocodeRecord {
    GeocodeRecord {
        address,
        lat: Some(location.lat),
        lon: Some(location.lon),
        source: Some(ResultSource::Cache),
        status: None,
        error: None,
    }
}

/// The hits of a lookup: one row for each asked address that the cache
/// holds, in the order asked.
pub open spec fn hits_of(contents: CacheContents, addresses: Seq<Seq<char>>) -> Seq<GeocodeRecord>
    decreases addresses.len(),
{
    if addresses.len() == 0 {
        Seq::empty()
    } else {
        let rest = hits_of(contents, addresses.drop_last());
        let a = addresses.last();
        if contents.contains_key(a) {
            rest.push(hit_record(a, contents[a]))
        } else {
            rest
        }
    }
}

/// The misses of a lookup: each asked address that the cache does not hold,
/// in the order asked.
pub open spec fn misses_of(contents: CacheContents, addresses: Seq<Seq<char>>) -> Seq<Seq<char>>
    decreases addresses.len(),
{
    if addresses.len() == 0 {
        Seq::empty()
    } else {
        let rest = misses_of(contents, addresses.drop_last());
        let a = addresses.last();
        if contents.contains_key(a) {
            rest
        } else {
            rest.push(a)
        }
    }
}

/// The cache after storing `results` under `source`, one after the other:
/// a row with both coordinates replaces the entry of its address, any other
/// row changes nothing.
pub open spec fn stored_after(
    contents: CacheContents,
    results: Seq<GeocodeRecord>,
    source: Seq<char>,
) -> CacheContents
    decreases results.len(),
{
    if results.len() == 0 {
        contents
    } else {
        let before = stored_after(contents, results.drop_last(), source);
        let r = results.last();
        if r.resolved() {
            before.insert(r.address, CachedLocation { lat: r.lat->0, lon: r.lon->0, source })
        } else {
            before
        }
    }
}

/// What the cache keeps for an address: both coordinates and the tag of
/// the stage that resolved it.
#[derive(Debug, Clone, PartialEq, Eq)]
pub struct StoredLocation {
    pub lat: Coordinate,
    pub lon: Coordinate,
    pub source: String,
}

impl View for StoredLocation {
    type V = CachedLocation;

    open spec fn view(&self) -> CachedLocation {
        CachedLocation { lat: self.lat, lon: self.lon, source: self.source@ }
    }
}

/// The cache as a value: a hash map from the address, exactly as it was
/// asked, to what is kept for it.
pub struct AddressCache {
    entries: StringHashMap<StoredLocation>,
}

impl View for AddressCache {
    type V = CacheContents;

    closed spec fn view(&self) -> CacheContents {
        self.entries@.map_values(|kept: StoredLocation| kept@)
    }
}

impl AddressCache {
    /// The cache holds finitely many addresses.
    pub closed spec fn wf(&self) -> bool {
        self.entries@.dom().finite()
    }

    /// The cache that holds nothing.
    pub fn new() -> (cache: AddressCache)
        ensures
            cache.wf(),
            cache@ == Map::<Seq<char>, CachedLocation>::empty(),
    {
        let cache = AddressCache { entries: StringHashMap::new() };
        assert(cache@ =~= Map::<Seq<char>, CachedLocation>::empty());
        cache
    }

    /// The cache that holds `rows`, a later row replacing an earlier one of
    /// the same address.
    pub fn from_rows(rows: &Vec<CacheEntry>) -> (cache: AddressCache)
        ensures
            cache.wf(),
            cache@ == contents_of(rows.deep_view()),
    {
        let mut cache = AddressCache::new();
        let mut i: usize = 0;
        while i < rows.len()
            invariant
                i <= rows.len(),
                cache.wf(),
                cache@ == contents_of(rows.deep_view().take(i as int)),
            decreases rows.len() - i,
        {
            cache.upsert(rows[i].duplicate());
            proof {
                let next = rows.deep_view().take(i + 1);
                assert(next.drop_last() == rows.deep_view().take(i as int));
                assert(next.last() == rows[i as int]@);
            }
            i += 1;
        }
        assert(rows.deep_view().take(rows.len() as int) == rows.deep_view());
        cache
    }

    /// The number of addresses that the cache holds.
    pub fn len(&self) -> (n: usize)
        requires
            self.wf(),
        ensures
            n == self@.dom().len(),
            self@.dom().finite(),
    {
        assert(self@.dom() =~= self.entries@.dom());
        self.entries.len()
    }

    /// What the cache keeps for `address`: a row with its coordinates and
    /// the cache as source, or nothing.
    pub fn get(&self, address: &str) -> (r: Option<GeocodeResult>)
        requires
            self.wf(),
        ensures
            match r {
                Some(hit) => self@.contains_key(address@) && hit@ == hit_record(
                    address@,
                    self@[address@],
                ),
                None => !self@.contains_key(address@),
            },
    {
        match self.entries.get(address) {
            Some(kept) => Some(
                GeocodeResult::located(
                    address.to_owned(),
                    kept.lat,
                    kept.lon,
                    ResultSource::Cache,
                ),
            ),
            None => None,
        }
    }

    /// Writes `entry`, replacing the entry of the same address.
    pub fn upsert(&mut self, entry: CacheEntry)
        requires
            old(self).wf(),
        ensures
            final(self).wf(),
            final(self)@ == old(self)@.insert(entry@.address, entry@.location),
    {
        let ghost e = entry@;
        let kept = StoredLocation { lat: entry.lat, lon: entry.lon, source: entry.source };
        self.entries.insert(entry.address, kept);
        assert(self@ =~= old(self)@.insert(e.address, e.location));
    }
}

/// Looks `addresses` up in the cache. The hits are the rows of the asked
/// addresses that the cache holds, the misses are the asked addresses that it
/// does not hold; both keep the order asked.
pub fn cache_lookup(cache: &AddressCache, addresses: &[String]) -> (r: (
    Vec<GeocodeResult>,
    Vec<String>,
))
    requires
        cache.wf(),
    ensures
        r.0.deep_view() == hits_of(cache@, addresses.deep_view()),
        r.1.deep_view() == misses_of(cache@, addresses.deep_view()),
{
    let mut hits: Vec<GeocodeResult> = Vec::new();
    let mut misses: Vec<String> = Vec::new();
    let mut i: usize = 0;
    assert(addresses.deep_view().take(0) == Seq::<Seq<char>>::empty());
    while i < addresses.len()
        invariant
            i <= addresses.len(),
            cache.wf(),
            hits.deep_view() == hits_of(cache@, addresses.deep_view().take(i as int)),
            misses.deep_view() == misses_of(cache@, addresses.deep_view().take(i as int)),
        decreases addresses.len() - i,
    {
        let ghost before_hits = hits.deep_view();
        let ghost before_misses = misses.deep_view();
        proof {
            let next = addresses.deep_view().take(i + 1);
            assert(next.drop_last() == addresses.deep_view().take(i as int));
            assert(next.last() == addresses[i as int]@);
        }
        match cache.get(addresses[i].as_str()) {
            Some(hit) => {
                hits.push(hit);
                assert(hits.deep_view() == before_hits.push(hit@));
            },
            None => {
                let a = addresses[i].clone();
                misses.push(a);
                assert(misses.deep_view() == before_misses.push(a@));
            },
        }
        i += 1;
    }
    assert(addresses.deep_view().take(addresses.len() as int) == addresses.deep_view());
    (hits, misses)
}

/// Stores `results` under `source`: each row with both coordinates replaces
/// the entry of its address; a row that lacks a coordinate is passed over.
pub fn cache_store(cache: &mut AddressCache, results: &[GeocodeResult], source: &str)
    requires
        old(cache).wf(),
    ensures
        final(cache).wf(),
        final(cache)@ == stored_after(old(cache)@, results.deep_view(), source@),
{
    let entries = storable_entries(results, source);
    let mut i: usize = 0;
    assert(entries.deep_view().take(0) == Seq::<CacheEntryModel>::empty());
    while i < entries.len()
        invariant
            i <= entries.len(),
            cache.wf(),
            cache@ == written_after(old(cache)@, entries.deep_view().take(i as int)),
        decreases entries.len() - i,
    {
        proof {
            let next = entries.deep_view().take(i + 1);
            assert(next.drop_last() == entries.deep_view().take(i as int));
            assert(next.last() == entries[i as int]@);
        }
        cache.upsert(entries[i].duplicate());
        i += 1;
    }
    proof {
        assert(entries.deep_view().take(entries.len() as int) == entries.deep_view());
        lemma_written_is_stored(old(cache)@, results.deep_view(), source@);
    }
}

/// The entry that stores a row with both coordinates under `source`.
pub open spec fn entry_of(r: GeocodeRecord, source: Seq<char>) -> CacheEntryModel {
    CacheEntryModel {
        address: r.address,
        location: CachedLocation { lat: r.lat->0, lon: r.lon->0, source },
    }
}

/// The entries to write for `results`: one for each row with both
/// coordinates, in order.
pub open spec fn storable(results: Seq<GeocodeRecord>, source: Seq<char>) -> Seq<CacheEntryModel>
    decreases results.len(),
{
    if results.len() == 0 {
        Seq::empty()
    } else {
        let rest = storable(results.drop_last(), source);
        if results.last().resolved() {
            rest.push(entry_of(results.last(), source))
        } else {
            rest
        }
    }
}

/// The cache after writing `entries`, one after the other.
pub open spec fn written_after(contents: CacheContents, entries: Seq<CacheEntryModel>) -> CacheContents
    decreases entries.len(),
{
    if entries.len() == 0 {
        contents
    } else {
        written_after(contents, entries.drop_last()).insert(
            entries.last().address,
            entries.last().location,
        )
    }
}

/// Writing the storable entries of `results` is storing `results`.
pub proof fn lemma_written_is_stored(
    contents: CacheContents,
    results: Seq<GeocodeRecord>,
    source: Seq<char>,
)
    ensures
        written_after(contents, storable(results, source)) == stored_after(
            contents,
            results,
            source,
        ),
    decreases results.len(),
{
    if results.len() > 0 {
        lemma_written_is_stored(contents, results.drop_last(), source);
        if results.last().resolved() {
            let rest = storable(results.drop_last(), source);
            assert(rest.push(entry_of(results.last(), source)).drop_last() == rest);
        }
    }
}

/// The entries to write for `results` under `source`: one for each row with
/// both coordinates, in order. Rows that lack a coordinate yield none.
pub fn storable_entries(results: &[GeocodeResult], source: &str) -> (entries: Vec<CacheEntry>)
    ensures
        entries.deep_view() == storable(results.deep_view(), source@),
{
    let mut entries: Vec<CacheEntry> = Vec::new();
    let mut i: usize = 0;
    assert(results.deep_view().take(0) == Seq::<GeocodeRecord>::empty());
    while i < results.len()
        invariant
            i <= results.len(),
            entries.deep_view() == storable(results.deep_view().take(i as int), source@),
        decreases results.len() - i,
    {
        let ghost before = entries.deep_view();
        proof {
            let next = results.deep_view().take(i + 1);
            assert(next.drop_last() == results.deep_view().take(i as int));
            assert(next.last() == results[i as int]@);
        }
        let r = &results[i];
        match (r.lat, r.lon) {
            (Some(lat), Some(lon)) => {
                let e = CacheEntry {
                    address: r.address.clone(),
                    lat,
                    lon,
                    source: source.to_owned(),
                };
                entries.push(e);
                assert(entries.deep_view() == before.push(e@));
            },
            _ => {},
        }
        i += 1;
    }
    assert(results.deep_view().take(results.len() as int) == results.deep_view());
    entries
}

/// The positional markers `$1, $2, ..., $n`.
pub open spec fn markers(n: nat) -> Seq<char>
    decreases n,
{
    if n == 0 {
        Seq::empty()
    } else if n == 1 {
        seq!['$'] + decimal(1)
    } else {
        markers((n - 1) as nat) + ", "@ + (seq!['$'] + decimal(n))
    }
}

/// The text of the query that reads the entries of `n` addresses.
pub open spec fn lookup_sql_text(n: nat) -> Seq<char> {
    "SELECT address, lat, lon, source FROM geocode_cache WHERE address IN ("@ + markers(n)
        + ")"@
}

/// The query that reads the entries of `n` addresses, which are bound to the
/// markers `$1` to `$n`; the text holds nothing of the addresses themselves.
pub fn lookup_sql(n: usize) -> (sql: String)
    ensures
        sql@ == lookup_sql_text(n as nat),
{
    let head = "SELECT address, lat, lon, source FROM geocode_cache WHERE address IN (";
    let mut sql = head.to_owned();
    let mut i: usize = 0;
    assert(head@ + markers(0) == head@);
    while i < n
        invariant
            i <= n,
            sql@ == head@ + markers(i as nat),
        decreases n - i,
    {
        let ghost before = sql@;
        if i > 0 {
            sql.append(", ");
        }
        sql.push('$');
        i += 1;
        push_decimal(&mut sql, i as u64);
        proof {
            let mark = seq!['$'] + decimal(i as nat);
            if i == 1 {
                assert(sql@ == head@ + markers(1)) by {
                    assert(sql@ =~= before + mark);
                }
            } else {
                assert(sql@ =~= head@ + (markers((i - 1) as nat) + ", "@ + mark));
            }
        }
    }
    sql.append(")");
    sql
}

/// Storing a row with both coordinates and then looking its address up
/// returns exactly the coordinates written; storing a row that lacks a
/// coordinate leaves the cache as it was, so that an address that was a miss
/// before is a miss after.
pub proof fn law_store_then_lookup(contents: CacheContents, row: GeocodeRecord, source: Seq<char>)
    ensures
        row.resolved() ==> hits_of(
            stored_after(contents, seq![row], source),
            seq![row.address],
        ) == seq![
            hit_record(
                row.address,
                CachedLocation { lat: row.lat->0, lon: row.lon->0, source },
            ),
        ],
        row.resolved() ==> misses_of(
            stored_after(contents, seq![row], source),
            seq![row.address],
        ) == Seq::<Seq<char>>::empty(),
        !row.resolved() ==> stored_after(contents, seq![row], source) == contents,
        !row.resolved() && !contents.contains_key(row.address) ==> misses_of(
            stored_after(contents, seq![row], source),
            seq![row.address],
        ) == seq![row.address],
{
    let rows = seq![row];
    let asked = seq![row.address];
    assert(rows.drop_last() == Seq::<GeocodeRecord>::empty());
    assert(rows.last() == row);
    assert(asked.drop_last() == Seq::<Seq<char>>::empty());
    assert(asked.last() == row.address);
    let after = stored_after(contents, rows, source);
    assert(stored_after(contents, rows.drop_last(), source) == contents);
    assert(hits_of(after, asked.drop_last()) == Seq::<GeocodeRecord>::empty());
    assert(misses_of(after, asked.drop_last()) == Seq::<Seq<char>>::empty());
    if row.resolved() {
        assert(after.contains_key(row.address));
        assert(hits_of(after, asked) =~= seq![
            hit_record(
                row.address,
                CachedLocation { lat: row.lat->0, lon: row.lon->0, source },
            ),
        ]);
    } else {
        if !contents.contains_key(row.address) {
            assert(misses_of(after, asked) =~= seq![row.address]);
        }
    }
}

/// Of two stores to one address, the later one decides what the cache
/// holds for it.
pub proof fn law_latest_store_wins(
    contents: CacheContents,
    first: GeocodeRecord,
    first_source: Seq<char>,
    second: GeocodeRecord,
    second_source: Seq<char>,
)
    requires
        first.address == second.address,
        second.resolved(),
    ensures
        stored_after(
            stored_after(contents, seq![first], first_source),
            seq![second],
            second_source,
        ) == contents.insert(
            second.address,
            CachedLocation { lat: second.lat->0, lon: second.lon->0, source: second_source },
        ),
{
    let a = seq![first];
    let b = seq![second];
    assert(a.drop_last() == Seq::<GeocodeRecord>::empty() && a.last() == first);
    assert(b.drop_last() == Seq::<GeocodeRecord>::empty() && b.last() == second);
    let mid = stored_after(contents, a, first_source);
    assert(stored_after(contents, a.drop_last(), first_source) == contents);
    assert(stored_after(mid, b.drop_last(), second_source) == mid);
    assert(stored_after(mid, b, second_source) =~= contents.insert(
        second.address,
        CachedLocation { lat: second.lat->0, lon: second.lon->0, source: second_source },
    ));
}

/// A lookup parts the addresses asked: each of them is a hit or a miss and
/// not both, every hit is held by the cache and no miss is; and both parts
/// keep the order asked.
pub proof fn law_lookup_parts_the_input(contents: CacheContents, addresses: Seq<Seq<char>>)
    ensures
        hits_of(contents, addresses).len() + misses_of(contents, addresses).len()
            == addresses.len(),
        forall|i: int|
            0 <= i < hits_of(contents, addresses).len() ==> contents.contains_key(
                (#[trigger] hits_of(contents, addresses)[i]).address,
            ) && hits_of(contents, addresses)[i] == hit_record(
                hits_of(contents, addresses)[i].address,
                contents[hits_of(contents, addresses)[i].address],
            ),
        forall|i: int|
            0 <= i < misses_of(contents, addresses).len() ==> !contents.contains_key(
                #[trigger] misses_of(contents, addresses)[i],
            ),
        forall|a: Seq<char>|
            addresses.contains(a) ==> (contents.contains_key(a) <==> !misses_of(
                contents,
                addresses,
            ).contains(a)),
    decreases addresses.len(),
{
    if addresses.len() > 0 {
        let rest = addresses.drop_last();
        let last = addresses.last();
        law_lookup_parts_the_input(contents, rest);
        assert forall|a: Seq<char>| addresses.contains(a) implies (contents.contains_key(a)
            <==> !misses_of(contents, addresses).contains(a)) by {
            let k = choose|k: int| 0 <= k < addresses.len() && addresses[k] == a;
            if k < rest.len() {
                assert(rest[k] == a);
                assert(rest.contains(a));
            }
            if misses_of(contents, addresses).contains(a) {
                let j = choose|j: int|
                    0 <= j < misses_of(contents, addresses).len() && misses_of(
                        contents,
                        addresses,
                    )[j] == a;
                if j < misses_of(contents, rest).len() {
                    assert(misses_of(contents, rest)[j] == a);
                }
            }
            if !contents.contains_key(a) {
                if a == last {
                    assert(misses_of(contents, addresses)[misses_of(contents, rest).len() as int]
                        == a);
                } else {
                    assert(rest.contains(a));
                    let j = choose|j: int|
                        0 <= j < misses_of(contents, rest).len() && misses_of(contents, rest)[j]
                            == a;
                    assert(misses_of(contents, addresses)[j] == a);
                }
            }
        }
    }
}

} // verus!
