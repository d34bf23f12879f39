//! The resolution batch: the addresses of one call, each asked once, and for
//! each of them the row that a stage has placed so far. What is still
//! pending shrinks as stages succeed; a row once placed stays.

use crate::geocode_cache::{
    hit_record, written_after, AddressCache, CacheContents, CacheEntry, CacheEntryModel,
    CachedLocation,
};
use crate::geocode_result::{GeocodeRecord, GeocodeResult, ResultSource};
use vstd::hash_map::StringHashMap;
use vstd::hash_set::StringHashSet;
use vstd::prelude::*;

verus! {

/// The rows placed so far, one slot for each address.
pub type Slots = Seq<Option<GeocodeRecord>>;

/// The addresses of `input` with every repetition after the first left out.
pub open spec fn unique_of(input: Seq<Seq<char>>) -> Seq<Seq<char>>
    decreases input.len(),
{
    if input.len() == 0 {
        Seq::empty()
    } else {
        let rest = unique_of(input.drop_last());
        if rest.contains(input.last()) {
            rest
        } else {
            rest.push(input.last())
        }
    }
}

/// The first position of `address` in `list`.
pub open spec fn index_in(list: Seq<Seq<char>>, address: Seq<char>) -> Option<int>
    decreases list.len(),
{
    if list.len() == 0 {
        None
    } else {
        match index_in(list.drop_last(), address) {
            Some(i) => Some(i),
            None => if list.last() == address {
                Some(list.len() - 1)
            } else {
                None
            },
        }
    }
}

/// The mathematical content of a [`ResolutionBatch`].
pub struct BatchModel {
    pub requested: Seq<Seq<char>>,
    pub slots: Slots,
}

impl BatchModel {
    /// The batch for `input`, with nothing placed.
    pub open spec fn of(input: Seq<Seq<char>>) -> BatchModel {
        BatchModel {
            requested: unique_of(input),
            slots: Seq::new(unique_of(input).len(), |i: int| None::<GeocodeRecord>),
        }
    }

    /// Each address is asked once, each has its slot, and a slot holds
    /// nothing but a row of its own address with both coordinates and a
    /// source.
    pub open spec fn wf(self) -> bool {
        &&& self.requested.no_duplicates()
        &&& self.slots.len() == self.requested.len()
        &&& forall|i: int|
            0 <= i < self.slots.len() ==> ((#[trigger] self.slots[i]) matches Some(row)
                ==> row.address == self.requested[i] && row.resolved() && row.source is Some)
    }

    /// The addresses that no stage has placed yet, in the order asked.
    pub open spec fn pending(self) -> Seq<Seq<char>>
        decreases self.requested.len(),
    {
        if self.requested.len() == 0 || self.slots.len() != self.requested.len() {
            Seq::empty()
        } else {
            let rest = (BatchModel {
                requested: self.requested.drop_last(),
                slots: self.slots.drop_last(),
            }).pending();
            if self.slots.last() is None {
                rest.push(self.requested.last())
            } else {
                rest
            }
        }
    }

    /// The batch after a stage offers `row`. A row with both coordinates
    /// takes the slot of its address if that slot is free, and is credited
    /// to `source`. Any other row changes nothing.
    pub open spec fn place(self, row: GeocodeRecord, source: ResultSource) -> BatchModel {
        match index_in(self.requested, row.address) {
            Some(i) => if row.resolved() && self.slots[i] is None {
                BatchModel { slots: self.slots.update(i, Some(row.from_source(source))), ..self }
            } else {
                self
            },
            None => self,
        }
    }

    /// The batch after a stage offers `rows`, one after the other.
    pub open spec fn merged(self, rows: Seq<GeocodeRecord>, source: ResultSource) -> BatchModel
        decreases rows.len(),
    {
        if rows.len() == 0 {
            self
        } else {
            self.merged(rows.drop_last(), source).place(rows.last(), source)
        }
    }

    /// The batch after a cache lookup: every address that the cache holds
    /// and that is not placed yet gets the row of its entry.
    pub open spec fn cache_filled(self, contents: CacheContents) -> BatchModel {
        BatchModel {
            slots: Seq::new(
                self.slots.len(),
                |i: int|
                    if self.slots[i] is None && contents.contains_key(self.requested[i]) {
                        Some(hit_record(self.requested[i], contents[self.requested[i]]))
                    } else {
                        self.slots[i]
                    },
            ),
            ..self
        }
    }

    /// The answer of the call: for each address, in the order asked, the row
    /// placed for it, or the row that reports it as not placed.
    pub open spec fn results(self) -> Seq<GeocodeRecord> {
        Seq::new(
            self.requested.len(),
            |i: int|
                match self.slots[i] {
                    Some(row) => row,
                    None => GeocodeRecord::residual(self.requested[i]),
                },
        )
    }

    /// The cache entries for the rows that `source` placed, in the order
    /// asked.
    pub open spec fn entries_from(self, source: ResultSource) -> Seq<CacheEntryModel>
        decreases self.slots.len(),
    {
        if self.slots.len() == 0 {
            Seq::empty()
        } else {
            let rest = (BatchModel { slots: self.slots.drop_last(), ..self }).entries_from(source);
            match self.slots.last() {
                Some(row) => if row.source == Some(source) && row.resolved() {
                    rest.push(
                        CacheEntryModel {
                            address: row.address,
                            location: CachedLocation {
                                lat: row.lat->0,
                                lon: row.lon->0,
                                source: source.tag(),
                            },
                        },
                    )
                } else {
                    rest
                },
                None => rest,
            }
        }
    }
}

/// What the first position of an address in a list is.
pub proof fn lemma_index_in(list: Seq<Seq<char>>, address: Seq<char>)
    ensures
        match index_in(list, address) {
            Some(i) => 0 <= i < list.len() && list[i] == address && forall|k: int|
                0 <= k < i ==> list[k] != address,
            None => !list.contains(address),
        },
    decreases list.len(),
{
    if list.len() > 0 {
        lemma_index_in(list.drop_last(), address);
        match index_in(list.drop_last(), address) {
            Some(i) => {
                assert(list.drop_last()[i] == list[i]);
                assert forall|k: int| 0 <= k < i implies list[k] != address by {
                    assert(list.drop_last()[k] == list[k]);
                }
            },
            None => {
                if list.last() == address {
                    assert forall|k: int| 0 <= k < list.len() - 1 implies list[k] != address by {
                        assert(list.drop_last()[k] == list[k]);
                        assert(list.drop_last().contains(list.drop_last()[k]));
                    }
                } else {
                    assert forall|k: int| 0 <= k < list.len() implies list[k] != address by {
                        if k < list.len() - 1 {
                            assert(list.drop_last()[k] == list[k]);
                            assert(list.drop_last().contains(list.drop_last()[k]));
                        }
                    }
                }
            },
        }
    }
}

/// The addresses asked hold each address of the input once: nothing is
/// repeated, nothing is lost and nothing is added.
pub proof fn lemma_unique_of(input: Seq<Seq<char>>)
    ensures
        unique_of(input).no_duplicates(),
        forall|a: Seq<char>| unique_of(input).contains(a) <==> input.contains(a),
        unique_of(input).len() <= input.len(),
    decreases input.len(),
{
    if input.len() > 0 {
        let rest = unique_of(input.drop_last());
        lemma_unique_of(input.drop_last());
        assert forall|a: Seq<char>| unique_of(input).contains(a) <==> input.contains(a) by {
            if input.contains(a) {
                let k = choose|k: int| 0 <= k < input.len() && input[k] == a;
                if k < input.len() - 1 {
                    assert(input.drop_last()[k] == a);
                    assert(input.drop_last().contains(a));
                    let j = choose|j: int| 0 <= j < rest.len() && rest[j] == a;
                    assert(unique_of(input)[j] == a);
                } else {
                    if rest.contains(a) {
                    } else {
                        assert(unique_of(input)[rest.len() as int] == a);
                    }
                }
            }
            if unique_of(input).contains(a) {
                let j = choose|j: int| 0 <= j < unique_of(input).len() && unique_of(input)[j] == a;
                if j < rest.len() {
                    assert(rest[j] == a);
                    assert(rest.contains(a));
                    assert(input.drop_last().contains(a));
                    let k = choose|k: int|
                        0 <= k < input.drop_last().len() && input.drop_last()[k] == a;
                    assert(input.drop_last()[k] == input[k]);
                    assert(input[k] == a);
                } else {
                    assert(input[input.len() - 1] == a);
                }
            }
        }
        if !rest.contains(input.last()) {
            assert forall|i: int, j: int|
                0 <= i < rest.len() + 1 && 0 <= j < rest.len() + 1 && i != j implies rest.push(
                input.last(),
            )[i] != rest.push(input.last())[j] by {
                if i < rest.len() {
                    assert(rest.contains(rest[i]));
                }
                if j < rest.len() {
                    assert(rest.contains(rest[j]));
                }
            }
        }
    }
}

/// The addresses of one call and the rows placed for them so far.
pub struct ResolutionBatch {
    pub requested: Vec<String>,
    pub slots: Vec<Option<GeocodeResult>>,
}

impl View for ResolutionBatch {
    type V = BatchModel;

    open spec fn view(&self) -> BatchModel {
        BatchModel { requested: self.requested.deep_view(), slots: self.slots.deep_view() }
    }
}

/// Whether `index` gives, for each address of `requested` and for no other
/// text, the first position of the address.
pub open spec fn indexes(index: Map<Seq<char>, usize>, requested: Seq<Seq<char>>) -> bool {
    &&& forall|a: Seq<char>|
        #[trigger] index.contains_key(a) ==> index[a] < requested.len() && index_in(requested, a)
            == Some(index[a] as int)
    &&& forall|a: Seq<char>| !(#[trigger] index.contains_key(a)) ==> index_in(requested, a) is None
}

impl ResolutionBatch {
    /// The batch for `input`: each address once, in the order of its first
    /// occurrence, and nothing placed.
    pub fn new(input: &[String]) -> (batch: ResolutionBatch)
        ensures
            batch@ == BatchModel::of(input.deep_view()),
            batch@.wf(),
    {
        let mut requested: Vec<String> = Vec::new();
        let mut seen: StringHashSet = StringHashSet::new();
        let mut i: usize = 0;
        assert(input.deep_view().take(0) == Seq::<Seq<char>>::empty());
        while i < input.len()
            invariant
                i <= input.len(),
                requested.deep_view() == unique_of(input.deep_view().take(i as int)),
                forall|a: Seq<char>| seen@.contains(a) <==> requested.deep_view().contains(a),
            decreases input.len() - i,
        {
            let ghost before = requested.deep_view();
            proof {
                let next = input.deep_view().take(i + 1);
                assert(next.drop_last() == input.deep_view().take(i as int));
                assert(next.last() == input[i as int]@);
            }
            if seen.insert(input[i].clone()) {
                let a = input[i].clone();
                requested.push(a);
                proof {
                    let after = requested.deep_view();
                    assert(after == before.push(a@));
                    assert forall|x: Seq<char>| seen@.contains(x) <==> after.contains(x) by {
                        if before.contains(x) {
                            let k = choose|k: int| 0 <= k < before.len() && before[k] == x;
                            assert(after[k] == x);
                        }
                        if x == a@ {
                            assert(after[before.len() as int] == x);
                        }
                        if after.contains(x) {
                            let k = choose|k: int| 0 <= k < after.len() && after[k] == x;
                            if k < before.len() {
                                assert(before[k] == x);
                            }
                        }
                    }
                }
            }
            i += 1;
        }
        assert(input.deep_view().take(input.len() as int) == input.deep_view());
        let mut slots: Vec<Option<GeocodeResult>> = Vec::new();
        let mut j: usize = 0;
        while j < requested.len()
            invariant
                j <= requested.len(),
                slots.len() == j,
                forall|k: int| 0 <= k < j ==> slots.deep_view()[k] is None,
            decreases requested.len() - j,
        {
            let ghost before = slots.deep_view();
            slots.push(None);
            assert(slots.deep_view() =~= before.push(None));
            j += 1;
        }
        let batch = ResolutionBatch { requested, slots };
        proof {
            lemma_unique_of(input.deep_view());
            assert(batch@.slots =~= BatchModel::of(input.deep_view()).slots);
        }
        batch
    }

    /// The number of addresses asked.
    pub fn len(&self) -> (n: usize)
        ensures
            n == self@.requested.len(),
    {
        self.requested.len()
    }

    /// The slot of each address asked, by address.
    fn slot_index(&self) -> (index: StringHashMap<usize>)
        requires
            self@.wf(),
        ensures
            indexes(index@, self@.requested),
    {
        let mut index: StringHashMap<usize> = StringHashMap::new();
        let mut i: usize = 0;
        while i < self.requested.len()
            invariant
                i <= self.requested.len(),
                forall|a: Seq<char>|
                    #[trigger] index@.contains_key(a) ==> index@[a] < i
                        && self.requested.deep_view()[index@[a] as int] == a,
                forall|k: int|
                    0 <= k < i ==> index@.contains_key(#[trigger] self.requested.deep_view()[k]),
            decreases self.requested.len() - i,
        {
            if !index.contains_key(self.requested[i].as_str()) {
                index.insert(self.requested[i].clone(), i);
            }
            i += 1;
        }
        proof {
            let requested = self@.requested;
            assert forall|a: Seq<char>| #[trigger] index@.contains_key(a) implies index@[a]
                < requested.len() && index_in(requested, a) == Some(index@[a] as int) by {
                lemma_index_in(requested, a);
                assert(requested.contains(requested[index@[a] as int]));
            }
            assert forall|a: Seq<char>| !(#[trigger] index@.contains_key(a)) implies index_in(
                requested,
                a,
            ) is None by {
                lemma_index_in(requested, a);
                if requested.contains(a) {
                    let k = choose|k: int| 0 <= k < requested.len() && requested[k] == a;
                    assert(index@.contains_key(requested[k]));
                }
            }
        }
        index
    }

    /// The addresses that no stage has placed yet, in the order asked.
    pub fn pending(&self) -> (r: Vec<String>)
        requires
            self@.wf(),
        ensures
            r.deep_view() == self@.pending(),
    {
        let mut r: Vec<String> = Vec::new();
        let mut i: usize = 0;
        let ghost whole = self@;
        assert((BatchModel { requested: whole.requested.take(0), slots: whole.slots.take(0) })
            .pending() == Seq::<Seq<char>>::empty());
        while i < self.requested.len()
            invariant
                i <= self.requested.len(),
                whole == self@,
                whole.slots.len() == whole.requested.len(),
                r.deep_view() == (BatchModel {
                    requested: whole.requested.take(i as int),
                    slots: whole.slots.take(i as int),
                }).pending(),
            decreases self.requested.len() - i,
        {
            let ghost before = r.deep_view();
            proof {
                assert(whole.requested.take(i + 1).drop_last() == whole.requested.take(i as int));
                assert(whole.slots.take(i + 1).drop_last() == whole.slots.take(i as int));
                assert(whole.requested.take(i + 1).last() == self.requested[i as int]@);
                assert(whole.slots.take(i + 1).last() == self.slots[i as int].deep_view());
            }
            if self.slots[i].is_none() {
                let a = self.requested[i].clone();
                r.push(a);
                assert(r.deep_view() == before.push(a@));
            }
            i += 1;
        }
        proof {
            assert(whole.requested.take(whole.requested.len() as int) == whole.requested);
            assert(whole.slots.take(whole.slots.len() as int) == whole.slots);
        }
        r
    }

    /// Offers one row on behalf of `source`.
    pub fn place(&mut self, row: &GeocodeResult, source: ResultSource)
        requires
            old(self)@.wf(),
        ensures
            final(self)@ == old(self)@.place(row@, source),
            final(self)@.wf(),
            final(self)@.requested == old(self)@.requested,
    {
        let index = self.slot_index();
        self.place_by(&index, row, source);
    }

    /// Offers one row on behalf of `source`, with the slots looked up in
    /// `index`.
    fn place_by(&mut self, index: &StringHashMap<usize>, row: &GeocodeResult, source: ResultSource)
        requires
            old(self)@.wf(),
            indexes(index@, old(self)@.requested),
        ensures
            final(self)@ == old(self)@.place(row@, source),
            final(self)@.wf(),
            final(self)@.requested == old(self)@.requested,
    {
        if !row.is_resolved() {
            return ;
        }
        match index.get(row.address.as_str()) {
            Some(slot) => {
                let i: usize = *slot;
                if self.slots[i].is_none() {
                    let ghost before = self.slots.deep_view();
                    let credited = row.credited_to(source);
                    self.slots.set(i, Some(credited));
                    proof {
                        lemma_index_in(old(self)@.requested, row@.address);
                        assert(self.slots.deep_view() =~= before.update(
                            i as int,
                            Some(row@.from_source(source)),
                        ));
                    }
                } else {
                    assert(old(self)@.slots[i as int] == old(self).slots[i as int].deep_view());
                }
            },
            None => {},
        }
    }

    /// Offers `rows` on behalf of `source`, one after the other.
    pub fn merge(&mut self, rows: &[GeocodeResult], source: ResultSource)
        requires
            old(self)@.wf(),
        ensures
            final(self)@ == old(self)@.merged(rows.deep_view(), source),
            final(self)@.wf(),
            final(self)@.requested == old(self)@.requested,
    {
        let index = self.slot_index();
        let mut i: usize = 0;
        assert(rows.deep_view().take(0) == Seq::<GeocodeRecord>::empty());
        while i < rows.len()
            invariant
                i <= rows.len(),
                self@.wf(),
                self@.requested == old(self)@.requested,
                indexes(index@, old(self)@.requested),
                self@ == old(self)@.merged(rows.deep_view().take(i as int), source),
            decreases rows.len() - i,
        {
            proof {
                let next = rows.deep_view().take(i + 1);
                assert(next.drop_last() == rows.deep_view().take(i as int));
                assert(next.last() == rows[i as int]@);
            }
            self.place_by(&index, &rows[i], source);
            i += 1;
        }
        assert(rows.deep_view().take(rows.len() as int) == rows.deep_view());
    }

    /// Gives every address that the cache holds, and that is not placed yet,
    /// the row of its entry.
    pub fn fill_from_cache(&mut self, cache: &AddressCache)
        requires
            old(self)@.wf(),
            cache.wf(),
        ensures
            final(self)@ == old(self)@.cache_filled(cache@),
            final(self)@.wf(),
            final(self)@.requested == old(self)@.requested,
    {
        let mut i: usize = 0;
        let ghost start = self@;
        let ghost goal = start.cache_filled(cache@);
        while i < self.requested.len()
            invariant
                i <= self.requested.len(),
                cache.wf(),
                start.wf(),
                start == old(self)@,
                goal == start.cache_filled(cache@),
                self@.requested == start.requested,
                self@.slots.len() == start.slots.len(),
                forall|k: int| 0 <= k < i ==> self@.slots[k] == goal.slots[k],
                forall|k: int| i <= k < self@.slots.len() ==> self@.slots[k] == start.slots[k],
            decreases self.requested.len() - i,
        {
            let ghost before = self.slots.deep_view();
            assert(before[i as int] == self.slots[i as int].deep_view());
            assert(self@.requested[i as int] == self.requested[i as int]@);
            if self.slots[i].is_none() {
                match cache.get(self.requested[i].as_str()) {
                    Some(hit) => {
                        self.slots.set(i, Some(hit));
                        assert(self.slots.deep_view() =~= before.update(i as int, Some(hit@)));
                    },
                    None => {},
                }
            }
            i += 1;
        }
        assert(self@.slots =~= goal.slots);
    }

    /// The answer of the call: one row for each address, in the order asked.
    pub fn results(&self) -> (r: Vec<GeocodeResult>)
        requires
            self@.wf(),
        ensures
            r.deep_view() == self@.results(),
    {
        let mut r: Vec<GeocodeResult> = Vec::new();
        let mut i: usize = 0;
        while i < self.requested.len()
            invariant
                i <= self.requested.len(),
                self.slots.len() == self.requested.len(),
                r.len() == i,
                forall|k: int| 0 <= k < i ==> r.deep_view()[k] == self@.results()[k],
            decreases self.requested.len() - i,
        {
            let ghost before = r.deep_view();
            assert(self@.slots[i as int] == self.slots[i as int].deep_view());
            assert(self@.requested[i as int] == self.requested[i as int]@);
            let row = match &self.slots[i] {
                Some(row) => row.duplicate(),
                None => GeocodeResult::unresolved(self.requested[i].clone()),
            };
            r.push(row);
            assert(r.deep_view() =~= before.push(row@));
            i += 1;
        }
        assert(r.deep_view() =~= self@.results());
        r
    }

    /// The cache entries for the rows that `source` placed, in the order
    /// asked.
    pub fn entries(&self, source: ResultSource) -> (r: Vec<CacheEntry>)
        ensures
            r.deep_view() == self@.entries_from(source),
    {
        let mut r: Vec<CacheEntry> = Vec::new();
        let mut i: usize = 0;
        let ghost whole = self@;
        assert((BatchModel { slots: whole.slots.take(0), ..whole }).entries_from(source)
            == Seq::<CacheEntryModel>::empty());
        while i < self.slots.len()
            invariant
                i <= self.slots.len(),
                whole == self@,
                r.deep_view() == (BatchModel {
                    slots: whole.slots.take(i as int),
                    ..whole
                }).entries_from(source),
            decreases self.slots.len() - i,
        {
            let ghost before = r.deep_view();
            proof {
                assert(whole.slots.take(i + 1).drop_last() == whole.slots.take(i as int));
                assert(whole.slots.take(i + 1).last() == self.slots[i as int].deep_view());
            }
            match &self.slots[i] {
                Some(row) => {
                    let credited: bool = match row.source {
                        Some(s) => same_source(s, source),
                        None => false,
                    };
                    match (credited, row.lat, row.lon) {
                        (true, Some(lat), Some(lon)) => {
                            let e = CacheEntry {
                                address: row.address.clone(),
                                lat,
                                lon,
                                source: source.as_str().to_owned(),
                            };
                            r.push(e);
                            assert(r.deep_view() == before.push(e@));
                        },
                        _ => {},
                    }
                },
                None => {},
            }
            i += 1;
        }
        assert(whole.slots.take(whole.slots.len() as int) == whole.slots);
        r
    }
}

/// Whether two sources are the same stage.
pub fn same_source(a: ResultSource, b: ResultSource) -> (r: bool)
    ensures
        r == (a == b),
{
    match (a, b) {
        (ResultSource::Cache, ResultSource::Cache) => true,
        (ResultSource::LocalResolver, ResultSource::LocalResolver) => true,
        (ResultSource::RemoteApi, ResultSource::RemoteApi) => true,
        _ => false,
    }
}

/// The addresses of a list of rows, in order.
pub open spec fn addresses_of(rows: Seq<GeocodeRecord>) -> Seq<Seq<char>> {
    Seq::new(rows.len(), |i: int| rows[i].address)
}

/// The answer holds exactly one row for each address asked, in the order
/// asked; each row has both coordinates or neither; a placed address gets
/// the row placed for it, any other the row that reports it as not placed.
pub proof fn law_results_cover_requested(b: BatchModel)
    requires
        b.wf(),
    ensures
        addresses_of(b.results()) == b.requested,
        addresses_of(b.results()).no_duplicates(),
        forall|i: int| 0 <= i < b.results().len() ==> (#[trigger] b.results()[i]).well_formed(),
        forall|i: int|
            0 <= i < b.requested.len() ==> #[trigger] b.results()[i] == (match b.slots[i] {
                Some(row) => row,
                None => GeocodeRecord::residual(b.requested[i]),
            }),
{
    assert(addresses_of(b.results()) =~= b.requested);
}

/// Offering a row keeps the batch in order, keeps the addresses asked, and
/// keeps every row placed before.
pub proof fn lemma_place_keeps(b: BatchModel, row: GeocodeRecord, source: ResultSource)
    requires
        b.wf(),
    ensures
        b.place(row, source).wf(),
        b.place(row, source).requested == b.requested,
        forall|i: int|
            0 <= i < b.slots.len() && b.slots[i] is Some ==> #[trigger] b.place(
                row,
                source,
            ).slots[i] == b.slots[i],
{
    lemma_index_in(b.requested, row.address);
}

/// Offering rows keeps the batch in order, keeps the addresses asked, and
/// keeps every row placed before.
pub proof fn lemma_merged_keeps(b: BatchModel, rows: Seq<GeocodeRecord>, source: ResultSource)
    requires
        b.wf(),
    ensures
        b.merged(rows, source).wf(),
        b.merged(rows, source).requested == b.requested,
        forall|i: int|
            0 <= i < b.slots.len() && b.slots[i] is Some ==> #[trigger] b.merged(
                rows,
                source,
            ).slots[i] == b.slots[i],
    decreases rows.len(),
{
    if rows.len() > 0 {
        let before = b.merged(rows.drop_last(), source);
        lemma_merged_keeps(b, rows.drop_last(), source);
        lemma_place_keeps(before, rows.last(), source);
        assert forall|i: int| 0 <= i < b.slots.len() && b.slots[i] is Some implies #[trigger] b.merged(
            rows,
            source,
        ).slots[i] == b.slots[i] by {
            assert(before.slots[i] == b.slots[i]);
            assert(before.place(rows.last(), source).slots[i] == before.slots[i]);
        }
    }
}

/// A cache lookup keeps the batch in order, keeps the addresses asked, and
/// keeps every row placed before.
pub proof fn lemma_cache_filled_keeps(b: BatchModel, contents: CacheContents)
    requires
        b.wf(),
    ensures
        b.cache_filled(contents).wf(),
        b.cache_filled(contents).requested == b.requested,
        forall|i: int|
            0 <= i < b.slots.len() && b.slots[i] is Some ==> #[trigger] b.cache_filled(
                contents,
            ).slots[i] == b.slots[i],
{
}

/// What is pending is what has no row: an address asked is pending exactly
/// when its slot is free, and nothing else is pending.
pub proof fn lemma_pending(b: BatchModel)
    requires
        b.slots.len() == b.requested.len(),
    ensures
        b.pending().len() <= b.requested.len(),
        forall|a: Seq<char>|
            #[trigger] b.pending().contains(a) <==> exists|i: int|
                0 <= i < b.requested.len() && b.requested[i] == a && b.slots[i] is None,
        b.pending().len() == 0 <==> forall|i: int|
            0 <= i < b.slots.len() ==> (#[trigger] b.slots[i]) is Some,
    decreases b.requested.len(),
{
    if b.requested.len() > 0 {
        let shorter = BatchModel { requested: b.requested.drop_last(), slots: b.slots.drop_last() };
        lemma_pending(shorter);
        let n = b.requested.len() - 1;
        assert forall|a: Seq<char>| #[trigger]
            b.pending().contains(a) <==> exists|i: int|
                0 <= i < b.requested.len() && b.requested[i] == a && b.slots[i] is None by {
            if b.pending().contains(a) {
                let j = choose|j: int| 0 <= j < b.pending().len() && b.pending()[j] == a;
                if j < shorter.pending().len() {
                    assert(shorter.pending()[j] == a);
                    assert(shorter.pending().contains(a));
                    let i = choose|i: int|
                        0 <= i < shorter.requested.len() && shorter.requested[i] == a
                            && shorter.slots[i] is None;
                    assert(b.requested[i] == a && b.slots[i] is None);
                } else {
                    assert(b.requested[n] == a && b.slots[n] is None);
                }
            }
            if exists|i: int| 0 <= i < b.requested.len() && b.requested[i] == a && b.slots[i] is None {
                let i = choose|i: int|
                    0 <= i < b.requested.len() && b.requested[i] == a && b.slots[i] is None;
                if i < n {
                    assert(shorter.requested[i] == a && shorter.slots[i] is None);
                    assert(shorter.pending().contains(a));
                    let j = choose|j: int|
                        0 <= j < shorter.pending().len() && shorter.pending()[j] == a;
                    assert(b.pending()[j] == a);
                } else {
                    assert(b.pending()[b.pending().len() - 1] == a);
                }
            }
        }
        if b.pending().len() == 0 {
            assert forall|i: int| 0 <= i < b.slots.len() implies (#[trigger] b.slots[i]) is Some by {
                if i < n {
                    assert(shorter.slots[i] == b.slots[i]);
                }
            }
        }
        if forall|i: int| 0 <= i < b.slots.len() ==> (#[trigger] b.slots[i]) is Some {
            assert(b.slots[n] is Some);
            assert forall|i: int| 0 <= i < shorter.slots.len() implies (
            #[trigger] shorter.slots[i]) is Some by {
                assert(shorter.slots[i] == b.slots[i]);
            }
        }
    }
}

/// An address that has its row is not pending: no later stage is asked for
/// it.
pub proof fn law_placed_is_not_pending(b: BatchModel, i: int)
    requires
        b.wf(),
        0 <= i < b.requested.len(),
        b.slots[i] is Some,
    ensures
        !b.pending().contains(b.requested[i]),
{
    lemma_pending(b);
}

proof fn lemma_placed_rows_are_written(
    b: BatchModel,
    source: ResultSource,
    contents: CacheContents,
    i: int,
)
    requires
        b.requested.no_duplicates(),
        b.slots.len() <= b.requested.len(),
        forall|j: int|
            0 <= j < b.slots.len() ==> ((#[trigger] b.slots[j]) matches Some(row) ==> row.address
                == b.requested[j] && row.resolved()),
        0 <= i < b.slots.len(),
        b.slots[i] matches Some(row) && row.source == Some(source),
    ensures
        written_after(contents, b.entries_from(source)).contains_key(b.requested[i]),
        written_after(contents, b.entries_from(source))[b.requested[i]] == (CachedLocation {
            lat: b.slots[i]->0.lat->0,
            lon: b.slots[i]->0.lon->0,
            source: source.tag(),
        }),
    decreases b.slots.len(),
{
    let n = b.slots.len() - 1;
    let shorter = BatchModel { slots: b.slots.drop_last(), ..b };
    let rest = shorter.entries_from(source);
    assert(b.slots.last() == b.slots[n]);
    if i < n {
        assert forall|j: int| 0 <= j < shorter.slots.len() implies ((
        #[trigger] shorter.slots[j]) matches Some(row) ==> row.address == shorter.requested[j]
            && row.resolved()) by {
            assert(shorter.slots[j] == b.slots[j]);
        }
        assert(shorter.slots[i] == b.slots[i]);
        lemma_placed_rows_are_written(shorter, source, contents, i);
        match b.slots.last() {
            Some(row) => {
                if row.source == Some(source) && row.resolved() {
                    let e = CacheEntryModel {
                        address: row.address,
                        location: CachedLocation {
                            lat: row.lat->0,
                            lon: row.lon->0,
                            source: source.tag(),
                        },
                    };
                    assert(rest.push(e).drop_last() == rest);
                    assert(b.requested[n] != b.requested[i]);
                }
            },
            None => {},
        }
    } else {
        let row = b.slots[i]->0;
        let e = CacheEntryModel {
            address: row.address,
            location: CachedLocation { lat: row.lat->0, lon: row.lon->0, source: source.tag() },
        };
        assert(rest.push(e).drop_last() == rest);
    }
}

/// Writing the cache entries of a stage leaves, for every address that the
/// stage placed, exactly the coordinates of its row, under the tag of the
/// stage.
pub proof fn law_placed_rows_are_written(
    b: BatchModel,
    source: ResultSource,
    contents: CacheContents,
    i: int,
)
    requires
        b.wf(),
        0 <= i < b.slots.len(),
        b.slots[i] matches Some(row) && row.source == Some(source),
    ensures
        written_after(contents, b.entries_from(source)).contains_key(b.requested[i]),
        written_after(contents, b.entries_from(source))[b.requested[i]] == (CachedLocation {
            lat: b.slots[i]->0.lat->0,
            lon: b.slots[i]->0.lon->0,
            source: source.tag(),
        }),
{
    lemma_placed_rows_are_written(b, source, contents, i);
}

} // verus!
