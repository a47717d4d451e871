use vstd::prelude::*;

verus! {

/// Columnar storage of catalog observations: seven parallel sequences, one
/// per field, index-aligned so that entry `i` of every sequence describes one
/// observation.
///
/// The four physical quantities (`depth`, `lat`, `long`, `magnitude`) are
/// carried as the IEEE-754 bit patterns of their 64-bit float values; the
/// model never interprets them, it only aligns and copies them.
pub struct SkjalftalisaResponseData {
    pub depth: Vec<u64>,
    pub lat: Vec<u64>,
    pub long: Vec<u64>,
    pub magnitude: Vec<u64>,
    pub magnitude_type: Vec<String>,
    pub originating_system: Vec<String>,
    pub time: Vec<i64>,
}

/// The whole response document: a single `data` member holding the columns.
pub struct SkjalftalisaResponse {
    pub data: SkjalftalisaResponseData,
}

/// One observation, materialized on demand by copying the scalar values out
/// of the parallel sequences. Float-valued fields are IEEE-754 bit patterns,
/// as in `SkjalftalisaResponseData`.
pub struct Quake {
    pub depth: u64,
    pub lat: u64,
    pub long: u64,
    pub magnitude: u64,
    pub magnitude_type: String,
    pub originating_system: String,
    pub time: i64,
}

/// Mathematical value of one observation.
pub ghost struct QuakeView {
    pub depth: u64,
    pub lat: u64,
    pub long: u64,
    pub magnitude: u64,
    pub magnitude_type: Seq<char>,
    pub originating_system: Seq<char>,
    pub time: i64,
}

impl View for Quake {
    type V = QuakeView;

    open spec fn view(&self) -> QuakeView {
        QuakeView {
            depth: self.depth,
            lat: self.lat,
            long: self.long,
            magnitude: self.magnitude,
            magnitude_type: self.magnitude_type@,
            originating_system: self.originating_system@,
            time: self.time,
        }
    }
}

pub open spec fn nat_min(a: nat, b: nat) -> nat {
    if a <= b {
        a
    } else {
        b
    }
}

impl SkjalftalisaResponseData {
    /// Number of addressable rows: the length of the shortest column, so a
    /// ragged response simply exposes fewer rows instead of failing.
    pub open spec fn num_rows(&self) -> nat {
        nat_min(
            self.depth@.len(),
            nat_min(
                self.lat@.len(),
                nat_min(
                    self.long@.len(),
                    nat_min(
                        self.magnitude@.len(),
                        nat_min(
                            self.magnitude_type@.len(),
                            nat_min(self.originating_system@.len(), self.time@.len()),
                        ),
                    ),
                ),
            ),
        )
    }

    /// The observation described by position `i` across all seven columns.
    pub open spec fn row(&self, i: int) -> QuakeView
        recommends
            0 <= i < self.num_rows(),
    {
        QuakeView {
            depth: self.depth@[i],
            lat: self.lat@[i],
            long: self.long@[i],
            magnitude: self.magnitude@[i],
            magnitude_type: self.magnitude_type@[i]@,
            originating_system: self.originating_system@[i]@,
            time: self.time@[i],
        }
    }

    /// All rows, in index order (the order the service returned them).
    pub open spec fn rows_seq(&self) -> Seq<QuakeView> {
        Seq::new(self.num_rows(), |i: int| self.row(i))
    }

    /// Whether row `i` falls inside the inclusive time window `[s, e]`.
    pub open spec fn row_in_window(&self, i: int, s: i64, e: i64) -> bool
        recommends
            0 <= i < self.num_rows(),
    {
        s <= self.time@[i] <= e
    }

    /// Index of the first row at or after `i` whose time lies in `[s, e]`,
    /// or `-1` when no remaining row does.
    pub open spec fn first_match_from(&self, i: int, s: i64, e: i64) -> int
        decreases self.num_rows() - i,
    {
        if 0 <= i < self.num_rows() {
            if self.row_in_window(i, s, e) {
                i
            } else {
                self.first_match_from(i + 1, s, e)
            }
        } else {
            -1
        }
    }

    /// The sequence of observations a window scan starting at index `i`
    /// will yield: the rows from `i` on whose time lies in `[s, e]`, in
    /// index order.
    pub open spec fn window_rows_from(&self, i: int, s: i64, e: i64) -> Seq<QuakeView>
        decreases self.num_rows() - i,
    {
        if 0 <= i < self.num_rows() {
            if self.row_in_window(i, s, e) {
                seq![self.row(i)] + self.window_rows_from(i + 1, s, e)
            } else {
                self.window_rows_from(i + 1, s, e)
            }
        } else {
            Seq::empty()
        }
    }

    /// Random access: the row at `index` when every column has an entry
    /// there, and no value at all otherwise — out-of-range access is a quiet
    /// absence, never a fault.
    pub fn get(&self, index: usize) -> (r: Option<Quake>)
        ensures
            r is Some <==> index < self.num_rows(),
            r matches Some(q) ==> q@ == self.row(index as int),
    {
        if index < self.depth.len() && index < self.lat.len() && index < self.long.len()
            && index < self.magnitude.len() && index < self.magnitude_type.len()
            && index < self.originating_system.len() && index < self.time.len() {
            Some(
                Quake {
                    depth: self.depth[index],
                    lat: self.lat[index],
                    long: self.long[index],
                    magnitude: self.magnitude[index],
                    magnitude_type: self.magnitude_type[index].clone(),
                    originating_system: self.originating_system[index].clone(),
                    time: self.time[index],
                },
            )
        } else {
            None
        }
    }

    /// A restartable cursor over all rows, starting at index 0.
    pub fn iter(&self) -> (r: SkjalftalisaResponseIter<'_>)
        ensures
            r.data == self,
            r.index == 0,
    {
        SkjalftalisaResponseIter { data: self, index: 0 }
    }

    /// A restartable cursor over the rows whose time lies in the inclusive
    /// window `[start_time, end_time]`, scanned in index order.
    pub fn iter_in_time_range(&self, start_time: i64, end_time: i64) -> (r:
        SkjalftalisaResponseDataTimeIter<'_>)
        ensures
            r.data == self,
            r.index == 0,
            r.start_time == start_time,
            r.end_time == end_time,
    {
        SkjalftalisaResponseDataTimeIter { data: self, index: 0, start_time, end_time }
    }
}

/// Cursor state for full iteration: a non-owning reference to the data plus
/// the next index to materialize.
pub struct SkjalftalisaResponseIter<'a> {
    pub data: &'a SkjalftalisaResponseData,
    pub index: usize,
}

impl<'a> SkjalftalisaResponseIter<'a> {
    /// Materializes the row at the cursor and advances, or reports
    /// exhaustion once the cursor passes the shortest column.
    pub fn next(&mut self) -> (r: Option<Quake>)
        ensures
            final(self).data == old(self).data,
            old(self).index < old(self).data.num_rows() ==> final(self).index == old(self).index
                + 1,
            old(self).index < old(self).data.num_rows() ==> (r matches Some(q) && q@ == old(
                self,
            ).data.row(old(self).index as int)),
            old(self).index >= old(self).data.num_rows() ==> r is None && final(self).index == old(
                self,
            ).index,
    {
        match self.data.get(self.index) {
            Some(q) => {
                proof {
                    assert(self.index < self.data.time.len());
                }
                self.index = self.index + 1;
                Some(q)
            },
            None => None,
        }
    }
}

/// Cursor state for time-windowed iteration: the data reference, the next
/// index to examine, and the inclusive window bounds.
pub struct SkjalftalisaResponseDataTimeIter<'a> {
    pub data: &'a SkjalftalisaResponseData,
    pub index: usize,
    pub start_time: i64,
    pub end_time: i64,
}

impl<'a> SkjalftalisaResponseDataTimeIter<'a> {
    /// Scans forward from the cursor, skipping rows outside the window, and
    /// yields the first row inside it; reports exhaustion when no remaining
    /// row qualifies. The scan checks every remaining index: the data need
    /// not be time-sorted.
    pub fn next(&mut self) -> (r: Option<Quake>)
        ensures
            final(self).data == old(self).data,
            final(self).start_time == old(self).start_time,
            final(self).end_time == old(self).end_time,
            old(self).data.first_match_from(
                old(self).index as int,
                old(self).start_time,
                old(self).end_time,
            ) >= 0 ==> (r matches Some(q) && q@ == old(self).data.row(
                old(self).data.first_match_from(
                    old(self).index as int,
                    old(self).start_time,
                    old(self).end_time,
                ),
            )),
            old(self).data.first_match_from(
                old(self).index as int,
                old(self).start_time,
                old(self).end_time,
            ) >= 0 ==> final(self).index == old(self).data.first_match_from(
                old(self).index as int,
                old(self).start_time,
                old(self).end_time,
            ) + 1,
            old(self).data.first_match_from(
                old(self).index as int,
                old(self).start_time,
                old(self).end_time,
            ) < 0 ==> r is None,
            old(self).data.first_match_from(
                old(self).index as int,
                old(self).start_time,
                old(self).end_time,
            ) < 0 ==> final(self).index as int == (if old(self).index
                <= old(self).data.num_rows() {
                old(self).data.num_rows() as int
            } else {
                old(self).index as int
            }),
    {
        loop
            invariant
                self.data == old(self).data,
                self.start_time == old(self).start_time,
                self.end_time == old(self).end_time,
                old(self).index <= self.index,
                self.index <= self.data.num_rows() || self.index == old(self).index,
                self.data.first_match_from(self.index as int, self.start_time, self.end_time)
                    == old(self).data.first_match_from(
                    old(self).index as int,
                    old(self).start_time,
                    old(self).end_time,
                ),
            decreases self.data.num_rows() - self.index,
        {
            match self.data.get(self.index) {
                None => {
                    return None;
                },
                Some(q) => {
                    proof {
                        assert(self.index < self.data.time.len());
                    }
                    if self.start_time <= q.time && q.time <= self.end_time {
                        self.index = self.index + 1;
                        return Some(q);
                    } else {
                        self.index = self.index + 1;
                    }
                },
            }
        }
    }
}

/// The yielded index is genuinely the first qualifying one: when the scan
/// from `i` reports a match `m`, that row lies in the window and every row
/// from `i` up to `m` lies outside it; when it reports none, every row from
/// `i` on lies outside the window.
/// Iteration completeness at the model level: the sequence of all rows has
/// exactly `num_rows()` entries and its `i`-th entry is the same `row(i)`
/// that `get(i)` returns and that the cursor yields at position `i` — full
/// iteration yields every addressable row once, in index order.
pub proof fn lemma_rows_seq_is_complete(d: SkjalftalisaResponseData)
    ensures
        d.rows_seq().len() == d.num_rows(),
        forall|i: int| 0 <= i < d.num_rows() ==> d.rows_seq()[i] == d.row(i),
{
}

/// One step of the window scan, seen through its yield sequence: when a
/// first match `m` exists from `i`, the scan yields `row(m)` and then
/// whatever a scan from `m + 1` yields; when none exists, it yields nothing.
/// Together with the iterator's contract this pins the whole yielded
/// sequence of `iter_in_time_range` down to `window_rows_from(0, s, e)`.
pub proof fn lemma_window_rows_from_step(d: SkjalftalisaResponseData, i: int, s: i64, e: i64)
    requires
        0 <= i,
    ensures
        d.first_match_from(i, s, e) >= 0 ==> d.window_rows_from(i, s, e) == seq![
            d.row(d.first_match_from(i, s, e)),
        ] + d.window_rows_from(d.first_match_from(i, s, e) + 1, s, e),
        d.first_match_from(i, s, e) < 0 ==> d.window_rows_from(i, s, e)
            == Seq::<QuakeView>::empty(),
    decreases d.num_rows() - i,
{
    if 0 <= i < d.num_rows() {
        if !d.row_in_window(i, s, e) {
            lemma_window_rows_from_step(d, i + 1, s, e);
        }
    }
}

/// The scan from `i` yields exactly the rows of `rows_seq().subrange(i, N)`
/// whose time lies in `[s, e]`, kept in their original order.
proof fn lemma_window_rows_from_is_filter(d: SkjalftalisaResponseData, i: int, s: i64, e: i64)
    requires
        0 <= i <= d.num_rows(),
    ensures
        d.window_rows_from(i, s, e) == d.rows_seq().subrange(i, d.num_rows() as int).filter(
            (|q: QuakeView| s <= q.time && q.time <= e),
        ),
    decreases d.num_rows() - i,
{
    let pred = (|q: QuakeView| s <= q.time && q.time <= e);
    let rows = d.rows_seq();
    let n = d.num_rows() as int;
    reveal(Seq::filter);
    if i == n {
        assert(rows.subrange(i, n).len() == 0);
        assert(d.window_rows_from(i, s, e) =~= rows.subrange(i, n).filter(pred));
    } else {
        lemma_window_rows_from_is_filter(d, i + 1, s, e);
        let head = seq![rows[i]];
        assert(rows.subrange(i, n) =~= head + rows.subrange(i + 1, n));
        Seq::filter_distributes_over_add(head, rows.subrange(i + 1, n), pred);
        assert(head.drop_last() =~= Seq::<QuakeView>::empty());
        assert(head.filter(pred) == (if pred(rows[i]) {
            head
        } else {
            Seq::<QuakeView>::empty()
        })) by {
            assert(head.last() == rows[i]);
            assert(Seq::<QuakeView>::empty().filter(pred) =~= Seq::<QuakeView>::empty());
            assert(Seq::<QuakeView>::empty().push(rows[i]) =~= head);
        }
        assert(pred(rows[i]) == d.row_in_window(i, s, e));
        assert(d.window_rows_from(i, s, e) =~= rows.subrange(i, n).filter(pred));
    }
}

/// Time-window correctness: the scan over the whole data yields exactly the
/// subsequence of all rows whose time lies in the inclusive window `[s, e]`,
/// in original index order — and so yields nothing when no row qualifies.
pub proof fn lemma_window_iteration_is_filtered(d: SkjalftalisaResponseData, s: i64, e: i64)
    ensures
        d.window_rows_from(0, s, e) == d.rows_seq().filter(
            (|q: QuakeView| s <= q.time && q.time <= e),
        ),
{
    lemma_window_rows_from_is_filter(d, 0, s, e);
    assert(d.rows_seq().subrange(0, d.num_rows() as int) =~= d.rows_seq());
}

pub proof fn lemma_first_match_from_is_first(
    d: SkjalftalisaResponseData,
    i: int,
    s: i64,
    e: i64,
)
    requires
        0 <= i,
    ensures
        d.first_match_from(i, s, e) == -1 ==> (forall|j: int|
            i <= j < d.num_rows() ==> !d.row_in_window(j, s, e)),
        d.first_match_from(i, s, e) >= 0 ==> i <= d.first_match_from(i, s, e) < d.num_rows()
            && d.row_in_window(d.first_match_from(i, s, e), s, e),
        d.first_match_from(i, s, e) >= 0 ==> (forall|j: int|
            i <= j < d.first_match_from(i, s, e) ==> !d.row_in_window(j, s, e)),
        d.first_match_from(i, s, e) == -1 || d.first_match_from(i, s, e) >= 0,
    decreases d.num_rows() - i,
{
    if i < d.num_rows() {
        if !d.row_in_window(i, s, e) {
            lemma_first_match_from_is_first(d, i + 1, s, e);
        }
    }
}

} // verus!
