//! First-use admission of a route on a board that holds no frozen evidence
//! for it.
//!
//! A route measured on one board is a candidate on every other board that
//! runs its instruction tier, but its bits are not: tensor cores round
//! differently from one generation to the next. The board therefore decides
//! for itself. The candidate and the reference route run on the same
//! operands, each into its own output, and every output word is compared.
//! Equal words admit the candidate for the rest of the process; any
//! difference declines it. Whichever of the two serves, the words that a
//! process produces are the same.

use crate::arith;
use crate::arith::div_ceil_u64;
use crate::cache;
use crate::error::LaunchError;
use crate::identity::WeightDtype;
use crate::shape::ResolvedGemmOp;
use crate::text::same_text;
use vstd::prelude::*;

verus! {

/// One tile's footprint on a board: the output tile that each CTA computes
/// and how many of its CTAs stay resident on one multiprocessor.
#[derive(Clone, Copy, Debug, PartialEq, Eq)]
pub struct TileFootprint {
    pub tile: (u32, u32),
    pub resident: u32,
}

impl TileFootprint {
    /// Output elements of one tile.
    pub open spec fn area(self) -> int {
        self.tile.0 * self.tile.1
    }

    /// How many CTAs cover an output.
    pub open spec fn ctas(self, rows: int, columns: int) -> int {
        arith::ceil_div(rows, self.tile.0 as int) * arith::ceil_div(columns, self.tile.1 as int)
    }

    /// How many CTAs a board keeps resident.
    pub open spec fn resident_ctas(self, multiprocessors: int) -> int {
        multiprocessors * (if self.resident > 0 {
            self.resident as int
        } else {
            1
        })
    }
}

/// The waves that a grid takes over an output on a board.
pub open spec fn waves(
    rows: int,
    columns: int,
    footprint: TileFootprint,
    multiprocessors: int,
) -> Option<int> {
    if footprint.area() == 0 || multiprocessors == 0 || footprint.ctas(rows, columns) > u64::MAX {
        None
    } else {
        Some(
            arith::ceil_div(
                footprint.ctas(rows, columns),
                footprint.resident_ctas(multiprocessors),
            ),
        )
    }
}

/// The waves that a tile's grid takes over an output on a board: its CTA
/// count over the CTAs that the board keeps resident, rounded up. An empty
/// output takes none.
pub fn tile_waves(
    rows: usize,
    columns: usize,
    footprint: TileFootprint,
    multiprocessors: u32,
) -> (result: Option<u64>)
    ensures
        match (result, waves(rows as int, columns as int, footprint, multiprocessors as int)) {
            (Some(count), Some(expected)) => count == expected,
            (None, None) => true,
            _ => false,
        },
{
    let (tile_rows, tile_columns) = footprint.tile;
    if tile_rows == 0 || tile_columns == 0 || multiprocessors == 0 {
        assert(footprint.area() == 0 || multiprocessors == 0) by (nonlinear_arith)
            requires
                footprint.area() == tile_rows * tile_columns,
                tile_rows == 0 || tile_columns == 0 || multiprocessors == 0,
        ;
        return None;
    }
    assert(footprint.area() > 0) by (nonlinear_arith)
        requires
            footprint.area() == tile_rows * tile_columns,
            tile_rows > 0,
            tile_columns > 0,
    ;
    proof {
        arith::ceil_div_is_least_cover(rows as int, tile_rows as int);
        arith::ceil_div_is_least_cover(columns as int, tile_columns as int);
    }
    let down: u64 = div_ceil_u64(rows as u64, tile_rows as u64);
    let across: u64 = div_ceil_u64(columns as u64, tile_columns as u64);
    let ctas: u64 = match down.checked_mul(across) {
        None => {
            return None;
        },
        Some(ctas) => ctas,
    };
    let per_multiprocessor: u32 = if footprint.resident > 0 {
        footprint.resident
    } else {
        1
    };
    assert(0 < multiprocessors * per_multiprocessor <= u64::MAX) by (nonlinear_arith)
        requires
            0 < multiprocessors <= u32::MAX,
            0 < per_multiprocessor <= u32::MAX,
    ;
    let resident: u64 = multiprocessors as u64 * per_multiprocessor as u64;
    proof {
        arith::ceil_div_is_least_cover(ctas as int, resident as int);
    }
    Some(div_ceil_u64(ctas, resident))
}

/// A candidate may serve unless it takes strictly more waves than the
/// reference while each of its waves computes a tile no smaller.
pub open spec fn wave_guard(
    rows: int,
    columns: int,
    candidate: TileFootprint,
    reference: TileFootprint,
    multiprocessors: int,
) -> bool {
    match (
        waves(rows, columns, candidate, multiprocessors),
        waves(rows, columns, reference, multiprocessors),
    ) {
        (Some(candidate_waves), Some(reference_waves)) => candidate_waves <= reference_waves
            || candidate.area() < reference.area(),
        _ => false,
    }
}

/// Whether a candidate may serve on a board that holds no evidence for it,
/// by that board's own arithmetic. On a board with a different number of
/// multiprocessors the same grid can spill into an extra wave. The guard
/// declines exactly the case that no throughput advantage can recover.
pub fn wave_guard_admits(
    rows: usize,
    columns: usize,
    candidate: TileFootprint,
    reference: TileFootprint,
    multiprocessors: u32,
) -> (admitted: bool)
    ensures
        admitted == wave_guard(
            rows as int,
            columns as int,
            candidate,
            reference,
            multiprocessors as int,
        ),
{
    let candidate_waves: u64 = match tile_waves(rows, columns, candidate, multiprocessors) {
        None => {
            return false;
        },
        Some(count) => count,
    };
    let reference_waves: u64 = match tile_waves(rows, columns, reference, multiprocessors) {
        None => {
            return false;
        },
        Some(count) => count,
    };
    assert(candidate.area() <= u64::MAX) by (nonlinear_arith)
        requires
            candidate.area() == candidate.tile.0 * candidate.tile.1,
            candidate.tile.0 <= u32::MAX,
            candidate.tile.1 <= u32::MAX,
    ;
    assert(reference.area() <= u64::MAX) by (nonlinear_arith)
        requires
            reference.area() == reference.tile.0 * reference.tile.1,
            reference.tile.0 <= u32::MAX,
            reference.tile.1 <= u32::MAX,
    ;
    let candidate_area: u64 = candidate.tile.0 as u64 * candidate.tile.1 as u64;
    let reference_area: u64 = reference.tile.0 as u64 * reference.tile.1 as u64;
    !(candidate_waves > reference_waves && candidate_area >= reference_area)
}

/// A smaller tile is never declined where both grids can be counted: more
/// waves of less work is a throughput question.
pub proof fn smaller_tiles_are_never_declined(
    rows: int,
    columns: int,
    candidate: TileFootprint,
    reference: TileFootprint,
    multiprocessors: int,
)
    requires
        candidate.area() < reference.area(),
        waves(rows, columns, candidate, multiprocessors) is Some,
        waves(rows, columns, reference, multiprocessors) is Some,
    ensures
        wave_guard(rows, columns, candidate, reference, multiprocessors),
{
}

/// A grid is never declined against itself.
pub proof fn a_grid_is_never_declined_against_itself(
    rows: int,
    columns: int,
    footprint: TileFootprint,
    multiprocessors: int,
)
    requires
        waves(rows, columns, footprint, multiprocessors) is Some,
    ensures
        wave_guard(rows, columns, footprint, footprint, multiprocessors),
{
}

/// An empty output takes no wave.
pub proof fn empty_outputs_take_no_wave(
    rows: int,
    columns: int,
    footprint: TileFootprint,
    multiprocessors: int,
)
    requires
        rows == 0 || columns == 0,
        footprint.area() > 0,
        multiprocessors > 0,
    ensures
        waves(rows, columns, footprint, multiprocessors) == Some(0int),
{
    let tile_rows = footprint.tile.0 as int;
    let tile_columns = footprint.tile.1 as int;
    assert(tile_rows > 0 && tile_columns > 0) by (nonlinear_arith)
        requires
            tile_rows * tile_columns > 0,
            tile_rows >= 0,
            tile_columns >= 0,
    ;
    let resident = footprint.resident_ctas(multiprocessors);
    assert(resident > 0) by (nonlinear_arith)
        requires
            multiprocessors > 0,
            resident == multiprocessors * (if footprint.resident > 0 {
                footprint.resident as int
            } else {
                1
            }),
    ;
    arith::ceil_div_is_least_cover(0, tile_rows);
    arith::ceil_div_is_least_cover(0, tile_columns);
    arith::ceil_div_is_least_cover(0, resident);
    let down = arith::ceil_div(rows, tile_rows);
    let across = arith::ceil_div(columns, tile_columns);
    assert(down * across == 0) by (nonlinear_arith)
        requires
            down == 0 || across == 0,
    ;
}

/// One candidate on one cell: the candidate's symbol, the operation, the
/// output element type and the exact dimensions that the launch resolved.
#[derive(Clone, Copy, Debug, PartialEq, Eq)]
pub struct RouteProofKey {
    pub candidate: &'static str,
    pub op: ResolvedGemmOp,
    pub dtype: WeightDtype,
    pub dims: (usize, usize, usize),
}

/// A key with its symbol as text.
pub struct ProofCell {
    pub candidate: Seq<char>,
    pub op: ResolvedGemmOp,
    pub dtype: WeightDtype,
    pub dims: (usize, usize, usize),
}

impl View for RouteProofKey {
    type V = ProofCell;

    open spec fn view(&self) -> ProofCell {
        ProofCell { candidate: self.candidate@, op: self.op, dtype: self.dtype, dims: self.dims }
    }
}

impl RouteProofKey {
    /// Whether two keys name the same candidate on the same cell.
    pub fn same(&self, other: &RouteProofKey) -> (equal: bool)
        ensures
            equal == (self@ == other@),
    {
        same_text(self.candidate, other.candidate) && self.op == other.op && self.dtype
            == other.dtype && self.dims.0 == other.dims.0 && self.dims.1 == other.dims.1
            && self.dims.2 == other.dims.2
    }
}

/// What a board decided of a candidate on a cell.
#[derive(Clone, Copy, Debug, PartialEq, Eq, Structural)]
pub enum RouteProofVerdict {
    /// Every output word matched the reference on this board.
    Admitted,
    /// At least one output word differed, or a launch failed; the reference
    /// serves this cell for the rest of the process.
    Declined,
}

/// Recorded verdicts by cell.
pub open spec fn cells(entries: Seq<(RouteProofKey, RouteProofVerdict)>) -> Seq<
    (ProofCell, RouteProofVerdict),
> {
    Seq::new(entries.len(), |i: int| (entries[i].0@, entries[i].1))
}

/// The verdicts that a context has reached, one per candidate and cell.
pub struct RouteProofLedger {
    entries: Vec<(RouteProofKey, RouteProofVerdict)>,
}

impl View for RouteProofLedger {
    type V = Map<ProofCell, RouteProofVerdict>;

    closed spec fn view(&self) -> Map<ProofCell, RouteProofVerdict> {
        cache::entry_map(cells(self.entries@))
    }
}

impl Default for RouteProofLedger {
    /// Nothing is decided yet.
    fn default() -> (ledger: RouteProofLedger)
        ensures
            ledger@ == Map::<ProofCell, RouteProofVerdict>::empty(),
    {
        let ledger = RouteProofLedger { entries: Vec::new() };
        assert(cache::entry_map(cells(ledger.entries@)) =~= Map::<
            ProofCell,
            RouteProofVerdict,
        >::empty());
        ledger
    }
}

impl RouteProofLedger {
    #[verifier::type_invariant]
    spec fn inv(self) -> bool {
        cache::keys_distinct(cells(self.entries@))
    }

    fn find(&self, key: &RouteProofKey) -> (at: Option<usize>)
        ensures
            match at {
                Some(i) => i < self.entries@.len() && self.entries@[i as int].0@ == key@,
                None => !cache::has_key(cells(self.entries@), key@),
            },
    {
        let mut i: usize = 0;
        while i < self.entries.len()
            invariant
                i <= self.entries@.len(),
                forall|j: int| 0 <= j < i ==> (#[trigger] self.entries@[j]).0@ != key@,
            decreases self.entries@.len() - i,
        {
            if self.entries[i].0.same(key) {
                return Some(i);
            }
            i = i + 1;
        }
        assert forall|j: int| 0 <= j < self.entries@.len() implies (#[trigger] cells(
            self.entries@,
        )[j]).0 != key@ by {
            assert(self.entries@[j].0@ != key@);
        }
        None
    }

    /// The verdict on a candidate and a cell, once there is one.
    pub fn verdict(&self, key: RouteProofKey) -> (verdict: Option<RouteProofVerdict>)
        ensures
            match verdict {
                Some(verdict) => self@.contains_key(key@) && self@[key@] == verdict,
                None => !self@.contains_key(key@),
            },
    {
        proof {
            use_type_invariant(self);
        }
        match self.find(&key) {
            Some(i) => {
                proof {
                    cache::entry_of(cells(self.entries@), i as int);
                }
                Some(self.entries[i].1)
            },
            None => None,
        }
    }

    /// Records a verdict, in place of an earlier one on the same candidate
    /// and cell.
    pub fn record(&mut self, key: RouteProofKey, verdict: RouteProofVerdict)
        ensures
            final(self)@ == old(self)@.insert(key@, verdict),
    {
        proof {
            use_type_invariant(&*self);
        }
        let at = self.find(&key);
        let mut entries: Vec<(RouteProofKey, RouteProofVerdict)> = Vec::new();
        std::mem::swap(&mut entries, &mut self.entries);
        let ghost before = cells(entries@);
        match at {
            Some(i) => {
                entries.set(i, (key, verdict));
                proof {
                    let after = cells(entries@);
                    assert(after =~= before.update(i as int, (key@, verdict)));
                    replaced_entry(before, i as int, verdict);
                }
            },
            None => {
                entries.push((key, verdict));
                proof {
                    let after = cells(entries@);
                    assert(after =~= before.push((key@, verdict)));
                    added_entry(before, key@, verdict);
                }
            },
        }
        self.entries = entries;
    }

    /// How many candidates and cells are decided.
    pub fn len(&self) -> (count: usize)
        ensures
            self@.dom().finite(),
            count == self@.len(),
    {
        proof {
            use_type_invariant(self);
            cache::entry_count(cells(self.entries@));
        }
        self.entries.len()
    }
}

proof fn replaced_entry<K, V>(before: Seq<(K, V)>, at: int, value: V)
    requires
        cache::keys_distinct(before),
        0 <= at < before.len(),
    ensures
        cache::keys_distinct(before.update(at, (before[at].0, value))),
        cache::entry_map(before.update(at, (before[at].0, value))) == cache::entry_map(
            before,
        ).insert(before[at].0, value),
{
    let after = before.update(at, (before[at].0, value));
    assert forall|i: int| 0 <= i < after.len() implies (#[trigger] after[i]).0 == before[i].0 by {}
    assert forall|i: int, j: int|
        #![trigger after[i], after[j]]
        0 <= i < after.len() && 0 <= j < after.len() && after[i].0 == after[j].0 implies i == j by {
        assert(before[i].0 == before[j].0);
    }
    let map = cache::entry_map(before).insert(before[at].0, value);
    cache::entry_of(before, at);
    assert forall|key: K| cache::entry_map(after).contains_key(key) == map.contains_key(key) by {
        if cache::has_key(after, key) {
            let i = cache::position(after, key);
            assert(before[i].0 == key);
        }
        if cache::has_key(before, key) {
            let i = cache::position(before, key);
            assert(after[i].0 == key);
        }
        assert(after[at].0 == before[at].0);
    }
    assert forall|key: K| #[trigger] cache::entry_map(after).contains_key(key) implies
        cache::entry_map(after)[key] == map[key] by {
        let i = cache::position(after, key);
        cache::entry_of(after, i);
        cache::entry_of(before, i);
    }
    assert(cache::entry_map(after) =~= map);
}

proof fn added_entry<K, V>(before: Seq<(K, V)>, key: K, value: V)
    requires
        cache::keys_distinct(before),
        !cache::has_key(before, key),
    ensures
        cache::keys_distinct(before.push((key, value))),
        cache::entry_map(before.push((key, value))) == cache::entry_map(before).insert(key, value),
{
    let after = before.push((key, value));
    assert forall|i: int| 0 <= i < before.len() implies (#[trigger] after[i]) == before[i]
        && before[i].0 != key by {
        assert(before[i].0 == before[i].0);
    }
    let map = cache::entry_map(before).insert(key, value);
    assert forall|other: K| cache::entry_map(after).contains_key(other) == map.contains_key(
        other,
    ) by {
        if cache::has_key(after, other) {
            let i = cache::position(after, other);
            if i < before.len() {
                assert(before[i].0 == other);
            }
        }
        if cache::has_key(before, other) {
            let i = cache::position(before, other);
            assert(after[i].0 == other);
        }
        assert(after[before.len() as int].0 == key);
    }
    assert forall|other: K| #[trigger] cache::entry_map(after).contains_key(other) implies
        cache::entry_map(after)[other] == map[other] by {
        let i = cache::position(after, other);
        cache::entry_of(after, i);
        if i < before.len() {
            cache::entry_of(before, i);
        }
    }
    assert(cache::entry_map(after) =~= map);
}

/// What the words of the two routes decide.
pub open spec fn words_verdict(
    candidate: Seq<u32>,
    reference: Seq<u32>,
) -> RouteProofVerdict {
    if candidate == reference {
        RouteProofVerdict::Admitted
    } else {
        RouteProofVerdict::Declined
    }
}

/// Compares the output words of the two routes, by their bit patterns.
pub fn compare_words(candidate: &Vec<u32>, reference: &Vec<u32>) -> (verdict: RouteProofVerdict)
    ensures
        verdict == words_verdict(candidate@, reference@),
{
    if candidate.len() != reference.len() {
        return RouteProofVerdict::Declined;
    }
    let mut i: usize = 0;
    while i < candidate.len()
        invariant
            i <= candidate@.len(),
            candidate@.len() == reference@.len(),
            forall|j: int| 0 <= j < i ==> candidate@[j] == reference@[j],
        decreases candidate@.len() - i,
    {
        if candidate[i] != reference[i] {
            assert(candidate@[i as int] != reference@[i as int]);
            return RouteProofVerdict::Declined;
        }
        i = i + 1;
    }
    assert(candidate@ =~= reference@);
    RouteProofVerdict::Admitted
}

/// The bytes of an output that a route is run into to compare it.
pub fn proof_output_bytes(elements: usize, dtype: WeightDtype) -> (result: Result<
    usize,
    LaunchError,
>)
    ensures
        result == (if elements * dtype.size_bytes() > usize::MAX {
            Err::<usize, LaunchError>(
                LaunchError::Rejected("proof output byte count overflows usize"),
            )
        } else {
            Ok::<usize, LaunchError>((elements * dtype.size_bytes()) as usize)
        }),
{
    match elements.checked_mul(dtype.size_bytes() as usize) {
        None => Err(LaunchError::Rejected("proof output byte count overflows usize")),
        Some(bytes) => Ok(bytes),
    }
}

/// Where the two routes are run to compare them.
pub open spec fn proven<
    Candidate: FnOnce() -> Result<Vec<u32>, LaunchFailure>,
    Reference: FnOnce() -> Result<Vec<u32>, LaunchFailure>,
    LaunchFailure,
>(
    candidate: Candidate,
    reference: Reference,
    result: Result<RouteProofVerdict, LaunchFailure>,
) -> bool {
    exists|first: Result<Vec<u32>, LaunchFailure>|
        #![trigger call_ensures(candidate, (), first)]
        call_ensures(candidate, (), first) && match first {
            Err(error) => result == Err::<RouteProofVerdict, LaunchFailure>(error),
            Ok(candidate_words) => exists|second: Result<Vec<u32>, LaunchFailure>|
                #![trigger call_ensures(reference, (), second)]
                call_ensures(reference, (), second) && match second {
                    Err(error) => result == Err::<RouteProofVerdict, LaunchFailure>(error),
                    Ok(reference_words) => result == Ok::<RouteProofVerdict, LaunchFailure>(
                        words_verdict(candidate_words@, reference_words@),
                    ),
                },
        }
}

/// Runs the two arms, the candidate first, and compares their words. Where
/// the candidate fails the reference is not run. Each arm runs into its own
/// output, seeded from the real one, and hands back the words of that output.
pub fn prove_bits<
    Candidate: FnOnce() -> Result<Vec<u32>, LaunchFailure>,
    Reference: FnOnce() -> Result<Vec<u32>, LaunchFailure>,
    LaunchFailure,
>(candidate: Candidate, reference: Reference) -> (result: Result<RouteProofVerdict, LaunchFailure>)
    requires
        call_requires(candidate, ()),
        forall|words: Vec<u32>| #[trigger]
            call_ensures(candidate, (), Ok::<Vec<u32>, LaunchFailure>(words)) ==> call_requires(
                reference,
                (),
            ),
    ensures
        proven(candidate, reference, result),
{
    match candidate() {
        Err(error) => Err(error),
        Ok(candidate_words) => match reference() {
            Err(error) => Err(error),
            Ok(reference_words) => Ok(compare_words(&candidate_words, &reference_words)),
        },
    }
}

/// The verdict that a proof settles: where a launch failed, the candidate is
/// declined.
#[verifier::allow_in_spec]
pub fn settled_verdict<LaunchFailure>(
    outcome: Result<RouteProofVerdict, LaunchFailure>,
) -> RouteProofVerdict
    returns
        (match outcome {
            Ok(verdict) => verdict,
            Err(_) => RouteProofVerdict::Declined,
        }),
{
    match outcome {
        Ok(verdict) => verdict,
        Err(_) => RouteProofVerdict::Declined,
    }
}

/// A candidate is admitted only where both routes ran and every word of
/// their outputs was equal.
pub proof fn only_equal_words_admit<
    Candidate: FnOnce() -> Result<Vec<u32>, LaunchFailure>,
    Reference: FnOnce() -> Result<Vec<u32>, LaunchFailure>,
    LaunchFailure,
>(candidate: Candidate, reference: Reference, result: Result<RouteProofVerdict, LaunchFailure>)
    requires
        proven(candidate, reference, result),
        settled_verdict(result) is Admitted,
    ensures
        exists|first: Vec<u32>, second: Vec<u32>|
            #![trigger first@, second@]
            call_ensures(candidate, (), Ok::<Vec<u32>, LaunchFailure>(first)) && call_ensures(
                reference,
                (),
                Ok::<Vec<u32>, LaunchFailure>(second),
            ) && first@ == second@,
{
    let first = choose|first: Result<Vec<u32>, LaunchFailure>|
        #![trigger call_ensures(candidate, (), first)]
        call_ensures(candidate, (), first) && match first {
            Err(error) => result == Err::<RouteProofVerdict, LaunchFailure>(error),
            Ok(candidate_words) => exists|second: Result<Vec<u32>, LaunchFailure>|
                #![trigger call_ensures(reference, (), second)]
                call_ensures(reference, (), second) && match second {
                    Err(error) => result == Err::<RouteProofVerdict, LaunchFailure>(error),
                    Ok(reference_words) => result == Ok::<RouteProofVerdict, LaunchFailure>(
                        words_verdict(candidate_words@, reference_words@),
                    ),
                },
        };
    let words = first->Ok_0;
    let second = choose|second: Result<Vec<u32>, LaunchFailure>|
        #![trigger call_ensures(reference, (), second)]
        call_ensures(reference, (), second) && match second {
            Err(error) => result == Err::<RouteProofVerdict, LaunchFailure>(error),
            Ok(reference_words) => result == Ok::<RouteProofVerdict, LaunchFailure>(
                words_verdict(words@, reference_words@),
            ),
        };
    assert(first == Ok::<Vec<u32>, LaunchFailure>(words));
    assert(second == Ok::<Vec<u32>, LaunchFailure>(second->Ok_0));
    assert(words@ == (second->Ok_0)@);
}

/// Whichever route serves, the words are those of the reference, as long as
/// the candidate serves only where it was admitted: what a process produces
/// does not depend on which call came first.
pub proof fn served_words_never_depend_on_the_verdict(
    candidate: Seq<u32>,
    reference: Seq<u32>,
    candidate_serves: bool,
)
    requires
        candidate_serves ==> words_verdict(candidate, reference) is Admitted,
    ensures
        (if candidate_serves {
            candidate
        } else {
            reference
        }) == reference,
{
}

} // verus!
