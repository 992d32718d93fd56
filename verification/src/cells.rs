//! The planet's energy-cell store.
//!
//! [`CellStore`] owns the game's `EnergyCell` values and is viewed as a
//! sequence of booleans, one per cell, `true` where the cell is charged.
//! A sunray charges the first empty cell; synthesis discharges a charged
//! one.

use vstd::prelude::*;

use common_game::components::energy_cell::EnergyCell;
use common_game::components::sunray::Sunray;

verus! {

/// The game's energy storage cell.
#[verifier::external_type_specification]
#[verifier::external_body]
pub struct ExEnergyCell(EnergyCell);

/// The game's sunray token, consumed to charge a cell.
#[verifier::external_type_specification]
#[verifier::external_body]
pub struct ExSunray(Sunray);

/// Whether a cell holds a charge, as `EnergyCell::is_charged` reports it.
pub uninterp spec fn charged_of(c: EnergyCell) -> bool;

/// Relies on `EnergyCell::new`: a fresh cell starts uncharged.
pub assume_specification[ EnergyCell::new ]() -> (c: EnergyCell)
    ensures
        !charged_of(c),
;

/// Relies on `EnergyCell::is_charged`: reads the charge flag.
pub assume_specification[ EnergyCell::is_charged ](c: &EnergyCell) -> (r: bool)
    ensures
        r == charged_of(*c),
;

/// Relies on `EnergyCell::charge`: after it, the cell holds a charge
/// (a sunray hitting an already charged cell is wasted).
pub assume_specification[ EnergyCell::charge ](c: &mut EnergyCell, sunray: Sunray)
    ensures
        charged_of(*final(c)),
;

/// The index of the first `false` entry, or `s.len()` if every entry is
/// `true`.
pub open spec fn first_empty(s: Seq<bool>) -> int
    decreases s.len(),
{
    if s.len() == 0 {
        0
    } else if !s[0] {
        0
    } else {
        1 + first_empty(s.drop_first())
    }
}

/// The index of the first `true` entry, or `s.len()` if every entry is
/// `false`.
pub open spec fn first_charged(s: Seq<bool>) -> int
    decreases s.len(),
{
    if s.len() == 0 {
        0
    } else if s[0] {
        0
    } else {
        1 + first_charged(s.drop_first())
    }
}

/// How many entries are `true`.
pub open spec fn count_charged(s: Seq<bool>) -> nat
    decreases s.len(),
{
    if s.len() == 0 {
        0
    } else {
        count_charged(s.drop_last()) + (if s.last() {
            1nat
        } else {
            0nat
        })
    }
}

pub proof fn lemma_count_charged_le_len(s: Seq<bool>)
    ensures
        count_charged(s) <= s.len(),
    decreases s.len(),
{
    if s.len() > 0 {
        lemma_count_charged_le_len(s.drop_last());
    }
}

/// The store after one energy delivery: the first empty cell becomes
/// charged; a delivery to a full store is wasted.
pub open spec fn deliver(s: Seq<bool>) -> Seq<bool> {
    if first_empty(s) < s.len() {
        s.update(first_empty(s), true)
    } else {
        s
    }
}

pub proof fn lemma_first_empty_bounds(s: Seq<bool>)
    ensures
        0 <= first_empty(s) <= s.len(),
        first_empty(s) < s.len() ==> !s[first_empty(s)],
        forall|j: int| 0 <= j < first_empty(s) ==> s[j],
    decreases s.len(),
{
    if s.len() > 0 && s[0] {
        lemma_first_empty_bounds(s.drop_first());
        assert forall|j: int| 0 <= j < first_empty(s) implies s[j] by {
            if j > 0 {
                assert(s.drop_first()[j - 1]);
            }
        }
    }
}

pub proof fn lemma_first_charged_bounds(s: Seq<bool>)
    ensures
        0 <= first_charged(s) <= s.len(),
        first_charged(s) < s.len() ==> s[first_charged(s)],
        forall|j: int| 0 <= j < first_charged(s) ==> !s[j],
    decreases s.len(),
{
    if s.len() > 0 && !s[0] {
        lemma_first_charged_bounds(s.drop_first());
        assert forall|j: int| 0 <= j < first_charged(s) implies !s[j] by {
            if j > 0 {
                assert(!s.drop_first()[j - 1]);
            }
        }
    }
}

/// A snapshot of the planet's externally observable state: the charge
/// bitmap, the charged-cell count, and whether a rocket is present (never,
/// for this planet type).
pub struct DummyPlanetState {
    pub energy_cells: Vec<bool>,
    pub charged_cells_count: usize,
    pub has_rocket: bool,
}

/// A fixed-size ordered store of energy cells.
pub struct CellStore {
    cells: Vec<EnergyCell>,
}

impl View for CellStore {
    type V = Seq<bool>;

    closed spec fn view(&self) -> Seq<bool> {
        self.cells@.map_values(|c: EnergyCell| charged_of(c))
    }
}

impl CellStore {
    /// A store of `capacity` cells, all empty.
    pub fn new(capacity: usize) -> (s: CellStore)
        ensures
            s@.len() == capacity,
            forall|i: int| 0 <= i < capacity ==> !s@[i],
    {
        let mut cells: Vec<EnergyCell> = Vec::new();
        let mut k: usize = 0;
        while k < capacity
            invariant
                k <= capacity,
                cells@.len() == k,
                forall|i: int| 0 <= i < k ==> !charged_of(#[trigger] cells@[i]),
            decreases capacity - k,
        {
            cells.push(EnergyCell::new());
            k = k + 1;
        }
        let s = CellStore { cells };
        proof {
            assert(forall|i: int|
                0 <= i < capacity ==> s@[i] == charged_of(s.cells@[i]));
        }
        s
    }

    /// The number of cells in the store.
    pub fn cells_count(&self) -> (n: usize)
        ensures
            n == self@.len(),
    {
        self.cells.len()
    }

    /// The number of charged cells.
    pub fn charged_count(&self) -> (n: usize)
        ensures
            n == count_charged(self@),
    {
        let ghost v = self@;
        let mut n: usize = 0;
        let mut k: usize = 0;
        while k < self.cells.len()
            invariant
                k <= self.cells.len(),
                v == self@,
                v.len() == self.cells.len(),
                n == count_charged(v.subrange(0, k as int)),
                n <= k,
            decreases self.cells.len() - k,
        {
            proof {
                assert(v.subrange(0, k + 1).drop_last() =~= v.subrange(0, k as int));
                assert(v.subrange(0, k + 1).last() == v[k as int]);
            }
            if self.cells[k].is_charged() {
                n = n + 1;
            }
            k = k + 1;
        }
        proof {
            assert(v.subrange(0, v.len() as int) =~= v);
        }
        n
    }

    /// The index of the first empty cell, if any cell is empty.
    fn find_empty_cell(&self) -> (r: Option<usize>)
        ensures
            r matches Some(i) ==> i == first_empty(self@) && i < self@.len(),
            r is None ==> first_empty(self@) == self@.len(),
    {
        let mut k: usize = 0;
        while k < self.cells.len()
            invariant
                k <= self.cells.len(),
                self@.len() == self.cells.len(),
                forall|j: int| 0 <= j < k ==> self@[j],
            decreases self.cells.len() - k,
        {
            if !self.cells[k].is_charged() {
                proof {
                    lemma_first_empty_is_first(self@, k as int);
                }
                return Some(k);
            }
            k = k + 1;
        }
        proof {
            lemma_first_empty_bounds(self@);
            if first_empty(self@) < self@.len() {
                assert(!self@[first_empty(self@)]);
            }
        }
        None
    }

    /// Charges the first empty cell with the sunray; hands the sunray back
    /// if every cell is already charged.
    pub fn charge_cell(&mut self, sunray: Sunray) -> (r: Option<Sunray>)
        ensures
            final(self)@ == deliver(old(self)@),
            r is None <==> first_empty(old(self)@) < old(self)@.len(),
    {
        match self.find_empty_cell() {
            Some(i) => {
                let cell = self.cell_at_mut(i);
                cell.charge(sunray);
                None
            },
            None => {
                proof {
                    lemma_first_empty_bounds(self@);
                }
                Some(sunray)
            },
        }
    }

    /// The index of the first charged cell, if any cell is charged.
    pub fn find_charged_cell(&self) -> (r: Option<usize>)
        ensures
            r matches Some(i) ==> i == first_charged(self@) && i < self@.len(),
            r is None ==> first_charged(self@) == self@.len(),
    {
        let ghost v = self@;
        let mut k: usize = 0;
        while k < self.cells.len()
            invariant
                k <= self.cells.len(),
                v == self@,
                v.len() == self.cells.len(),
                forall|j: int| 0 <= j < k ==> !v[j],
            decreases self.cells.len() - k,
        {
            if self.cells[k].is_charged() {
                proof {
                    lemma_first_charged_is_first(v, k as int);
                }
                return Some(k);
            }
            k = k + 1;
        }
        proof {
            lemma_first_charged_bounds(v);
            if first_charged(v) < v.len() {
                assert(v[first_charged(v)]);
            }
        }
        None
    }

    /// A mutable borrow of the `i`-th cell; the store's view follows
    /// whatever the caller does to the cell.
    pub fn cell_at_mut(&mut self, i: usize) -> (cell: &mut EnergyCell)
        requires
            i < old(self)@.len(),
        ensures
            charged_of(*cell) == old(self)@[i as int],
            final(self)@ == old(self)@.update(i as int, charged_of(*final(cell))),
    {
        &mut self.cells[i]
    }

    /// A snapshot of the store: bitmap, count, and the absent rocket.
    pub fn to_dummy(&self) -> (d: DummyPlanetState)
        ensures
            d.energy_cells@ == self@,
            d.charged_cells_count == count_charged(self@),
            !d.has_rocket,
    {
        let ghost v = self@;
        let mut bitmap: Vec<bool> = Vec::new();
        let mut k: usize = 0;
        while k < self.cells.len()
            invariant
                k <= self.cells.len(),
                v == self@,
                v.len() == self.cells.len(),
                bitmap@.len() == k,
                forall|j: int| 0 <= j < k ==> bitmap@[j] == v[j],
            decreases self.cells.len() - k,
        {
            bitmap.push(self.cells[k].is_charged());
            k = k + 1;
        }
        proof {
            assert(bitmap@ =~= v);
        }
        let count = self.charged_count();
        DummyPlanetState { energy_cells: bitmap, charged_cells_count: count, has_rocket: false }
    }
}

/// The store after `n` energy deliveries.
pub open spec fn after_deliveries(s: Seq<bool>, n: nat) -> Seq<bool>
    decreases n,
{
    if n == 0 {
        s
    } else {
        deliver(after_deliveries(s, (n - 1) as nat))
    }
}

/// If exactly the first `n` entries are `true`, the charged count is `n`.
pub proof fn lemma_count_charged_of_prefix(s: Seq<bool>, n: nat)
    requires
        n <= s.len(),
        forall|i: int| 0 <= i < s.len() ==> (s[i] <==> i < n),
    ensures
        count_charged(s) == n,
    decreases s.len(),
{
    if s.len() > 0 {
        let d = s.drop_last();
        if n == s.len() {
            lemma_count_charged_of_prefix(d, (n - 1) as nat);
        } else {
            lemma_count_charged_of_prefix(d, n);
        }
    }
}

/// Law: delivering `n` sunrays (`n` at most the capacity) to an initially
/// empty store charges exactly the first `n` cells, in store order, and
/// the charged count reads `n`.
pub proof fn lemma_deliveries_charge_prefix(s: Seq<bool>, n: nat)
    requires
        n <= s.len(),
        forall|i: int| 0 <= i < s.len() ==> !s[i],
    ensures
        after_deliveries(s, n).len() == s.len(),
        forall|i: int|
            0 <= i < s.len() ==> (#[trigger] after_deliveries(s, n)[i] <==> i < n),
        count_charged(after_deliveries(s, n)) == n,
    decreases n,
{
    if n == 0 {
        lemma_count_charged_of_prefix(s, 0);
    } else {
        lemma_deliveries_charge_prefix(s, (n - 1) as nat);
        let prev = after_deliveries(s, (n - 1) as nat);
        lemma_first_empty_is_first(prev, n - 1);
        assert(after_deliveries(s, n) == prev.update(n - 1, true));
        lemma_count_charged_of_prefix(after_deliveries(s, n), n);
    }
}

/// If every entry below `k` is `true` and entry `k` is `false`, then `k`
/// is the first empty index.
pub proof fn lemma_first_empty_is_first(s: Seq<bool>, k: int)
    requires
        0 <= k < s.len(),
        !s[k],
        forall|j: int| 0 <= j < k ==> s[j],
    ensures
        first_empty(s) == k,
    decreases s.len(),
{
    if k > 0 {
        lemma_first_empty_is_first(s.drop_first(), k - 1);
    }
}

/// If every entry below `k` is `false` and entry `k` is `true`, then `k`
/// is the first charged index.
pub proof fn lemma_first_charged_is_first(s: Seq<bool>, k: int)
    requires
        0 <= k < s.len(),
        s[k],
        forall|j: int| 0 <= j < k ==> !s[j],
    ensures
        first_charged(s) == k,
    decreases s.len(),
{
    if k > 0 {
        lemma_first_charged_is_first(s.drop_first(), k - 1);
    }
}

} // verus!
