//! Patterns of hit flags and the sequencer that plays them back.

use std::collections::HashMap;
use vstd::prelude::*;

verus! {

broadcast use vstd::std_specs::hash::group_hash_axioms;

/// Steps in one pattern: one bar of sixteenth notes.
pub const STEPS_PER_PATTERN: usize = 16;

/// Pattern slots per group; valid pattern indices are `0..MAX_PATTERNS`.
pub const MAX_PATTERNS: usize = 99;

/// Instrument groups; valid group indices are `0..MAX_GROUPS`.
pub const MAX_GROUPS: usize = 4;

/// Pads per group; valid pad indices are `0..PADS_PER_GROUP`.
pub const PADS_PER_GROUP: usize = 16;

/// The grid of a pattern in which no pad is set at any step.
pub open spec fn empty_grid() -> Seq<Seq<bool>> {
    Seq::new(PADS_PER_GROUP as nat, |_pad: int| Seq::new(STEPS_PER_PATTERN as nat, |_step: int| false))
}

/// A grid with one cell written.
pub open spec fn grid_with(grid: Seq<Seq<bool>>, pad: int, step: int, value: bool) -> Seq<Seq<bool>> {
    grid.update(pad, grid[pad].update(step, value))
}

/// A grid has the fixed dimensions of a pattern.
pub open spec fn grid_shaped(grid: Seq<Seq<bool>>) -> bool {
    &&& grid.len() == PADS_PER_GROUP
    &&& forall|pad: int| 0 <= pad < PADS_PER_GROUP ==> #[trigger] grid[pad].len() == STEPS_PER_PATTERN
}

/// The rows of a grid held in vectors, as sequences.
pub open spec fn rows_view(rows: Seq<Vec<bool>>) -> Seq<Seq<bool>> {
    rows.map_values(|row: Vec<bool>| row@)
}

/// The pads among `0..n` whose flag is set at `step`, in ascending order.
pub open spec fn pads_hit(grid: Seq<Seq<bool>>, step: int, n: int) -> Seq<usize>
    decreases n,
{
    if n <= 0 {
        Seq::empty()
    } else if grid[n - 1][step] {
        pads_hit(grid, step, n - 1).push((n - 1) as usize)
    } else {
        pads_hit(grid, step, n - 1)
    }
}

/// One group's pattern: a `PADS_PER_GROUP` by `STEPS_PER_PATTERN` grid of
/// hit flags, indexed `steps[pad][step]`.
#[derive(Debug, Clone)]
pub struct Pattern {
    pub steps: Vec<Vec<bool>>,
    pub length: usize,
}

impl Pattern {
    /// The dimensions are those of every pattern.
    pub open spec fn wf(&self) -> bool {
        &&& self.length == STEPS_PER_PATTERN
        &&& grid_shaped(self.grid())
    }

    /// The flags as a grid of booleans.
    pub open spec fn grid(&self) -> Seq<Seq<bool>> {
        rows_view(self.steps@)
    }

    /// A pattern with every flag cleared.
    pub fn new() -> (r: Self)
        ensures
            r.wf(),
            r.grid() == empty_grid(),
    {
        let mut steps: Vec<Vec<bool>> = Vec::new();
        let mut pad: usize = 0;
        while pad < PADS_PER_GROUP
            invariant
                pad <= PADS_PER_GROUP,
                steps@.len() == pad,
                forall|i: int| 0 <= i < pad ==> #[trigger] steps@[i]@ == empty_grid()[i],
            decreases PADS_PER_GROUP - pad,
        {
            let row = vec![false; STEPS_PER_PATTERN];
            assert(row@ =~= empty_grid()[pad as int]);
            steps.push(row);
            pad += 1;
        }
        let r = Pattern { steps, length: STEPS_PER_PATTERN };
        assert(r.grid() =~= empty_grid());
        r
    }

    /// Clears every flag; the dimensions stay.
    pub fn clear(&mut self)
        requires
            old(self).wf(),
        ensures
            final(self).wf(),
            final(self).grid() == empty_grid(),
    {
        let mut pad: usize = 0;
        while pad < self.steps.len()
            invariant
                self.wf(),
                pad <= PADS_PER_GROUP,
                forall|i: int| 0 <= i < pad ==> #[trigger] self.grid()[i] == empty_grid()[i],
            decreases PADS_PER_GROUP - pad,
        {
            let ghost before = self.grid();
            let row = vec![false; STEPS_PER_PATTERN];
            assert(row@ =~= empty_grid()[pad as int]);
            self.steps.set(pad, row);
            assert(self.grid() =~= before.update(pad as int, empty_grid()[pad as int]));
            pad += 1;
        }
        assert(self.grid() =~= empty_grid());
    }

    /// Writes the flag of `pad` at `step`; out-of-range coordinates leave
    /// the pattern as it was.
    pub fn set_hit(&mut self, pad: usize, step: usize, value: bool)
        requires
            old(self).wf(),
        ensures
            final(self).wf(),
            final(self).grid() == if pad < PADS_PER_GROUP && step < STEPS_PER_PATTERN {
                grid_with(old(self).grid(), pad as int, step as int, value)
            } else {
                old(self).grid()
            },
    {
        if pad < PADS_PER_GROUP && step < self.length {
            assert(self.grid()[pad as int] == self.steps@[pad as int]@);
            let mut row = self.steps[pad].clone();
            row.set(step, value);
            self.steps.set(pad, row);
            assert(self.grid() =~= grid_with(old(self).grid(), pad as int, step as int, value));
        }
    }

    /// The pads set at `step`, in ascending order; none when `step` is out
    /// of range.
    pub fn get_hits_at_step(&self, step: usize) -> (r: Vec<usize>)
        requires
            self.wf(),
        ensures
            r@ == if step < STEPS_PER_PATTERN {
                pads_hit(self.grid(), step as int, PADS_PER_GROUP as int)
            } else {
                Seq::empty()
            },
    {
        let mut hits: Vec<usize> = Vec::new();
        if step < self.length {
            let mut pad: usize = 0;
            while pad < self.steps.len()
                invariant
                    self.wf(),
                    step < STEPS_PER_PATTERN,
                    pad <= PADS_PER_GROUP,
                    hits@ == pads_hit(self.grid(), step as int, pad as int),
                decreases PADS_PER_GROUP - pad,
            {
                assert(self.grid()[pad as int] == self.steps@[pad as int]@);
                if self.steps[pad][step] {
                    hits.push(pad);
                }
                pad += 1;
            }
        }
        hits
    }
}


/// The grid after `set_hit(pad, step, value)`: the cell is written when the
/// coordinates are in range.
pub open spec fn after_set_hit(grid: Seq<Seq<bool>>, pad: int, step: int, value: bool) -> Seq<Seq<bool>> {
    if 0 <= pad < PADS_PER_GROUP && 0 <= step < STEPS_PER_PATTERN {
        grid_with(grid, pad, step, value)
    } else {
        grid
    }
}

/// `(group, idx)` names a pattern that can exist.
pub open spec fn valid_slot(group: int, idx: int) -> bool {
    0 <= group < MAX_GROUPS && 0 <= idx < MAX_PATTERNS
}

/// The key under which the pattern `(group, idx)` is stored.
pub open spec fn pattern_slot(group: int, idx: int) -> usize {
    (group * MAX_PATTERNS + idx) as usize
}

/// The grid of pattern `(group, idx)` in a store of grids: an untouched
/// pattern reads as the empty grid.
pub open spec fn grid_in(store: Map<usize, Seq<Seq<bool>>>, group: int, idx: int) -> Seq<Seq<bool>> {
    if valid_slot(group, idx) && store.contains_key(pattern_slot(group, idx)) {
        store[pattern_slot(group, idx)]
    } else {
        empty_grid()
    }
}

/// The step that follows `step`, wrapping at the end of the bar.
pub open spec fn next_step(step: int) -> int {
    (step + 1) % (STEPS_PER_PATTERN as int)
}

/// The patterns of all groups, the global step cursor, and the pattern
/// that each group plays.
pub struct Sequencer {
    patterns: HashMap<usize, Pattern>,
    pub current_step: usize,
    active_patterns: [usize; MAX_GROUPS],
}

impl Sequencer {
    /// The cursor is on the bar, each active pattern index is valid, and the
    /// stored patterns are well formed, under valid keys.
    pub closed spec fn wf(&self) -> bool {
        &&& self.current_step < STEPS_PER_PATTERN
        &&& self.active_patterns@.len() == MAX_GROUPS
        &&& forall|g: int| 0 <= g < MAX_GROUPS ==> #[trigger] self.active_patterns@[g] < MAX_PATTERNS
        &&& forall|k: usize| #[trigger] self.patterns@.contains_key(k) ==> {
            &&& k < MAX_GROUPS * MAX_PATTERNS
            &&& self.patterns@[k].wf()
        }
    }

    /// The grids of the patterns created so far, by key.
    pub closed spec fn store(&self) -> Map<usize, Seq<Seq<bool>>> {
        self.patterns@.map_values(|p: Pattern| p.grid())
    }

    /// The step the cursor is on.
    pub closed spec fn cursor(&self) -> int {
        self.current_step as int
    }

    /// The pattern index that each group plays.
    pub closed spec fn active(&self) -> Seq<usize> {
        self.active_patterns@
    }

    /// The grid of pattern `(group, idx)`.
    pub open spec fn grid_at(&self, group: int, idx: int) -> Seq<Seq<bool>> {
        grid_in(self.store(), group, idx)
    }

    /// Pattern `(group, idx)` has been created.
    pub open spec fn is_stored(&self, group: int, idx: int) -> bool {
        valid_slot(group, idx) && self.store().contains_key(pattern_slot(group, idx))
    }

    /// The hits of groups `0..n` at `step`, each from the group's active
    /// pattern: groups ascending, pads ascending within a group.
    pub open spec fn hits_upto(&self, step: int, n: int) -> Seq<(usize, usize)>
        decreases n,
    {
        if n <= 0 {
            Seq::empty()
        } else {
            let group = (n - 1) as usize;
            let pads = pads_hit(self.grid_at(n - 1, self.active()[n - 1] as int), step, PADS_PER_GROUP as int);
            self.hits_upto(step, n - 1) + pads.map_values(|pad: usize| (group, pad))
        }
    }

    /// The hits of all groups at `step`.
    pub open spec fn hits_at(&self, step: int) -> Seq<(usize, usize)> {
        self.hits_upto(step, MAX_GROUPS as int)
    }

    /// The store after `record_hit(group, idx, pad)`: a valid pattern is
    /// created if need be and its cell at the current step is set.
    pub open spec fn store_after_record(&self, group: int, idx: int, pad: int) -> Map<usize, Seq<Seq<bool>>> {
        if valid_slot(group, idx) {
            self.store().insert(
                pattern_slot(group, idx),
                after_set_hit(self.grid_at(group, idx), pad, self.cursor(), true),
            )
        } else {
            self.store()
        }
    }

    /// Every grid of a well-formed sequencer has the dimensions of a pattern.
    pub proof fn lemma_grids_shaped(&self)
        requires
            self.wf(),
        ensures
            forall|group: int, idx: int| #[trigger] grid_shaped(self.grid_at(group, idx)),
            self.active().len() == MAX_GROUPS,
            forall|g: int| 0 <= g < MAX_GROUPS ==> #[trigger] self.active()[g] < MAX_PATTERNS,
    {
        assert forall|group: int, idx: int| #[trigger] grid_shaped(self.grid_at(group, idx)) by {
            if self.is_stored(group, idx) {
                assert(self.patterns@[pattern_slot(group, idx)].wf());
            } else {
                lemma_empty_grid_shaped();
            }
        }
    }

    /// A sequencer at step 0 with no pattern created and every group on
    /// pattern 0.
    pub fn new() -> (r: Self)
        ensures
            r.wf(),
            r.cursor() == 0,
            r.store() == Map::<usize, Seq<Seq<bool>>>::empty(),
            r.active() == seq![0usize, 0, 0, 0],
    {
        let r = Sequencer { patterns: HashMap::new(), current_step: 0, active_patterns: [0; MAX_GROUPS] };
        assert(r.store() =~= Map::<usize, Seq<Seq<bool>>>::empty());
        assert(r.active() =~= seq![0usize, 0, 0, 0]);
        r
    }

    /// Emits one pulse: the hits of every group's active pattern at the
    /// current step, groups ascending and pads ascending within a group; the
    /// cursor then moves to the next step. No pattern is created or changed.
    pub fn tick(&mut self, _tempo: u32) -> (r: Vec<(usize, usize)>)
        requires
            old(self).wf(),
        ensures
            final(self).wf(),
            r@ == old(self).hits_at(old(self).cursor()),
            final(self).cursor() == next_step(old(self).cursor()),
            final(self).store() == old(self).store(),
            final(self).active() == old(self).active(),
    {
        let step = self.current_step;
        let mut all_hits: Vec<(usize, usize)> = Vec::new();
        let mut group: usize = 0;
        while group < MAX_GROUPS
            invariant
                self.wf(),
                step == self.current_step,
                group <= MAX_GROUPS,
                all_hits@ == self.hits_upto(step as int, group as int),
            decreases MAX_GROUPS - group,
        {
            let idx = self.active_patterns[group];
            let key = group * MAX_PATTERNS + idx;
            let ghost grid = self.grid_at(group as int, idx as int);
            let pads: Vec<usize> = match self.patterns.get(&key) {
                Some(p) => {
                    assert(p.grid() == grid);
                    p.get_hits_at_step(step)
                },
                None => {
                    assert(grid == empty_grid());
                    proof {
                        lemma_pads_hit_empty(step as int, PADS_PER_GROUP as int);
                    }
                    Vec::new()
                },
            };
            let ghost base = all_hits@;
            let ghost mapped = pads@.map_values(|pad: usize| (group, pad));
            let mut i: usize = 0;
            while i < pads.len()
                invariant
                    i <= pads@.len(),
                    mapped == pads@.map_values(|pad: usize| (group, pad)),
                    all_hits@ == base + mapped.subrange(0, i as int),
                decreases pads@.len() - i,
            {
                all_hits.push((group, pads[i]));
                assert(mapped.subrange(0, i + 1) =~= mapped.subrange(0, i as int).push(mapped[i as int]));
                i += 1;
            }
            assert(mapped.subrange(0, pads@.len() as int) =~= mapped);
            group += 1;
        }
        self.current_step = (self.current_step + 1) % STEPS_PER_PATTERN;
        all_hits
    }

    /// Sets the flag of `pad` at the current step in pattern
    /// `(group, pattern_idx)`, whatever pattern is active; the pattern is
    /// created if it was untouched. An invalid group or index is ignored, and
    /// an out-of-range pad leaves the grid as it was.
    pub fn record_hit(&mut self, group: usize, pattern_idx: usize, pad: usize)
        requires
            old(self).wf(),
        ensures
            final(self).wf(),
            final(self).store() == old(self).store_after_record(group as int, pattern_idx as int, pad as int),
            final(self).cursor() == old(self).cursor(),
            final(self).active() == old(self).active(),
    {
        if group < MAX_GROUPS && pattern_idx < MAX_PATTERNS {
            let key = group * MAX_PATTERNS + pattern_idx;
            let step = self.current_step;
            let mut pattern = match self.patterns.remove(&key) {
                Some(p) => p,
                None => Pattern::new(),
            };
            assert(pattern.grid() == old(self).grid_at(group as int, pattern_idx as int));
            pattern.set_hit(pad, step, true);
            self.patterns.insert(key, pattern);
            assert(self.store() =~= old(self).store_after_record(group as int, pattern_idx as int, pad as int));
        }
    }

    /// Clears pattern `(group, pattern_idx)` if it has been created; an
    /// untouched pattern stays uncreated.
    pub fn clear_pattern(&mut self, group: usize, pattern_idx: usize)
        requires
            old(self).wf(),
        ensures
            final(self).wf(),
            final(self).store() == if old(self).is_stored(group as int, pattern_idx as int) {
                old(self).store().insert(pattern_slot(group as int, pattern_idx as int), empty_grid())
            } else {
                old(self).store()
            },
            final(self).cursor() == old(self).cursor(),
            final(self).active() == old(self).active(),
    {
        if group < MAX_GROUPS && pattern_idx < MAX_PATTERNS {
            let key = group * MAX_PATTERNS + pattern_idx;
            match self.patterns.remove(&key) {
                Some(p) => {
                    let mut pattern = p;
                    pattern.clear();
                    self.patterns.insert(key, pattern);
                    assert(self.store() =~= old(self).store().insert(key, empty_grid()));
                },
                None => {
                    assert(self.patterns@ =~= old(self).patterns@);
                },
            }
        }
    }

    /// A copy of the grid of pattern `(group, pattern_idx)`, indexed
    /// `[pad][step]`; an untouched pattern reads as all false. Nothing is
    /// created.
    pub fn get_pattern_grid(&self, group: usize, pattern_idx: usize) -> (r: Vec<Vec<bool>>)
        requires
            self.wf(),
        ensures
            rows_view(r@) == self.grid_at(group as int, pattern_idx as int),
            grid_shaped(rows_view(r@)),
            !self.is_stored(group as int, pattern_idx as int) ==> rows_view(r@) == empty_grid(),
    {
        proof {
            self.lemma_grids_shaped();
        }
        if group < MAX_GROUPS && pattern_idx < MAX_PATTERNS {
            let key = group * MAX_PATTERNS + pattern_idx;
            match self.patterns.get(&key) {
                Some(p) => {
                    return copy_rows(&p.steps);
                },
                None => {},
            }
        }
        Pattern::new().steps
    }

    /// The step the cursor is on.
    pub fn get_current_step(&self) -> (r: usize)
        ensures
            r == self.cursor(),
    {
        self.current_step
    }

    /// Moves the cursor back to the first step.
    pub fn reset_position(&mut self)
        requires
            old(self).wf(),
        ensures
            final(self).wf(),
            final(self).cursor() == 0,
            final(self).store() == old(self).store(),
            final(self).active() == old(self).active(),
    {
        self.current_step = 0;
    }

    /// Makes `pattern_idx` the pattern that `group` plays and records into
    /// from the next tick on; an invalid group or index changes nothing.
    pub fn set_active_pattern(&mut self, group: usize, pattern_idx: usize)
        requires
            old(self).wf(),
        ensures
            final(self).wf(),
            group < MAX_GROUPS && pattern_idx < MAX_PATTERNS ==> {
                &&& final(self).active() == old(self).active().update(group as int, pattern_idx)
                &&& final(self).store() == old(self).store()
                &&& final(self).cursor() == old(self).cursor()
            },
            !(group < MAX_GROUPS && pattern_idx < MAX_PATTERNS) ==> *final(self) == *old(self),
    {
        if group < MAX_GROUPS && pattern_idx < MAX_PATTERNS {
            self.active_patterns[group] = pattern_idx;
        }
    }

    /// The pattern index that each group plays.
    pub fn active_patterns(&self) -> (r: [usize; MAX_GROUPS])
        ensures
            r@ == self.active(),
    {
        self.active_patterns
    }

    /// How many patterns have been created.
    pub fn pattern_count(&self) -> (r: usize)
        ensures
            r == self.store().len(),
    {
        assert(self.store().dom() =~= self.patterns@.dom());
        self.patterns.len()
    }
}

/// The cursor after `n` pulses from `step`.
pub open spec fn step_after(step: int, n: nat) -> int
    decreases n,
{
    if n == 0 {
        step
    } else {
        next_step(step_after(step, (n - 1) as nat))
    }
}

/// Sixteen pulses bring the cursor back to the step it started from: one
/// pattern is exactly one bar.
pub proof fn lemma_full_bar_rollover(step: int)
    requires
        0 <= step < STEPS_PER_PATTERN,
    ensures
        step_after(step, STEPS_PER_PATTERN as nat) == step,
{
    lemma_step_after(step, STEPS_PER_PATTERN as nat);
}

proof fn lemma_step_after(step: int, n: nat)
    requires
        0 <= step < STEPS_PER_PATTERN,
    ensures
        step_after(step, n) == (step + n) % (STEPS_PER_PATTERN as int),
    decreases n,
{
    if n > 0 {
        lemma_step_after(step, (n - 1) as nat);
        vstd::arithmetic::div_mod::lemma_add_mod_noop(step + n - 1, 1, STEPS_PER_PATTERN as int);
    }
}

/// Recording a hit into a valid pattern sets the flag of that pad at the
/// current step, and no other cell of any pattern changes.
pub proof fn lemma_record_then_read(s: Sequencer, group: int, idx: int, pad: int)
    requires
        s.wf(),
        valid_slot(group, idx),
        0 <= pad < PADS_PER_GROUP,
    ensures
        grid_in(s.store_after_record(group, idx, pad), group, idx)[pad][s.cursor()],
        forall|g: int, p: int, a: int, b: int|
            0 <= a < PADS_PER_GROUP && 0 <= b < STEPS_PER_PATTERN && !(g == group && p == idx && a == pad
                && b == s.cursor()) ==> #[trigger] grid_in(s.store_after_record(group, idx, pad), g, p)[a][b]
                == s.grid_at(g, p)[a][b],
{
    s.lemma_grids_shaped();
    assert(grid_shaped(s.grid_at(group, idx)));
    assert forall|g: int, p: int, a: int, b: int|
        0 <= a < PADS_PER_GROUP && 0 <= b < STEPS_PER_PATTERN && !(g == group && p == idx && a == pad
            && b == s.cursor()) implies #[trigger] grid_in(s.store_after_record(group, idx, pad), g, p)[a][b]
            == s.grid_at(g, p)[a][b] by {
        if valid_slot(g, p) && pattern_slot(g, p) == pattern_slot(group, idx) {
            assert(g == group && p == idx) by (nonlinear_arith)
                requires
                    valid_slot(g, p),
                    valid_slot(group, idx),
                    g * 99 + p == group * 99 + idx,
            ;
        }
    }
}

/// A row-by-row copy of a grid held in vectors.
fn copy_rows(rows: &Vec<Vec<bool>>) -> (r: Vec<Vec<bool>>)
    ensures
        rows_view(r@) == rows_view(rows@),
{
    let mut out: Vec<Vec<bool>> = Vec::new();
    let mut i: usize = 0;
    while i < rows.len()
        invariant
            i <= rows@.len(),
            out@.len() == i,
            forall|j: int| 0 <= j < i ==> #[trigger] out@[j]@ == rows@[j]@,
        decreases rows@.len() - i,
    {
        let row = rows[i].clone();
        assert(row@ =~= rows@[i as int]@);
        out.push(row);
        i += 1;
    }
    assert(rows_view(out@) =~= rows_view(rows@));
    out
}

/// No pad of the empty grid is set at any step.
proof fn lemma_pads_hit_empty(step: int, n: int)
    requires
        0 <= step < STEPS_PER_PATTERN,
        n <= PADS_PER_GROUP,
    ensures
        pads_hit(empty_grid(), step, n) == Seq::<usize>::empty(),
    decreases n,
{
    if n > 0 {
        lemma_pads_hit_empty(step, n - 1);
    }
}

proof fn lemma_empty_grid_shaped()
    ensures
        grid_shaped(empty_grid()),
{
}

} // verus!
