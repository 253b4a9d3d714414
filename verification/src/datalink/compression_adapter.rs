//! Occupancy-grid compression for the downlink: a full keyframe now and then, and
//! in between only the cells that changed since the previous grid.
//!
//! The compressor reads measured grids: rows of cells, each with the quantised log-odds
//! that is sent for it (one `i32`, ten steps per unit of log-odds) and a key that tells
//! whether its log-odds equals another cell's. A cell counts as changed when its
//! log-odds differs from the one before, even where both quantise to the same value.
//! What is sent and rebuilt are grids of quantised log-odds. Cell `(i, j)` is column `j`
//! of row `i`.
use vstd::prelude::*;

verus! {

/// A grid as the proofs see it: rows of quantised log-odds.
pub type GridView = Seq<Seq<i32>>;

/// One cell that differs from the previous grid: its new quantised log-odds, its row `i`
/// and its column `j`.
#[derive(Debug, Clone, Copy, PartialEq, Eq)]
pub struct ChangedCell {
    pub quantized_odds: i32,
    pub i: i32,
    pub j: i32,
}

/// One measured cell: the quantised log-odds that is sent for it, and a key for its
/// log-odds. Two cells have equal log-odds exactly when both have a key and the keys are
/// equal; a log-odds that equals nothing, not even itself, has no key.
#[derive(Debug, Clone, Copy, PartialEq, Eq)]
pub struct MeasuredCell {
    pub ln_ods_key: Option<u32>,
    pub quantized_odds: i32,
}

/// A measured grid as the proofs see it.
pub type MeasuredView = Seq<Seq<MeasuredCell>>;

/// The two cells have equal log-odds.
pub open spec fn same_ln_ods(a: MeasuredCell, b: MeasuredCell) -> bool {
    a.ln_ods_key is Some && a.ln_ods_key == b.ln_ods_key
}

/// Whether the two cells have equal log-odds, as `same_ln_ods` says.
pub fn equal_ln_ods(a: &MeasuredCell, b: &MeasuredCell) -> (same: bool)
    ensures
        same == same_ln_ods(*a, *b),
{
    match (a.ln_ods_key, b.ln_ods_key) {
        (Some(x), Some(y)) => x == y,
        _ => false,
    }
}

/// The grid of quantised log-odds that is sent for the measured grid `g`.
pub open spec fn quantized(g: MeasuredView) -> GridView {
    g.map_values(|r: Seq<MeasuredCell>| r.map_values(|c: MeasuredCell| c.quantized_odds))
}

/// The rows of `g`, each by its content.
pub open spec fn grid_view<T>(g: Vec<Vec<T>>) -> Seq<Seq<T>> {
    g@.map_values(|r: Vec<T>| r@)
}

/// The changes of row `i` among its first `n` columns, in column order: the cells whose
/// log-odds differ, with their new quantised log-odds.
pub open spec fn row_changes(next: Seq<MeasuredCell>, old: Seq<MeasuredCell>, i: int, n: int) -> Seq<ChangedCell>
    decreases n,
{
    if n <= 0 {
        Seq::empty()
    } else {
        let before = row_changes(next, old, i, n - 1);
        if !same_ln_ods(old[n - 1], next[n - 1]) {
            before.push(ChangedCell { quantized_odds: next[n - 1].quantized_odds, i: i as i32, j: (n - 1) as i32 })
        } else {
            before
        }
    }
}

pub open spec fn min_len(a: int, b: int) -> int {
    if a <= b { a } else { b }
}

/// The changes among the first `m` rows, in row-major order. Only the part that both
/// grids have (their common rows, and in each the common columns) is compared.
pub open spec fn grid_changes(next: MeasuredView, old: MeasuredView, m: int) -> Seq<ChangedCell>
    decreases m,
{
    if m <= 0 {
        Seq::empty()
    } else {
        grid_changes(next, old, m - 1) + row_changes(
            next[m - 1],
            old[m - 1],
            m - 1,
            min_len(next[m - 1].len() as int, old[m - 1].len() as int),
        )
    }
}

/// Every cell of `next` whose log-odds differ from `old`'s, with its new quantised
/// log-odds and its position.
pub open spec fn changed_cells(next: MeasuredView, old: MeasuredView) -> Seq<ChangedCell> {
    grid_changes(next, old, min_len(next.len() as int, old.len() as int))
}

/// The cells that `grid_to_changed_cells` reports, with row and column as the
/// 32-bit integers that are sent.
pub fn grid_to_changed_cells(next_grid: &Vec<Vec<MeasuredCell>>, grid: &Vec<Vec<MeasuredCell>>) -> (cells: Vec<ChangedCell>)
    ensures
        cells@ == changed_cells(grid_view(*next_grid), grid_view(*grid)),
{
    let ghost next = grid_view(*next_grid);
    let ghost old = grid_view(*grid);
    let rows = if next_grid.len() <= grid.len() { next_grid.len() } else { grid.len() };
    let mut cells: Vec<ChangedCell> = Vec::new();
    let mut i: usize = 0;
    while i < rows
        invariant
            rows == min_len(next.len() as int, old.len() as int),
            next == grid_view(*next_grid),
            old == grid_view(*grid),
            i <= rows,
            cells@ == grid_changes(next, old, i as int),
        decreases rows - i,
    {
        let next_row = &next_grid[i];
        let old_row = &grid[i];
        assert(next[i as int] == next_row@);
        assert(old[i as int] == old_row@);
        let cols = if next_row.len() <= old_row.len() { next_row.len() } else { old_row.len() };
        let ghost start = cells@;
        let mut j: usize = 0;
        while j < cols
            invariant
                cols == min_len(next_row@.len() as int, old_row@.len() as int),
                j <= cols,
                cells@ == start + row_changes(next_row@, old_row@, i as int, j as int),
            decreases cols - j,
        {
            if !equal_ln_ods(&old_row[j], &next_row[j]) {
                cells.push(ChangedCell { quantized_odds: next_row[j].quantized_odds, i: i as i32, j: j as i32 });
            }
            assert(start + row_changes(next_row@, old_row@, i as int, (j + 1) as int) =~= cells@);
            j = j + 1;
        }
        i = i + 1;
    }
    cells
}


/// `g` with the value of every change written at its cell, the later change winning.
pub open spec fn apply_changes(g: GridView, cs: Seq<ChangedCell>) -> GridView
    decreases cs.len(),
{
    if cs.len() == 0 {
        g
    } else {
        let before = apply_changes(g, cs.drop_last());
        let c = cs.last();
        before.update(c.i as int, before[c.i as int].update(c.j as int, c.quantized_odds))
    }
}

/// Every change names a cell that `g` has.
pub open spec fn changes_in_bounds(g: GridView, cs: Seq<ChangedCell>) -> bool {
    forall|k: int|
        0 <= k < cs.len() ==> 0 <= #[trigger] cs[k].i < g.len() && 0 <= cs[k].j < g[cs[k].i as int].len()
}

/// Both grids have the same number of rows, and row by row the same number of cells.
pub open spec fn same_shape<A, B>(a: Seq<Seq<A>>, b: Seq<Seq<B>>) -> bool {
    &&& a.len() == b.len()
    &&& forall|i: int| 0 <= i < a.len() ==> #[trigger] a[i].len() == b[i].len()
}

/// Every row and column index of `g` fits in the 32-bit integers that carry it.
pub open spec fn indices_fit<T>(g: Seq<Seq<T>>) -> bool {
    &&& g.len() <= i32::MAX + 1
    &&& forall|i: int| 0 <= i < g.len() ==> #[trigger] g[i].len() <= i32::MAX + 1
}

proof fn lemma_row_changes(next: Seq<MeasuredCell>, old: Seq<MeasuredCell>, i: int, n: int)
    requires
        0 <= i <= i32::MAX,
        0 <= n <= i32::MAX + 1,
        n <= next.len(),
        n <= old.len(),
    ensures
        forall|k: int|
            0 <= k < row_changes(next, old, i, n).len() ==> {
                let c = #[trigger] row_changes(next, old, i, n)[k];
                &&& c.i == i
                &&& 0 <= c.j < n
                &&& c.quantized_odds == next[c.j as int].quantized_odds
                &&& !same_ln_ods(old[c.j as int], next[c.j as int])
            },
        forall|j: int|
            0 <= j < n && !same_ln_ods(old[j], next[j]) ==> exists|k: int|
                0 <= k < row_changes(next, old, i, n).len() && (#[trigger] row_changes(next, old, i, n)[k]).j == j,
    decreases n,
{
    if n > 0 {
        lemma_row_changes(next, old, i, n - 1);
        let before = row_changes(next, old, i, n - 1);
        let now = row_changes(next, old, i, n);
        assert forall|j: int| 0 <= j < n && !same_ln_ods(old[j], next[j]) implies exists|k: int|
            0 <= k < now.len() && (#[trigger] now[k]).j == j by {
            if j < n - 1 {
                let k = choose|k: int| 0 <= k < before.len() && (#[trigger] before[k]).j == j;
                assert(now[k] == before[k]);
            } else {
                assert(now[before.len() as int].j == j);
            }
        }
    }
}

proof fn lemma_grid_changes(next: MeasuredView, old: MeasuredView, m: int)
    requires
        same_shape(next, old),
        indices_fit(next),
        0 <= m <= next.len(),
    ensures
        forall|k: int|
            0 <= k < grid_changes(next, old, m).len() ==> {
                let c = #[trigger] grid_changes(next, old, m)[k];
                &&& 0 <= c.i < m
                &&& 0 <= c.j < next[c.i as int].len()
                &&& c.quantized_odds == next[c.i as int][c.j as int].quantized_odds
                &&& !same_ln_ods(old[c.i as int][c.j as int], next[c.i as int][c.j as int])
            },
        forall|i: int, j: int|
            0 <= i < m && 0 <= j < next[i].len() && !same_ln_ods(old[i][j], next[i][j]) ==> exists|k: int|
                0 <= k < grid_changes(next, old, m).len() && (#[trigger] grid_changes(next, old, m)[k]).i == i
                    && grid_changes(next, old, m)[k].j == j,
    decreases m,
{
    if m > 0 {
        lemma_grid_changes(next, old, m - 1);
        let r = m - 1;
        assert(next[r].len() == old[r].len());
        let n = next[r].len() as int;
        assert(min_len(next[r].len() as int, old[r].len() as int) == n);
        lemma_row_changes(next[r], old[r], r, n);
        let before = grid_changes(next, old, m - 1);
        let row = row_changes(next[r], old[r], r, n);
        let now = grid_changes(next, old, m);
        assert(now == before + row);
        assert forall|k: int| 0 <= k < now.len() implies {
            let c = #[trigger] now[k];
            &&& 0 <= c.i < m
            &&& 0 <= c.j < next[c.i as int].len()
            &&& c.quantized_odds == next[c.i as int][c.j as int].quantized_odds
            &&& !same_ln_ods(old[c.i as int][c.j as int], next[c.i as int][c.j as int])
        } by {
            if k >= before.len() {
                assert(now[k] == row[k - before.len()]);
            }
        }
        assert forall|i: int, j: int|
            0 <= i < m && 0 <= j < next[i].len() && !same_ln_ods(old[i][j], next[i][j]) implies exists|k: int|
                0 <= k < now.len() && (#[trigger] now[k]).i == i && now[k].j == j by {
            if i < m - 1 {
                let k = choose|k: int|
                    0 <= k < before.len() && (#[trigger] before[k]).i == i && before[k].j == j;
                assert(now[k] == before[k]);
            } else {
                let k = choose|k: int| 0 <= k < row.len() && (#[trigger] row[k]).j == j;
                assert(now[before.len() + k] == row[k]);
            }
        }
    }
}

proof fn lemma_apply_shape(g: GridView, cs: Seq<ChangedCell>)
    requires
        changes_in_bounds(g, cs),
    ensures
        same_shape(apply_changes(g, cs), g),
    decreases cs.len(),
{
    if cs.len() > 0 {
        let rest = cs.drop_last();
        assert forall|k: int| 0 <= k < rest.len() implies 0 <= #[trigger] rest[k].i < g.len() && 0 <= rest[k].j < g[rest[k].i as int].len() by {
            assert(rest[k] == cs[k]);
        }
        lemma_apply_shape(g, rest);
        assert(0 <= cs[cs.len() - 1].i < g.len());
    }
}

proof fn lemma_apply_changes(g: GridView, cs: Seq<ChangedCell>, i: int, j: int, v: i32)
    requires
        changes_in_bounds(g, cs),
        0 <= i < g.len(),
        0 <= j < g[i].len(),
        forall|k: int| 0 <= k < cs.len() && (#[trigger] cs[k]).i == i && cs[k].j == j ==> cs[k].quantized_odds == v,
    ensures
        same_shape(apply_changes(g, cs), g),
        apply_changes(g, cs)[i][j] == if exists|k: int| 0 <= k < cs.len() && (#[trigger] cs[k]).i == i && cs[k].j == j {
            v
        } else {
            g[i][j]
        },
    decreases cs.len(),
{
    if cs.len() > 0 {
        let rest = cs.drop_last();
        assert forall|k: int| 0 <= k < rest.len() implies 0 <= #[trigger] rest[k].i < g.len() && 0 <= rest[k].j < g[rest[k].i as int].len() by {
            assert(rest[k] == cs[k]);
        }
        assert forall|k: int| 0 <= k < rest.len() && (#[trigger] rest[k]).i == i && rest[k].j == j implies rest[k].quantized_odds == v by {
            assert(rest[k] == cs[k]);
        }
        lemma_apply_changes(g, rest, i, j, v);
        let c = cs.last();
        assert(0 <= cs[cs.len() - 1].i < g.len());
        if exists|k: int| 0 <= k < rest.len() && (#[trigger] rest[k]).i == i && rest[k].j == j {
            let k = choose|k: int| 0 <= k < rest.len() && (#[trigger] rest[k]).i == i && rest[k].j == j;
            assert(cs[k] == rest[k]);
        }
        if exists|k: int| 0 <= k < cs.len() && (#[trigger] cs[k]).i == i && cs[k].j == j {
            if !(c.i == i && c.j == j) {
                let k = choose|k: int| 0 <= k < cs.len() && (#[trigger] cs[k]).i == i && cs[k].j == j;
                assert(k < rest.len());
                assert(rest[k] == cs[k]);
            }
        }
    }
}

/// Where two measured grids have equal log-odds in a cell, they have the same quantised
/// log-odds there.
pub open spec fn quantized_alike(next: MeasuredView, old: MeasuredView) -> bool {
    forall|i: int, j: int|
        0 <= i < next.len() && 0 <= j < next[i].len() && #[trigger] same_ln_ods(old[i][j], next[i][j])
            ==> old[i][j].quantized_odds == next[i][j].quantized_odds
}

/// Writing into the previous grid the changes computed against it gives back the next
/// grid, wherever equal log-odds quantise alike.
pub proof fn lemma_apply_changed_cells(next: MeasuredView, old: MeasuredView)
    requires
        same_shape(next, old),
        indices_fit(next),
        quantized_alike(next, old),
    ensures
        changes_in_bounds(quantized(old), changed_cells(next, old)),
        apply_changes(quantized(old), changed_cells(next, old)) == quantized(next),
{
    let cs = changed_cells(next, old);
    let qo = quantized(old);
    let qn = quantized(next);
    assert(min_len(next.len() as int, old.len() as int) == next.len());
    lemma_grid_changes(next, old, next.len() as int);
    assert forall|i: int| 0 <= i < next.len() implies #[trigger] qo[i].len() == old[i].len() && qn[i].len() == next[i].len() by {}
    assert forall|k: int| 0 <= k < cs.len() implies 0 <= #[trigger] cs[k].i < qo.len() && 0 <= cs[k].j < qo[cs[k].i as int].len() by {
        assert(qo[cs[k].i as int].len() == old[cs[k].i as int].len());
    }
    let res = apply_changes(qo, cs);
    assert forall|i: int, j: int| 0 <= i < next.len() && 0 <= j < next[i].len() implies res[i][j] == qn[i][j] by {
        assert(qn[i][j] == next[i][j].quantized_odds);
        assert(qo[i][j] == old[i][j].quantized_odds);
        assert forall|k: int| 0 <= k < cs.len() && (#[trigger] cs[k]).i == i && cs[k].j == j implies cs[k].quantized_odds == qn[i][j] by {}
        lemma_apply_changes(qo, cs, i, j, qn[i][j]);
        if !exists|k: int| 0 <= k < cs.len() && (#[trigger] cs[k]).i == i && cs[k].j == j {
            assert(same_ln_ods(old[i][j], next[i][j]));
        }
    }
    lemma_apply_shape(qo, cs);
    assert forall|i: int| 0 <= i < next.len() implies res[i] =~= qn[i] by {}
    assert(res =~= qn);
}


/// What a grid update carries, as the proofs see it.
pub enum UpdateView {
    Keyframe(GridView),
    Changes(Seq<ChangedCell>),
}

/// A grid update: the whole grid, or the cells that changed since the last grid sent.
#[derive(Debug)]
pub enum GridUpdate {
    Keyframe(Vec<Vec<i32>>),
    Changes(Vec<ChangedCell>),
}

impl View for GridUpdate {
    type V = UpdateView;

    open spec fn view(&self) -> UpdateView {
        match self {
            GridUpdate::Keyframe(g) => UpdateView::Keyframe(grid_view(*g)),
            GridUpdate::Changes(cs) => UpdateView::Changes(cs@),
        }
    }
}

/// One message of the grid stream; a message without an update carries nothing.
#[derive(Debug)]
pub struct GridMessage {
    pub msg: Option<GridUpdate>,
}

impl View for GridMessage {
    type V = Option<UpdateView>;

    open spec fn view(&self) -> Option<UpdateView> {
        match self.msg {
            Some(u) => Some(u@),
            None => None,
        }
    }
}

/// The compressor's memory: the last measured grid and how many change lists followed
/// its keyframe.
pub type CompressorState = Option<(MeasuredView, int)>;

/// One step of the compressor: the first grid, and the grid after nine change lists,
/// go out whole (quantised); any other grid goes out as its changes against the last one.
pub open spec fn compress_step(s: CompressorState, next: MeasuredView) -> (CompressorState, UpdateView) {
    match s {
        None => (Some((next, 0)), UpdateView::Keyframe(quantized(next))),
        Some((last, diffs_since)) => if diffs_since >= 9 {
            (Some((next, 0)), UpdateView::Keyframe(quantized(next)))
        } else {
            (Some((next, diffs_since + 1)), UpdateView::Changes(changed_cells(next, last)))
        },
    }
}

/// The compressor's memory after a run of grids from a fresh start.
pub open spec fn compress_state(gs: Seq<MeasuredView>) -> CompressorState
    decreases gs.len(),
{
    if gs.len() == 0 {
        None
    } else {
        compress_step(compress_state(gs.drop_last()), gs.last()).0
    }
}

/// The messages the compressor sends for a run of grids from a fresh start.
pub open spec fn compress_seq(gs: Seq<MeasuredView>) -> Seq<Option<UpdateView>>
    decreases gs.len(),
{
    if gs.len() == 0 {
        Seq::empty()
    } else {
        compress_seq(gs.drop_last()).push(Some(compress_step(compress_state(gs.drop_last()), gs.last()).1))
    }
}

/// The decompressor's memory: the grid it last gave out, if any.
pub type DecompressorState = Option<GridView>;

/// A message the decompressor can take in `s`: change lists must name cells of the
/// grid they apply to.
pub open spec fn accepts(s: DecompressorState, m: Option<UpdateView>) -> bool {
    match m {
        Some(UpdateView::Changes(cs)) => match s {
            Some(g) => changes_in_bounds(g, cs),
            None => true,
        },
        _ => true,
    }
}

/// One step of the decompressor: an empty message, or a change list before any
/// keyframe, gives nothing; a keyframe is the new grid; a change list is written into
/// the current grid.
pub open spec fn decompress_step(s: DecompressorState, m: Option<UpdateView>) -> (DecompressorState, Option<GridView>) {
    match m {
        None => (s, None),
        Some(UpdateView::Keyframe(g)) => (Some(g), Some(g)),
        Some(UpdateView::Changes(cs)) => match s {
            Some(g) => (Some(apply_changes(g, cs)), Some(apply_changes(g, cs))),
            None => (None, None),
        },
    }
}

pub open spec fn decompress_state(ms: Seq<Option<UpdateView>>) -> DecompressorState
    decreases ms.len(),
{
    if ms.len() == 0 {
        None
    } else {
        decompress_step(decompress_state(ms.drop_last()), ms.last()).0
    }
}

/// The grids the decompressor gives out for a run of messages from a fresh start.
pub open spec fn decompress_seq(ms: Seq<Option<UpdateView>>) -> Seq<GridView>
    decreases ms.len(),
{
    if ms.len() == 0 {
        Seq::empty()
    } else {
        let before = decompress_seq(ms.drop_last());
        match decompress_step(decompress_state(ms.drop_last()), ms.last()).1 {
            Some(g) => before.push(g),
            None => before,
        }
    }
}

/// Every message of the run is one the decompressor can take when it comes.
pub open spec fn decompressible(ms: Seq<Option<UpdateView>>) -> bool
    decreases ms.len(),
{
    if ms.len() == 0 {
        true
    } else {
        decompressible(ms.drop_last()) && accepts(decompress_state(ms.drop_last()), ms.last())
    }
}

pub open spec fn grids_view<T>(gs: Seq<Vec<Vec<T>>>) -> Seq<Seq<Seq<T>>> {
    gs.map_values(|g: Vec<Vec<T>>| grid_view(g))
}

pub open spec fn messages_view(ms: Seq<GridMessage>) -> Seq<Option<UpdateView>> {
    ms.map_values(|m: GridMessage| m@)
}

pub open spec fn opt_grid_view(g: Option<Vec<Vec<i32>>>) -> Option<GridView> {
    match g {
        Some(g) => Some(grid_view(g)),
        None => None,
    }
}

fn copy_row<T: Copy>(row: &Vec<T>) -> (out: Vec<T>)
    ensures
        out@ == row@,
{
    let mut out: Vec<T> = Vec::new();
    let mut j: usize = 0;
    while j < row.len()
        invariant
            j <= row.len(),
            out@ == row@.take(j as int),
        decreases row.len() - j,
    {
        out.push(row[j]);
        assert(out@ =~= row@.take(j + 1));
        j = j + 1;
    }
    assert(out@ =~= row@);
    out
}

fn copy_grid<T: Copy>(g: &Vec<Vec<T>>) -> (out: Vec<Vec<T>>)
    ensures
        grid_view(out) == grid_view(*g),
{
    let mut out: Vec<Vec<T>> = Vec::new();
    let mut i: usize = 0;
    while i < g.len()
        invariant
            i <= g.len(),
            out@.len() == i,
            grid_view(out) == grid_view(*g).take(i as int),
        decreases g.len() - i,
    {
        let row = copy_row(&g[i]);
        let ghost before = out@;
        out.push(row);
        assert forall|k: int| 0 <= k < i + 1 implies #[trigger] grid_view(out)[k] == grid_view(*g).take(i + 1)[k] by {
            if k < i {
                assert(out@[k] == before[k]);
                assert(grid_view(out)[k] == out@[k]@);
            }
        }
        assert(grid_view(out) =~= grid_view(*g).take(i + 1));
        i = i + 1;
    }
    assert(grid_view(out) =~= grid_view(*g));
    out
}

fn quantize_row(row: &Vec<MeasuredCell>) -> (out: Vec<i32>)
    ensures
        out@ == row@.map_values(|c: MeasuredCell| c.quantized_odds),
{
    let mut out: Vec<i32> = Vec::new();
    let mut j: usize = 0;
    while j < row.len()
        invariant
            j <= row.len(),
            out@ == row@.take(j as int).map_values(|c: MeasuredCell| c.quantized_odds),
        decreases row.len() - j,
    {
        out.push(row[j].quantized_odds);
        assert(out@ =~= row@.take(j + 1).map_values(|c: MeasuredCell| c.quantized_odds));
        j = j + 1;
    }
    assert(row@.take(row@.len() as int) =~= row@);
    out
}

/// The grid of quantised log-odds sent for a measured grid.
fn quantize_grid(g: &Vec<Vec<MeasuredCell>>) -> (out: Vec<Vec<i32>>)
    ensures
        grid_view(out) == quantized(grid_view(*g)),
{
    let ghost q = quantized(grid_view(*g));
    let mut out: Vec<Vec<i32>> = Vec::new();
    let mut i: usize = 0;
    while i < g.len()
        invariant
            i <= g.len(),
            out@.len() == i,
            q == quantized(grid_view(*g)),
            grid_view(out) == q.take(i as int),
        decreases g.len() - i,
    {
        let row = quantize_row(&g[i]);
        let ghost before = out@;
        assert(grid_view(*g)[i as int] == g@[i as int]@);
        out.push(row);
        assert forall|k: int| 0 <= k < i + 1 implies #[trigger] grid_view(out)[k] == q.take(i + 1)[k] by {
            if k < i {
                assert(out@[k] == before[k]);
                assert(grid_view(out)[k] == out@[k]@);
            }
        }
        assert(grid_view(out) =~= q.take(i + 1));
        i = i + 1;
    }
    assert(grid_view(out) =~= q);
    out
}

fn apply_changed_cells(g: &mut Vec<Vec<i32>>, cells: &Vec<ChangedCell>)
    requires
        changes_in_bounds(grid_view(*old(g)), cells@),
    ensures
        grid_view(*final(g)) == apply_changes(grid_view(*old(g)), cells@),
{
    let ghost g0 = grid_view(*g);
    let mut k: usize = 0;
    while k < cells.len()
        invariant
            k <= cells.len(),
            changes_in_bounds(g0, cells@),
            grid_view(*g) == apply_changes(g0, cells@.take(k as int)),
            same_shape(grid_view(*g), g0),
        decreases cells.len() - k,
    {
        let c = cells[k];
        assert(cells@.take(k + 1).drop_last() =~= cells@.take(k as int));
        assert(cells@.take(k + 1).last() == c);
        assert(0 <= cells@[k as int].i < g0.len());
        let i = c.i as usize;
        let j = c.j as usize;
        assert(grid_view(*g)[i as int] == g[i as int]@);
        g[i][j] = c.quantized_odds;
        assert(grid_view(*g) =~= apply_changes(g0, cells@.take(k + 1)));
        k = k + 1;
    }
    assert(cells@.take(cells.len() as int) =~= cells@);
}

/// The last grid sent, and how many change lists went out since it went out whole.
/// The grid the receiving end holds now, and how many change lists were sent since its
/// keyframe.
pub struct LastSeenGrid {
    grid: Vec<Vec<MeasuredCell>>,
    diffs_since: i32,
}

impl View for LastSeenGrid {
    type V = (MeasuredView, int);

    closed spec fn view(&self) -> (MeasuredView, int) {
        (grid_view(self.grid), self.diffs_since as int)
    }
}

impl LastSeenGrid {
    /// The grid just sent as a keyframe.
    pub fn new(grid: Vec<Vec<MeasuredCell>>) -> (s: Self)
        ensures
            s@ == (grid_view(grid), 0int),
    {
        LastSeenGrid { grid, diffs_since: 0 }
    }
}

/// Turns a run of grids into keyframes and change lists (one keyframe, then up to nine
/// change lists, then a keyframe again).
pub struct GridCompressor {
    last_grid: Option<LastSeenGrid>,
}

impl View for GridCompressor {
    type V = CompressorState;

    closed spec fn view(&self) -> CompressorState {
        match self.last_grid {
            Some(l) => Some((grid_view(l.grid), l.diffs_since as int)),
            None => None,
        }
    }
}

impl GridCompressor {
    /// A compressor that has sent nothing yet.
    pub fn new() -> (c: Self)
        ensures
            c@ == None::<(MeasuredView, int)>,
    {
        GridCompressor { last_grid: None }
    }

    /// The message for the next grid, remembering it for the next change list.
    pub fn compress(&mut self, next_grid: Vec<Vec<MeasuredCell>>) -> (update: GridUpdate)
        ensures
            (final(self)@, update@) == compress_step(old(self)@, grid_view(next_grid)),
    {
        let last = self.last_grid.take();
        match last {
            None => {
                let keyframe = quantize_grid(&next_grid);
                self.last_grid = Some(LastSeenGrid::new(next_grid));
                GridUpdate::Keyframe(keyframe)
            },
            Some(l) => {
                if l.diffs_since >= 9 {
                    let keyframe = quantize_grid(&next_grid);
                    self.last_grid = Some(LastSeenGrid::new(next_grid));
                    GridUpdate::Keyframe(keyframe)
                } else {
                    let changed_cells = grid_to_changed_cells(&next_grid, &l.grid);
                    self.last_grid = Some(LastSeenGrid { grid: next_grid, diffs_since: l.diffs_since + 1 });
                    GridUpdate::Changes(changed_cells)
                }
            },
        }
    }
}

/// Rebuilds the grids from keyframes and change lists.
pub struct GridDecompressor {
    current_grid: Option<Vec<Vec<i32>>>,
}

impl View for GridDecompressor {
    type V = DecompressorState;

    closed spec fn view(&self) -> DecompressorState {
        opt_grid_view(self.current_grid)
    }
}

fn in_bounds(g: &Vec<Vec<i32>>, cells: &Vec<ChangedCell>) -> (ok: bool)
    ensures
        ok == changes_in_bounds(grid_view(*g), cells@),
{
    let mut k: usize = 0;
    while k < cells.len()
        invariant
            k <= cells.len(),
            forall|m: int| 0 <= m < k ==> 0 <= #[trigger] cells@[m].i < grid_view(*g).len()
                && 0 <= cells@[m].j < grid_view(*g)[cells@[m].i as int].len(),
        decreases cells.len() - k,
    {
        let c = cells[k];
        if c.i < 0 || c.j < 0 {
            return false;
        }
        let i = c.i as usize;
        if i >= g.len() {
            return false;
        }
        assert(grid_view(*g)[i as int] == g[i as int]@);
        if c.j as usize >= g[i].len() {
            return false;
        }
        k = k + 1;
    }
    true
}

impl GridDecompressor {
    /// A decompressor that has seen no keyframe yet.
    pub fn new() -> (d: Self)
        ensures
            d@ == None::<GridView>,
    {
        GridDecompressor { current_grid: None }
    }

    /// Whether `message` can be taken now: a change list must name cells of the current grid.
    pub fn accepts_message(&self, message: &GridMessage) -> (ok: bool)
        ensures
            ok == accepts(self@, message@),
    {
        match &message.msg {
            Some(GridUpdate::Changes(cells)) => match &self.current_grid {
                Some(g) => in_bounds(g, cells),
                None => true,
            },
            _ => true,
        }
    }

    /// The grid that `message` leads to, if it leads to one.
    pub fn decompress(&mut self, message: &GridMessage) -> (out: Option<Vec<Vec<i32>>>)
        requires
            accepts(old(self)@, message@),
        ensures
            (final(self)@, opt_grid_view(out)) == decompress_step(old(self)@, message@),
    {
        match &message.msg {
            None => None,
            Some(GridUpdate::Keyframe(keyframe)) => {
                self.current_grid = Some(copy_grid(keyframe));
                Some(copy_grid(keyframe))
            },
            Some(GridUpdate::Changes(cells)) => match self.current_grid.take() {
                Some(mut g) => {
                    apply_changed_cells(&mut g, cells);
                    let updated = copy_grid(&g);
                    self.current_grid = Some(g);
                    Some(updated)
                },
                None => None,
            },
        }
    }
}


/// The messages for a run of measured grids, as a fresh compressor sends them.
pub fn compressed_grid_stream(grids: &Vec<Vec<Vec<MeasuredCell>>>) -> (msgs: Vec<GridMessage>)
    ensures
        messages_view(msgs@) == compress_seq(grids_view(grids@)),
{
    let ghost gv = grids_view(grids@);
    let mut compressor = GridCompressor::new();
    let mut msgs: Vec<GridMessage> = Vec::new();
    let mut k: usize = 0;
    while k < grids.len()
        invariant
            gv == grids_view(grids@),
            k <= grids.len(),
            msgs@.len() == k,
            messages_view(msgs@) == compress_seq(gv.take(k as int)),
            compressor@ == compress_state(gv.take(k as int)),
        decreases grids.len() - k,
    {
        let ghost before = msgs@;
        assert(gv.take(k + 1).drop_last() =~= gv.take(k as int));
        assert(gv.take(k + 1).last() == grid_view(grids@[k as int]));
        let update = compressor.compress(copy_grid(&grids[k]));
        msgs.push(GridMessage { msg: Some(update) });
        assert forall|m: int| 0 <= m < k + 1 implies #[trigger] messages_view(msgs@)[m] == compress_seq(gv.take(k + 1))[m] by {
            if m < k {
                assert(msgs@[m] == before[m]);
            }
        }
        assert(messages_view(msgs@) =~= compress_seq(gv.take(k + 1)));
        k = k + 1;
    }
    assert(gv.take(grids.len() as int) =~= gv);
    msgs
}

/// The grids a fresh decompressor gives out for a run of messages.
pub fn decompressed_grid_stream(msgs: &Vec<GridMessage>) -> (grids: Vec<Vec<Vec<i32>>>)
    requires
        decompressible(messages_view(msgs@)),
    ensures
        grids_view(grids@) == decompress_seq(messages_view(msgs@)),
{
    let ghost mv = messages_view(msgs@);
    let mut decompressor = GridDecompressor::new();
    let mut grids: Vec<Vec<Vec<i32>>> = Vec::new();
    let mut k: usize = 0;
    while k < msgs.len()
        invariant
            mv == messages_view(msgs@),
            decompressible(mv),
            k <= msgs.len(),
            grids_view(grids@) == decompress_seq(mv.take(k as int)),
            decompressor@ == decompress_state(mv.take(k as int)),
        decreases msgs.len() - k,
    {
        let ghost before = grids@;
        let ghost prefix = mv.take(k + 1);
        assert(prefix.drop_last() =~= mv.take(k as int));
        assert(prefix.last() == msgs@[k as int]@);
        proof { lemma_decompressible_prefix(mv, k + 1); }
        let out = decompressor.decompress(&msgs[k]);
        match out {
            Some(g) => {
                grids.push(g);
                assert forall|m: int| 0 <= m < grids@.len() implies #[trigger] grids_view(grids@)[m] == decompress_seq(prefix)[m] by {
                    if m < before.len() {
                        assert(grids@[m] == before[m]);
                    }
                }
                assert(grids_view(grids@) =~= decompress_seq(prefix));
            },
            None => {},
        }
        k = k + 1;
    }
    assert(mv.take(msgs.len() as int) =~= mv);
    grids
}

proof fn lemma_decompressible_prefix(ms: Seq<Option<UpdateView>>, n: int)
    requires
        decompressible(ms),
        0 <= n <= ms.len(),
    ensures
        decompressible(ms.take(n)),
    decreases ms.len() - n,
{
    if n < ms.len() {
        lemma_decompressible_prefix(ms, n + 1);
        assert(ms.take(n + 1).drop_last() =~= ms.take(n));
    } else {
        assert(ms.take(n) =~= ms);
    }
}

/// Each grid of the run fits the 32-bit indices, has the shape of the grid before it,
/// and quantises equal log-odds alike with it.
pub open spec fn consistent_run(gs: Seq<MeasuredView>) -> bool {
    &&& forall|k: int| 0 <= k < gs.len() ==> indices_fit(#[trigger] gs[k])
    &&& forall|k: int| 0 < k < gs.len() ==> same_shape(#[trigger] gs[k], gs[k - 1])
    &&& forall|k: int| 0 < k < gs.len() ==> quantized_alike(#[trigger] gs[k], gs[k - 1])
}

/// The quantised grids of a run.
pub open spec fn quantized_run(gs: Seq<MeasuredView>) -> Seq<GridView> {
    gs.map_values(|g: MeasuredView| quantized(g))
}

/// Decompressing what the compressor sends for a run of grids gives back the run,
/// quantised, whenever each grid has the shape of the one before it, quantises equal
/// log-odds alike with it, and fits the 32-bit indices.
pub proof fn lemma_round_trip(gs: Seq<MeasuredView>)
    requires
        consistent_run(gs),
    ensures
        decompressible(compress_seq(gs)),
        decompress_seq(compress_seq(gs)) == quantized_run(gs),
        decompress_state(compress_seq(gs)) == if gs.len() == 0 { None } else { Some(quantized(gs.last())) },
        gs.len() == 0 ==> compress_state(gs) is None,
        gs.len() > 0 ==> (compress_state(gs) matches Some((last, _)) && last == gs.last()),
    decreases gs.len(),
{
    if gs.len() > 0 {
        let p = gs.drop_last();
        let g = gs.last();
        assert forall|k: int| 0 <= k < p.len() implies indices_fit(#[trigger] p[k]) by {
            assert(p[k] == gs[k]);
        }
        assert forall|k: int| 0 < k < p.len() implies same_shape(#[trigger] p[k], p[k - 1]) by {
            assert(p[k] == gs[k]);
            assert(p[k - 1] == gs[k - 1]);
        }
        assert forall|k: int| 0 < k < p.len() implies quantized_alike(#[trigger] p[k], p[k - 1]) by {
            assert(p[k] == gs[k]);
            assert(p[k - 1] == gs[k - 1]);
        }
        lemma_round_trip(p);
        let ms = compress_seq(gs);
        let u = compress_step(compress_state(p), g).1;
        assert(ms == compress_seq(p).push(Some(u)));
        assert(ms.drop_last() =~= compress_seq(p));
        assert(ms.last() == Some(u));
        assert(indices_fit(gs[gs.len() - 1]));
        match compress_state(p) {
            None => {},
            Some((last, d)) => {
                if d < 9 {
                    assert(same_shape(gs[gs.len() - 1], gs[gs.len() - 2]));
                    assert(quantized_alike(gs[gs.len() - 1], gs[gs.len() - 2]));
                    assert(last == gs[gs.len() - 2]);
                    lemma_apply_changed_cells(g, last);
                }
            },
        }
        assert(decompress_seq(ms) =~= decompress_seq(compress_seq(p)).push(quantized(g)));
        assert(quantized_run(p).push(quantized(g)) =~= quantized_run(gs));
    }
}


/// The compressor sends a whole grid for the first grid and then for every tenth one,
/// and change lists for all the others.
pub proof fn lemma_keyframe_period(gs: Seq<MeasuredView>)
    ensures
        compress_seq(gs).len() == gs.len(),
        forall|k: int|
            0 <= k < gs.len() ==> ((#[trigger] compress_seq(gs)[k] matches Some(UpdateView::Keyframe(_)))
                <==> k % 10 == 0),
        gs.len() > 0 ==> (compress_state(gs) matches Some((_, d)) && d == (gs.len() - 1) % 10),
    decreases gs.len(),
{
    if gs.len() > 0 {
        let p = gs.drop_last();
        lemma_keyframe_period(p);
        let ms = compress_seq(gs);
        assert forall|k: int| 0 <= k < gs.len() implies ((#[trigger] ms[k] matches Some(UpdateView::Keyframe(_)))
            <==> k % 10 == 0) by {
            if k < p.len() {
                assert(ms[k] == compress_seq(p)[k]);
            }
        }
    }
}

} // verus!
