//! What goes to the persistent store, and in what portions.
//!
//! Two workers run beside the connections. One compares the canvas with the
//! copy of it that was stored last and stores the cells that differ; the
//! other stores the paints that were logged since it last ran. Each hands
//! its rows over in chunks of a bounded size. The functions here do the
//! work of one run; waiting and the store itself are the server's part.

use crate::actions::PaintAction;
use crate::board::{lemma_index_in_grid, row_of, Canvas, Cell, Model, ModelView};
use crate::state::AppState;
use vstd::arithmetic::div_mod::lemma_fundamental_div_mod_converse;
use vstd::prelude::*;

verus! {

/// Where chunk `k` of `len` items ends, with `size` items to a chunk.
pub open spec fn chunk_end(len: int, size: int, k: int) -> int {
    if (k + 1) * size <= len {
        (k + 1) * size
    } else {
        len
    }
}

/// Chunk `k` of `items`, with `size` items to a chunk.
pub open spec fn chunk_of<T>(items: Seq<T>, size: int, k: int) -> Seq<T> {
    items.subrange(k * size, chunk_end(items.len() as int, size, k))
}

/// Whether `chunks` are `items` cut into chunks of `size`: as few chunks as
/// hold all items, each the next `size` items in order, the last one
/// whatever is left.
pub open spec fn is_packing<T>(chunks: Seq<Seq<T>>, items: Seq<T>, size: int) -> bool {
    &&& (chunks.len() - 1) * size < items.len() <= chunks.len() * size
    &&& forall|k: int| 0 <= k < chunks.len() ==> #[trigger] chunks[k] == chunk_of(items, size, k)
}

/// The contents of each of a run of vectors.
pub open spec fn views<T>(chunks: Seq<Vec<T>>) -> Seq<Seq<T>> {
    Seq::new(chunks.len(), |k: int| chunks[k]@)
}

/// The rows of each of a run of vectors of rows.
pub open spec fn row_views(chunks: Seq<Vec<Model>>) -> Seq<Seq<ModelView>> {
    Seq::new(chunks.len(), |k: int| chunks[k].deep_view())
}

/// Nothing is cut into no chunks.
pub proof fn lemma_packing_of_nothing<T>(chunks: Seq<Seq<T>>, size: int)
    requires
        size >= 1,
        is_packing(chunks, Seq::<T>::empty(), size),
    ensures
        chunks.len() == 0,
{
}

/// Every chunk of a packing holds at least one item and at most `size`.
pub proof fn lemma_chunks_are_bounded<T>(chunks: Seq<Seq<T>>, items: Seq<T>, size: int, k: int)
    requires
        size >= 1,
        is_packing(chunks, items, size),
        0 <= k < chunks.len(),
    ensures
        1 <= chunks[k].len() <= size,
{
    assert((k + 1) * size == k * size + size) by (nonlinear_arith);
    assert(k * size <= (chunks.len() - 1) * size) by (nonlinear_arith)
        requires
            k <= chunks.len() - 1,
            size >= 1,
    ;
}

/// The `size` items of `items` from place `k * size` on.
pub open spec fn full_chunk<T>(items: Seq<T>, size: int, k: int) -> Seq<T> {
    items.subrange(k * size, k * size + size)
}

/// Cuts `items` into chunks of `size`, keeping their order.
pub fn pack<T>(items: Vec<T>, size: usize) -> (chunks: Vec<Vec<T>>)
    requires
        size >= 1,
    ensures
        is_packing(views(chunks@), items@, size as int),
{
    let ghost orig = items@;
    let ghost n = orig.len() as int;
    let mut src: Vec<T> = items;
    let mut rev: Vec<T> = Vec::new();
    while src.len() > 0
        invariant
            n == orig.len(),
            src@.len() + rev@.len() == n,
            src@ == orig.take(src@.len() as int),
            forall|j: int| 0 <= j < rev@.len() ==> rev@[j] == orig[n - 1 - j],
        decreases src@.len(),
    {
        match src.pop() {
            Some(item) => {
                rev.push(item);
            },
            None => {},
        }
    }
    let mut out: Vec<Vec<T>> = Vec::new();
    let mut current: Vec<T> = Vec::new();
    let ghost mut base: int = 0;
    while rev.len() > 0
        invariant
            size >= 1,
            n == orig.len(),
            rev@.len() <= n,
            forall|j: int| 0 <= j < rev@.len() ==> rev@[j] == orig[n - 1 - j],
            base == out@.len() * size,
            base + current@.len() == n - rev@.len(),
            current@.len() < size,
            current@ == orig.subrange(base, n - rev@.len()),
            forall|k: int|
                0 <= k < out@.len() ==> (#[trigger] out@[k])@ == full_chunk(orig, size as int, k),
        decreases rev@.len(),
    {
        match rev.pop() {
            Some(item) => {
                current.push(item);
            },
            None => {},
        }
        if current.len() == size {
            let ghost count = out@.len() as int;
            out.push(current);
            current = Vec::new();
            proof {
                assert((count + 1) * size == count * size + size) by (nonlinear_arith);
                base = base + size;
            }
        }
    }
    let ghost q = out@.len() as int;
    if current.len() > 0 {
        out.push(current);
    }
    proof {
        let chunks = views(out@);
        assert((q + 1) * size == q * size + size) by (nonlinear_arith);
        assert((q - 1) * size == q * size - size) by (nonlinear_arith);
        assert forall|k: int| 0 <= k < chunks.len() implies #[trigger] chunks[k] == chunk_of(
            orig,
            size as int,
            k,
        ) by {
            assert((k + 1) * size == k * size + size) by (nonlinear_arith);
            if k < q {
                assert((k + 1) * size <= q * size) by (nonlinear_arith)
                    requires
                        k + 1 <= q,
                        size >= 1,
                ;
            }
        }
    }
    out
}

/// Whether a cell differs from its stored copy: its time of painting is
/// another.
pub open spec fn stale(now: Cell, stored: Cell) -> bool {
    now.time != stored.time
}

/// The row that stores cell `i` of `board`, on a canvas with `height` rows.
pub open spec fn row_at(board: Seq<Cell>, height: int, i: int) -> ModelView {
    row_of(i / height, i % height, board[i])
}

/// The rows to store for the first `n` cells of `board`, given the copy
/// `stored` of what the store holds: one row for each cell that differs
/// from its copy, in the order of the cells. `height` is the number of rows
/// of the canvas, from which a cell's coordinate follows.
pub open spec fn changed_rows(board: Seq<Cell>, stored: Seq<Cell>, height: int, n: int) -> Seq<
    ModelView,
>
    decreases n,
{
    if n <= 0 {
        Seq::empty()
    } else {
        let rest = changed_rows(board, stored, height, n - 1);
        if stale(board[n - 1], stored[n - 1]) {
            rest.push(row_at(board, height, n - 1))
        } else {
            rest
        }
    }
}

/// The copy after a run: each cell that differed is now as on the canvas.
pub open spec fn refreshed(board: Seq<Cell>, stored: Seq<Cell>) -> Seq<Cell> {
    Seq::new(
        board.len(),
        |i: int|
            if stale(board[i], stored[i]) {
                board[i]
            } else {
                stored[i]
            },
    )
}

/// A cell that differs from its copy has its row among the rows to store.
pub proof fn lemma_changed_cell_is_listed(
    board: Seq<Cell>,
    stored: Seq<Cell>,
    height: int,
    n: int,
    i: int,
)
    requires
        0 <= i < n,
        stale(board[i], stored[i]),
    ensures
        changed_rows(board, stored, height, n).contains(row_at(board, height, i)),
    decreases n,
{
    let rest = changed_rows(board, stored, height, n - 1);
    let rows = changed_rows(board, stored, height, n);
    if i == n - 1 {
        assert(rows[rest.len() as int] == row_at(board, height, i));
    } else {
        lemma_changed_cell_is_listed(board, stored, height, n - 1, i);
        let k = choose|k: int| 0 <= k < rest.len() && rest[k] == row_at(board, height, i);
        assert(rows[k] == rest[k]);
    }
}

/// Every row among the rows to store is the row of a cell that differs
/// from its copy.
pub proof fn lemma_listed_row_is_changed(
    board: Seq<Cell>,
    stored: Seq<Cell>,
    height: int,
    n: int,
    k: int,
)
    requires
        0 <= k < changed_rows(board, stored, height, n).len(),
    ensures
        exists|i: int|
            0 <= i < n && stale(board[i], stored[i]) && changed_rows(board, stored, height, n)[k]
                == #[trigger] row_at(board, height, i),
    decreases n,
{
    if k < changed_rows(board, stored, height, n - 1).len() {
        lemma_listed_row_is_changed(board, stored, height, n - 1, k);
    }
}

/// Right after a run nothing differs: a second run with no paint in
/// between has no rows to store.
pub proof fn lemma_second_run_stores_nothing(
    board: Seq<Cell>,
    stored: Seq<Cell>,
    height: int,
    n: int,
)
    requires
        n <= board.len(),
    ensures
        changed_rows(board, refreshed(board, stored), height, n) == Seq::<ModelView>::empty(),
    decreases n,
{
    if n > 0 {
        lemma_second_run_stores_nothing(board, stored, height, n - 1);
    }
}

/// Two runs with no paint in between: the second hands nothing to the
/// store.
pub proof fn lemma_second_run_has_no_chunks(
    board: Seq<Cell>,
    stored: Seq<Cell>,
    height: int,
    chunks: Seq<Seq<ModelView>>,
    size: int,
)
    requires
        size >= 1,
        is_packing(
            chunks,
            changed_rows(board, refreshed(board, stored), height, board.len() as int),
            size,
        ),
    ensures
        chunks.len() == 0,
{
    lemma_second_run_stores_nothing(board, stored, height, board.len() as int);
    lemma_packing_of_nothing(chunks, size);
}

/// One run of the worker that stores the canvas: the rows for the cells
/// that differ from the copy `old_board`, in lexicographic order of
/// `(x, y)` and cut into chunks of the size that the settings name. The
/// copy is brought up to date.
pub fn save_board(state: &AppState, old_board: &mut Canvas) -> (tasks: Vec<Vec<Model>>)
    requires
        state.wf(),
        old(old_board).wf(),
        old(old_board).spec_width() == state.board.spec_width(),
        old(old_board).spec_height() == state.board.spec_height(),
    ensures
        final(old_board).wf(),
        final(old_board).spec_width() == old(old_board).spec_width(),
        final(old_board).spec_height() == old(old_board).spec_height(),
        final(old_board)@ == refreshed(state@.board, old(old_board)@),
        is_packing(
            row_views(tasks@),
            changed_rows(
                state@.board,
                old(old_board)@,
                state.config.height as int,
                state@.board.len() as int,
            ),
            state.config.chunk_size as int,
        ),
{
    let width: u16 = state.board.width();
    let height: u16 = state.board.height();
    let ghost board = state.board@;
    let ghost stored = old_board@;
    let ghost h = height as int;
    let mut rows: Vec<Model> = Vec::new();
    let mut x: u16 = 0;
    while x < width
        invariant
            x <= width,
            state.wf(),
            width == state.board.spec_width(),
            height == state.board.spec_height(),
            h == height,
            board == state.board@,
            old_board.wf(),
            old_board.spec_width() == width,
            old_board.spec_height() == height,
            stored.len() == board.len(),
            rows.deep_view() == changed_rows(board, stored, h, x * h),
            forall|j: int| 0 <= j < x * h ==> old_board@[j] == refreshed(board, stored)[j],
            forall|j: int| x * h <= j < board.len() ==> old_board@[j] == stored[j],
        decreases width - x,
    {
        let mut y: u16 = 0;
        while y < height
            invariant
                x < width,
                y <= height,
                state.wf(),
                width == state.board.spec_width(),
                height == state.board.spec_height(),
                h == height,
                board == state.board@,
                old_board.wf(),
                old_board.spec_width() == width,
                old_board.spec_height() == height,
                stored.len() == board.len(),
                rows.deep_view() == changed_rows(board, stored, h, x * h + y),
                forall|j: int|
                    0 <= j < x * h + y ==> old_board@[j] == refreshed(board, stored)[j],
                forall|j: int| x * h + y <= j < board.len() ==> old_board@[j] == stored[j],
            decreases height - y,
        {
            let ghost i = x * h + y;
            proof {
                lemma_index_in_grid(x as int, y as int, width as int, h);
                lemma_fundamental_div_mod_converse(i, h, x as int, y as int);
            }
            let now: Cell = state.board.get(x, y);
            let then: Cell = old_board.get(x, y);
            if !now.time.same(&then.time) {
                let row: Model = state.board.row(x, y);
                rows.push(row);
                old_board.put(x, y, now);
            }
            y = y + 1;
        }
        assert((x + 1) * h == x * h + h) by (nonlinear_arith);
        x = x + 1;
    }
    let ghost listed = rows.deep_view();
    let ghost plain = rows@;
    let tasks: Vec<Vec<Model>> = pack(rows, state.config.chunk_size);
    proof {
        let size = state.config.chunk_size as int;
        assert forall|k: int| 0 <= k < tasks@.len() implies #[trigger] row_views(tasks@)[k]
            == chunk_of(listed, size, k) by {
            assert(views(tasks@)[k] == chunk_of(plain, size, k));
            assert((k + 1) * size == k * size + size) by (nonlinear_arith);
            assert(k * size <= (tasks@.len() - 1) * size) by (nonlinear_arith)
                requires
                    k <= tasks@.len() - 1,
                    size >= 1,
            ;
        }
    }
    tasks
}

/// One run of the worker that stores the paint log: every logged paint,
/// oldest first, cut into chunks of the size that the settings name. The
/// log is left empty.
pub fn save_actions(state: &mut AppState) -> (tasks: Vec<Vec<PaintAction>>)
    requires
        old(state).wf(),
    ensures
        final(state).wf(),
        final(state).same_frame(old(state)),
        final(state)@.board == old(state)@.board,
        final(state)@.pace == old(state)@.pace,
        final(state)@.log == Seq::<PaintAction>::empty(),
        is_packing(views(tasks@), old(state)@.log, old(state).config.chunk_size as int),
{
    let actions: Vec<PaintAction> = state.actions.drain();
    pack(actions, state.config.chunk_size)
}

} // verus!
