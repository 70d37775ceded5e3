//! The canvas: one cell for every coordinate of a fixed grid.
//!
//! Cells are held column by column, so that walking the store from the first
//! cell to the last visits the coordinates in lexicographic order of
//! `(x, y)`.

use crate::pixel::{color_hex, color_to_hex, hex_rgb, is_hex_color, parse_color};
use crate::time::Timestamp;
use vstd::prelude::*;

verus! {

/// What the canvas knows of one coordinate: its colour, who painted it last
/// (`-1` where nobody did) and when.
#[derive(Clone, Copy, Debug, PartialEq, Eq)]
pub struct Cell {
    pub color: (u8, u8, u8),
    pub uid: i32,
    pub time: Timestamp,
}

impl Cell {
    /// A cell that no user has painted yet.
    pub fn blank(color: (u8, u8, u8)) -> (cell: Cell)
        ensures
            cell == (Cell { color, uid: -1i32, time: Timestamp { secs: 0, nanos: 0 } }),
    {
        Cell { color, uid: -1, time: Timestamp { secs: 0, nanos: 0 } }
    }
}

/// One row of the stored board: a coordinate, the colour as `#RRGGBB`, the
/// painter and the time.
#[derive(Clone, Debug, PartialEq, Eq)]
pub struct Model {
    pub x: i32,
    pub y: i32,
    pub color: String,
    pub uid: i32,
    pub time: Timestamp,
}

/// A stored row with its colour text as a sequence of characters.
pub struct ModelView {
    pub x: i32,
    pub y: i32,
    pub color: Seq<char>,
    pub uid: i32,
    pub time: Timestamp,
}

impl View for Model {
    type V = ModelView;

    open spec fn view(&self) -> ModelView {
        ModelView { x: self.x, y: self.y, color: self.color@, uid: self.uid, time: self.time }
    }
}

impl DeepView for Model {
    type V = ModelView;

    open spec fn deep_view(&self) -> ModelView {
        self@
    }
}

/// The row that stores `cell` at `(x, y)`.
pub open spec fn row_of(x: int, y: int, cell: Cell) -> ModelView {
    ModelView {
        x: x as i32,
        y: y as i32,
        color: color_hex(cell.color),
        uid: cell.uid,
        time: cell.time,
    }
}

/// The cell that a stored row describes, where its colour can be read.
pub open spec fn row_cell(row: ModelView) -> Option<Cell> {
    if is_hex_color(row.color) {
        Some(Cell { color: hex_rgb(row.color), uid: row.uid, time: row.time })
    } else {
        None
    }
}

/// Where a stored row belongs in a grid of `w` by `h` cells, if anywhere.
pub open spec fn row_index(row: ModelView, w: int, h: int) -> Option<int> {
    if 0 <= row.x < w && 0 <= row.y < h {
        Some(row.x * h + row.y)
    } else {
        None
    }
}

/// The cells after one stored row was taken in: a row for a coordinate of
/// the grid whose colour can be read replaces the cell there, any other row
/// changes nothing.
pub open spec fn place_row(cells: Seq<Cell>, w: int, h: int, row: ModelView) -> Seq<Cell> {
    match (row_index(row, w, h), row_cell(row)) {
        (Some(i), Some(cell)) => cells.update(i, cell),
        _ => cells,
    }
}

/// The cells after the stored rows were taken in, one after the other.
pub open spec fn place_rows(cells: Seq<Cell>, w: int, h: int, rows: Seq<ModelView>) -> Seq<Cell>
    decreases rows.len(),
{
    if rows.len() == 0 {
        cells
    } else {
        place_row(place_rows(cells, w, h, rows.drop_last()), w, h, rows.last())
    }
}

/// Whether a stored row says what the cell at place `i` of a grid of `w` by
/// `h` cells is.
pub open spec fn places_at(row: ModelView, w: int, h: int, i: int) -> bool {
    row_index(row, w, h) == Some(i) && row_cell(row) is Some
}

/// Taking stored rows in leaves the number of cells as it is.
pub proof fn lemma_place_rows_len(cells: Seq<Cell>, w: int, h: int, rows: Seq<ModelView>)
    requires
        cells.len() == w * h,
    ensures
        place_rows(cells, w, h, rows).len() == cells.len(),
    decreases rows.len(),
{
    if rows.len() > 0 {
        lemma_place_rows_len(cells, w, h, rows.drop_last());
        let last = rows.last();
        if row_index(last, w, h) is Some {
            lemma_index_in_grid(last.x as int, last.y as int, w, h);
        }
    }
}

/// A cell that no stored row speaks of stays as it was.
pub proof fn lemma_untouched_cell_stays(
    cells: Seq<Cell>,
    w: int,
    h: int,
    rows: Seq<ModelView>,
    i: int,
)
    requires
        cells.len() == w * h,
        0 <= i < cells.len(),
        forall|k: int| 0 <= k < rows.len() ==> !places_at(#[trigger] rows[k], w, h, i),
    ensures
        place_rows(cells, w, h, rows)[i] == cells[i],
    decreases rows.len(),
{
    if rows.len() > 0 {
        let before = rows.drop_last();
        lemma_untouched_cell_stays(cells, w, h, before, i);
        lemma_place_rows_len(cells, w, h, before);
        let last = rows.last();
        if row_index(last, w, h) is Some {
            lemma_index_in_grid(last.x as int, last.y as int, w, h);
        }
    }
}

/// Of the stored rows that speak of a cell, the last one says what the cell
/// is.
pub proof fn lemma_last_row_wins(
    cells: Seq<Cell>,
    w: int,
    h: int,
    rows: Seq<ModelView>,
    i: int,
    k: int,
)
    requires
        cells.len() == w * h,
        0 <= i < cells.len(),
        0 <= k < rows.len(),
        places_at(rows[k], w, h, i),
        forall|j: int| k < j < rows.len() ==> !places_at(#[trigger] rows[j], w, h, i),
    ensures
        place_rows(cells, w, h, rows)[i] == row_cell(rows[k])->0,
    decreases rows.len(),
{
    let before = rows.drop_last();
    let last = rows.last();
    lemma_place_rows_len(cells, w, h, before);
    if k < rows.len() - 1 {
        lemma_last_row_wins(cells, w, h, before, i, k);
        if row_index(last, w, h) is Some {
            lemma_index_in_grid(last.x as int, last.y as int, w, h);
        }
    }
}

/// The raw image of a sequence of cells: three bytes per cell, red, green,
/// blue, in the order of the cells.
pub open spec fn rgb_bytes(cells: Seq<Cell>) -> Seq<u8> {
    Seq::new(
        3 * cells.len(),
        |i: int|
            if i % 3 == 0 {
                cells[i / 3].color.0
            } else if i % 3 == 1 {
                cells[i / 3].color.1
            } else {
                cells[i / 3].color.2
            },
    )
}

/// In the raw image the cell at `(x, y)` of a grid with `h` rows stands at
/// byte `3 * (x * h + y)`, red first.
pub proof fn lemma_raw_image_layout(cells: Seq<Cell>, w: int, h: int, x: int, y: int)
    requires
        cells.len() == w * h,
        0 <= x < w,
        0 <= y < h,
    ensures
        rgb_bytes(cells).len() == 3 * w * h,
        rgb_bytes(cells)[3 * (x * h + y)] == cells[x * h + y].color.0,
        rgb_bytes(cells)[3 * (x * h + y) + 1] == cells[x * h + y].color.1,
        rgb_bytes(cells)[3 * (x * h + y) + 2] == cells[x * h + y].color.2,
{
    lemma_index_in_grid(x, y, w, h);
    assert(3 * (w * h) == 3 * w * h) by (nonlinear_arith);
}

/// A coordinate inside a grid has its place among the grid's cells.
pub proof fn lemma_index_in_grid(x: int, y: int, w: int, h: int)
    requires
        0 <= x < w,
        0 <= y < h,
    ensures
        0 <= x * h + y < w * h,
{
    assert(0 <= x * h && x * h + h <= w * h) by (nonlinear_arith)
        requires
            0 <= x < w,
            0 < h,
    ;
}

/// Two coordinates of a grid that share a place are the same coordinate.
pub proof fn lemma_index_injective(x1: int, y1: int, x2: int, y2: int, h: int)
    requires
        0 <= y1 < h,
        0 <= y2 < h,
        x1 * h + y1 == x2 * h + y2,
    ensures
        x1 == x2,
        y1 == y2,
{
    assert(x1 == x2) by (nonlinear_arith)
        requires
            0 <= y1 < h,
            0 <= y2 < h,
            x1 * h + y1 == x2 * h + y2,
    ;
}

/// The grid of cells.
pub struct Canvas {
    width: u16,
    height: u16,
    cells: Vec<Cell>,
}

impl View for Canvas {
    type V = Seq<Cell>;

    /// The cells in lexicographic order of `(x, y)`.
    closed spec fn view(&self) -> Seq<Cell> {
        self.cells@
    }
}

impl Canvas {
    /// The number of columns.
    pub closed spec fn spec_width(&self) -> u16 {
        self.width
    }

    /// The number of rows.
    pub closed spec fn spec_height(&self) -> u16 {
        self.height
    }

    /// The canvas holds exactly one cell for each coordinate.
    pub open spec fn wf(&self) -> bool {
        self@.len() == self.spec_width() * self.spec_height()
    }

    /// The cell at `(x, y)`.
    pub open spec fn at(&self, x: int, y: int) -> Cell {
        self@[x * self.spec_height() + y]
    }

    /// The number of columns.
    #[verifier::when_used_as_spec(spec_width)]
    pub fn width(&self) -> (w: u16)
        ensures
            w == self.spec_width(),
    {
        self.width
    }

    /// The number of rows.
    #[verifier::when_used_as_spec(spec_height)]
    pub fn height(&self) -> (h: u16)
        ensures
            h == self.spec_height(),
    {
        self.height
    }

    /// Whether the canvas holds exactly one cell for each coordinate.
    pub fn check(&self) -> (whole: bool)
        ensures
            whole == self.wf(),
    {
        assert(self.width * self.height <= 65535 * 65535) by (nonlinear_arith)
            requires
                self.width <= 65535,
                self.height <= 65535,
        ;
        self.cells.len() as u64 == self.width as u64 * self.height as u64
    }

    /// A canvas of `width` by `height` cells, each equal to `fill`.
    pub fn new(width: u16, height: u16, fill: Cell) -> (canvas: Canvas)
        ensures
            canvas.wf(),
            canvas.spec_width() == width,
            canvas.spec_height() == height,
            canvas@ == Seq::new((width * height) as nat, |i: int| fill),
    {
        assert(width * height <= 65535 * 65535) by (nonlinear_arith)
            requires
                width <= 65535,
                height <= 65535,
        ;
        let total: u64 = width as u64 * height as u64;
        let mut cells: Vec<Cell> = Vec::new();
        let mut i: u64 = 0;
        while i < total
            invariant
                i <= total,
                cells@.len() == i,
                forall|j: int| 0 <= j < i ==> cells@[j] == fill,
            decreases total - i,
        {
            cells.push(fill);
            i = i + 1;
        }
        Canvas { width, height, cells }
    }

    /// The canvas that the stored rows describe: every cell starts as `fill`,
    /// then the rows are taken in one after the other, so that of two rows
    /// for one coordinate the later one stays. A row outside the grid, or
    /// one whose colour cannot be read, is passed over.
    pub fn load(width: u16, height: u16, fill: Cell, rows: &Vec<Model>) -> (canvas: Canvas)
        ensures
            canvas.wf(),
            canvas.spec_width() == width,
            canvas.spec_height() == height,
            canvas@ == place_rows(
                Seq::new((width * height) as nat, |i: int| fill),
                width as int,
                height as int,
                rows.deep_view(),
            ),
    {
        let mut canvas = Canvas::new(width, height, fill);
        let ghost start = canvas@;
        let mut k: usize = 0;
        while k < rows.len()
            invariant
                k <= rows.len(),
                canvas.wf(),
                canvas.spec_width() == width,
                canvas.spec_height() == height,
                canvas@ == place_rows(
                    start,
                    width as int,
                    height as int,
                    rows.deep_view().take(k as int),
                ),
            decreases rows.len() - k,
        {
            let row: &Model = &rows[k];
            proof {
                let all = rows.deep_view();
                assert(all.take(k + 1).drop_last() =~= all.take(k as int));
            }
            if row.x >= 0 && row.x < width as i32 && row.y >= 0 && row.y < height as i32 {
                match parse_color(row.color.as_str()) {
                    Some(color) => {
                        canvas.put(
                            row.x as u16,
                            row.y as u16,
                            Cell { color, uid: row.uid, time: row.time },
                        );
                    },
                    None => {},
                }
            }
            k = k + 1;
        }
        assert(rows.deep_view().take(rows.len() as int) =~= rows.deep_view());
        canvas
    }

    fn index(&self, x: u16, y: u16) -> (i: usize)
        requires
            self.wf(),
            x < self.spec_width(),
            y < self.spec_height(),
        ensures
            i == x * self.spec_height() + y,
            i < self@.len(),
    {
        proof {
            lemma_index_in_grid(x as int, y as int, self.width as int, self.height as int);
            assert(self.cells.len() == self.cells@.len());
        }
        x as usize * self.height as usize + y as usize
    }

    /// The cell at `(x, y)`.
    pub fn get(&self, x: u16, y: u16) -> (cell: Cell)
        requires
            self.wf(),
            x < self.spec_width(),
            y < self.spec_height(),
        ensures
            cell == self.at(x as int, y as int),
    {
        let i: usize = self.index(x, y);
        self.cells[i]
    }

    /// Replaces the cell at `(x, y)`; every other cell stays.
    pub fn put(&mut self, x: u16, y: u16, cell: Cell)
        requires
            old(self).wf(),
            x < old(self).spec_width(),
            y < old(self).spec_height(),
        ensures
            final(self).wf(),
            final(self).spec_width() == old(self).spec_width(),
            final(self).spec_height() == old(self).spec_height(),
            final(self)@ == old(self)@.update(x * old(self).spec_height() + y, cell),
    {
        let i: usize = self.index(x, y);
        self.cells.set(i, cell);
    }

    /// Replaces the cell at `(x, y)` and reports the colour it had and the
    /// colour it has now.
    pub fn compare_and_set(&mut self, x: u16, y: u16, cell: Cell) -> (colors: (
        (u8, u8, u8),
        (u8, u8, u8),
    ))
        requires
            old(self).wf(),
            x < old(self).spec_width(),
            y < old(self).spec_height(),
        ensures
            final(self).wf(),
            final(self).spec_width() == old(self).spec_width(),
            final(self).spec_height() == old(self).spec_height(),
            final(self)@ == old(self)@.update(x * old(self).spec_height() + y, cell),
            colors.0 == old(self).at(x as int, y as int).color,
            colors.1 == cell.color,
    {
        let before: Cell = self.get(x, y);
        self.put(x, y, cell);
        (before.color, cell.color)
    }

    /// The raw image: three bytes per cell, in lexicographic order of
    /// `(x, y)`.
    pub fn rgb(&self) -> (bytes: Vec<u8>)
        ensures
            bytes@ == rgb_bytes(self@),
    {
        let mut bytes: Vec<u8> = Vec::new();
        let mut i: usize = 0;
        while i < self.cells.len()
            invariant
                i <= self.cells@.len(),
                bytes@ == rgb_bytes(self.cells@.take(i as int)),
            decreases self.cells@.len() - i,
        {
            let color: (u8, u8, u8) = self.cells[i].color;
            bytes.push(color.0);
            bytes.push(color.1);
            bytes.push(color.2);
            i = i + 1;
        }
        bytes
    }

    /// The stored row for the cell at `(x, y)`.
    pub fn row(&self, x: u16, y: u16) -> (row: Model)
        requires
            self.wf(),
            x < self.spec_width(),
            y < self.spec_height(),
        ensures
            row@ == row_of(x as int, y as int, self.at(x as int, y as int)),
    {
        let cell: Cell = self.get(x, y);
        Model {
            x: x as i32,
            y: y as i32,
            color: color_to_hex(cell.color),
            uid: cell.uid,
            time: cell.time,
        }
    }
}

impl Clone for Canvas {
    /// A canvas with the same cells.
    fn clone(&self) -> (copy: Canvas)
        ensures
            copy@ == self@,
            copy.spec_width() == self.spec_width(),
            copy.spec_height() == self.spec_height(),
    {
        let mut cells: Vec<Cell> = Vec::new();
        let mut i: usize = 0;
        while i < self.cells.len()
            invariant
                i <= self.cells@.len(),
                cells@ == self.cells@.take(i as int),
            decreases self.cells@.len() - i,
        {
            cells.push(self.cells[i]);
            i = i + 1;
        }
        Canvas { width: self.width, height: self.height, cells }
    }
}

} // verus!
