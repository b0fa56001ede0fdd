//! What a printed page is made of: text cells, tables of them, and the
//! space between.
//!
//! A layout says what stands where and in which style. It holds no
//! measurements of a font and no file format: a renderer turns it into a
//! document.

use vstd::prelude::*;

verus! {

/// Space kept free around the text of a cell, in millimetres.
#[derive(Clone, Copy, Debug, PartialEq, Eq)]
pub struct Padding {
    /// Above and below the text.
    pub vertical: u8,
    /// Left and right of the text.
    pub horizontal: u8,
}

/// The padding of a line of text that stands by itself or in a table
/// without borders.
pub open spec fn text_padding() -> Padding {
    Padding { vertical: 1, horizontal: 0 }
}

/// The padding of a cell in a table with borders.
pub open spec fn frame_padding() -> Padding {
    Padding { vertical: 2, horizontal: 2 }
}

/// One piece of text with its style.
#[derive(Clone, Debug, PartialEq, Eq)]
pub struct Cell {
    pub text: String,
    /// Set in the bold face.
    pub bold: bool,
    /// Flushed right; left where this is not set.
    pub right: bool,
    pub padding: Option<Padding>,
}

/// Model of a [`Cell`].
pub struct CellView {
    pub text: Seq<char>,
    pub bold: bool,
    pub right: bool,
    pub padding: Option<Padding>,
}

impl View for Cell {
    type V = CellView;

    open spec fn view(&self) -> CellView {
        CellView { text: self.text@, bold: self.bold, right: self.right, padding: self.padding }
    }
}

impl CellView {
    /// `text` in the regular face, flushed left, without padding.
    pub open spec fn plain(text: Seq<char>) -> CellView {
        CellView { text, bold: false, right: false, padding: None }
    }

    /// `text` in the bold face, flushed left, without padding.
    pub open spec fn heading(text: Seq<char>) -> CellView {
        CellView { text, bold: true, right: false, padding: None }
    }

    /// A cell without text.
    pub open spec fn blank() -> CellView {
        CellView::plain(Seq::empty())
    }

    /// The same cell, flushed right.
    pub open spec fn to_right(self) -> CellView {
        CellView { text: self.text, bold: self.bold, right: true, padding: self.padding }
    }

    /// The same cell with `padding` around its text.
    pub open spec fn with_padding(self, padding: Padding) -> CellView {
        CellView { text: self.text, bold: self.bold, right: self.right, padding: Some(padding) }
    }
}

impl Padding {
    /// See [`text_padding`].
    pub fn text() -> (padding: Padding)
        ensures
            padding == text_padding(),
    {
        Padding { vertical: 1, horizontal: 0 }
    }

    /// See [`frame_padding`].
    pub fn frame() -> (padding: Padding)
        ensures
            padding == frame_padding(),
    {
        Padding { vertical: 2, horizontal: 2 }
    }
}

impl Cell {
    /// `text` in the regular face, flushed left, without padding.
    pub fn plain(text: String) -> (cell: Cell)
        ensures
            cell@ == CellView::plain(text@),
    {
        Cell { text, bold: false, right: false, padding: None }
    }

    /// `text` in the bold face, flushed left, without padding.
    pub fn heading(text: String) -> (cell: Cell)
        ensures
            cell@ == CellView::heading(text@),
    {
        Cell { text, bold: true, right: false, padding: None }
    }

    /// A cell without text.
    pub fn blank() -> (cell: Cell)
        ensures
            cell@ == CellView::blank(),
    {
        Cell::plain(String::new())
    }

    /// The same cell, flushed right.
    pub fn to_right(self) -> (cell: Cell)
        ensures
            cell@ == self@.to_right(),
    {
        Cell { text: self.text, bold: self.bold, right: true, padding: self.padding }
    }

    /// The same cell with `padding` around its text.
    pub fn with_padding(self, padding: Padding) -> (cell: Cell)
        ensures
            cell@ == self@.with_padding(padding),
    {
        Cell { text: self.text, bold: self.bold, right: self.right, padding: Some(padding) }
    }
}

/// The models of a row of cells.
pub open spec fn row_view(cells: Seq<Cell>) -> Seq<CellView> {
    cells.map_values(|cell: Cell| cell@)
}

/// Rows of cells in columns.
#[derive(Clone, Debug, PartialEq, Eq)]
pub struct Table {
    /// One weight for each column: its share of the table's width.
    pub weights: Vec<usize>,
    /// Whether lines are drawn around the cells.
    pub framed: bool,
    pub rows: Vec<Vec<Cell>>,
}

/// Model of a [`Table`].
pub struct TableView {
    pub weights: Seq<usize>,
    pub framed: bool,
    pub rows: Seq<Seq<CellView>>,
}

impl View for Table {
    type V = TableView;

    open spec fn view(&self) -> TableView {
        TableView {
            weights: self.weights@,
            framed: self.framed,
            rows: self.rows@.map_values(|row: Vec<Cell>| row_view(row@)),
        }
    }
}

impl TableView {
    /// Every row has one cell for each column.
    pub open spec fn well_formed(self) -> bool {
        forall|i: int| 0 <= i < self.rows.len() ==> (#[trigger] self.rows[i]).len() == self.weights.len()
    }

    /// The table with `row` below its rows.
    pub open spec fn with_row(self, row: Seq<CellView>) -> TableView {
        TableView { weights: self.weights, framed: self.framed, rows: self.rows.push(row) }
    }
}

impl Table {
    /// A table without rows.
    pub fn new(weights: Vec<usize>, framed: bool) -> (table: Table)
        ensures
            table@ == (TableView { weights: weights@, framed, rows: Seq::empty() }),
            table@.well_formed(),
    {
        let table = Table { weights, framed, rows: Vec::new() };
        assert(table@.rows =~= Seq::empty());
        table
    }

    /// Puts `row` below the rows of the table, if it has one cell for each
    /// column; leaves the table as it is and returns `false` if not.
    pub fn push_row(&mut self, row: Vec<Cell>) -> (fits: bool)
        ensures
            fits == (row.len() == old(self).weights.len()),
            fits ==> final(self)@ == old(self)@.with_row(row_view(row@)),
            !fits ==> final(self)@ == old(self)@,
            old(self)@.well_formed() ==> final(self)@.well_formed(),
    {
        if row.len() != self.weights.len() {
            return false;
        }
        self.rows.push(row);
        assert(self@.rows =~= old(self)@.rows.push(row_view(row@)));
        true
    }
}

/// One thing on the page, as wide as the page.
#[derive(Clone, Debug, PartialEq, Eq)]
pub enum Block {
    /// Empty space, counted in half lines of text.
    Break { half_lines: u8 },
    /// A line of text.
    Paragraph(Cell),
    Table(Table),
}

/// Model of a [`Block`].
pub enum BlockView {
    Break { half_lines: u8 },
    Paragraph(CellView),
    Table(TableView),
}

impl View for Block {
    type V = BlockView;

    open spec fn view(&self) -> BlockView {
        match self {
            Block::Break { half_lines } => BlockView::Break { half_lines: *half_lines },
            Block::Paragraph(cell) => BlockView::Paragraph(cell@),
            Block::Table(table) => BlockView::Table(table@),
        }
    }
}

/// A document to print: its blocks from top to bottom.
#[derive(Clone, Debug, PartialEq, Eq)]
pub struct PrintLayout {
    pub title: String,
    /// The page's margin on all four sides, in millimetres.
    pub margin: u8,
    pub blocks: Vec<Block>,
}

/// Model of a [`PrintLayout`].
pub struct PrintLayoutView {
    pub title: Seq<char>,
    pub margin: u8,
    pub blocks: Seq<BlockView>,
}

impl View for PrintLayout {
    type V = PrintLayoutView;

    open spec fn view(&self) -> PrintLayoutView {
        PrintLayoutView {
            title: self.title@,
            margin: self.margin,
            blocks: self.blocks@.map_values(|block: Block| block@),
        }
    }
}

impl PrintLayoutView {
    /// Every table of the document is well formed.
    pub open spec fn well_formed(self) -> bool {
        forall|i: int|
            0 <= i < self.blocks.len() ==> (#[trigger] self.blocks[i] matches BlockView::Table(table)
                ==> table.well_formed())
    }
}

} // verus!
