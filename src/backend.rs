use vstd::prelude::*;

use crate::cell::{cell_data, encoded, Cell, EncodedCell, EncodedCellView, DEFAULT_BG, DEFAULT_FG};

verus! {

/// A cell position: column `x`, row `y`.
#[derive(Clone, Copy, Debug, PartialEq, Eq, Structural)]
pub struct Position {
    pub x: u16,
    pub y: u16,
}

/// The region a text-UI framework asks a backend to clear.
#[derive(Clone, Copy, Debug, PartialEq, Eq, Structural)]
pub enum ClearType {
    All,
    AfterCursor,
    BeforeCursor,
    CurrentLine,
    UntilNewLine,
}

/// An error raised by the backend's own decisions.
#[derive(Debug)]
pub enum Error {
    /// The operation is outside what this backend supports; the message says which.
    Other(String),
}

/// The message of the error that `clear_region` gives for a region other than
/// the whole screen.
pub open spec fn unsupported_region_message() -> Seq<char> {
    "unsupported clear region type"@
}

/// The cell that clearing writes: a space, no style, white on black.
pub open spec fn blank_cell() -> EncodedCellView {
    EncodedCellView { symbol: seq![' '], style_bits: 0, fg_rgb: DEFAULT_FG, bg_rgb: DEFAULT_BG }
}

/// What clearing a grid of `n` cells writes, cell by cell.
pub open spec fn cleared_grid(n: nat) -> Seq<EncodedCellView> {
    Seq::new(n, |_i: int| blank_cell())
}

/// The views of a run of encoded cells.
pub open spec fn cells_view(cells: Seq<EncodedCell>) -> Seq<EncodedCellView> {
    cells.map_values(|c: EncodedCell| c@)
}

/// What `clear_region` writes to a grid of `n` cells, or the message of its
/// error: only the whole screen can be cleared.
pub open spec fn clear_region_outcome(clear_type: ClearType, n: nat) -> Result<
    Seq<EncodedCellView>,
    Seq<char>,
> {
    if clear_type == ClearType::All {
        Ok(cleared_grid(n))
    } else {
        Err(unsupported_region_message())
    }
}

/// The outcome of a `clear_region` call, as values.
pub open spec fn region_result_view(r: Result<Vec<EncodedCell>, Error>) -> Result<
    Seq<EncodedCellView>,
    Seq<char>,
> {
    match r {
        Ok(cells) => Ok(cells_view(cells@)),
        Err(Error::Other(message)) => Err(message@),
    }
}

/// The cursor as a backend tracks it, and the decisions of the backend's
/// operations. The grid itself belongs to the renderer: the operations that
/// write to it return what is to be written.
pub struct BackendState {
    cursor_position: Option<Position>,
}

impl View for BackendState {
    /// The last cursor position set, or `None` while the cursor is hidden or
    /// was never placed.
    type V = Option<Position>;

    closed spec fn view(&self) -> Option<Position> {
        self.cursor_position
    }
}

impl BackendState {
    /// A backend with no cursor position set.
    pub fn new() -> (r: BackendState)
        ensures
            r@ == None::<Position>,
    {
        BackendState { cursor_position: None }
    }

    /// Encodes each positioned cell of a frame, keeping the positions and the
    /// order, for the renderer's per-position update.
    pub fn draw(&self, content: &Vec<(u16, u16, Cell)>) -> (r: Vec<(u16, u16, EncodedCell)>)
        ensures
            r@.len() == content@.len(),
            forall|i: int|
                0 <= i < content@.len() ==> {
                    &&& (#[trigger] r@[i]).0 == content@[i].0
                    &&& r@[i].1 == content@[i].1
                    &&& r@[i].2@ == encoded(content@[i].2)
                },
    {
        let mut out: Vec<(u16, u16, EncodedCell)> = Vec::new();
        let mut i: usize = 0;
        while i < content.len()
            invariant
                i <= content@.len(),
                out@.len() == i,
                forall|j: int|
                    0 <= j < i ==> {
                        &&& (#[trigger] out@[j]).0 == content@[j].0
                        &&& out@[j].1 == content@[j].1
                        &&& out@[j].2@ == encoded(content@[j].2)
                    },
            decreases content@.len() - i,
        {
            let (x, y, ref cell) = content[i];
            out.push((x, y, cell_data(cell)));
            i = i + 1;
        }
        out
    }

    /// Hides the cursor: its position reads as the origin until set again.
    pub fn hide_cursor(&mut self)
        ensures
            final(self)@ == None::<Position>,
    {
        self.cursor_position = None;
    }

    /// Accepted and ignored: the renderer draws no cursor glyph.
    pub fn show_cursor(&mut self)
        ensures
            final(self)@ == old(self)@,
    {
    }

    /// The last position set, or the origin if none was set or the cursor is
    /// hidden.
    pub fn get_cursor_position(&self) -> (r: Position)
        ensures
            r == match self@ {
                Some(p) => p,
                None => Position { x: 0, y: 0 },
            },
    {
        match self.cursor_position {
            Some(position) => position,
            None => Position { x: 0, y: 0 },
        }
    }

    /// Records the cursor position, which marks the cursor visible.
    pub fn set_cursor_position(&mut self, position: Position)
        ensures
            final(self)@ == Some(position),
    {
        self.cursor_position = Some(position);
    }

    /// The cells that overwrite a grid of `cell_count` cells when it is
    /// cleared: each a space, with no style, white on black.
    pub fn clear(&self, cell_count: usize) -> (r: Vec<EncodedCell>)
        ensures
            cells_view(r@) == cleared_grid(cell_count as nat),
    {
        let mut out: Vec<EncodedCell> = Vec::new();
        let mut i: usize = 0;
        while i < cell_count
            invariant
                i <= cell_count,
                out@.len() == i,
                forall|j: int| 0 <= j < i ==> (#[trigger] out@[j])@ == blank_cell(),
            decreases cell_count - i,
        {
            let symbol = " ".to_owned();
            proof {
                reveal_strlit(" ");
                assert(symbol@ =~= seq![' ']);
            }
            out.push(
                EncodedCell { symbol, style_bits: 0, fg_rgb: DEFAULT_FG, bg_rgb: DEFAULT_BG },
            );
            i = i + 1;
        }
        assert(cells_view(out@) =~= cleared_grid(cell_count as nat));
        out
    }

    /// Clears a region of a grid of `cell_count` cells: the whole screen is
    /// cleared as `clear` does, and every other region is refused.
    pub fn clear_region(&self, clear_type: ClearType, cell_count: usize) -> (r: Result<
        Vec<EncodedCell>,
        Error,
    >)
        ensures
            region_result_view(r) == clear_region_outcome(clear_type, cell_count as nat),
    {
        match clear_type {
            ClearType::All => Ok(self.clear(cell_count)),
            _ => {
                let message = "unsupported clear region type".to_owned();
                proof {
                    reveal_strlit("unsupported clear region type");
                }
                Err(Error::Other(message))
            },
        }
    }
}

/// Clearing the whole screen as a region writes what clearing the grid
/// writes, and every other region fails with the unsupported-operation error.
pub proof fn lemma_clear_region_entire_screen(clear_type: ClearType, n: nat)
    ensures
        clear_region_outcome(ClearType::All, n) == Ok::<Seq<EncodedCellView>, Seq<char>>(
            cleared_grid(n),
        ),
        clear_type != ClearType::All ==> clear_region_outcome(clear_type, n) == Err::<
            Seq<EncodedCellView>,
            Seq<char>,
        >(unsupported_region_message()),
{
}

} // verus!
