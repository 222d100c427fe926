//! The location model: a place in the document, the clamped moves of the
//! cursor, and the mapping between document and screen coordinates.

use vstd::prelude::*;
use crate::terminal::{Position, Size};

verus! {

/// A place in the document: a line and a column, both counted from zero.
#[derive(Clone, Copy, Debug, PartialEq, Eq, Structural)]
pub struct Location {
    pub line: usize,
    pub column: usize,
}

/// The last row or column of a screen that has `extent` of them; zero for a
/// screen that has none.
pub open spec fn last_cell(extent: u16) -> int {
    if extent == 0 {
        0
    } else {
        extent - 1
    }
}

impl Location {
    /// The first line and the first column.
    pub open spec fn spec_origin() -> Location {
        Location { line: 0, column: 0 }
    }

    /// The first line and the first column.
    #[verifier::when_used_as_spec(spec_origin)]
    pub fn origin() -> (origin: Location)
        ensures
            origin == Location::spec_origin(),
    {
        Location { line: 0, column: 0 }
    }

    /// One line down, but not below the last row of a screen `height` rows
    /// high.
    pub open spec fn spec_down(self, height: u16) -> Location {
        let line: int = if self.line + 1 <= last_cell(height) {
            self.line + 1
        } else {
            last_cell(height)
        };
        Location { line: line as usize, column: self.column }
    }

    /// One line up, but not above the first line.
    pub open spec fn spec_up(self) -> Location {
        let line: int = if self.line == 0 {
            0
        } else {
            self.line - 1
        };
        Location { line: line as usize, column: self.column }
    }

    /// One column to the right, but not beyond the last column of a screen
    /// `width` columns wide.
    pub open spec fn spec_right(self, width: u16) -> Location {
        let column: int = if self.column + 1 <= last_cell(width) {
            self.column + 1
        } else {
            last_cell(width)
        };
        Location { line: self.line, column: column as usize }
    }

    /// One column to the left, but not before column `lower_bound`.
    pub open spec fn spec_left(self, lower_bound: u16) -> Location {
        let column: int = if self.column - 1 >= lower_bound {
            self.column - 1
        } else {
            lower_bound as int
        };
        Location { line: self.line, column: column as usize }
    }

    /// The start of the next line: one line down as `spec_down` goes, in
    /// column `lower_bound`.
    pub open spec fn spec_next_line(self, height: u16, lower_bound: u16) -> Location {
        Location { line: self.spec_down(height).line, column: lower_bound as usize }
    }

    /// Moves one line down, clamped to the last row of the screen.
    #[verifier::when_used_as_spec(spec_down)]
    pub fn down(self, height: u16) -> (moved: Location)
        ensures
            moved == self.spec_down(height),
    {
        let last: usize = height.saturating_sub(1) as usize;
        let line: usize = if self.line < last {
            self.line + 1
        } else {
            last
        };
        Location { line, column: self.column }
    }

    /// Moves one line up, stopping at the first line.
    #[verifier::when_used_as_spec(spec_up)]
    pub fn up(self) -> (moved: Location)
        ensures
            moved == self.spec_up(),
    {
        Location { line: self.line.saturating_sub(1), column: self.column }
    }

    /// Moves one column to the right, clamped to the last column of the
    /// screen.
    #[verifier::when_used_as_spec(spec_right)]
    pub fn right(self, width: u16) -> (moved: Location)
        ensures
            moved == self.spec_right(width),
    {
        let last: usize = width.saturating_sub(1) as usize;
        let column: usize = if self.column < last {
            self.column + 1
        } else {
            last
        };
        Location { line: self.line, column }
    }

    /// Moves one column to the left, stopping at column `lower_bound`.
    #[verifier::when_used_as_spec(spec_left)]
    pub fn left(self, lower_bound: u16) -> (moved: Location)
        ensures
            moved == self.spec_left(lower_bound),
    {
        let floor: usize = lower_bound as usize;
        let column: usize = if self.column > floor {
            self.column - 1
        } else {
            floor
        };
        Location { line: self.line, column }
    }

    /// Moves to the start of the next line: one line down, clamped like
    /// `down`, and back to column `lower_bound`.
    #[verifier::when_used_as_spec(spec_next_line)]
    pub fn next_line(self, height: u16, lower_bound: u16) -> (moved: Location)
        ensures
            moved == self.spec_next_line(height, lower_bound),
    {
        Location { line: self.down(height).line, column: lower_bound as usize }
    }

    /// Where this location shows on a screen scrolled by `viewport_offset`:
    /// the offset is taken off line and column, the column becomes `x` and
    /// the line `y`. A location before the offset, or more than `u16::MAX`
    /// cells behind it, shows nowhere.
    pub open spec fn spec_to_screen_position(self, viewport_offset: Location) -> Option<Position> {
        if viewport_offset.line <= self.line && self.line - viewport_offset.line <= u16::MAX
            && viewport_offset.column <= self.column && self.column - viewport_offset.column
            <= u16::MAX {
            Some(
                Position {
                    x: (self.column - viewport_offset.column) as u16,
                    y: (self.line - viewport_offset.line) as u16,
                },
            )
        } else {
            None
        }
    }

    /// The location that shows at `position` on a screen scrolled by
    /// `viewport_offset`, if its line and column can be counted.
    pub open spec fn spec_from_screen_position(
        position: Position,
        viewport_offset: Location,
    ) -> Option<Location> {
        if viewport_offset.line + position.y <= usize::MAX && viewport_offset.column + position.x
            <= usize::MAX {
            Some(
                Location {
                    line: (viewport_offset.line + position.y) as usize,
                    column: (viewport_offset.column + position.x) as usize,
                },
            )
        } else {
            None
        }
    }

    /// Maps this location to the cell of the screen where it shows.
    #[verifier::when_used_as_spec(spec_to_screen_position)]
    pub fn to_screen_position(self, viewport_offset: Location) -> (position: Option<Position>)
        ensures
            position == self.spec_to_screen_position(viewport_offset),
    {
        if viewport_offset.line <= self.line && viewport_offset.column <= self.column {
            let row: usize = self.line - viewport_offset.line;
            let column: usize = self.column - viewport_offset.column;
            if row <= u16::MAX as usize && column <= u16::MAX as usize {
                Some(Position { x: column as u16, y: row as u16 })
            } else {
                None
            }
        } else {
            None
        }
    }

    /// Maps a cell of the screen back to the location that shows there.
    #[verifier::when_used_as_spec(spec_from_screen_position)]
    pub fn from_screen_position(position: Position, viewport_offset: Location) -> (location:
        Option<Location>)
        ensures
            location == Location::spec_from_screen_position(position, viewport_offset),
    {
        match viewport_offset.line.checked_add(position.y as usize) {
            Some(line) => match viewport_offset.column.checked_add(position.x as usize) {
                Some(column) => Some(Location { line, column }),
                None => None,
            },
            None => None,
        }
    }

    /// The cell where an unscrolled screen shows this location; a line or a
    /// column past `u16::MAX` is shown at `u16::MAX`.
    pub open spec fn spec_to_position(self) -> Position {
        Position {
            x: if self.column <= u16::MAX {
                self.column as u16
            } else {
                u16::MAX
            },
            y: if self.line <= u16::MAX {
                self.line as u16
            } else {
                u16::MAX
            },
        }
    }

    /// Maps this location to its cell on an unscrolled screen.
    #[verifier::when_used_as_spec(spec_to_position)]
    pub fn to_position(self) -> (position: Position)
        ensures
            position == self.spec_to_position(),
    {
        Position {
            x: if self.column <= u16::MAX as usize {
                self.column as u16
            } else {
                u16::MAX
            },
            y: if self.line <= u16::MAX as usize {
                self.line as u16
            } else {
                u16::MAX
            },
        }
    }

    /// Line and column are numbers that name a cell of a screen: neither is
    /// above `u16::MAX`.
    pub open spec fn fits_screen(self) -> bool {
        self.line <= u16::MAX && self.column <= u16::MAX
    }

    /// The line is one of the rows of a screen `height` rows high.
    pub open spec fn line_within(self, height: u16) -> bool {
        0 <= self.line <= height - 1
    }

    /// The column is one of the columns of a screen `width` columns wide, at
    /// or after `lower_bound`.
    pub open spec fn column_within(self, width: u16, lower_bound: u16) -> bool {
        lower_bound <= self.column <= width - 1
    }
}

/// Mapping a location to the screen and back gives the location again,
/// whatever the scroll offset, wherever the location shows at all.
pub proof fn lemma_screen_round_trip(location: Location, viewport_offset: Location)
    requires
        location.to_screen_position(viewport_offset) is Some,
    ensures
        Location::from_screen_position(
            location.to_screen_position(viewport_offset)->0,
            viewport_offset,
        ) == Some(location),
{
}

/// Without scrolling, every location whose line and column fit a screen
/// coordinate shows at the cell with its column as `x` and its line as `y`, and
/// that cell maps back to it.
pub proof fn lemma_unscrolled_round_trip(location: Location)
    requires
        location.line <= u16::MAX,
        location.column <= u16::MAX,
    ensures
        location.to_screen_position(Location::origin()) == Some(
            Position { x: location.column as u16, y: location.line as u16 },
        ),
        location.to_screen_position(Location::origin()) == Some(location.to_position()),
        Location::from_screen_position(location.to_position(), Location::origin()) == Some(
            location,
        ),
{
}

/// Mapping a cell of the screen to the document and back gives the cell
/// again.
pub proof fn lemma_document_round_trip(position: Position, viewport_offset: Location)
    requires
        Location::from_screen_position(position, viewport_offset) is Some,
    ensures
        Location::from_screen_position(position, viewport_offset)->0.to_screen_position(
            viewport_offset,
        ) == Some(position),
{
}

/// A location that names a cell of a screen still names one after every
/// move, on a screen of any dimensions, and its cell has its column as `x`
/// and its line as `y`.
pub proof fn lemma_moves_keep_fit(location: Location, size: Size, lower_bound: u16)
    requires
        location.fits_screen(),
    ensures
        location.to_position() == (Position {
            x: location.column as u16,
            y: location.line as u16,
        }),
        location.down(size.height).fits_screen(),
        location.up().fits_screen(),
        location.right(size.width).fits_screen(),
        location.left(lower_bound).fits_screen(),
        location.next_line(size.height, lower_bound).fits_screen(),
{
}

/// No move takes the line off the screen: a line from the first row to the
/// last stays so under every move. A screen without rows has no such line.
pub proof fn lemma_moves_keep_line_within(
    location: Location,
    size: Size,
    lower_bound: u16,
)
    requires
        location.line_within(size.height),
    ensures
        location.down(size.height).line_within(size.height),
        location.up().line_within(size.height),
        location.right(size.width).line_within(size.height),
        location.left(lower_bound).line_within(size.height),
        location.next_line(size.height, lower_bound).line_within(size.height),
{
}

/// No move takes the column off the screen: a column from the lower bound to
/// the last column stays so under every move. A screen that ends before the
/// lower bound has no such column.
pub proof fn lemma_moves_keep_column_within(
    location: Location,
    size: Size,
    lower_bound: u16,
)
    requires
        location.column_within(size.width, lower_bound),
    ensures
        location.down(size.height).column_within(size.width, lower_bound),
        location.up().column_within(size.width, lower_bound),
        location.right(size.width).column_within(size.width, lower_bound),
        location.left(lower_bound).column_within(size.width, lower_bound),
        location.next_line(size.height, lower_bound).column_within(size.width, lower_bound),
{
}

} // verus!
