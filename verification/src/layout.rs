use vstd::prelude::*;

verus! {

/// A rectangle of terminal cells.
#[derive(Clone, Copy, Debug, PartialEq, Eq, Structural)]
pub struct Rect {
    pub x: u16,
    pub y: u16,
    pub width: u16,
    pub height: u16,
}

/// Narrowest screen that the game lays itself out for.
pub const MIN_WIDTH: u16 = 40;

/// Lowest screen that the game lays itself out for.
pub const MIN_HEIGHT: u16 = 10;

/// Rows kept at the bottom for the preview and the info panel.
pub const FOOTER_HEIGHT: u16 = 5;

/// Columns of the preview of the next piece.
pub const NEXT_WIDTH: u16 = 11;

/// Columns of the info panel.
pub const INFO_WIDTH: u16 = 29;

/// Cells that a frame's border takes from each extent.
pub const BORDER: u16 = 2;

/// Where the parts of the game stand on the screen.
#[derive(Clone, Copy, Debug, PartialEq, Eq, Structural)]
pub struct Layout {
    /// The screen, widened and heightened to the minimum where it was smaller.
    pub screen_rect: Rect,
    /// The frame of the board: the screen without the footer.
    pub board_rect: Rect,
    /// The frame of the preview, at the left of the footer.
    pub next_rect: Rect,
    /// The frame of the info panel, right of the preview.
    pub info_rect: Rect,
}

/// The screen that the game is laid out for: the given one, with each extent
/// raised to its minimum.
pub open spec fn clamped(screen: Rect) -> Rect {
    Rect {
        x: screen.x,
        y: screen.y,
        width: if screen.width < MIN_WIDTH {
            MIN_WIDTH
        } else {
            screen.width
        },
        height: if screen.height < MIN_HEIGHT {
            MIN_HEIGHT
        } else {
            screen.height
        },
    }
}

/// The layout for a screen whose preview and info panel fit in `u16`
/// coordinates.
pub open spec fn layout_of(screen: Rect) -> Layout {
    let screen_rect = clamped(screen);
    let board_rect = Rect {
        x: screen_rect.x,
        y: screen_rect.y,
        width: screen_rect.width,
        height: (screen_rect.height - FOOTER_HEIGHT) as u16,
    };
    let next_rect = Rect {
        x: board_rect.x,
        y: board_rect.height,
        width: NEXT_WIDTH,
        height: FOOTER_HEIGHT,
    };
    let info_rect = Rect {
        x: (next_rect.x + next_rect.width) as u16,
        y: next_rect.y,
        width: INFO_WIDTH,
        height: next_rect.height,
    };
    Layout { screen_rect, board_rect, next_rect, info_rect }
}

impl Layout {
    /// Rows of the board: the columns inside the board's frame.
    pub open spec fn game_width(self) -> int {
        self.board_rect.width - BORDER
    }

    /// Cells of one row of the board: two for each terminal row inside the
    /// board's frame.
    pub open spec fn game_height(self) -> int {
        (self.board_rect.height - BORDER) * 2
    }

    /// Extent of the preview along the falling axis.
    pub open spec fn next_width(self) -> int {
        self.next_rect.width - BORDER
    }

    /// Extent of the preview along the lateral axis.
    pub open spec fn next_height(self) -> int {
        (self.next_rect.height - BORDER) * 2
    }

    /// Lays the game out for a screen.
    pub fn new(screen: Rect) -> (layout: Layout)
        requires
            screen.x + NEXT_WIDTH <= u16::MAX,
        ensures
            layout == layout_of(screen),
    {
        let mut screen_rect = screen;
        if screen_rect.height < MIN_HEIGHT {
            screen_rect.height = MIN_HEIGHT;
        }
        if screen_rect.width < MIN_WIDTH {
            screen_rect.width = MIN_WIDTH;
        }
        let board_rect = Rect {
            x: screen_rect.x,
            y: screen_rect.y,
            width: screen_rect.width,
            height: screen_rect.height - FOOTER_HEIGHT,
        };
        let next_rect = Rect {
            x: board_rect.x,
            y: board_rect.height,
            width: NEXT_WIDTH,
            height: FOOTER_HEIGHT,
        };
        let info_rect = Rect {
            x: next_rect.x + next_rect.width,
            y: next_rect.y,
            width: INFO_WIDTH,
            height: next_rect.height,
        };
        Layout { screen_rect, board_rect, next_rect, info_rect }
    }

    /// Tells whether `x + NEXT_WIDTH` fits in `u16`, as `Layout::new` needs.
    pub fn fits(screen: Rect) -> (r: bool)
        ensures
            r == (screen.x + NEXT_WIDTH <= u16::MAX),
    {
        screen.x <= u16::MAX - NEXT_WIDTH
    }
}

} // verus!
