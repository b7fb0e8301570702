//! Screen-drawing policy: what every redraw paints.
//!
//! A redraw shows one tilde-marked placeholder row per viewport row but
//! the last, with a centered welcome banner on the row a third of the
//! way down, or a single goodbye line once the editor is quitting. The
//! banner is left-padded to the center and truncated so that it never
//! exceeds the viewport width.

use vstd::prelude::*;

use crate::editor::{Editor, Position, Size};

verus! {

/// The fixed product name and version shown in the welcome banner.
pub open spec fn welcome_text() -> Seq<char> {
    "Hecto editor -- version 0.1.0"@
}

/// The farewell line shown by the final redraw after the quit key.
pub open spec fn goodbye_text() -> Seq<char> {
    "Goodbye."@
}

/// `n` space characters.
pub open spec fn spaces(n: nat) -> Seq<char> {
    Seq::new(n, |i: int| ' ')
}

/// How far the banner text is shifted right to center it: half the
/// free space, zero when the message does not fit at all.
pub open spec fn banner_padding(width: nat) -> nat {
    if width > welcome_text().len() {
        (width - welcome_text().len()) as nat / 2
    } else {
        0
    }
}

/// How many centering spaces follow the tilde marker: one fewer than
/// the padding, since the tilde occupies a column; none when the
/// padding is zero.
pub open spec fn banner_lead(width: nat) -> nat {
    if banner_padding(width) == 0 {
        0
    } else {
        (banner_padding(width) - 1) as nat
    }
}

/// The banner before truncation: the tilde marker in the first column,
/// then the centering spaces, then the welcome text.
pub open spec fn banner_untruncated(width: nat) -> Seq<char> {
    seq!['~'] + spaces(banner_lead(width)) + welcome_text()
}

/// The banner as rendered: truncated to the viewport width where it
/// would otherwise overflow.
pub open spec fn banner_line(width: nat) -> Seq<char> {
    if banner_untruncated(width).len() <= width {
        banner_untruncated(width)
    } else {
        banner_untruncated(width).take(width as int)
    }
}

/// How many placeholder rows a redraw paints: one per viewport row but
/// the last, and none at all in a zero-height viewport.
pub open spec fn row_count(height: nat) -> nat {
    if height == 0 {
        0
    } else {
        (height - 1) as nat
    }
}

/// The text of the placeholder row at index `row`: the banner on the
/// row a third of the way down the viewport, a bare tilde everywhere
/// else.
pub open spec fn row_text(row: nat, height: nat, width: nat) -> Seq<char> {
    if row == height / 3 {
        banner_line(width)
    } else {
        seq!['~']
    }
}

/// Builds the welcome banner row for a viewport of the given width.
pub fn welcome_row(width: usize) -> (s: String)
    ensures
        s@ == banner_line(width as nat),
        s@.len() <= width,
{
    proof {
        reveal_strlit("~");
        lemma_banner_fits(width as nat);
    }
    let msg: &str = "Hecto editor -- version 0.1.0";
    let len: usize = msg.unicode_len();
    let padding: usize = if width > len {
        (width - len) / 2
    } else {
        0
    };
    let lead: usize = if padding == 0 {
        0
    } else {
        padding - 1
    };
    let mut line = String::from_str("~");
    let mut i: usize = 0;
    while i < lead
        invariant
            i <= lead,
            line@ == seq!['~'] + spaces(i as nat),
        decreases lead - i,
    {
        line.append(" ");
        proof {
            reveal_strlit(" ");
            assert(line@ =~= seq!['~'] + spaces((i + 1) as nat));
        }
        i = i + 1;
    }
    line.append(msg);
    assert(line@ == banner_untruncated(width as nat));
    let total: usize = line.as_str().unicode_len();
    if total > width {
        let truncated = line.as_str().substring_char(0, width);
        assert(truncated@ =~= banner_line(width as nat));
        truncated.to_owned()
    } else {
        line
    }
}

/// Builds the text of every placeholder row of one redraw, in order.
pub fn draw_rows(size: Size) -> (rows: Vec<String>)
    ensures
        rows@.len() == row_count(size.height as nat),
        forall|i: int|
            0 <= i < rows@.len() ==> #[trigger] rows@[i]@ == row_text(
                i as nat,
                size.height as nat,
                size.width as nat,
            ),
{
    proof {
        reveal_strlit("~");
    }
    let mut rows: Vec<String> = Vec::new();
    if size.height == 0 {
        return rows;
    }
    let banner_at: usize = size.height / 3;
    let mut row: usize = 0;
    while row < size.height - 1
        invariant
            1 <= size.height,
            banner_at == size.height as nat / 3,
            row <= size.height - 1,
            rows@.len() == row,
            forall|i: int|
                0 <= i < rows@.len() ==> #[trigger] rows@[i]@ == row_text(
                    i as nat,
                    size.height as nat,
                    size.width as nat,
                ),
        decreases size.height - 1 - row,
    {
        if row == banner_at {
            rows.push(welcome_row(size.width));
        } else {
            let tilde = String::from_str("~");
            proof {
                reveal_strlit("~");
            }
            rows.push(tilde);
        }
        row = row + 1;
    }
    rows
}

/// Everything one redraw paints: the text of each line from the top of
/// the screen down, and where the cursor is placed afterwards.
pub struct Refresh {
    pub lines: Vec<String>,
    pub cursor: Position,
}

impl Editor {
    /// Computes one redraw of the screen: the goodbye line with the
    /// cursor parked at the origin once the editor is quitting, and
    /// otherwise the placeholder rows with the cursor where the editor
    /// state puts it.
    pub fn refresh_screen(&self, size: Size) -> (r: Refresh)
        ensures
            self.should_quit ==> r.lines@.len() == 1,
            self.should_quit ==> r.lines@[0]@ == goodbye_text(),
            self.should_quit ==> r.cursor == (Position { x: 0, y: 0 }),
            !self.should_quit ==> r.lines@.len() == row_count(size.height as nat),
            !self.should_quit ==> (forall|i: int|
                0 <= i < r.lines@.len() ==> #[trigger] r.lines@[i]@ == row_text(
                    i as nat,
                    size.height as nat,
                    size.width as nat,
                )),
            !self.should_quit ==> r.cursor == self.cursor_position,
    {
        if self.should_quit {
            let mut lines: Vec<String> = Vec::new();
            lines.push(String::from_str("Goodbye."));
            Refresh { lines, cursor: Position { x: 0, y: 0 } }
        } else {
            Refresh { lines: draw_rows(size), cursor: self.cursor_position }
        }
    }
}

/// The banner never exceeds the viewport width, whatever the width.
pub proof fn lemma_banner_fits(width: nat)
    ensures
        banner_line(width).len() <= width,
{
}

/// Where the viewport is at least one column wider than the welcome
/// text, the banner renders without truncation on the designated row:
/// the tilde marker stands in the first column and the whole welcome
/// text follows the centering spaces. Every other placeholder row is
/// the bare tilde marker. (A viewport exactly as wide as the welcome
/// text is excluded: there the trailing character is truncated away.)
pub proof fn lemma_banner_on_designated_row(row: nat, height: nat, width: nat)
    requires
        width >= welcome_text().len() + 1,
    ensures
        row == height / 3 ==> row_text(row, height, width) == banner_untruncated(width),
        row == height / 3 ==> row_text(row, height, width)[0] == '~',
        row == height / 3 ==> row_text(row, height, width).subrange(
            1 + banner_lead(width) as int,
            1 + banner_lead(width) + welcome_text().len() as int,
        ) == welcome_text(),
        row != height / 3 ==> row_text(row, height, width) == seq!['~'],
{
    let l = welcome_text().len();
    let lead = banner_lead(width);
    assert(banner_untruncated(width).len() == 1 + lead + l);
    assert(1 + lead + l <= width);
    assert(banner_line(width) == banner_untruncated(width));
    assert(banner_untruncated(width).subrange(1 + lead as int, 1 + lead + l as int)
        =~= welcome_text());
}

} // verus!
