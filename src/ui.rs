use std::collections::VecDeque;
use vstd::prelude::*;

use crate::coord::Coord;
use crate::text::{chars_of, fit, fit_width, lines_of, line_views, split_lines};

verus! {

/// One line of text to write at a screen position.
#[derive(Debug, Clone, PartialEq, Eq)]
pub struct TextLine {
    pub at: Coord,
    pub text: String,
}

/// Whether `out` writes `lines` one under the other from `(col, top)`,
/// each left-justified in exactly `width` characters.
pub open spec fn stacked(
    out: Seq<TextLine>,
    col: usize,
    top: usize,
    width: nat,
    lines: Seq<Seq<char>>,
) -> bool {
    &&& out.len() == lines.len()
    &&& forall|i: int|
        0 <= i < out.len() ==> (#[trigger] out[i]).at == (Coord { col, row: (top + i) as usize })
            && out[i].text@ == fit(lines[i], width)
}

/// A newest-first log turned oldest-first.
pub open spec fn oldest_first(log: Seq<Seq<char>>) -> Seq<Seq<char>> {
    Seq::new(log.len(), |i: int| log[log.len() - 1 - i])
}

/// The log after `text` arrives: newest first, cut to `capacity` entries.
pub open spec fn after_print(log: Seq<Seq<char>>, text: Seq<char>, capacity: nat) -> Seq<
    Seq<char>,
> {
    let longer = seq![text] + log;
    if longer.len() <= capacity {
        longer
    } else {
        longer.take(capacity as int)
    }
}

/// A log never grows past its capacity; a new message goes in front, and
/// when the log is full the oldest message is the one that goes.
pub proof fn lemma_print_evicts_oldest(log: Seq<Seq<char>>, text: Seq<char>, capacity: nat)
    requires
        log.len() <= capacity,
    ensures
        after_print(log, text, capacity).len() <= capacity,
        capacity > 0 ==> after_print(log, text, capacity)[0] == text,
        log.len() < capacity ==> after_print(log, text, capacity) == seq![text] + log,
        capacity > 0 && log.len() == capacity ==> after_print(log, text, capacity) == seq![text]
            + log.drop_last(),
{
    if capacity > 0 && log.len() == capacity {
        assert(after_print(log, text, capacity) =~= seq![text] + log.drop_last());
    }
}

/// A fixed rectangle of the screen that shows the latest messages.
#[derive(Debug)]
pub struct Region {
    start: Coord,
    cols: usize,
    rows: usize,
    messages: VecDeque<String>,
}

impl Region {
    /// Top-left cell of the rectangle.
    pub closed spec fn origin(&self) -> Coord {
        self.start
    }

    /// Width in characters.
    pub closed spec fn width(&self) -> nat {
        self.cols as nat
    }

    /// Number of lines, which is also the number of messages kept.
    pub closed spec fn capacity(&self) -> nat {
        self.rows as nat
    }

    /// The messages kept, newest first.
    pub closed spec fn log(&self) -> Seq<Seq<char>> {
        self.messages@.map_values(|m: String| m@)
    }

    #[verifier::type_invariant]
    spec fn bounded(&self) -> bool {
        &&& self.messages@.len() <= self.rows
        &&& self.start.row + self.rows <= usize::MAX
    }

    /// An empty region of `rows` lines of `cols` characters from `start`.
    pub fn new(start: Coord, cols: usize, rows: usize) -> (r: Region)
        requires
            start.row + rows <= usize::MAX,
        ensures
            r.origin() == start,
            r.width() == cols,
            r.capacity() == rows,
            r.log() == Seq::<Seq<char>>::empty(),
    {
        let messages: VecDeque<String> = VecDeque::with_capacity(rows);
        let r = Region { start, cols, rows, messages };
        assert(r.log() =~= Seq::<Seq<char>>::empty());
        r
    }

    /// Adds `text` as the newest message, drops the oldest beyond capacity,
    /// and returns the redraw of the whole region: oldest message on the
    /// top line, newest on the bottom one, each exactly as wide as the
    /// region.
    pub fn print(&mut self, text: &str) -> (out: Vec<TextLine>)
        ensures
            final(self).origin() == old(self).origin(),
            final(self).width() == old(self).width(),
            final(self).capacity() == old(self).capacity(),
            final(self).log() == after_print(old(self).log(), text@, old(self).capacity()),
            final(self).log().len() <= final(self).capacity(),
            stacked(
                out@,
                final(self).origin().col,
                final(self).origin().row,
                final(self).width(),
                oldest_first(final(self).log()),
            ),
            final(self).capacity() > 0 ==> out@.last().text@ == fit(text@, final(self).width()),
    {
        proof {
            use_type_invariant(&*self);
        }
        let ghost before = self.log();
        let mut messages: VecDeque<String> = VecDeque::new();
        std::mem::swap(&mut messages, &mut self.messages);
        messages.push_front(String::from_str(text));
        messages.truncate(self.rows);
        self.messages = messages;
        let ghost log = self.log();
        assert(log =~= after_print(before, text@, self.rows as nat));
        let n = self.messages.len();
        let mut out: Vec<TextLine> = Vec::new();
        for i in 0..n
            invariant
                n == self.messages@.len(),
                n <= self.rows,
                self.start.row + self.rows <= usize::MAX,
                log == self.log(),
                stacked(
                    out@,
                    self.start.col,
                    self.start.row,
                    self.cols as nat,
                    oldest_first(log).take(i as int),
                ),
        {
            let msg = &self.messages[n - 1 - i];
            let text = fit_width(&chars_of(msg.as_str()), self.cols);
            out.push(TextLine { at: Coord { col: self.start.col, row: self.start.row + i }, text });
        }
        assert(oldest_first(log).take(n as int) =~= oldest_first(log));
        out
    }

    /// The messages kept, newest first.
    pub fn messages(&self) -> (m: &VecDeque<String>)
        ensures
            m@.map_values(|s: String| s@) == self.log(),
    {
        &self.messages
    }
}

/// The two message regions of the screen below the world, and the static
/// frame around them.
#[derive(Debug)]
pub struct UI {
    pub start: Coord,
    pub cols: usize,
    pub rows: usize,
    pub system: Region,
    pub combat: Region,
}

impl UI {
    /// A panel of `rows` lines of `cols` characters from `start`: a system
    /// region on the left half and a combat region on the right half, each
    /// inside a one-cell border.
    pub fn new(start: Coord, cols: usize, rows: usize) -> (ui: UI)
        requires
            cols >= 4,
            rows >= 2,
            start.col < usize::MAX,
            start.row + rows - 1 <= usize::MAX,
        ensures
            ui.start == start,
            ui.cols == cols,
            ui.rows == rows,
            ui.system.origin() == (Coord {
                col: (start.col + 1) as usize,
                row: (start.row + 1) as usize,
            }),
            ui.combat.origin() == (Coord {
                col: (cols / 2 + 1) as usize,
                row: (start.row + 1) as usize,
            }),
            ui.system.width() == cols / 2 - 2,
            ui.combat.width() == cols / 2 - 2,
            ui.system.capacity() == rows - 2,
            ui.combat.capacity() == rows - 2,
            ui.system.log().len() == 0,
            ui.combat.log().len() == 0,
    {
        let system_start = Coord { col: start.col + 1, row: start.row + 1 };
        let combat_start = Coord { col: cols / 2 + 1, row: start.row + 1 };
        let system = Region::new(system_start, cols / 2 - 2, rows - 2);
        let combat = Region::new(combat_start, cols / 2 - 2, rows - 2);
        UI { start, cols, rows, system, combat }
    }

    /// The static frame: the first lines of `layout`, at most one per line of
    /// the panel, from its top row at the screen's left edge, each exactly as
    /// wide as the panel.
    pub fn render(&self, layout: String) -> (out: Vec<TextLine>)
        requires
            self.start.row + self.rows - 1 <= usize::MAX,
        ensures
            stacked(
                out@,
                0,
                self.start.row,
                self.cols as nat,
                ({
                    let ls = lines_of(layout@);
                    if ls.len() <= self.rows {
                        ls
                    } else {
                        ls.take(self.rows as int)
                    }
                }),
            ),
    {
        let lines = split_lines(layout.as_str());
        let ghost ls = lines_of(layout@);
        let n = if lines.len() < self.rows {
            lines.len()
        } else {
            self.rows
        };
        let ghost want = if ls.len() <= self.rows { ls } else { ls.take(self.rows as int) };
        let mut out: Vec<TextLine> = Vec::new();
        for i in 0..n
            invariant
                n <= lines@.len(),
                n <= self.rows,
                n == want.len(),
                line_views(lines@) == ls,
                want == (if ls.len() <= self.rows { ls } else { ls.take(self.rows as int) }),
                self.start.row + self.rows - 1 <= usize::MAX,
                stacked(out@, 0, self.start.row, self.cols as nat, want.take(i as int)),
        {
            let text = fit_width(&lines[i], self.cols);
            out.push(TextLine { at: Coord { col: 0, row: self.start.row + i }, text });
        }
        assert(want.take(n as int) =~= want);
        out
    }
}

} // verus!
