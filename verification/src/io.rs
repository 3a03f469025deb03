//! The text buffer of one open file, with its scrollable window and its
//! incremental refill, and the ordered list of such buffers.

use vstd::prelude::*;
use crate::text::{format_line, is_numbered, lemma_format_line_is_numbered, spec_format_line};
use crate::{saturating_add, saturating_sub};

verus! {

/// Rows of a pane that its border takes up.
pub const CHROME_ROWS: usize = 2;

/// What the owner of the file handle has to do next for a refill.
#[derive(Clone, Copy, Debug, PartialEq, Eq, Structural)]
pub enum RefillAction {
    /// Nothing more to do in this refill.
    Done,
    /// Open the file again from its path, then report `reopened`.
    Reopen,
    /// Read one more raw line, then report it, or the end of the file.
    Read,
}

/// The mathematical value of a [`FileBuf`].
pub ghost struct FileBufView {
    pub nulled: bool,
    pub is_tail: bool,
    pub name: Seq<char>,
    pub path: Seq<char>,
    /// Whether a file handle is held for this buffer.
    pub reader_open: bool,
    /// First buffered line of the window.
    pub start: usize,
    /// One past the last buffered line of the window.
    pub end: usize,
    pub view_update: bool,
    /// The number the next line read will carry.
    pub next_line_number: usize,
    /// The formatted lines, oldest first.
    pub lines: Seq<Seq<char>>,
    /// Raw lines still to be pulled in the running refill.
    pub pending: usize,
    pub max_scroll_limit: u16,
    pub current_scroll: u16,
}

impl FileBufView {
    /// A buffer just opened on `path`, shown as `name`.
    pub open spec fn fresh(name: Seq<char>, path: Seq<char>, is_tail: bool) -> FileBufView {
        FileBufView {
            nulled: false,
            is_tail,
            name,
            path,
            reader_open: true,
            start: 0,
            end: 0,
            view_update: true,
            next_line_number: 1,
            lines: Seq::empty(),
            pending: 0,
            max_scroll_limit: 0,
            current_scroll: 0,
        }
    }

    /// The invariant of a buffer. While it is alive, the line counter is
    /// one ahead of the buffered lines and line `i` carries number `i + 1`.
    /// Once nulled, it holds one line, no file handle, and does not tail.
    /// The lines are never more than a `usize` counts.
    pub open spec fn wf(self) -> bool {
        &&& self.lines.len() <= usize::MAX
        &&& !self.nulled ==> self.next_line_number == self.lines.len() + 1
        &&& !self.nulled ==> forall|i: int|
            0 <= i < self.lines.len() ==> is_numbered(#[trigger] self.lines[i], (i + 1) as nat)
        &&& self.nulled ==> self.lines.len() == 1 && !self.reader_open && !self.is_tail
    }

    /// The window after a render pass asked for `height` rows: while the
    /// view-update flag is up, the end is the start plus the height less
    /// the border rows, both steps saturating.
    pub open spec fn resized(self, height: u16) -> FileBufView {
        if self.view_update {
            FileBufView {
                end: saturating_sub(saturating_add(self.start, height as usize), CHROME_ROWS),
                ..self
            }
        } else {
            self
        }
    }

    /// The lines on display: those of the window where the window is not
    /// empty and lies within the buffered lines, else all of them.
    pub open spec fn visible(self) -> Seq<Seq<char>> {
        if self.lines.len() >= self.end && self.start < self.end {
            self.lines.subrange(self.start as int, self.end as int)
        } else {
            self.lines
        }
    }

    /// One line down, unless the window already ends at the last line.
    pub open spec fn scrolled_next(self) -> FileBufView {
        if !self.nulled && self.end < self.lines.len() {
            FileBufView {
                start: saturating_add(self.start, 1),
                end: saturating_add(self.end, 1),
                ..self
            }
        } else {
            self
        }
    }

    /// One line up, unless the window already starts at the first line.
    pub open spec fn scrolled_prev(self) -> FileBufView {
        if !self.nulled && self.start > 0 {
            FileBufView {
                start: saturating_sub(self.start, 1),
                end: saturating_sub(self.end, 1),
                ..self
            }
        } else {
            self
        }
    }

    /// The window moved to the first line, keeping its height.
    pub open spec fn scrolled_top(self) -> FileBufView {
        if !self.nulled && self.start > 0 {
            FileBufView { start: 0, end: saturating_sub(self.end, self.start), ..self }
        } else {
            self
        }
    }

    /// The window moved so that it ends at the last buffered line.
    pub open spec fn scrolled_bottom(self) -> FileBufView {
        if !self.nulled && self.end < self.lines.len() {
            let diff = saturating_sub(self.lines.len() as usize, self.end);
            FileBufView {
                start: saturating_add(self.start, diff),
                end: saturating_add(self.end, diff),
                ..self
            }
        } else {
            self
        }
    }

    /// The buffer turned into the static display of `message`.
    pub open spec fn nullified(self, message: Seq<char>) -> FileBufView {
        FileBufView {
            nulled: true,
            lines: seq![message],
            reader_open: false,
            start: 0,
            end: 1,
            is_tail: false,
            ..self
        }
    }

    /// What a refill has to do next in this state.
    pub open spec fn action(self) -> RefillAction {
        if !self.reader_open {
            if self.is_tail {
                RefillAction::Reopen
            } else {
                RefillAction::Done
            }
        } else if self.pending > 0 {
            RefillAction::Read
        } else {
            RefillAction::Done
        }
    }

    /// A refill begins: unless the source is used up for good, as many raw
    /// lines are wanted as the window's end says.
    pub open spec fn started(self) -> FileBufView {
        if !self.reader_open && !self.is_tail {
            self
        } else {
            FileBufView { pending: self.end, ..self }
        }
    }

    /// The file was opened again, where that was asked for.
    pub open spec fn reopened(self) -> FileBufView {
        if self.action() == RefillAction::Reopen {
            FileBufView { reader_open: true, ..self }
        } else {
            self
        }
    }

    /// A raw line arrived, where one was asked for: it is appended in its
    /// display form under the next number.
    pub open spec fn with_line(self, raw: Seq<char>) -> FileBufView {
        if self.action() == RefillAction::Read {
            FileBufView {
                lines: self.lines.push(spec_format_line(self.next_line_number as nat, raw)),
                next_line_number: (self.next_line_number + 1) as usize,
                pending: (self.pending - 1) as usize,
                ..self
            }
        } else {
            self
        }
    }

    /// The source had no more bytes, where a line was asked for: the
    /// refill ends, and a buffer that does not tail gives up its handle.
    pub open spec fn at_end_of_file(self) -> FileBufView {
        if self.action() == RefillAction::Read {
            FileBufView { pending: 0, reader_open: self.is_tail, ..self }
        } else {
            self
        }
    }

    /// Tailing switched on or off. A nulled buffer never tails.
    pub open spec fn with_tail(self, is_tail: bool) -> FileBufView {
        FileBufView { is_tail: is_tail && !self.nulled, ..self }
    }

    /// One step to the right, up to the limit.
    pub open spec fn scrolled_right(self) -> FileBufView {
        let moved = if self.current_scroll == u16::MAX {
            u16::MAX
        } else {
            (self.current_scroll + 1) as u16
        };
        FileBufView {
            current_scroll: if moved < self.max_scroll_limit {
                moved
            } else {
                self.max_scroll_limit
            },
            ..self
        }
    }

    /// One step to the left, down to zero.
    pub open spec fn scrolled_left(self) -> FileBufView {
        FileBufView {
            current_scroll: if self.current_scroll == 0 {
                0
            } else {
                (self.current_scroll - 1) as u16
            },
            ..self
        }
    }
}

/// A command that moves the window by one line.
pub ghost enum Scroll {
    Next,
    Prev,
}

impl FileBufView {
    /// The buffer after the scroll commands `moves`, first one first.
    pub open spec fn scrolled(self, moves: Seq<Scroll>) -> FileBufView
        decreases moves.len(),
    {
        if moves.len() == 0 {
            self
        } else {
            let before = self.scrolled(moves.drop_last());
            match moves.last() {
                Scroll::Next => before.scrolled_next(),
                Scroll::Prev => before.scrolled_prev(),
            }
        }
    }

    /// The buffer after reading the raw lines `raws` one after the other.
    pub open spec fn with_lines(self, raws: Seq<Seq<char>>) -> FileBufView
        decreases raws.len(),
    {
        if raws.len() == 0 {
            self
        } else {
            self.with_lines(raws.drop_last()).with_line(raws.last())
        }
    }

    /// The buffer after one whole refill during which the source had no
    /// byte to give: the refill begins, the file is opened again where that
    /// is due, and the first read, if there is one, meets the end of the
    /// file.
    pub open spec fn refilled_from_drained(self) -> FileBufView {
        let begun = self.started();
        let ready = if begun.action() == RefillAction::Reopen {
            begun.reopened()
        } else {
            begun
        };
        if ready.action() == RefillAction::Read {
            ready.at_end_of_file()
        } else {
            ready
        }
    }
}

/// Scrolling by single lines, in any order and any number of times, keeps
/// the window's start within the buffered lines and its height unchanged,
/// and touches no line. This holds of a window whose start is not past its
/// end and not past the last line.
pub proof fn lemma_scrolling_keeps_window(s: FileBufView, moves: Seq<Scroll>)
    requires
        s.wf(),
        s.start <= s.end,
        s.start <= s.lines.len(),
    ensures
        s.scrolled(moves).start <= s.lines.len(),
        s.scrolled(moves).end - s.scrolled(moves).start == s.end - s.start,
        s.scrolled(moves).lines == s.lines,
        s.scrolled(moves).nulled == s.nulled,
    decreases moves.len(),
{
    if moves.len() > 0 {
        lemma_scrolling_keeps_window(s, moves.drop_last());
    }
}

/// At the bottom, scrolling one line down changes nothing.
pub proof fn lemma_bottom_then_next(s: FileBufView)
    requires
        s.wf(),
    ensures
        s.scrolled_bottom().scrolled_next() == s.scrolled_bottom(),
        s.nulled || s.scrolled_bottom().end >= s.lines.len(),
{
}

/// At the top, scrolling one line up changes nothing.
pub proof fn lemma_top_then_prev(s: FileBufView)
    ensures
        s.scrolled_top().scrolled_prev() == s.scrolled_top(),
        s.nulled || s.scrolled_top().start == 0,
{
}

/// A refill that finds no new byte in the source adds no line, and neither
/// does a second one: the lines and the line counter stay as they were.
pub proof fn lemma_drained_refill_adds_nothing(s: FileBufView)
    ensures
        s.refilled_from_drained().lines == s.lines,
        s.refilled_from_drained().next_line_number == s.next_line_number,
        s.refilled_from_drained().refilled_from_drained().lines == s.lines,
        s.refilled_from_drained().refilled_from_drained().next_line_number
            == s.next_line_number,
{
}

/// After `raws.len()` lines were read into a fresh buffer that wanted at
/// least that many, the line counter is one ahead of their count, and line
/// `i` is raw line `i` formatted under the number `i + 1`. The counter is a
/// `usize`, so fewer lines than the largest `usize` are read.
pub proof fn lemma_lines_are_numbered_in_order(
    name: Seq<char>,
    path: Seq<char>,
    is_tail: bool,
    budget: usize,
    raws: Seq<Seq<char>>,
)
    requires
        raws.len() <= budget,
        raws.len() < usize::MAX,
    ensures
        ({
            let fresh = FileBufView { pending: budget, ..FileBufView::fresh(name, path, is_tail) };
            let read = fresh.with_lines(raws);
            &&& read.wf()
            &&& read.lines.len() == raws.len()
            &&& read.next_line_number == raws.len() + 1
            &&& read.pending == budget - raws.len()
            &&& read.reader_open
            &&& !read.nulled
            &&& forall|i: int|
                0 <= i < raws.len() ==> #[trigger] read.lines[i] == spec_format_line(
                    (i + 1) as nat,
                    raws[i],
                )
        }),
    decreases raws.len(),
{
    let fresh = FileBufView { pending: budget, ..FileBufView::fresh(name, path, is_tail) };
    if raws.len() > 0 {
        lemma_lines_are_numbered_in_order(name, path, is_tail, budget, raws.drop_last());
        let before = fresh.with_lines(raws.drop_last());
        let read = fresh.with_lines(raws);
        lemma_format_line_is_numbered(raws.len(), raws.last());
        assert forall|i: int| 0 <= i < raws.len() implies #[trigger] read.lines[i]
            == spec_format_line((i + 1) as nat, raws[i]) by {
            if i < raws.len() - 1 {
                assert(read.lines[i] == before.lines[i]);
                assert(raws.drop_last()[i] == raws[i]);
            }
        }
    }
}

/// A refill never takes more raw lines than the window's end says: of the
/// lines `raws` that the source could give, a buffer with a file handle
/// takes those up to that count and then asks for no more.
pub proof fn lemma_refill_is_bounded(s: FileBufView, raws: Seq<Seq<char>>)
    requires
        s.reader_open,
        s.next_line_number + raws.len() <= usize::MAX,
    ensures
        ({
            let taken = if raws.len() <= s.end {
                raws.len()
            } else {
                s.end as nat
            };
            let read = s.started().with_lines(raws);
            &&& read.reader_open
            &&& read.lines.len() == s.lines.len() + taken
            &&& read.lines.take(s.lines.len() as int) == s.lines
            &&& read.pending == s.end - taken
            &&& read.next_line_number == s.next_line_number + taken
            &&& raws.len() >= s.end ==> read.action() == RefillAction::Done
        }),
    decreases raws.len(),
{
    if raws.len() > 0 {
        lemma_refill_is_bounded(s, raws.drop_last());
        let before = s.started().with_lines(raws.drop_last());
        let read = s.started().with_lines(raws);
        assert(read.lines.take(s.lines.len() as int) =~= before.lines.take(s.lines.len() as int));
    } else {
        assert(s.lines.take(s.lines.len() as int) =~= s.lines);
    }
}

/// In a valid buffer that is alive, the line counter is one ahead of the
/// buffered lines, and each line shows the number of its place, counted
/// from one.
pub proof fn lemma_line_numbers(s: FileBufView, i: int)
    requires
        s.wf(),
        !s.nulled,
        0 <= i < s.lines.len(),
    ensures
        s.next_line_number == s.lines.len() + 1,
        is_numbered(s.lines[i], (i + 1) as nat),
{
}

/// A nulled buffer stays as it is: no step of a refill and no scrolling
/// changes the one line it shows, nor brings it back to life.
pub proof fn lemma_nullify_is_terminal(s: FileBufView, message: Seq<char>, raw: Seq<char>)
    ensures
        s.nullified(message).wf(),
        s.nullified(message).lines == seq![message],
        s.nullified(message).nulled,
        s.nullified(message).started() == s.nullified(message),
        s.nullified(message).action() == RefillAction::Done,
        s.nullified(message).reopened() == s.nullified(message),
        s.nullified(message).with_line(raw) == s.nullified(message),
        s.nullified(message).at_end_of_file() == s.nullified(message),
        s.nullified(message).scrolled_next() == s.nullified(message),
        s.nullified(message).scrolled_prev() == s.nullified(message),
        s.nullified(message).scrolled_top() == s.nullified(message),
        s.nullified(message).scrolled_bottom() == s.nullified(message),
{
}

/// The texts of a sequence of borrowed strings.
pub open spec fn texts(v: Seq<&str>) -> Seq<Seq<char>> {
    Seq::new(v.len(), |i: int| v[i]@)
}

/// The texts of a sequence of owned strings.
pub open spec fn owned_texts(v: Seq<String>) -> Seq<Seq<char>> {
    Seq::new(v.len(), |i: int| v[i]@)
}

/// One open file: the lines read from it so far, formatted for display, and
/// the window of them that is on screen. The file handle itself is held by
/// the caller; the buffer knows whether there is one and says, step by
/// step, what to do with it.
pub struct FileBuf {
    nulled: bool,
    is_tail: bool,
    name: String,
    path: String,
    reader_open: bool,
    start: usize,
    end: usize,
    view_update: bool,
    lines: usize,
    buffer: Vec<String>,
    pending: usize,
    max_scroll_limit: u16,  // horizontal scroll
    current_scroll: u16,
}

impl View for FileBuf {
    type V = FileBufView;

    closed spec fn view(&self) -> FileBufView {
        FileBufView {
            nulled: self.nulled,
            is_tail: self.is_tail,
            name: self.name@,
            path: self.path@,
            reader_open: self.reader_open,
            start: self.start,
            end: self.end,
            view_update: self.view_update,
            next_line_number: self.lines,
            lines: owned_texts(self.buffer@),
            pending: self.pending,
            max_scroll_limit: self.max_scroll_limit,
            current_scroll: self.current_scroll,
        }
    }
}

impl FileBuf {
    /// A buffer for the file just opened at the canonical `path`, listed
    /// under `name`: no line read yet, the window empty, the first line to
    /// come numbered 1.
    pub fn new(name: &str, path: &str, is_tail: bool) -> (file: FileBuf)
        ensures
            file@ == FileBufView::fresh(name@, path@, is_tail),
            file@.wf(),
    {
        let file = FileBuf {
            nulled: false,
            is_tail,
            name: name.to_owned(),
            path: path.to_owned(),
            reader_open: true,
            start: 0,
            end: 0,
            view_update: true,
            lines: 1,
            buffer: Vec::new(),
            pending: 0,
            max_scroll_limit: 0,
            current_scroll: 0,
        };
        assert(file@.lines =~= Seq::empty());
        file
    }

    fn next_action(&self) -> (action: RefillAction)
        ensures
            action == self@.action(),
    {
        if !self.reader_open {
            if self.is_tail {
                RefillAction::Reopen
            } else {
                RefillAction::Done
            }
        } else if self.pending > 0 {
            RefillAction::Read
        } else {
            RefillAction::Done
        }
    }

    /// Begins the refill of one frame and says what the holder of the file
    /// handle has to do first. A buffer whose source is used up, or that was
    /// nulled, stays as it is and answers `Done`; any other one wants as
    /// many raw lines as its window's end says.
    pub fn update(&mut self) -> (action: RefillAction)
        ensures
            final(self)@ == old(self)@.started(),
            old(self)@.wf() ==> final(self)@.wf(),
            action == final(self)@.action(),
    {
        if self.reader_open || self.is_tail {
            self.pending = self.end;
        }
        self.next_action()
    }

    /// Reports that the file was opened again after `Reopen`. Reading then
    /// starts over from the first byte. Ignored where no reopening was due.
    pub fn reopened(&mut self) -> (action: RefillAction)
        ensures
            final(self)@ == old(self)@.reopened(),
            old(self)@.wf() ==> final(self)@.wf(),
            action == final(self)@.action(),
    {
        if !self.reader_open && self.is_tail {
            self.reader_open = true;
        }
        self.next_action()
    }

    /// Reports one raw line read after `Read`: it is appended in its display
    /// form under the next line number. Ignored where no line was due. The
    /// line number must not have reached the largest `usize`.
    pub fn push_line(&mut self, raw: &str) -> (action: RefillAction)
        requires
            old(self)@.action() == RefillAction::Read ==> old(self)@.next_line_number
                < usize::MAX,
        ensures
            final(self)@ == old(self)@.with_line(raw@),
            old(self)@.wf() ==> final(self)@.wf(),
            action == final(self)@.action(),
    {
        if self.reader_open && self.pending > 0 {
            let line = format_line(self.lines, raw);
            proof {
                lemma_format_line_is_numbered(self.lines as nat, raw@);
            }
            self.buffer.push(line);
            self.lines += 1;
            self.pending -= 1;
            assert(self@.lines =~= old(self)@.lines.push(
                spec_format_line(old(self)@.next_line_number as nat, raw@),
            ));
        }
        self.next_action()
    }

    /// Reports that a read after `Read` found no more bytes. The refill is
    /// over; a buffer that does not tail gives up its file handle for good,
    /// one that tails keeps it for the next frame. No line is added.
    pub fn end_of_file(&mut self) -> (action: RefillAction)
        ensures
            final(self)@ == old(self)@.at_end_of_file(),
            old(self)@.wf() ==> final(self)@.wf(),
            action == RefillAction::Done,
    {
        if self.reader_open && self.pending > 0 {
            self.pending = 0;
            self.reader_open = self.is_tail;
        }
        RefillAction::Done
    }

    /// Switches tailing on or off. A buffer that starts to tail after its
    /// source was used up asks to open the file again at its next refill.
    /// A nulled buffer never tails.
    pub fn set_tail(&mut self, is_tail: bool)
        ensures
            final(self)@ == old(self)@.with_tail(is_tail),
            old(self)@.wf() ==> final(self)@.wf(),
    {
        self.is_tail = is_tail && !self.nulled;
    }

    /// Lowers the view-update flag: the window keeps its end until the flag
    /// is raised again.
    pub fn detrigger_view_update(&mut self)
        ensures
            final(self)@ == (FileBufView { view_update: false, ..old(self)@ }),
    {
        if self.view_update {
            self.view_update = false;
        }
    }

    /// Raises the view-update flag: the next call of [`FileBuf::buffer`] fits
    /// the window to the pane.
    pub fn trigger_view_update(&mut self)
        ensures
            final(self)@ == (FileBufView { view_update: true, ..old(self)@ }),
    {
        if self.view_update {
            return ;
        }
        self.view_update = true;
    }

    /// Recomputes the window's end for a pane of `height` rows, while the
    /// view-update flag is up.
    pub fn resize(&mut self, height: u16)
        ensures
            final(self)@ == old(self)@.resized(height),
            old(self)@.wf() ==> final(self)@.wf(),
    {
        if self.view_update {
            self.end = self.start.saturating_add(height as usize).saturating_sub(CHROME_ROWS);
        }
    }

    /// The lines on display with the window as it stands, and whether the
    /// buffer shows an error.
    pub fn visible(&self) -> (res: (Vec<&str>, bool))
        ensures
            texts(res.0@) == self@.visible(),
            res.1 == self@.nulled,
    {
        let len = self.buffer.len();
        let (from, to) = if len >= self.end && self.start < self.end {
            (self.start, self.end)
        } else {
            (0, len)
        };
        let mut lines: Vec<&str> = Vec::new();
        let mut i: usize = from;
        while i < to
            invariant
                from <= i <= to <= self.buffer.len(),
                lines@.len() == i - from,
                forall|k: int| 0 <= k < lines@.len() ==> lines@[k]@ == self.buffer@[from + k]@,
            decreases to - i,
        {
            lines.push(self.buffer[i].as_str());
            i += 1;
        }
        assert(texts(lines@) =~= self@.visible());
        (lines, self.nulled)
    }

    /// Only the lines that are visible in a pane of `height` rows, and
    /// whether the buffer shows an error. The window's end is recomputed
    /// first while the view-update flag is up; the buffered lines are never
    /// changed.
    pub fn buffer(&mut self, height: u16) -> (res: (Vec<&str>, bool))
        ensures
            final(self)@ == old(self)@.resized(height),
            texts(res.0@) == final(self)@.visible(),
            res.1 == final(self)@.nulled,
            final(self)@.lines == old(self)@.lines,
            old(self)@.wf() ==> final(self)@.wf(),
    {
        self.resize(height);
        self.visible()
    }

    /// Replaces the content with the one line `message` and closes the
    /// source for good.
    pub fn nullify(&mut self, message: String)
        ensures
            final(self)@ == old(self)@.nullified(message@),
            final(self)@.wf(),
    {
        self.nulled = true;
        self.buffer = vec![message];
        self.reader_open = false;
        self.start = 0;
        self.end = 1;
        self.is_tail = false;
        assert(self@.lines =~= seq![message@]);
    }

    /// Scrolls one line down, unless the window already ends at the last
    /// buffered line. Reads nothing.
    pub fn next(&mut self)
        ensures
            final(self)@ == old(self)@.scrolled_next(),
            old(self)@.wf() ==> final(self)@.wf(),
    {
        let len = self.buffer.len();
        if !self.nulled && self.end < len {
            self.start = self.start.saturating_add(1);
            self.end = self.end.saturating_add(1);
        }
    }

    /// Scrolls one line up, unless the window already starts at the first
    /// line.
    pub fn prev(&mut self)
        ensures
            final(self)@ == old(self)@.scrolled_prev(),
            old(self)@.wf() ==> final(self)@.wf(),
    {
        if !self.nulled && self.start > 0 {
            self.start = self.start.saturating_sub(1);
            self.end = self.end.saturating_sub(1);
        }
    }

    /// Moves the window to the first line and keeps its height (a window
    /// whose start lay past its end becomes empty).
    pub fn top(&mut self)
        ensures
            final(self)@ == old(self)@.scrolled_top(),
            old(self)@.wf() ==> final(self)@.wf(),
    {
        if !self.nulled && self.start > 0 {
            self.end = self.end.saturating_sub(self.start);
            self.start = 0;
        }
    }

    /// Moves the window so that it ends at the last buffered line.
    pub fn bottom(&mut self)
        ensures
            final(self)@ == old(self)@.scrolled_bottom(),
            old(self)@.wf() ==> final(self)@.wf(),
    {
        let len = self.buffer.len();
        if !self.nulled && self.end < len {
            let diff = len.saturating_sub(self.end);
            self.start = self.start.saturating_add(diff);
            self.end = self.end.saturating_add(diff);
        }
    }

    /// Sets how far the text can be scrolled to the right.
    pub fn set_max_scroll_limit(&mut self, l: u16)
        ensures
            final(self)@ == (FileBufView { max_scroll_limit: l, ..old(self)@ }),
    {
        self.max_scroll_limit = l;
    }

    /// Scrolls one column to the right, up to the limit.
    pub fn scroll_next(&mut self)
        ensures
            final(self)@ == old(self)@.scrolled_right(),
    {
        let moved = self.current_scroll.saturating_add(1);
        self.current_scroll = if moved < self.max_scroll_limit {
            moved
        } else {
            self.max_scroll_limit
        };
    }

    /// Scrolls one column to the left, down to zero.
    pub fn scroll_prev(&mut self)
        ensures
            final(self)@ == old(self)@.scrolled_left(),
    {
        self.current_scroll = self.current_scroll.saturating_sub(1);
    }

    /// The horizontal and the vertical scroll offset of the pane; the
    /// vertical one is always zero, as the window does that scrolling.
    pub fn get_current_scroll(&self) -> (res: (u16, u16))
        ensures
            res == (self@.current_scroll, 0u16),
    {
        (self.current_scroll, 0)
    }

    /// The canonical path of the file.
    #[inline]
    pub fn path(&self) -> (path: &str)
        ensures
            path@ == self@.path,
    {
        self.path.as_str()
    }

    /// The name under which the file is listed.
    #[inline]
    pub fn name(&self) -> (name: &str)
        ensures
            name@ == self@.name,
    {
        self.name.as_str()
    }

    /// Whether the buffer was turned into an error display.
    pub fn is_nulled(&self) -> (nulled: bool)
        ensures
            nulled == self@.nulled,
    {
        self.nulled
    }

    /// Whether the buffer waits for more at the end of the file.
    pub fn is_tail(&self) -> (is_tail: bool)
        ensures
            is_tail == self@.is_tail,
    {
        self.is_tail
    }

    /// Whether a file handle is to be held for this buffer.
    pub fn has_reader(&self) -> (open: bool)
        ensures
            open == self@.reader_open,
    {
        self.reader_open
    }

    /// The number that the next line read will carry.
    pub fn next_line_number(&self) -> (number: usize)
        ensures
            number == self@.next_line_number,
    {
        self.lines
    }

    /// The window, as the index of its first line and one past its last.
    pub fn view_window(&self) -> (window: (usize, usize))
        ensures
            window == (self@.start, self@.end),
    {
        (self.start, self.end)
    }

    /// How many lines are buffered.
    pub fn line_count(&self) -> (count: usize)
        ensures
            count == self@.lines.len(),
    {
        self.buffer.len()
    }
}

/// Why a file could not be opened, inserted or closed.
#[derive(Debug)]
pub enum Error {
    /// The file could not be opened or read; the text says why.
    Io(String),
    /// A file with this canonical path is already in the list.
    DuplicatePath(String),
    /// The list holds no file.
    EmptyList,
}

impl Error {
    /// What [`Error::message`] returns.
    pub open spec fn spec_message(&self) -> Seq<char> {
        match self {
            Error::Io(reason) => reason@,
            Error::DuplicatePath(path) => "File with path "@ + path@ + " is already open"@,
            Error::EmptyList => "ListState empty"@,
        }
    }

    /// The error as a line of text.
    pub fn message(&self) -> (text: String)
        ensures
            text@ == self.spec_message(),
    {
        match self {
            Error::Io(reason) => reason.clone(),
            Error::DuplicatePath(path) => {
                let mut text = "File with path ".to_owned();
                text.append(path.as_str());
                text.append(" is already open");
                text
            },
            Error::EmptyList => "ListState empty".to_owned(),
        }
    }
}

/// A list to maintain the open files in the order in which they were
/// opened.
pub struct FileList {
    pub table: Vec<FileBuf>,
}

impl Default for FileList {
    fn default() -> (list: Self)
        ensures
            list.table@.len() == 0,
    {
        FileList::new()
    }
}

impl FileList {
    /// Every buffer of the list is valid.
    pub open spec fn wf(&self) -> bool {
        forall|i: int| 0 <= i < self.table@.len() ==> (#[trigger] self.table@[i])@.wf()
    }

    /// The values of the buffers, in their order.
    pub open spec fn views(&self) -> Seq<FileBufView> {
        Seq::new(self.table@.len(), |i: int| self.table@[i]@)
    }

    /// Whether a buffer of the list was opened on `path`.
    pub open spec fn has_path(&self, path: Seq<char>) -> bool {
        exists|i: int| 0 <= i < self.table@.len() && (#[trigger] self.table@[i])@.path == path
    }

    /// No two buffers of the list were opened on the same path.
    pub open spec fn unique_paths(&self) -> bool {
        forall|i: int, j: int|
            0 <= i < j < self.table@.len() ==> (#[trigger] self.table@[i])@.path != (
            #[trigger] self.table@[j])@.path
    }

    /// The predicates of the list, said of the values of its buffers.
    pub proof fn lemma_views(&self, path: Seq<char>)
        ensures
            self.views().len() == self.table@.len(),
            self.wf() <==> forall|i: int|
                0 <= i < self.views().len() ==> (#[trigger] self.views()[i]).wf(),
            self.has_path(path) <==> exists|i: int|
                0 <= i < self.views().len() && (#[trigger] self.views()[i]).path == path,
    {
        if self.wf() {
            assert forall|i: int| 0 <= i < self.views().len() implies (
            #[trigger] self.views()[i]).wf() by {
                assert(self.table@[i]@.wf());
            }
        }
        if forall|i: int| 0 <= i < self.views().len() ==> (#[trigger] self.views()[i]).wf() {
            assert forall|i: int| 0 <= i < self.table@.len() implies (
            #[trigger] self.table@[i])@.wf() by {
                assert(self.views()[i].wf());
            }
        }
        if self.has_path(path) {
            let i = choose|i: int|
                0 <= i < self.table@.len() && (#[trigger] self.table@[i])@.path == path;
            assert(self.views()[i].path == path);
        }
        if exists|i: int|
            0 <= i < self.views().len() && (#[trigger] self.views()[i]).path == path {
            let i = choose|i: int|
                0 <= i < self.views().len() && (#[trigger] self.views()[i]).path == path;
            assert(self.table@[i]@.path == path);
        }
    }

    /// An empty list.
    pub fn new() -> (list: FileList)
        ensures
            list.table@.len() == 0,
            list.wf(),
            list.unique_paths(),
    {
        FileList { table: Vec::new() }
    }

    /// The list of the files just opened, each given by its name and its
    /// canonical path, in their order. Paths are not compared here.
    pub fn with_files(files: Vec<(String, String)>) -> (list: FileList)
        ensures
            list.wf(),
            list.table@.len() == files@.len(),
            forall|i: int|
                0 <= i < files@.len() ==> (#[trigger] list.table@[i])@ == FileBufView::fresh(
                    files@[i].0@,
                    files@[i].1@,
                    false,
                ),
    {
        let mut table: Vec<FileBuf> = Vec::new();
        let mut i: usize = 0;
        while i < files.len()
            invariant
                i <= files.len(),
                table@.len() == i,
                forall|k: int|
                    0 <= k < i ==> (#[trigger] table@[k])@ == FileBufView::fresh(
                        files@[k].0@,
                        files@[k].1@,
                        false,
                    ),
            decreases files.len() - i,
        {
            let file = FileBuf::new(files[i].0.as_str(), files[i].1.as_str(), false);
            table.push(file);
            i += 1;
        }
        FileList { table }
    }

    /// Whether a buffer of the list was opened on `path`.
    pub fn contains_path(&self, path: &str) -> (found: bool)
        ensures
            found == self.has_path(path@),
    {
        let wanted = path.to_owned();
        let mut i: usize = 0;
        while i < self.table.len()
            invariant
                i <= self.table@.len(),
                wanted@ == path@,
                forall|k: int| 0 <= k < i ==> (#[trigger] self.table@[k])@.path != path@,
            decreases self.table.len() - i,
        {
            if self.table[i].path == wanted {
                return true;
            }
            i += 1;
        }
        false
    }

    /// Appends a buffer for the file just opened at the canonical `path`,
    /// listed under `name`, unless a buffer of the list already has that
    /// path: then the list stays as it is and the path is reported.
    pub fn insert(&mut self, name: &str, path: &str) -> (res: Result<(), Error>)
        ensures
            old(self).has_path(path@) ==> final(self).table@ == old(self).table@ && (
            res matches Err(Error::DuplicatePath(p)) && p@ == path@),
            !old(self).has_path(path@) ==> res is Ok && final(self).table@.len() == old(self).table@.len() + 1 && final(self).table@.drop_last() == old(self).table@ && final(self).table@.last()@ == FileBufView::fresh(name@, path@, false),
            old(self).wf() ==> final(self).wf(),
            old(self).unique_paths() ==> final(self).unique_paths(),
    {
        if self.contains_path(path) {
            return Err(Error::DuplicatePath(path.to_owned()));
        }
        let file = FileBuf::new(name, path, false);
        self.table.push(file);
        assert(self.table@.drop_last() =~= old(self).table@);
        Ok(())
    }

    /// Removes the buffer at `id`; those behind it move up by one.
    pub fn close(&mut self, id: usize)
        requires
            id < old(self).table@.len(),
        ensures
            final(self).table@ == old(self).table@.remove(id as int),
            old(self).wf() ==> final(self).wf(),
            old(self).unique_paths() ==> final(self).unique_paths(),
    {
        self.table.remove(id);
    }

    /// How many files are open.
    pub fn len(&self) -> (len: usize)
        ensures
            len == self.table@.len(),
    {
        self.table.len()
    }

    /// The names of the files, in their order.
    pub fn names(&self) -> (names: Vec<&str>)
        ensures
            names@.len() == self.table@.len(),
            forall|i: int| 0 <= i < names@.len() ==> names@[i]@ == (#[trigger] self.table@[i])@.name,
    {
        let mut names: Vec<&str> = Vec::new();
        let mut i: usize = 0;
        while i < self.table.len()
            invariant
                i <= self.table@.len(),
                names@.len() == i,
                forall|k: int| 0 <= k < i ==> names@[k]@ == (#[trigger] self.table@[k])@.name,
            decreases self.table.len() - i,
        {
            names.push(self.table[i].name());
            i += 1;
        }
        names
    }

    /// The buffer at `index`, if there is one.
    #[inline]
    pub fn get_file_buff(&self, index: usize) -> (file: Option<&FileBuf>)
        ensures
            index < self.table@.len() ==> file == Some(&self.table@[index as int]),
            index >= self.table@.len() ==> file is None,
    {
        if index < self.table.len() {
            Some(&self.table[index])
        } else {
            None
        }
    }

    /// The buffer at `index`, to be changed in place, if there is one.
    #[inline]
    pub fn get_file_buff_mut(&mut self, index: usize) -> (file: Option<&mut FileBuf>)
        ensures
            index >= old(self).table@.len() ==> file is None && *final(self) == *old(self),
            index < old(self).table@.len() ==> (file matches Some(f) && *f == old(self).table@[index as int] && final(self).table@ == old(self).table@.update(
                index as int,
                *final(f),
            )),
    {
        if index < self.table.len() {
            Some(&mut self.table[index])
        } else {
            None
        }
    }
}

} // verus!
