//! The filename prompt, the selection in the file list, and what a key
//! press does to them and to the open buffers.

use vstd::prelude::*;
use vstd::utf8::{encode_utf8, is_char_boundary};
use ratatui::widgets::ListState;
use crate::cursor::{toggled, CursorState, Files, Focus, View as TextView};
use crate::io::{owned_texts, Error, FileBufView, FileList};
use crate::resource::{Resource, ResourceView};
use crate::text::push_char;
use crate::utils::{spec_complete, starts_with};
use crate::{bounded_add, saturating_sub, spec_bounded_add};

verus! {

/// Milliseconds that one frame waits for the keyboard.
pub const DELTA: u64 = 16;

/// The mathematical value of an [`EntryBox`].
pub ghost struct EntryBoxView {
    /// Whether the prompt is open.
    pub is_active: bool,
    /// Whether the last submission failed.
    pub is_err: bool,
    /// The text typed so far.
    pub input: Seq<char>,
}

/// The text with `"./"` in front, unless it starts at the root.
pub open spec fn rooted(input: Seq<char>) -> Seq<char> {
    if input.len() > 0 && input[0] == '/' {
        input
    } else {
        seq!['.', '/'] + input
    }
}

/// The length of the text up to and including its last `'/'`; zero where
/// it holds none.
pub open spec fn dir_len(path: Seq<char>) -> nat
    decreases path.len(),
{
    if path.len() == 0 {
        0
    } else if path.last() == '/' {
        path.len()
    } else {
        dir_len(path.drop_last())
    }
}

/// The directory in which the typed text is completed: the rooted text up
/// to and including its last `'/'`.
pub open spec fn completion_dir(input: Seq<char>) -> Seq<char> {
    rooted(input).take(dir_len(rooted(input)) as int)
}

/// The text without a leading `"./"`.
pub open spec fn unrooted(path: Seq<char>) -> Seq<char> {
    if seq!['.', '/'].is_prefix_of(path) {
        path.skip(2)
    } else {
        path
    }
}

/// The typed text completed against the names of a directory listing.
pub open spec fn completed(input: Seq<char>, names: Seq<Seq<char>>) -> Seq<char> {
    unrooted(spec_complete(names, rooted(input)))
}

/// The line in which a filename is typed.
pub struct EntryBox {
    is_active: bool,
    is_err: bool,
    input_buff: String,
}

impl View for EntryBox {
    type V = EntryBoxView;

    closed spec fn view(&self) -> EntryBoxView {
        EntryBoxView { is_active: self.is_active, is_err: self.is_err, input: self.input_buff@ }
    }
}

impl Default for EntryBox {
    fn default() -> (entry_box: Self)
        ensures
            entry_box@ == (EntryBoxView { is_active: false, is_err: false, input: Seq::empty() }),
    {
        EntryBox::new()
    }
}

/// Columns of the prompt's box that its text cannot use: the two borders
/// and the cell of the cursor.
pub const ENTRY_CHROME: u16 = 3;

/// What [`text_width`] returns.
pub open spec fn spec_text_width(box_width: u16) -> usize {
    if box_width < ENTRY_CHROME {
        0
    } else {
        (box_width - ENTRY_CHROME) as usize
    }
}

/// How many bytes of the typed text a prompt of `box_width` columns shows.
pub fn text_width(box_width: u16) -> (width: usize)
    ensures
        width == spec_text_width(box_width),
{
    box_width.saturating_sub(ENTRY_CHROME) as usize
}

/// `String::pop`: removes the last character and returns it, or returns
/// `None` and leaves the string alone where it is empty.
#[verifier::external_body]
fn pop_char(s: &mut String) -> (last: Option<char>)
    ensures
        old(s)@.len() == 0 ==> last is None && final(s)@ == old(s)@,
        old(s)@.len() > 0 ==> last == Some(old(s)@.last()) && final(s)@ == old(s)@.drop_last(),
{
    s.pop()
}

/// The typed text with `"./"` in front, unless it starts at the root.
fn rooted_text(input: &str) -> (text: String)
    ensures
        text@ == rooted(input@),
{
    proof {
        reveal_strlit("/");
        reveal_strlit("./");
        if "/"@.is_prefix_of(input@) {
            assert(input@.subrange(0, 1)[0] == input@[0]);
        }
    }
    if starts_with(input, "/") {
        input.to_owned()
    } else {
        let mut text = "./".to_owned();
        text.append(input);
        assert(text@ =~= rooted(input@));
        text
    }
}

/// How many characters of `path` lie before the end of its last `'/'`.
fn dir_length(path: &str) -> (len: usize)
    ensures
        len == dir_len(path@),
        len <= path@.len(),
{
    let mut len: usize = 0;
    let mut seen: usize = 0;
    let total = path.unicode_len();
    assert(path@.take(0) =~= Seq::<char>::empty());
    for c in it: path.chars()
        invariant
            it.seq() == path@,
            total == path@.len(),
            seen == it.index(),
            len == dir_len(path@.take(seen as int)),
            len <= seen,
    {
        proof {
            assert(path@.take(seen + 1).drop_last() =~= path@.take(seen as int));
            assert(path@.take(seen + 1).last() == c);
        }
        seen = seen + 1;
        if c == '/' {
            len = seen;
        }
    }
    assert(path@.take(seen as int) =~= path@);
    len
}

impl EntryBox {
    /// A closed prompt without text and without error.
    #[inline]
    pub fn new() -> (entry_box: Self)
        ensures
            entry_box@ == (EntryBoxView { is_active: false, is_err: false, input: Seq::empty() }),
    {
        EntryBox { is_active: false, is_err: false, input_buff: String::new() }
    }

    /// Opens a closed prompt and closes an open one.
    pub fn toggle(&mut self)
        ensures
            final(self)@ == (EntryBoxView { is_active: !old(self)@.is_active, ..old(self)@ }),
    {
        self.is_active = !self.is_active;
    }

    /// Whether the prompt is open.
    #[inline]
    pub fn is_visible(&self) -> (visible: bool)
        ensures
            visible == self@.is_active,
    {
        self.is_active
    }

    /// Adds a character at the end of the text.
    pub fn push(&mut self, ch: char)
        ensures
            final(self)@ == (EntryBoxView { input: old(self)@.input.push(ch), ..old(self)@ }),
    {
        push_char(&mut self.input_buff, ch);
    }

    /// The directory whose listing completes the typed text: the text,
    /// with `"./"` in front unless it starts with `'/'`, up to and
    /// including its last `'/'`.
    pub fn completion_dir(&self) -> (dir: String)
        ensures
            dir@ == completion_dir(self@.input),
    {
        let text = rooted_text(self.input_buff.as_str());
        let len = dir_length(text.as_str());
        text.as_str().substring_char(0, len).to_owned()
    }

    /// Completes the typed text against `filenames`, the entries of the
    /// completion directory: the text becomes the greatest common prefix
    /// of the entries that start with it, where there is one. Entries and
    /// text are compared with `"./"` in front of a text that does not
    /// start with `'/'`, and that `"./"` is taken off the result again.
    pub fn complete(&mut self, filenames: Vec<String>)
        ensures
            final(self)@ == (EntryBoxView {
                input: completed(old(self)@.input, owned_texts(filenames@)),
                ..old(self)@
            }),
    {
        let text = rooted_text(self.input_buff.as_str());
        let common = crate::utils::complete(filenames, &text);
        proof {
            reveal_strlit("./");
        }
        if starts_with(common.as_str(), "./") {
            let len = common.as_str().unicode_len();
            self.input_buff = common.as_str().substring_char(2, len).to_owned();
            assert(self.input_buff@ =~= common@.skip(2));
        } else {
            self.input_buff = common;
        }
    }

    /// Removes the last character, if there is one.
    pub fn pop(&mut self)
        ensures
            final(self)@ == (EntryBoxView {
                input: if old(self)@.input.len() > 0 {
                    old(self)@.input.drop_last()
                } else {
                    old(self)@.input
                },
                ..old(self)@
            }),
    {
        let _ = pop_char(&mut self.input_buff);
    }

    /// The length of the text in bytes.
    #[inline]
    pub fn len(&self) -> (len: usize)
        ensures
            len == encode_utf8(self@.input).len() as usize,
    {
        self.input_buff.as_str().len()
    }

    /// Whether nothing is typed.
    #[inline]
    pub fn is_empty(&self) -> (empty: bool)
        ensures
            empty == (self@.input.len() == 0),
    {
        self.input_buff.as_str().is_empty()
    }

    /// Forgets the text.
    pub fn clear(&mut self)
        ensures
            final(self)@ == (EntryBoxView { input: Seq::empty(), ..old(self)@ }),
    {
        self.input_buff = String::new();
    }

    /// Hands out the text and leaves the box empty.
    #[inline]
    pub fn take(&mut self) -> (text: String)
        ensures
            text@ == old(self)@.input,
            final(self)@ == (EntryBoxView { input: Seq::empty(), ..old(self)@ }),
    {
        let mut text = String::new();
        core::mem::swap(&mut self.input_buff, &mut text);
        text
    }

    /// The text typed so far.
    #[inline]
    pub fn get(&self) -> (text: &str)
        ensures
            text@ == self@.input,
    {
        self.input_buff.as_str()
    }

    /// Marks the prompt as failed.
    pub fn set_err(&mut self)
        ensures
            final(self)@ == (EntryBoxView { is_err: true, ..old(self)@ }),
    {
        self.is_err = true;
    }

    /// Takes the mark of failure off the prompt.
    pub fn set_ok(&mut self)
        ensures
            final(self)@ == (EntryBoxView { is_err: false, ..old(self)@ }),
    {
        self.is_err = false;
    }

    /// Whether the last submission failed.
    #[inline]
    pub fn is_err(&self) -> (is_err: bool)
        ensures
            is_err == self@.is_err,
    {
        self.is_err
    }

    /// A copy of the text.
    #[inline]
    pub fn input_buff(&self) -> (text: String)
        ensures
            text@ == self@.input,
    {
        self.input_buff.clone()
    }

    /// The column of the cursor in a prompt of `box_width` columns, counted
    /// from the left border: one past the text that is shown.
    pub fn cursor_column(&self, box_width: u16) -> (column: u16)
        ensures
            column == if encode_utf8(self@.input).len() as usize <= spec_text_width(box_width) {
                encode_utf8(self@.input).len() as usize + 1
            } else {
                spec_text_width(box_width) + 1
            },
    {
        let width = text_width(box_width);
        let len = self.len();
        let shown = if len <= width {
            len
        } else {
            width
        };
        (shown + 1) as u16
    }

    /// The end of the text that fits into `width` bytes: the whole text
    /// where it is no longer than that. The cut must not fall inside a
    /// character.
    pub fn get_span(&self, width: usize) -> (span: &str)
        requires
            is_char_boundary(
                encode_utf8(self@.input),
                saturating_sub(encode_utf8(self@.input).len() as usize, width) as int,
            ),
        ensures
            encode_utf8(span@) == encode_utf8(self@.input).skip(
                saturating_sub(encode_utf8(self@.input).len() as usize, width) as int,
            ),
    {
        let len = self.input_buff.as_str().len();
        let offset = len.saturating_sub(width);
        let (_, span) = self.input_buff.as_str().split_at(offset);
        span
    }
}

/// The state that the list widget keeps between frames: which row is
/// selected, and how far the list is scrolled.
#[verifier::external_type_specification]
#[verifier::external_body]
pub struct ExListState(ListState);

/// The row that a list widget's state has selected, if any.
pub uninterp spec fn list_selected(state: ListState) -> Option<usize>;

/// `ListState::default`: the state of a list with no row selected.
#[verifier::external_body]
fn unselected() -> (state: ListState)
    ensures
        list_selected(state) is None,
{
    ListState::default()
}

/// `ListState::select` with `Some(index)`: the row `index` becomes the
/// selected one.
#[verifier::external_body]
fn select_row(state: &mut ListState, index: usize)
    ensures
        list_selected(*final(state)) == Some(index),
{
    state.select(Some(index));
}

/// `ListState::selected`: the selected row, if any.
#[verifier::external_body]
fn selected_row(state: &ListState) -> (row: Option<usize>)
    ensures
        row == list_selected(*state),
{
    state.selected()
}

/// The mathematical value of a [`FileListState`].
pub ghost struct FileListStateView {
    /// How many files the list holds.
    pub size: usize,
    /// The file that is shown.
    pub index: usize,
    /// The row that the widget highlights.
    pub selected: Option<usize>,
}

impl FileListStateView {
    /// The selection moved to `index`, in the list and in the widget.
    pub open spec fn at(self, index: usize) -> FileListStateView {
        FileListStateView { index, selected: Some(index), ..self }
    }

    /// The index of the last file, or zero in an empty list.
    pub open spec fn last(self) -> usize {
        saturating_sub(self.size, 1)
    }

    /// The selection lies within the list (at zero where it is empty).
    pub open spec fn in_range(self) -> bool {
        self.index <= self.last()
    }

    pub open spec fn moved_next(self) -> FileListStateView {
        self.at(spec_bounded_add(self.index, 1, self.last()))
    }

    pub open spec fn moved_prev(self) -> FileListStateView {
        self.at(saturating_sub(self.index, 1))
    }

    pub open spec fn moved_top(self) -> FileListStateView {
        self.at(0)
    }

    pub open spec fn moved_bottom(self) -> FileListStateView {
        self.at(self.last())
    }

    /// The list after its selected file was closed: one file fewer, the
    /// selection on the same place, or on the new last file where the
    /// closed one was the last.
    pub open spec fn closed(self) -> FileListStateView {
        let size = saturating_sub(self.size, 1);
        let last = saturating_sub(size, 1);
        FileListStateView { size, ..self }.at(
            if self.index < last {
                self.index
            } else {
                last
            },
        )
    }
}

/// Which file of the list is selected.
pub struct FileListState {
    size: usize,
    index: usize,
    state: ListState,
}

impl View for FileListState {
    type V = FileListStateView;

    closed spec fn view(&self) -> FileListStateView {
        FileListStateView {
            size: self.size,
            index: self.index,
            selected: list_selected(self.state),
        }
    }
}

impl FileListState {
    /// The selection on the first of `size` files.
    pub fn new(size: usize) -> (list: Self)
        ensures
            list@ == (FileListStateView { size, index: 0, selected: Some(0usize) }),
    {
        let mut state = unselected();
        select_row(&mut state, 0);
        FileListState { size, index: 0, state }
    }

    /// Tells the selection how many files the list holds now.
    pub fn set_size(&mut self, size: usize)
        ensures
            final(self)@ == (FileListStateView { size, ..old(self)@ }),
    {
        self.size = size;
    }

    /// How many files the list holds.
    pub fn size(&self) -> (size: usize)
        ensures
            size == self@.size,
    {
        self.size
    }

    /// One file down, unless the selection is on the last one or past it.
    pub fn next(&mut self)
        ensures
            final(self)@ == old(self)@.moved_next(),
    {
        self.index = bounded_add(self.index, 1, self.size.saturating_sub(1));
        select_row(&mut self.state, self.index);
    }

    /// To the last file.
    pub fn bottom(&mut self)
        ensures
            final(self)@ == old(self)@.moved_bottom(),
    {
        self.index = self.size.saturating_sub(1);
        select_row(&mut self.state, self.index);
    }

    /// One file up, unless the selection is on the first one.
    pub fn prev(&mut self)
        ensures
            final(self)@ == old(self)@.moved_prev(),
    {
        self.index = self.index.saturating_sub(1);
        select_row(&mut self.state, self.index);
    }

    /// To the first file.
    pub fn top(&mut self)
        ensures
            final(self)@ == old(self)@.moved_top(),
    {
        self.index = 0;
        select_row(&mut self.state, self.index);
    }

    /// The index of the selected file.
    #[inline]
    pub fn index(&self) -> (index: usize)
        ensures
            index == self@.index,
    {
        self.index
    }

    /// The row that the widget highlights.
    pub fn selected(&self) -> (row: Option<usize>)
        ensures
            row == self@.selected,
    {
        selected_row(&self.state)
    }

    /// The widget's state, for the renderer to use and to change.
    pub fn get_mut(&mut self) -> (state: &mut ListState)
        ensures
            list_selected(*state) == old(self)@.selected,
            final(self)@ == (FileListStateView {
                selected: list_selected(*final(state)),
                ..old(self)@
            }),
    {
        &mut self.state
    }

    /// Takes the selected file out of the list and returns its index; the
    /// selection stays in place, or moves to the new last file. An empty
    /// list is left alone and reported.
    pub fn close(&mut self) -> (res: Result<usize, Error>)
        ensures
            old(self)@.size == 0 ==> (res matches Err(e) && e is EmptyList && final(self)@ == old(self)@),
            old(self)@.size > 0 ==> res == Ok::<usize, Error>(old(self)@.index) && final(self)@
                == old(self)@.closed(),
    {
        if self.size == 0 {
            return Err(Error::EmptyList);
        }
        let res = self.index;
        self.size = self.size.saturating_sub(1);
        let last = self.size.saturating_sub(1);
        self.index = if self.index < last {
            self.index
        } else {
            last
        };
        select_row(&mut self.state, self.index);
        Ok(res)
    }
}

/// What came of listening for a key.
pub struct KeyListenerResponse {
    should_exit: bool,
    polled: bool,
}

impl KeyListenerResponse {
    /// Whether the program is to end.
    pub fn should_exit(&self) -> (exit: bool)
        ensures
            exit == self.spec_should_exit(),
    {
        self.should_exit
    }

    /// Whether an event was there to be read.
    pub fn polled(&self) -> (polled: bool)
        ensures
            polled == self.spec_polled(),
    {
        self.polled
    }

    /// Whether the program is to end.
    pub closed spec fn spec_should_exit(&self) -> bool {
        self.should_exit
    }

    /// Whether an event was there to be read.
    pub closed spec fn spec_polled(&self) -> bool {
        self.polled
    }
}

/// The keys that the program tells apart.
#[derive(Clone, Copy, Debug, PartialEq, Eq, Structural)]
pub enum KeyCode {
    Char(char),
    Esc,
    Tab,
    Enter,
    Backspace,
    /// Any other key.
    Other,
}

/// The modifier keys held down with a key, as far as the program tells
/// them apart.
#[derive(Clone, Copy, Debug, PartialEq, Eq, Structural)]
pub enum KeyModifiers {
    /// None at all.
    Bare,
    /// The control key and no other.
    Control,
    /// Any other combination.
    Other,
}

/// A key with its modifiers.
#[derive(Clone, Copy, Debug, PartialEq, Eq, Structural)]
pub struct KeyEvent {
    pub code: KeyCode,
    pub modifiers: KeyModifiers,
}

/// What the terminal reported.
#[derive(Clone, Copy, Debug, PartialEq, Eq, Structural)]
pub enum Event {
    Key(KeyEvent),
    /// Anything that is not a key: the mouse, a resize, a paste.
    Other,
}

/// What a key means while the prompt is closed.
#[derive(Clone, Copy, Debug, PartialEq, Eq, Structural)]
pub enum Command {
    /// Open the filename prompt.
    OpenPrompt,
    /// Close the selected file.
    CloseFile,
    /// Put the focus on the file list.
    FocusFiles,
    /// Put the focus on the text view.
    FocusView,
    /// One step down in the pane that has the focus.
    Down,
    /// One step up in the pane that has the focus.
    Up,
    /// To the end of the pane that has the focus.
    Bottom,
    /// To the start of the pane that has the focus.
    Top,
    /// Nothing.
    Ignore,
}

/// What a key means while the prompt is open.
#[derive(Clone, Copy, Debug, PartialEq, Eq, Structural)]
pub enum Edit {
    /// Close the prompt and forget the text.
    Cancel,
    /// Complete the text against the directory it names.
    Complete,
    /// Open the file that the text names.
    Submit,
    /// Take the last character off.
    Erase,
    /// Add a character.
    Type(char),
    /// Nothing.
    Ignore,
}

/// What the caller has to do for the prompt after a key was handled.
#[derive(Debug)]
pub enum Request {
    /// Nothing.
    Nothing,
    /// List this directory and hand the entries to [`EntryBox::complete`].
    ListDirectory(String),
    /// Open the file of this name and report to [`file_opened`].
    OpenFile(String),
}

/// The mathematical value of a [`Request`].
pub ghost enum RequestView {
    Nothing,
    ListDirectory(Seq<char>),
    OpenFile(Seq<char>),
}

impl View for Request {
    type V = RequestView;

    open spec fn view(&self) -> RequestView {
        match self {
            Request::Nothing => RequestView::Nothing,
            Request::ListDirectory(dir) => RequestView::ListDirectory(dir@),
            Request::OpenFile(name) => RequestView::OpenFile(name@),
        }
    }
}

/// Whether the event is the chord that ends the program: control and `q`.
pub open spec fn is_quit(event: Event) -> bool {
    event == Event::Key(
        KeyEvent { code: KeyCode::Char('q'), modifiers: KeyModifiers::Control },
    )
}

/// What the event means while the prompt is closed.
pub open spec fn command_of(event: Event) -> Command {
    match event {
        Event::Key(KeyEvent { code: KeyCode::Char(c), modifiers: KeyModifiers::Control }) => {
            if c == 'n' {
                Command::OpenPrompt
            } else if c == 'd' {
                Command::CloseFile
            } else if c == 'h' {
                Command::FocusFiles
            } else if c == 'l' {
                Command::FocusView
            } else if c == 'j' {
                Command::Bottom
            } else if c == 'k' {
                Command::Top
            } else {
                Command::Ignore
            }
        },
        Event::Key(KeyEvent { code: KeyCode::Char(c), modifiers: KeyModifiers::Bare }) => {
            if c == 'j' {
                Command::Down
            } else if c == 'k' {
                Command::Up
            } else {
                Command::Ignore
            }
        },
        _ => Command::Ignore,
    }
}

/// What the event means while the prompt is open.
pub open spec fn edit_of(event: Event) -> Edit {
    match event {
        Event::Key(KeyEvent { code: KeyCode::Char(c), modifiers }) => {
            if c == 'n' && modifiers == KeyModifiers::Control {
                Edit::Cancel
            } else {
                Edit::Type(c)
            }
        },
        Event::Key(KeyEvent { code: KeyCode::Esc, modifiers }) => {
            if modifiers == KeyModifiers::Bare {
                Edit::Cancel
            } else {
                Edit::Ignore
            }
        },
        Event::Key(KeyEvent { code: KeyCode::Tab, .. }) => Edit::Complete,
        Event::Key(KeyEvent { code: KeyCode::Enter, .. }) => Edit::Submit,
        Event::Key(KeyEvent { code: KeyCode::Backspace, .. }) => Edit::Erase,
        _ => Edit::Ignore,
    }
}

/// The cursor moved to `pane`, unless it is suspended.
pub open spec fn focused(state: CursorState, pane: Focus) -> CursorState {
    match state {
        CursorState::Active(_) => CursorState::Active(pane),
        CursorState::Suspended(kept) => CursorState::Suspended(kept),
    }
}

/// The buffer after a step of the kind `command` in the text view.
pub open spec fn scrolled_by(file: FileBufView, command: Command) -> FileBufView {
    match command {
        Command::Down => file.scrolled_next(),
        Command::Up => file.scrolled_prev(),
        Command::Bottom => file.scrolled_bottom(),
        Command::Top => file.scrolled_top(),
        _ => file,
    }
}

/// The selection after a step of the kind `command` in the file list.
pub open spec fn moved_by(list: FileListStateView, command: Command) -> FileListStateView {
    match command {
        Command::Down => list.moved_next(),
        Command::Up => list.moved_prev(),
        Command::Bottom => list.moved_bottom(),
        Command::Top => list.moved_top(),
        _ => list,
    }
}

impl ResourceView {
    /// The state after `command` was carried out with the prompt closed.
    /// A step goes to the pane that has the focus: in the file list it
    /// moves the selection, in the text view it scrolls the selected file,
    /// and with the focus suspended it does nothing.
    pub open spec fn after_command(self, command: Command) -> ResourceView {
        match command {
            Command::OpenPrompt => ResourceView {
                pointer: toggled(self.pointer),
                entry_box: EntryBoxView {
                    is_active: !self.entry_box.is_active,
                    ..self.entry_box
                },
                ..self
            },
            Command::CloseFile => if self.list.size == 0 {
                self
            } else {
                ResourceView {
                    list: self.list.closed(),
                    files: self.files.remove(self.list.index as int),
                    ..self
                }
            },
            Command::FocusFiles => ResourceView {
                pointer: focused(self.pointer, Focus::Files),
                ..self
            },
            Command::FocusView => ResourceView {
                pointer: focused(self.pointer, Focus::View),
                ..self
            },
            Command::Ignore => self,
            _ => if self.pointer == CursorState::Active(Focus::Files) {
                ResourceView { list: moved_by(self.list, command), ..self }
            } else if self.pointer == CursorState::Active(Focus::View) && self.list.index
                < self.files.len() {
                ResourceView {
                    files: self.files.update(
                        self.list.index as int,
                        scrolled_by(self.files[self.list.index as int], command),
                    ),
                    ..self
                }
            } else {
                self
            },
        }
    }

    /// The state after `edit` was applied to the open prompt. Completing
    /// and submitting change nothing by themselves: they are requests.
    pub open spec fn after_edit(self, edit: Edit) -> ResourceView {
        match edit {
            Edit::Cancel => ResourceView {
                pointer: toggled(self.pointer),
                entry_box: EntryBoxView {
                    is_active: !self.entry_box.is_active,
                    input: Seq::empty(),
                    ..self.entry_box
                },
                ..self
            },
            Edit::Erase => ResourceView {
                entry_box: EntryBoxView {
                    is_err: false,
                    input: if self.entry_box.input.len() > 0 {
                        self.entry_box.input.drop_last()
                    } else {
                        self.entry_box.input
                    },
                    ..self.entry_box
                },
                ..self
            },
            Edit::Type(c) => ResourceView {
                entry_box: EntryBoxView {
                    input: self.entry_box.input.push(c),
                    ..self.entry_box
                },
                ..self
            },
            _ => self,
        }
    }

    /// What `edit` asks the caller to do.
    pub open spec fn request_of(self, edit: Edit) -> RequestView {
        match edit {
            Edit::Complete => RequestView::ListDirectory(completion_dir(self.entry_box.input)),
            Edit::Submit => RequestView::OpenFile(self.entry_box.input),
            _ => RequestView::Nothing,
        }
    }

    /// The state after the file named in the prompt was opened at the
    /// canonical path `path`. A path that is already open marks the prompt
    /// as failed and changes nothing else. A new one gets a buffer at the
    /// end of the list; the prompt is emptied and, unless the name was
    /// empty, cleared of its error and closed, the focus returns, and the
    /// selection learns the new size.
    pub open spec fn after_open(self, name: Seq<char>, path: Seq<char>) -> ResourceView {
        if exists|i: int| 0 <= i < self.files.len() && (#[trigger] self.files[i]).path == path {
            self.after_failed_open()
        } else {
            let files = self.files.push(FileBufView::fresh(name, path, false));
            if name.len() == 0 {
                ResourceView {
                    entry_box: EntryBoxView { input: Seq::empty(), ..self.entry_box },
                    files,
                    ..self
                }
            } else {
                ResourceView {
                    pointer: toggled(self.pointer),
                    entry_box: EntryBoxView {
                        is_active: !self.entry_box.is_active,
                        is_err: false,
                        input: Seq::empty(),
                    },
                    list: FileListStateView { size: files.len() as usize, ..self.list },
                    files,
                }
            }
        }
    }

    /// The state after the file named in the prompt could not be opened:
    /// the prompt is marked as failed and keeps its text.
    pub open spec fn after_failed_open(self) -> ResourceView {
        ResourceView { entry_box: EntryBoxView { is_err: true, ..self.entry_box }, ..self }
    }
}

/// The prompt is open exactly while the focus is suspended. This holds at
/// startup, and no key and no outcome of opening a file changes it.
pub proof fn lemma_prompt_suspends_focus(
    r: ResourceView,
    event: Event,
    name: Seq<char>,
    path: Seq<char>,
)
    requires
        r.entry_box.is_active <==> r.pointer is Suspended,
        name.len() > 0,
    ensures
        r.after_command(command_of(event)).entry_box.is_active <==> r.after_command(
            command_of(event),
        ).pointer is Suspended,
        r.after_edit(edit_of(event)).entry_box.is_active <==> r.after_edit(
            edit_of(event),
        ).pointer is Suspended,
        r.after_open(name, path).entry_box.is_active <==> r.after_open(
            name,
            path,
        ).pointer is Suspended,
        r.after_failed_open().entry_box.is_active <==> r.after_failed_open().pointer is Suspended,
{
}

/// A valid state stays valid under every key.
pub proof fn lemma_keys_keep_state_valid(r: ResourceView, event: Event)
    requires
        r.wf(),
    ensures
        r.after_command(command_of(event)).wf(),
        r.after_edit(edit_of(event)).wf(),
{
    let command = command_of(event);
    let after = r.after_command(command);
    if command == Command::CloseFile && r.list.size > 0 {
        assert forall|i: int| 0 <= i < after.files.len() implies (#[trigger] after.files[i]).wf() by {
            if i < r.list.index {
                assert(after.files[i] == r.files[i]);
            } else {
                assert(after.files[i] == r.files[i + 1]);
            }
        }
    } else {
        assert forall|i: int| 0 <= i < after.files.len() implies (#[trigger] after.files[i]).wf() by {
            assert(r.files[i].wf());
        }
    }
}

/// Whether the event is the chord that ends the program.
fn quit_listener(event: &Event) -> (quit: bool)
    ensures
        quit == is_quit(*event),
{
    match event {
        Event::Key(KeyEvent { code: KeyCode::Char(c), modifiers: KeyModifiers::Control }) => *c
            == 'q',
        _ => false,
    }
}

/// What the event means while the prompt is closed.
fn command(event: Event) -> (command: Command)
    ensures
        command == command_of(event),
{
    match event {
        Event::Key(KeyEvent { code: KeyCode::Char(c), modifiers: KeyModifiers::Control }) => {
            if c == 'n' {
                Command::OpenPrompt
            } else if c == 'd' {
                Command::CloseFile
            } else if c == 'h' {
                Command::FocusFiles
            } else if c == 'l' {
                Command::FocusView
            } else if c == 'j' {
                Command::Bottom
            } else if c == 'k' {
                Command::Top
            } else {
                Command::Ignore
            }
        },
        Event::Key(KeyEvent { code: KeyCode::Char(c), modifiers: KeyModifiers::Bare }) => {
            if c == 'j' {
                Command::Down
            } else if c == 'k' {
                Command::Up
            } else {
                Command::Ignore
            }
        },
        _ => Command::Ignore,
    }
}

/// What the event means while the prompt is open.
fn edit(event: Event) -> (edit: Edit)
    ensures
        edit == edit_of(event),
{
    match event {
        Event::Key(KeyEvent { code: KeyCode::Char(c), modifiers }) => {
            if c == 'n' && modifiers == KeyModifiers::Control {
                Edit::Cancel
            } else {
                Edit::Type(c)
            }
        },
        Event::Key(KeyEvent { code: KeyCode::Esc, modifiers }) => {
            if modifiers == KeyModifiers::Bare {
                Edit::Cancel
            } else {
                Edit::Ignore
            }
        },
        Event::Key(KeyEvent { code: KeyCode::Tab, .. }) => Edit::Complete,
        Event::Key(KeyEvent { code: KeyCode::Enter, .. }) => Edit::Submit,
        Event::Key(KeyEvent { code: KeyCode::Backspace, .. }) => Edit::Erase,
        _ => Edit::Ignore,
    }
}

/// A step of the kind `command` in the file list.
fn step_in_list(list: &mut FileListState, command: Command)
    ensures
        final(list)@ == moved_by(old(list)@, command),
{
    match command {
        Command::Down => list.next(),
        Command::Up => list.prev(),
        Command::Bottom => list.bottom(),
        Command::Top => list.top(),
        _ => {},
    }
}

/// A step of the kind `command` in the text of the file at `index`, if
/// there is one.
fn step_in_view(files: &mut FileList, index: usize, command: Command)
    ensures
        old(files).wf() ==> final(files).wf(),
        final(files).views() == if index < old(files).views().len() {
            old(files).views().update(
                index as int,
                scrolled_by(old(files).views()[index as int], command),
            )
        } else {
            old(files).views()
        },
{
    if let Some(curr_buff) = files.get_file_buff_mut(index) {
        match command {
            Command::Down => curr_buff.next(),
            Command::Up => curr_buff.prev(),
            Command::Bottom => curr_buff.bottom(),
            Command::Top => curr_buff.top(),
            _ => {},
        }
    }
    assert(files.views() =~= if index < old(files).views().len() {
        old(files).views().update(
            index as int,
            scrolled_by(old(files).views()[index as int], command),
        )
    } else {
        old(files).views()
    });
}

/// Carries out what a key means while the prompt is closed: opening the
/// prompt, closing the selected file, moving the focus, or a step in the
/// pane that has the focus.
pub fn normal_key_event(event: Event, res: &mut Resource)
    requires
        old(res)@.wf(),
    ensures
        final(res)@ == old(res)@.after_command(command_of(event)),
        final(res)@.wf(),
{
    let command = command(event);
    match command {
        Command::OpenPrompt => {
            res.pointer.toggle();
            res.entry_box.toggle();
        },
        Command::CloseFile => {
            let id = match res.file_list_state.close() {
                Ok(id) => id,
                Err(_) => {
                    return ;
                },
            };
            proof {
                res.files.lemma_views(Seq::empty());
            }
            res.files.close(id);
            proof {
                res.files.lemma_views(Seq::empty());
                assert(res.files.views() =~= old(res).files.views().remove(id as int));
            }
        },
        Command::FocusFiles => res.pointer.set_cursor::<Files>(),
        Command::FocusView => res.pointer.set_cursor::<TextView>(),
        Command::Ignore => {},
        _ => {
            if res.pointer.cursor_at::<Files>() {
                step_in_list(&mut res.file_list_state, command);
            }
            if res.pointer.cursor_at::<TextView>() {
                let curr_index = res.file_list_state.index();
                proof {
                    res.files.lemma_views(Seq::empty());
                }
                step_in_view(&mut res.files, curr_index, command);
                proof {
                    res.files.lemma_views(Seq::empty());
                }
            }
        },
    }
}

/// Carries out what a key means while the prompt is open, and says what
/// the caller has to do for it: list a directory for a completion, or
/// open the file that was typed.
pub fn write_key_event(event: Event, res: &mut Resource) -> (request: Request)
    ensures
        final(res)@ == old(res)@.after_edit(edit_of(event)),
        request@ == old(res)@.request_of(edit_of(event)),
        old(res)@.wf() ==> final(res)@.wf(),
{
    match edit(event) {
        Edit::Cancel => {
            res.pointer.toggle();
            res.entry_box.clear();
            res.entry_box.toggle();
            Request::Nothing
        },
        Edit::Complete => Request::ListDirectory(res.entry_box.completion_dir()),
        Edit::Submit => Request::OpenFile(res.entry_box.input_buff()),
        Edit::Erase => {
            res.entry_box.set_ok();
            res.entry_box.pop();
            Request::Nothing
        },
        Edit::Type(c) => {
            res.entry_box.push(c);
            Request::Nothing
        },
        Edit::Ignore => Request::Nothing,
    }
}

/// Reports what came of opening the file `name` that the prompt asked
/// for: its canonical path, or why it could not be opened. A failure, and
/// a path that is already open, mark the prompt as failed, leave it open
/// with its text, and are handed back. A new path gets a buffer at the end
/// of the list, and the prompt is emptied and closed.
pub fn file_opened(res: &mut Resource, name: &str, opened: Result<&str, Error>) -> (outcome:
    Result<(), Error>)
    ensures
        final(res)@ == match opened {
            Ok(path) => old(res)@.after_open(name@, path@),
            Err(_) => old(res)@.after_failed_open(),
        },
        match opened {
            Ok(path) => if old(res).files.has_path(path@) {
                outcome matches Err(Error::DuplicatePath(p)) && p@ == path@
            } else {
                outcome is Ok
            },
            Err(err) => outcome == Err::<(), Error>(err),
        },
        old(res)@.wf() && (name@.len() > 0 || outcome is Err) ==> final(res)@.wf(),
{
    let path = match opened {
        Ok(path) => path,
        Err(err) => {
            res.entry_box.set_err();
            return Err(err);
        },
    };
    proof {
        res.files.lemma_views(path@);
    }
    if let Err(err) = res.files.insert(name, path) {
        res.entry_box.set_err();
        assert(res.files.views() =~= old(res).files.views());
        return Err(err);
    }
    proof {
        assert(res.files.views() =~= old(res).files.views().push(
            FileBufView::fresh(name@, path@, false),
        ));
    }

    // Clean the entry box
    res.entry_box.clear();

    if name.is_empty() {
        return Ok(());
    }
    let len = res.files.len();
    res.file_list_state.set_size(len);
    res.entry_box.set_ok();
    res.pointer.toggle();
    res.entry_box.toggle();
    Ok(())
}

/// Handles what the terminal reported within the polling time, if
/// anything: the quit chord asks to end the program, any other event goes
/// to the prompt where it is open and to the panes where it is not.
pub fn key_listener(res: &mut Resource, event: Option<Event>) -> (out: (
    KeyListenerResponse,
    Request,
))
    requires
        old(res)@.wf(),
    ensures
        final(res)@.wf(),
        out.0.spec_polled() == event is Some,
        out.0.spec_should_exit() == (event is Some && is_quit(event.unwrap())),
        final(res)@ == match event {
            None => old(res)@,
            Some(e) => if is_quit(e) {
                old(res)@
            } else if old(res)@.entry_box.is_active {
                old(res)@.after_edit(edit_of(e))
            } else {
                old(res)@.after_command(command_of(e))
            },
        },
        out.1@ == match event {
            Some(e) => if !is_quit(e) && old(res)@.entry_box.is_active {
                old(res)@.request_of(edit_of(e))
            } else {
                RequestView::Nothing
            },
            None => RequestView::Nothing,
        },
{
    let mut request = Request::Nothing;
    let mut polled = false;
    if let Some(event) = event {
        polled = true;
        if quit_listener(&event) {
            return (KeyListenerResponse { should_exit: true, polled }, request);
        }
        if res.entry_box.is_visible() {
            request = write_key_event(event, res);
        } else {
            normal_key_event(event, res);
        }
    }
    (KeyListenerResponse { should_exit: false, polled }, request)
}

/// Raises the view-update flag of every open buffer.
pub fn trigger_view_update(res: &mut Resource)
    ensures
        final(res)@ == (ResourceView {
            files: Seq::new(
                old(res)@.files.len(),
                |i: int| FileBufView { view_update: true, ..old(res)@.files[i] },
            ),
            ..old(res)@
        }),
{
    let mut i: usize = 0;
    while i < res.files.table.len()
        invariant
            i <= res.files.table@.len(),
            res.files.table@.len() == old(res).files.table@.len(),
            res.pointer == old(res).pointer,
            res.entry_box == old(res).entry_box,
            res.file_list_state == old(res).file_list_state,
            forall|k: int|
                0 <= k < i ==> (#[trigger] res.files.table@[k])@ == (FileBufView {
                    view_update: true,
                    ..old(res).files.table@[k]@
                }),
            forall|k: int|
                i <= k < res.files.table@.len() ==> #[trigger] res.files.table@[k] == old(res).files.table@[k],
        decreases res.files.table.len() - i,
    {
        res.files.table[i].trigger_view_update();
        i += 1;
    }
    assert(res@.files =~= Seq::new(
        old(res)@.files.len(),
        |i: int| FileBufView { view_update: true, ..old(res)@.files[i] },
    ));
}

/// Lowers the view-update flag of every open buffer.
pub fn detrigger_view_update(res: &mut Resource)
    ensures
        final(res)@ == (ResourceView {
            files: Seq::new(
                old(res)@.files.len(),
                |i: int| FileBufView { view_update: false, ..old(res)@.files[i] },
            ),
            ..old(res)@
        }),
{
    let mut i: usize = 0;
    while i < res.files.table.len()
        invariant
            i <= res.files.table@.len(),
            res.files.table@.len() == old(res).files.table@.len(),
            res.pointer == old(res).pointer,
            res.entry_box == old(res).entry_box,
            res.file_list_state == old(res).file_list_state,
            forall|k: int|
                0 <= k < i ==> (#[trigger] res.files.table@[k])@ == (FileBufView {
                    view_update: false,
                    ..old(res).files.table@[k]@
                }),
            forall|k: int|
                i <= k < res.files.table@.len() ==> #[trigger] res.files.table@[k] == old(res).files.table@[k],
        decreases res.files.table.len() - i,
    {
        res.files.table[i].detrigger_view_update();
        i += 1;
    }
    assert(res@.files =~= Seq::new(
        old(res)@.files.len(),
        |i: int| FileBufView { view_update: false, ..old(res)@.files[i] },
    ));
}

} // verus!
