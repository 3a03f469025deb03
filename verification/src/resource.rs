//! The state of the whole program: the focus, the filename prompt, the
//! selection and the open files.

use vstd::prelude::*;
use crate::cursor::{CursorState, KeyboardCursor};
use crate::input::{EntryBox, EntryBoxView, FileListState, FileListStateView};
use crate::io::{texts, Error, FileBufView, FileList};

verus! {

/// The mathematical value of a [`Resource`].
pub ghost struct ResourceView {
    pub pointer: CursorState,
    pub entry_box: EntryBoxView,
    pub list: FileListStateView,
    pub files: Seq<FileBufView>,
}

impl ResourceView {
    /// Every buffer is valid, the selection knows how many files there
    /// are, and it lies among them.
    pub open spec fn wf(self) -> bool {
        &&& forall|i: int| 0 <= i < self.files.len() ==> (#[trigger] self.files[i]).wf()
        &&& self.list.size == self.files.len()
        &&& self.list.in_range()
    }
}

/// Everything that the key handling and the drawing share.
pub struct Resource {
    pub pointer: KeyboardCursor,
    pub entry_box: EntryBox,
    pub file_list_state: FileListState,
    pub files: FileList,
}

impl View for Resource {
    type V = ResourceView;

    open spec fn view(&self) -> ResourceView {
        ResourceView {
            pointer: self.pointer.state(),
            entry_box: self.entry_box@,
            list: self.file_list_state@,
            files: self.files.views(),
        }
    }
}

impl Resource {
    /// The state at startup: the given files, the first one selected, the
    /// focus on the text view, the prompt closed.
    pub fn new(files: FileList) -> (res: Self)
        ensures
            res.files == files,
            res@.pointer == CursorState::Active(crate::cursor::Focus::View),
            res@.entry_box == (EntryBoxView {
                is_active: false,
                is_err: false,
                input: Seq::empty(),
            }),
            res@.list == (FileListStateView {
                size: files.table@.len() as usize,
                index: 0,
                selected: Some(0usize),
            }),
            files.wf() ==> res@.wf(),
    {
        let size = files.len();
        Resource {
            pointer: KeyboardCursor::new(),
            entry_box: EntryBox::new(),
            file_list_state: FileListState::new(size),
            files,
        }
    }

    #[inline]
    pub fn pointer(&self) -> (pointer: &KeyboardCursor)
        ensures
            *pointer == self.pointer,
    {
        &self.pointer
    }

    #[inline]
    pub fn entry_box(&self) -> (entry_box: &EntryBox)
        ensures
            *entry_box == self.entry_box,
    {
        &self.entry_box
    }

    #[inline]
    pub fn file_list_state(&self) -> (list: &FileListState)
        ensures
            *list == self.file_list_state,
    {
        &self.file_list_state
    }

    #[inline]
    pub fn files(&self) -> (files: &FileList)
        ensures
            *files == self.files,
    {
        &self.files
    }

    #[inline]
    pub fn pointer_mut(&mut self) -> (pointer: &mut KeyboardCursor)
        ensures
            *pointer == old(self).pointer,
            *final(self) == (Resource { pointer: *final(pointer), ..*old(self) }),
    {
        &mut self.pointer
    }

    #[inline]
    pub fn entry_box_mut(&mut self) -> (entry_box: &mut EntryBox)
        ensures
            *entry_box == old(self).entry_box,
            *final(self) == (Resource { entry_box: *final(entry_box), ..*old(self) }),
    {
        &mut self.entry_box
    }

    #[inline]
    pub fn file_list_state_mut(&mut self) -> (list: &mut FileListState)
        ensures
            *list == old(self).file_list_state,
            *final(self) == (Resource { file_list_state: *final(list), ..*old(self) }),
    {
        &mut self.file_list_state
    }

    #[inline]
    pub fn files_mut(&mut self) -> (files: &mut FileList)
        ensures
            *files == old(self).files,
            *final(self) == (Resource { files: *final(files), ..*old(self) }),
    {
        &mut self.files
    }
}

/// The buffers after the refills of one frame came to `outcomes`, one for
/// each buffer in the list's order: a buffer whose refill failed becomes
/// the static display of the reason, any other one stays as it is.
pub open spec fn settled(files: Seq<FileBufView>, outcomes: Seq<Result<(), Error>>) -> Seq<
    FileBufView,
> {
    Seq::new(
        files.len(),
        |i: int|
            if i < outcomes.len() && outcomes[i] is Err {
                files[i].nullified(outcomes[i]->Err_0.spec_message())
            } else {
                files[i]
            },
    )
}

/// Takes in what the refills of one frame came to, one outcome for each
/// open file in the list's order. A failure never ends the program: the
/// buffer it befell shows the reason from then on.
pub fn state_update(res: &mut Resource, outcomes: Vec<Result<(), Error>>)
    ensures
        final(res)@ == (ResourceView { files: settled(old(res)@.files, outcomes@), ..old(res)@ }),
        old(res)@.wf() ==> final(res)@.wf(),
{
    let mut i: usize = 0;
    while i < res.files.table.len() && i < outcomes.len()
        invariant
            res.files.table@.len() == old(res).files.table@.len(),
            res.pointer == old(res).pointer,
            res.entry_box == old(res).entry_box,
            res.file_list_state == old(res).file_list_state,
            forall|k: int|
                0 <= k < i && k < res.files.table@.len() ==> (#[trigger] res.files.table@[k])@
                    == settled(old(res)@.files, outcomes@)[k],
            forall|k: int|
                i <= k < res.files.table@.len() ==> #[trigger] res.files.table@[k] == old(res).files.table@[k],
        decreases res.files.table.len() - i,
    {
        if let Err(err) = &outcomes[i] {
            res.files.table[i].nullify(err.message());
        }
        i += 1;
    }
    assert(res@.files =~= settled(old(res)@.files, outcomes@));
    proof {
        if old(res)@.wf() {
            assert forall|k: int| 0 <= k < res@.files.len() implies (#[trigger] res@.files[k]).wf() by {
                assert(old(res)@.files[k].wf());
            }
        }
    }
}

/// The lines of the selected file that are visible in a pane of `height`
/// rows, and whether they are an error display; no line where no file is
/// selected. The window of the selected file is recomputed first, as
/// [`crate::io::FileBuf::buffer`] does it.
pub fn get_lines_from_buffer(res: &mut Resource, height: u16) -> (lines: (Vec<&str>, bool))
    ensures
        old(res)@.list.index >= old(res)@.files.len() ==> final(res)@ == old(res)@
            && lines.0@.len() == 0 && !lines.1,
        old(res)@.list.index < old(res)@.files.len() ==> final(res)@ == (ResourceView {
            files: old(res)@.files.update(
                old(res)@.list.index as int,
                old(res)@.files[old(res)@.list.index as int].resized(height),
            ),
            ..old(res)@
        }) && texts(lines.0@) == final(res)@.files[old(res)@.list.index as int].visible()
            && lines.1 == old(res)@.files[old(res)@.list.index as int].nulled,
        old(res)@.wf() ==> final(res)@.wf(),
{
    let curr_index = res.file_list_state.index();
    if curr_index >= res.files.table.len() {
        assert(res.files.views() =~= old(res).files.views());
        return (Vec::new(), false);  // Return default
    }
    res.files.table[curr_index].resize(height);
    proof {
        assert(res.files.views() =~= old(res)@.files.update(
            curr_index as int,
            old(res)@.files[curr_index as int].resized(height),
        ));
        if old(res)@.wf() {
            assert forall|k: int| 0 <= k < res@.files.len() implies (#[trigger] res@.files[k]).wf() by {
                assert(old(res)@.files[k].wf());
            }
        }
    }
    res.files.table[curr_index].visible()
}

} // verus!
