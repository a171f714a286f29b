//! The screen-independent core of the terminal dashboard: the event and key
//! model, the pair of top-level views, and the selection cursor with its
//! wrap-around navigation.

use vstd::prelude::*;

verus! {

use vstd::std_specs::convert::FromSpec;
use vstd::std_specs::convert::FromSpecImpl;

/// One event delivered to whichever loop currently owns the input channel:
/// either a key press or a periodic redraw tick.
pub enum Event<I> {
    Input(I),
    Tick,
}

/// The key presses that the state machine distinguishes. Anything else is
/// mapped to `Other` by the input layer.
#[derive(Clone, Copy, PartialEq, Eq, Debug)]
pub enum Key {
    Char(char),
    Backspace,
    Enter,
    Up,
    Down,
    Left,
    Right,
    Other,
}

/// Which top-level screen is shown in the middle region.
#[derive(Clone, Copy, PartialEq, Eq, Debug)]
pub enum MenuItem {
    Home,
    Data,
}

impl From<MenuItem> for usize {
    /// The tab index of each view, in menu order.
    fn from(input: MenuItem) -> (r: usize) {
        match input {
            MenuItem::Home => 0,
            MenuItem::Data => 1,
        }
    }
}

impl vstd::std_specs::convert::FromSpecImpl<MenuItem> for usize {
    open spec fn obeys_from_spec() -> bool {
        true
    }

    open spec fn from_spec(t: MenuItem) -> usize {
        match t {
            MenuItem::Home => 0,
            MenuItem::Data => 1,
        }
    }
}

/// What can go wrong when the backing store is read.
#[derive(Clone, Copy, PartialEq, Eq, Debug)]
pub enum Error {
    /// The store file could not be read at all.
    ReadDBError,
    /// The store file's text is not a well-formed record array.
    ParseDBError,
}

/// The cursor moved one row down, wrapping from the last row to the first.
/// An empty list leaves the cursor alone.
pub open spec fn spec_select_down(sel: int, len: int) -> int {
    if len <= 0 {
        sel
    } else if sel + 1 >= len {
        0
    } else {
        sel + 1
    }
}

/// The cursor moved one row up, wrapping from the first row to the last.
/// An empty list leaves the cursor alone.
pub open spec fn spec_select_up(sel: int, len: int) -> int {
    if len <= 0 {
        sel
    } else if sel <= 0 {
        len - 1
    } else {
        sel - 1
    }
}

/// Move the selection one row down over a list of `len` rows, wrapping.
pub fn select_down(sel: usize, len: usize) -> (r: usize)
    requires
        sel < len || sel == 0,
    ensures
        r == spec_select_down(sel as int, len as int),
{
    if len == 0 {
        sel
    } else if sel + 1 >= len {
        0
    } else {
        sel + 1
    }
}

/// Move the selection one row up over a list of `len` rows, wrapping.
pub fn select_up(sel: usize, len: usize) -> (r: usize)
    requires
        sel < len || sel == 0,
    ensures
        r == spec_select_up(sel as int, len as int),
{
    if len == 0 {
        sel
    } else if sel == 0 {
        len - 1
    } else {
        sel - 1
    }
}

/// Moving down and then up (or up and then down) restores the selection on any
/// non-empty list, including across the wrap-around at either boundary; and the
/// wraps themselves land where they should.
pub proof fn lemma_select_up_down_inverse(sel: int, len: int)
    requires
        0 < len,
        0 <= sel < len,
    ensures
        spec_select_up(spec_select_down(sel, len), len) == sel,
        spec_select_down(spec_select_up(sel, len), len) == sel,
        spec_select_down(len - 1, len) == 0,
        spec_select_up(0, len) == len - 1,
{
}


/// What the event loop must do next after one key press, beyond the state
/// change itself.
#[derive(Clone, Copy, PartialEq, Eq, Debug)]
pub enum Action {
    /// Nothing beyond a redraw.
    Idle,
    /// Tear the terminal down and leave the loop.
    Quit,
    /// Append a fresh placeholder record and reload.
    AddRecord,
    /// Delete the record at the selection and reload.
    DeleteSelected,
    /// Enter the inline rename of the record at the selection.
    BeginEdit,
    /// Lower the selected record's age by one, stopping at zero.
    AgeDown,
    /// Raise the selected record's age by one.
    AgeUp,
}

/// The state the event loop owns between events: the active view and the
/// selection cursor.
#[derive(Clone, Copy, PartialEq, Eq, Debug)]
pub struct UiState {
    pub active: MenuItem,
    pub selection: usize,
}

/// The whole key dispatch table of the event loop, over a collection of
/// `len` records: the state after the key, and the action the key demands.
/// Keys that act on a selected record are ignored while the collection is
/// empty, so an empty collection can never crash the loop.
pub open spec fn spec_handle_key(st: UiState, key: Key, len: int, km: crate::data_row::KeyMap) -> (
    UiState,
    Action,
) {
    match key {
        Key::Char(c) => if c == km.quit {
            (st, Action::Quit)
        } else if c == km.home {
            (UiState { active: MenuItem::Home, selection: st.selection }, Action::Idle)
        } else if c == km.data {
            (UiState { active: MenuItem::Data, selection: st.selection }, Action::Idle)
        } else if c == km.add {
            (st, Action::AddRecord)
        } else if c == km.del {
            (st, Action::DeleteSelected)
        } else if c == km.edit {
            if len > 0 {
                (st, Action::BeginEdit)
            } else {
                (st, Action::Idle)
            }
        } else {
            (st, Action::Idle)
        },
        Key::Down => (
            UiState {
                active: st.active,
                selection: spec_select_down(st.selection as int, len) as usize,
            },
            Action::Idle,
        ),
        Key::Up => (
            UiState {
                active: st.active,
                selection: spec_select_up(st.selection as int, len) as usize,
            },
            Action::Idle,
        ),
        Key::Left => if len > 0 {
            (st, Action::AgeDown)
        } else {
            (st, Action::Idle)
        },
        Key::Right => if len > 0 {
            (st, Action::AgeUp)
        } else {
            (st, Action::Idle)
        },
        _ => (st, Action::Idle),
    }
}

/// Dispatch one key press against the current state and a collection of
/// `len` records, as `spec_handle_key` lays down.
pub fn handle_key(
    state: &mut UiState,
    key: Key,
    len: usize,
    km: crate::data_row::KeyMap,
) -> (a: Action)
    requires
        old(state).selection < len || old(state).selection == 0,
    ensures
        (*final(state), a) == spec_handle_key(*old(state), key, len as int, km),
{
    match key {
        Key::Char(c) => {
            if c == km.quit {
                Action::Quit
            } else if c == km.home {
                state.active = MenuItem::Home;
                Action::Idle
            } else if c == km.data {
                state.active = MenuItem::Data;
                Action::Idle
            } else if c == km.add {
                Action::AddRecord
            } else if c == km.del {
                Action::DeleteSelected
            } else if c == km.edit {
                if len > 0 {
                    Action::BeginEdit
                } else {
                    Action::Idle
                }
            } else {
                Action::Idle
            }
        },
        Key::Down => {
            state.selection = select_down(state.selection, len);
            Action::Idle
        },
        Key::Up => {
            state.selection = select_up(state.selection, len);
            Action::Idle
        },
        Key::Left => {
            if len > 0 {
                Action::AgeDown
            } else {
                Action::Idle
            }
        },
        Key::Right => {
            if len > 0 {
                Action::AgeUp
            } else {
                Action::Idle
            }
        },
        _ => Action::Idle,
    }
}

/// Whether the inline rename loop goes on after one event, or hands the
/// buffer back to the caller.
#[derive(Clone, Copy, PartialEq, Eq, Debug)]
pub enum EditStep {
    Continue,
    Done,
}

/// One key of the inline rename loop: an alphanumeric character (any
/// Unicode letter or digit, as `alnum_of` classifies them) is appended to
/// the buffer, backspace drops the last character (and is harmless on an
/// empty buffer), and any other key ends the loop with the buffer unchanged.
/// A buffer of store-safe characters stays store-safe: no key can smuggle a
/// quote or a backslash into a name.
pub fn word_input_step(buf: &mut Vec<char>, key: Key) -> (r: EditStep)
    ensures
        match key {
            Key::Char(c) => if crate::text::alnum_of(c) {
                r == EditStep::Continue && final(buf)@ == old(buf)@.push(c)
            } else {
                r == EditStep::Done && final(buf)@ == old(buf)@
            },
            Key::Backspace => r == EditStep::Continue && final(buf)@ == if old(buf)@.len() > 0 {
                old(buf)@.drop_last()
            } else {
                old(buf)@
            },
            _ => r == EditStep::Done && final(buf)@ == old(buf)@,
        },
        (forall|i: int| 0 <= i < old(buf)@.len() ==> crate::text::quote_safe_char(
            #[trigger] old(buf)@[i],
        )) ==> (forall|i: int|
            0 <= i < final(buf)@.len() ==> crate::text::quote_safe_char(
                #[trigger] final(buf)@[i],
            )),
{
    match key {
        Key::Backspace => {
            if buf.len() > 0 {
                buf.pop();
                assert(buf@ =~= old(buf)@.drop_last());
            }
            EditStep::Continue
        },
        Key::Char(c) => {
            if crate::ext::is_name_char(c) {
                buf.push(c);
                EditStep::Continue
            } else {
                EditStep::Done
            }
        },
        _ => EditStep::Done,
    }
}


/// The live preview on each tick of the inline rename: the buffer becomes
/// the selected record's display name, in memory only, so the user sees the
/// name grow without the store being touched. Every other record is left
/// alone, and a selection out of bounds changes nothing.
pub fn preview_name<T: crate::data_row::DataRow>(
    loaded_data: &mut Vec<T>,
    selected: usize,
    new_name: &Vec<char>,
)
    ensures
        selected < old(loaded_data)@.len() ==> {
            &&& final(loaded_data)@.len() == old(loaded_data)@.len()
            &&& (forall|j: int|
                0 <= j < old(loaded_data)@.len() && j != selected ==> final(loaded_data)@[j]
                    == old(loaded_data)@[j])
            &&& final(loaded_data)@[selected as int].spec_name() == new_name@
            &&& final(loaded_data)@[selected as int].same_but_name(
                &old(loaded_data)@[selected as int],
            )
        },
        selected >= old(loaded_data)@.len() ==> final(loaded_data)@ == old(loaded_data)@,
{
    if selected < loaded_data.len() {
        let s = crate::ext::chars_to_string(new_name);
        loaded_data[selected].set_name(s);
    }
}

} // verus!


