//! Keys of the terminal interface: which command a key press gives in
//! each state, and carrying commands out on the session.

use vstd::prelude::*;
use crate::session::{pairs_view, App, SearchParams, TextEdit};
use crate::tui::{FilterField, Pane};

verus! {

/// A key of the keyboard, as far as the interface tells keys apart.
#[derive(Debug, Clone, Copy, PartialEq, Eq, Structural)]
pub enum Key {
    Char(char),
    Esc,
    Tab,
    BackTab,
    Enter,
    Backspace,
    Up,
    Down,
    Left,
    Right,
    Other,
}

/// A key press with the modifiers the interface reads.
#[derive(Debug, Clone, Copy, PartialEq, Eq, Structural)]
pub struct KeyPress {
    pub key: Key,
    pub ctrl: bool,
    pub alt: bool,
}

/// What a key press asks of the session.
#[derive(Debug, Clone, Copy, PartialEq, Eq, Structural)]
pub enum Command {
    Quit,
    StopEditing,
    Edit(TextEdit),
    NextPane,
    PreviousPane,
    /// Esc outside editing: Downloads to Results, Results to Filters.
    LeavePane,
    Search { append: bool },
    ToggleMark,
    DownloadAll,
    DownloadSelected,
    PreviousField,
    NextField,
    CycleSatellite { forward: bool },
    CycleProduct { forward: bool },
    StartEditing,
    PreviousResult,
    NextResult,
    PreviousDownload,
    NextDownload,
    Ignore,
}

/// What the caller has to start after a command.
#[derive(Debug)]
pub enum Action {
    Nothing,
    /// Run this search in the background (appending its results or not).
    Search { params: SearchParams, append: bool },
    /// Download these (product id, name) pairs in the background.
    Download(Vec<(String, String)>),
}

/// The command a key press gives while editing a text field.
pub open spec fn editing_command(k: KeyPress) -> Command {
    match k.key {
        Key::Esc | Key::Enter => Command::StopEditing,
        Key::Backspace => Command::Edit(TextEdit::Pop),
        Key::Char(c) => if c == 'u' && k.ctrl {
            Command::Edit(TextEdit::Clear)
        } else if !k.ctrl {
            Command::Edit(TextEdit::Push(c))
        } else {
            Command::Ignore
        },
        _ => Command::Ignore,
    }
}

/// The command a key press gives in the filters pane, beyond the keys
/// every pane shares.
pub open spec fn filters_command(field: FilterField, key: Key) -> Command {
    if key == Key::Up || key == Key::Char('k') {
        Command::PreviousField
    } else if key == Key::Down || key == Key::Char('j') {
        Command::NextField
    } else if key == Key::Left || key == Key::Char('h') || key == Key::Right || key == Key::Char('l') {
        let forward = key == Key::Right || key == Key::Char('l');
        if field == FilterField::Satellite {
            Command::CycleSatellite { forward }
        } else if field == FilterField::Product {
            Command::CycleProduct { forward }
        } else {
            Command::Ignore
        }
    } else if key == Key::Enter || key == Key::Char('e') {
        if field.is_text_spec() {
            Command::StartEditing
        } else if field == FilterField::Satellite {
            Command::CycleSatellite { forward: true }
        } else {
            Command::CycleProduct { forward: true }
        }
    } else {
        Command::Ignore
    }
}

/// The command a key press gives, from the interface's state.
pub open spec fn key_command(editing: bool, focus: Pane, field: FilterField, k: KeyPress) -> Command {
    let key = k.key;
    if key == Key::Char('c') && k.ctrl {
        Command::Quit
    } else if editing {
        editing_command(k)
    } else if k.alt && (key == Key::Right || key == Key::Down) {
        Command::NextPane
    } else if k.alt && (key == Key::Left || key == Key::Up) {
        Command::PreviousPane
    } else if key == Key::Char('q') {
        Command::Quit
    } else if key == Key::Esc {
        Command::LeavePane
    } else if key == Key::Tab {
        Command::NextPane
    } else if key == Key::BackTab {
        Command::PreviousPane
    } else if key == Key::Char('s') {
        Command::Search { append: false }
    } else if key == Key::Char('S') {
        Command::Search { append: true }
    } else if key == Key::Char(' ') && focus == Pane::Results {
        Command::ToggleMark
    } else if (key == Key::Char('a') || key == Key::Char('A')) && focus != Pane::Filters {
        Command::DownloadAll
    } else if (key == Key::Char('d') || key == Key::Char('D')) && focus != Pane::Filters {
        Command::DownloadSelected
    } else if key == Key::Enter && focus == Pane::Results {
        Command::DownloadSelected
    } else if focus == Pane::Filters {
        filters_command(field, key)
    } else if key == Key::Up || key == Key::Char('k') {
        if focus == Pane::Results {
            Command::PreviousResult
        } else {
            Command::PreviousDownload
        }
    } else if key == Key::Down || key == Key::Char('j') {
        if focus == Pane::Results {
            Command::NextResult
        } else {
            Command::NextDownload
        }
    } else {
        Command::Ignore
    }
}

/// Whether the key is `Up` or `k`.
fn is_up(key: Key) -> (r: bool)
    ensures
        r == (key == Key::Up || key == Key::Char('k')),
{
    match key {
        Key::Up => true,
        Key::Char(c) => c == 'k',
        _ => false,
    }
}

/// Whether the key is `Down` or `j`.
fn is_down(key: Key) -> (r: bool)
    ensures
        r == (key == Key::Down || key == Key::Char('j')),
{
    match key {
        Key::Down => true,
        Key::Char(c) => c == 'j',
        _ => false,
    }
}

/// Whether the key is `Left` or `h`.
fn is_left(key: Key) -> (r: bool)
    ensures
        r == (key == Key::Left || key == Key::Char('h')),
{
    match key {
        Key::Left => true,
        Key::Char(c) => c == 'h',
        _ => false,
    }
}

/// Whether the key is `Right` or `l`.
fn is_right(key: Key) -> (r: bool)
    ensures
        r == (key == Key::Right || key == Key::Char('l')),
{
    match key {
        Key::Right => true,
        Key::Char(c) => c == 'l',
        _ => false,
    }
}

/// Whether the key is the character `c`.
fn is_char(key: Key, c: char) -> (r: bool)
    ensures
        r == (key == Key::Char(c)),
{
    match key {
        Key::Char(d) => d == c,
        _ => false,
    }
}

/// The command a key press gives while editing a text field.
fn editing_command_of(k: KeyPress) -> (r: Command)
    ensures
        r == editing_command(k),
{
    match k.key {
        Key::Esc | Key::Enter => Command::StopEditing,
        Key::Backspace => Command::Edit(TextEdit::Pop),
        Key::Char(c) => if c == 'u' && k.ctrl {
            Command::Edit(TextEdit::Clear)
        } else if !k.ctrl {
            Command::Edit(TextEdit::Push(c))
        } else {
            Command::Ignore
        },
        _ => Command::Ignore,
    }
}

/// The command a key press gives in the filters pane.
fn filters_command_of(field: FilterField, key: Key) -> (r: Command)
    ensures
        r == filters_command(field, key),
{
    if is_up(key) {
        Command::PreviousField
    } else if is_down(key) {
        Command::NextField
    } else if is_left(key) || is_right(key) {
        let forward = is_right(key);
        if field == FilterField::Satellite {
            Command::CycleSatellite { forward }
        } else if field == FilterField::Product {
            Command::CycleProduct { forward }
        } else {
            Command::Ignore
        }
    } else if key == Key::Enter || is_char(key, 'e') {
        if field.is_text() {
            Command::StartEditing
        } else if field == FilterField::Satellite {
            Command::CycleSatellite { forward: true }
        } else {
            Command::CycleProduct { forward: true }
        }
    } else {
        Command::Ignore
    }
}

impl App {
    /// The command a key press gives in the current state.
    pub fn command_for(&self, k: KeyPress) -> (r: Command)
        ensures
            r == key_command(self.editing, self.focus, self.filter_field, k),
    {
        let key = k.key;
        let focus = self.focus;
        if is_char(key, 'c') && k.ctrl {
            Command::Quit
        } else if self.editing {
            editing_command_of(k)
        } else if k.alt && (key == Key::Right || key == Key::Down) {
            Command::NextPane
        } else if k.alt && (key == Key::Left || key == Key::Up) {
            Command::PreviousPane
        } else if is_char(key, 'q') {
            Command::Quit
        } else if key == Key::Esc {
            Command::LeavePane
        } else if key == Key::Tab {
            Command::NextPane
        } else if key == Key::BackTab {
            Command::PreviousPane
        } else if is_char(key, 's') {
            Command::Search { append: false }
        } else if is_char(key, 'S') {
            Command::Search { append: true }
        } else if is_char(key, ' ') && focus == Pane::Results {
            Command::ToggleMark
        } else if (is_char(key, 'a') || is_char(key, 'A')) && focus != Pane::Filters {
            Command::DownloadAll
        } else if (is_char(key, 'd') || is_char(key, 'D')) && focus != Pane::Filters {
            Command::DownloadSelected
        } else if key == Key::Enter && focus == Pane::Results {
            Command::DownloadSelected
        } else if focus == Pane::Filters {
            filters_command_of(self.filter_field, key)
        } else if is_up(key) {
            if focus == Pane::Results {
                Command::PreviousResult
            } else {
                Command::PreviousDownload
            }
        } else if is_down(key) {
            if focus == Pane::Results {
                Command::NextResult
            } else {
                Command::NextDownload
            }
        } else {
            Command::Ignore
        }
    }

    /// `next` is this session after carrying out `c`, and `r` the
    /// background work it asks for: the operation of the same name.
    pub open spec fn performed(self, next: App, c: Command, r: Action) -> bool {
        match c {
            Command::Quit => r is Nothing && next == (App { should_quit: true, ..self }),
            Command::StopEditing => r is Nothing && next == (App { editing: false, ..self }),
            Command::Edit(e) => r is Nothing && self.field_edited(next, e),
            Command::NextPane => r is Nothing && self.next_pane_focused(next),
            Command::PreviousPane => r is Nothing && self.previous_pane_focused(next),
            Command::LeavePane => r is Nothing && next == (App {
                focus: match self.focus {
                    Pane::Downloads => Pane::Results,
                    _ => Pane::Filters,
                },
                ..self
            }),
            Command::Search { append } => match r {
                Action::Search { params, append: a } => a == append && self.search_started(
                    next,
                    append,
                    Some(params),
                ),
                Action::Nothing => self.search_started(next, append, None),
                Action::Download(_) => false,
            },
            Command::ToggleMark => r is Nothing && self.mark_toggled(next),
            Command::DownloadAll => match r {
                Action::Download(q) => self.all_queued(next, pairs_view(q@)),
                _ => false,
            },
            Command::DownloadSelected => match r {
                Action::Download(q) => self.selection_queued(next, pairs_view(q@)),
                _ => false,
            },
            Command::PreviousField => r is Nothing && self.previous_field_selected(next),
            Command::NextField => r is Nothing && self.next_field_selected(next),
            Command::CycleSatellite { forward } => r is Nothing && self.satellite_cycled(next, forward),
            Command::CycleProduct { forward } => r is Nothing && self.product_cycled(next, forward),
            Command::StartEditing => r is Nothing && next == (App { editing: true, ..self }),
            Command::PreviousResult => r is Nothing && self.previous_result_selected(next),
            Command::NextResult => r is Nothing && self.next_result_selected(next),
            Command::PreviousDownload => r is Nothing && self.previous_download_selected(next),
            Command::NextDownload => r is Nothing && self.next_download_selected(next),
            Command::Ignore => r is Nothing && next == self,
        }
    }

    /// Carries out a command by the operation of the same name, and returns
    /// the background work to start.
    pub fn perform(&mut self, c: Command) -> (r: Action)
        requires
            old(self).wf(),
        ensures
            final(self).wf(),
            old(self).performed(*final(self), c, r),
    {
        match c {
            Command::Quit => {
                self.should_quit = true;
            },
            Command::StopEditing => {
                self.editing = false;
            },
            Command::Edit(e) => {
                self.edit_field(e);
            },
            Command::NextPane => {
                self.cycle_pane();
            },
            Command::PreviousPane => {
                self.cycle_pane_back();
            },
            Command::LeavePane => {
                self.focus = match self.focus {
                    Pane::Downloads => Pane::Results,
                    _ => Pane::Filters,
                };
            },
            Command::Search { append } => {
                return match self.start_search(append) {
                    Some(params) => Action::Search { params, append },
                    None => Action::Nothing,
                };
            },
            Command::ToggleMark => {
                self.toggle_mark_selected();
            },
            Command::DownloadAll => {
                let queued = self.start_download_all();
                return Action::Download(queued);
            },
            Command::DownloadSelected => {
                let queued = self.start_download_selected();
                return Action::Download(queued);
            },
            Command::PreviousField => {
                self.prev_filter_field();
            },
            Command::NextField => {
                self.next_filter_field();
            },
            Command::CycleSatellite { forward } => {
                self.cycle_satellite(forward);
            },
            Command::CycleProduct { forward } => {
                self.cycle_product(forward);
            },
            Command::StartEditing => {
                self.editing = true;
            },
            Command::PreviousResult => {
                self.select_prev_result();
            },
            Command::NextResult => {
                self.select_next_result();
            },
            Command::PreviousDownload => {
                self.select_prev_download();
            },
            Command::NextDownload => {
                self.select_next_download();
            },
            Command::Ignore => {},
        }
        Action::Nothing
    }

    /// Handles a key press: finds its command and carries it out.
    pub fn handle_key(&mut self, k: KeyPress) -> (r: Action)
        requires
            old(self).wf(),
        ensures
            final(self).wf(),
            old(self).performed(
                *final(self),
                key_command(old(self).editing, old(self).focus, old(self).filter_field, k),
                r,
            ),
    {
        let c = self.command_for(k);
        self.perform(c)
    }
}

} // verus!
