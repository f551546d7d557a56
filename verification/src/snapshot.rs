//! Snapshots of the window that had the focus, and the store that keeps the
//! latest one between the hotkey and the commands.

use crate::text::{trim, trimmed};
use vstd::prelude::*;

verus! {

/// One window as the operating system described it at one moment: its handle,
/// its title, the process that owns it with its name, and where it was on
/// the screen.
#[derive(Debug, PartialEq, Eq)]
pub struct WindowSnapshot {
    pub id: u32,
    pub title: String,
    pub process_id: u32,
    pub name: String,
    pub x: i32,
    pub y: i32,
    pub width: i32,
    pub height: i32,
}

impl Clone for WindowSnapshot {
    fn clone(&self) -> (copy: Self)
        ensures
            copy == *self,
    {
        WindowSnapshot {
            id: self.id,
            title: self.title.clone(),
            process_id: self.process_id,
            name: self.name.clone(),
            x: self.x,
            y: self.y,
            width: self.width,
            height: self.height,
        }
    }
}

/// What a capture keeps of the window that the system reports as focused:
/// any window but one of the utility's own process.
pub open spec fn captured(observed: Option<WindowSnapshot>, own_process_id: u32) -> Option<
    WindowSnapshot,
> {
    match observed {
        Some(window) => if window.process_id == own_process_id {
            None
        } else {
            Some(window)
        },
        None => None,
    }
}

/// Decides what a capture keeps. `observed` is the focused window as the
/// system reported it, or `None` where it reported none; a window of the
/// utility itself is not kept, so that the utility never captures itself.
pub fn capture(observed: Option<WindowSnapshot>, own_process_id: u32) -> (kept: Option<
    WindowSnapshot,
>)
    ensures
        kept == captured(observed, own_process_id),
        observed is None ==> kept is None,
{
    match observed {
        Some(window) => if window.process_id == own_process_id {
            None
        } else {
            Some(window)
        },
        None => None,
    }
}

/// The store of the latest snapshot. It is empty until the first capture.
/// Whoever shares it between threads keeps it behind a lock and holds the
/// lock for one call only.
#[derive(Debug)]
pub struct PastePlugin {
    last_window: Option<WindowSnapshot>,
}

impl PastePlugin {
    /// The snapshot that the store holds.
    pub closed spec fn view(&self) -> Option<WindowSnapshot> {
        self.last_window
    }

    /// The empty store.
    pub fn new() -> (store: PastePlugin)
        ensures
            store@ is None,
    {
        PastePlugin { last_window: None }
    }

    /// Puts `snapshot` in place of what the store held.
    pub fn record(&mut self, snapshot: WindowSnapshot)
        ensures
            final(self)@ == Some(snapshot),
            final(self)@ == applied(old(self)@, StoreOp::Record(snapshot)),
    {
        self.last_window = Some(snapshot);
    }

    /// A copy of the snapshot that the store holds. The store stays as it is.
    pub fn peek(&self) -> (seen: Option<WindowSnapshot>)
        ensures
            seen == self@,
    {
        match &self.last_window {
            Some(snapshot) => Some(snapshot.clone()),
            None => None,
        }
    }
}

impl Default for PastePlugin {
    fn default() -> (store: PastePlugin)
        ensures
            store@ is None,
    {
        PastePlugin::new()
    }
}

/// A copy of the snapshot that the store holds.
pub fn get_last_window(state: &PastePlugin) -> (seen: Option<WindowSnapshot>)
    ensures
        seen == state@,
{
    state.peek()
}

/// One use of the store.
pub enum StoreOp {
    /// A writer records a snapshot.
    Record(WindowSnapshot),
    /// A reader looks at the store.
    Peek,
}

/// What the store holds after one use.
pub open spec fn applied(held: Option<WindowSnapshot>, op: StoreOp) -> Option<WindowSnapshot> {
    match op {
        StoreOp::Record(snapshot) => Some(snapshot),
        StoreOp::Peek => held,
    }
}

/// What the store holds after the uses `ops`, in their order.
pub open spec fn applied_all(held: Option<WindowSnapshot>, ops: Seq<StoreOp>) -> Option<
    WindowSnapshot,
>
    decreases ops.len(),
{
    if ops.len() == 0 {
        held
    } else {
        applied(applied_all(held, ops.drop_last()), ops.last())
    }
}

/// Reading does not disturb the store: after a snapshot was recorded, and
/// however many reads came in between, the store holds that snapshot.
pub proof fn law_peek_after_record(
    held: Option<WindowSnapshot>,
    snapshot: WindowSnapshot,
    reads: Seq<StoreOp>,
)
    requires
        forall|i: int| 0 <= i < reads.len() ==> reads[i] is Peek,
    ensures
        applied_all(applied(held, StoreOp::Record(snapshot)), reads) == Some(snapshot),
    decreases reads.len(),
{
    if reads.len() > 0 {
        law_peek_after_record(held, snapshot, reads.drop_last());
    }
}

/// The store holds what was recorded last: after any uses that end in
/// reads, it holds the snapshot of the last record among them.
pub proof fn law_last_record_wins(held: Option<WindowSnapshot>, ops: Seq<StoreOp>, last: int)
    requires
        0 <= last < ops.len(),
        ops[last] is Record,
        forall|i: int| last < i < ops.len() ==> ops[i] is Peek,
    ensures
        applied_all(held, ops) == Some(ops[last]->Record_0),
    decreases ops.len(),
{
    if last < ops.len() - 1 {
        law_last_record_wins(held, ops.drop_last(), last);
    }
}

/// The name under which the last window is shown: the name of its
/// application, `No title` where that name is blank, and `No previous window`
/// where there is no last window.
pub open spec fn last_window_name(last: Option<WindowSnapshot>) -> Seq<char> {
    match last {
        Some(window) => if trimmed(window.name@).len() == 0 {
            "No title"@
        } else {
            window.name@
        },
        None => "No previous window"@,
    }
}

/// The name under which the last window is shown.
pub fn get_last_window_name(last: &Option<WindowSnapshot>) -> (name: String)
    ensures
        name@ == last_window_name(*last),
        *last is None ==> name@ == "No previous window"@,
{
    match last {
        Some(window) => {
            let kept = trim(window.name.as_str());
            if kept.as_str().unicode_len() == 0 {
                "No title".to_owned()
            } else {
                window.name.clone()
            }
        },
        None => "No previous window".to_owned(),
    }
}

/// The state of the utility's window when the hotkey fires.
#[derive(Clone, Copy, Debug, PartialEq, Eq)]
pub enum UtilityWindow {
    /// There is no window yet.
    Missing,
    /// The window exists and is not shown.
    Hidden,
    /// The window is shown.
    Visible,
}

/// What to do with the utility's window after the hotkey.
#[derive(Debug, PartialEq, Eq)]
pub enum HotkeyAction {
    /// Hide the window.
    Hide,
    /// Show the window and give it the focus, placed by `anchor` if there is
    /// one.
    Show { anchor: Option<WindowSnapshot> },
    /// Create the window.
    Create,
}

/// What the hotkey does to the utility's window: a window that is shown is
/// hidden, one that is hidden is shown by the snapshot in `held`, and one
/// that is missing is created.
pub open spec fn toggled(held: Option<WindowSnapshot>, window: UtilityWindow) -> HotkeyAction {
    match window {
        UtilityWindow::Visible => HotkeyAction::Hide,
        UtilityWindow::Hidden => HotkeyAction::Show { anchor: held },
        UtilityWindow::Missing => HotkeyAction::Create,
    }
}

/// Handles the hotkey: records what the capture keeps of `observed`, if it
/// keeps anything, and toggles the utility's window. A capture that keeps
/// nothing leaves the store as it was.
pub fn on_hotkey(
    plugin: &mut PastePlugin,
    observed: Option<WindowSnapshot>,
    own_process_id: u32,
    window: UtilityWindow,
) -> (action: HotkeyAction)
    ensures
        final(plugin)@ == match captured(observed, own_process_id) {
            Some(snapshot) => Some(snapshot),
            None => old(plugin)@,
        },
        action == toggled(final(plugin)@, window),
{
    match capture(observed, own_process_id) {
        Some(snapshot) => {
            plugin.record(snapshot);
        },
        None => {},
    }
    match window {
        UtilityWindow::Visible => HotkeyAction::Hide,
        UtilityWindow::Hidden => HotkeyAction::Show { anchor: plugin.peek() },
        UtilityWindow::Missing => HotkeyAction::Create,
    }
}

} // verus!
