//! Hot-plug monitor: the stages of the monitor thread, the table that lets
//! the window callback find the event-bus handle of its window, and the
//! decision the callback takes on each message.

use vstd::prelude::*;

verus! {

/// The message that a window receives when it is created.
pub const WM_CREATE: u32 = 0x0001;

/// The message that announces a change of devices.
pub const WM_DEVICECHANGE: u32 = 0x0219;

/// The notification code for a change in the device tree.
pub const DBT_DEVNODES_CHANGED: usize = 0x0007;

/// The stages of the monitor thread.
#[derive(Clone, Copy, Debug, PartialEq, Eq, Structural)]
pub enum MonitorState {
    /// Nothing has been set up.
    Idle,
    /// The window class is registered.
    Registered,
    /// The window exists and the message loop runs.
    Listening,
    /// Message retrieval signalled shutdown.
    Stopped,
}

/// What the monitor thread reports.
#[derive(Clone, Copy, Debug, PartialEq, Eq, Structural)]
pub enum MonitorEvent {
    /// The window class was registered.
    ClassRegistered,
    /// The hidden window was created.
    WindowCreated,
    /// A message was retrieved and dispatched.
    MessageDispatched,
    /// Message retrieval signalled shutdown.
    RetrievalEnded,
}

/// What the monitor thread does next.
#[derive(Clone, Copy, Debug, PartialEq, Eq, Structural)]
pub enum MonitorAction {
    /// Register the window class.
    RegisterClass,
    /// Create the hidden window.
    CreateWindow,
    /// Retrieve and dispatch the next message.
    RetrieveMessage,
    /// Leave the loop.
    Exit,
}

/// The stage in which a monitor thread starts: the class is registered only
/// if no earlier start in this process has registered it.
pub open spec fn monitor_entry(class_registered: bool) -> MonitorState {
    if class_registered {
        MonitorState::Registered
    } else {
        MonitorState::Idle
    }
}

/// The stage that follows `state` on `event`. An event that does not belong
/// to the stage leaves it unchanged.
pub open spec fn monitor_next(state: MonitorState, event: MonitorEvent) -> MonitorState {
    match (state, event) {
        (MonitorState::Idle, MonitorEvent::ClassRegistered) => MonitorState::Registered,
        (MonitorState::Registered, MonitorEvent::WindowCreated) => MonitorState::Listening,
        (MonitorState::Listening, MonitorEvent::RetrievalEnded) => MonitorState::Stopped,
        _ => state,
    }
}

/// What there is to do in a stage.
pub open spec fn monitor_duty(state: MonitorState) -> MonitorAction {
    match state {
        MonitorState::Idle => MonitorAction::RegisterClass,
        MonitorState::Registered => MonitorAction::CreateWindow,
        MonitorState::Listening => MonitorAction::RetrieveMessage,
        MonitorState::Stopped => MonitorAction::Exit,
    }
}

/// Tells the monitor thread what to do in its stage.
pub fn monitor_action(state: MonitorState) -> (action: MonitorAction)
    ensures
        action == monitor_duty(state),
{
    match state {
        MonitorState::Idle => MonitorAction::RegisterClass,
        MonitorState::Registered => MonitorAction::CreateWindow,
        MonitorState::Listening => MonitorAction::RetrieveMessage,
        MonitorState::Stopped => MonitorAction::Exit,
    }
}

/// Starts a monitor thread. `class_registered` tells whether an earlier
/// start in this process has registered the window class.
pub fn start_monitor(class_registered: bool) -> (r: (MonitorState, MonitorAction))
    ensures
        r.0 == monitor_entry(class_registered),
        r.1 == monitor_duty(r.0),
{
    let state = if class_registered {
        MonitorState::Registered
    } else {
        MonitorState::Idle
    };
    (state, monitor_action(state))
}

/// Advances the monitor thread by one event and tells it what to do next.
pub fn monitor_step(state: MonitorState, event: MonitorEvent) -> (r: (MonitorState, MonitorAction))
    ensures
        r.0 == monitor_next(state, event),
        r.1 == monitor_duty(r.0),
{
    let next = match state {
        MonitorState::Idle => match event {
            MonitorEvent::ClassRegistered => MonitorState::Registered,
            _ => state,
        },
        MonitorState::Registered => match event {
            MonitorEvent::WindowCreated => MonitorState::Listening,
            _ => state,
        },
        MonitorState::Listening => match event {
            MonitorEvent::RetrievalEnded => MonitorState::Stopped,
            _ => state,
        },
        MonitorState::Stopped => state,
    };
    (next, monitor_action(next))
}

/// While it listens, the monitor keeps listening on every event but the end
/// of retrieval, which alone stops it.
pub proof fn listening_ends_only_on_shutdown(event: MonitorEvent)
    ensures
        monitor_next(MonitorState::Listening, event) == (if event == MonitorEvent::RetrievalEnded {
            MonitorState::Stopped
        } else {
            MonitorState::Listening
        }),
{
}

/// The window class is registered at most once: a start that finds it
/// registered never asks for it, and once a registration is reported no
/// later event leads back to asking for it.
pub proof fn class_is_registered_once(state: MonitorState, event: MonitorEvent)
    ensures
        monitor_duty(monitor_entry(true)) != MonitorAction::RegisterClass,
        state != MonitorState::Idle ==> monitor_duty(monitor_next(state, event))
            != MonitorAction::RegisterClass,
        monitor_duty(monitor_next(state, MonitorEvent::ClassRegistered))
            != MonitorAction::RegisterClass,
{
}

/// One entry of the context table.
#[derive(Clone, Copy, Debug, PartialEq, Eq, Structural)]
pub struct Registration {
    pub window: usize,
    pub handle: usize,
}

/// The table of event-bus handles, keyed by window. An entry is made when
/// its window is created and is never changed or removed.
pub struct ContextTable {
    entries: Vec<Registration>,
}

impl ContextTable {
    /// No window occurs twice.
    pub closed spec fn well_formed(&self) -> bool {
        forall|i: int, j: int|
            0 <= i < j < self.entries@.len() ==> self.entries@[i].window
                != self.entries@[j].window
    }

    /// The handle of each registered window.
    pub closed spec fn handles(&self) -> Map<usize, usize> {
        Map::new(
            |w: usize| exists|i: int| 0 <= i < self.entries@.len() && self.entries@[i].window == w,
            |w: usize|
                self.entries@[choose|i: int|
                    0 <= i < self.entries@.len() && self.entries@[i].window == w].handle,
        )
    }

    /// An empty table.
    pub fn new() -> (table: ContextTable)
        ensures
            table.well_formed(),
            table.handles() == Map::<usize, usize>::empty(),
    {
        let table = ContextTable { entries: Vec::new() };
        assert(table.handles() =~= Map::<usize, usize>::empty());
        table
    }

    /// Looks up the handle of a window.
    pub fn lookup(&self, window: usize) -> (found: Option<usize>)
        requires
            self.well_formed(),
        ensures
            found == (if self.handles().dom().contains(window) {
                Some(self.handles()[window])
            } else {
                None
            }),
    {
        let mut i: usize = 0;
        while i < self.entries.len()
            invariant
                i <= self.entries@.len(),
                self.well_formed(),
                forall|j: int| 0 <= j < i ==> self.entries@[j].window != window,
            decreases self.entries@.len() - i,
        {
            if self.entries[i].window == window {
                proof {
                    let k = choose|k: int|
                        0 <= k < self.entries@.len() && self.entries@[k].window == window;
                    assert(k == i);
                }
                return Some(self.entries[i].handle);
            }
            i = i + 1;
        }
        None
    }

    /// Registers the handle of a window. The first registration of a window
    /// stands: a later one for the same window changes nothing. The result
    /// tells whether an entry was made.
    pub fn register(&mut self, window: usize, handle: usize) -> (added: bool)
        requires
            old(self).well_formed(),
        ensures
            final(self).well_formed(),
            added == !old(self).handles().dom().contains(window),
            final(self).handles() == (if added {
                old(self).handles().insert(window, handle)
            } else {
                old(self).handles()
            }),
    {
        if self.lookup(window).is_some() {
            return false;
        }
        let ghost before = *self;
        self.entries.push(Registration { window, handle });
        proof {
            let n = before.entries@.len() as int;
            assert(self.entries@[n].window == window);
            assert forall|w: usize| #[trigger]
                self.handles().dom().contains(w) == before.handles().insert(
                    window,
                    handle,
                ).dom().contains(w) by {
                if before.handles().dom().contains(w) {
                    let i = choose|i: int|
                        0 <= i < before.entries@.len() && before.entries@[i].window == w;
                    assert(self.entries@[i].window == w);
                }
                if w == window {
                    assert(self.entries@[n].window == w);
                }
            }
            assert forall|w: usize| #[trigger]
                self.handles().dom().contains(w) implies self.handles()[w]
                == before.handles().insert(window, handle)[w] by {
                let k = choose|k: int| 0 <= k < self.entries@.len() && self.entries@[k].window == w;
                if w == window {
                    assert(k == n);
                } else {
                    assert(k < n);
                    let i = choose|i: int|
                        0 <= i < before.entries@.len() && before.entries@[i].window == w;
                    assert(before.entries@[k].window == w);
                    assert(i == k);
                }
            }
            assert(self.handles() =~= before.handles().insert(window, handle));
        }
        true
    }
}

/// What the window callback does with a message before it passes the
/// message on to the default handler.
#[derive(Clone, Copy, Debug, PartialEq, Eq, Structural)]
pub enum CallbackAction {
    /// Nothing.
    PassOn,
    /// Publish a device-change event through the handle.
    Notify { handle: usize },
}

/// The table after the callback saw `message` for `window`: a creation
/// message registers the context it carries, unless the context is null or
/// the window is known.
pub open spec fn handles_after(
    handles: Map<usize, usize>,
    window: usize,
    message: u32,
    creation_context: usize,
) -> Map<usize, usize> {
    if message == WM_CREATE && creation_context != 0 && !handles.dom().contains(window) {
        handles.insert(window, creation_context)
    } else {
        handles
    }
}

/// What the callback does on `message`: a change in the device tree is
/// published through the handle registered for the window; every other
/// message, and a change for a window without a handle, is only passed on.
pub open spec fn callback_duty(
    handles: Map<usize, usize>,
    window: usize,
    message: u32,
    wparam: usize,
) -> CallbackAction {
    if message == WM_DEVICECHANGE && wparam == DBT_DEVNODES_CHANGED && handles.dom().contains(
        window,
    ) {
        CallbackAction::Notify { handle: handles[window] }
    } else {
        CallbackAction::PassOn
    }
}

/// The bus event that announces a change of devices.
pub fn device_change_event() -> (name: &'static str)
    ensures
        name@ == "device-change"@,
{
    "device-change"
}

/// The payload of the device-change event.
pub fn device_change_payload() -> (payload: &'static str)
    ensures
        payload@ == "refresh"@,
{
    "refresh"
}

/// The decision of the window callback for one message. `creation_context`
/// is the context that a creation message carries; it is read on no other
/// message.
pub fn window_proc(
    table: &mut ContextTable,
    window: usize,
    message: u32,
    wparam: usize,
    creation_context: usize,
) -> (action: CallbackAction)
    requires
        old(table).well_formed(),
    ensures
        final(table).well_formed(),
        final(table).handles() == handles_after(
            old(table).handles(),
            window,
            message,
            creation_context,
        ),
        action == callback_duty(old(table).handles(), window, message, wparam),
{
    if message == WM_CREATE {
        if creation_context != 0 {
            table.register(window, creation_context);
        }
        CallbackAction::PassOn
    } else if message == WM_DEVICECHANGE && wparam == DBT_DEVNODES_CHANGED {
        match table.lookup(window) {
            Some(handle) => CallbackAction::Notify { handle },
            None => CallbackAction::PassOn,
        }
    } else {
        CallbackAction::PassOn
    }
}

/// A handle, once registered, is found unchanged after any later message.
pub proof fn registered_handle_is_kept(
    handles: Map<usize, usize>,
    registered: usize,
    window: usize,
    message: u32,
    creation_context: usize,
)
    requires
        handles.dom().contains(registered),
    ensures
        handles_after(handles, window, message, creation_context).dom().contains(registered),
        handles_after(handles, window, message, creation_context)[registered]
            == handles[registered],
{
}

} // verus!
