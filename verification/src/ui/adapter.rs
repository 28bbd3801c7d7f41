//! The UI's event-loop adapter as a state machine: each event from the loop
//! gives the next state and the effects that the loop must carry out.

use crate::ui::window_handle::WindowHandle;
use crate::ui::PluginMessage;
use crate::ui::UIMessage;
use vstd::prelude::*;

verus! {

/// Where the editor window stands.
#[derive(Debug, Clone, Copy, PartialEq, Eq, Structural)]
pub enum Visibility {
    /// Not shown. The state at startup.
    Hidden,
    /// Shown inside a window of the host.
    Visible,
    /// Close was requested. Nothing leaves this state.
    Closed,
}

/// How the toolkit presents the window.
#[derive(Debug, Clone, Copy, PartialEq, Eq, Structural)]
pub enum WindowMode {
    Windowed,
    Hidden,
}

/// An event that the loop hands to the adapter.
#[derive(Debug, Clone, Copy, PartialEq, Eq, Structural)]
pub enum Message {
    /// A message from the plugin to the UI.
    PluginMessage(UIMessage),
    /// Nothing happened that the adapter reacts to.
    Idle,
}

/// An effect that the loop carries out for the adapter, in the order given.
#[derive(Debug, Clone, Copy, PartialEq, Eq, Structural)]
pub enum Effect {
    /// Make `child` a child window of `parent`; the sentinel as parent
    /// detaches it.
    SetParent { child: WindowHandle, parent: WindowHandle },
    /// Show (`visible`) or hide the native window.
    ShowWindow { window: WindowHandle, visible: bool },
    /// Send a message to the plugin.
    Send(PluginMessage),
    /// Ask the toolkit to change the window's mode.
    ChangeMode(WindowMode),
    /// Ask the toolkit to close the window, which ends the loop.
    Close,
}

/// How the UI's window is set up before the loop starts.
#[derive(Debug, Clone, Copy, PartialEq, Eq, Structural)]
pub struct WindowSetup {
    pub antialiasing: bool,
    pub resizable: bool,
    pub visible: bool,
    pub width: u32,
    pub height: u32,
    pub decorations: bool,
}

/// What the adapter is, as contracts see it.
pub struct UIState {
    /// The UI's own native window, the sentinel until one is assigned.
    pub hwnd: WindowHandle,
    pub title: Seq<char>,
    pub visibility: Visibility,
}

/// The state after `message` arrives in state `s`.
///
/// A request to show the editor makes the window visible if the handle names
/// a window and hidden if not; a request to die closes it; a closed adapter
/// stays closed.
pub open spec fn next_state(s: UIState, message: Message) -> UIState {
    if s.visibility == Visibility::Closed {
        s
    } else {
        match message {
            Message::PluginMessage(UIMessage::ShowEditor(parent)) => UIState {
                visibility: if parent.is_valid() {
                    Visibility::Visible
                } else {
                    Visibility::Hidden
                },
                ..s
            },
            Message::PluginMessage(UIMessage::Die) => UIState {
                visibility: Visibility::Closed,
                ..s
            },
            _ => s,
        }
    }
}

/// The effects of `message` arriving in state `s`, in the order in which the
/// loop carries them out.
pub open spec fn effects(s: UIState, message: Message) -> Seq<Effect> {
    if s.visibility == Visibility::Closed {
        Seq::empty()
    } else {
        match message {
            Message::PluginMessage(UIMessage::ShowEditor(parent)) => {
                if parent.is_valid() {
                    seq![
                        Effect::SetParent { child: s.hwnd, parent },
                        Effect::ShowWindow { window: s.hwnd, visible: true },
                        Effect::Send(PluginMessage::SetEditor(s.hwnd)),
                        Effect::ChangeMode(WindowMode::Windowed),
                    ]
                } else {
                    seq![
                        Effect::SetParent { child: s.hwnd, parent },
                        Effect::ShowWindow { window: s.hwnd, visible: false },
                        Effect::ChangeMode(WindowMode::Hidden),
                    ]
                }
            },
            Message::PluginMessage(UIMessage::Die) => seq![Effect::Close],
            _ => Seq::empty(),
        }
    }
}

/// The event for what the UI's end of the relay gave: a message becomes an
/// event; the end of the channel ends the events.
pub open spec fn event_spec(received: Option<UIMessage>) -> Option<Message> {
    match received {
        Some(message) => Some(Message::PluginMessage(message)),
        None => None,
    }
}

/// The event for what the UI's end of the relay gave.
pub fn event_for(received: Option<UIMessage>) -> (event: Option<Message>)
    ensures
        event == event_spec(received),
{
    match received {
        Some(message) => Some(Message::PluginMessage(message)),
        None => None,
    }
}

/// The window as the loop starts with it: hidden, of a fixed size of 200 by
/// 200, without decorations, antialiased.
pub fn initial_window() -> (setup: WindowSetup)
    ensures
        setup == (WindowSetup {
            antialiasing: true,
            resizable: false,
            visible: false,
            width: 200,
            height: 200,
            decorations: false,
        }),
{
    WindowSetup {
        antialiasing: true,
        resizable: false,
        visible: false,
        width: 200,
        height: 200,
        decorations: false,
    }
}

/// The adapter: the UI's own window, its title and where the window stands.
#[derive(Debug)]
pub struct UI {
    hwnd: WindowHandle,
    title: String,
    visibility: Visibility,
}

impl View for UI {
    type V = UIState;

    closed spec fn view(&self) -> UIState {
        UIState { hwnd: self.hwnd, title: self.title@, visibility: self.visibility }
    }
}

impl UI {
    /// A hidden adapter without a native window yet, and the one effect of
    /// startup: telling the plugin that the UI has started.
    pub fn new(title: String) -> (started: (Self, Vec<Effect>))
        ensures
            started.0@.hwnd@ == 0,
            started.0@.title == title@,
            started.0@.visibility == Visibility::Hidden,
            started.1@ == seq![Effect::Send(PluginMessage::UIInit)],
    {
        let ui = Self { hwnd: WindowHandle::null(), title, visibility: Visibility::Hidden };
        let mut startup: Vec<Effect> = Vec::new();
        startup.push(Effect::Send(PluginMessage::UIInit));
        assert(startup@ =~= seq![Effect::Send(PluginMessage::UIInit)]);
        (ui, startup)
    }

    /// The window's title.
    pub fn title(&self) -> (title: String)
        ensures
            title@ == self@.title,
    {
        self.title.clone()
    }

    /// Where the window stands.
    pub fn visibility(&self) -> (visibility: Visibility)
        ensures
            visibility == self@.visibility,
    {
        self.visibility
    }

    /// The UI's own native window.
    pub fn own_hwnd(&self) -> (hwnd: WindowHandle)
        ensures
            hwnd == self@.hwnd,
    {
        self.hwnd
    }

    /// Records the native window that the toolkit assigned to the UI.
    pub fn hwnd(&mut self, hwnd: WindowHandle)
        ensures
            final(self)@ == (UIState { hwnd, ..old(self)@ }),
    {
        self.hwnd = hwnd;
    }

    /// Takes one event: moves to the next state and returns the effects for
    /// the loop to carry out, in order.
    pub fn update(&mut self, message: Message) -> (out: Vec<Effect>)
        ensures
            final(self)@ == next_state(old(self)@, message),
            out@ == effects(old(self)@, message),
    {
        let mut out: Vec<Effect> = Vec::new();
        if let Visibility::Closed = self.visibility {
            assert(out@ =~= effects(old(self)@, message));
            return out;
        }
        match message {
            Message::PluginMessage(UIMessage::ShowEditor(handle)) => {
                let show = handle.is_valid();
                out.push(Effect::SetParent { child: self.hwnd, parent: handle });
                out.push(Effect::ShowWindow { window: self.hwnd, visible: show });
                if show {
                    out.push(Effect::Send(PluginMessage::SetEditor(self.hwnd)));
                    out.push(Effect::ChangeMode(WindowMode::Windowed));
                    self.visibility = Visibility::Visible;
                } else {
                    out.push(Effect::ChangeMode(WindowMode::Hidden));
                    self.visibility = Visibility::Hidden;
                }
            },
            Message::PluginMessage(UIMessage::StateChange(_)) => {},
            Message::PluginMessage(UIMessage::Die) => {
                out.push(Effect::Close);
                self.visibility = Visibility::Closed;
            },
            Message::Idle => {},
        }
        assert(out@ =~= effects(old(self)@, message));
        out
    }
}

/// Nothing leaves the closed state: whatever arrives, the state stays as it
/// is and nothing is carried out.
pub proof fn lemma_closed_is_terminal(s: UIState, message: Message)
    requires
        s.visibility == Visibility::Closed,
    ensures
        next_state(s, message) == s,
        effects(s, message) == Seq::<Effect>::empty(),
{
}

/// From every state but the closed one, a request to die closes the window
/// and does nothing else.
pub proof fn lemma_die_closes(s: UIState)
    requires
        s.visibility != Visibility::Closed,
    ensures
        next_state(s, Message::PluginMessage(UIMessage::Die)).visibility == Visibility::Closed,
        effects(s, Message::PluginMessage(UIMessage::Die)) == seq![Effect::Close],
{
}

/// The UI announces its window to the plugin exactly when it is asked,
/// while not closed, to show the editor inside a window that exists; it is
/// then visible. No event makes it announce anything else.
pub proof fn lemma_announces_when_shown(s: UIState, message: Message, sent: PluginMessage)
    ensures
        effects(s, message).contains(Effect::Send(sent)) <==> (s.visibility != Visibility::Closed
            && sent == PluginMessage::SetEditor(s.hwnd) && exists|parent: WindowHandle|
            parent.is_valid() && message == Message::PluginMessage(UIMessage::ShowEditor(parent))),
        effects(s, message).contains(Effect::Send(sent)) ==> next_state(s, message).visibility
            == Visibility::Visible,
{
    let out = effects(s, message);
    if out.contains(Effect::Send(sent)) {
        let i = choose|i: int| 0 <= i < out.len() && out[i] == Effect::Send(sent);
        assert(out[i] == Effect::Send(sent));
    }
    if s.visibility != Visibility::Closed {
        if let Message::PluginMessage(UIMessage::ShowEditor(parent)) = message {
            if parent.is_valid() && sent == PluginMessage::SetEditor(s.hwnd) {
                assert(out[2] == Effect::Send(sent));
            }
        }
    }
}

/// No event changes the UI's own window or its title.
pub proof fn lemma_update_keeps_identity(s: UIState, message: Message)
    ensures
        next_state(s, message).hwnd == s.hwnd,
        next_state(s, message).title == s.title,
{
}

/// The state after a run of events, taken one by one in their order.
pub open spec fn state_after(s: UIState, events: Seq<Message>) -> UIState
    decreases events.len(),
{
    if events.len() == 0 {
        s
    } else {
        next_state(state_after(s, events.drop_last()), events.last())
    }
}

/// The effects of a run of events, taken one by one in their order: the
/// effects of each event in the state that the events before it led to.
pub open spec fn effects_of(s: UIState, events: Seq<Message>) -> Seq<Effect>
    decreases events.len(),
{
    if events.len() == 0 {
        Seq::empty()
    } else {
        effects_of(s, events.drop_last()) + effects(
            state_after(s, events.drop_last()),
            events.last(),
        )
    }
}

/// Taking two runs of events one after the other is taking them joined: how
/// the events arrive in batches changes neither the state they lead to nor
/// the effects or their order.
pub proof fn lemma_run_of_joined(s: UIState, first: Seq<Message>, second: Seq<Message>)
    ensures
        state_after(s, first + second) == state_after(state_after(s, first), second),
        effects_of(s, first + second) == effects_of(s, first) + effects_of(
            state_after(s, first),
            second,
        ),
    decreases second.len(),
{
    if second.len() == 0 {
        assert(first + second =~= first);
        assert(effects_of(s, first) + Seq::<Effect>::empty() =~= effects_of(s, first));
    } else {
        lemma_run_of_joined(s, first, second.drop_last());
        assert((first + second).drop_last() =~= first + second.drop_last());
        assert((first + second).last() == second.last());
        let mid = state_after(s, first);
        let step = effects(state_after(mid, second.drop_last()), second.last());
        assert((effects_of(s, first) + effects_of(mid, second.drop_last())) + step =~= effects_of(
            s,
            first,
        ) + (effects_of(mid, second.drop_last()) + step));
    }
}

/// A closed adapter stays closed through every run of events and carries
/// nothing out.
pub proof fn lemma_closed_for_good(s: UIState, events: Seq<Message>)
    requires
        s.visibility == Visibility::Closed,
    ensures
        state_after(s, events) == s,
        effects_of(s, events) == Seq::<Effect>::empty(),
    decreases events.len(),
{
    if events.len() > 0 {
        lemma_closed_for_good(s, events.drop_last());
        assert(Seq::<Effect>::empty() + Seq::<Effect>::empty() =~= Seq::<Effect>::empty());
    }
}

/// A request to die ends every run: whatever came before it and whatever
/// follows, the adapter ends closed, and the events after the request have
/// no effect.
pub proof fn lemma_die_ends_the_run(s: UIState, before: Seq<Message>, after: Seq<Message>)
    ensures
        state_after(
            s,
            before.push(Message::PluginMessage(UIMessage::Die)) + after,
        ).visibility == Visibility::Closed,
        effects_of(s, before.push(Message::PluginMessage(UIMessage::Die)) + after) == effects_of(
            s,
            before.push(Message::PluginMessage(UIMessage::Die)),
        ),
{
    let die = Message::PluginMessage(UIMessage::Die);
    let upto = before.push(die);
    assert(upto.drop_last() =~= before);
    assert(upto.last() == die);
    let dead = state_after(s, upto);
    assert(dead.visibility == Visibility::Closed);
    lemma_run_of_joined(s, upto, after);
    lemma_closed_for_good(dead, after);
    assert(effects_of(s, upto) + Seq::<Effect>::empty() =~= effects_of(s, upto));
}

/// After startup the UI never again reports that it has started, whatever
/// events arrive.
pub proof fn lemma_start_is_reported_once(s: UIState, events: Seq<Message>)
    ensures
        !effects_of(s, events).contains(Effect::Send(PluginMessage::UIInit)),
    decreases events.len(),
{
    let report = Effect::Send(PluginMessage::UIInit);
    if events.len() > 0 {
        lemma_start_is_reported_once(s, events.drop_last());
        let earlier = effects_of(s, events.drop_last());
        let mid = state_after(s, events.drop_last());
        let step = effects(mid, events.last());
        lemma_announces_when_shown(mid, events.last(), PluginMessage::UIInit);
        if (earlier + step).contains(report) {
            let i = choose|i: int| 0 <= i < (earlier + step).len() && (earlier + step)[i] == report;
            if i < earlier.len() {
                assert(earlier[i] == report);
            } else {
                assert(step[i - earlier.len()] == report);
            }
        }
    }
}

} // verus!
