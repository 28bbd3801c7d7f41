//! The host's side of the plugin: what the plugin asks of the UI when the
//! host calls, and what it does with the messages that the UI has sent.

use crate::state::load_state;
use crate::state::loaded;
use crate::state::save_state;
use crate::state::saved;
use crate::state::SaveState;
use crate::ui::relay::shutdown_outcome;
use crate::ui::relay::RelayError;
use crate::ui::relay::Stopping;
use crate::ui::relay::UIFlags;
use crate::ui::relay::UIHandle;
use crate::ui::relay::CHANNEL_CAPACITY;
use crate::ui::window_handle::WindowHandle;
use crate::ui::PluginMessage;
use crate::ui::UIMessage;
use vstd::prelude::*;

verus! {

/// What of a call from the host the plugin reacts to.
#[derive(Debug, Clone, Copy, PartialEq, Eq, Structural)]
pub enum HostEvent {
    /// The host shows the editor inside the given window, or hides it if
    /// the handle is the sentinel.
    ShowEditor(WindowHandle),
    /// Any other call.
    Other,
}

/// Something worth a line in the host's debug log.
#[derive(Debug, Clone, Copy, PartialEq, Eq, Structural)]
pub enum Note {
    /// The UI reported that it has started.
    UiInitialised,
    /// The persisted state could not be read; defaults are used.
    StateUnreadable,
    /// A message was lost because the UI thread is gone.
    ChannelClosed,
}

/// What the plugin does on the host in answer to a call.
#[derive(Debug, Clone, Copy, PartialEq, Eq, Structural)]
pub enum HostAction {
    /// Register the window with this raw value as the editor; zero means
    /// that there is none.
    SetEditorHwnd(isize),
    /// Write a line to the host's debug log.
    Log(Note),
}

/// The name under which the plugin registers and logs.
pub open spec fn plugin_name() -> Seq<char> {
    "emilydotgg-template"@
}

/// The words of a note.
pub open spec fn note_text(note: Note) -> Seq<char> {
    match note {
        Note::UiInitialised => "UI initialised"@,
        Note::StateUnreadable => "error reading state"@,
        Note::ChannelClosed => "UI channel closed"@,
    }
}

/// A line of the debug log: the plugin's tag, then the note's words.
pub open spec fn log_line_spec(note: Note) -> Seq<char> {
    "template-plugin: "@ + note_text(note)
}

/// What the plugin asks of the UI on a call from the host, if anything.
pub open spec fn request_spec(event: HostEvent) -> Option<UIMessage> {
    match event {
        HostEvent::ShowEditor(hwnd) => Some(UIMessage::ShowEditor(hwnd)),
        HostEvent::Other => None,
    }
}

/// What the plugin does on the host for one message from the UI. The UI's
/// window is registered as the editor only once the host has handed the
/// plugin its proxy.
pub open spec fn reaction_spec(message: PluginMessage, has_proxy: bool) -> Option<HostAction> {
    match message {
        PluginMessage::SetEditor(hwnd) => if has_proxy {
            Some(HostAction::SetEditorHwnd(hwnd@))
        } else {
            None
        },
        PluginMessage::UIInit => Some(HostAction::Log(Note::UiInitialised)),
    }
}

/// The reactions to a run of messages from the UI, in the messages' order.
pub open spec fn reactions(drained: Seq<PluginMessage>, has_proxy: bool) -> Seq<HostAction>
    decreases drained.len(),
{
    if drained.len() == 0 {
        Seq::empty()
    } else {
        let before = reactions(drained.drop_last(), has_proxy);
        match reaction_spec(drained.last(), has_proxy) {
            Some(action) => before.push(action),
            None => before,
        }
    }
}

/// Everything the plugin does on the host in one call: a note if its request
/// to the UI was lost, then the reactions to what the UI had sent.
pub open spec fn actions_spec(
    sent: Option<Result<(), RelayError>>,
    drained: Seq<PluginMessage>,
    has_proxy: bool,
) -> Seq<HostAction> {
    let lost = match sent {
        Some(Err(_)) => seq![HostAction::Log(Note::ChannelClosed)],
        _ => Seq::empty(),
    };
    lost + reactions(drained, has_proxy)
}

/// What one call from the host came to.
#[derive(Debug)]
pub struct Handled {
    /// How the request to the UI went, if the call gave rise to one.
    pub sent: Option<Result<(), RelayError>>,
    /// The messages that the UI had queued, oldest first.
    pub drained: Vec<PluginMessage>,
    /// What to do on the host, in order.
    pub actions: Vec<HostAction>,
}

/// The state to go on with after a load, and the note to log if the blob
/// could not be used.
pub open spec fn restored_spec(blob: Option<Seq<u8>>) -> (SaveState, Option<HostAction>) {
    match blob {
        Some(bytes) if loaded(bytes) is Ok => (loaded(bytes).unwrap(), None),
        _ => (SaveState::Ver0 {  }, Some(HostAction::Log(Note::StateUnreadable))),
    }
}

/// The words of a note.
pub fn note_words(note: Note) -> (words: &'static str)
    ensures
        words@ == note_text(note),
{
    match note {
        Note::UiInitialised => "UI initialised",
        Note::StateUnreadable => "error reading state",
        Note::ChannelClosed => "UI channel closed",
    }
}

/// The line that the host's debug log gets for a note.
pub fn log_line(note: Note) -> (line: String)
    ensures
        line@ == log_line_spec(note),
{
    let mut line = String::from_str("template-plugin: ");
    line.append(note_words(note));
    line
}

/// What the plugin asks of the UI on a call from the host, if anything.
pub fn request_for(event: HostEvent) -> (request: Option<UIMessage>)
    ensures
        request == request_spec(event),
{
    match event {
        HostEvent::ShowEditor(hwnd) => Some(UIMessage::ShowEditor(hwnd)),
        HostEvent::Other => None,
    }
}

/// What the plugin does on the host for one message from the UI.
pub fn reaction(message: PluginMessage, has_proxy: bool) -> (action: Option<HostAction>)
    ensures
        action == reaction_spec(message, has_proxy),
{
    match message {
        PluginMessage::SetEditor(hwnd) => {
            if has_proxy {
                let raw: isize = match hwnd.as_ptr() {
                    Some(address) => address,
                    None => 0,
                };
                Some(HostAction::SetEditorHwnd(raw))
            } else {
                None
            }
        },
        PluginMessage::UIInit => Some(HostAction::Log(Note::UiInitialised)),
    }
}

/// Everything the plugin does on the host in one call, from how its request
/// went and what the UI had sent.
pub fn actions_for(
    sent: Option<Result<(), RelayError>>,
    drained: &Vec<PluginMessage>,
    has_proxy: bool,
) -> (actions: Vec<HostAction>)
    ensures
        actions@ == actions_spec(sent, drained@, has_proxy),
{
    let mut actions: Vec<HostAction> = Vec::new();
    if let Some(Err(_)) = sent {
        actions.push(HostAction::Log(Note::ChannelClosed));
    }
    let ghost lost = actions@;
    let mut i: usize = 0;
    assert(drained@.take(0) =~= Seq::empty());
    while i < drained.len()
        invariant
            i <= drained@.len(),
            actions@ == lost + reactions(drained@.take(i as int), has_proxy),
        decreases drained@.len() - i,
    {
        let ghost upto = drained@.take(i + 1);
        assert(upto.drop_last() =~= drained@.take(i as int));
        assert(upto.last() == drained@[i as int]);
        match reaction(drained[i], has_proxy) {
            Some(action) => {
                actions.push(action);
                assert(actions@ =~= lost + reactions(upto, has_proxy));
            },
            None => {},
        }
        i = i + 1;
    }
    assert(drained@.take(i as int) =~= drained@);
    actions
}

/// Reacting to two runs of messages one after the other is reacting to them
/// joined: draining in several calls changes neither the order of the
/// reactions nor their number.
pub proof fn lemma_reactions_of_joined(
    first: Seq<PluginMessage>,
    second: Seq<PluginMessage>,
    has_proxy: bool,
)
    ensures
        reactions(first + second, has_proxy) == reactions(first, has_proxy) + reactions(
            second,
            has_proxy,
        ),
    decreases second.len(),
{
    if second.len() == 0 {
        assert(first + second =~= first);
        assert(reactions(second, has_proxy) =~= Seq::<HostAction>::empty());
        assert(reactions(first, has_proxy) + Seq::<HostAction>::empty() =~= reactions(
            first,
            has_proxy,
        ));
    } else {
        lemma_reactions_of_joined(first, second.drop_last(), has_proxy);
        assert((first + second).drop_last() =~= first + second.drop_last());
        assert((first + second).last() == second.last());
        let before = reactions(first, has_proxy) + reactions(second.drop_last(), has_proxy);
        match reaction_spec(second.last(), has_proxy) {
            Some(action) => {
                assert(before.push(action) =~= reactions(first, has_proxy) + reactions(
                    second.drop_last(),
                    has_proxy,
                ).push(action));
            },
            None => {},
        }
    }
}

/// Once the plugin has its proxy, every message from the UI has exactly one
/// reaction, so the reactions line up with the messages one for one.
pub proof fn lemma_reactions_with_proxy(drained: Seq<PluginMessage>)
    ensures
        reactions(drained, true).len() == drained.len(),
        forall|i: int|
            0 <= i < drained.len() ==> Some(#[trigger] reactions(drained, true)[i])
                == reaction_spec(drained[i], true),
    decreases drained.len(),
{
    if drained.len() > 0 {
        lemma_reactions_with_proxy(drained.drop_last());
        assert(reaction_spec(drained.last(), true) is Some);
        assert forall|i: int| 0 <= i < drained.len() implies Some(
            #[trigger] reactions(drained, true)[i],
        ) == reaction_spec(drained[i], true) by {
            if i < drained.len() - 1 {
                assert(drained.drop_last()[i] == drained[i]);
            }
        }
    }
}

/// Without the proxy only the UI's report of its start has a reaction: the
/// reactions are as many log lines as there are such reports.
pub proof fn lemma_reactions_without_proxy(drained: Seq<PluginMessage>)
    ensures
        reactions(drained, false).len() == drained.filter(
            |message: PluginMessage| message == PluginMessage::UIInit,
        ).len(),
        forall|i: int|
            0 <= i < reactions(drained, false).len() ==> #[trigger] reactions(drained, false)[i]
                == HostAction::Log(Note::UiInitialised),
    decreases drained.len(),
{
    reveal(Seq::filter);
    if drained.len() > 0 {
        lemma_reactions_without_proxy(drained.drop_last());
    }
}

/// What the output buffer holds after rendering: the input, frame for frame,
/// as far as both buffers reach; beyond that, what it held before.
pub open spec fn rendered<T>(input: Seq<T>, before: Seq<T>) -> Seq<T> {
    Seq::new(
        before.len(),
        |i: int|
            if i < input.len() {
                input[i]
            } else {
                before[i]
            },
    )
}

/// A plugin instance as the host drives it: the relay to its UI, and
/// whether the host has handed the plugin its proxy yet.
///
/// `J` is the join handle of the UI thread.
#[derive(Debug)]
pub struct Template<J> {
    has_proxy: bool,
    ui_handle: UIHandle<J>,
}

impl<J> Template<J> {
    /// Whether the host has handed the plugin its proxy.
    pub closed spec fn has_proxy(&self) -> bool {
        self.has_proxy
    }

    /// The join handle of the attached UI thread, if there is one.
    pub closed spec fn thread(&self) -> Option<J> {
        self.ui_handle.thread()
    }

    /// A plugin instance without proxy and without UI thread, and what its
    /// UI thread is to be started with: the UI's ends of the relay, under
    /// the plugin's name.
    pub fn new() -> (made: (Self, UIFlags))
        ensures
            !made.0.has_proxy(),
            made.0.thread() is None,
            made.1.title@ == plugin_name(),
    {
        let (ui_handle, flags) = UIHandle::new("emilydotgg-template");
        (Self { has_proxy: false, ui_handle }, flags)
    }

    /// Attaches the UI thread's join handle. An instance that has one
    /// already keeps it and hands the new one back.
    pub fn attach(&mut self, thread: J) -> (refused: Option<J>)
        ensures
            final(self).has_proxy() == old(self).has_proxy(),
            old(self).thread() is None ==> refused is None && final(self).thread() == Some(thread),
            old(self).thread() is Some ==> refused == Some(thread) && final(self).thread() == old(
                self,
            ).thread(),
    {
        self.ui_handle.attach(thread)
    }

    /// Takes note that the host has handed the plugin its proxy.
    pub fn proxy(&mut self)
        ensures
            final(self).has_proxy(),
            final(self).thread() == old(self).thread(),
    {
        self.has_proxy = true;
    }

    /// The blob for the host to persist.
    pub fn save_state(&self) -> (bytes: Vec<u8>)
        ensures
            bytes@ == saved(SaveState::Ver0 {  }),
    {
        save_state(SaveState::Ver0 {  })
    }

    /// Reads the persisted blob, or takes note that there is none to read
    /// (`None`: the host's reader failed). An unreadable blob is never a
    /// failure: the plugin goes on with its defaults and a line in the log.
    pub fn load_state(&mut self, blob: Option<&[u8]>) -> (restored: (SaveState, Option<HostAction>))
        ensures
            restored == restored_spec(
                match blob {
                    Some(bytes) => Some(bytes@),
                    None => None,
                },
            ),
            final(self).has_proxy() == old(self).has_proxy(),
            final(self).thread() == old(self).thread(),
    {
        match blob {
            Some(bytes) => match load_state(bytes) {
                Ok(state) => (state, None),
                Err(_) => (SaveState::Ver0 {  }, Some(HostAction::Log(Note::StateUnreadable))),
            },
            None => (SaveState::Ver0 {  }, Some(HostAction::Log(Note::StateUnreadable))),
        }
    }

    /// Handles one call from the host: sends the UI what the call asks for,
    /// takes what the UI has queued, and says what to do on the host. A lost
    /// request is noted, never a failure.
    pub fn on_message(&mut self, event: HostEvent) -> (handled: Handled)
        ensures
            handled.sent is Some <==> request_spec(event) is Some,
            handled.drained@.len() <= CHANNEL_CAPACITY,
            handled.actions@ == actions_spec(handled.sent, handled.drained@, old(self).has_proxy()),
            final(self).has_proxy() == old(self).has_proxy(),
            final(self).thread() == old(self).thread(),
    {
        let sent = match request_for(event) {
            Some(request) => Some(self.ui_handle.send_sync(request)),
            None => None,
        };
        let drained = self.ui_handle.try_drain();
        let actions = actions_for(sent, &drained, self.has_proxy);
        Handled { sent, drained, actions }
    }

    /// The name of a parameter or the like: the plugin has none to name.
    pub fn name_of(&self) -> (name: String)
        ensures
            name@ == "No names"@,
    {
        String::from_str("No names")
    }

    /// Copies the input to the output, frame for frame, as far as both
    /// buffers reach.
    pub fn render<T: Copy>(&mut self, input: &[T], output: &mut [T])
        ensures
            final(output)@ == rendered(input@, old(output)@),
            final(self).has_proxy() == old(self).has_proxy(),
            final(self).thread() == old(self).thread(),
    {
        let frames: usize = if input.len() < output.len() {
            input.len()
        } else {
            output.len()
        };
        let mut i: usize = 0;
        while i < frames
            invariant
                frames <= input@.len(),
                frames <= output@.len(),
                i <= frames,
                output@.len() == old(output)@.len(),
                forall|k: int| 0 <= k < i ==> output@[k] == input@[k],
                forall|k: int| i <= k < output@.len() ==> output@[k] == old(output)@[k],
            decreases frames - i,
        {
            output[i] = input[i];
            i = i + 1;
        }
        assert(output@ =~= rendered(input@, old(output)@));
    }

    /// Ends the instance: with a UI thread attached, asks the UI to die and
    /// releases the join handle for the caller to wait on; with none, does
    /// nothing.
    pub fn shutdown(&mut self) -> (stopping: Option<Stopping<J>>)
        ensures
            shutdown_outcome(old(self).thread(), stopping, final(self).thread()),
            final(self).has_proxy() == old(self).has_proxy(),
    {
        self.ui_handle.shutdown()
    }
}

} // verus!
