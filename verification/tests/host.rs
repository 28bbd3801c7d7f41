use template_plugin::host::actions_for;
use template_plugin::host::log_line;
use template_plugin::host::note_words;
use template_plugin::host::reaction;
use template_plugin::host::request_for;
use template_plugin::host::HostAction;
use template_plugin::host::HostEvent;
use template_plugin::host::Note;
use template_plugin::host::Template;
use template_plugin::ui::relay::RelayError;
use template_plugin::ui::window_handle::WindowHandle;
use template_plugin::ui::PluginMessage;
use template_plugin::ui::UIMessage;
use template_plugin::SaveState;
use tokio::sync::mpsc::error::TryRecvError;

#[test]
fn log_lines_carry_the_plugin_tag() {
    assert_eq!(log_line(Note::UiInitialised), "template-plugin: UI initialised");
    assert_eq!(log_line(Note::StateUnreadable), "template-plugin: error reading state");
    assert_eq!(log_line(Note::ChannelClosed), "template-plugin: UI channel closed");
    assert_eq!(note_words(Note::UiInitialised), "UI initialised");
}

#[test]
fn only_show_editor_asks_something_of_the_ui() {
    let hwnd = WindowHandle::from_raw(0x1000);
    assert_eq!(request_for(HostEvent::ShowEditor(hwnd)), Some(UIMessage::ShowEditor(hwnd)));
    assert_eq!(
        request_for(HostEvent::ShowEditor(WindowHandle::null())),
        Some(UIMessage::ShowEditor(WindowHandle::null()))
    );
    assert_eq!(request_for(HostEvent::Other), None);
}

#[test]
fn the_editor_is_registered_only_with_a_proxy() {
    let message = PluginMessage::SetEditor(WindowHandle::from_raw(0x77));
    assert_eq!(reaction(message, true), Some(HostAction::SetEditorHwnd(0x77)));
    assert_eq!(reaction(message, false), None);
    let none = PluginMessage::SetEditor(WindowHandle::null());
    assert_eq!(reaction(none, true), Some(HostAction::SetEditorHwnd(0)));
    assert_eq!(reaction(PluginMessage::UIInit, false), Some(HostAction::Log(Note::UiInitialised)));
    assert_eq!(reaction(PluginMessage::UIInit, true), Some(HostAction::Log(Note::UiInitialised)));
}

#[test]
fn actions_follow_the_order_of_the_messages() {
    let drained = vec![
        PluginMessage::UIInit,
        PluginMessage::SetEditor(WindowHandle::from_raw(1)),
        PluginMessage::SetEditor(WindowHandle::from_raw(2)),
    ];
    assert_eq!(
        actions_for(Some(Ok(())), &drained, true),
        vec![
            HostAction::Log(Note::UiInitialised),
            HostAction::SetEditorHwnd(1),
            HostAction::SetEditorHwnd(2),
        ]
    );
    assert_eq!(
        actions_for(None, &drained, false),
        vec![HostAction::Log(Note::UiInitialised)]
    );
    assert_eq!(
        actions_for(Some(Err(RelayError::ChannelClosed)), &drained, false),
        vec![HostAction::Log(Note::ChannelClosed), HostAction::Log(Note::UiInitialised)]
    );
    assert_eq!(actions_for(None, &Vec::new(), true), vec![]);
}

#[test]
fn draining_in_two_calls_gives_the_same_actions() {
    let first = vec![PluginMessage::UIInit, PluginMessage::SetEditor(WindowHandle::from_raw(1))];
    let second = vec![PluginMessage::SetEditor(WindowHandle::from_raw(2)), PluginMessage::UIInit];
    let mut joined = first.clone();
    joined.extend_from_slice(&second);
    let mut in_two = actions_for(None, &first, true);
    in_two.extend(actions_for(None, &second, true));
    assert_eq!(in_two, actions_for(None, &joined, true));
}

#[test]
fn new_instance_is_named_after_the_plugin() {
    let (_template, flags) = Template::<u32>::new();
    assert_eq!(flags.title, "emilydotgg-template");
}

#[test]
fn show_editor_reaches_the_ui() {
    let (mut template, mut flags) = Template::<u32>::new();
    let hwnd = WindowHandle::from_raw(0x1000);
    let handled = template.on_message(HostEvent::ShowEditor(hwnd));
    assert_eq!(handled.sent, Some(Ok(())));
    assert_eq!(handled.drained, vec![]);
    assert_eq!(handled.actions, vec![]);
    assert_eq!(flags.rx.try_recv(), Ok(UIMessage::ShowEditor(hwnd)));
    assert_eq!(flags.rx.try_recv(), Err(TryRecvError::Empty));
}

#[test]
fn other_calls_send_nothing_but_still_drain() {
    let (mut template, mut flags) = Template::<u32>::new();
    assert!(flags.tx.try_send(PluginMessage::UIInit).is_ok());
    let handled = template.on_message(HostEvent::Other);
    assert_eq!(handled.sent, None);
    assert_eq!(handled.drained, vec![PluginMessage::UIInit]);
    assert_eq!(handled.actions, vec![HostAction::Log(Note::UiInitialised)]);
    assert_eq!(flags.rx.try_recv(), Err(TryRecvError::Empty));
}

#[test]
fn the_ui_window_becomes_the_editor_once_the_proxy_is_there() {
    let (mut template, flags) = Template::<u32>::new();
    let own = PluginMessage::SetEditor(WindowHandle::from_raw(0x77));
    assert!(flags.tx.try_send(own).is_ok());
    let handled = template.on_message(HostEvent::Other);
    assert_eq!(handled.drained, vec![own]);
    assert_eq!(handled.actions, vec![]);
    template.proxy();
    assert!(flags.tx.try_send(own).is_ok());
    let handled = template.on_message(HostEvent::Other);
    assert_eq!(handled.actions, vec![HostAction::SetEditorHwnd(0x77)]);
}

#[test]
fn a_lost_request_is_noted_not_fatal() {
    let (mut template, flags) = Template::<u32>::new();
    drop(flags);
    let handled = template.on_message(HostEvent::ShowEditor(WindowHandle::from_raw(1)));
    assert_eq!(handled.sent, Some(Err(RelayError::ChannelClosed)));
    assert_eq!(handled.actions, vec![HostAction::Log(Note::ChannelClosed)]);
    let handled = template.on_message(HostEvent::Other);
    assert_eq!(handled.sent, None);
    assert_eq!(handled.actions, vec![]);
}

#[test]
fn the_instance_saves_ver0() {
    let (template, _flags) = Template::<u32>::new();
    assert_eq!(template.save_state(), vec![0u8, 0, 0, 0]);
}

#[test]
fn loading_what_was_saved_logs_nothing() {
    let (mut template, _flags) = Template::<u32>::new();
    let bytes = template.save_state();
    assert_eq!(template.load_state(Some(&bytes)), (SaveState::Ver0 {}, None));
}

#[test]
fn loading_a_bad_blob_falls_back_to_defaults() {
    let (mut template, _flags) = Template::<u32>::new();
    let note = Some(HostAction::Log(Note::StateUnreadable));
    assert_eq!(template.load_state(Some(&[1, 2, 3])), (SaveState::Ver0 {}, note));
    assert_eq!(template.load_state(Some(&[9, 0, 0, 0])), (SaveState::Ver0 {}, note));
    assert_eq!(template.load_state(Some(&[])), (SaveState::Ver0 {}, note));
    assert_eq!(template.load_state(None), (SaveState::Ver0 {}, note));
}

#[test]
fn render_copies_the_input() {
    let (mut template, _flags) = Template::<u32>::new();
    let input = [[0.5f32, -0.5], [1.0, 0.25], [0.0, -1.0]];
    let mut output = [[9.0f32, 9.0]; 3];
    template.render(&input, &mut output);
    assert_eq!(output, input);
}

#[test]
fn render_stops_at_the_shorter_buffer() {
    let (mut template, _flags) = Template::<u32>::new();
    let mut long = [7u8, 7, 7, 7];
    template.render(&[1u8, 2], &mut long);
    assert_eq!(long, [1, 2, 7, 7]);
    let mut short = [7u8, 7];
    template.render(&[1u8, 2, 3, 4], &mut short);
    assert_eq!(short, [1, 2]);
    let mut empty: [u8; 0] = [];
    template.render(&[1u8], &mut empty);
    template.render(&[], &mut short);
    assert_eq!(short, [1, 2]);
}

#[test]
fn the_plugin_names_nothing() {
    let (template, _flags) = Template::<u32>::new();
    assert_eq!(template.name_of(), "No names");
}

#[test]
fn shutdown_of_the_instance_is_idempotent() {
    let (mut template, mut flags) = Template::<u32>::new();
    assert_eq!(template.attach(5), None);
    assert_eq!(template.attach(6), Some(6));
    let stopping = template.shutdown().unwrap();
    assert_eq!(stopping.thread, 5);
    assert_eq!(stopping.sent, Ok(()));
    assert_eq!(flags.rx.try_recv(), Ok(UIMessage::Die));
    assert!(template.shutdown().is_none());
    assert_eq!(flags.rx.try_recv(), Err(TryRecvError::Empty));
}
