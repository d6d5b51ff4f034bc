use projectm_sdl::audio::next_device_index;
use projectm_sdl::main_loop::{
    event_action, frame_delay, fullscreen_after_toggle, menu_render_cmd, render_action, FpsTimer,
    InputEvent, Key, MainAction, PixelSizeTracker, RenderAction, RenderCmd,
};
use projectm_sdl::menu_bar::MenuCommand;

#[test]
fn quit_events_quit() {
    assert_eq!(event_action(InputEvent::Quit), MainAction::Quit);
    assert_eq!(event_action(InputEvent::KeyDown(Some(Key::Escape))), MainAction::Quit);
    assert_eq!(event_action(InputEvent::KeyUp(Some(Key::Q))), MainAction::Quit);
    assert_eq!(event_action(InputEvent::KeyUp(Some(Key::Escape))), MainAction::Ignore);
    assert_eq!(event_action(InputEvent::KeyDown(Some(Key::Q))), MainAction::Ignore);
}

#[test]
fn preset_keys_send_preset_commands_on_release() {
    for key in [Key::N, Key::Right] {
        assert_eq!(event_action(InputEvent::KeyUp(Some(key))), MainAction::Send(RenderCmd::NextPreset));
        assert_eq!(event_action(InputEvent::KeyDown(Some(key))), MainAction::Ignore);
    }
    for key in [Key::P, Key::Left] {
        assert_eq!(event_action(InputEvent::KeyUp(Some(key))), MainAction::Send(RenderCmd::PrevPreset));
    }
    assert_eq!(event_action(InputEvent::KeyUp(Some(Key::R))), MainAction::Send(RenderCmd::RandomPreset));
}

#[test]
fn other_events() {
    assert_eq!(event_action(InputEvent::KeyUp(Some(Key::F))), MainAction::ToggleFullscreen);
    assert_eq!(event_action(InputEvent::PixelSizeChanged), MainAction::Send(RenderCmd::SyncWindowSize));
    assert_eq!(event_action(InputEvent::KeyUp(None)), MainAction::Ignore);
    assert_eq!(event_action(InputEvent::KeyUp(Some(Key::Other))), MainAction::Ignore);
    assert_eq!(event_action(InputEvent::Other), MainAction::Ignore);
}

#[test]
fn render_actions_for_commands() {
    assert_eq!(render_action(RenderCmd::Quit), RenderAction::Stop);
    assert_eq!(render_action(RenderCmd::NextPreset), RenderAction::PlayNext);
    assert_eq!(render_action(RenderCmd::PrevPreset), RenderAction::PlayPrev);
    assert_eq!(render_action(RenderCmd::RandomPreset), RenderAction::PlayRandom);
    assert_eq!(render_action(RenderCmd::SwitchAudioDevice(5)), RenderAction::OpenDevice(5));
    assert_eq!(render_action(RenderCmd::SwitchToNextDevice), RenderAction::OpenNextDevice);
    assert_eq!(render_action(RenderCmd::SyncWindowSize), RenderAction::Nothing);
}

#[test]
fn menu_commands_forwarded() {
    assert_eq!(menu_render_cmd(MenuCommand::SwitchAudioDevice(3)), RenderCmd::SwitchAudioDevice(3));
    assert_eq!(menu_render_cmd(MenuCommand::NextInputDevice), RenderCmd::SwitchToNextDevice);
    assert_eq!(menu_render_cmd(MenuCommand::NextPreset), RenderCmd::NextPreset);
    assert_eq!(menu_render_cmd(MenuCommand::PrevPreset), RenderCmd::PrevPreset);
    assert_eq!(menu_render_cmd(MenuCommand::RandomPreset), RenderCmd::RandomPreset);
    assert_eq!(
        render_action(menu_render_cmd(MenuCommand::SwitchAudioDevice(8))),
        RenderAction::OpenDevice(8)
    );
}

#[test]
fn fullscreen_toggles() {
    assert!(fullscreen_after_toggle(0));
    assert!(!fullscreen_after_toggle(1));
    assert!(!fullscreen_after_toggle(0x23));
    assert!(fullscreen_after_toggle(0x22));
}

#[test]
fn fps_timer_refreshes_once_a_second() {
    let mut t = FpsTimer::new(1000);
    assert!(!t.tick(1500));
    assert!(!t.tick(1999));
    assert!(t.tick(2000));
    assert_eq!(t.last_tick, 2000);
    assert!(!t.tick(2000));
    assert!(!t.tick(2999));
    assert!(t.tick(3500));
}

#[test]
fn fps_timer_survives_wrapping_ticks() {
    let mut t = FpsTimer::new(u64::MAX - 100);
    assert!(!t.tick(500));
    assert!(t.tick(900));
}

#[test]
fn pixel_size_tracker_resizes_on_change_only() {
    let mut tracker = PixelSizeTracker::new();
    assert_eq!(tracker.observe(0, 0), None);
    assert_eq!(tracker.observe(800, 0), None);
    assert_eq!(tracker.observe(800, 600), Some((800, 600)));
    assert_eq!(tracker.observe(800, 600), None);
    assert_eq!(tracker.observe(1600, 1200), Some((1600, 1200)));
    assert_eq!(tracker.last, (1600, 1200));
    assert_eq!(tracker.observe(-1, 5), Some((usize::MAX, 5)));
}

#[test]
fn frame_delay_pads_to_the_frame_budget() {
    assert_eq!(frame_delay(60, 100, 105), Some(11));
    assert_eq!(frame_delay(60, 100, 116), None);
    assert_eq!(frame_delay(60, 100, 200), None);
    assert_eq!(frame_delay(1, 0, 0), Some(1000));
    assert_eq!(frame_delay(1000, 0, 0), Some(1));
    assert_eq!(frame_delay(2000, 0, 0), None);
    assert_eq!(frame_delay(0, 500, 10), None);
    assert_eq!(frame_delay(u32::MAX, 0, 0), None);
}

#[test]
fn next_input_device_wraps_round() {
    assert_eq!(next_device_index(None, 0), None);
    assert_eq!(next_device_index(Some(0), 0), None);
    assert_eq!(next_device_index(None, 3), Some(0));
    assert_eq!(next_device_index(Some(0), 3), Some(1));
    assert_eq!(next_device_index(Some(1), 3), Some(2));
    assert_eq!(next_device_index(Some(2), 3), Some(0));
    assert_eq!(next_device_index(Some(7), 3), Some(0));
}

#[test]
fn events_before_quit_change_presets_in_order() {
    let events = vec![
        InputEvent::KeyUp(Some(Key::N)),
        InputEvent::PixelSizeChanged,
        InputEvent::KeyUp(Some(Key::Left)),
        InputEvent::KeyDown(Some(Key::R)),
        InputEvent::KeyUp(Some(Key::R)),
        InputEvent::KeyDown(Some(Key::Escape)),
        InputEvent::KeyUp(Some(Key::N)),
    ];
    let mut sent = Vec::new();
    for event in events {
        match event_action(event) {
            MainAction::Quit => {
                sent.push(RenderCmd::Quit);
                break;
            }
            MainAction::Send(cmd) => sent.push(cmd),
            _ => {}
        }
    }
    let mut actions = Vec::new();
    for cmd in sent {
        match render_action(cmd) {
            RenderAction::Stop => break,
            RenderAction::Nothing => {}
            action => actions.push(action),
        }
    }
    assert_eq!(
        actions,
        vec![RenderAction::PlayNext, RenderAction::PlayPrev, RenderAction::PlayRandom]
    );
}
