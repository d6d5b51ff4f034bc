//! Decisions of the two loops that run the visualizer: the event loop on the
//! main thread, which turns input into commands, and the render loop, which
//! carries the commands out, keeps projectM's size in step with the window
//! and paces the frames.
//!
//! Each function here takes one observation (an input event, a command, the
//! window's pixel size, the clock) and says what to do; the loops that poll,
//! render and sleep drive them.
use vstd::prelude::*;

use crate::menu_bar::MenuCommand;

verus! {

/// Commands sent from the event thread to the render thread.
#[derive(Clone, Copy, Debug, PartialEq, Eq, Structural)]
pub enum RenderCmd {
    /// Record from the audio device with this instance id.
    SwitchAudioDevice(u32),
    /// Record from the next audio input device.
    SwitchToNextDevice,
    NextPreset,
    PrevPreset,
    RandomPreset,
    /// Re-read the window's pixel size. The render loop compares the size on
    /// every frame, so this asks for nothing beyond that.
    SyncWindowSize,
    Quit,
}

/// The keys the event loop reacts to; every other key is `Other`.
#[derive(Clone, Copy, Debug, PartialEq, Eq, Structural)]
pub enum Key {
    Escape,
    N,
    Right,
    P,
    Left,
    R,
    F,
    Q,
    Other,
}

/// An input event, as far as the event loop tells events apart.
#[derive(Clone, Copy, Debug, PartialEq, Eq, Structural)]
pub enum InputEvent {
    /// The application is asked to quit.
    Quit,
    /// A key was pressed; `None` where the key has no key code.
    KeyDown(Option<Key>),
    /// A key was released; `None` where the key has no key code.
    KeyUp(Option<Key>),
    /// The window's size in pixels changed.
    PixelSizeChanged,
    /// Any other event.
    Other,
}

/// What the event loop does about an event.
#[derive(Clone, Copy, Debug, PartialEq, Eq, Structural)]
pub enum MainAction {
    /// Send this command to the render thread.
    Send(RenderCmd),
    /// Send `RenderCmd::Quit` to the render thread and leave the event loop.
    Quit,
    /// Switch the window into fullscreen, or out of it.
    ToggleFullscreen,
    /// Nothing.
    Ignore,
}

/// What the render loop does about a command.
#[derive(Clone, Copy, Debug, PartialEq, Eq, Structural)]
pub enum RenderAction {
    /// Leave the render loop at once, without rendering another frame.
    Stop,
    PlayNext,
    PlayPrev,
    PlayRandom,
    /// Open the audio device with this instance id, then report the name of
    /// the device recorded from.
    OpenDevice(u32),
    /// Open the next audio input device, then report the name of the device
    /// recorded from.
    OpenNextDevice,
    /// Nothing.
    Nothing,
}

/// The action for an input event.
pub open spec fn event_action_spec(event: InputEvent) -> MainAction {
    match event {
        InputEvent::Quit => MainAction::Quit,
        InputEvent::KeyDown(Some(Key::Escape)) => MainAction::Quit,
        InputEvent::KeyUp(Some(Key::N)) => MainAction::Send(RenderCmd::NextPreset),
        InputEvent::KeyUp(Some(Key::Right)) => MainAction::Send(RenderCmd::NextPreset),
        InputEvent::KeyUp(Some(Key::P)) => MainAction::Send(RenderCmd::PrevPreset),
        InputEvent::KeyUp(Some(Key::Left)) => MainAction::Send(RenderCmd::PrevPreset),
        InputEvent::KeyUp(Some(Key::R)) => MainAction::Send(RenderCmd::RandomPreset),
        InputEvent::KeyUp(Some(Key::F)) => MainAction::ToggleFullscreen,
        InputEvent::KeyUp(Some(Key::Q)) => MainAction::Quit,
        InputEvent::PixelSizeChanged => MainAction::Send(RenderCmd::SyncWindowSize),
        _ => MainAction::Ignore,
    }
}

/// Decides what the event loop does about `event`: quit on a quit request,
/// on Escape pressed or on Q released; N or Right, P or Left, and R
/// (released) ask for the next, previous and a random preset; F (released)
/// toggles fullscreen; a change of the window's pixel size asks the render
/// thread to resync; anything else is ignored.
pub fn event_action(event: InputEvent) -> (action: MainAction)
    ensures
        action == event_action_spec(event),
{
    match event {
        InputEvent::Quit => MainAction::Quit,
        InputEvent::KeyDown(Some(Key::Escape)) => MainAction::Quit,
        InputEvent::KeyUp(Some(Key::N)) | InputEvent::KeyUp(Some(Key::Right)) => MainAction::Send(
            RenderCmd::NextPreset,
        ),
        InputEvent::KeyUp(Some(Key::P)) | InputEvent::KeyUp(Some(Key::Left)) => MainAction::Send(
            RenderCmd::PrevPreset,
        ),
        InputEvent::KeyUp(Some(Key::R)) => MainAction::Send(RenderCmd::RandomPreset),
        InputEvent::KeyUp(Some(Key::F)) => MainAction::ToggleFullscreen,
        InputEvent::KeyUp(Some(Key::Q)) => MainAction::Quit,
        InputEvent::PixelSizeChanged => MainAction::Send(RenderCmd::SyncWindowSize),
        _ => MainAction::Ignore,
    }
}

/// The render command for a menu command.
pub open spec fn menu_render_cmd_spec(cmd: MenuCommand) -> RenderCmd {
    match cmd {
        MenuCommand::SwitchAudioDevice(id) => RenderCmd::SwitchAudioDevice(id),
        MenuCommand::NextInputDevice => RenderCmd::SwitchToNextDevice,
        MenuCommand::NextPreset => RenderCmd::NextPreset,
        MenuCommand::PrevPreset => RenderCmd::PrevPreset,
        MenuCommand::RandomPreset => RenderCmd::RandomPreset,
    }
}

/// The command the event loop forwards to the render thread for a command
/// chosen in the menu bar.
pub fn menu_render_cmd(cmd: MenuCommand) -> (r: RenderCmd)
    ensures
        r == menu_render_cmd_spec(cmd),
{
    match cmd {
        MenuCommand::SwitchAudioDevice(id) => RenderCmd::SwitchAudioDevice(id),
        MenuCommand::NextInputDevice => RenderCmd::SwitchToNextDevice,
        MenuCommand::NextPreset => RenderCmd::NextPreset,
        MenuCommand::PrevPreset => RenderCmd::PrevPreset,
        MenuCommand::RandomPreset => RenderCmd::RandomPreset,
    }
}

/// The render loop's action for a command.
pub open spec fn render_action_spec(cmd: RenderCmd) -> RenderAction {
    match cmd {
        RenderCmd::Quit => RenderAction::Stop,
        RenderCmd::NextPreset => RenderAction::PlayNext,
        RenderCmd::PrevPreset => RenderAction::PlayPrev,
        RenderCmd::RandomPreset => RenderAction::PlayRandom,
        RenderCmd::SwitchAudioDevice(id) => RenderAction::OpenDevice(id),
        RenderCmd::SwitchToNextDevice => RenderAction::OpenNextDevice,
        RenderCmd::SyncWindowSize => RenderAction::Nothing,
    }
}

/// Decides what the render loop does about a pending command.
pub fn render_action(cmd: RenderCmd) -> (action: RenderAction)
    ensures
        action == render_action_spec(cmd),
{
    match cmd {
        RenderCmd::Quit => RenderAction::Stop,
        RenderCmd::NextPreset => RenderAction::PlayNext,
        RenderCmd::PrevPreset => RenderAction::PlayPrev,
        RenderCmd::RandomPreset => RenderAction::PlayRandom,
        RenderCmd::SwitchAudioDevice(id) => RenderAction::OpenDevice(id),
        RenderCmd::SwitchToNextDevice => RenderAction::OpenNextDevice,
        RenderCmd::SyncWindowSize => RenderAction::Nothing,
    }
}

/// Bit of SDL's window flags that marks a fullscreen window (`SDL_WINDOW_FULLSCREEN`).
pub const FULLSCREEN_FLAG: u64 = 1;

/// Whether the window is to be fullscreen after a toggle, given its flags:
/// fullscreen exactly when it is not fullscreen now.
pub fn fullscreen_after_toggle(window_flags: u64) -> (fullscreen: bool)
    ensures
        fullscreen == (window_flags % 2 == 0),
{
    let is_fullscreen = window_flags & FULLSCREEN_FLAG != 0;
    assert((window_flags & 1 != 0) == (window_flags % 2 == 1)) by (bit_vector);
    !is_fullscreen
}

/// Milliseconds from `from` to `to` on SDL's tick counter, which wraps.
pub open spec fn ticks_between(from: u64, to: u64) -> int {
    if to >= from {
        to - from
    } else {
        to - from + 0x1_0000_0000_0000_0000
    }
}

/// Decides, once per pass of the event loop, when the frame-rate label is
/// refreshed: once at least a second of ticks has passed since the last
/// refresh.
pub struct FpsTimer {
    /// Tick of the last refresh.
    pub last_tick: u64,
}

impl FpsTimer {
    /// A timer whose last refresh was at `now`.
    pub fn new(now: u64) -> (timer: FpsTimer)
        ensures
            timer.last_tick == now,
    {
        FpsTimer { last_tick: now }
    }

    /// Whether to refresh the label at `now`; a refresh moves the last
    /// refresh to `now`.
    pub fn tick(&mut self, now: u64) -> (due: bool)
        ensures
            due == (ticks_between(old(self).last_tick, now) >= 1000),
            final(self).last_tick == if due {
                now
            } else {
                old(self).last_tick
            },
    {
        let elapsed: u64 = now.wrapping_sub(self.last_tick);
        if elapsed >= 1000 {
            self.last_tick = now;
            true
        } else {
            false
        }
    }
}

/// The pixel size handed to projectM when the window measures `width` by
/// `height` pixels, each read as an unsigned size.
pub open spec fn pixel_size(width: i32, height: i32) -> (usize, usize) {
    (width as usize, height as usize)
}

/// Whether projectM is told a new size: the window has an area and its size
/// differs from the one told last.
pub open spec fn resize_needed(last: (usize, usize), width: i32, height: i32) -> bool {
    let size = pixel_size(width, height);
    size.0 > 0 && size.1 > 0 && size != last
}

/// Keeps projectM's size in step with the window: the render loop measures
/// the window on every frame and resizes projectM only when the size changed.
pub struct PixelSizeTracker {
    /// The size projectM was last told; (0, 0) before the first.
    pub last: (usize, usize),
}

impl PixelSizeTracker {
    /// A tracker that has told projectM nothing yet.
    pub fn new() -> (tracker: PixelSizeTracker)
        ensures
            tracker.last == (0usize, 0usize),
    {
        PixelSizeTracker { last: (0, 0) }
    }

    /// Given the window's size in pixels, the size to hand to projectM, if
    /// it is to be resized.
    pub fn observe(&mut self, width: i32, height: i32) -> (resize: Option<(usize, usize)>)
        ensures
            resize_needed(old(self).last, width, height) ==> resize == Some(pixel_size(width, height))
                && final(self).last == pixel_size(width, height),
            !resize_needed(old(self).last, width, height) ==> resize is None && final(self).last
                == old(self).last,
    {
        let size: (usize, usize) = (width as usize, height as usize);
        if size.0 > 0 && size.1 > 0 && (size.0 != self.last.0 || size.1 != self.last.1) {
            self.last = size;
            Some(size)
        } else {
            None
        }
    }
}

/// The milliseconds a frame may take at `frame_rate` frames per second: the
/// quotient of 1000 by the rate read as a signed 32-bit number, rounded
/// toward zero (negative for rates above `i32::MAX`).
pub open spec fn frame_budget(frame_rate: u32) -> int {
    if frame_rate <= 0x7fff_ffff {
        1000int / (frame_rate as int)
    } else {
        -(1000int / (0x1_0000_0000int - frame_rate))
    }
}

/// The milliseconds to sleep after a frame that started at tick
/// `frame_start` and ended at tick `now`: what is left of the frame's
/// budget, if anything; nothing when the frame rate is 0 (unpaced).
pub fn frame_delay(frame_rate: u32, frame_start: u64, now: u64) -> (delay: Option<u32>)
    requires
        frame_rate > 0 ==> {
            &&& frame_start <= now
            &&& now - frame_start <= i32::MAX
            &&& frame_budget(frame_rate) - (now - frame_start) >= i32::MIN
        },
    ensures
        frame_rate == 0 ==> delay is None,
        frame_rate > 0 ==> {
            let left = frame_budget(frame_rate) - (now - frame_start);
            &&& left > 0 ==> delay == Some(left as u32)
            &&& left <= 0 ==> delay is None
        },
{
    if frame_rate == 0 {
        return None;
    }
    let frame_time: u64 = now - frame_start;
    let budget: i64 = if frame_rate <= 0x7fff_ffff {
        (1000 / frame_rate) as i64
    } else {
        let magnitude: u32 = u32::MAX - frame_rate + 1;
        -((1000 / magnitude) as i64)
    };
    let left: i64 = budget - frame_time as i64;
    if left > 0 {
        Some(left as u32)
    } else {
        None
    }
}

/// A command chosen in the menu bar reaches the render loop as the action it
/// names: a device switch opens that very device.
pub proof fn lemma_menu_command_reaches_render(cmd: MenuCommand)
    ensures
        render_action_spec(menu_render_cmd_spec(cmd)) == match cmd {
            MenuCommand::SwitchAudioDevice(id) => RenderAction::OpenDevice(id),
            MenuCommand::NextInputDevice => RenderAction::OpenNextDevice,
            MenuCommand::NextPreset => RenderAction::PlayNext,
            MenuCommand::PrevPreset => RenderAction::PlayPrev,
            MenuCommand::RandomPreset => RenderAction::PlayRandom,
        },
{
}

/// Every way of quitting (a quit request, Escape pressed, Q released) makes
/// the event loop quit, and the `Quit` command it sends stops the render
/// loop.
pub proof fn lemma_quit_stops_both_loops()
    ensures
        event_action_spec(InputEvent::Quit) == MainAction::Quit,
        event_action_spec(InputEvent::KeyDown(Some(Key::Escape))) == MainAction::Quit,
        event_action_spec(InputEvent::KeyUp(Some(Key::Q))) == MainAction::Quit,
        render_action_spec(RenderCmd::Quit) == RenderAction::Stop,
{
}

/// A preset key released and forwarded reaches the render loop as the
/// matching preset change.
pub proof fn lemma_preset_keys_reach_render(key: Key)
    ensures
        (key == Key::N || key == Key::Right) ==> event_action_spec(InputEvent::KeyUp(Some(key)))
            == MainAction::Send(RenderCmd::NextPreset) && render_action_spec(RenderCmd::NextPreset)
            == RenderAction::PlayNext,
        (key == Key::P || key == Key::Left) ==> event_action_spec(InputEvent::KeyUp(Some(key)))
            == MainAction::Send(RenderCmd::PrevPreset) && render_action_spec(RenderCmd::PrevPreset)
            == RenderAction::PlayPrev,
        key == Key::R ==> event_action_spec(InputEvent::KeyUp(Some(key))) == MainAction::Send(
            RenderCmd::RandomPreset,
        ) && render_action_spec(RenderCmd::RandomPreset) == RenderAction::PlayRandom,
{
}

/// The commands the event loop sends for `events`, handled in order: it
/// leaves after the first event that quits, whose `Quit` command is the last
/// one sent.
pub open spec fn event_loop_commands(events: Seq<InputEvent>) -> Seq<RenderCmd>
    decreases events.len(),
{
    if events.len() == 0 {
        seq![]
    } else {
        match event_action_spec(events[0]) {
            MainAction::Quit => seq![RenderCmd::Quit],
            MainAction::Send(cmd) => seq![cmd] + event_loop_commands(events.drop_first()),
            _ => event_loop_commands(events.drop_first()),
        }
    }
}

/// The actions the render loop takes for the commands it receives, in
/// order: it stops at the first command that stops it, and a command that
/// asks for nothing leaves no action.
pub open spec fn render_loop_actions(cmds: Seq<RenderCmd>) -> Seq<RenderAction>
    decreases cmds.len(),
{
    if cmds.len() == 0 {
        seq![]
    } else {
        match render_action_spec(cmds[0]) {
            RenderAction::Stop => seq![],
            RenderAction::Nothing => render_loop_actions(cmds.drop_first()),
            action => seq![action] + render_loop_actions(cmds.drop_first()),
        }
    }
}

/// Whether the event quits: a quit request, Escape pressed or Q released.
pub open spec fn is_quit_event(event: InputEvent) -> bool {
    event == InputEvent::Quit || event == InputEvent::KeyDown(Some(Key::Escape)) || event
        == InputEvent::KeyUp(Some(Key::Q))
}

/// The preset changes that `events` ask for before the first event that
/// quits: the next preset for N or Right released, the previous one for P
/// or Left released, a random one for R released.
pub open spec fn preset_changes(events: Seq<InputEvent>) -> Seq<RenderAction>
    decreases events.len(),
{
    if events.len() == 0 || is_quit_event(events[0]) {
        seq![]
    } else {
        let rest = preset_changes(events.drop_first());
        match events[0] {
            InputEvent::KeyUp(Some(Key::N)) => seq![RenderAction::PlayNext] + rest,
            InputEvent::KeyUp(Some(Key::Right)) => seq![RenderAction::PlayNext] + rest,
            InputEvent::KeyUp(Some(Key::P)) => seq![RenderAction::PlayPrev] + rest,
            InputEvent::KeyUp(Some(Key::Left)) => seq![RenderAction::PlayPrev] + rest,
            InputEvent::KeyUp(Some(Key::R)) => seq![RenderAction::PlayRandom] + rest,
            _ => rest,
        }
    }
}

/// Once an event that quits is handled, the event loop has sent `Quit` as
/// its last command, and no `Quit` before it: the render thread receives
/// every earlier command before it is told to stop.
pub proof fn lemma_quit_is_sent_last(events: Seq<InputEvent>)
    requires
        exists|q: int| 0 <= q < events.len() && is_quit_event(#[trigger] events[q]),
    ensures
        event_loop_commands(events).len() > 0,
        event_loop_commands(events).last() == RenderCmd::Quit,
        forall|i: int|
            0 <= i < event_loop_commands(events).len() - 1 ==> #[trigger] event_loop_commands(
                events,
            )[i] != RenderCmd::Quit,
    decreases events.len(),
{
    let rest = events.drop_first();
    let q = choose|q: int| 0 <= q < events.len() && is_quit_event(#[trigger] events[q]);
    if is_quit_event(events[0]) {
        assert(event_action_spec(events[0]) == MainAction::Quit);
    } else {
        assert(event_action_spec(events[0]) != MainAction::Quit);
        assert(q > 0);
        assert(is_quit_event(rest[q - 1]));
        lemma_quit_is_sent_last(rest);
        let rest_cmds = event_loop_commands(rest);
        match event_action_spec(events[0]) {
            MainAction::Send(cmd) => {
                assert(cmd != RenderCmd::Quit);
                let cmds = seq![cmd] + rest_cmds;
                assert(cmds.last() == rest_cmds.last());
                assert forall|i: int| 0 <= i < cmds.len() - 1 implies #[trigger] cmds[i]
                    != RenderCmd::Quit by {
                    if i > 0 {
                        assert(cmds[i] == rest_cmds[i - 1]);
                    }
                }
            },
            _ => {},
        }
    }
}

/// Over a sequence of input events, with no command from the menu bar, the
/// render loop changes presets exactly as the events before the first quit
/// ask, in their order, and nothing after it.
pub proof fn lemma_events_drive_playlist(events: Seq<InputEvent>)
    ensures
        render_loop_actions(event_loop_commands(events)) == preset_changes(events),
    decreases events.len(),
{
    if events.len() > 0 {
        let rest = events.drop_first();
        lemma_events_drive_playlist(rest);
        let rest_cmds = event_loop_commands(rest);
        match event_action_spec(events[0]) {
            MainAction::Quit => {
                assert(render_loop_actions(seq![RenderCmd::Quit]) == Seq::<RenderAction>::empty());
            },
            MainAction::Send(cmd) => {
                let cmds = seq![cmd] + rest_cmds;
                assert(cmds[0] == cmd);
                assert(cmds.drop_first() =~= rest_cmds);
            },
            _ => {},
        }
    }
}

/// What each kind of input event does, stated event by event:
/// - pressing a key does nothing, except Escape, which quits;
/// - the fullscreen toggle comes from releasing F and from nothing else;
/// - quitting comes from exactly a quit request, Escape pressed and Q
///   released;
/// - a resync request comes from exactly a change of the window's pixel size;
/// - releasing N or Right asks for the next preset, P or Left the previous
///   one, R a random one, and no other event asks for a preset change.
pub proof fn lemma_event_actions(event: InputEvent, key: Key)
    ensures
        key != Key::Escape ==> event_action_spec(InputEvent::KeyDown(Some(key)))
            == MainAction::Ignore,
        event_action_spec(InputEvent::KeyDown(None)) == MainAction::Ignore,
        event_action_spec(InputEvent::KeyUp(None)) == MainAction::Ignore,
        event_action_spec(InputEvent::Other) == MainAction::Ignore,
        (event_action_spec(event) == MainAction::ToggleFullscreen) <==> (event
            == InputEvent::KeyUp(Some(Key::F))),
        (event_action_spec(event) == MainAction::Quit) <==> (event == InputEvent::Quit || event
            == InputEvent::KeyDown(Some(Key::Escape)) || event == InputEvent::KeyUp(
            Some(Key::Q),
        )),
        (event_action_spec(event) == MainAction::Send(RenderCmd::SyncWindowSize)) <==> (event
            == InputEvent::PixelSizeChanged),
        (event_action_spec(event) == MainAction::Send(RenderCmd::NextPreset)) <==> (event
            == InputEvent::KeyUp(Some(Key::N)) || event == InputEvent::KeyUp(Some(Key::Right))),
        (event_action_spec(event) == MainAction::Send(RenderCmd::PrevPreset)) <==> (event
            == InputEvent::KeyUp(Some(Key::P)) || event == InputEvent::KeyUp(Some(Key::Left))),
        (event_action_spec(event) == MainAction::Send(RenderCmd::RandomPreset)) <==> (event
            == InputEvent::KeyUp(Some(Key::R))),
        !(event_action_spec(event) matches MainAction::Send(RenderCmd::SwitchAudioDevice(_))),
        event_action_spec(event) != MainAction::Send(RenderCmd::SwitchToNextDevice),
        event_action_spec(event) != MainAction::Send(RenderCmd::Quit),
{
}

/// projectM is resized exactly when the window has an area (neither side
/// measures 0) and its size differs from the last one in either side; a
/// window of positive size is handed over as measured.
pub proof fn lemma_resize_exactly_on_change(last: (usize, usize), width: i32, height: i32)
    ensures
        resize_needed(last, width, height) <==> ((width as usize) > 0 && (height as usize) > 0
            && ((width as usize) != last.0 || (height as usize) != last.1)),
        0 < width && 0 < height ==> (resize_needed(last, width, height) <==> (width != last.0
            || height != last.1)),
        0 < width && 0 < height ==> pixel_size(width, height).0 == width && pixel_size(
            width,
            height,
        ).1 == height,
        width == 0 || height == 0 ==> !resize_needed(last, width, height),
{
}

/// Once projectM has been resized to the window's size, measuring the same
/// size again resizes nothing.
pub proof fn lemma_resize_once(last: (usize, usize), width: i32, height: i32)
    requires
        resize_needed(last, width, height),
    ensures
        !resize_needed(pixel_size(width, height), width, height),
{
}

} // verus!
