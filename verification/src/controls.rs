//! The renderer's decisions, apart from the GPU and window work they
//! trigger: which window input means what, how the surface size and the
//! scene settings change, and what to do with each attempt to acquire a
//! frame. The caller performs the returned effects.

use vstd::prelude::*;
use crate::light::{next_preset, next_preset_spec, PRESET_COUNT};
use crate::gpu::SurfaceSize;

verus! {

/// The keys the renderer reacts to.
#[derive(Clone, Copy, Debug, PartialEq, Eq, Structural)]
pub enum Key {
    Escape,
    KeyO,
    KeyL,
    Other,
}

/// A window input, reduced to what the renderer looks at. Key presses
/// are physical key-down events; key releases and text input are `Other`.
#[derive(Clone, Copy, Debug, PartialEq, Eq, Structural)]
pub enum WindowInput {
    CloseRequested,
    Resized { width: u32, height: u32 },
    RedrawRequested,
    KeyPressed(Key),
    Other,
}

/// What an input asks of the renderer.
#[derive(Clone, Copy, Debug, PartialEq, Eq, Structural)]
pub enum Command {
    Exit,
    Resize { width: u32, height: u32 },
    Redraw,
    ToggleOrtho,
    CycleLight,
    Ignore,
}

/// The meaning of each window input.
pub open spec fn command_spec(input: WindowInput) -> Command {
    match input {
        WindowInput::CloseRequested => Command::Exit,
        WindowInput::Resized { width, height } => Command::Resize { width, height },
        WindowInput::RedrawRequested => Command::Redraw,
        WindowInput::KeyPressed(Key::Escape) => Command::Exit,
        WindowInput::KeyPressed(Key::KeyO) => Command::ToggleOrtho,
        WindowInput::KeyPressed(Key::KeyL) => Command::CycleLight,
        WindowInput::KeyPressed(Key::Other) => Command::Ignore,
        WindowInput::Other => Command::Ignore,
    }
}

/// Maps a window input to a command: closing the window or pressing
/// Escape exits, O toggles the projection, L cycles the spotlight, a
/// resize resizes and a redraw request renders; everything else is ignored.
pub fn command_for(input: WindowInput) -> (cmd: Command)
    ensures
        cmd == command_spec(input),
        input matches WindowInput::Resized { width, height } ==> cmd == (Command::Resize { width, height }),
{
    match input {
        WindowInput::CloseRequested => Command::Exit,
        WindowInput::Resized { width, height } => Command::Resize { width, height },
        WindowInput::RedrawRequested => Command::Redraw,
        WindowInput::KeyPressed(key) => match key {
            Key::Escape => Command::Exit,
            Key::KeyO => Command::ToggleOrtho,
            Key::KeyL => Command::CycleLight,
            Key::Other => Command::Ignore,
        },
        WindowInput::Other => Command::Ignore,
    }
}

/// The scene settings that the keyboard changes.
#[derive(Clone, Copy, Debug, PartialEq, Eq, Structural)]
pub struct Scene {
    pub light_idx: usize,
    pub ortho: bool,
}

impl Scene {
    /// The selected spotlight preset exists.
    pub open spec fn wf(self) -> bool {
        self.light_idx < PRESET_COUNT
    }

    /// The scene after one press of the light key.
    pub open spec fn cycled(self) -> Scene {
        Scene { light_idx: next_preset_spec(self.light_idx as int) as usize, ortho: self.ortho }
    }

    /// The scene after one press of the projection key.
    pub open spec fn toggled(self) -> Scene {
        Scene { light_idx: self.light_idx, ortho: !self.ortho }
    }

    /// The start-up scene: spotlight preset 0 and perspective projection.
    pub fn new() -> (s: Scene)
        ensures
            s.light_idx == 0,
            !s.ortho,
            s.wf(),
    {
        Scene { light_idx: 0, ortho: false }
    }

    /// Advances to the next spotlight preset and returns it.
    pub fn cycle_light(&mut self) -> (idx: usize)
        requires
            old(self).wf(),
        ensures
            *final(self) == old(self).cycled(),
            final(self).wf(),
            idx == final(self).light_idx,
            idx == (old(self).light_idx + 1) % 3,
            final(self).ortho == old(self).ortho,
    {
        self.light_idx = next_preset(self.light_idx);
        self.light_idx
    }

    /// Switches between perspective and orthographic projection.
    pub fn toggle_ortho(&mut self)
        ensures
            *final(self) == old(self).toggled(),
            final(self).ortho == !old(self).ortho,
            final(self).light_idx == old(self).light_idx,
    {
        self.ortho = !self.ortho;
    }
}

/// What the caller must do after a command.
#[derive(Clone, Copy, Debug, PartialEq, Eq, Structural)]
pub enum Effect {
    /// Leave the event loop.
    Exit,
    /// Reconfigure the surface and rebuild the depth buffer at this size.
    Reconfigure { width: u32, height: u32 },
    /// Ask for the next redraw and, when `draw` holds, render a frame with
    /// the given projection.
    Render { draw: bool, ortho: bool },
    /// Upload the uniform of this spotlight preset.
    UploadLight(usize),
    /// Nothing outside the state changes.
    Nothing,
}

/// The renderer's plain state: scene settings and surface size.
#[derive(Clone, Copy, Debug, PartialEq, Eq, Structural)]
pub struct ViewState {
    pub scene: Scene,
    pub surface: SurfaceSize,
}

impl ViewState {
    pub open spec fn wf(self) -> bool {
        self.scene.wf() && self.surface.wf()
    }

    /// The state and effect that follow `cmd` in state `self`.
    pub open spec fn step(self, cmd: Command) -> (ViewState, Effect) {
        match cmd {
            Command::Exit => (self, Effect::Exit),
            Command::Resize { width, height } => {
                let next = ViewState { scene: self.scene, surface: self.surface.resized(width, height) };
                if width > 0 && height > 0 {
                    (next, Effect::Reconfigure { width, height })
                } else {
                    (next, Effect::Nothing)
                }
            },
            Command::Redraw => (self, Effect::Render { draw: self.surface.is_configured, ortho: self.scene.ortho }),
            Command::ToggleOrtho => (ViewState { scene: self.scene.toggled(), surface: self.surface }, Effect::Nothing),
            Command::CycleLight => {
                let scene = self.scene.cycled();
                (ViewState { scene, surface: self.surface }, Effect::UploadLight(scene.light_idx))
            },
            Command::Ignore => (self, Effect::Nothing),
        }
    }

    /// The state right after start-up, for a window of the given inner size.
    pub fn new(width: u32, height: u32) -> (s: ViewState)
        ensures
            s.scene.light_idx == 0,
            !s.scene.ortho,
            s.surface.width == (if width >= 1 { width } else { 1 }),
            s.surface.height == (if height >= 1 { height } else { 1 }),
            s.surface.is_configured,
            s.wf(),
    {
        ViewState { scene: Scene::new(), surface: SurfaceSize::new(width, height) }
    }

    /// Carries out `cmd` on the state and returns what the caller must do.
    pub fn apply(&mut self, cmd: Command) -> (effect: Effect)
        requires
            old(self).wf(),
        ensures
            (*final(self), effect) == old(self).step(cmd),
            final(self).wf(),
            cmd == Command::ToggleOrtho ==> effect == Effect::Nothing,
            cmd == Command::CycleLight ==> effect == Effect::UploadLight(((old(self).scene.light_idx + 1) % 3) as usize),
    {
        match cmd {
            Command::Exit => Effect::Exit,
            Command::Resize { width, height } => {
                if self.surface.resize(width, height) {
                    Effect::Reconfigure { width, height }
                } else {
                    Effect::Nothing
                }
            },
            Command::Redraw => Effect::Render { draw: self.surface.is_configured, ortho: self.scene.ortho },
            Command::ToggleOrtho => {
                self.scene.toggle_ortho();
                Effect::Nothing
            },
            Command::CycleLight => {
                let idx = self.scene.cycle_light();
                Effect::UploadLight(idx)
            },
            Command::Ignore => Effect::Nothing,
        }
    }
}

/// How an attempt to acquire the next surface texture turned out.
#[derive(Clone, Copy, Debug, PartialEq, Eq, Structural)]
pub enum SurfaceAcquire {
    Success,
    Suboptimal,
    Outdated,
    Lost,
    Timeout,
    Occluded,
    Validation,
}

/// What to do with the frame.
#[derive(Clone, Copy, Debug, PartialEq, Eq, Structural)]
pub enum FrameStep {
    /// Draw into the acquired texture and present it.
    Draw,
    /// Reconfigure the surface and skip this frame.
    Reconfigure,
    /// Skip this frame; the condition is transient.
    Skip,
    /// Give up on this frame and report an error.
    Fail,
}

/// The frame step for each acquisition outcome.
pub open spec fn frame_step_spec(acquired: SurfaceAcquire) -> FrameStep {
    match acquired {
        SurfaceAcquire::Success | SurfaceAcquire::Suboptimal => FrameStep::Draw,
        SurfaceAcquire::Outdated | SurfaceAcquire::Lost => FrameStep::Reconfigure,
        SurfaceAcquire::Timeout | SurfaceAcquire::Occluded => FrameStep::Skip,
        SurfaceAcquire::Validation => FrameStep::Fail,
    }
}

/// Decides what to do with the frame once the surface texture has been
/// requested: draw with a usable (even suboptimal) texture, reconfigure an
/// outdated or lost surface, skip a timed-out or occluded frame, and fail
/// on a validation error.
pub fn frame_step(acquired: SurfaceAcquire) -> (step: FrameStep)
    ensures
        step == frame_step_spec(acquired),
{
    match acquired {
        SurfaceAcquire::Success => FrameStep::Draw,
        SurfaceAcquire::Suboptimal => FrameStep::Draw,
        SurfaceAcquire::Outdated => FrameStep::Reconfigure,
        SurfaceAcquire::Lost => FrameStep::Reconfigure,
        SurfaceAcquire::Timeout => FrameStep::Skip,
        SurfaceAcquire::Occluded => FrameStep::Skip,
        SurfaceAcquire::Validation => FrameStep::Fail,
    }
}

/// What the event loop does after a frame: exit when the frame reported
/// an error, nothing otherwise.
pub open spec fn frame_followup_spec(res: Result<(), ()>) -> Effect {
    if res is Err { Effect::Exit } else { Effect::Nothing }
}

/// What the event loop does after a frame was rendered: a frame that
/// reported an error ends the event loop; any other frame changes nothing.
pub fn frame_followup(res: Result<(), ()>) -> (effect: Effect)
    ensures
        effect == frame_followup_spec(res),
{
    match res {
        Err(()) => Effect::Exit,
        Ok(()) => Effect::Nothing,
    }
}

/// The result that rendering a frame reports: an error only when the
/// frame failed.
pub open spec fn frame_result_spec(step: FrameStep) -> Result<(), ()> {
    if step == FrameStep::Fail { Err(()) } else { Ok(()) }
}

/// The result that rendering a frame reports: an error only when the
/// frame failed.
pub fn frame_result(step: FrameStep) -> (res: Result<(), ()>)
    ensures
        res == frame_result_spec(step),
{
    match step {
        FrameStep::Fail => Err(()),
        _ => Ok(()),
    }
}

/// Every command keeps the state valid: the selected spotlight preset
/// exists and the surface never has a zero dimension.
pub proof fn lemma_step_preserves_wf(s: ViewState, cmd: Command)
    requires
        s.wf(),
    ensures
        s.step(cmd).0.wf(),
{
}

/// Pressing the projection key twice restores the state, and the key
/// changes only the projection.
pub proof fn lemma_toggle_ortho_twice(s: ViewState)
    ensures
        s.step(Command::ToggleOrtho).0.scene.ortho == !s.scene.ortho,
        s.step(Command::ToggleOrtho).0.scene.light_idx == s.scene.light_idx,
        s.step(Command::ToggleOrtho).0.surface == s.surface,
        s.step(Command::ToggleOrtho).0.step(Command::ToggleOrtho).0 == s,
{
}

/// Pressing the light key `PRESET_COUNT` times restores the state; each
/// press changes only the light and asks for the new preset's upload.
pub proof fn lemma_cycle_light_full_turn(s: ViewState)
    requires
        s.wf(),
    ensures
        s.step(Command::CycleLight).1 == Effect::UploadLight(s.step(Command::CycleLight).0.scene.light_idx),
        s.step(Command::CycleLight).0.scene.ortho == s.scene.ortho,
        s.step(Command::CycleLight).0.surface == s.surface,
        s.step(Command::CycleLight).0.step(Command::CycleLight).0.step(Command::CycleLight).0 == s,
{
}

/// A resize with a zero dimension (a minimised window) changes nothing and
/// asks for nothing; a resize is idempotent; a resize never touches the
/// scene settings.
pub proof fn lemma_resize_laws(s: ViewState, width: u32, height: u32)
    ensures
        (width == 0 || height == 0) ==> s.step(Command::Resize { width, height }) == (s, Effect::Nothing),
        s.step(Command::Resize { width, height }).0.step(Command::Resize { width, height }).0
            == s.step(Command::Resize { width, height }).0,
        s.step(Command::Resize { width, height }).0.scene == s.scene,
        (width > 0 && height > 0) ==> {
            &&& s.step(Command::Resize { width, height }).0.surface == (SurfaceSize { width, height, is_configured: true })
            &&& s.step(Command::Resize { width, height }).1 == Effect::Reconfigure { width, height }
        },
{
}

/// Exiting, redrawing and ignored inputs leave the state unchanged; a
/// redraw renders with the current projection and draws exactly when the
/// surface is configured.
pub proof fn lemma_state_unchanged_by_passive_commands(s: ViewState)
    ensures
        s.step(Command::Exit) == (s, Effect::Exit),
        s.step(Command::Ignore) == (s, Effect::Nothing),
        s.step(Command::Redraw) == (s, Effect::Render { draw: s.surface.is_configured, ortho: s.scene.ortho }),
{
}

/// Closing the window and pressing Escape are the inputs that exit.
pub proof fn lemma_exit_inputs(input: WindowInput)
    ensures
        command_spec(input) == Command::Exit
            <==> (input == WindowInput::CloseRequested || input == WindowInput::KeyPressed(Key::Escape)),
{
}

/// Rendering reports an error exactly when acquiring the surface texture
/// failed validation, and that error ends the event loop; every other
/// outcome draws, reconfigures or skips the frame and keeps the loop running.
pub proof fn lemma_validation_failure_exits(acquired: SurfaceAcquire)
    ensures
        frame_result_spec(frame_step_spec(acquired)) is Err <==> acquired == SurfaceAcquire::Validation,
        frame_followup_spec(frame_result_spec(frame_step_spec(acquired))) == Effect::Exit
            <==> acquired == SurfaceAcquire::Validation,
        acquired != SurfaceAcquire::Validation
            ==> frame_followup_spec(frame_result_spec(frame_step_spec(acquired))) == Effect::Nothing,
        (frame_step_spec(acquired) == FrameStep::Draw)
            <==> (acquired == SurfaceAcquire::Success || acquired == SurfaceAcquire::Suboptimal),
{
}

/// What each window input asks for, stated input by input: closing and
/// Escape exit, a resize carries the window's own width and height
/// unchanged, a redraw request redraws, O toggles the projection, L cycles
/// the light, and every other key or event is ignored.
pub proof fn lemma_input_meanings(width: u32, height: u32)
    ensures
        command_spec(WindowInput::CloseRequested) == Command::Exit,
        command_spec(WindowInput::Resized { width, height }) == (Command::Resize { width, height }),
        command_spec(WindowInput::RedrawRequested) == Command::Redraw,
        command_spec(WindowInput::KeyPressed(Key::Escape)) == Command::Exit,
        command_spec(WindowInput::KeyPressed(Key::KeyO)) == Command::ToggleOrtho,
        command_spec(WindowInput::KeyPressed(Key::KeyL)) == Command::CycleLight,
        command_spec(WindowInput::KeyPressed(Key::Other)) == Command::Ignore,
        command_spec(WindowInput::Other) == Command::Ignore,
{
}

/// The light key moves to the next preset in order (0 to 1, 1 to 2, 2 back
/// to 0) whatever the projection is, and keeps the projection; the
/// projection key flips the projection and keeps the light.
pub proof fn lemma_scene_keys(sc: Scene)
    requires
        sc.wf(),
    ensures
        sc.cycled().light_idx == (sc.light_idx + 1) % 3,
        sc.cycled().ortho == sc.ortho,
        sc.light_idx == 0 ==> sc.cycled().light_idx == 1,
        sc.light_idx == 1 ==> sc.cycled().light_idx == 2,
        sc.light_idx == 2 ==> sc.cycled().light_idx == 0,
        sc.toggled().ortho == !sc.ortho,
        sc.toggled().light_idx == sc.light_idx,
{
}

/// Each command's new state and effect, written out from the old state:
/// O flips only the projection and asks for nothing else (in particular it
/// never exits); L moves only the light to `(light + 1) % 3` and asks for
/// that preset's upload; a resize with both dimensions positive takes
/// exactly that size and asks for a reconfiguration at it, and any other
/// resize changes and asks for nothing; a redraw renders with the current
/// projection, drawing when the surface is configured; exit exits; ignored
/// inputs do nothing.
pub proof fn lemma_command_effects(s: ViewState, width: u32, height: u32)
    requires
        s.wf(),
    ensures
        s.step(Command::ToggleOrtho) == (
            ViewState { scene: Scene { light_idx: s.scene.light_idx, ortho: !s.scene.ortho }, surface: s.surface },
            Effect::Nothing,
        ),
        s.step(Command::CycleLight) == (
            ViewState {
                scene: Scene { light_idx: ((s.scene.light_idx + 1) % 3) as usize, ortho: s.scene.ortho },
                surface: s.surface,
            },
            Effect::UploadLight(((s.scene.light_idx + 1) % 3) as usize),
        ),
        width > 0 && height > 0 ==> s.step(Command::Resize { width, height }) == (
            ViewState { scene: s.scene, surface: SurfaceSize { width, height, is_configured: true } },
            Effect::Reconfigure { width, height },
        ),
        !(width > 0 && height > 0) ==> s.step(Command::Resize { width, height }) == (s, Effect::Nothing),
        s.step(Command::Redraw) == (s, Effect::Render { draw: s.surface.is_configured, ortho: s.scene.ortho }),
        s.step(Command::Exit) == (s, Effect::Exit),
        s.step(Command::Ignore) == (s, Effect::Nothing),
{
}

/// The frame decision for each acquisition outcome, outcome by outcome,
/// with the result rendering reports and what the event loop does next.
pub proof fn lemma_frame_outcomes()
    ensures
        frame_step_spec(SurfaceAcquire::Success) == FrameStep::Draw,
        frame_step_spec(SurfaceAcquire::Suboptimal) == FrameStep::Draw,
        frame_step_spec(SurfaceAcquire::Outdated) == FrameStep::Reconfigure,
        frame_step_spec(SurfaceAcquire::Lost) == FrameStep::Reconfigure,
        frame_step_spec(SurfaceAcquire::Timeout) == FrameStep::Skip,
        frame_step_spec(SurfaceAcquire::Occluded) == FrameStep::Skip,
        frame_step_spec(SurfaceAcquire::Validation) == FrameStep::Fail,
        frame_result_spec(FrameStep::Fail) == Err::<(), ()>(()),
        frame_result_spec(FrameStep::Draw) == Ok::<(), ()>(()),
        frame_result_spec(FrameStep::Reconfigure) == Ok::<(), ()>(()),
        frame_result_spec(FrameStep::Skip) == Ok::<(), ()>(()),
        frame_followup_spec(Err(())) == Effect::Exit,
        frame_followup_spec(Ok(())) == Effect::Nothing,
{
}

} // verus!
