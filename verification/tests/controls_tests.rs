use lab03::controls::{
    command_for, frame_followup, frame_result, frame_step, Command, Effect, FrameStep, Key, Scene, SurfaceAcquire, ViewState,
    WindowInput,
};
use lab03::gpu::SurfaceSize;

#[test]
fn inputs_map_to_commands() {
    assert_eq!(command_for(WindowInput::CloseRequested), Command::Exit);
    assert_eq!(command_for(WindowInput::KeyPressed(Key::Escape)), Command::Exit);
    assert_eq!(command_for(WindowInput::KeyPressed(Key::KeyO)), Command::ToggleOrtho);
    assert_eq!(command_for(WindowInput::KeyPressed(Key::KeyL)), Command::CycleLight);
    assert_eq!(command_for(WindowInput::KeyPressed(Key::Other)), Command::Ignore);
    assert_eq!(command_for(WindowInput::RedrawRequested), Command::Redraw);
    assert_eq!(
        command_for(WindowInput::Resized { width: 640, height: 480 }),
        Command::Resize { width: 640, height: 480 }
    );
    assert_eq!(command_for(WindowInput::Other), Command::Ignore);
}

#[test]
fn start_state() {
    let s = ViewState::new(1024, 720);
    assert_eq!(s.scene, Scene { light_idx: 0, ortho: false });
    assert_eq!(s.surface, SurfaceSize { width: 1024, height: 720, is_configured: true });
    let t = ViewState::new(0, 0);
    assert_eq!((t.surface.width, t.surface.height), (1, 1));
}

#[test]
fn scene_new_cycle_toggle() {
    let mut s = Scene::new();
    assert_eq!(s.cycle_light(), 1);
    assert_eq!(s.cycle_light(), 2);
    assert_eq!(s.cycle_light(), 0);
    assert!(!s.ortho);
    s.toggle_ortho();
    assert!(s.ortho);
    assert_eq!(s.light_idx, 0);
    s.toggle_ortho();
    assert_eq!(s, Scene::new());
}

#[test]
fn light_key_cycles_and_uploads() {
    let mut s = ViewState::new(800, 600);
    assert_eq!(s.apply(Command::CycleLight), Effect::UploadLight(1));
    assert_eq!(s.apply(Command::CycleLight), Effect::UploadLight(2));
    assert_eq!(s.apply(Command::CycleLight), Effect::UploadLight(0));
    assert_eq!(s, ViewState::new(800, 600));
}

#[test]
fn ortho_key_toggles_projection() {
    let mut s = ViewState::new(800, 600);
    assert_eq!(s.apply(Command::ToggleOrtho), Effect::Nothing);
    assert!(s.scene.ortho);
    assert_eq!(s.apply(Command::Redraw), Effect::Render { draw: true, ortho: true });
    assert_eq!(s.apply(Command::ToggleOrtho), Effect::Nothing);
    assert_eq!(s, ViewState::new(800, 600));
}

#[test]
fn resize_reconfigures_only_with_positive_size() {
    let mut s = ViewState::new(800, 600);
    assert_eq!(s.apply(Command::Resize { width: 0, height: 0 }), Effect::Nothing);
    assert_eq!(s, ViewState::new(800, 600));
    assert_eq!(
        s.apply(Command::Resize { width: 1280, height: 720 }),
        Effect::Reconfigure { width: 1280, height: 720 }
    );
    assert_eq!((s.surface.width, s.surface.height), (1280, 720));
    assert_eq!(s.scene, Scene::new());
}

#[test]
fn redraw_skips_drawing_when_unconfigured() {
    let mut s = ViewState {
        scene: Scene { light_idx: 2, ortho: false },
        surface: SurfaceSize { width: 5, height: 5, is_configured: false },
    };
    assert_eq!(s.apply(Command::Redraw), Effect::Render { draw: false, ortho: false });
    assert_eq!(s.apply(Command::Exit), Effect::Exit);
    assert_eq!(s.apply(Command::Ignore), Effect::Nothing);
    assert_eq!(s.scene.light_idx, 2);
}

#[test]
fn frame_steps() {
    assert_eq!(frame_step(SurfaceAcquire::Success), FrameStep::Draw);
    assert_eq!(frame_step(SurfaceAcquire::Suboptimal), FrameStep::Draw);
    assert_eq!(frame_step(SurfaceAcquire::Outdated), FrameStep::Reconfigure);
    assert_eq!(frame_step(SurfaceAcquire::Lost), FrameStep::Reconfigure);
    assert_eq!(frame_step(SurfaceAcquire::Timeout), FrameStep::Skip);
    assert_eq!(frame_step(SurfaceAcquire::Occluded), FrameStep::Skip);
    assert_eq!(frame_step(SurfaceAcquire::Validation), FrameStep::Fail);
}

#[test]
fn frame_results() {
    assert_eq!(frame_result(FrameStep::Fail), Err(()));
    assert_eq!(frame_result(FrameStep::Draw), Ok(()));
    assert_eq!(frame_result(FrameStep::Skip), Ok(()));
    assert_eq!(frame_result(FrameStep::Reconfigure), Ok(()));
}

#[test]
fn validation_failure_ends_the_loop() {
    assert_eq!(frame_followup(frame_result(frame_step(SurfaceAcquire::Validation))), Effect::Exit);
    for a in [
        SurfaceAcquire::Success,
        SurfaceAcquire::Suboptimal,
        SurfaceAcquire::Outdated,
        SurfaceAcquire::Lost,
        SurfaceAcquire::Timeout,
        SurfaceAcquire::Occluded,
    ] {
        assert_eq!(frame_followup(frame_result(frame_step(a))), Effect::Nothing);
    }
    assert_eq!(frame_followup(Err(())), Effect::Exit);
    assert_eq!(frame_followup(Ok(())), Effect::Nothing);
}
