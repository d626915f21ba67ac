use copper::window_events::{Command, Msg, Reaction, RenderStep, WindowModel, KEY_R};

#[test]
fn new_window_model() {
    let m = WindowModel::new();
    assert_eq!(m.width(), 0);
    assert_eq!(m.height(), 0);
    assert_eq!(m.title(), "Schema Renderer");
}

#[test]
fn first_frame_sets_up_once() {
    let mut m = WindowModel::new();
    assert_eq!(
        m.render_steps(),
        vec![
            RenderStep::PrepareFrame,
            RenderStep::LoadSchema,
            RenderStep::SetupRenderContext,
            RenderStep::DrawFrame,
            RenderStep::FinalizeFrame,
        ]
    );
    assert_eq!(
        m.render_steps(),
        vec![RenderStep::PrepareFrame, RenderStep::DrawFrame, RenderStep::FinalizeFrame]
    );
    assert_eq!(
        m.render_steps(),
        vec![RenderStep::PrepareFrame, RenderStep::DrawFrame, RenderStep::FinalizeFrame]
    );
}

#[test]
fn set_title_keeps_size() {
    let mut m = WindowModel::new();
    m.update(Msg::Resize { width: 4, height: 5, scale_factor: 1 });
    m.set_title("Schema Renderer (4.0, 5.0)".to_string());
    assert_eq!(m.title(), "Schema Renderer (4.0, 5.0)");
    assert_eq!(m.width(), 4);
    assert_eq!(m.height(), 5);
}

#[test]
fn resize_is_remembered_and_passed_on() {
    let mut s = WindowModel::new();
    let r = s.update(Msg::Resize { width: 1800, height: 1000, scale_factor: 2 });
    assert_eq!(
        r,
        Reaction {
            command: Command::Resize {
                view_width: 1800,
                view_height: 1000,
                scale_factor: 2,
                target_width: 1800,
                target_height: 1000,
            },
            notify_view_state: true,
        }
    );
    assert_eq!(s.width(), 1800);
    assert_eq!(s.height(), 1000);
    assert_eq!(s.title(), "Schema Renderer");
}

#[test]
fn oversized_resize_truncates_target() {
    let mut s = WindowModel::new();
    let r = s.update(Msg::Resize { width: 70_000, height: 10, scale_factor: 1 });
    match r.command {
        Command::Resize { view_width, target_width, target_height, .. } => {
            assert_eq!(view_width, 70_000);
            assert_eq!(target_width, 70_000u32 as u16);
            assert_eq!(target_height, 10);
        }
        _ => panic!("expected a resize"),
    }
}

#[test]
fn primary_button_selects() {
    let mut s = WindowModel::new();
    assert_eq!(s.update(Msg::ButtonPressed { button: 1 }).command, Command::SelectHovered);
    let r = s.update(Msg::ButtonPressed { button: 3 });
    assert_eq!(r.command, Command::Nothing);
    assert!(r.notify_view_state);
}

#[test]
fn r_key_rotates() {
    let mut s = WindowModel::new();
    assert_eq!(s.update(Msg::KeyDown { keyval: KEY_R }).command, Command::RotateHovered);
    assert_eq!(s.update(Msg::KeyDown { keyval: 0x71 }).command, Command::Nothing);
    assert!(!s.update(Msg::KeyDown { keyval: KEY_R }).notify_view_state);
}

#[test]
fn cursor_moves_pan_with_secondary_button() {
    let mut s = WindowModel::new();
    assert_eq!(s.update(Msg::MoveCursor { secondary_held: true }).command, Command::PanAndMoveCursor);
    assert_eq!(s.update(Msg::MoveCursor { secondary_held: false }).command, Command::MoveCursor);
}

#[test]
fn other_messages() {
    let mut s = WindowModel::new();
    assert_eq!(s.update(Msg::Quit).command, Command::Quit);
    assert_eq!(s.update(Msg::Realize).command, Command::Log);
    assert_eq!(s.update(Msg::Unrealize).command, Command::Log);
    assert_eq!(s.update(Msg::RenderGl).command, Command::Render);
    let z = s.update(Msg::ZoomOnSchema);
    assert_eq!(z.command, Command::Zoom);
    assert!(z.notify_view_state);
    assert_eq!(s.width(), 0);
}
