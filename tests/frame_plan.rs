use clear_node::color::{clear_color, Rgba, CHANNEL_UNIT};
use clear_node::frame::{plan_frame, FrameAction, SkipReason, WindowTarget};

fn window(view: Option<u32>) -> WindowTarget<u32> {
    WindowTarget { swap_chain_texture_view: view }
}

#[test]
fn clear_color_is_fixed_linear_value() {
    let c = clear_color();
    assert_eq!(c, Rgba::new(100, 200, 300, 1000));
    assert!(c.is_opaque());
    assert_eq!(c.alpha, CHANNEL_UNIT);
    assert_eq!(f64::from(c.red) / f64::from(CHANNEL_UNIT), 0.1);
    assert_eq!(f64::from(c.green) / f64::from(CHANNEL_UNIT), 0.2);
    assert_eq!(f64::from(c.blue) / f64::from(CHANNEL_UNIT), 0.3);
    assert_eq!(f64::from(c.alpha) / f64::from(CHANNEL_UNIT), 1.0);
}

#[test]
fn translucent_color_is_not_opaque() {
    assert!(!Rgba::new(0, 0, 0, 999).is_opaque());
}

#[test]
fn frame_with_target_clears_it_to_the_fixed_color() {
    let action = plan_frame(vec![window(Some(7))]);
    match action {
        FrameAction::Clear(pass) => {
            assert_eq!(pass.view, 7);
            assert_eq!(pass.color, clear_color());
        }
        FrameAction::Skip(_) => panic!("expected a clear pass"),
    }
}

#[test]
fn first_window_decides_the_frame() {
    let action = plan_frame(vec![window(Some(3)), window(None), window(Some(9))]);
    match action {
        FrameAction::Clear(pass) => assert_eq!(pass.view, 3),
        FrameAction::Skip(_) => panic!("expected a clear pass"),
    }
    let action = plan_frame(vec![window(None), window(Some(9))]);
    assert!(matches!(action, FrameAction::Skip(SkipReason::NoSwapChainTextureView)));
}

#[test]
fn no_window_skips_the_frame() {
    let action = plan_frame(Vec::<WindowTarget<u32>>::new());
    assert!(matches!(action, FrameAction::Skip(SkipReason::NoWindow)));
    assert!(!action.is_clear());
    assert_eq!(action.notice(), "no window found");
}

#[test]
fn window_without_texture_view_skips_the_frame() {
    let action = plan_frame(vec![window(None)]);
    assert!(matches!(action, FrameAction::Skip(SkipReason::NoSwapChainTextureView)));
    assert!(!action.is_clear());
    assert_eq!(action.notice(), "no swap chain texture view");
}

#[test]
fn frame_with_target_records_one_pass() {
    let action = plan_frame(vec![window(Some(1))]);
    assert!(action.is_clear());
    assert_eq!(action.notice(), "draw!");
}
