use vstd::prelude::*;

use crate::color::{clear_color, spec_clear_color, Rgba};

verus! {

/// What the node sees of one extracted window: the texture view of its
/// current swap-chain image, if it has acquired one this frame.
pub struct WindowTarget<V> {
    pub swap_chain_texture_view: Option<V>,
}

/// Why a frame records no GPU work.
#[derive(Clone, Copy, Debug, PartialEq, Eq, Structural)]
pub enum SkipReason {
    NoWindow,
    NoSwapChainTextureView,
}

/// One render pass with a single colour attachment, cleared to `color`
/// and stored, and with no draw calls recorded in it.
pub struct ClearPass<V> {
    pub view: V,
    pub color: Rgba,
}

/// What one invocation of the node does.
pub enum FrameAction<V> {
    /// Record nothing; report the reason and return successfully.
    Skip(SkipReason),
    /// Record the clear pass.
    Clear(ClearPass<V>),
}

/// The action that a frame calls for, given the extracted windows in the
/// order in which the host hands them over: the first window's swap-chain
/// texture view is cleared to the fixed colour when there is one.
pub open spec fn frame_plan<V>(windows: Seq<WindowTarget<V>>) -> FrameAction<V> {
    if windows.len() == 0 {
        FrameAction::Skip(SkipReason::NoWindow)
    } else {
        match windows[0].swap_chain_texture_view {
            None => FrameAction::Skip(SkipReason::NoSwapChainTextureView),
            Some(view) => FrameAction::Clear(ClearPass { view, color: spec_clear_color() }),
        }
    }
}

/// Whether the frame has a texture to render into.
pub open spec fn has_target<V>(windows: Seq<WindowTarget<V>>) -> bool {
    windows.len() > 0 && windows[0].swap_chain_texture_view is Some
}

impl<V> FrameAction<V> {
    /// Number of render passes the action records.
    pub open spec fn render_pass_count(self) -> nat {
        match self {
            FrameAction::Skip(_) => 0,
            FrameAction::Clear(_) => 1,
        }
    }

    /// Number of draw calls the action records, over all of its passes.
    pub open spec fn draw_call_count(self) -> nat {
        0
    }

    /// Number of GPU commands the action issues: beginning a pass is one.
    pub open spec fn gpu_command_count(self) -> nat {
        self.render_pass_count() + self.draw_call_count()
    }

    /// The line the node reports for this action.
    pub open spec fn spec_notice(self) -> Seq<char> {
        match self {
            FrameAction::Skip(SkipReason::NoWindow) => "no window found"@,
            FrameAction::Skip(SkipReason::NoSwapChainTextureView) => "no swap chain texture view"@,
            FrameAction::Clear(_) => "draw!"@,
        }
    }

    /// Whether the action records the clear pass.
    pub fn is_clear(&self) -> (r: bool)
        ensures
            r == (self is Clear),
            r == (self.render_pass_count() == 1),
    {
        match self {
            FrameAction::Skip(_) => false,
            FrameAction::Clear(_) => true,
        }
    }

    /// The line the node reports for this action.
    pub fn notice(&self) -> (s: &'static str)
        ensures
            s@ == self.spec_notice(),
    {
        match self {
            FrameAction::Skip(SkipReason::NoWindow) => "no window found",
            FrameAction::Skip(SkipReason::NoSwapChainTextureView) => "no swap chain texture view",
            FrameAction::Clear(_) => "draw!",
        }
    }
}

/// Decides what the node does this frame. `windows` are the extracted
/// windows, in the order the host walks them; the first one is used.
pub fn plan_frame<V>(windows: Vec<WindowTarget<V>>) -> (r: FrameAction<V>)
    ensures
        r == frame_plan(windows@),
        has_target(windows@) ==> (r matches FrameAction::Clear(pass) && pass.color
            == spec_clear_color() && pass.view == windows@[0].swap_chain_texture_view->Some_0),
        has_target(windows@) ==> r.render_pass_count() == 1,
        !has_target(windows@) ==> r is Skip,
        !has_target(windows@) ==> r.gpu_command_count() == 0,
        r.draw_call_count() == 0,
{
    let mut windows = windows;
    if windows.len() == 0 {
        return FrameAction::Skip(SkipReason::NoWindow);
    }
    let first = windows.swap_remove(0);
    match first.swap_chain_texture_view {
        None => FrameAction::Skip(SkipReason::NoSwapChainTextureView),
        Some(view) => FrameAction::Clear(ClearPass { view, color: clear_color() }),
    }
}

} // verus!
