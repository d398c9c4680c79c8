use vstd::prelude::*;

verus! {

/// Default window width and height in pixels.
pub const DEFAULT_WINDOW_SIDE: u32 = 500;

/// Startup options of the render loop: the window title and its size in pixels.
pub struct RenderLoopSettings {
    window_title: String,
    window_size: (u32, u32),
}

impl RenderLoopSettings {
    pub fn new(window_title: String, window_size: (u32, u32)) -> (r: RenderLoopSettings)
        ensures
            r.title_view() == window_title@,
            r.size_view() == window_size,
    {
        RenderLoopSettings { window_title, window_size }
    }

    pub closed spec fn title_view(&self) -> Seq<char> {
        self.window_title@
    }

    pub closed spec fn size_view(&self) -> (u32, u32) {
        self.window_size
    }

    pub fn window_title(&self) -> (r: &str)
        ensures
            r@ == self.title_view(),
    {
        self.window_title.as_str()
    }

    pub fn window_size(&self) -> (r: (u32, u32))
        ensures
            r == self.size_view(),
    {
        self.window_size
    }
}

impl Default for RenderLoopSettings {
    /// An empty title and a window of 500 by 500 pixels.
    fn default() -> (r: RenderLoopSettings)
        ensures
            r.title_view() == Seq::<char>::empty(),
            r.size_view() == (DEFAULT_WINDOW_SIDE, DEFAULT_WINDOW_SIDE),
    {
        RenderLoopSettings {
            window_title: String::new(),
            window_size: (DEFAULT_WINDOW_SIDE, DEFAULT_WINDOW_SIDE),
        }
    }
}

/// What the draw callback is handed for one frame.
pub struct DrawContext {}

impl DrawContext {
    pub fn new() -> (r: DrawContext) {
        DrawContext {  }
    }
}

/// The host application's per-frame drawing hook, called once per rendered frame.
pub trait App {
    fn draw(&mut self, context: &mut DrawContext);
}

} // verus!
