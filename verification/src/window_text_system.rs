//! Text layout for one window.

use crate::geometry::Pixels;
use crate::text_run::TextRun;
use crate::text_system::{PlatformTextSystem, TextSystem};
use std::ops::Range;
use std::sync::Arc;
use vstd::prelude::*;

verus! {

/// A cache of line layouts that lives from frame to frame.
pub trait LineLayoutCache: Sized {
    /// The platform that lays lines out.
    type Platform;

    /// A line that is not wrapped.
    type Layout;

    /// A text that is broken into lines.
    type WrappedLayout;

    /// A position among the layouts of a frame.
    type Index;

    /// An empty cache in front of a platform.
    fn new(platform_text_system: Arc<Self::Platform>) -> Self;

    /// The position behind the last layout of this frame.
    fn layout_index(&self) -> Self::Index;

    /// Takes layouts over from the previous frame.
    fn reuse_layouts(&self, index: Range<Self::Index>);

    /// Drops the layouts from a position on.
    fn truncate_layouts(&self, index: Self::Index);

    /// Ends the frame.
    fn finish_frame(&self);

    /// The layout of a line.
    fn layout_line(&self, text: &str, font_size: Pixels, runs: &[TextRun]) -> Self::Layout;

    /// The layout of a text that may be wrapped and clamped.
    fn layout_wrapped_line(
        &self,
        text: &str,
        font_size: Pixels,
        runs: &[TextRun],
        wrap_width: Option<Pixels>,
        line_clamp: Option<usize>,
    ) -> Self::WrappedLayout;
}

/// A text system that several windows share.
pub trait SharedPlatform {
    /// The platform that does the work.
    type Platform;

    /// The platform that does the work.
    fn platform_text_system(&self) -> Arc<Self::Platform>;
}

impl<P: PlatformTextSystem> SharedPlatform for TextSystem<P> {
    type Platform = P;

    fn platform_text_system(&self) -> (platform: Arc<P>)
        ensures
            *platform == self.platform(),
    {
        self.share_platform()
    }
}

/// A line that is ready to be painted.
pub struct ShapedLine<L> {
    /// The layout.
    pub layout: L,
    /// The text.
    pub text: String,
}

/// A text that is ready to be painted, broken into lines.
pub struct WrappedLine<L> {
    /// The layout.
    pub layout: L,
    /// The text.
    pub text: String,
}

/// The GPUI text layout subsystem.
///
/// `S` is the text system that all windows share.
pub struct WindowTextSystem<C, S> {
    line_layout_cache: C,
    text_system: Arc<S>,
}

impl<C: LineLayoutCache, S: SharedPlatform<Platform = C::Platform>> WindowTextSystem<C, S> {
    /// Create a new WindowTextSystem with the given TextSystem, and a cache of layouts in front
    /// of its platform.
    pub fn new(text_system: Arc<S>) -> (system: Self)
        ensures
            system.shared() == *text_system,
            exists|platform: Arc<C::Platform>|
                {
                    &&& #[trigger] call_ensures(
                        S::platform_text_system,
                        (&*text_system,),
                        platform,
                    )
                    &&& call_ensures(C::new, (platform,), system.cache())
                },
    {
        let platform_text_system: Arc<C::Platform> = text_system.platform_text_system();
        WindowTextSystem { line_layout_cache: C::new(platform_text_system), text_system }
    }
}

impl<C: LineLayoutCache, S> WindowTextSystem<C, S> {
    /// The cache of line layouts.
    pub closed spec fn cache(&self) -> C {
        self.line_layout_cache
    }

    /// The text system that all windows share.
    pub closed spec fn shared(&self) -> S {
        *self.text_system
    }

    /// The text system that all windows share.
    pub fn text_system(&self) -> (shared: &S)
        ensures
            *shared == self.shared(),
    {
        &self.text_system
    }

    /// The position behind the last layout of this frame.
    pub fn layout_index(&self) -> (index: C::Index)
        ensures
            call_ensures(C::layout_index, (&self.cache(),), index),
    {
        self.line_layout_cache.layout_index()
    }

    /// Takes layouts over from the previous frame.
    pub fn reuse_layouts(&self, index: Range<C::Index>) -> (done: ())
        ensures
            call_ensures(C::reuse_layouts, (&self.cache(), index), done),
    {
        self.line_layout_cache.reuse_layouts(index)
    }

    /// Drops the layouts from a position on.
    pub fn truncate_layouts(&self, index: C::Index) -> (done: ())
        ensures
            call_ensures(C::truncate_layouts, (&self.cache(), index), done),
    {
        self.line_layout_cache.truncate_layouts(index)
    }

    /// Shape the given line, at the given font_size, for painting to the screen.
    /// Subsets of the line can be styled independently with the `runs` parameter.
    ///
    /// Note that this method can only shape a single line of text, which holds no newline. If
    /// you need to shape multiple lines of text, use [`Self::shape_text`] instead.
    pub fn shape_line(&self, text: String, font_size: Pixels, runs: &[TextRun]) -> (line: ShapedLine<
        C::Layout,
    >)
        requires
            !text@.contains('\n'),
        ensures
            line.text@ == text@,
            exists|shaped: &str, layout: C::Layout| #[trigger]
                call_ensures(
                    C::layout_line,
                    (&self.cache(), shaped, font_size, runs),
                    layout,
                ) && shaped@ == text@ && line.layout == layout,
    {
        let shaped: &str = text.as_str();
        let layout: C::Layout = self.layout_line(shaped, font_size, runs);
        assert(call_ensures(C::layout_line, (&self.cache(), shaped, font_size, runs), layout));
        ShapedLine { layout, text }
    }

    /// Shape a multi line string of text, at the given font_size, for painting to the screen.
    /// Subsets of the text can be styled independently with the `runs` parameter,
    /// where each run gives the number of UTF-8 bytes that it styles. Runs must cover the
    /// complete string and end on UTF-8 character boundaries.
    ///
    /// If `wrap_width` is provided, the line breaks will be adjusted to fit within the given
    /// width.
    ///
    /// The backend receives the complete string. Hard breaks, trailing empty lines, bidi
    /// paragraphs, wrapping, and `line_clamp` therefore share one layout model.
    pub fn shape_text(
        &self,
        text: String,
        font_size: Pixels,
        runs: &[TextRun],
        wrap_width: Option<Pixels>,
        line_clamp: Option<usize>,
    ) -> (result: Result<WrappedLine<C::WrappedLayout>, String>)
        ensures
            result matches Ok(line) && line.text@ == text@ && exists|
                shaped: &str,
                layout: C::WrappedLayout,
            | #[trigger]
                call_ensures(
                    C::layout_wrapped_line,
                    (&self.cache(), shaped, font_size, runs, wrap_width, line_clamp),
                    layout,
                ) && shaped@ == text@ && line.layout == layout,
    {
        let shaped: &str = text.as_str();
        let layout: C::WrappedLayout = self.line_layout_cache.layout_wrapped_line(
            shaped,
            font_size,
            runs,
            wrap_width,
            line_clamp,
        );
        assert(call_ensures(
            C::layout_wrapped_line,
            (&self.cache(), shaped, font_size, runs, wrap_width, line_clamp),
            layout,
        ));
        Ok(WrappedLine { layout, text })
    }

    /// Ends the frame.
    pub fn finish_frame(&self) -> (done: ())
        ensures
            call_ensures(C::finish_frame, (&self.cache(),), done),
    {
        self.line_layout_cache.finish_frame()
    }

    /// Layout the given line of text, at the given font_size.
    /// Subsets of the line can be styled independently with the `runs` parameter.
    /// Generally, you should prefer to use [`Self::shape_line`] instead, which
    /// can be painted directly.
    pub fn layout_line(&self, text: &str, font_size: Pixels, runs: &[TextRun]) -> (layout: C::Layout)
        ensures
            call_ensures(C::layout_line, (&self.cache(), text, font_size, runs), layout),
    {
        self.line_layout_cache.layout_line(text, font_size, runs)
    }
}

} // verus!
