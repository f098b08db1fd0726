//! The window view: size, position, title, icon, and render requests.
//!
//! A window is a borrowed view of the engine's foreign instance. Whether it is
//! offscreen is decided once, by the factory flags the root handle was created
//! with. The title crosses the boundary as text and is marshaled; the icon is
//! raw bytes the foreign side copies.

use vstd::prelude::*;

use crate::bytes::bytes_clone;
use crate::text::MarshalError;
use crate::text::contains_nul;
use crate::text::to_foreign;

verus! {

/// The window state of one engine instance.
pub struct Window {
    offscreen: bool,
    width: i32,
    height: i32,
    pos_x: i32,
    pos_y: i32,
    title: Vec<u8>,
    icon: Vec<u8>,
    renders: u64,
}

impl Window {
    /// Whether the window renders offscreen.
    pub closed spec fn offscreen_view(&self) -> bool {
        self.offscreen
    }

    /// The window size.
    pub closed spec fn size(&self) -> (i32, i32) {
        (self.width, self.height)
    }

    /// The window position.
    pub closed spec fn position(&self) -> (i32, i32) {
        (self.pos_x, self.pos_y)
    }

    /// The window title.
    pub closed spec fn title_view(&self) -> Seq<u8> {
        self.title@
    }

    /// The window icon bytes.
    pub closed spec fn icon_view(&self) -> Seq<u8> {
        self.icon@
    }

    /// How many renders were performed.
    pub closed spec fn renders_done(&self) -> u64 {
        self.renders
    }

    /// A fresh window, offscreen exactly when the factory asked for it.
    pub fn new(offscreen: bool) -> (r: Window)
        ensures
            r.offscreen_view() == offscreen,
            r.size() == (0i32, 0i32),
            r.position() == (0i32, 0i32),
            r.title_view() == Seq::<u8>::empty(),
            r.icon_view() == Seq::<u8>::empty(),
            r.renders_done() == 0,
    {
        Window {
            offscreen,
            width: 0,
            height: 0,
            pos_x: 0,
            pos_y: 0,
            title: Vec::new(),
            icon: Vec::new(),
            renders: 0,
        }
    }

    /// Whether the window is offscreen.
    pub fn is_offscreen(&self) -> (r: bool)
        ensures
            r == self.offscreen_view(),
    {
        self.offscreen
    }

    /// Renders the window once; reports whether the render succeeded, which
    /// in this model it always does.
    pub fn render(&mut self) -> (r: bool)
        requires
            old(self).renders_done() < u64::MAX,
        ensures
            r,
            final(self).renders_done() == old(self).renders_done() + 1,
            final(self).offscreen_view() == old(self).offscreen_view(),
            final(self).size() == old(self).size(),
            final(self).position() == old(self).position(),
            final(self).title_view() == old(self).title_view(),
            final(self).icon_view() == old(self).icon_view(),
    {
        self.renders += 1;
        true
    }

    /// Sets the window size in pixels.
    pub fn set_size(&mut self, width: i32, height: i32)
        ensures
            final(self).size() == (width, height),
            final(self).offscreen_view() == old(self).offscreen_view(),
            final(self).position() == old(self).position(),
            final(self).title_view() == old(self).title_view(),
            final(self).icon_view() == old(self).icon_view(),
            final(self).renders_done() == old(self).renders_done(),
    {
        self.width = width;
        self.height = height;
    }

    /// The window width in pixels.
    pub fn width(&self) -> (r: i32)
        ensures
            r == self.size().0,
    {
        self.width
    }

    /// The window height in pixels.
    pub fn height(&self) -> (r: i32)
        ensures
            r == self.size().1,
    {
        self.height
    }

    /// Moves the window.
    pub fn set_position(&mut self, x: i32, y: i32)
        ensures
            final(self).position() == (x, y),
            final(self).offscreen_view() == old(self).offscreen_view(),
            final(self).size() == old(self).size(),
            final(self).title_view() == old(self).title_view(),
            final(self).icon_view() == old(self).icon_view(),
            final(self).renders_done() == old(self).renders_done(),
    {
        self.pos_x = x;
        self.pos_y = y;
    }

    /// Hands the window an icon as raw image bytes; the foreign side copies
    /// them before returning.
    pub fn set_icon(&mut self, icon: &[u8])
        ensures
            final(self).icon_view() == icon@,
            final(self).offscreen_view() == old(self).offscreen_view(),
            final(self).size() == old(self).size(),
            final(self).position() == old(self).position(),
            final(self).title_view() == old(self).title_view(),
            final(self).renders_done() == old(self).renders_done(),
    {
        self.icon = bytes_clone(icon);
    }

    /// Sets the window title; a title embedding the terminator byte cannot
    /// cross the boundary and is rejected with nothing changed.
    pub fn set_title(&mut self, title: &[u8]) -> (r: Result<(), MarshalError>)
        ensures
            match r {
                Ok(()) => !contains_nul(title@) && final(self).title_view() == title@,
                Err(e) => e == MarshalError::EmbeddedTerminator && contains_nul(title@) && *final(self) == *old(self),
            },
            final(self).offscreen_view() == old(self).offscreen_view(),
            final(self).size() == old(self).size(),
            final(self).position() == old(self).position(),
            final(self).icon_view() == old(self).icon_view(),
            final(self).renders_done() == old(self).renders_done(),
    {
        if let Err(e) = to_foreign(title) {
            return Err(e);
        }
        self.title = bytes_clone(title);
        Ok(())
    }
}

} // verus!
