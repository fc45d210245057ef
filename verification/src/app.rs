//! The calibration state: four margins and a grid interval, how key events
//! change them, and where the frame and its grid lie on a surface.

use vstd::prelude::*;
use crate::input::{Key, KeyEvent};
use crate::platform::Size;

verus! {

/// The margins of the usable screen region and the spacing of the grid
/// drawn inside it, in pixels.
#[derive(Debug, Clone, Copy, PartialEq, Eq, Structural)]
pub struct AppState {
    pub margin_top: i32,
    pub margin_left: i32,
    pub margin_right: i32,
    pub margin_bottom: i32,
    pub grid_interval: i32,
}

impl Default for AppState {
    /// No margins, and a grid line every three pixels.
    fn default() -> (state: AppState)
        ensures
            state == (AppState {
                margin_top: 0,
                margin_left: 0,
                margin_right: 0,
                margin_bottom: 0,
                grid_interval: 3,
            }),
    {
        AppState {
            margin_top: 0,
            margin_left: 0,
            margin_right: 0,
            margin_bottom: 0,
            grid_interval: 3,
        }
    }
}

impl AppState {
    /// By how much an event changes each setting, in the order top, left,
    /// right, bottom, grid interval. Only presses change anything: the
    /// direction keys shrink a margin, the face buttons grow it, and
    /// select and start change the grid interval.
    pub open spec fn delta(event: KeyEvent) -> (int, int, int, int, int) {
        match event {
            KeyEvent::Pressed(Key::Up) => (-1, 0, 0, 0, 0),
            KeyEvent::Pressed(Key::X) => (1, 0, 0, 0, 0),
            KeyEvent::Pressed(Key::Left) => (0, -1, 0, 0, 0),
            KeyEvent::Pressed(Key::Y) => (0, 1, 0, 0, 0),
            KeyEvent::Pressed(Key::Right) => (0, 0, -1, 0, 0),
            KeyEvent::Pressed(Key::A) => (0, 0, 1, 0, 0),
            KeyEvent::Pressed(Key::Down) => (0, 0, 0, -1, 0),
            KeyEvent::Pressed(Key::B) => (0, 0, 0, 1, 0),
            KeyEvent::Pressed(Key::Select) => (0, 0, 0, 0, -1),
            KeyEvent::Pressed(Key::Start) => (0, 0, 0, 0, 1),
            _ => (0, 0, 0, 0, 0),
        }
    }

    /// The event ends the calibration.
    pub open spec fn quits(event: KeyEvent) -> bool {
        event == KeyEvent::Released(Key::Menu)
    }

    /// The event leaves every setting within the range of its type.
    pub open spec fn accepts(self, event: KeyEvent) -> bool {
        let d = Self::delta(event);
        &&& i32::MIN <= self.margin_top + d.0 <= i32::MAX
        &&& i32::MIN <= self.margin_left + d.1 <= i32::MAX
        &&& i32::MIN <= self.margin_right + d.2 <= i32::MAX
        &&& i32::MIN <= self.margin_bottom + d.3 <= i32::MAX
        &&& i32::MIN <= self.grid_interval + d.4 <= i32::MAX
    }

    /// Whether `apply` can take the event in this state.
    pub fn can_apply(&self, event: KeyEvent) -> (ok: bool)
        ensures
            ok == self.accepts(event),
    {
        match event {
            KeyEvent::Pressed(Key::Up) => self.margin_top > i32::MIN,
            KeyEvent::Pressed(Key::X) => self.margin_top < i32::MAX,
            KeyEvent::Pressed(Key::Left) => self.margin_left > i32::MIN,
            KeyEvent::Pressed(Key::Y) => self.margin_left < i32::MAX,
            KeyEvent::Pressed(Key::Right) => self.margin_right > i32::MIN,
            KeyEvent::Pressed(Key::A) => self.margin_right < i32::MAX,
            KeyEvent::Pressed(Key::Down) => self.margin_bottom > i32::MIN,
            KeyEvent::Pressed(Key::B) => self.margin_bottom < i32::MAX,
            KeyEvent::Pressed(Key::Select) => self.grid_interval > i32::MIN,
            KeyEvent::Pressed(Key::Start) => self.grid_interval < i32::MAX,
            _ => true,
        }
    }

    /// Applies one key event to the settings. Returns `true` when the event
    /// ends the calibration, which is when the menu button is released.
    pub fn apply(&mut self, event: KeyEvent) -> (quit: bool)
        requires
            old(self).accepts(event),
        ensures
            quit == Self::quits(event),
            final(self).margin_top == old(self).margin_top + Self::delta(event).0,
            final(self).margin_left == old(self).margin_left + Self::delta(event).1,
            final(self).margin_right == old(self).margin_right + Self::delta(event).2,
            final(self).margin_bottom == old(self).margin_bottom + Self::delta(event).3,
            final(self).grid_interval == old(self).grid_interval + Self::delta(event).4,
    {
        match event {
            KeyEvent::Released(Key::Menu) => {
                return true;
            },
            KeyEvent::Pressed(Key::Left) => {
                self.margin_left = self.margin_left - 1;
            },
            KeyEvent::Pressed(Key::Right) => {
                self.margin_right = self.margin_right - 1;
            },
            KeyEvent::Pressed(Key::Up) => {
                self.margin_top = self.margin_top - 1;
            },
            KeyEvent::Pressed(Key::Down) => {
                self.margin_bottom = self.margin_bottom - 1;
            },
            KeyEvent::Pressed(Key::Y) => {
                self.margin_left = self.margin_left + 1;
            },
            KeyEvent::Pressed(Key::A) => {
                self.margin_right = self.margin_right + 1;
            },
            KeyEvent::Pressed(Key::X) => {
                self.margin_top = self.margin_top + 1;
            },
            KeyEvent::Pressed(Key::B) => {
                self.margin_bottom = self.margin_bottom + 1;
            },
            KeyEvent::Pressed(Key::Select) => {
                self.grid_interval = self.grid_interval - 1;
            },
            KeyEvent::Pressed(Key::Start) => {
                self.grid_interval = self.grid_interval + 1;
            },
            _ => {},
        }
        false
    }
}

/// How far above the middle of the frame the label is anchored, in pixels.
pub const LABEL_RISE: i32 = 70;

/// The region inside the margins: its top left corner and its extent.
#[derive(Debug, Clone, Copy, PartialEq, Eq, Structural)]
pub struct Frame {
    pub x: i32,
    pub y: i32,
    pub width: u32,
    pub height: u32,
}

/// The positions `start`, `start + interval`, `start + 2 * interval`, ...
/// that lie before `start + extent`; none unless `interval` is positive.
pub open spec fn stepped(lines: Seq<i32>, start: int, extent: int, interval: int) -> bool {
    &&& forall|k: int| 0 <= k < lines.len() ==> #[trigger] lines[k] == start + k * interval
    &&& interval <= 0 ==> lines.len() == 0
    &&& interval > 0 ==> {
        &&& lines.len() * interval >= extent
        &&& (lines.len() - 1) * interval < extent || lines.len() == 0
    }
}

/// The grid positions along one axis of a frame.
pub fn grid_lines(start: i32, extent: u32, interval: i32) -> (lines: Vec<i32>)
    requires
        start + extent <= i32::MAX,
    ensures
        stepped(lines@, start as int, extent as int, interval as int),
{
    let mut lines: Vec<i32> = Vec::new();
    if interval <= 0 {
        return lines;
    }
    let end: i64 = start as i64 + extent as i64;
    let step: i64 = interval as i64;
    let mut at: i64 = start as i64;
    while at < end
        invariant
            step == interval > 0,
            end == start + extent <= i32::MAX,
            at == start + lines@.len() * step,
            at < end + step,
            lines@.len() == 0 || (lines@.len() - 1) * step < extent,
            forall|k: int| 0 <= k < lines@.len() ==> #[trigger] lines@[k] == start + k * step,
        decreases end + step - at,
    {
        proof {
            let n = lines@.len() as int;
            assert((n + 1) * step == n * step + step) by (nonlinear_arith);
            assert((n + 1 - 1) * step == n * step) by (nonlinear_arith);
        }
        lines.push(at as i32);
        at = at + step;
    }
    lines
}

impl Frame {
    /// The frame's far edges and its label anchor are positions of the
    /// surface's coordinate type.
    pub open spec fn wf(self) -> bool {
        &&& self.x + self.width <= i32::MAX
        &&& self.y + self.height <= i32::MAX
        &&& self.y + self.height / 2 - LABEL_RISE >= i32::MIN
    }

    /// The horizontal positions of the vertical grid lines.
    pub fn columns(&self, interval: i32) -> (lines: Vec<i32>)
        requires
            self.wf(),
        ensures
            stepped(lines@, self.x as int, self.width as int, interval as int),
    {
        grid_lines(self.x, self.width, interval)
    }

    /// The vertical positions of the horizontal grid lines.
    pub fn rows(&self, interval: i32) -> (lines: Vec<i32>)
        requires
            self.wf(),
        ensures
            stepped(lines@, self.y as int, self.height as int, interval as int),
    {
        grid_lines(self.y, self.height, interval)
    }

    /// The point on which the label is centred: the middle of the frame,
    /// raised by `LABEL_RISE`.
    pub fn label_anchor(&self) -> (at: (i32, i32))
        requires
            self.wf(),
        ensures
            at.0 == self.x + self.width / 2,
            at.1 == self.y + self.height / 2 - LABEL_RISE,
    {
        let x: i64 = self.x as i64 + (self.width / 2) as i64;
        let y: i64 = self.y as i64 + (self.height / 2) as i64 - LABEL_RISE as i64;
        (x as i32, y as i32)
    }
}

impl AppState {
    /// The frame's width on a surface: what the left and right margins leave.
    pub open spec fn inner_width(self, size: Size) -> int {
        size.width - self.margin_left - self.margin_right
    }

    /// The frame's height on a surface: what the top and bottom margins leave.
    pub open spec fn inner_height(self, size: Size) -> int {
        size.height - self.margin_top - self.margin_bottom
    }

    /// The margins leave a frame on the surface that can be drawn: its
    /// extent is not negative and its edges are positions of the surface.
    pub open spec fn frames(self, size: Size) -> bool {
        &&& 0 <= self.inner_width(size)
        &&& 0 <= self.inner_height(size)
        &&& size.width - self.margin_right <= i32::MAX
        &&& size.height - self.margin_bottom <= i32::MAX
        &&& self.margin_top + self.inner_height(size) / 2 - LABEL_RISE >= i32::MIN
    }

    /// The frame that the margins leave on a surface of the given size. A
    /// negative margin moves the frame's edge off the surface.
    pub fn frame(&self, size: Size) -> (frame: Option<Frame>)
        ensures
            frame is Some <==> self.frames(size),
            frame matches Some(f) ==> {
                &&& f.wf()
                &&& f.x == self.margin_left
                &&& f.y == self.margin_top
                &&& f.width == self.inner_width(size)
                &&& f.height == self.inner_height(size)
            },
    {
        let width: i64 = size.width as i64 - self.margin_left as i64 - self.margin_right as i64;
        let height: i64 = size.height as i64 - self.margin_top as i64 - self.margin_bottom as i64;
        let right: i64 = size.width as i64 - self.margin_right as i64;
        let bottom: i64 = size.height as i64 - self.margin_bottom as i64;
        if width < 0 || height < 0 || right > i32::MAX as i64 || bottom > i32::MAX as i64 {
            return None;
        }
        if self.margin_top as i64 + height / 2 - (LABEL_RISE as i64) < i32::MIN as i64 {
            return None;
        }
        Some(
            Frame { x: self.margin_left, y: self.margin_top, width: width as u32, height: height as u32 },
        )
    }
}

} // verus!
