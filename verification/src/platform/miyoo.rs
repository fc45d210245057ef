//! The handheld backend: key codes of the Linux input layer, the filter that
//! turns raw input records into key events, and the rotated pixel surface
//! that is copied into the device framebuffer.

use vstd::prelude::*;
use crate::input::{Key, KeyEvent};
use crate::platform::Size;

verus! {

/// Record type of a key transition (`EV_KEY`).
pub const EV_KEY: u16 = 1;

pub const KEY_ESC: u16 = 1;
pub const KEY_BACKSPACE: u16 = 14;
pub const KEY_TAB: u16 = 15;
pub const KEY_E: u16 = 18;
pub const KEY_T: u16 = 20;
pub const KEY_ENTER: u16 = 28;
pub const KEY_LEFTCTRL: u16 = 29;
pub const KEY_LEFTSHIFT: u16 = 42;
pub const KEY_LEFTALT: u16 = 56;
pub const KEY_SPACE: u16 = 57;
pub const KEY_RIGHTCTRL: u16 = 97;
pub const KEY_UP: u16 = 103;
pub const KEY_LEFT: u16 = 105;
pub const KEY_RIGHT: u16 = 106;
pub const KEY_DOWN: u16 = 108;
pub const KEY_VOLUMEDOWN: u16 = 114;
pub const KEY_VOLUMEUP: u16 = 115;
pub const KEY_POWER: u16 = 116;

/// Value of a key record: the button went up.
pub const VALUE_RELEASED: i32 = 0;
/// Value of a key record: the button went down.
pub const VALUE_PRESSED: i32 = 1;
/// Value of a key record: the button is still held.
pub const VALUE_AUTOREPEAT: i32 = 2;

/// An autorepeat record older than this many nanoseconds (100 ms) is stale.
pub const MAXIMUM_FRAME_TIME_NANOS: u128 = 100_000_000;

/// The codes that the device's buttons send.
pub open spec fn in_table(code: u16) -> bool {
    code == 1 || code == 14 || code == 15 || code == 18 || code == 20 || code == 28
        || code == 29 || code == 42 || code == 56 || code == 57 || code == 97 || code == 103
        || code == 105 || code == 106 || code == 108 || code == 114 || code == 115
        || code == 116
}

/// The button behind a raw key code; `Unknown` for every other code.
pub open spec fn key_of(code: u16) -> Key {
    match code {
        103 => Key::Up,
        108 => Key::Down,
        105 => Key::Left,
        106 => Key::Right,
        57 => Key::A,
        29 => Key::B,
        42 => Key::X,
        56 => Key::Y,
        28 => Key::Start,
        97 => Key::Select,
        18 => Key::L,
        20 => Key::R,
        1 => Key::Menu,
        15 => Key::L2,
        14 => Key::R2,
        116 => Key::Power,
        114 => Key::VolDown,
        115 => Key::VolUp,
        _ => Key::Unknown,
    }
}

/// Translates a raw key code of the input device.
pub fn translate(code: u16) -> (key: Key)
    ensures
        key == key_of(code),
        !in_table(code) ==> key == Key::Unknown,
        in_table(code) ==> key != Key::Unknown,
{
    if code == KEY_UP {
        Key::Up
    } else if code == KEY_DOWN {
        Key::Down
    } else if code == KEY_LEFT {
        Key::Left
    } else if code == KEY_RIGHT {
        Key::Right
    } else if code == KEY_SPACE {
        Key::A
    } else if code == KEY_LEFTCTRL {
        Key::B
    } else if code == KEY_LEFTSHIFT {
        Key::X
    } else if code == KEY_LEFTALT {
        Key::Y
    } else if code == KEY_ENTER {
        Key::Start
    } else if code == KEY_RIGHTCTRL {
        Key::Select
    } else if code == KEY_E {
        Key::L
    } else if code == KEY_T {
        Key::R
    } else if code == KEY_ESC {
        Key::Menu
    } else if code == KEY_TAB {
        Key::L2
    } else if code == KEY_BACKSPACE {
        Key::R2
    } else if code == KEY_POWER {
        Key::Power
    } else if code == KEY_VOLUMEDOWN {
        Key::VolDown
    } else if code == KEY_VOLUMEUP {
        Key::VolUp
    } else {
        Key::Unknown
    }
}

/// A code translates to `Unknown` exactly when the table does not list it.
pub proof fn lemma_unknown_iff_absent(code: u16)
    ensures
        key_of(code) == Key::Unknown <==> !in_table(code),
{
}

/// No two codes of the table name the same button.
pub proof fn lemma_table_injective(a: u16, b: u16)
    requires
        in_table(a),
        key_of(a) == key_of(b),
    ensures
        a == b,
{
}

/// One record of the input device, as plain values.
#[derive(Debug, Clone, Copy, PartialEq, Eq, Structural)]
pub struct RawRecord {
    /// The record's type; `EV_KEY` for a key transition.
    pub event_type: u16,
    /// The raw code; for a key record, the key code.
    pub code: u16,
    /// For a key record: 0 released, 1 pressed, 2 autorepeat.
    pub value: i32,
}

impl RawRecord {
    pub open spec fn is_key(self) -> bool {
        self.event_type == EV_KEY
    }

    /// A key record carries one of the three known values.
    pub open spec fn valid(self) -> bool {
        self.is_key() ==> 0 <= self.value <= 2
    }

    /// The record's age decides whether it is surfaced.
    pub open spec fn aged(self) -> bool {
        self.is_key() && self.value == VALUE_AUTOREPEAT
    }

    /// Whether the record can be handed to `Platform::poll`.
    pub fn is_valid(&self) -> (ok: bool)
        ensures
            ok == self.valid(),
    {
        self.event_type != EV_KEY || (0 <= self.value && self.value <= 2)
    }

    /// Whether the record's timestamp has to be read before it is polled.
    pub fn needs_age(&self) -> (needed: bool)
        ensures
            needed == self.aged(),
    {
        self.event_type == EV_KEY && self.value == VALUE_AUTOREPEAT
    }
}

/// A record together with its age in nanoseconds at the time it is looked at.
#[derive(Debug, Clone, Copy, PartialEq, Eq, Structural)]
pub struct TimedRecord {
    pub record: RawRecord,
    pub age_nanos: u128,
}

/// The event that a record of the given age surfaces as, if any: records of
/// another type surface as nothing, and so does a stale autorepeat.
pub open spec fn surfaced(record: RawRecord, age_nanos: u128) -> Option<KeyEvent> {
    if !record.is_key() {
        None
    } else if record.value == 0 {
        Some(KeyEvent::Released(key_of(record.code)))
    } else if record.value == 1 {
        Some(KeyEvent::Pressed(key_of(record.code)))
    } else if record.value == 2 && age_nanos <= MAXIMUM_FRAME_TIME_NANOS {
        Some(KeyEvent::Autorepeat(key_of(record.code)))
    } else {
        None
    }
}

/// The index of the first record at or after `from` that surfaces as an event.
pub open spec fn first_surfaced(records: Seq<TimedRecord>, from: int) -> int
    decreases records.len() - from,
{
    if from >= records.len() {
        records.len() as int
    } else if surfaced(records[from].record, records[from].age_nanos) is Some {
        from
    } else {
        first_surfaced(records, from + 1)
    }
}

/// A colour with eight bits per channel.
#[derive(Debug, Clone, Copy, PartialEq, Eq, Structural)]
pub struct Color {
    pub r: u8,
    pub g: u8,
    pub b: u8,
}

/// One pixel to draw, at a logical coordinate.
#[derive(Debug, Clone, Copy, PartialEq, Eq, Structural)]
pub struct Pixel {
    pub x: i32,
    pub y: i32,
    pub color: Color,
}

/// What the framebuffer driver reports at startup.
#[derive(Debug, Clone, Copy, PartialEq, Eq, Structural)]
pub struct DeviceGeometry {
    pub xres: u32,
    pub yres: u32,
    pub bits_per_pixel: u32,
    pub xoffset: u32,
    pub yoffset: u32,
}

impl DeviceGeometry {
    pub open spec fn bytes_per_pixel(self) -> int {
        self.bits_per_pixel as int / 8
    }

    /// Length in bytes of one frame of the viewport.
    pub open spec fn frame_len(self) -> int {
        self.xres * self.yres * self.bytes_per_pixel()
    }

    /// Byte position in the device memory at which the viewport begins.
    pub open spec fn location(self) -> int {
        (self.yoffset * self.xres + self.xoffset) * self.bytes_per_pixel()
    }
}

/// Why a surface cannot be bound to a region of device memory.
#[derive(Debug, Clone, Copy, PartialEq, Eq, Structural)]
pub enum SurfaceError {
    /// The viewport's window does not lie inside the region.
    WindowOutsideRegion,
}

/// The byte index at which the pixel drawn at logical `(x, y)` is stored:
/// the surface is turned by 180 degrees.
pub open spec fn pixel_index(width: int, height: int, depth: int, x: int, y: int) -> int {
    ((width - 1 - x) + (height - 1 - y) * width) * depth
}

/// Whether the rotated position of `(x, y)` lies on the surface.
pub open spec fn lands(width: int, height: int, x: int, y: int) -> bool {
    0 <= width - 1 - x < width && 0 <= height - 1 - y < height
}

/// The frame after one pixel is drawn: blue, green, red at the pixel's
/// index, or the frame as it was where the pixel does not land.
pub open spec fn painted(bytes: Seq<u8>, width: int, height: int, depth: int, p: Pixel) -> Seq<u8> {
    if lands(width, height, p.x as int, p.y as int) {
        let at = pixel_index(width, height, depth, p.x as int, p.y as int);
        bytes.update(at, p.color.b).update(at + 1, p.color.g).update(at + 2, p.color.r)
    } else {
        bytes
    }
}

/// The frame after the pixels are drawn one after the other.
pub open spec fn painted_all(
    bytes: Seq<u8>,
    width: int,
    height: int,
    depth: int,
    pixels: Seq<Pixel>,
) -> Seq<u8>
    decreases pixels.len(),
{
    if pixels.len() == 0 {
        bytes
    } else {
        painted(
            painted_all(bytes, width, height, depth, pixels.drop_last()),
            width,
            height,
            depth,
            pixels.last(),
        )
    }
}

/// The device memory after a frame is copied to `offset`: the frame inside
/// the window, the memory as it was everywhere else.
pub open spec fn presented(region: Seq<u8>, offset: int, frame: Seq<u8>) -> Seq<u8> {
    Seq::new(
        region.len(),
        |i: int|
            if offset <= i < offset + frame.len() {
                frame[i - offset]
            } else {
                region[i]
            },
    )
}

/// The in-memory frame that drawing writes to.
pub struct Buffer {
    buffer: Vec<u8>,
    size: Size,
    bytes_per_pixel: u32,
}

impl Buffer {
    pub closed spec fn bytes(&self) -> Seq<u8> {
        self.buffer@
    }

    pub closed spec fn size(&self) -> Size {
        self.size
    }

    pub closed spec fn depth(&self) -> int {
        self.bytes_per_pixel as int
    }

    /// The frame holds every pixel of the surface.
    pub open spec fn wf(&self) -> bool {
        self.bytes().len() == self.size().width * self.size().height * self.depth()
    }
}

/// The drawing surface of the device: a frame, and the place in the device
/// memory that it is copied to.
pub struct FramebufferDisplay {
    framebuffer: Buffer,
    location: usize,
}

proof fn lemma_pixel_fits(width: int, height: int, depth: int, rx: int, ry: int)
    requires
        0 <= rx < width,
        0 <= ry < height,
        depth >= 1,
    ensures
        0 <= ry * width <= rx + ry * width < width * height,
        0 <= (rx + ry * width) * depth,
        (rx + ry * width) * depth + depth <= width * height * depth,
        width * height <= width * height * depth,
{
    assert(ry * width <= (height - 1) * width) by (nonlinear_arith)
        requires
            0 <= ry <= height - 1,
            0 < width,
    ;
    assert((height - 1) * width == width * height - width) by (nonlinear_arith);
    assert(0 <= ry * width) by (nonlinear_arith)
        requires
            0 <= ry,
            0 <= width,
    ;
    assert(width * height <= width * height * depth) by (nonlinear_arith)
        requires
            0 <= width * height,
            depth >= 1,
    ;
    let cell = rx + ry * width;
    assert((cell + 1) * depth <= (width * height) * depth) by (nonlinear_arith)
        requires
            cell + 1 <= width * height,
            depth >= 1,
    ;
    assert((cell + 1) * depth == cell * depth + depth) by (nonlinear_arith);
    assert(0 <= cell * depth) by (nonlinear_arith)
        requires
            0 <= cell,
            0 <= depth,
    ;
}

impl FramebufferDisplay {
    /// The frame as drawn so far.
    pub closed spec fn bytes(&self) -> Seq<u8> {
        self.framebuffer.bytes()
    }

    pub closed spec fn width(&self) -> int {
        self.framebuffer.size().width as int
    }

    pub closed spec fn height(&self) -> int {
        self.framebuffer.size().height as int
    }

    /// Bytes per pixel of the frame.
    pub closed spec fn depth(&self) -> int {
        self.framebuffer.depth()
    }

    /// Byte position of the viewport in the device memory.
    pub closed spec fn offset(&self) -> int {
        self.location as int
    }

    pub closed spec fn wf(&self) -> bool {
        self.framebuffer.wf()
    }

    /// The frame's length is that of its geometry.
    pub proof fn lemma_frame_len(&self)
        requires
            self.wf(),
        ensures
            self.bytes().len() == self.width() * self.height() * self.depth(),
    {
    }

    /// Binds a surface to the device: the frame starts out as what the
    /// device memory `background` shows in the viewport's window.
    pub fn new(geometry: DeviceGeometry, background: &[u8]) -> (made: Result<
        FramebufferDisplay,
        SurfaceError,
    >)
        ensures
            made is Ok <==> geometry.location() + geometry.frame_len() <= background@.len(),
            made matches Ok(display) ==> {
                &&& display.wf()
                &&& display.width() == geometry.xres
                &&& display.height() == geometry.yres
                &&& display.depth() == geometry.bytes_per_pixel()
                &&& display.offset() == geometry.location()
                &&& display.bytes() == background@.subrange(
                    geometry.location(),
                    geometry.location() + geometry.frame_len(),
                )
            },
            made matches Err(e) ==> e == SurfaceError::WindowOutsideRegion,
    {
        let bytes_per_pixel: u32 = geometry.bits_per_pixel / 8;
        let xres: u128 = geometry.xres as u128;
        let yres: u128 = geometry.yres as u128;
        let bpp: u128 = bytes_per_pixel as u128;
        let xoffset: u128 = geometry.xoffset as u128;
        let yoffset: u128 = geometry.yoffset as u128;
        proof {
            assert(xres * yres <= 0xffff_ffff * 0xffff_ffff) by (nonlinear_arith)
                requires
                    xres <= 0xffff_ffff,
                    yres <= 0xffff_ffff,
            ;
            assert(xres * yres * bpp <= 0xffff_ffff * 0xffff_ffff * 0xffff_ffff)
                by (nonlinear_arith)
                requires
                    xres * yres <= 0xffff_ffff * 0xffff_ffff,
                    bpp <= 0xffff_ffff,
            ;
            assert(yoffset * xres <= 0xffff_ffff * 0xffff_ffff) by (nonlinear_arith)
                requires
                    xres <= 0xffff_ffff,
                    yoffset <= 0xffff_ffff,
            ;
            assert((yoffset * xres + xoffset) * bpp <= (0xffff_ffff * 0xffff_ffff + 0xffff_ffff)
                * 0xffff_ffff) by (nonlinear_arith)
                requires
                    yoffset * xres + xoffset <= 0xffff_ffff * 0xffff_ffff + 0xffff_ffff,
                    bpp <= 0xffff_ffff,
            ;
        }
        let frame_len: u128 = xres * yres * bpp;
        let location: u128 = (yoffset * xres + xoffset) * bpp;
        if location + frame_len > background.len() as u128 {
            return Err(SurfaceError::WindowOutsideRegion);
        }
        let start: usize = location as usize;
        let len: usize = frame_len as usize;
        let mut buffer: Vec<u8> = Vec::new();
        let mut i: usize = 0;
        while i < len
            invariant
                i <= len,
                start + len <= background@.len() <= usize::MAX,
                buffer@ == background@.subrange(start as int, start + i),
            decreases len - i,
        {
            buffer.push(background[start + i]);
            i = i + 1;
            assert(buffer@ =~= background@.subrange(start as int, start + i));
        }
        Ok(
            FramebufferDisplay {
                framebuffer: Buffer {
                    buffer,
                    size: Size { width: geometry.xres, height: geometry.yres },
                    bytes_per_pixel,
                },
                location: start,
            },
        )
    }

    /// The frame as drawn so far.
    pub fn frame(&self) -> (frame: &Vec<u8>)
        ensures
            frame@ == self.bytes(),
    {
        &self.framebuffer.buffer
    }

    /// Byte position of the viewport in the device memory.
    pub fn location(&self) -> (at: usize)
        ensures
            at == self.offset(),
    {
        self.location
    }

    /// Bytes per pixel of the frame.
    pub fn bytes_per_pixel(&self) -> (depth: u32)
        ensures
            depth == self.depth(),
    {
        self.framebuffer.bytes_per_pixel
    }

    /// The logical size of the surface.
    pub fn size(&self) -> (size: Size)
        ensures
            size.width == self.width(),
            size.height == self.height(),
    {
        self.framebuffer.size
    }

    /// Draws one pixel into the frame; the device memory is not touched.
    /// The pixel is stored at the rotated position, as blue, green, red; a
    /// pixel whose rotated position is off the surface is dropped.
    pub fn draw(&mut self, pixel: Pixel)
        requires
            old(self).wf(),
            old(self).depth() >= 3,
        ensures
            final(self).wf(),
            final(self).width() == old(self).width(),
            final(self).height() == old(self).height(),
            final(self).depth() == old(self).depth(),
            final(self).offset() == old(self).offset(),
            final(self).bytes() == painted(
                old(self).bytes(),
                old(self).width(),
                old(self).height(),
                old(self).depth(),
                pixel,
            ),
            final(self).bytes().len() == old(self).bytes().len(),
            !lands(old(self).width(), old(self).height(), pixel.x as int, pixel.y as int)
                ==> final(self).bytes() == old(self).bytes(),
    {
        let width: i64 = self.framebuffer.size.width as i64;
        let height: i64 = self.framebuffer.size.height as i64;
        let rx: i64 = width - pixel.x as i64 - 1;
        let ry: i64 = height - pixel.y as i64 - 1;
        let len: usize = self.framebuffer.buffer.len();
        if 0 <= rx && rx < width && 0 <= ry && ry < height {
            proof {
                lemma_pixel_fits(width as int, height as int, self.depth(), rx as int, ry as int);
            }
            let cell: usize = rx as usize + ry as usize * (width as usize);
            let index: usize = cell * (self.framebuffer.bytes_per_pixel as usize);
            self.framebuffer.buffer[index] = pixel.color.b;
            self.framebuffer.buffer[index + 1] = pixel.color.g;
            self.framebuffer.buffer[index + 2] = pixel.color.r;
        }
    }

    /// Draws the pixels in order.
    pub fn draw_iter(&mut self, pixels: &Vec<Pixel>)
        requires
            old(self).wf(),
            old(self).depth() >= 3,
        ensures
            final(self).wf(),
            final(self).width() == old(self).width(),
            final(self).height() == old(self).height(),
            final(self).depth() == old(self).depth(),
            final(self).offset() == old(self).offset(),
            final(self).bytes() == painted_all(
                old(self).bytes(),
                old(self).width(),
                old(self).height(),
                old(self).depth(),
                pixels@,
            ),
            final(self).bytes().len() == old(self).bytes().len(),
    {
        let ghost before = *self;
        let mut i: usize = 0;
        while i < pixels.len()
            invariant
                i <= pixels@.len(),
                self.wf(),
                self.width() == before.width(),
                self.height() == before.height(),
                self.depth() == before.depth(),
                self.depth() >= 3,
                self.offset() == before.offset(),
                self.bytes().len() == before.bytes().len(),
                self.bytes() == painted_all(
                    before.bytes(),
                    before.width(),
                    before.height(),
                    before.depth(),
                    pixels@.take(i as int),
                ),
            decreases pixels@.len() - i,
        {
            self.draw(pixels[i]);
            i = i + 1;
            assert(pixels@.take(i as int).drop_last() =~= pixels@.take(i - 1));
        }
        assert(pixels@.take(i as int) =~= pixels@);
    }

    /// Copies the whole frame into the device memory `region`, at the
    /// viewport's offset. Nothing outside that window is written. A region
    /// too short to hold the window is left as it is.
    pub fn flush(&self, region: &mut [u8]) -> (done: Result<(), SurfaceError>)
        requires
            self.wf(),
        ensures
            done is Ok <==> self.offset() + self.bytes().len() <= old(region)@.len(),
            done is Ok ==> final(region)@ == presented(old(region)@, self.offset(), self.bytes()),
            done is Err ==> final(region)@ == old(region)@,
            done matches Err(e) ==> e == SurfaceError::WindowOutsideRegion,
            final(region)@.len() == old(region)@.len(),
            forall|i: int|
                0 <= i < old(region)@.len() && !(self.offset() <= i < self.offset()
                    + self.bytes().len()) ==> final(region)@[i] == old(region)@[i],
    {
        let len: usize = self.framebuffer.buffer.len();
        if region.len() < len || region.len() - len < self.location {
            return Err(SurfaceError::WindowOutsideRegion);
        }
        let ghost before = region@;
        let mut i: usize = 0;
        while i < len
            invariant
                i <= len,
                len == self.framebuffer.buffer@.len(),
                self.location + len <= region@.len() <= usize::MAX,
                region@.len() == before.len(),
                forall|j: int|
                    0 <= j < region@.len() ==> region@[j] == if self.location <= j
                        < self.location + i {
                        self.framebuffer.buffer@[j - self.location]
                    } else {
                        before[j]
                    },
            decreases len - i,
        {
            region[self.location + i] = self.framebuffer.buffer[i];
            i = i + 1;
        }
        assert(region@ =~= presented(before, self.offset(), self.bytes()));
        Ok(())
    }
}

/// The frame after a draw differs from the frame before it in the three
/// bytes of the pixel at most.
pub proof fn lemma_painted_elsewhere(
    frame: Seq<u8>,
    width: int,
    height: int,
    depth: int,
    p: Pixel,
    i: int,
)
    requires
        frame.len() == width * height * depth,
        depth >= 3,
        0 <= i < frame.len(),
        !(pixel_index(width, height, depth, p.x as int, p.y as int) <= i < pixel_index(
            width,
            height,
            depth,
            p.x as int,
            p.y as int,
        ) + 3),
    ensures
        painted(frame, width, height, depth, p).len() == frame.len(),
        painted(frame, width, height, depth, p)[i] == frame[i],
{
    if lands(width, height, p.x as int, p.y as int) {
        lemma_pixel_fits(width, height, depth, width - 1 - p.x, height - 1 - p.y);
    }
}

/// A pixel whose rotated position is off the surface changes nothing.
pub proof fn lemma_painted_off_surface(frame: Seq<u8>, width: int, height: int, depth: int, p: Pixel)
    requires
        !(0 <= p.x < width && 0 <= p.y < height),
    ensures
        painted(frame, width, height, depth, p) == frame,
{
}

/// Copying a frame to the device leaves every byte outside the window
/// `[offset, offset + frame.len())` as it was, and puts the frame inside it.
pub proof fn lemma_presented_window(region: Seq<u8>, offset: int, frame: Seq<u8>, i: int)
    requires
        0 <= i < region.len(),
    ensures
        presented(region, offset, frame).len() == region.len(),
        !(offset <= i < offset + frame.len()) ==> presented(region, offset, frame)[i] == region[i],
        offset <= i < offset + frame.len() ==> presented(region, offset, frame)[i] == frame[i
            - offset],
{
}

/// On a surface of three bytes per pixel, a pixel drawn at logical `(x, y)`
/// inside the surface shows, once the frame is copied to the device, as the
/// colour's blue, green and red bytes at
/// `offset + ((width - 1 - x) + (height - 1 - y) * width) * 3`.
pub proof fn lemma_drawn_pixel_presented(
    region: Seq<u8>,
    offset: int,
    frame: Seq<u8>,
    width: int,
    height: int,
    p: Pixel,
)
    requires
        0 <= p.x < width,
        0 <= p.y < height,
        frame.len() == width * height * 3,
        0 <= offset,
        offset + frame.len() <= region.len(),
    ensures
        ({
            let at = ((width - 1 - p.x) + (height - 1 - p.y) * width) * 3;
            let shown = presented(region, offset, painted(frame, width, height, 3, p));
            &&& 0 <= at
            &&& at + 3 <= frame.len()
            &&& shown[offset + at] == p.color.b
            &&& shown[offset + at + 1] == p.color.g
            &&& shown[offset + at + 2] == p.color.r
        }),
{
    lemma_pixel_fits(width, height, 3, width - 1 - p.x, height - 1 - p.y);
}

/// A stale autorepeat record is passed over: the event that follows it is
/// the one that the records after it give.
pub proof fn lemma_stale_autorepeat_skipped(records: Seq<TimedRecord>, from: int)
    requires
        0 <= from < records.len(),
        records[from].record.aged(),
        records[from].age_nanos > MAXIMUM_FRAME_TIME_NANOS,
    ensures
        surfaced(records[from].record, records[from].age_nanos) is None,
        first_surfaced(records, from) == first_surfaced(records, from + 1),
{
}

/// A fresh autorepeat record is surfaced as `Autorepeat` of its key.
pub proof fn lemma_fresh_autorepeat_surfaced(records: Seq<TimedRecord>, from: int)
    requires
        0 <= from < records.len(),
        records[from].record.aged(),
        records[from].age_nanos <= MAXIMUM_FRAME_TIME_NANOS,
    ensures
        surfaced(records[from].record, records[from].age_nanos) == Some(
            KeyEvent::Autorepeat(key_of(records[from].record.code)),
        ),
        first_surfaced(records, from) == from,
{
}

/// The handheld backend: its drawing surface and its event filter.
pub struct Platform {
    pub display: FramebufferDisplay,
}

impl Platform {
    /// Binds the backend's surface to the device, as `FramebufferDisplay::new`
    /// does.
    pub fn new(geometry: DeviceGeometry, background: &[u8]) -> (made: Result<Platform, SurfaceError>)
        ensures
            made is Ok <==> geometry.location() + geometry.frame_len() <= background@.len(),
            made matches Ok(platform) ==> {
                &&& platform.display.wf()
                &&& platform.display.width() == geometry.xres
                &&& platform.display.height() == geometry.yres
                &&& platform.display.depth() == geometry.bytes_per_pixel()
                &&& platform.display.offset() == geometry.location()
                &&& platform.display.bytes() == background@.subrange(
                    geometry.location(),
                    geometry.location() + geometry.frame_len(),
                )
            },
            made matches Err(e) ==> e == SurfaceError::WindowOutsideRegion,
    {
        match FramebufferDisplay::new(geometry, background) {
            Ok(display) => Ok(Platform { display }),
            Err(e) => Err(e),
        }
    }

    /// Copies the surface's frame into the device memory, as
    /// `FramebufferDisplay::flush` does.
    pub fn flush(&self, region: &mut [u8]) -> (done: Result<(), SurfaceError>)
        requires
            self.display.wf(),
        ensures
            done is Ok <==> self.display.offset() + self.display.bytes().len() <= old(
                region,
            )@.len(),
            done is Ok ==> final(region)@ == presented(
                old(region)@,
                self.display.offset(),
                self.display.bytes(),
            ),
            done is Err ==> final(region)@ == old(region)@,
            done matches Err(e) ==> e == SurfaceError::WindowOutsideRegion,
    {
        self.display.flush(region)
    }

    /// Decides what becomes of one record: `Some` is the event to hand to the
    /// caller, `None` means that the record is dropped and the next one is read.
    /// `age_nanos` is read only for an autorepeat record.
    pub fn poll(&self, record: RawRecord, age_nanos: u128) -> (event: Option<KeyEvent>)
        requires
            record.valid(),
        ensures
            event == surfaced(record, age_nanos),
            !record.is_key() ==> event is None,
            record.aged() && age_nanos <= MAXIMUM_FRAME_TIME_NANOS ==> event == Some(
                KeyEvent::Autorepeat(key_of(record.code)),
            ),
            record.aged() && age_nanos > MAXIMUM_FRAME_TIME_NANOS ==> event is None,
    {
        if record.event_type != EV_KEY {
            return None;
        }
        let key = translate(record.code);
        if record.value == VALUE_RELEASED {
            Some(KeyEvent::Released(key))
        } else if record.value == VALUE_PRESSED {
            Some(KeyEvent::Pressed(key))
        } else if age_nanos > MAXIMUM_FRAME_TIME_NANOS {
            None
        } else {
            Some(KeyEvent::Autorepeat(key))
        }
    }

    /// Reads `records` from index `from` on and returns the first event that
    /// surfaces, with the index of the record after it; `None` when every
    /// remaining record is dropped.
    pub fn next_event(&self, records: &Vec<TimedRecord>, from: usize) -> (found: Option<(KeyEvent, usize)>)
        requires
            forall|i: int| from <= i < records@.len() ==> (#[trigger] records@[i]).record.valid(),
        ensures
            first_surfaced(records@, from as int) >= records@.len() <==> found is None,
            found matches Some((event, next)) ==> {
                &&& next == first_surfaced(records@, from as int) + 1
                &&& from < next <= records@.len()
                &&& Some(event) == surfaced(records@[next - 1].record, records@[next - 1].age_nanos)
                &&& forall|i: int|
                    from <= i < next - 1 ==> surfaced(
                        (#[trigger] records@[i]).record,
                        records@[i].age_nanos,
                    ) is None
            },
            found is None ==> forall|i: int|
                from <= i < records@.len() ==> surfaced(
                    (#[trigger] records@[i]).record,
                    records@[i].age_nanos,
                ) is None,
    {
        let mut at: usize = from;
        while at < records.len()
            invariant
                from <= at,
                forall|i: int| from <= i < records@.len() ==> (#[trigger] records@[i]).record.valid(),
                first_surfaced(records@, from as int) == first_surfaced(records@, at as int),
                forall|i: int|
                    from <= i < at ==> surfaced(
                        (#[trigger] records@[i]).record,
                        records@[i].age_nanos,
                    ) is None,
            decreases records@.len() - at,
        {
            let timed = records[at];
            match self.poll(timed.record, timed.age_nanos) {
                Some(event) => {
                    return Some((event, at + 1));
                },
                None => {},
            }
            at = at + 1;
        }
        None
    }
}

} // verus!
