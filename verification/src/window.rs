//! From an RGBA image to the frame of a window, and what the window does on
//! each event while it is shown.

use crate::raster::{Raster, RgbaImage};
use vstd::prelude::*;
use vstd::std_specs::convert::FromSpecImpl;

verus! {

/// Why no window shows the image.
#[derive(Debug, Clone, Copy, PartialEq, Eq, Structural)]
pub enum Error {
    /// The window could not be created.
    OpenError,
    /// No drawing surface could be bound to the window.
    SurfaceError,
    /// A dimension or a channel is out of the range it is converted to.
    SizeConversionError,
}

/// The step of setting a window up that failed.
#[derive(Debug, Clone, Copy, PartialEq, Eq, Structural)]
pub enum SetupFailure {
    /// The windowing system did not create the window.
    Window,
    /// No drawing context could be bound to the window.
    Context,
    /// No pixel surface could be bound to the window.
    Surface,
}

impl Error {
    /// The error that stands for a failed step of the setup: a window that
    /// was not created, or a surface that could not be set up.
    pub open spec fn of(failure: SetupFailure) -> Error {
        match failure {
            SetupFailure::Window => Error::OpenError,
            SetupFailure::Context => Error::SurfaceError,
            SetupFailure::Surface => Error::SurfaceError,
        }
    }

    /// The text shown to the user for this error.
    pub open spec fn message_text(self) -> Seq<char> {
        match self {
            Error::OpenError => "Unable to open window"@,
            Error::SurfaceError => "Unable to open window"@,
            Error::SizeConversionError => "Unable to determine size during image conversion"@,
        }
    }

    /// The text shown to the user for this error.
    pub fn message(&self) -> (text: String)
        ensures
            text@ == self.message_text(),
    {
        match self {
            Error::OpenError => "Unable to open window".to_owned(),
            Error::SurfaceError => "Unable to open window".to_owned(),
            Error::SizeConversionError => "Unable to determine size during image conversion".to_owned(),
        }
    }
}

impl From<SetupFailure> for Error {
    fn from(failure: SetupFailure) -> (error: Error) {
        match failure {
            SetupFailure::Window => Error::OpenError,
            SetupFailure::Context => Error::SurfaceError,
            SetupFailure::Surface => Error::SurfaceError,
        }
    }
}

impl FromSpecImpl<SetupFailure> for Error {
    open spec fn obeys_from_spec() -> bool {
        true
    }

    open spec fn from_spec(failure: SetupFailure) -> Error {
        Error::of(failure)
    }
}

/// One pixel of a frame: blue in the low byte, green above it, red above
/// that, and nothing in the high byte.
pub open spec fn packed(red: u8, green: u8, blue: u8) -> u32 {
    (blue as u32) | ((green as u32) << 8) | ((red as u32) << 16)
}

/// The packed value of a pixel given by its channels red, green, blue, alpha.
pub open spec fn packed_pixel(channels: Seq<u8>) -> u32 {
    packed(channels[0], channels[1], channels[2])
}

/// The frame that shows `raster`: one packed value per pixel, row by row.
pub open spec fn packed_frame(raster: Raster) -> Seq<u32> {
    Seq::new(raster.pixel_count(), |i: int| packed_pixel(raster.pixel(i)))
}

/// The frame follows the image row by row: it has one value per pixel, and
/// the value for column `x` of row `y` packs the four bytes that the image
/// holds for that pixel.
pub proof fn lemma_frame_follows_rows(raster: Raster, x: int, y: int)
    requires
        raster.well_formed(),
        0 <= x < raster.width,
        0 <= y < raster.height,
    ensures
        raster.data.len() == 4 * packed_frame(raster).len(),
        packed_frame(raster).len() == raster.width * raster.height,
        0 <= y * raster.width + x < packed_frame(raster).len(),
        packed_frame(raster)[y * raster.width + x] == packed_pixel(raster.pixel_xy(x, y)),
        raster.pixel_xy(x, y) == raster.data.subrange(
            4 * (y * raster.width + x),
            4 * (y * raster.width + x) + 4,
        ),
        4 * (y * raster.width + x) + 4 <= raster.data.len(),
{
    let w = raster.width as int;
    let h = raster.height as int;
    assert(0 <= y * w + x < w * h) by (nonlinear_arith)
        requires
            0 <= x < w,
            0 <= y < h,
    ;
}

/// Each channel sits in a byte of its own, and the high byte is zero.
pub proof fn lemma_packed_layout(red: u8, green: u8, blue: u8)
    ensures
        packed(red, green, blue) & 0xff == blue,
        (packed(red, green, blue) >> 8) & 0xff == green,
        (packed(red, green, blue) >> 16) & 0xff == red,
        packed(red, green, blue) >> 24 == 0,
        packed(red, green, blue) == red * 0x10000 + green * 0x100 + blue,
{
    let r = red as u32;
    let g = green as u32;
    let b = blue as u32;
    assert((b | (g << 8) | (r << 16)) & 0xff == b) by (bit_vector)
        requires
            r < 256,
            g < 256,
            b < 256,
    ;
    assert(((b | (g << 8) | (r << 16)) >> 8) & 0xff == g) by (bit_vector)
        requires
            r < 256,
            g < 256,
            b < 256,
    ;
    assert(((b | (g << 8) | (r << 16)) >> 16) & 0xff == r) by (bit_vector)
        requires
            r < 256,
            g < 256,
            b < 256,
    ;
    assert((b | (g << 8) | (r << 16)) >> 24 == 0) by (bit_vector)
        requires
            r < 256,
            g < 256,
            b < 256,
    ;
    assert(b | (g << 8) | (r << 16) == r * 0x10000 + g * 0x100 + b) by (bit_vector)
        requires
            r < 256,
            g < 256,
            b < 256,
    ;
}

/// The packed value of a pixel is `blue | green << 8 | red << 16`, whatever
/// its alpha.
pub proof fn lemma_alpha_is_dropped(red: u8, green: u8, blue: u8, alpha: u8, other: u8)
    ensures
        packed_pixel(seq![red, green, blue, alpha]) == (blue as u32) | ((green as u32) << 8) | ((
        red as u32) << 16),
        packed_pixel(seq![red, green, blue, alpha]) == packed_pixel(
            seq![red, green, blue, other],
        ),
{
}

/// Widens a channel to the integer that pixels are packed in, checking its
/// range on the way.
fn widen(channel: u8) -> (wide: Result<u32, Error>)
    ensures
        wide == Ok::<u32, Error>(channel as u32),
{
    match u32::try_from(channel) {
        Ok(wide) => Ok(wide),
        Err(_) => Err(Error::SizeConversionError),
    }
}

/// Packs one pixel, given as red, green, blue, alpha, leaving the alpha out.
pub fn pack_pixel(pixel: [u8; 4]) -> (value: Result<u32, Error>)
    ensures
        value == Ok::<u32, Error>(packed_pixel(pixel@)),
{
    let red = match widen(pixel[0]) {
        Ok(red) => red,
        Err(error) => return Err(error),
    };
    let green = match widen(pixel[1]) {
        Ok(green) => green,
        Err(error) => return Err(error),
    };
    let blue = match widen(pixel[2]) {
        Ok(blue) => blue,
        Err(error) => return Err(error),
    };
    Ok(blue | (green << 8) | (red << 16))
}

/// What a window shows: its inner size in pixels and one packed value per
/// pixel.
pub struct Frame {
    pub width: nat,
    pub height: nat,
    pub pixels: Seq<u32>,
}

impl Frame {
    /// There is one value for each pixel of the inner size.
    pub open spec fn well_formed(self) -> bool {
        self.pixels.len() == self.width * self.height
    }
}

/// Where a window stands among the others.
#[derive(Debug, Clone, Copy, PartialEq, Eq, Structural)]
pub enum WindowLevel {
    AlwaysOnBottom,
    Normal,
    AlwaysOnTop,
}

/// The buttons of a title bar that can be used.
#[derive(Debug, Clone, Copy, PartialEq, Eq, Structural)]
pub struct WindowButtons {
    pub close: bool,
    pub minimize: bool,
    pub maximize: bool,
}

/// How the window is asked for.
#[derive(Debug, Clone, Copy, PartialEq, Eq, Structural)]
pub struct WindowAttributes {
    /// Width of the inner area, in physical pixels.
    pub inner_width: u16,
    /// Height of the inner area, in physical pixels.
    pub inner_height: u16,
    pub resizable: bool,
    pub decorations: bool,
    pub window_level: WindowLevel,
    pub enabled_buttons: WindowButtons,
}

/// The window of an image: decorated, of the image's size and not resizable,
/// above all normal windows, with only its close button in use.
pub open spec fn image_window_attributes(width: u16, height: u16) -> WindowAttributes {
    WindowAttributes {
        inner_width: width,
        inner_height: height,
        resizable: false,
        decorations: true,
        window_level: WindowLevel::AlwaysOnTop,
        enabled_buttons: WindowButtons { close: true, minimize: false, maximize: false },
    }
}

/// A window that is yet to be opened, with the frame it will show.
pub struct WindowRequest {
    buffer: Vec<u32>,
    width: u16,
    height: u16,
}

impl View for WindowRequest {
    type V = Frame;

    closed spec fn view(&self) -> Frame {
        Frame { width: self.width as nat, height: self.height as nat, pixels: self.buffer@ }
    }
}

impl WindowRequest {
    #[verifier::type_invariant]
    spec fn inv(self) -> bool {
        self@.well_formed()
    }

    /// The width of the inner area.
    pub fn width(&self) -> (width: u16)
        ensures
            width == self@.width,
    {
        self.width
    }

    /// The height of the inner area.
    pub fn height(&self) -> (height: u16)
        ensures
            height == self@.height,
    {
        self.height
    }

    /// The packed pixels to show, one per pixel of the inner area.
    pub fn buffer(&self) -> (buffer: &Vec<u32>)
        ensures
            buffer@ == self@.pixels,
            self@.well_formed(),
    {
        proof {
            use_type_invariant(self);
        }
        &self.buffer
    }

    /// How to ask the windowing system for this window.
    pub fn attributes(&self) -> (attributes: WindowAttributes)
        ensures
            self@.width <= u16::MAX,
            self@.height <= u16::MAX,
            attributes == image_window_attributes(self@.width as u16, self@.height as u16),
    {
        WindowAttributes {
            inner_width: self.width,
            inner_height: self.height,
            resizable: false,
            decorations: true,
            window_level: WindowLevel::AlwaysOnTop,
            enabled_buttons: WindowButtons { close: true, minimize: false, maximize: false },
        }
    }

    /// The window once the windowing system has opened it under `window_id`.
    pub fn opened(self, window_id: u64) -> (window: ImageWindow)
        ensures
            window@ == (WindowState { frame: self@, window_id, closed: false }),
    {
        ImageWindow { request: self, window_id, closed: false }
    }
}

/// Asks for the window that shows `buffer` on an inner area of `width` by
/// `height` pixels.
pub fn open_image_window(buffer: Vec<u32>, width: u16, height: u16) -> (request: WindowRequest)
    requires
        buffer@.len() == width * height,
    ensures
        request@ == (Frame { width: width as nat, height: height as nat, pixels: buffer@ }),
{
    WindowRequest { buffer, width, height }
}

/// Packs the pixels of `image` and asks for the window that shows them. No
/// window is asked for if a dimension of the image is beyond 16 bits.
pub fn open_rgba(image: RgbaImage) -> (result: Result<WindowRequest, Error>)
    ensures
        image@.width > u16::MAX || image@.height > u16::MAX ==> result == Err::<
            WindowRequest,
            Error,
        >(Error::SizeConversionError),
        image@.width <= u16::MAX && image@.height <= u16::MAX ==> result is Ok && result->Ok_0@
            == (Frame { width: image@.width, height: image@.height, pixels: packed_frame(image@) }),
        result is Ok ==> result->Ok_0@.well_formed(),
{
    let width = match u16::try_from(image.width()) {
        Ok(width) => width,
        Err(_) => return Err(Error::SizeConversionError),
    };
    let height = match u16::try_from(image.height()) {
        Ok(height) => height,
        Err(_) => return Err(Error::SizeConversionError),
    };
    let pixels = image.pixels();
    let mut buffer: Vec<u32> = Vec::new();
    let mut i: usize = 0;
    while i < pixels.len()
        invariant
            i <= pixels@.len(),
            buffer@.len() == i,
            forall|j: int| 0 <= j < i ==> #[trigger] buffer@[j] == packed_pixel(pixels@[j]@),
        decreases pixels@.len() - i,
    {
        let value = match pack_pixel(pixels[i]) {
            Ok(value) => value,
            Err(error) => return Err(error),
        };
        buffer.push(value);
        i += 1;
    }
    assert(buffer@ =~= packed_frame(image@));
    Ok(open_image_window(buffer, width, height))
}

/// What the windowing system reports, as far as the window cares.
#[derive(Debug, Clone, Copy, PartialEq, Eq, Structural)]
pub enum Event {
    /// The window with this id has to be drawn again.
    RedrawRequested(u64),
    /// The user asked to close the window with this id.
    CloseRequested(u64),
    /// Anything else.
    Other,
}

/// What to do after an event.
#[derive(Debug, Clone, Copy, PartialEq, Eq, Structural)]
pub enum Action {
    /// Nothing: wait for the next event.
    Wait,
    /// Copy the frame to the surface and present it, then wait.
    Present,
    /// Leave the event loop.
    Exit,
}

/// The state of a window that shows an image.
pub struct WindowState {
    pub frame: Frame,
    pub window_id: u64,
    pub closed: bool,
}

impl WindowState {
    /// What the window does on `event`: it draws its frame when asked to
    /// redraw, leaves when asked to close, and ignores the rest, all of this
    /// for events of its own only. Once closed it does nothing but leave.
    pub open spec fn reaction(self, event: Event) -> Action {
        if self.closed || event == Event::CloseRequested(self.window_id) {
            Action::Exit
        } else if event == Event::RedrawRequested(self.window_id) {
            Action::Present
        } else {
            Action::Wait
        }
    }

    /// The window after `event`: closed if it was, or if it was asked to close.
    pub open spec fn step(self, event: Event) -> WindowState {
        WindowState {
            closed: self.closed || event == Event::CloseRequested(self.window_id),
            ..self
        }
    }

    /// The window after `events`, one after the other.
    pub open spec fn run(self, events: Seq<Event>) -> WindowState
        decreases events.len(),
    {
        if events.len() == 0 {
            self
        } else {
            self.run(events.drop_last()).step(events.last())
        }
    }

    /// `events` holds a request to close this window.
    pub open spec fn close_requested(self, events: Seq<Event>) -> bool {
        exists|i: int|
            0 <= i < events.len() && #[trigger] events[i] == Event::CloseRequested(self.window_id)
    }

    /// What the window does on event `i` of `events`, having seen those
    /// before it.
    pub open spec fn action_at(self, events: Seq<Event>, i: int) -> Action {
        self.run(events.take(i)).reaction(events[i])
    }
}

/// Events change nothing of a window but whether it is closed, and it is
/// closed after them exactly if it was before or one of them asked for it.
pub proof fn lemma_run(window: WindowState, events: Seq<Event>)
    ensures
        window.run(events) == (WindowState {
            closed: window.closed || window.close_requested(events),
            ..window
        }),
    decreases events.len(),
{
    if events.len() > 0 {
        let before = events.drop_last();
        lemma_run(window, before);
        let close = Event::CloseRequested(window.window_id);
        if window.close_requested(before) {
            let i = choose|i: int| 0 <= i < before.len() && #[trigger] before[i] == close;
            assert(events[i] == close);
        }
        if events.last() == close {
            assert(events[events.len() - 1] == close);
        }
        if window.close_requested(events) {
            let i = choose|i: int| 0 <= i < events.len() && #[trigger] events[i] == close;
            if i < before.len() {
                assert(before[i] == close);
            }
        }
    }
}

/// Redrawing is idempotent: after any number of redraw requests the window
/// is as it was, frame included, and while it is open each request for its
/// own redraw is answered by presenting that same frame.
pub proof fn lemma_redraws_change_nothing(window: WindowState, events: Seq<Event>)
    requires
        forall|i: int| 0 <= i < events.len() ==> #[trigger] events[i] is RedrawRequested,
    ensures
        window.run(events) == window,
        forall|i: int|
            0 <= i < events.len() ==> window.run(events.take(i)) == window
                && #[trigger] window.action_at(events, i) == window.reaction(events[i]),
        !window.closed ==> window.reaction(Event::RedrawRequested(window.window_id))
            == Action::Present,
{
    lemma_run(window, events);
    assert forall|i: int| 0 <= i < events.len() implies window.run(events.take(i)) == window
        && #[trigger] window.action_at(events, i) == window.reaction(events[i]) by {
        let seen = events.take(i);
        lemma_run(window, seen);
        assert(forall|j: int| 0 <= j < seen.len() ==> seen[j] == events[j]);
    }
}

/// The frame of a window is the same after any events.
pub proof fn lemma_frame_never_changes(window: WindowState, events: Seq<Event>)
    ensures
        window.run(events).frame == window.frame,
        window.run(events).window_id == window.window_id,
{
    lemma_run(window, events);
}

/// An open window leaves the event loop on the request to close it and on
/// nothing else: its answer to an event is to leave exactly if that event or
/// one before it asked to close this window, so the first such request is the
/// one point at which the loop ends.
pub proof fn lemma_exit_only_on_close_request(window: WindowState, events: Seq<Event>)
    requires
        !window.closed,
    ensures
        window.run(events).closed <==> window.close_requested(events),
        forall|i: int|
            0 <= i < events.len() ==> (#[trigger] window.action_at(events, i) == Action::Exit
                <==> window.close_requested(events.take(i + 1))),
{
    lemma_run(window, events);
    let close = Event::CloseRequested(window.window_id);
    assert forall|i: int| 0 <= i < events.len() implies (#[trigger] window.action_at(events, i)
        == Action::Exit <==> window.close_requested(events.take(i + 1))) by {
        let seen = events.take(i);
        let upto = events.take(i + 1);
        lemma_run(window, seen);
        if window.close_requested(seen) {
            let j = choose|j: int| 0 <= j < seen.len() && #[trigger] seen[j] == close;
            assert(upto[j] == close);
        }
        if events[i] == close {
            assert(upto[i] == close);
        }
        if window.close_requested(upto) {
            let j = choose|j: int| 0 <= j < upto.len() && #[trigger] upto[j] == close;
            if j < i {
                assert(seen[j] == close);
            }
        }
    }
}

/// A window that shows an image until the user closes it.
pub struct ImageWindow {
    request: WindowRequest,
    window_id: u64,
    closed: bool,
}

impl View for ImageWindow {
    type V = WindowState;

    closed spec fn view(&self) -> WindowState {
        WindowState { frame: self.request@, window_id: self.window_id, closed: self.closed }
    }
}

impl ImageWindow {
    /// The id under which the windowing system knows this window.
    pub fn window_id(&self) -> (id: u64)
        ensures
            id == self@.window_id,
    {
        self.window_id
    }

    /// Whether the user has closed the window.
    pub fn is_closed(&self) -> (closed: bool)
        ensures
            closed == self@.closed,
    {
        self.closed
    }

    /// The width of the inner area.
    pub fn width(&self) -> (width: u16)
        ensures
            width == self@.frame.width,
    {
        self.request.width()
    }

    /// The height of the inner area.
    pub fn height(&self) -> (height: u16)
        ensures
            height == self@.frame.height,
    {
        self.request.height()
    }

    /// The packed pixels that the window shows on every redraw, one per pixel
    /// of the inner area.
    pub fn buffer(&self) -> (buffer: &Vec<u32>)
        ensures
            buffer@ == self@.frame.pixels,
            self@.frame.well_formed(),
    {
        self.request.buffer()
    }

    /// Takes one event and says what to do. The frame stays as it is.
    pub fn handle_event(&mut self, event: Event) -> (action: Action)
        ensures
            action == old(self)@.reaction(event),
            final(self)@ == old(self)@.step(event),
    {
        if self.closed {
            return Action::Exit;
        }
        match event {
            Event::CloseRequested(id) => {
                if id == self.window_id {
                    self.closed = true;
                    Action::Exit
                } else {
                    Action::Wait
                }
            },
            Event::RedrawRequested(id) => {
                if id == self.window_id {
                    Action::Present
                } else {
                    Action::Wait
                }
            },
            Event::Other => Action::Wait,
        }
    }
}

} // verus!
