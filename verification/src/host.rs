//! The guest's view of the host: recorded host calls and the capability
//! handles that produce them.
//!
//! The guest never reaches the host directly. During a callback the game
//! object receives a [`Screen`] and, for draw callbacks, a [`Canvas`]; every
//! operation on them appends one [`HostCall`] to an internal log. The module
//! shell around the library drains the log after the callback returns and
//! performs each call against the real host, in order. Host values that a
//! callback consumes (canvas dimensions, random numbers) are gathered by the
//! shell beforehand and seeded into the capability handles.

use vstd::prelude::*;
use vstd::string::StringExecFns;

verus! {

/// A level of importance for a log message, carried across the boundary as
/// the small integer given by [`LogLevel::code`].
#[derive(Debug, Clone, Copy, PartialEq, Eq, PartialOrd, Ord)]
pub enum LogLevel {
    Error,
    Warn,
    Info,
    Debug,
    Trace,
}

impl LogLevel {
    /// The boundary integer for this level.
    pub open spec fn spec_code(self) -> i32 {
        match self {
            LogLevel::Error => 40,
            LogLevel::Warn => 30,
            LogLevel::Info => 20,
            LogLevel::Debug => 10,
            LogLevel::Trace => 0,
        }
    }

    /// Encodes this level as its boundary integer.
    pub fn code(self) -> (r: i32)
        ensures
            r == self.spec_code(),
    {
        match self {
            LogLevel::Error => 40,
            LogLevel::Warn => 30,
            LogLevel::Info => 20,
            LogLevel::Debug => 10,
            LogLevel::Trace => 0,
        }
    }
}

/// A category for a sound event, carried across the boundary as the small
/// integer given by [`SoundCategory::code`].
#[derive(Debug, Clone, Copy, PartialEq, Eq)]
pub enum SoundCategory {
    Master,
    Music,
    Records,
    Weather,
    Blocks,
    Hostile,
    Neutral,
    Players,
    Ambient,
    Voice,
}

impl SoundCategory {
    /// The boundary integer for this category.
    pub open spec fn spec_code(self) -> i32 {
        match self {
            SoundCategory::Master => 0,
            SoundCategory::Music => 1,
            SoundCategory::Records => 2,
            SoundCategory::Weather => 3,
            SoundCategory::Blocks => 4,
            SoundCategory::Hostile => 5,
            SoundCategory::Neutral => 6,
            SoundCategory::Players => 7,
            SoundCategory::Ambient => 8,
            SoundCategory::Voice => 9,
        }
    }

    /// Encodes this category as its boundary integer.
    pub fn code(self) -> (r: i32)
        ensures
            r == self.spec_code(),
    {
        match self {
            SoundCategory::Master => 0,
            SoundCategory::Music => 1,
            SoundCategory::Records => 2,
            SoundCategory::Weather => 3,
            SoundCategory::Blocks => 4,
            SoundCategory::Hostile => 5,
            SoundCategory::Neutral => 6,
            SoundCategory::Players => 7,
            SoundCategory::Ambient => 8,
            SoundCategory::Voice => 9,
        }
    }
}

/// One call into the host, recorded by a capability handle.
///
/// Coordinates and sizes are already narrowed to the boundary's 32-bit
/// signed width; colors given as raw 32-bit values keep their unsigned form
/// and are reinterpreted bit-for-bit at the boundary. Sound volume and pitch
/// travel as raw bit patterns of the host's 32-bit binary floating-point
/// values; the library never interprets them.
#[derive(Debug, PartialEq)]
#[allow(inconsistent_fields)]
pub enum HostCall {
    Log { level: LogLevel, message: String },
    SavePersistentData { data: Vec<u8> },
    PlaySound { id: String, category: SoundCategory, volume_bits: u32, pitch_bits: u32 },
    CloseApp,
    SetRaw { x: i32, y: i32, color: i32 },
    SetRgb { x: i32, y: i32, color: u32 },
    SetArgb { x: i32, y: i32, color: u32 },
    DrawInbuiltSprite { x: i32, y: i32, name: String },
    DrawText { x: i32, y: i32, text: String, size: i32, argb: u32 },
}

/// The mathematical image of one recorded host call.
#[allow(inconsistent_fields)]
pub ghost enum Call {
    Log { level: LogLevel, message: Seq<char> },
    SavePersistentData { data: Seq<u8> },
    PlaySound { id: Seq<char>, category: SoundCategory, volume_bits: u32, pitch_bits: u32 },
    CloseApp,
    SetRaw { x: i32, y: i32, color: i32 },
    SetRgb { x: i32, y: i32, color: u32 },
    SetArgb { x: i32, y: i32, color: u32 },
    DrawInbuiltSprite { x: i32, y: i32, name: Seq<char> },
    DrawText { x: i32, y: i32, text: Seq<char>, size: i32, argb: u32 },
}

impl View for HostCall {
    type V = Call;

    open spec fn view(&self) -> Call {
        match self {
            HostCall::Log { level, message } => Call::Log { level: *level, message: message@ },
            HostCall::SavePersistentData { data } => Call::SavePersistentData { data: data@ },
            HostCall::PlaySound { id, category, volume_bits, pitch_bits } => Call::PlaySound {
                id: id@,
                category: *category,
                volume_bits: *volume_bits,
                pitch_bits: *pitch_bits,
            },
            HostCall::CloseApp => Call::CloseApp,
            HostCall::SetRaw { x, y, color } => Call::SetRaw { x: *x, y: *y, color: *color },
            HostCall::SetRgb { x, y, color } => Call::SetRgb { x: *x, y: *y, color: *color },
            HostCall::SetArgb { x, y, color } => Call::SetArgb { x: *x, y: *y, color: *color },
            HostCall::DrawInbuiltSprite { x, y, name } => Call::DrawInbuiltSprite {
                x: *x,
                y: *y,
                name: name@,
            },
            HostCall::DrawText { x, y, text, size, argb } => Call::DrawText {
                x: *x,
                y: *y,
                text: text@,
                size: *size,
                argb: *argb,
            },
        }
    }
}

/// The image of a whole recorded log.
pub open spec fn calls_view(calls: Seq<HostCall>) -> Seq<Call> {
    calls.map_values(|c: HostCall| c@)
}

proof fn lemma_calls_view_push(calls: Seq<HostCall>, c: HostCall)
    ensures
        calls_view(calls.push(c)) == calls_view(calls).push(c@),
{
    assert(calls_view(calls.push(c)) =~= calls_view(calls).push(c@));
}

/// The mathematical image of a [`Screen`].
pub ghost struct ScreenView {
    /// Host randomness seeded by the module shell, consumed from the back.
    pub entropy: Seq<i32>,
    /// The host calls recorded so far, oldest first.
    pub calls: Seq<Call>,
}

/// A console screen, available in every callback.
///
/// The shell constructs a fresh `Screen` per callback, seeded with any host
/// randomness the callback may consume, and performs the recorded calls
/// after the callback returns.
pub struct Screen {
    entropy: Vec<i32>,
    calls: Vec<HostCall>,
}

impl View for Screen {
    type V = ScreenView;

    closed spec fn view(&self) -> ScreenView {
        ScreenView { entropy: self.entropy@, calls: calls_view(self.calls@) }
    }
}

impl Screen {
    /// A fresh screen with an empty call log and the given randomness.
    pub fn new(entropy: Vec<i32>) -> (r: Screen)
        ensures
            r@ == (ScreenView { entropy: entropy@, calls: Seq::<Call>::empty() }),
    {
        let r = Screen { entropy, calls: Vec::new() };
        proof {
            assert(r@.calls =~= Seq::<Call>::empty());
        }
        r
    }

    /// A pseudorandom 32-bit integer.
    ///
    /// Hands out the seeded host randomness, most recently seeded first, and
    /// zero once the seed is exhausted.
    pub fn random_i32(&mut self) -> (r: i32)
        ensures
            final(self)@.calls == old(self)@.calls,
            old(self)@.entropy.len() > 0 ==> r == old(self)@.entropy.last()
                && final(self)@.entropy == old(self)@.entropy.drop_last(),
            old(self)@.entropy.len() == 0 ==> r == 0 && final(self)@.entropy == old(self)@.entropy,
    {
        match self.entropy.pop() {
            Some(v) => v,
            None => 0,
        }
    }

    /// Records a log message at the given level.
    pub fn log(&mut self, message: &str, level: LogLevel)
        ensures
            final(self)@ == (ScreenView {
                calls: old(self)@.calls.push(Call::Log { level, message: message@ }),
                ..old(self)@
            }),
    {
        let owned = String::from_str(message);
        let c = HostCall::Log { level, message: owned };
        proof {
            lemma_calls_view_push(self.calls@, c);
        }
        self.calls.push(c);
    }

    /// Records a sound event with the given category, volume and pitch.
    ///
    /// `volume_bits` and `pitch_bits` are the raw bit patterns of the host's
    /// 32-bit binary floating-point values; they pass through untouched.
    pub fn play_sound(&mut self, id: &str, category: SoundCategory, volume_bits: u32, pitch_bits: u32)
        ensures
            final(self)@ == (ScreenView {
                calls: old(self)@.calls.push(Call::PlaySound {
                    id: id@,
                    category,
                    volume_bits,
                    pitch_bits,
                }),
                ..old(self)@
            }),
    {
        let owned = String::from_str(id);
        let c = HostCall::PlaySound { id: owned, category, volume_bits, pitch_bits };
        proof {
            lemma_calls_view_push(self.calls@, c);
        }
        self.calls.push(c);
    }

    /// Records a whole-blob write of the persistent store.
    pub fn save_persistent_data(&mut self, data: &[u8])
        ensures
            final(self)@ == (ScreenView {
                calls: old(self)@.calls.push(Call::SavePersistentData { data: data@ }),
                ..old(self)@
            }),
    {
        let owned = vstd::slice::slice_to_vec(data);
        let c = HostCall::SavePersistentData { data: owned };
        proof {
            lemma_calls_view_push(self.calls@, c);
        }
        self.calls.push(c);
    }

    /// Records the end of this session.
    ///
    /// The shell stops performing recorded calls once it reaches this one
    /// and yields control to the host for good; the guest is not re-entered
    /// except by a fresh top-level event.
    pub fn close(&mut self)
        ensures
            final(self)@ == (ScreenView {
                calls: old(self)@.calls.push(Call::CloseApp),
                ..old(self)@
            }),
    {
        let c = HostCall::CloseApp;
        proof {
            lemma_calls_view_push(self.calls@, c);
        }
        self.calls.push(c);
    }

    /// Hands the recorded calls to the shell and empties the log.
    pub fn take_calls(&mut self) -> (r: Vec<HostCall>)
        ensures
            calls_view(r@) == old(self)@.calls,
            final(self)@ == (ScreenView { calls: Seq::<Call>::empty(), ..old(self)@ }),
    {
        let mut out: Vec<HostCall> = Vec::new();
        core::mem::swap(&mut out, &mut self.calls);
        proof {
            assert(calls_view(Seq::<HostCall>::empty()) =~= Seq::<Call>::empty());
        }
        out
    }
}

/// The mathematical image of a [`Canvas`].
pub ghost struct CanvasView {
    /// The canvas width in pixels, as reported by the host.
    pub width: u32,
    /// The canvas height in pixels, as reported by the host.
    pub height: u32,
    /// The host calls recorded so far, oldest first.
    pub calls: Seq<Call>,
}

/// A drawable canvas, available in draw callbacks.
///
/// The shell asks the host for the dimensions, constructs a fresh `Canvas`
/// per draw callback, and performs the recorded calls after the callback
/// returns.
pub struct Canvas {
    width: u32,
    height: u32,
    calls: Vec<HostCall>,
}

impl View for Canvas {
    type V = CanvasView;

    closed spec fn view(&self) -> CanvasView {
        CanvasView { width: self.width, height: self.height, calls: calls_view(self.calls@) }
    }
}

impl Canvas {
    /// A canvas is well formed when the host reported positive dimensions
    /// that fit the boundary's signed 32-bit width.
    pub open spec fn wf(self) -> bool {
        0 < self@.width <= i32::MAX && 0 < self@.height <= i32::MAX
    }

    /// A fresh canvas with the given dimensions and an empty call log.
    pub fn new(width: u32, height: u32) -> (r: Canvas)
        ensures
            r@ == (CanvasView { width, height, calls: Seq::<Call>::empty() }),
    {
        let r = Canvas { width, height, calls: Vec::new() };
        proof {
            assert(r@.calls =~= Seq::<Call>::empty());
        }
        r
    }

    /// The width of the canvas, usually 128.
    pub fn get_width(&self) -> (r: u32)
        ensures
            r == self@.width,
    {
        self.width
    }

    /// The height of the canvas, usually 96.
    pub fn get_height(&self) -> (r: u32)
        ensures
            r == self@.height,
    {
        self.height
    }

    /// Records a raw palette write at `(x, y)`.
    pub fn set_pixel_raw(&mut self, x: u32, y: u32, color: i32)
        requires
            x <= i32::MAX,
            y <= i32::MAX,
        ensures
            final(self)@ == (CanvasView {
                calls: old(self)@.calls.push(Call::SetRaw { x: x as i32, y: y as i32, color }),
                ..old(self)@
            }),
    {
        let c = HostCall::SetRaw { x: x as i32, y: y as i32, color };
        proof {
            lemma_calls_view_push(self.calls@, c);
        }
        self.calls.push(c);
    }

    /// Records an RGB write at `(x, y)`; the host maps the color to its
    /// nearest palette entry.
    pub fn set_pixel_rgb(&mut self, x: u32, y: u32, color: u32)
        requires
            x <= i32::MAX,
            y <= i32::MAX,
        ensures
            final(self)@ == (CanvasView {
                calls: old(self)@.calls.push(Call::SetRgb { x: x as i32, y: y as i32, color }),
                ..old(self)@
            }),
    {
        let c = HostCall::SetRgb { x: x as i32, y: y as i32, color };
        proof {
            lemma_calls_view_push(self.calls@, c);
        }
        self.calls.push(c);
    }

    /// Records an ARGB write at `(x, y)`; the host maps the color to its
    /// nearest palette entry.
    pub fn set_pixel_argb(&mut self, x: u32, y: u32, color: u32)
        requires
            x <= i32::MAX,
            y <= i32::MAX,
        ensures
            final(self)@ == (CanvasView {
                calls: old(self)@.calls.push(Call::SetArgb { x: x as i32, y: y as i32, color }),
                ..old(self)@
            }),
    {
        let c = HostCall::SetArgb { x: x as i32, y: y as i32, color };
        proof {
            lemma_calls_view_push(self.calls@, c);
        }
        self.calls.push(c);
    }

    /// Records a draw of the named built-in sprite at `(x, y)`.
    pub fn draw_inbuilt_sprite(&mut self, x: u32, y: u32, name: &str)
        requires
            x <= i32::MAX,
            y <= i32::MAX,
        ensures
            final(self)@ == (CanvasView {
                calls: old(self)@.calls.push(Call::DrawInbuiltSprite {
                    x: x as i32,
                    y: y as i32,
                    name: name@,
                }),
                ..old(self)@
            }),
    {
        let owned = String::from_str(name);
        let c = HostCall::DrawInbuiltSprite { x: x as i32, y: y as i32, name: owned };
        proof {
            lemma_calls_view_push(self.calls@, c);
        }
        self.calls.push(c);
    }

    /// Records a text draw at `(x, y)` with the given size and ARGB color.
    ///
    /// The text pointer precedes the coordinates on the wire in one observed
    /// protocol revision and follows them in another; this library fixes the
    /// order coordinates-first, and the shell's boundary layer must agree.
    pub fn draw_text(&mut self, x: u32, y: u32, text: &str, size: u32, argb_color: u32)
        requires
            x <= i32::MAX,
            y <= i32::MAX,
            size <= i32::MAX,
        ensures
            final(self)@ == (CanvasView {
                calls: old(self)@.calls.push(Call::DrawText {
                    x: x as i32,
                    y: y as i32,
                    text: text@,
                    size: size as i32,
                    argb: argb_color,
                }),
                ..old(self)@
            }),
    {
        let owned = String::from_str(text);
        let c = HostCall::DrawText {
            x: x as i32,
            y: y as i32,
            text: owned,
            size: size as i32,
            argb: argb_color,
        };
        proof {
            lemma_calls_view_push(self.calls@, c);
        }
        self.calls.push(c);
    }

    /// Hands the recorded calls to the shell and empties the log.
    pub fn take_calls(&mut self) -> (r: Vec<HostCall>)
        ensures
            calls_view(r@) == old(self)@.calls,
            final(self)@ == (CanvasView { calls: Seq::<Call>::empty(), ..old(self)@ }),
    {
        let mut out: Vec<HostCall> = Vec::new();
        core::mem::swap(&mut out, &mut self.calls);
        proof {
            assert(calls_view(Seq::<HostCall>::empty()) =~= Seq::<Call>::empty());
        }
        out
    }
}

} // verus!
