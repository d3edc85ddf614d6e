//! A music-video player: plays a bit-packed monochrome video asset frame by
//! frame, one draw callback per frame, with a sound started when the screen
//! opens.

use vstd::arithmetic::div_mod::lemma_fundamental_div_mod_converse;
use vstd::prelude::*;

use crate::codec::{VideoFile, spec_frame_count, spec_height, spec_pixel, spec_width};
use crate::game::{ClickType, Game};
use crate::host::{Call, Canvas, CanvasView, Screen, ScreenView, SoundCategory};

verus! {

pub const BLACK_LOWEST: i32 = 119;

pub const BLACK_LOW: i32 = 116;

pub const BLACK_NORMAL: i32 = 117;

pub const BLACK_HIGH: i32 = 118;

pub const WHITE_LOWEST: i32 = 35;

pub const WHITE_LOW: i32 = 32;

pub const WHITE_NORMAL: i32 = 33;

pub const WHITE_HIGH: i32 = 34;

/// The bit pattern of the 32-bit binary floating-point value one, handed to
/// the host as a neutral volume and pitch.
pub const UNIT_F32_BITS: u32 = 0x3F80_0000;

/// The raw palette color for a 4-bit sample: the low four sample values map
/// to ever-lighter blacks, the rest to whites.
pub open spec fn spec_raw_color(pixel: u8) -> i32 {
    match pixel {
        0u8 => BLACK_LOWEST,
        1u8 => BLACK_LOW,
        2u8 => BLACK_NORMAL,
        3u8 => BLACK_HIGH,
        4u8 => WHITE_LOWEST,
        5u8 => WHITE_LOW,
        6u8 => WHITE_NORMAL,
        _ => WHITE_HIGH,
    }
}

/// The raw palette color of the video sample at `(frame, x, y)`.
///
/// As with [`VideoFile::get_pixel`], the caller must keep the coordinates
/// in range.
pub fn get_raw_color(file: &VideoFile, frame: u32, x: u32, y: u32) -> (r: i32)
    requires
        frame < spec_frame_count(file@),
        x < spec_width(file@),
        y < spec_height(file@),
    ensures
        r == spec_raw_color(spec_pixel(file@, frame, x, y)),
{
    let pixel = file.get_pixel(frame, x, y);
    match pixel {
        0u8 => BLACK_LOWEST,
        1u8 => BLACK_LOW,
        2u8 => BLACK_NORMAL,
        3u8 => BLACK_HIGH,
        4u8 => WHITE_LOWEST,
        5u8 => WHITE_LOW,
        6u8 => WHITE_NORMAL,
        _ => WHITE_HIGH,
    }
}

/// The frame the player paints when its counter stands at `counter`: the
/// counter clamped into `[0, frame_count]`, where the top value means the
/// video is over and nothing is painted.
pub open spec fn spec_clamped_frame(counter: i32, frame_count: int) -> int {
    if counter < 0 {
        0
    } else if counter > frame_count {
        frame_count
    } else {
        counter as int
    }
}

/// The pixel writes that painting `frame` onto a canvas of the given
/// dimensions records, in x-major, y-minor order, each frame coordinate
/// scaled by the frame-to-canvas ratio.
pub open spec fn spec_frame_calls(
    video: Seq<u8>,
    frame: u32,
    canvas_width: u32,
    canvas_height: u32,
) -> Seq<Call> {
    Seq::new(
        (spec_width(video) * spec_height(video)) as nat,
        |k: int|
            {
                let x = k / (spec_height(video) as int);
                let y = k % (spec_height(video) as int);
                Call::SetRaw {
                    x: (x * spec_width(video) / (canvas_width as int)) as i32,
                    y: (y * spec_height(video) / (canvas_height as int)) as i32,
                    color: spec_raw_color(spec_pixel(video, frame, x as u32, y as u32)),
                }
            },
    )
}

/// The video-player game: a frame counter over a video asset.
pub struct BadApple {
    frame_counter: i32,
    video: VideoFile,
}

impl BadApple {
    /// The bytes of the asset being played.
    pub closed spec fn spec_video(self) -> Seq<u8> {
        self.video@
    }

    /// The current frame counter.
    pub closed spec fn spec_counter(self) -> i32 {
        self.frame_counter
    }

    /// A player for the given asset, positioned at its first frame.
    pub fn with_video(video: VideoFile) -> (r: BadApple)
        ensures
            r.spec_video() == video@,
            r.spec_counter() == 0,
    {
        BadApple { frame_counter: 0, video }
    }
}

impl Game for BadApple {
    /// Initialization never fails and yields a player at frame zero with
    /// no asset loaded (the one-pixel placeholder header).
    open spec fn initialize_post(persisted: Seq<u8>, r: Result<Self, crate::MtgError>) -> bool {
        r matches Ok(player) && player.spec_counter() == 0 && player.spec_video() == seq![
            1u8,
            1u8,
        ]
    }

    /// A player with no asset loaded — a one-pixel frame header and no
    /// frame data, so the first draw closes at once — which never fails.
    /// The shell swaps in the real asset by building the player through
    /// [`BadApple::with_video`].
    fn initialize(persisted: Vec<u8>) -> (r: Result<Self, crate::MtgError>) {
        let mut data: Vec<u8> = Vec::new();
        data.push(1u8);
        data.push(1u8);
        proof {
            assert(data@ =~= seq![1u8, 1u8]);
        }
        match VideoFile::new(data) {
            Some(video) => Ok(BadApple { frame_counter: 0, video }),
            None => unreached(),
        }
    }

    /// One draw paints the frame the counter points at, clamped into the
    /// asset (or nothing when the video is over), advances the counter —
    /// saturating at the top of its range — and ends the session exactly
    /// when the advanced counter has passed the last frame.
    open spec fn draw_post(
        pre: Self,
        post: Self,
        pre_screen: ScreenView,
        post_screen: ScreenView,
        pre_canvas: CanvasView,
        post_canvas: CanvasView,
    ) -> bool {
        let fc = spec_frame_count(pre.spec_video());
        let frame = spec_clamped_frame(pre.spec_counter(), fc);
        &&& post.spec_video() == pre.spec_video()
        &&& post.spec_counter() == if pre.spec_counter() == i32::MAX {
            i32::MAX
        } else {
            (pre.spec_counter() + 1) as i32
        }
        &&& post_canvas == (CanvasView {
            calls: if frame < fc {
                pre_canvas.calls + spec_frame_calls(
                    pre.spec_video(),
                    frame as u32,
                    pre_canvas.width,
                    pre_canvas.height,
                )
            } else {
                pre_canvas.calls
            },
            ..pre_canvas
        })
        &&& post_screen == (ScreenView {
            calls: if post.spec_counter() >= fc {
                pre_screen.calls.push(Call::CloseApp)
            } else {
                pre_screen.calls
            },
            ..pre_screen
        })
    }

    /// Draws the frame the counter points at (clamped into the asset),
    /// advances the counter, and ends the session once the video is over.
    fn draw(&mut self, screen: &mut Screen, canvas: &mut Canvas) {
        proof {
            use_type_invariant(&self.video);
        }
        let fc = self.video.frame_count();
        let frame: i32 = if self.frame_counter < 0 {
            0
        } else if self.frame_counter > fc {
            fc
        } else {
            self.frame_counter
        };
        let canvas_width = canvas.get_width();
        let canvas_height = canvas.get_height();
        let ghost calls0 = canvas@.calls;
        let ghost frame_seq = spec_frame_calls(self.video@, frame as u32, canvas_width, canvas_height);
        // past the last frame there is nothing to draw; the close below ends
        // the session
        if frame < fc {
            let w = self.video.width();
            let h = self.video.height();
            let mut x: u32 = 0;
            proof {
                assert(frame_seq.take(0) =~= Seq::<Call>::empty());
                assert(calls0 + frame_seq.take(0) =~= calls0);
            }
            while x < w
                invariant
                    x <= w,
                    frame >= 0,
                    frame < spec_frame_count(self.video@),
                    w == spec_width(self.video@),
                    h == spec_height(self.video@),
                    1 <= w <= 255,
                    1 <= h <= 255,
                    1 <= canvas_width,
                    1 <= canvas_height,
                    canvas.wf(),
                    frame_seq == spec_frame_calls(
                        self.video@,
                        frame as u32,
                        canvas_width,
                        canvas_height,
                    ),
                    canvas@.width == canvas_width,
                    canvas@.height == canvas_height,
                    canvas@.calls == calls0 + frame_seq.take(x as int * h as int),
                decreases w - x,
            {
                let mut y: u32 = 0;
                while y < h
                    invariant
                        x < w,
                        y <= h,
                        frame >= 0,
                        frame < spec_frame_count(self.video@),
                        w == spec_width(self.video@),
                        h == spec_height(self.video@),
                        1 <= w <= 255,
                        1 <= h <= 255,
                        1 <= canvas_width,
                        1 <= canvas_height,
                        canvas.wf(),
                        frame_seq == spec_frame_calls(
                            self.video@,
                            frame as u32,
                            canvas_width,
                            canvas_height,
                        ),
                        canvas@.width == canvas_width,
                        canvas@.height == canvas_height,
                        canvas@.calls == calls0 + frame_seq.take(x as int * h as int + y as int),
                    decreases h - y,
                {
                    let color = get_raw_color(&self.video, frame as u32, x, y);
                    let ghost k: int = x as int * h as int + y as int;
                    proof {
                        assert(x * w <= 255 * 255 && y * h <= 255 * 255 && k + 1 <= w as int
                            * h as int) by (nonlinear_arith)
                            requires
                                k == x as int * h as int + y as int,
                                x < w <= 255,
                                y < h <= 255,
                        ;
                        lemma_fundamental_div_mod_converse(k, h as int, x as int, y as int);
                        assert(frame_seq.take(k + 1) =~= frame_seq.take(k).push(frame_seq[k]));
                    }
                    canvas.set_pixel_raw(x * w / canvas_width, y * h / canvas_height, color);
                    proof {
                        assert(canvas@.calls =~= calls0 + frame_seq.take(k + 1));
                    }
                    y = y + 1;
                }
                proof {
                    assert((x as int + 1) * (h as int) == x as int * h as int
                        + h as int) by (nonlinear_arith);
                }
                x = x + 1;
            }
            proof {
                assert(frame_seq.take(w as int * h as int) =~= frame_seq);
            }
        }
        if self.frame_counter < i32::MAX {
            self.frame_counter = self.frame_counter + 1;
        }
        if self.frame_counter >= fc {
            screen.close();
        }
    }

    /// Clicks do nothing and are never consumed.
    open spec fn on_click_post(
        pre: Self,
        post: Self,
        pre_screen: ScreenView,
        post_screen: ScreenView,
        click_type: ClickType,
        x: i32,
        y: i32,
        consumed: bool,
    ) -> bool {
        !consumed && post == pre && post_screen == pre_screen
    }

    /// Clicks do nothing during playback.
    fn on_click(&mut self, screen: &mut Screen, click_type: ClickType, x: i32, y: i32) -> (r:
        bool) {
        false
    }

    /// Opening the screen rewinds the counter a little past the start and
    /// records exactly one sound event, the video's sound track.
    open spec fn screen_open_post(
        pre: Self,
        post: Self,
        pre_screen: ScreenView,
        post_screen: ScreenView,
    ) -> bool {
        &&& post.spec_video() == pre.spec_video()
        &&& post.spec_counter() == -5
        &&& post_screen == (ScreenView {
            calls: pre_screen.calls.push(
                Call::PlaySound {
                    id: "mini_tardis:bad_apple"@,
                    category: SoundCategory::Records,
                    volume_bits: UNIT_F32_BITS,
                    pitch_bits: UNIT_F32_BITS,
                },
            ),
            ..pre_screen
        })
    }

    /// Rewinds a little past the start, so the first frames line up with
    /// the sound starting, and plays the video's sound track.
    fn screen_open(&mut self, screen: &mut Screen) {
        self.frame_counter = -5;
        screen.play_sound(
            "mini_tardis:bad_apple",
            SoundCategory::Records,
            UNIT_F32_BITS,
            UNIT_F32_BITS,
        );
    }

    /// Closing the screen rewinds to the start and records nothing.
    open spec fn screen_close_post(
        pre: Self,
        post: Self,
        pre_screen: ScreenView,
        post_screen: ScreenView,
    ) -> bool {
        post.spec_video() == pre.spec_video() && post.spec_counter() == 0 && post_screen
            == pre_screen
    }

    /// Rewinds to the start for the next viewing.
    fn screen_close(&mut self, screen: &mut Screen) {
        self.frame_counter = 0;
    }
}

} // verus!
