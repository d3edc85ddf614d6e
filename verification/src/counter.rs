//! A click counter that survives across sessions: each click increments it,
//! each screen close writes it to the host's persistent store as a fixed
//! eight-byte blob, and registration reads it back.

use vstd::bytes::lemma_auto_spec_u64_to_from_le_bytes;
use vstd::bytes::spec_u64_from_le_bytes;
use vstd::bytes::spec_u64_to_le_bytes;
use vstd::bytes::u64_from_le_bytes;
use vstd::bytes::u64_to_le_bytes;
use vstd::prelude::*;
use vstd::string::StringExecFns;
use vstd::string::StringSliceAdditionalSpecFns;

use crate::MtgError;
use crate::game::{ClickType, Game};
use crate::host::{Call, Canvas, CanvasView, Screen, ScreenView};

verus! {

/// The decimal digit character for a value below ten.
pub open spec fn spec_digit_char(d: nat) -> char {
    if d == 0 {
        '0'
    } else if d == 1 {
        '1'
    } else if d == 2 {
        '2'
    } else if d == 3 {
        '3'
    } else if d == 4 {
        '4'
    } else if d == 5 {
        '5'
    } else if d == 6 {
        '6'
    } else if d == 7 {
        '7'
    } else if d == 8 {
        '8'
    } else {
        '9'
    }
}

/// The decimal rendering of a natural number, most significant digit first
/// and without leading zeros (except for zero itself).
pub open spec fn spec_decimal(n: nat) -> Seq<char>
    decreases n,
{
    if n < 10 {
        seq![spec_digit_char(n)]
    } else {
        spec_decimal(n / 10) + seq![spec_digit_char(n % 10)]
    }
}

fn digit_str(d: u64) -> (r: &'static str)
    requires
        d < 10,
    ensures
        r@ == seq![spec_digit_char(d as nat)],
{
    match d {
        0u64 => {
            proof {
                reveal_strlit("0");
                assert("0"@ =~= seq![spec_digit_char(0nat)]);
            }
            "0"
        },
        1u64 => {
            proof {
                reveal_strlit("1");
                assert("1"@ =~= seq![spec_digit_char(1nat)]);
            }
            "1"
        },
        2u64 => {
            proof {
                reveal_strlit("2");
                assert("2"@ =~= seq![spec_digit_char(2nat)]);
            }
            "2"
        },
        3u64 => {
            proof {
                reveal_strlit("3");
                assert("3"@ =~= seq![spec_digit_char(3nat)]);
            }
            "3"
        },
        4u64 => {
            proof {
                reveal_strlit("4");
                assert("4"@ =~= seq![spec_digit_char(4nat)]);
            }
            "4"
        },
        5u64 => {
            proof {
                reveal_strlit("5");
                assert("5"@ =~= seq![spec_digit_char(5nat)]);
            }
            "5"
        },
        6u64 => {
            proof {
                reveal_strlit("6");
                assert("6"@ =~= seq![spec_digit_char(6nat)]);
            }
            "6"
        },
        7u64 => {
            proof {
                reveal_strlit("7");
                assert("7"@ =~= seq![spec_digit_char(7nat)]);
            }
            "7"
        },
        8u64 => {
            proof {
                reveal_strlit("8");
                assert("8"@ =~= seq![spec_digit_char(8nat)]);
            }
            "8"
        },
        _ => {
            proof {
                reveal_strlit("9");
                assert("9"@ =~= seq![spec_digit_char(9nat)]);
            }
            "9"
        },
    }
}

/// Renders a counter value in decimal, exactly as [`spec_decimal`] says.
pub fn u64_to_decimal(n: u64) -> (r: String)
    ensures
        r@ == spec_decimal(n as nat),
        r@.len() >= 1,
    decreases n,
{
    if n < 10 {
        String::from_str(digit_str(n))
    } else {
        let mut s = u64_to_decimal(n / 10);
        s.append(digit_str(n % 10));
        s
    }
}

/// A decimal rendering always has at least one digit.
pub proof fn lemma_decimal_len_pos(n: nat)
    ensures
        spec_decimal(n).len() >= 1,
    decreases n,
{
    if n >= 10 {
        lemma_decimal_len_pos(n / 10);
    }
}

/// Ten to the `k`-th power.
pub open spec fn pow10(k: nat) -> int
    decreases k,
{
    if k == 0 {
        1
    } else {
        10 * pow10((k - 1) as nat)
    }
}

/// A value below ten to the `k`-th renders in at most `k` digits.
pub proof fn lemma_decimal_len_at_most(n: nat, k: nat)
    requires
        k >= 1,
        n < pow10(k),
    ensures
        spec_decimal(n).len() <= k,
    decreases n,
{
    if n >= 10 {
        assert(pow10(1) == 10) by {
            reveal_with_fuel(pow10, 3);
        }
        assert(k >= 2);
        assert(pow10(k) == 10 * pow10((k - 1) as nat));
        vstd::arithmetic::div_mod::lemma_multiply_divide_lt(
            n as int,
            10,
            pow10((k - 1) as nat),
        );
        lemma_decimal_len_at_most(n / 10, (k - 1) as nat);
    }
}

/// A counter value never takes more than twenty digits.
pub proof fn lemma_decimal_len_fits(value: u64)
    ensures
        1 <= spec_decimal(value as nat).len() <= 20,
{
    lemma_decimal_len_pos(value as nat);
    assert(pow10(20) == 0x5_6BC7_5E2D_6310_0000) by {
        reveal_with_fuel(pow10, 21);
    }
    lemma_decimal_len_at_most(value as nat, 20);
}

/// A decimal rendering consists of plain digit characters.
pub proof fn lemma_decimal_is_ascii(n: nat)
    ensures
        vstd::utf8::is_ascii_chars(spec_decimal(n)),
    decreases n,
{
    if n >= 10 {
        lemma_decimal_is_ascii(n / 10);
        broadcast use vstd::utf8::is_ascii_chars_concat;

    }
}

/// Encodes a counter value as the eight-byte persistent blob, in the
/// guest's little-endian byte order, with no version tag and no checksum.
pub fn counter_to_blob(value: u64) -> (r: Vec<u8>)
    ensures
        r@ == spec_u64_to_le_bytes(value),
        r@.len() == 8,
{
    proof {
        lemma_auto_spec_u64_to_from_le_bytes();
    }
    u64_to_le_bytes(value)
}

/// Decodes a loaded persistent blob back into a counter value.
///
/// An empty store yields the default value zero; the fixed eight-byte shape
/// yields the stored value; any other length is a fatal
/// [`MtgError::PersistentDataShapeMismatch`].
pub fn counter_from_blob(data: &[u8]) -> (r: Result<u64, MtgError>)
    ensures
        data@.len() == 0 ==> r == Ok::<u64, MtgError>(0u64),
        data@.len() == 8 ==> r == Ok::<u64, MtgError>(spec_u64_from_le_bytes(data@)),
        !(data@.len() == 0 || data@.len() == 8) ==> r == Err::<u64, MtgError>(
            MtgError::PersistentDataShapeMismatch,
        ),
{
    if data.len() == 0 {
        Ok(0)
    } else if data.len() == 8 {
        Ok(u64_from_le_bytes(data))
    } else {
        Err(MtgError::PersistentDataShapeMismatch)
    }
}

/// Law: saving any counter value as its blob and loading it back yields the
/// value unchanged.
pub proof fn lemma_counter_round_trip(value: u64)
    ensures
        spec_u64_from_le_bytes(spec_u64_to_le_bytes(value)) == value,
{
    lemma_auto_spec_u64_to_from_le_bytes();
}

/// The click-counter game: a count and its cached decimal rendering.
pub struct Counter {
    count: u64,
    cached_str: String,
}

impl Counter {
    /// The cached text is always the decimal rendering of the count.
    #[verifier::type_invariant]
    spec fn inv(self) -> bool {
        self.cached_str@ == spec_decimal(self.spec_count() as nat)
    }

    /// The current count.
    pub closed spec fn spec_count(self) -> u64 {
        self.count
    }
}

impl Game for Counter {
    /// An empty store starts at zero, the fixed eight-byte shape restores
    /// the stored value, and any other shape is a fatal
    /// [`MtgError::PersistentDataShapeMismatch`].
    open spec fn initialize_post(persisted: Seq<u8>, r: Result<Self, MtgError>) -> bool {
        &&& persisted.len() == 0 ==> (r matches Ok(c) && c.spec_count() == 0)
        &&& persisted.len() == 8 ==> (r matches Ok(c) && c.spec_count() == spec_u64_from_le_bytes(
            persisted,
        ))
        &&& !(persisted.len() == 0 || persisted.len() == 8) ==> (r matches Err(e) && e
            == MtgError::PersistentDataShapeMismatch)
    }

    /// Restores the count from the persistent store, or aborts registration
    /// on a corrupted store — no counter is produced from one.
    fn initialize(persisted: Vec<u8>) -> (r: Result<Self, MtgError>) {
        match counter_from_blob(persisted.as_slice()) {
            Ok(count) => Ok(Counter { count, cached_str: u64_to_decimal(count) }),
            Err(e) => Err(e),
        }
    }

    /// Drawing leaves the count alone and records exactly one text draw of
    /// its decimal rendering, sized down as the rendering grows.
    open spec fn draw_post(
        pre: Self,
        post: Self,
        pre_screen: ScreenView,
        post_screen: ScreenView,
        pre_canvas: CanvasView,
        post_canvas: CanvasView,
    ) -> bool {
        &&& post.spec_count() == pre.spec_count()
        &&& post_screen == pre_screen
        &&& post_canvas == (CanvasView {
            calls: pre_canvas.calls.push(
                Call::DrawText {
                    x: 0,
                    y: 0,
                    text: spec_decimal(pre.spec_count() as nat),
                    size: (96int / spec_decimal(pre.spec_count() as nat).len() as int) as i32,
                    argb: 0xFF_FF_FF_FFu32,
                },
            ),
            ..pre_canvas
        })
    }

    /// Draws the count at the top left corner, sized down as it grows so
    /// it keeps fitting.
    fn draw(&mut self, screen: &mut Screen, canvas: &mut Canvas) {
        let text = self.cached_str.as_str();
        proof {
            use_type_invariant(&*self);
            lemma_decimal_len_fits(self.count);
            lemma_decimal_is_ascii(self.count as nat);
            broadcast use vstd::string::is_ascii_spec_bytes;

            assert(vstd::string::is_ascii(text));
            assert(text.spec_bytes().len() == text@.len());
        }
        let text_len = text.len();
        canvas.draw_text(0, 0, text, (96 / text_len) as u32, 0xFF_FF_FF_FFu32);
    }

    /// Every click, whatever its kind, is consumed and steps the count by
    /// one, wrapping at the top of its range (the store's fixed eight-byte
    /// width leaves nowhere further to go); the screen is untouched.
    open spec fn on_click_post(
        pre: Self,
        post: Self,
        pre_screen: ScreenView,
        post_screen: ScreenView,
        click_type: ClickType,
        x: i32,
        y: i32,
        consumed: bool,
    ) -> bool {
        &&& consumed
        &&& post_screen == pre_screen
        &&& post.spec_count() == if pre.spec_count() == u64::MAX {
            0u64
        } else {
            (pre.spec_count() + 1) as u64
        }
    }

    /// Counts the click and reports it consumed.
    fn on_click(&mut self, screen: &mut Screen, click_type: ClickType, x: i32, y: i32) -> (r:
        bool) {
        let next = if self.count == u64::MAX {
            0
        } else {
            self.count + 1
        };
        *self = Counter { count: next, cached_str: u64_to_decimal(next) };
        true
    }

    /// Closing the screen leaves the count alone and records exactly one
    /// whole-blob write of it to the persistent store.
    open spec fn screen_close_post(
        pre: Self,
        post: Self,
        pre_screen: ScreenView,
        post_screen: ScreenView,
    ) -> bool {
        &&& post.spec_count() == pre.spec_count()
        &&& post_screen == (ScreenView {
            calls: pre_screen.calls.push(
                Call::SavePersistentData { data: spec_u64_to_le_bytes(pre.spec_count()) },
            ),
            ..pre_screen
        })
    }

    /// Writes the count to the persistent store, whole blob at once.
    fn screen_close(&mut self, screen: &mut Screen) {
        proof {
            use_type_invariant(&*self);
        }
        let blob = counter_to_blob(self.count);
        screen.save_persistent_data(blob.as_slice());
    }
}

} // verus!
