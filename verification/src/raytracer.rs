//! The spinning-sphere demo's guest-resident state.
//!
//! The sphere rendering itself is floating-point ray math and lives in the
//! unverified module shell; this type holds the camera angle the shell
//! reads, and the lifecycle behaviour around it.

use vstd::prelude::*;

use crate::host::{LogLevel, Screen, ScreenView};

verus! {

/// The camera state of the spinning-sphere demo: an angle in whole degrees.
pub struct RayTracer {
    degrees: u16,
}

impl RayTracer {
    /// The camera angle stays within a single turn.
    #[verifier::type_invariant]
    spec fn inv(self) -> bool {
        self.spec_degrees() < 360
    }

    /// The camera angle, always in `[0, 360)`.
    pub closed spec fn spec_degrees(self) -> u16 {
        self.degrees
    }

    /// A camera at angle zero.
    pub fn new() -> (r: RayTracer)
        ensures
            r.spec_degrees() == 0,
    {
        RayTracer { degrees: 0 }
    }

    /// The camera angle, for the shell's renderer.
    pub fn degrees(&self) -> (r: u16)
        ensures
            r == self.spec_degrees(),
    {
        self.degrees
    }

    /// Spins the camera one degree per tick, wrapping at a full turn.
    pub fn screen_tick(&mut self, screen: &mut Screen)
        ensures
            final(self).spec_degrees() == if old(self).spec_degrees() + 1 >= 360 {
                0
            } else {
                old(self).spec_degrees() + 1
            },
            final(screen)@ == old(screen)@,
    {
        proof {
            use_type_invariant(&*self);
        }
        let next: u16 = if self.degrees + 1 >= 360 {
            0
        } else {
            self.degrees + 1
        };
        self.degrees = next;
    }

    /// Clicks do nothing; the demo just spins.
    pub fn on_click(&mut self, screen: &mut Screen, x: i32, y: i32) -> (r: bool)
        ensures
            r == false,
            *final(self) == *old(self),
            final(screen)@ == old(screen)@,
    {
        false
    }

    /// The demo paints the whole canvas itself, so no background is drawn.
    pub fn draw_background(&mut self, screen: &mut Screen)
        ensures
            *final(self) == *old(self),
            final(screen)@ == old(screen)@,
    {
    }

    /// Logs that the demo came on screen.
    pub fn screen_open(&mut self, screen: &mut Screen)
        ensures
            *final(self) == *old(self),
            final(screen)@ == (ScreenView {
                calls: old(screen)@.calls.push(crate::host::Call::Log {
                    level: LogLevel::Info,
                    message: "opened ray tracer"@,
                }),
                ..old(screen)@
            }),
    {
        screen.log("opened ray tracer", LogLevel::Info);
    }

    /// Logs that the demo left the screen.
    pub fn screen_close(&mut self, screen: &mut Screen)
        ensures
            *final(self) == *old(self),
            final(screen)@ == (ScreenView {
                calls: old(screen)@.calls.push(crate::host::Call::Log {
                    level: LogLevel::Info,
                    message: "closed ray tracer"@,
                }),
                ..old(screen)@
            }),
    {
        screen.log("closed ray tracer", LogLevel::Info);
    }
}

} // verus!
