//! The instance registry and callback dispatcher.
//!
//! A loaded module hosts exactly one game object. Registration constructs
//! it, names it by the one opaque handle the module ever issues, and never
//! releases it — the host gives no unload signal, so no teardown path
//! exists. Every later callback resolves the handle back to the object,
//! invokes the matching [`Game`](crate::game::Game) capability with fresh
//! capability handles, and translates the result to the boundary's return
//! convention.

use vstd::prelude::*;

use crate::MtgError;
use crate::game::{ClickType, Game, decode_click};
use crate::host::{Call, Canvas, CanvasView, Screen};

verus! {

/// The one handle a module load ever issues. Zero is never a valid handle.
pub const GAME_HANDLE: i32 = 1;

/// What registration tells the module shell.
#[derive(Debug, Clone, Copy, PartialEq, Eq, Structural)]
pub struct Registration {
    /// The opaque handle that names the game object from now on.
    pub handle: i32,
    /// Whether the shell must install the process-wide failure trap now;
    /// true exactly on the first registration, so repeated registration
    /// never stacks a second trap.
    pub install_trap: bool,
}

/// The registry that owns the single guest-resident game object.
pub struct Registry<G> {
    slot: Option<G>,
    trap_installed: bool,
}

impl<G: Game> Registry<G> {
    /// Whether the one game object has been constructed.
    pub closed spec fn registered(self) -> bool {
        self.slot is Some
    }

    /// Whether the process-wide failure trap has been requested.
    pub closed spec fn trap_installed(self) -> bool {
        self.trap_installed
    }

    /// The registered game object; meaningful only while [`Registry::registered`].
    pub closed spec fn spec_game(self) -> G {
        self.slot->Some_0
    }

    /// Whether `handle` names the registered game object.
    pub open spec fn resolvable(self, handle: i32) -> bool {
        self.registered() && handle == GAME_HANDLE
    }

    /// An empty registry, as a freshly loaded module starts with.
    pub fn new() -> (r: Registry<G>)
        ensures
            !r.registered(),
            !r.trap_installed(),
    {
        Registry { slot: None, trap_installed: false }
    }

    /// Constructs the one game object from the persistent store's contents
    /// and issues its handle.
    ///
    /// Ownership of the object stays with the registry for the remainder of
    /// the process; no corresponding free operation exists. The outcome
    /// asks the shell to install the failure trap exactly once per process.
    ///
    /// A failure raised by the game's initialization contract is fatal to
    /// registration: it comes back as the error, no object is registered,
    /// and there is no recovery path — the shell reports the failure and
    /// the module stays without a game. The trap is requested first, as
    /// the failure trap must outlive even a failed registration.
    pub fn register(&mut self, persisted: Vec<u8>) -> (r: Result<Registration, MtgError>)
        requires
            !old(self).registered(),
        ensures
            final(self).trap_installed(),
            final(self).registered() <==> r is Ok,
            r matches Ok(reg) ==> reg.handle == GAME_HANDLE && reg.install_trap == !old(
                self,
            ).trap_installed(),
            r matches Ok(reg) ==> G::initialize_post(
                persisted@,
                Ok::<G, MtgError>(final(self).spec_game()),
            ),
            r matches Err(e) ==> G::initialize_post(persisted@, Err::<G, MtgError>(e)),
    {
        let install_trap = !self.trap_installed;
        self.trap_installed = true;
        match G::initialize(persisted) {
            Ok(game) => {
                self.slot = Some(game);
                Ok(Registration { handle: GAME_HANDLE, install_trap })
            },
            Err(e) => Err(e),
        }
    }

    /// Checks that `handle` names the registered game object.
    ///
    /// Succeeds for the handle that [`Registry::register`] returned;
    /// fails with [`MtgError::NullHandle`] for zero and for every handle
    /// that was never issued.
    pub fn resolve(&self, handle: i32) -> (r: Result<(), MtgError>)
        ensures
            r is Ok <==> self.resolvable(handle),
            r matches Err(e) ==> e == MtgError::NullHandle,
    {
        if handle == GAME_HANDLE && self.slot.is_some() {
            Ok(())
        } else {
            Err(MtgError::NullHandle)
        }
    }

    /// Dispatches the main draw callback.
    pub fn draw(&mut self, handle: i32, screen: &mut Screen, canvas: &mut Canvas) -> (r: Result<
        (),
        MtgError,
    >)
        requires
            old(canvas).wf(),
        ensures
            r is Ok <==> old(self).resolvable(handle),
            r is Ok ==> G::draw_post(
                old(self).spec_game(),
                final(self).spec_game(),
                old(screen)@,
                final(screen)@,
                old(canvas)@,
                final(canvas)@,
            ),
            r matches Err(e) ==> e == MtgError::NullHandle
                && *final(self) == *old(self)
                && final(screen)@ == old(screen)@
                && final(canvas)@ == old(canvas)@,
            final(self).registered() == old(self).registered(),
            final(self).trap_installed() == old(self).trap_installed(),
    {
        if let Err(e) = self.resolve(handle) {
            return Err(e);
        }
        match &mut self.slot {
            Some(game) => {
                game.draw(screen, canvas);
                Ok(())
            },
            None => unreached(),
        }
    }

    /// Dispatches a click at `(x, y)` with the given click-type code.
    ///
    /// The code is decoded before the game sees it: `0` is a left click,
    /// `1` a right click, and anything else a fatal
    /// [`MtgError::UnknownEnumValue`]. On success the game's "did this
    /// click do something" answer comes back as `1` for true and `0` for
    /// false.
    pub fn on_click(&mut self, handle: i32, code: i32, x: i32, y: i32, screen: &mut Screen) -> (r:
        Result<i32, MtgError>)
        ensures
            r is Ok <==> old(self).resolvable(handle) && (code == 0 || code == 1),
            r matches Ok(consumed) ==> consumed == 0 || consumed == 1,
            r matches Ok(consumed) ==> G::on_click_post(
                old(self).spec_game(),
                final(self).spec_game(),
                old(screen)@,
                final(screen)@,
                if code == 0 {
                    ClickType::Left
                } else {
                    ClickType::Right
                },
                x,
                y,
                consumed == 1,
            ),
            !old(self).resolvable(handle) ==> r == Err::<i32, MtgError>(MtgError::NullHandle),
            old(self).resolvable(handle) && !(code == 0 || code == 1) ==> r == Err::<i32, MtgError>(
                MtgError::UnknownEnumValue,
            ),
            r is Err ==> *final(self) == *old(self) && final(screen)@ == old(screen)@,
            final(self).registered() == old(self).registered(),
            final(self).trap_installed() == old(self).trap_installed(),
    {
        if let Err(e) = self.resolve(handle) {
            return Err(e);
        }
        let click_type: ClickType = match decode_click(code) {
            Ok(t) => t,
            Err(e) => {
                return Err(e);
            },
        };
        match &mut self.slot {
            Some(game) => {
                let consumed = game.on_click(screen, click_type, x, y);
                Ok(if consumed { 1 } else { 0 })
            },
            None => unreached(),
        }
    }

    /// Dispatches the background draw callback.
    pub fn draw_background(&mut self, handle: i32, screen: &mut Screen, canvas: &mut Canvas) -> (r:
        Result<(), MtgError>)
        requires
            old(canvas).wf(),
        ensures
            r is Ok <==> old(self).resolvable(handle),
            r is Ok ==> G::draw_background_post(
                old(self).spec_game(),
                final(self).spec_game(),
                old(screen)@,
                final(screen)@,
                old(canvas)@,
                final(canvas)@,
            ) || (final(self).spec_game() == old(self).spec_game() && final(screen)@ == old(
                screen,
            )@ && final(canvas)@ == (CanvasView {
                calls: old(canvas)@.calls.push(
                    Call::DrawInbuiltSprite { x: 0, y: 0, name: "app_background"@ },
                ),
                ..old(canvas)@
            })),
            r matches Err(e) ==> e == MtgError::NullHandle
                && *final(self) == *old(self)
                && final(screen)@ == old(screen)@
                && final(canvas)@ == old(canvas)@,
            final(self).registered() == old(self).registered(),
            final(self).trap_installed() == old(self).trap_installed(),
    {
        if let Err(e) = self.resolve(handle) {
            return Err(e);
        }
        match &mut self.slot {
            Some(game) => {
                game.draw_background(screen, canvas);
                Ok(())
            },
            None => unreached(),
        }
    }

    /// Dispatches the screen tick callback.
    pub fn screen_tick(&mut self, handle: i32, screen: &mut Screen) -> (r: Result<(), MtgError>)
        ensures
            r is Ok <==> old(self).resolvable(handle),
            r is Ok ==> G::screen_tick_post(
                old(self).spec_game(),
                final(self).spec_game(),
                old(screen)@,
                final(screen)@,
            ) || (final(self).spec_game() == old(self).spec_game() && final(screen)@ == old(
                screen,
            )@),
            r matches Err(e) ==> e == MtgError::NullHandle
                && *final(self) == *old(self)
                && final(screen)@ == old(screen)@,
            final(self).registered() == old(self).registered(),
            final(self).trap_installed() == old(self).trap_installed(),
    {
        if let Err(e) = self.resolve(handle) {
            return Err(e);
        }
        match &mut self.slot {
            Some(game) => {
                game.screen_tick(screen);
                Ok(())
            },
            None => unreached(),
        }
    }

    /// Dispatches the screen open callback.
    pub fn screen_open(&mut self, handle: i32, screen: &mut Screen) -> (r: Result<(), MtgError>)
        ensures
            r is Ok <==> old(self).resolvable(handle),
            r is Ok ==> G::screen_open_post(
                old(self).spec_game(),
                final(self).spec_game(),
                old(screen)@,
                final(screen)@,
            ) || (final(self).spec_game() == old(self).spec_game() && final(screen)@ == old(
                screen,
            )@),
            r matches Err(e) ==> e == MtgError::NullHandle
                && *final(self) == *old(self)
                && final(screen)@ == old(screen)@,
            final(self).registered() == old(self).registered(),
            final(self).trap_installed() == old(self).trap_installed(),
    {
        if let Err(e) = self.resolve(handle) {
            return Err(e);
        }
        match &mut self.slot {
            Some(game) => {
                game.screen_open(screen);
                Ok(())
            },
            None => unreached(),
        }
    }

    /// Dispatches the screen close callback.
    pub fn screen_close(&mut self, handle: i32, screen: &mut Screen) -> (r: Result<(), MtgError>)
        ensures
            r is Ok <==> old(self).resolvable(handle),
            r is Ok ==> G::screen_close_post(
                old(self).spec_game(),
                final(self).spec_game(),
                old(screen)@,
                final(screen)@,
            ) || (final(self).spec_game() == old(self).spec_game() && final(screen)@ == old(
                screen,
            )@),
            r matches Err(e) ==> e == MtgError::NullHandle
                && *final(self) == *old(self)
                && final(screen)@ == old(screen)@,
            final(self).registered() == old(self).registered(),
            final(self).trap_installed() == old(self).trap_installed(),
    {
        if let Err(e) = self.resolve(handle) {
            return Err(e);
        }
        match &mut self.slot {
            Some(game) => {
                game.screen_close(screen);
                Ok(())
            },
            None => unreached(),
        }
    }
}

} // verus!
