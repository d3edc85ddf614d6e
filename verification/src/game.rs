//! The game-facing callback lifecycle: the click event type and the central
//! [`Game`] trait that a guest game implements.

use vstd::prelude::*;

use crate::MtgError;
use crate::host::{Call, Canvas, CanvasView, Screen, ScreenView};

verus! {

/// The kind of click that reached the screen, usually a mouse button.
#[derive(Debug, Clone, Copy, PartialEq, Eq, Structural)]
pub enum ClickType {
    Left,
    Right,
}

/// Decodes a click-type code from the boundary.
///
/// Code `0` is a left click and `1` a right click; every other code lies
/// outside the defined set and is a fatal [`MtgError::UnknownEnumValue`].
pub fn decode_click(code: i32) -> (r: Result<ClickType, MtgError>)
    ensures
        code == 0 ==> r == Ok::<ClickType, MtgError>(ClickType::Left),
        code == 1 ==> r == Ok::<ClickType, MtgError>(ClickType::Right),
        !(code == 0 || code == 1) ==> r == Err::<ClickType, MtgError>(MtgError::UnknownEnumValue),
{
    match code {
        0 => Ok(ClickType::Left),
        1 => Ok(ClickType::Right),
        _ => Err(MtgError::UnknownEnumValue),
    }
}

/// The central game trait that a guest's state type implements.
///
/// The dispatcher calls exactly one method per host callback, always on the
/// single registered object, and hands it fresh capability handles whose
/// recorded host calls the module shell performs afterwards.
///
/// Each capability has a companion `..._post` spec member relating the
/// states before and after the call; the capability's `ensures` holds every
/// implementation to its own relation, and the dispatcher's contracts pass
/// the relation on to callers. A game states its behaviour by overriding
/// the relation alongside the method. The optional capabilities carry
/// default bodies; because their relations can be overridden, their
/// `ensures` offer the built-in default behaviour as the alternative
/// branch, so the defaults themselves still verify.
pub trait Game: Sized {
    /// What [`Game::initialize`] yields for the given persisted bytes.
    /// A game that does not override this relation promises nothing of its
    /// construction.
    open spec fn initialize_post(persisted: Seq<u8>, r: Result<Self, MtgError>) -> bool {
        true
    }

    /// Builds the game's initial state from the persistent store's contents
    /// as they were at registration time (empty when nothing was ever
    /// saved).
    ///
    /// A failure here is fatal to registration: it aborts with no recovery
    /// path, no game object is produced, and the module shell reports the
    /// error. This method should only set up essential state; things like
    /// playing a startup sound belong in [`Game::screen_open`].
    fn initialize(persisted: Vec<u8>) -> (r: Result<Self, MtgError>)
        ensures
            Self::initialize_post(persisted@, r),
    ;

    /// What [`Game::draw`] does to the game and to the capability handles.
    /// A game that does not override this relation promises nothing of its
    /// drawing.
    open spec fn draw_post(
        pre: Self,
        post: Self,
        pre_screen: ScreenView,
        post_screen: ScreenView,
        pre_canvas: CanvasView,
        post_canvas: CanvasView,
    ) -> bool {
        true
    }

    /// The main draw method of the game.
    fn draw(&mut self, screen: &mut Screen, canvas: &mut Canvas)
        requires
            old(canvas).wf(),
        ensures
            Self::draw_post(
                *old(self),
                *final(self),
                old(screen)@,
                final(screen)@,
                old(canvas)@,
                final(canvas)@,
            ),
    ;

    /// What [`Game::on_click`] does, `consumed` being its answer. A game
    /// that does not override this relation promises nothing of its clicks.
    open spec fn on_click_post(
        pre: Self,
        post: Self,
        pre_screen: ScreenView,
        post_screen: ScreenView,
        click_type: ClickType,
        x: i32,
        y: i32,
        consumed: bool,
    ) -> bool {
        true
    }

    /// Reacts to a click at `(x, y)`; the result says whether the click did
    /// something.
    fn on_click(&mut self, screen: &mut Screen, click_type: ClickType, x: i32, y: i32) -> (consumed:
        bool)
        ensures
            Self::on_click_post(
                *old(self),
                *final(self),
                old(screen)@,
                final(screen)@,
                click_type,
                x,
                y,
                consumed,
            ),
    ;

    /// What [`Game::draw_background`] does when a game overrides it; the
    /// default relation is the default behaviour, one draw of the built-in
    /// background sprite.
    open spec fn draw_background_post(
        pre: Self,
        post: Self,
        pre_screen: ScreenView,
        post_screen: ScreenView,
        pre_canvas: CanvasView,
        post_canvas: CanvasView,
    ) -> bool {
        post == pre && post_screen == pre_screen && post_canvas == (CanvasView {
            calls: pre_canvas.calls.push(
                Call::DrawInbuiltSprite { x: 0, y: 0, name: "app_background"@ },
            ),
            ..pre_canvas
        })
    }

    /// Draws whatever lies behind the game's own drawing; by default, one
    /// draw of the built-in background sprite at the top left corner and
    /// nothing else.
    fn draw_background(&mut self, screen: &mut Screen, canvas: &mut Canvas)
        requires
            old(canvas).wf(),
        ensures
            Self::draw_background_post(
                *old(self),
                *final(self),
                old(screen)@,
                final(screen)@,
                old(canvas)@,
                final(canvas)@,
            ) || (*final(self) == *old(self) && final(screen)@ == old(screen)@ && final(canvas)@
                == (CanvasView {
                calls: old(canvas)@.calls.push(
                    Call::DrawInbuiltSprite { x: 0, y: 0, name: "app_background"@ },
                ),
                ..old(canvas)@
            })),
        default_ensures
            *final(self) == *old(self),
            final(screen)@ == old(screen)@,
            final(canvas)@ == (CanvasView {
                calls: old(canvas)@.calls.push(Call::DrawInbuiltSprite {
                    x: 0,
                    y: 0,
                    name: "app_background"@,
                }),
                ..old(canvas)@
            }),
    {
        canvas.draw_inbuilt_sprite(0, 0, "app_background");
    }

    /// What [`Game::screen_tick`] does when a game overrides it; the
    /// default relation is the default behaviour, nothing at all.
    open spec fn screen_tick_post(
        pre: Self,
        post: Self,
        pre_screen: ScreenView,
        post_screen: ScreenView,
    ) -> bool {
        post == pre && post_screen == pre_screen
    }

    /// Advances time while the screen shows this game; by default does
    /// nothing at all.
    fn screen_tick(&mut self, screen: &mut Screen)
        ensures
            Self::screen_tick_post(*old(self), *final(self), old(screen)@, final(screen)@) || (
            *final(self) == *old(self) && final(screen)@ == old(screen)@),
        default_ensures
            *final(self) == *old(self),
            final(screen)@ == old(screen)@,
    {
    }

    /// What [`Game::screen_open`] does when a game overrides it; the
    /// default relation is the default behaviour, nothing at all.
    open spec fn screen_open_post(
        pre: Self,
        post: Self,
        pre_screen: ScreenView,
        post_screen: ScreenView,
    ) -> bool {
        post == pre && post_screen == pre_screen
    }

    /// Reacts to the screen opening on this game; by default does nothing
    /// at all.
    fn screen_open(&mut self, screen: &mut Screen)
        ensures
            Self::screen_open_post(*old(self), *final(self), old(screen)@, final(screen)@) || (
            *final(self) == *old(self) && final(screen)@ == old(screen)@),
        default_ensures
            *final(self) == *old(self),
            final(screen)@ == old(screen)@,
    {
    }

    /// What [`Game::screen_close`] does when a game overrides it; the
    /// default relation is the default behaviour, nothing at all.
    open spec fn screen_close_post(
        pre: Self,
        post: Self,
        pre_screen: ScreenView,
        post_screen: ScreenView,
    ) -> bool {
        post == pre && post_screen == pre_screen
    }

    /// Reacts to the screen closing on this game; by default does nothing
    /// at all.
    fn screen_close(&mut self, screen: &mut Screen)
        ensures
            Self::screen_close_post(*old(self), *final(self), old(screen)@, final(screen)@) || (
            *final(self) == *old(self) && final(screen)@ == old(screen)@),
        default_ensures
            *final(self) == *old(self),
            final(screen)@ == old(screen)@,
    {
    }
}

} // verus!
