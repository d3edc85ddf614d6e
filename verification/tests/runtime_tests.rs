use mtg_rust::counter::{counter_from_blob, counter_to_blob, u64_to_decimal, Counter};
use mtg_rust::game::{decode_click, ClickType, Game};
use mtg_rust::host::{Canvas, HostCall, LogLevel, Screen, SoundCategory};
use mtg_rust::registry::{Registry, GAME_HANDLE};
use mtg_rust::MtgError;

fn fresh_screen() -> Screen {
    Screen::new(Vec::new())
}

#[test]
fn counter_blob_round_trips() {
    for value in [0u64, 1, (1u64 << 63) - 1, u64::MAX] {
        let blob = counter_to_blob(value);
        assert_eq!(blob.len(), 8);
        assert_eq!(counter_from_blob(&blob), Ok(value));
    }
}

#[test]
fn counter_blob_is_little_endian() {
    assert_eq!(counter_to_blob(42), vec![42, 0, 0, 0, 0, 0, 0, 0]);
    assert_eq!(counter_to_blob(0x0102_0304_0506_0708), vec![8, 7, 6, 5, 4, 3, 2, 1]);
}

#[test]
fn counter_wraps_at_the_top_of_its_range() {
    let mut registry: Registry<Counter> = Registry::new();
    let registration =
        registry.register(counter_to_blob(u64::MAX)).expect("registration should succeed");
    let mut screen = fresh_screen();
    assert_eq!(registry.on_click(registration.handle, 0, 0, 0, &mut screen), Ok(1));
    assert_eq!(registry.screen_close(registration.handle, &mut screen), Ok(()));
    assert_eq!(
        screen.take_calls(),
        vec![HostCall::SavePersistentData { data: counter_to_blob(0) }]
    );
}

#[test]
fn empty_store_loads_as_zero() {
    assert_eq!(counter_from_blob(&[]), Ok(0));
}

#[test]
fn misshapen_blob_is_rejected() {
    assert_eq!(counter_from_blob(&[1, 2, 3, 4, 5]), Err(MtgError::PersistentDataShapeMismatch));
    assert_eq!(
        counter_from_blob(&[0, 0, 0, 0, 0, 0, 0, 0, 0]),
        Err(MtgError::PersistentDataShapeMismatch)
    );
}

#[test]
fn decimal_rendering() {
    assert_eq!(u64_to_decimal(0), "0");
    assert_eq!(u64_to_decimal(7), "7");
    assert_eq!(u64_to_decimal(42), "42");
    assert_eq!(u64_to_decimal(1000), "1000");
    assert_eq!(u64_to_decimal(u64::MAX), "18446744073709551615");
}

#[test]
fn click_codes_decode_to_their_variants() {
    assert_eq!(decode_click(0), Ok(ClickType::Left));
    assert_eq!(decode_click(1), Ok(ClickType::Right));
    assert_eq!(decode_click(2), Err(MtgError::UnknownEnumValue));
    assert_eq!(decode_click(-1), Err(MtgError::UnknownEnumValue));
}

#[test]
fn misshapen_store_aborts_registration() {
    let mut registry: Registry<Counter> = Registry::new();
    assert_eq!(
        registry.register(vec![1, 2, 3, 4, 5]),
        Err(MtgError::PersistentDataShapeMismatch)
    );
    // No game object was produced: the handle still resolves to nothing.
    assert_eq!(registry.resolve(GAME_HANDLE), Err(MtgError::NullHandle));
}

#[test]
fn register_issues_the_one_handle_and_requests_the_trap() {
    let mut registry: Registry<Counter> = Registry::new();
    let registration = registry.register(Vec::new()).expect("registration should succeed");
    assert_eq!(registration.handle, GAME_HANDLE);
    assert!(registration.install_trap);
}

#[test]
fn resolve_accepts_the_issued_handle_only() {
    let mut registry: Registry<Counter> = Registry::new();
    assert_eq!(registry.resolve(GAME_HANDLE), Err(MtgError::NullHandle));
    let registration = registry.register(Vec::new()).expect("registration should succeed");
    assert_eq!(registry.resolve(registration.handle), Ok(()));
    assert_eq!(registry.resolve(0), Err(MtgError::NullHandle));
    assert_eq!(registry.resolve(7), Err(MtgError::NullHandle));
    assert_eq!(registry.resolve(-1), Err(MtgError::NullHandle));
}

#[test]
fn on_click_decodes_left_right_and_rejects_the_rest() {
    let mut registry: Registry<Counter> = Registry::new();
    let registration = registry.register(Vec::new()).expect("registration should succeed");
    let handle = registration.handle;

    let mut screen = fresh_screen();
    // The counter consumes every click, so a left click comes back as 1.
    assert_eq!(registry.on_click(handle, 0, 3, 4, &mut screen), Ok(1));
    assert_eq!(registry.on_click(handle, 1, 3, 4, &mut screen), Ok(1));
    assert_eq!(registry.on_click(handle, 2, 3, 4, &mut screen), Err(MtgError::UnknownEnumValue));
    // A bad handle outranks a bad click code.
    assert_eq!(registry.on_click(0, 2, 3, 4, &mut screen), Err(MtgError::NullHandle));
}

#[test]
fn callbacks_on_a_null_handle_fail() {
    let mut registry: Registry<Counter> = Registry::new();
    registry.register(Vec::new()).expect("registration should succeed");
    let mut screen = fresh_screen();
    let mut canvas = Canvas::new(128, 96);
    assert_eq!(registry.draw(0, &mut screen, &mut canvas), Err(MtgError::NullHandle));
    assert_eq!(registry.draw_background(2, &mut screen, &mut canvas), Err(MtgError::NullHandle));
    assert_eq!(registry.screen_tick(0, &mut screen), Err(MtgError::NullHandle));
    assert_eq!(registry.screen_open(0, &mut screen), Err(MtgError::NullHandle));
    assert_eq!(registry.screen_close(0, &mut screen), Err(MtgError::NullHandle));
    assert!(canvas.take_calls().is_empty());
    assert!(screen.take_calls().is_empty());
}

#[test]
fn counter_session_saves_the_incremented_count() {
    let mut registry: Registry<Counter> = Registry::new();
    let registration =
        registry.register(counter_to_blob(41)).expect("registration should succeed");
    let handle = registration.handle;

    let mut screen = fresh_screen();
    assert_eq!(registry.on_click(handle, 0, 0, 0, &mut screen), Ok(1));
    assert!(screen.take_calls().is_empty());

    let mut screen = fresh_screen();
    assert_eq!(registry.screen_close(handle, &mut screen), Ok(()));
    assert_eq!(
        screen.take_calls(),
        vec![HostCall::SavePersistentData { data: counter_to_blob(42) }]
    );
}

#[test]
fn counter_draws_its_count_sized_to_fit() {
    let mut registry: Registry<Counter> = Registry::new();
    let registration =
        registry.register(counter_to_blob(42)).expect("registration should succeed");

    let mut screen = fresh_screen();
    let mut canvas = Canvas::new(128, 96);
    assert_eq!(registry.draw(registration.handle, &mut screen, &mut canvas), Ok(()));
    assert_eq!(
        canvas.take_calls(),
        vec![HostCall::DrawText {
            x: 0,
            y: 0,
            text: "42".to_string(),
            size: 48,
            argb: 0xFF_FF_FF_FF,
        }]
    );
    assert!(screen.take_calls().is_empty());
}

#[test]
fn default_background_is_the_inbuilt_sprite() {
    struct Quiet;

    impl Game for Quiet {
        fn initialize(_persisted: Vec<u8>) -> Result<Self, MtgError> {
            Ok(Quiet)
        }

        fn draw(&mut self, _screen: &mut Screen, _canvas: &mut Canvas) {}

        fn on_click(
            &mut self,
            _screen: &mut Screen,
            _click_type: ClickType,
            _x: i32,
            _y: i32,
        ) -> bool {
            false
        }
    }

    let mut registry: Registry<Quiet> = Registry::new();
    let registration = registry.register(Vec::new()).expect("registration should succeed");

    let mut screen = fresh_screen();
    let mut canvas = Canvas::new(128, 96);
    assert_eq!(registry.draw_background(registration.handle, &mut screen, &mut canvas), Ok(()));
    assert_eq!(
        canvas.take_calls(),
        vec![HostCall::DrawInbuiltSprite { x: 0, y: 0, name: "app_background".to_string() }]
    );
    // The other optional capabilities default to doing nothing.
    assert_eq!(registry.screen_tick(registration.handle, &mut screen), Ok(()));
    assert_eq!(registry.screen_open(registration.handle, &mut screen), Ok(()));
    assert_eq!(registry.screen_close(registration.handle, &mut screen), Ok(()));
    assert_eq!(registry.draw(registration.handle, &mut screen, &mut canvas), Ok(()));
    assert!(screen.take_calls().is_empty());
    assert!(canvas.take_calls().is_empty());
}

#[test]
fn screen_records_its_calls_in_order() {
    let mut screen = Screen::new(Vec::new());
    screen.log("hello", LogLevel::Warn);
    screen.play_sound("mini_tardis:bad_apple", SoundCategory::Records, 0x3F80_0000, 0x3F80_0000);
    screen.save_persistent_data(&[1, 2]);
    screen.close();
    assert_eq!(
        screen.take_calls(),
        vec![
            HostCall::Log { level: LogLevel::Warn, message: "hello".to_string() },
            HostCall::PlaySound {
                id: "mini_tardis:bad_apple".to_string(),
                category: SoundCategory::Records,
                volume_bits: 0x3F80_0000,
                pitch_bits: 0x3F80_0000,
            },
            HostCall::SavePersistentData { data: vec![1, 2] },
            HostCall::CloseApp,
        ]
    );
    // Taking the calls empties the log.
    assert!(screen.take_calls().is_empty());
}

#[test]
fn screen_hands_out_seeded_randomness() {
    let mut screen = Screen::new(vec![5, 6, 7]);
    assert_eq!(screen.random_i32(), 7);
    assert_eq!(screen.random_i32(), 6);
    assert_eq!(screen.random_i32(), 5);
    assert_eq!(screen.random_i32(), 0);
    assert!(screen.take_calls().is_empty());
}

#[test]
fn canvas_reports_its_dimensions_and_records_writes() {
    let mut canvas = Canvas::new(128, 96);
    assert_eq!(canvas.get_width(), 128);
    assert_eq!(canvas.get_height(), 96);
    canvas.set_pixel_raw(1, 2, 119);
    canvas.set_pixel_rgb(3, 4, 0x00FF_0000);
    canvas.set_pixel_argb(5, 6, 0xFF00_FF00);
    canvas.draw_inbuilt_sprite(0, 0, "app_background");
    canvas.draw_text(7, 8, "hi", 12, 0xFFFF_FFFF);
    assert_eq!(
        canvas.take_calls(),
        vec![
            HostCall::SetRaw { x: 1, y: 2, color: 119 },
            HostCall::SetRgb { x: 3, y: 4, color: 0x00FF_0000 },
            HostCall::SetArgb { x: 5, y: 6, color: 0xFF00_FF00 },
            HostCall::DrawInbuiltSprite { x: 0, y: 0, name: "app_background".to_string() },
            HostCall::DrawText { x: 7, y: 8, text: "hi".to_string(), size: 12, argb: 0xFFFF_FFFF },
        ]
    );
}

#[test]
fn log_levels_encode_like_the_boundary_expects() {
    assert_eq!(LogLevel::Trace.code(), 0);
    assert_eq!(LogLevel::Debug.code(), 10);
    assert_eq!(LogLevel::Info.code(), 20);
    assert_eq!(LogLevel::Warn.code(), 30);
    assert_eq!(LogLevel::Error.code(), 40);
}

#[test]
fn sound_categories_encode_in_declaration_order() {
    let categories = [
        SoundCategory::Master,
        SoundCategory::Music,
        SoundCategory::Records,
        SoundCategory::Weather,
        SoundCategory::Blocks,
        SoundCategory::Hostile,
        SoundCategory::Neutral,
        SoundCategory::Players,
        SoundCategory::Ambient,
        SoundCategory::Voice,
    ];
    for (index, category) in categories.iter().enumerate() {
        assert_eq!(category.code(), index as i32);
    }
}
