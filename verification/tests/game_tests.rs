use mtg_rust::bad_apple::{BadApple, BLACK_LOW, BLACK_LOWEST, BLACK_NORMAL, BLACK_HIGH};
use mtg_rust::codec::VideoFile;
use mtg_rust::game::Game;
use mtg_rust::host::{Canvas, HostCall, LogLevel, Screen, SoundCategory};
use mtg_rust::raytracer::RayTracer;
use mtg_rust::registry::Registry;

fn fresh_screen() -> Screen {
    Screen::new(Vec::new())
}

#[test]
fn bad_apple_draws_one_frame_per_call_and_closes_at_the_end() {
    // Two one-frame-sized nibbles per byte on a 2x2 frame: one whole frame
    // of samples 0,1,2,3.
    let video = VideoFile::new(vec![2, 2, 0x01, 0x23]).unwrap();
    let mut player = BadApple::with_video(video);

    let mut screen = fresh_screen();
    let mut canvas = Canvas::new(2, 2);
    player.draw(&mut screen, &mut canvas);

    // The frame is written x-major, scaled by frame-size over canvas-size.
    assert_eq!(
        canvas.take_calls(),
        vec![
            HostCall::SetRaw { x: 0, y: 0, color: BLACK_LOWEST },
            HostCall::SetRaw { x: 0, y: 1, color: BLACK_LOW },
            HostCall::SetRaw { x: 1, y: 0, color: BLACK_NORMAL },
            HostCall::SetRaw { x: 1, y: 1, color: BLACK_HIGH },
        ]
    );
    // That was the last frame, so the session ends.
    assert_eq!(screen.take_calls(), vec![HostCall::CloseApp]);
}

#[test]
fn bad_apple_past_the_end_draws_nothing_and_closes() {
    let video = VideoFile::new(vec![2, 2, 0x01, 0x23]).unwrap();
    let mut player = BadApple::with_video(video);

    let mut screen = fresh_screen();
    let mut canvas = Canvas::new(2, 2);
    player.draw(&mut screen, &mut canvas);
    canvas.take_calls();
    screen.take_calls();

    player.draw(&mut screen, &mut canvas);
    assert!(canvas.take_calls().is_empty());
    assert_eq!(screen.take_calls(), vec![HostCall::CloseApp]);
}

#[test]
fn bad_apple_screen_open_rewinds_and_starts_the_sound() {
    let video = VideoFile::new(vec![2, 2, 0x01, 0x23]).unwrap();
    let mut player = BadApple::with_video(video);

    let mut screen = fresh_screen();
    player.screen_open(&mut screen);
    assert_eq!(
        screen.take_calls(),
        vec![HostCall::PlaySound {
            id: "mini_tardis:bad_apple".to_string(),
            category: SoundCategory::Records,
            volume_bits: 0x3F80_0000,
            pitch_bits: 0x3F80_0000,
        }]
    );

    // The counter was rewound to -5: the next five draws repeat frame 0.
    let mut canvas = Canvas::new(2, 2);
    for _ in 0..5 {
        player.draw(&mut screen, &mut canvas);
        let calls = canvas.take_calls();
        assert_eq!(calls[0], HostCall::SetRaw { x: 0, y: 0, color: BLACK_LOWEST });
        assert_eq!(calls.len(), 4);
        assert!(screen.take_calls().is_empty());
    }
}

#[test]
fn bad_apple_scales_frame_coordinates_down_to_the_canvas() {
    // A 4x1 frame on a wider canvas: pixel x is scaled by width/canvas.
    let video = VideoFile::new(vec![4, 1, 0x01, 0x23]).unwrap();
    let mut player = BadApple::with_video(video);

    let mut screen = fresh_screen();
    let mut canvas = Canvas::new(8, 2);
    player.draw(&mut screen, &mut canvas);
    let calls = canvas.take_calls();
    assert_eq!(calls.len(), 4);
    // x * 4 / 8 for x in 0..4 gives 0, 0, 1, 1; y * 1 / 2 stays 0.
    assert_eq!(calls[0], HostCall::SetRaw { x: 0, y: 0, color: BLACK_LOWEST });
    assert_eq!(calls[1], HostCall::SetRaw { x: 0, y: 0, color: BLACK_LOW });
    assert_eq!(calls[2], HostCall::SetRaw { x: 1, y: 0, color: BLACK_NORMAL });
    assert_eq!(calls[3], HostCall::SetRaw { x: 1, y: 0, color: BLACK_HIGH });
}

#[test]
fn bad_apple_without_an_asset_closes_at_once() {
    let mut registry: Registry<BadApple> = Registry::new();
    let registration = registry.register(Vec::new()).expect("registration should succeed");
    let mut screen = fresh_screen();
    let mut canvas = Canvas::new(128, 96);
    assert_eq!(registry.draw(registration.handle, &mut screen, &mut canvas), Ok(()));
    assert!(canvas.take_calls().is_empty());
    assert_eq!(screen.take_calls(), vec![HostCall::CloseApp]);
}

#[test]
fn ray_tracer_spins_one_degree_per_tick_and_wraps() {
    let mut demo = RayTracer::new();
    let mut screen = fresh_screen();
    assert_eq!(demo.degrees(), 0);
    demo.screen_tick(&mut screen);
    assert_eq!(demo.degrees(), 1);
    for _ in 0..358 {
        demo.screen_tick(&mut screen);
    }
    assert_eq!(demo.degrees(), 359);
    demo.screen_tick(&mut screen);
    assert_eq!(demo.degrees(), 0);
    assert!(screen.take_calls().is_empty());
}

#[test]
fn ray_tracer_logs_its_lifecycle() {
    let mut demo = RayTracer::new();
    let mut screen = fresh_screen();
    demo.screen_open(&mut screen);
    demo.screen_close(&mut screen);
    assert_eq!(
        screen.take_calls(),
        vec![
            HostCall::Log { level: LogLevel::Info, message: "opened ray tracer".to_string() },
            HostCall::Log { level: LogLevel::Info, message: "closed ray tracer".to_string() },
        ]
    );
}

#[test]
fn ray_tracer_ignores_clicks_and_backgrounds() {
    let mut demo = RayTracer::new();
    let mut screen = fresh_screen();
    assert!(!demo.on_click(&mut screen, 1, 2));
    demo.draw_background(&mut screen);
    assert!(screen.take_calls().is_empty());
}
