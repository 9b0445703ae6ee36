use diashow::cli::{Cli, Start};
use diashow::engine::{Diashow, TransitionState};
use diashow::frame::RgbaBuffer;

fn pixel(r: u8, g: u8, b: u8, a: u8) -> RgbaBuffer {
    RgbaBuffer {
        width: 1,
        height: 1,
        data: vec![r, g, b, a],
    }
}

fn start_parameter(start_index: Option<i64>, fade_iteration_step: Option<u8>) -> Start {
    Start {
        images: String::from("pics"),
        duration: 1,
        start_index,
        fade_iteration_duration: None,
        fade_iteration_step,
    }
}

fn engine_with(paths: &[&str], start_index: Option<i64>, step: Option<u8>) -> Diashow {
    let images: Vec<String> = paths.iter().map(|p| String::from(*p)).collect();
    Diashow::new(
        images,
        &start_parameter(start_index, step),
        pixel(0, 0, 0, 255),
    )
}

#[test]
fn start_index_resolves_from_front() {
    assert_eq!(Diashow::get_start_index(Some(1), 3), 1);
    assert_eq!(Diashow::get_start_index(Some(0), 3), 0);
    assert_eq!(Diashow::get_start_index(None, 3), 0);
}

#[test]
fn start_index_negative_counts_from_end() {
    assert_eq!(Diashow::get_start_index(Some(-1), 3), 2);
    assert_eq!(Diashow::get_start_index(Some(-2), 3), 1);
    assert_eq!(Diashow::get_start_index(Some(-3), 4), 1);
}

#[test]
fn new_engine_initial_state() {
    let engine = engine_with(&["a.jpg", "b.jpg", "c.jpg"], Some(-1), None);
    assert_eq!(engine.current_index, 2);
    assert_eq!(engine.current_alpha, 255);
    assert_eq!(engine.fade_iteration_step, 5);
    assert!(engine.change_armed);
    assert!(!engine.fade_armed);
    assert!(engine.transition == TransitionState::Idle);
    assert!(engine.image_queue.is_empty());
}

#[test]
fn effective_fade_parameters_default() {
    let defaults = start_parameter(None, None);
    assert_eq!(defaults.effective_fade_iteration_duration(), 50);
    assert_eq!(defaults.effective_fade_iteration_step(), 5);
    let chosen = Start {
        fade_iteration_duration: Some(80),
        fade_iteration_step: Some(9),
        ..start_parameter(None, None)
    };
    assert_eq!(chosen.effective_fade_iteration_duration(), 80);
    assert_eq!(chosen.effective_fade_iteration_step(), 9);
}

#[test]
fn iterate_index_cycles_after_playlist_length() {
    let mut engine = engine_with(&["a.jpg", "b.jpg", "c.jpg"], Some(1), None);
    engine.iterate_index();
    assert_eq!(engine.current_index, 2);
    engine.iterate_index();
    assert_eq!(engine.current_index, 0);
    engine.iterate_index();
    assert_eq!(engine.current_index, 1);
}

#[test]
fn absorb_pending_returns_queue_in_fifo_order() {
    let mut engine = engine_with(&["a.jpg", "b.jpg"], None, None);
    engine.push_discovered(String::from("d.jpg"));
    engine.push_discovered(String::from("e.jpg"));
    let first = engine.absorb_pending();
    assert_eq!(first, String::from("d.jpg"));
    assert_eq!(
        engine.images,
        vec![
            String::from("a.jpg"),
            String::from("b.jpg"),
            String::from("d.jpg"),
        ]
    );
    let second = engine.absorb_pending();
    assert_eq!(second, String::from("e.jpg"));
    assert_eq!(
        engine.images,
        vec![
            String::from("a.jpg"),
            String::from("b.jpg"),
            String::from("d.jpg"),
            String::from("e.jpg"),
        ]
    );
    assert!(engine.image_queue.is_empty());
}

#[test]
fn absorb_pending_empty_queue_returns_current_entry() {
    let mut engine = engine_with(&["a.jpg", "b.jpg"], Some(1), None);
    let path = engine.absorb_pending();
    assert_eq!(path, String::from("b.jpg"));
    assert_eq!(
        engine.images,
        vec![String::from("a.jpg"), String::from("b.jpg")]
    );
}

#[test]
fn discovery_shows_new_image_on_next_advance() {
    // Displaying b.jpg when d.jpg is discovered: the next advance must show
    // d.jpg, not c.jpg, and d.jpg stays in the rotation at the tail.
    let mut engine = engine_with(&["a.jpg", "b.jpg", "c.jpg"], Some(1), None);
    engine.push_discovered(String::from("d.jpg"));
    let path = engine.begin_change();
    assert_eq!(path, String::from("d.jpg"));
    assert_eq!(
        engine.images,
        vec![
            String::from("a.jpg"),
            String::from("b.jpg"),
            String::from("c.jpg"),
            String::from("d.jpg"),
        ]
    );
    assert!(engine.image_queue.is_empty());
    assert!(engine.transition == TransitionState::Loading);
}

#[test]
fn fade_cycle_completes_after_ceiling_of_255_over_step() {
    // Three images, default step 5: the advance firing starts a transition to
    // b.jpg; after ceil(255 / 5) = 51 fade-step firings the engine shows
    // b.jpg fully opaque and the advance timer is armed again.
    let mut engine = engine_with(&["a.jpg", "b.jpg", "c.jpg"], None, None);
    let path = engine.begin_change();
    assert_eq!(path, String::from("b.jpg"));
    assert!(!engine.change_armed && !engine.fade_armed);
    engine.begin_fade(pixel(255, 255, 255, 255));
    assert_eq!(engine.current_alpha, 0);
    let mut fires: u32 = 0;
    while engine.transition == TransitionState::Fading && fires < 1000 {
        // The two timers are never armed at once (and so never both
        // actionable in one tick).
        assert!(!(engine.change_armed && engine.fade_armed));
        engine.fade_step();
        fires += 1;
    }
    assert_eq!(fires, 51);
    assert!(engine.transition == TransitionState::Idle);
    assert_eq!(engine.current_alpha, 255);
    assert!(engine.change_armed);
    assert!(!engine.fade_armed);
    assert_eq!(engine.current_image.data, vec![255, 255, 255, 255]);
}

#[test]
fn fade_step_keeps_alpha_channels_complementary() {
    let mut engine = engine_with(&["a.jpg", "b.jpg"], None, None);
    engine.begin_change();
    engine.begin_fade(pixel(10, 20, 30, 255));
    engine.fade_step();
    assert_eq!(engine.current_alpha, 5);
    assert_eq!(engine.previous_image.data[3], 250);
    assert_eq!(engine.next_image.data[3], 5);
    assert_eq!(
        engine.previous_image.data[3] as u16 + engine.next_image.data[3] as u16,
        255
    );
    // Color bytes are untouched by the alpha adjustment.
    assert_eq!(engine.next_image.data[0], 10);
    assert_eq!(engine.next_image.data[1], 20);
    assert_eq!(engine.next_image.data[2], 30);
}

#[test]
fn fade_step_blends_next_image_into_composite() {
    // Step 254: the single intermediate firing raises the incoming (white)
    // image's alpha to 254 over the outgoing black one, so the composite is
    // nearly white — not the untouched black bottom image.
    let mut engine = engine_with(&["a.jpg", "b.jpg"], None, Some(254));
    engine.begin_change();
    engine.begin_fade(pixel(255, 255, 255, 255));
    engine.fade_step();
    assert!(engine.transition == TransitionState::Fading);
    assert_eq!(engine.current_image.width, 1);
    assert_eq!(engine.current_image.height, 1);
    assert!(engine.current_image.data[0] > 200);
    assert!(engine.current_image.data[1] > 200);
    assert!(engine.current_image.data[2] > 200);
    // The firing after that completes the fade.
    engine.fade_step();
    assert!(engine.transition == TransitionState::Idle);
    assert_eq!(engine.current_image.data, vec![255, 255, 255, 255]);
}

#[test]
fn fade_with_maximal_step_completes_in_one_firing() {
    let mut engine = engine_with(&["a.jpg", "b.jpg"], None, Some(255));
    engine.begin_change();
    engine.begin_fade(pixel(1, 2, 3, 255));
    engine.fade_step();
    assert!(engine.transition == TransitionState::Idle);
    assert_eq!(engine.current_alpha, 255);
    assert!(engine.change_armed);
    assert_eq!(engine.current_image.data, vec![1, 2, 3, 255]);
}

#[test]
fn cli_wraps_start_parameters() {
    let cli = Cli::Start(start_parameter(Some(2), None));
    match cli {
        Cli::Start(start) => assert_eq!(start.start_index, Some(2)),
    }
}

#[test]
fn set_alpha_channel_touches_every_fourth_byte_only() {
    let mut image = RgbaBuffer {
        width: 2,
        height: 1,
        data: vec![1, 2, 3, 4, 5, 6, 7, 8],
    };
    Diashow::set_alpha_channel_to(&mut image, 9);
    assert_eq!(image.data, vec![1, 2, 3, 9, 5, 6, 7, 9]);
}
