use webcam_facial::convert::yuyv_to_rgb;
use webcam_facial::data::{FaceCandidate, WebcamFacialData, WebcamFacialDataEvent};
use webcam_facial::gray::yuyv_to_grayscale;
use webcam_facial::lifecycle::{tick_action, TickAction};
use webcam_facial::select::select_face;
use webcam_facial::WebcamFacialPlugin;

fn zero_record() -> WebcamFacialData {
    WebcamFacialData { center_x: 0, center_y: 0, x: 0, y: 0, width: 0, height: 0, score: 0 }
}

fn plugin(autostart: bool) -> WebcamFacialPlugin {
    WebcamFacialPlugin {
        config_webcam_device: String::from("/dev/video0"),
        config_webcam_width: 4,
        config_webcam_height: 2,
        config_webcam_framerate: 30,
        config_webcam_autostart: autostart,
    }
}

#[test]
fn convert_output_length() {
    let frame = vec![128u8; 2 * 6 * 4];
    let rgb = yuyv_to_rgb(&frame, 6, 4);
    assert_eq!(rgb.len(), 6 * 4 * 3);
}

#[test]
fn convert_mid_gray_is_gray() {
    // Y = U = V = 128 is mid gray: R = G = B = 128 exactly.
    let frame = vec![128u8; 16];
    let rgb = yuyv_to_rgb(&frame, 4, 2);
    assert_eq!(rgb, vec![128u8; 24]);
}

#[test]
fn convert_known_pixel_pair() {
    // One pair: Y0 = 100, U = 50, Y1 = 150, V = 200, hand-computed:
    //   R = Y + 1.4075 (V - 128); G = Y - 0.3455 (U - 128) - 0.7169 (V - 128);
    //   B = Y + 1.7790 (U - 128), truncated.
    let frame = [100u8, 50, 150, 200];
    let rgb = yuyv_to_rgb(&frame, 2, 1);
    assert_eq!(rgb, vec![201u8, 75, 0, 251, 125, 11]);
}

#[test]
fn convert_saturates_high_and_low() {
    // Y = 255, U = 0, V = 255 drives red far above 255 and blue far below 0.
    let frame = [255u8, 0, 255, 255];
    let rgb = yuyv_to_rgb(&frame, 2, 1);
    assert_eq!(rgb, vec![255u8, 208, 27, 255, 208, 27]);
    // Y = 0, U = 255, V = 0 drives red below 0 and blue above 255.
    let frame2 = [0u8, 255, 0, 0];
    let rgb2 = yuyv_to_rgb(&frame2, 2, 1);
    assert_eq!(rgb2, vec![0u8, 47, 225, 0, 47, 225]);
}

#[test]
fn select_empty_is_zero_record() {
    let faces: Vec<FaceCandidate> = Vec::new();
    let r = select_face(&faces, 320, 240);
    assert_eq!(r, zero_record());
}

#[test]
fn select_single_candidate_centers() {
    // bbox (x=10, y=20, w=40, h=60) in a 320x240 frame:
    // center_x = (20 + 10) - 160 = -130, center_y = (30 + 20) - 120 = -70.
    let faces = vec![FaceCandidate { x: 10, y: 20, width: 40, height: 60, score: 3 }];
    let r = select_face(&faces, 320, 240);
    assert_eq!(
        r,
        WebcamFacialData {
            center_x: -130,
            center_y: -70,
            x: 10,
            y: 20,
            width: 40,
            height: 60,
            score: 3,
        }
    );
}

#[test]
fn select_takes_maximum_score() {
    let faces = vec![
        FaceCandidate { x: 0, y: 0, width: 10, height: 10, score: 2 },
        FaceCandidate { x: 50, y: 60, width: 20, height: 30, score: 9 },
        FaceCandidate { x: 5, y: 5, width: 8, height: 8, score: 4 },
    ];
    let r = select_face(&faces, 100, 100);
    assert_eq!(r.score, 9);
    assert_eq!((r.x, r.y, r.width, r.height), (50, 60, 20, 30));
    assert_eq!((r.center_x, r.center_y), (60 - 50, 75 - 50));
}

#[test]
fn select_tie_goes_to_first() {
    let faces = vec![
        FaceCandidate { x: 1, y: 1, width: 2, height: 2, score: 7 },
        FaceCandidate { x: 9, y: 9, width: 2, height: 2, score: 7 },
    ];
    let r = select_face(&faces, 16, 16);
    assert_eq!((r.x, r.y), (1, 1));
}

#[test]
fn grayscale_of_gray_frame() {
    let frame = vec![128u8; 16];
    let gray = yuyv_to_grayscale(&frame, 4, 2);
    assert_eq!(gray, vec![128u8; 8]);
}

#[test]
fn grayscale_weighs_channels() {
    // Y0 = Y1 = 81, U = 90, V = 240 converts to RGB (238, 13, 13); its sRGB
    // luma is (2126*238 + 7152*13 + 722*13) / 10000 = 60.
    let frame = [81u8, 90, 81, 240];
    let rgb = yuyv_to_rgb(&frame, 2, 1);
    assert_eq!(rgb, vec![238u8, 13, 13, 238, 13, 13]);
    let gray = yuyv_to_grayscale(&frame, 2, 1);
    assert_eq!(gray, vec![60u8, 60]);
}

#[test]
fn lifecycle_decisions() {
    assert_eq!(tick_action(true, false), TickAction::Spawn);
    assert_eq!(tick_action(true, true), TickAction::Idle);
    assert_eq!(tick_action(false, true), TickAction::SignalStop);
    assert_eq!(tick_action(false, false), TickAction::Idle);
}

#[test]
fn lifecycle_spawns_once_then_signals() {
    let controller = plugin(true).controller();
    // Enabled and not running: the first tick spawns, exactly once.
    let (action, running) = controller.tick_decision();
    assert_eq!(action, TickAction::Spawn);
    assert!(!running);
    controller.mark_spawned();
    // While the worker runs, further ticks do nothing.
    let (action, running) = controller.tick_decision();
    assert_eq!(action, TickAction::Idle);
    assert!(running);
    assert!(controller.worker_should_run());
    // Disabling only signals; the worker observes the flag on its own.
    let mut controller = controller;
    controller.control = false;
    let (action, _) = controller.tick_decision();
    assert_eq!(action, TickAction::SignalStop);
    controller.signal_stop();
    assert!(!controller.worker_should_run());
}

#[test]
fn autostart_off_stays_idle() {
    let controller = plugin(false).controller();
    assert!(!controller.control);
    let (action, running) = controller.tick_decision();
    assert_eq!(action, TickAction::Idle);
    assert!(!running);
}

#[test]
fn controller_carries_configuration() {
    let controller = plugin(true).controller();
    assert_eq!(controller.config_device, "/dev/video0");
    assert_eq!(controller.config_width, 4);
    assert_eq!(controller.config_height, 2);
    assert_eq!(controller.config_framerate, 30);
    assert!(controller.control);
}

#[test]
fn mailbox_holds_one_and_never_overwrites() {
    let controller = plugin(true).controller();
    let first = WebcamFacialData { center_x: 1, center_y: 2, x: 3, y: 4, width: 5, height: 6, score: 7 };
    controller.publish(first).unwrap();
    // The slot is full: a second send would block rather than overwrite.
    let second = zero_record();
    match controller.sender.try_send(second) {
        Err(crossbeam_channel::TrySendError::Full(d)) => assert_eq!(d, second),
        other => panic!("mailbox accepted a second undelivered value: {:?}", other),
    }
    // Draining hands the first value back out and frees the slot.
    let drained = controller.drain();
    assert_eq!(drained, vec![first]);
    controller.publish(second).unwrap();
    assert_eq!(controller.drain(), vec![second]);
}

#[test]
fn drain_empty_mailbox_is_empty() {
    let controller = plugin(true).controller();
    assert_eq!(controller.drain(), Vec::<WebcamFacialData>::new());
}

#[test]
fn end_to_end_one_tick_one_event() {
    // A synthetic camera yields one fixed 4x2 YUYV frame; a stub detector
    // returns one fixed candidate; one enabled driver tick later exactly
    // one outward event with the computed record has been published.
    let controller = plugin(true).controller();
    let (action, _) = controller.tick_decision();
    assert_eq!(action, TickAction::Spawn);
    controller.mark_spawned();

    // Worker iteration: capture (synthetic), convert, detect (stub), select,
    // publish.
    assert!(controller.worker_should_run());
    let frame = [128u8; 16];
    let gray = yuyv_to_grayscale(&frame, controller.config_width, controller.config_height);
    assert_eq!(gray, vec![128u8; 8]);
    let faces = vec![FaceCandidate { x: 1, y: 0, width: 2, height: 2, score: 5 }];
    let data = select_face(&faces, controller.config_width, controller.config_height);
    controller.publish(data).unwrap();

    // Driver side: drain and republish as events.
    let events: Vec<WebcamFacialDataEvent> =
        controller.drain().into_iter().map(WebcamFacialDataEvent).collect();
    assert_eq!(events.len(), 1);
    assert_eq!(
        events[0].0,
        WebcamFacialData { center_x: 0, center_y: 0, x: 1, y: 0, width: 2, height: 2, score: 5 }
    );
}
