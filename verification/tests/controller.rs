use hidctl::config::Config;
use hidctl::config::LedMode;
use hidctl::controller::before_apply_plan;
use hidctl::controller::check_status;
use hidctl::controller::clear_queue;
use hidctl::controller::clear_queue_done;
use hidctl::controller::init_plan;
use hidctl::controller::led_frame;
use hidctl::controller::query_status;
use hidctl::controller::query_status_plan;
use hidctl::controller::resolve_target_profile;
use hidctl::controller::switch_profile_plan;
use hidctl::controller::set_led_plan;
use hidctl::frames::status_response;
use hidctl::frames::ProtocolError;
use hidctl::frames::Status;
use hidctl::plan::Action;
use hidctl::session::select_session_params;
use hidctl::session::EndpointDesc;

fn sent_frame(plan: &[Action], i: usize) -> &Vec<u8> {
    match &plan[i] {
        Action::Send(frame) => frame,
        Action::Read => panic!("expected a send at index {}", i),
    }
}

fn count_sends(plan: &[Action]) -> usize {
    plan.iter().filter(|a| matches!(a, Action::Send(_))).count()
}

#[test]
fn clear_queue_terminates_after_the_empty_read() {
    let lens: Vec<usize> = vec![20, 20, 20, 0];
    assert_eq!(clear_queue(&lens), 4);
}

#[test]
fn clear_queue_consumes_everything_without_an_empty_read() {
    let lens: Vec<usize> = vec![20, 7];
    assert_eq!(clear_queue(&lens), 2);
}

#[test]
fn clear_queue_stops_at_once_on_an_empty_queue() {
    let lens: Vec<usize> = vec![0, 20];
    assert_eq!(clear_queue(&lens), 1);
    assert!(clear_queue_done(0));
    assert!(!clear_queue_done(20));
}

#[test]
fn query_status_discards_not_ready_frames() {
    let frames: Vec<Vec<u8>> = vec![vec![0u8; 20], status_response(0, 2)];
    assert_eq!(query_status(&frames), Ok(Status { error_code: 0, profile: 2 }));
}

#[test]
fn query_status_empty_read_is_a_transport_error() {
    let frames: Vec<Vec<u8>> = vec![vec![0u8; 20], Vec::new(), status_response(0, 2)];
    assert_eq!(query_status(&frames), Err(ProtocolError::Transport));
}

#[test]
fn query_status_runs_out_of_frames() {
    let frames: Vec<Vec<u8>> = vec![vec![0u8; 20], vec![0u8; 20]];
    assert_eq!(query_status(&frames), Err(ProtocolError::Mismatch));
}

#[test]
fn query_status_idempotent_on_an_unchanged_queue() {
    let frames: Vec<Vec<u8>> = vec![vec![0u8; 20], status_response(1, 4)];
    let first = query_status(&frames);
    let second = query_status(&frames);
    assert_eq!(first, second);
    assert_eq!(first, Ok(Status { error_code: 1, profile: 4 }));
}

#[test]
fn check_status_reports_rejections() {
    assert_eq!(check_status(Status { error_code: 0, profile: 2 }), Ok(2));
    assert_eq!(check_status(Status { error_code: 5, profile: 2 }), Err(ProtocolError::Rejected));
}

#[test]
fn resolve_profile_prefers_the_request() {
    assert_eq!(resolve_target_profile(3, &Vec::new()), Some(3));
}

#[test]
fn resolve_profile_polls_until_nonzero() {
    let polled = vec![
        Status { error_code: 0, profile: 0 },
        Status { error_code: 0, profile: 0 },
        Status { error_code: 0, profile: 2 },
    ];
    assert_eq!(resolve_target_profile(0, &polled), Some(2));
}

#[test]
fn resolve_profile_gives_up_at_the_script_end() {
    let polled = vec![Status { error_code: 0, profile: 0 }];
    assert_eq!(resolve_target_profile(0, &polled), None);
}

#[test]
fn query_status_plan_shape() {
    let plan = query_status_plan();
    assert_eq!(plan.len(), 2);
    assert_eq!(sent_frame(&plan, 0), &vec![0x10, 0xff, 0x0f, 0x4a, 0x00, 0x00, 0x00]);
    assert!(matches!(plan[1], Action::Read));
}

#[test]
fn switch_profile_plan_shape() {
    let plan = switch_profile_plan(2);
    assert_eq!(plan.len(), 8);
    assert_eq!(sent_frame(&plan, 2), &vec![0x10, 0xff, 0x0f, 0x3a, 0x00, 0x02, 0x00]);
    // the switch frame is followed by three queued responses
    assert!(matches!(plan[3], Action::Read));
    assert!(matches!(plan[4], Action::Read));
    assert!(matches!(plan[5], Action::Read));
    // a status query opens and another confirms
    assert_eq!(sent_frame(&plan, 0), &vec![0x10, 0xff, 0x0f, 0x4a, 0x00, 0x00, 0x00]);
    assert_eq!(sent_frame(&plan, 6), &vec![0x10, 0xff, 0x0f, 0x4a, 0x00, 0x00, 0x00]);
}

#[test]
fn led_frames_per_mode() {
    let off = led_frame(&LedMode::Off);
    assert_eq!(
        off,
        vec![0x11, 0xff, 0x0e, 0x3a, 0, 0, 0, 0, 0, 1, 0, 0, 0, 0, 0, 0, 0, 0, 0, 0],
    );
    let fixed = led_frame(&LedMode::Static { r: 10, g: 20, b: 30 });
    assert_eq!(fixed[5], 0x01);
    assert_eq!(&fixed[6..9], &[10, 20, 30]);
    assert_eq!(&fixed[11..14], &[0, 0, 0]);
    let cycle = led_frame(&LedMode::Cycle { speed: 0x2af8, brightness: 0x64 });
    assert_eq!(cycle[5], 0x02);
    assert_eq!(&cycle[6..9], &[0, 0, 0]);
    assert_eq!(cycle[11], 0x2a);
    assert_eq!(cycle[12], 0xf8);
    assert_eq!(cycle[13], 0x64);
}

#[test]
fn set_led_plan_shape() {
    let plan = set_led_plan(&LedMode::Off);
    assert_eq!(plan.len(), 6);
    // the LED feature is woken by a root command before the LED frame
    assert_eq!(sent_frame(&plan, 2), &vec![0x10, 0xff, 0x0e, 0x0a, 0x00, 0x00, 0x00]);
    assert_eq!(sent_frame(&plan, 4)[2], 0x0e);
}

#[test]
fn init_plan_shape() {
    let plan = init_plan();
    assert_eq!(plan.len(), 69);
    assert_eq!(count_sends(&plan), 35);
    // opens with feature discovery
    assert_eq!(sent_frame(&plan, 0), &vec![0x10, 0xff, 0x00, 0x1a, 0x00, 0x03, 0x00]);
    // switches to profile 1 near the end
    assert_eq!(sent_frame(&plan, 57), &vec![0x10, 0xff, 0x0f, 0x3a, 0x00, 0x01, 0x00]);
    // closes with the two error-handling commands, each confirmed
    assert_eq!(sent_frame(&plan, 63), &vec![0x10, 0xff, 0x0f, 0xbc, 0x00, 0x00, 0x00]);
    assert_eq!(sent_frame(&plan, 66), &vec![0x10, 0xff, 0x0f, 0xcc, 0x03, 0x00, 0x00]);
}

#[test]
fn before_apply_plan_shape() {
    let plan = before_apply_plan(2);
    assert_eq!(plan.len(), 22);
    assert_eq!(count_sends(&plan), 11);
    // reads two stored record fragments back first
    let first = sent_frame(&plan, 0);
    assert_eq!(first[3], 0x5a);
    assert_eq!(first[5], 2);
    assert_eq!(first[7], 0x10);
    let second = sent_frame(&plan, 2);
    assert_eq!(second[7], 0xe0);
    // then switches to the profile
    assert_eq!(sent_frame(&plan, 6), &vec![0x10, 0xff, 0x0f, 0x3a, 0x00, 0x02, 0x00]);
}

#[test]
fn session_params_prefer_first_endpoints() {
    let endpoints = vec![
        EndpointDesc { address: 0x81, direction_in: true },
        EndpointDesc { address: 0x02, direction_in: false },
        EndpointDesc { address: 0x83, direction_in: true },
    ];
    let numbers: Vec<u8> = vec![0, 1];
    let params = select_session_params(&numbers, &endpoints);
    assert_eq!(params.interface, 1);
    assert_eq!(params.read_address, 0x81);
    assert_eq!(params.write_address, 0x02);
}

#[test]
fn session_params_defaults() {
    let params = select_session_params(&Vec::new(), &Vec::new());
    assert_eq!(params.interface, 0x00);
    assert_eq!(params.read_address, 0x82);
    assert_eq!(params.write_address, 0x00);
}

#[test]
fn default_config_values() {
    let config = Config::default();
    assert_eq!(config.vendor_id, 0x046d);
    assert_eq!(config.product_id, 0xc08c);
    assert!(config.clear_queue);
    assert!(!config.print_endpoints);
    assert!(!config.print_status);
    assert!(!config.write_profile);
    assert!(!config.write_color);
    assert_eq!(config.switch_to_profile, 0);
    assert_eq!(config.poll_rate, 1000);
    assert_eq!(config.dpi_array, [400, 800, 1600, 3200, 0]);
    assert!(matches!(config.led_mode, LedMode::Static { r: 0xff, g: 0xff, b: 0x00 }));
}
