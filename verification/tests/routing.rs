use rgbman::colour::BRIGHTNESS_SCALE;
use rgbman::lighting::{Mode, State};
use rgbman::route::{Route, route, route_body, route_command, route_status, str_eq};

#[test]
fn paths_select_their_routes() {
    assert_eq!(route("/start_on"), Route::StartOn);
    assert_eq!(route("/start_off"), Route::StartOff);
    assert_eq!(route("/stop"), Route::Stop);
    assert_eq!(route("/"), Route::Index);
    assert_eq!(route("/start"), Route::NotFound);
    assert_eq!(route("/start_on/"), Route::NotFound);
    assert_eq!(route(""), Route::NotFound);
    assert_eq!(route("/START_ON"), Route::NotFound);
}

#[test]
fn statuses_and_bodies_match_the_routes() {
    assert_eq!(route_status(&Route::StartOn), 200);
    assert_eq!(route_status(&Route::StartOff), 200);
    assert_eq!(route_status(&Route::Stop), 200);
    assert_eq!(route_status(&Route::Index), 200);
    assert_eq!(route_status(&Route::NotFound), 404);
    assert_eq!(route_body(&Route::StartOn).unwrap(), "Starting: ON");
    assert_eq!(route_body(&Route::StartOff).unwrap(), "Starting: OFF");
    assert_eq!(route_body(&Route::Stop).unwrap(), "Stopped state machine");
    assert_eq!(route_body(&Route::NotFound).unwrap(), "Not found");
    assert!(route_body(&Route::Index).is_none());
}

#[test]
fn start_commands_seed_full_ramp_fades() {
    let cmd = route_command(&Route::StartOn).unwrap();
    assert!(cmd.equals(&State::Fading(Mode::On, BRIGHTNESS_SCALE)));
    let cmd = route_command(&Route::StartOff).unwrap();
    assert!(cmd.equals(&State::Fading(Mode::Off, BRIGHTNESS_SCALE)));
    assert!(route_command(&Route::Stop).is_none());
    assert!(route_command(&Route::Index).is_none());
    assert!(route_command(&Route::NotFound).is_none());
}

#[test]
fn string_comparison_is_exact() {
    assert!(str_eq("", ""));
    assert!(str_eq("/stop", "/stop"));
    assert!(!str_eq("/stop", "/stop "));
    assert!(!str_eq("/stop", "/stoP"));
    assert!(!str_eq("a", ""));
}
