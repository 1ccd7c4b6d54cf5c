use zwift_capture::{Player, PlayerState};

fn entry_with(x: i32, y: i32, speed: i32, cadence_uhz: i32, f20: i32) -> PlayerState {
    let mut state = PlayerState::empty();
    state.x = x;
    state.y = y;
    state.speed = speed;
    state.cadence_uhz = cadence_uhz;
    state.f20 = f20;
    state
}

#[test]
fn position_conversion() {
    let state = entry_with(12345, -6789, 0, 0, 0);
    let player = Player::from(&state);
    assert_eq!(player.x_cm, 12345);
    assert_eq!(player.y_cm, -6789);
    // Meters are the raw centimeters divided by 100.
    assert_eq!(player.x_cm as f64 / 100.0, 123.45);
    assert_eq!(player.y_cm as f64 / 100.0, -67.89);
}

#[test]
fn speed_conversion() {
    let state = entry_with(0, 0, 3_600_000, 0, 0);
    let player = Player::from(&state);
    assert_eq!(player.speed_raw, 3_600_000);
    // Meters per second are the raw value divided by 1000 and then by 3600.
    assert_eq!(player.speed_raw as f64 / 1000.0 / 3600.0, 1.0);
}

#[test]
fn cadence_conversion() {
    // Divide by 1000, multiply by 6, integer-divide by 100.
    let player = Player::from(&entry_with(0, 0, 0, 15_000_000, 0));
    assert_eq!(player.cadence, 900);
    let player = Player::from(&entry_with(0, 0, 0, 1_500_000, 0));
    assert_eq!(player.cadence, 90);
    // The divisions truncate.
    let player = Player::from(&entry_with(0, 0, 0, 1_999, 0));
    assert_eq!(player.cadence, 0);
}

#[test]
fn power_up_extraction() {
    let player = Player::from(&entry_with(0, 0, 0, 0, 0x1F));
    assert_eq!(player.power_up, 0xF);
    let player = Player::from(&entry_with(0, 0, 0, 0, 0x10));
    assert_eq!(player.power_up, 0);
    let player = Player::from(&entry_with(0, 0, 0, 0, 0x25));
    assert_eq!(player.power_up, 5);
}

#[test]
fn normalizer_is_deterministic() {
    let state = entry_with(77, -3, 12_000_000, 2_345_678, 0x3A);
    let first = Player::from(&state);
    let second = Player::from(&state);
    assert_eq!(first, second);
}

#[test]
fn normalizer_passes_fields_through() {
    let mut state = PlayerState::empty();
    state.id = 42;
    state.world_time = 199_877_382_429;
    state.group_id = 7;
    state.heading = -494_035;
    state.lean = 1_000_000;
    state.road_position = 9_538_412;
    state.distance = 2063;
    state.time = 829;
    state.laps = 3;
    state.climbing = 11;
    state.heartrate = 165;
    state.power = 250;
    state.watching_rider_id = 42;
    let player = Player::from(&state);
    assert_eq!(player.id, 42);
    assert_eq!(player.world_time, 199_877_382_429);
    assert_eq!(player.group_id, 7);
    assert_eq!(player.heading, -494_035);
    assert_eq!(player.lean, 1_000_000);
    assert_eq!(player.road_position, 9_538_412);
    assert_eq!(player.distance, 2063);
    assert_eq!(player.time, 829);
    assert_eq!(player.laps, 3);
    assert_eq!(player.climbing, 11);
    assert_eq!(player.heartrate, 165);
    assert_eq!(player.power, 250);
    assert_eq!(player.watching_rider_id, 42);
}
