use stregsystemet_tui::config::Config;
use stregsystemet_tui::error::AppError;
use stregsystemet_tui::state::{AppState, InputMode};
use stregsystemet_tui::validation::{is_valid_phone, is_valid_plate};

#[test]
fn phone_needs_exactly_eight_digits() {
    assert!(is_valid_phone("12345678"));
    assert!(!is_valid_phone("1234567"));
    assert!(!is_valid_phone("123456789"));
    assert!(!is_valid_phone("1234567a"));
    assert!(!is_valid_phone(""));
}

#[test]
fn plate_needs_two_letters_and_five_digits() {
    assert!(is_valid_plate("AB12345"));
    assert!(is_valid_plate("ab12345"));
    assert!(!is_valid_plate("A123456"));
    assert!(!is_valid_plate("AB1234"));
    assert!(!is_valid_plate("AB123456"));
    assert!(!is_valid_plate("ABC1234"));
    assert!(!is_valid_plate("ÆB12345"));
}

fn parking_state(phone: &str, plate: &str) -> AppState {
    let mut s = AppState::new(Config::default());
    s.config.username = Some("alice".to_string());
    s.ui.input_mode = InputMode::Normal;
    s.show_parking_modal();
    s.modals.parking.phone_input = phone.to_string();
    s.modals.parking.license_plate_input = plate.to_string();
    s
}

#[test]
fn confirm_parking_accepts_and_normalises() {
    let mut s = parking_state(" 12345678 ", " ab12345");
    assert!(s.confirm_parking().is_ok());
    assert_eq!(s.config.license_plate.as_deref(), Some("AB12345"));
    assert_eq!(s.config.phone_number.as_deref(), Some("12345678"));
    assert_eq!(s.ui.input_mode, InputMode::ParkingModal);
    s.finish_parking_confirmation(Ok(()));
    assert_eq!(s.modals.parking.license_plate_input, "AB12345");
    assert_eq!(s.ui.input_mode, InputMode::ParkingConfirmation);
    s.hide_parking_modal();
    assert_eq!(s.ui.input_mode, InputMode::Normal);
}

fn input_error(phone: &str, plate: &str) -> String {
    let mut s = parking_state(phone, plate);
    match s.confirm_parking() {
        Err(AppError::Input(m)) => m,
        other => panic!("unexpected {other:?}"),
    }
}

#[test]
fn confirm_parking_reports_each_problem() {
    assert_eq!(input_error("", "AB12345"), "Phone number cannot be empty");
    assert_eq!(input_error("12345678", "  "), "License plate cannot be empty");
    assert_eq!(input_error("1234", "AB12345"), "Phone number must be 8 digits");
    assert_eq!(input_error("12345678", "AB123"), "License plate must be exactly 7 characters");
    assert_eq!(input_error("12345678", "1B12345"), "License plate must start with 2 letters");
    assert_eq!(input_error("12345678", "ABC1234"), "License plate must end with 5 digits");
}

#[test]
fn config_validation_rejects_blank_username() {
    let mut c = Config::default();
    assert!(c.validate().is_ok());
    c.username = Some("   ".to_string());
    match c.validate() {
        Err(AppError::Config(m)) => assert_eq!(m, "Username cannot be empty or whitespace only"),
        other => panic!("unexpected {other:?}"),
    }
    c.username = Some("bob".to_string());
    assert!(c.validate().is_ok());
    assert_eq!(c.room_id, 10);
    assert_eq!(Config::get_api_url(), "https://stregsystem.fklub.dk/api");
}
