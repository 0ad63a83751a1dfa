use stregsystemet_tui::actions::PurchaseOrder;
use stregsystemet_tui::config::Config;
use stregsystemet_tui::error::AppError;
use stregsystemet_tui::events::{Command, Key, ReloadKind};
use stregsystemet_tui::models::{MemberInfo, Product};
use stregsystemet_tui::money::Money;
use stregsystemet_tui::state::{AppState, InputMode};

fn config(username: Option<&str>) -> Config {
    Config {
        username: username.map(|u| u.to_string()),
        room_id: 10,
        phone_number: None,
        license_plate: None,
    }
}

fn product(id: &str, name: &str, price: i32) -> Product {
    Product { id: id.to_string(), name: name.to_string(), price: Money::new(price) }
}

fn signed_in(balance: i32) -> AppState {
    let mut s = AppState::new(config(Some("alice")));
    s.apply_products(Ok(vec![product("12", "Cola", 1000)]));
    s.user.member_id = Some(7);
    s.user.member_info = Some(MemberInfo {
        balance: Money::new(balance),
        username: "alice".to_string(),
        name: "Alice".to_string(),
    });
    s
}

#[test]
fn starts_in_normal_mode_with_a_username() {
    let s = AppState::new(config(Some("alice")));
    assert_eq!(s.ui.input_mode, InputMode::Normal);
    let s = AppState::new(config(None));
    assert_eq!(s.ui.input_mode, InputMode::Editing);
}

#[test]
fn enter_then_leave_returns_to_normal() {
    let mut s = AppState::new(config(Some("alice")));
    s.push_input_mode(InputMode::SearchMode);
    s.pop_input_mode();
    assert_eq!(s.ui.input_mode, InputMode::Normal);
}

#[test]
fn two_levels_of_nesting_unwind_to_normal() {
    let mut s = AppState::new(config(Some("alice")));
    s.show_parking_modal();
    s.show_error_modal("bad", Some("Oops"));
    assert_eq!(s.ui.input_mode, InputMode::ErrorModal);
    s.hide_error_modal();
    assert_eq!(s.ui.input_mode, InputMode::ParkingModal);
    s.hide_parking_modal();
    assert_eq!(s.ui.input_mode, InputMode::Normal);
}

#[test]
fn leaving_with_nothing_remembered_goes_to_normal() {
    let mut s = AppState::new(config(None));
    s.pop_input_mode();
    assert_eq!(s.ui.input_mode, InputMode::Normal);
}

#[test]
fn quantity_is_clamped() {
    let mut s = signed_in(100_000);
    for _ in 0..200 {
        s.increase_quantity();
    }
    assert_eq!(s.modals.purchase.quantity, 99);
    for _ in 0..200 {
        s.decrease_quantity();
    }
    assert_eq!(s.modals.purchase.quantity, 1);
}

#[test]
fn purchase_without_account_opens_error_modal() {
    let mut s = AppState::new(config(Some("alice")));
    s.apply_products(Ok(vec![product("12", "Cola", 1000)]));
    s.show_purchase_modal();
    assert_eq!(s.ui.input_mode, InputMode::ErrorModal);
    assert_eq!(s.modals.error.title.as_deref(), Some("Invalid User"));
    assert_eq!(
        s.modals.error.message.as_deref(),
        Some("Please sign in with a valid username. The current\nusername doesn't exist or couldn't be verified.")
    );
}

#[test]
fn insufficient_balance_is_reported_in_the_modal() {
    let mut s = signed_in(500);
    s.show_purchase_modal();
    assert_eq!(s.ui.input_mode, InputMode::BuyConfirmation);
    assert!(s.prepare_purchase().is_none());
    assert_eq!(
        s.modals.purchase.error.as_deref(),
        Some("Insufficient balance. This purchase requires 10,00 DKK")
    );
}

#[test]
fn covered_purchase_gives_an_order() {
    let mut s = signed_in(5000);
    s.show_purchase_modal();
    s.increase_quantity();
    let order: PurchaseOrder = s.prepare_purchase().expect("order");
    assert_eq!(order.member_id, 7);
    assert_eq!(order.buystring, "alice 12:2");
    s.finish_purchase(Ok(()));
    assert!(s.modals.purchase.success);
}

#[test]
fn failed_purchase_keeps_the_account() {
    let mut s = signed_in(5000);
    s.show_purchase_modal();
    s.finish_purchase(Err(AppError::Api("boom".to_string())));
    assert_eq!(s.modals.purchase.error.as_deref(), Some("Purchase failed: API error: boom"));
    assert_eq!(s.user.member_info.as_ref().unwrap().balance, Money::new(5000));
}

#[test]
fn key_y_in_buy_confirmation_asks_for_the_purchase() {
    let mut s = signed_in(5000);
    s.handle_key_event(Key::Enter);
    assert_eq!(s.ui.input_mode, InputMode::BuyConfirmation);
    match s.handle_key_event(Key::Char('y')) {
        Command::Purchase(order) => assert_eq!(order.buystring, "alice 12:1"),
        other => panic!("unexpected {other:?}"),
    }
}

#[test]
fn catalog_is_sorted_and_cleaned() {
    let mut s = AppState::new(config(Some("alice")));
    s.apply_products(Ok(vec![
        product("10", "<b>Ten</b>", 100),
        product("9", "Nine", 100),
        product("2", "Two(0.5L)", 100),
        product("9", "Duplicate", 100),
    ]));
    let ids: Vec<String> = s.get_sorted_products().iter().map(|p| p.id.clone()).collect();
    assert_eq!(ids, vec!["2", "9", "10"]);
    assert_eq!(s.products.items[0].name, "Two (0.5L)");
    assert_eq!(s.products.items[1].name, "Nine");
    assert_eq!(s.products.items[2].name, "Ten");
}

#[test]
fn failed_catalog_load_is_recorded() {
    let mut s = AppState::new(config(Some("alice")));
    s.apply_products(Err(AppError::Network("down".to_string())));
    assert_eq!(s.products.error.as_deref(), Some("Network error: down"));
    assert!(s.products.items.is_empty());
}

#[test]
fn unknown_user_leaves_catalog_usable() {
    let mut s = AppState::new(config(Some("ghost")));
    s.apply_products(Ok(vec![product("1", "Cola", 1000), product("2", "Beer", 1500)]));
    s.apply_named_products(Ok(vec![("cola".to_string(), 1)]));
    let name = s.begin_user_load().expect("username");
    assert_eq!(name, "ghost");
    let r = s.apply_member_id(&name, Ok(None));
    assert!(matches!(r, Ok(None)));
    assert_eq!(s.user.error.as_deref(), Some("Username 'ghost' does not exist"));
    assert!(s.products.error.is_none());
    assert_eq!(s.products.items.len(), 2);
    s.show_search_modal();
    for c in "cola".chars() {
        s.handle_key_event(Key::Char(c));
    }
    assert_eq!(s.modals.search.results.len(), 1);
    assert_eq!(s.modals.search.results[0].id, "1");
}

#[test]
fn member_data_keeps_successes_and_first_error() {
    let mut s = AppState::new(config(Some("alice")));
    s.begin_user_load();
    s.apply_member_id("alice", Ok(Some(3))).unwrap();
    s.apply_member_data(
        Err(AppError::Api("info".to_string())),
        Err(AppError::Api("sales".to_string())),
    );
    assert_eq!(s.user.error.as_deref(), Some("Failed to fetch member info: API error: info"));
    let mut s = AppState::new(config(Some("alice")));
    s.apply_member_data(
        Ok(MemberInfo { balance: Money::new(1), username: "a".into(), name: "A".into() }),
        Err(AppError::Api("sales".to_string())),
    );
    assert!(s.user.member_info.is_some());
    assert_eq!(s.user.error.as_deref(), Some("Failed to fetch sales: API error: sales"));
}

#[test]
fn reload_failure_after_typing_username() {
    let mut s = AppState::new(config(None));
    for c in " bob ".chars() {
        s.handle_key_event(Key::Char(c));
    }
    match s.handle_key_event(Key::Enter) {
        Command::SaveConfigAndReloadUser(ReloadKind::InitialUsername) => {}
        other => panic!("unexpected {other:?}"),
    }
    assert_eq!(s.config.username.as_deref(), Some("bob"));
    s.user_reload_failed(ReloadKind::InitialUsername, &AppError::Network("x".into()));
    assert_eq!(s.user.error.as_deref(), Some("Username error: Error loading user data: Network error: x"));
    assert_eq!(s.ui.input_mode, InputMode::ErrorModal);
}

#[test]
fn count_prefix_moves_the_highlight() {
    let mut s = AppState::new(config(Some("alice")));
    let items: Vec<Product> = (1..=20).map(|i| product(&i.to_string(), "X", 1)).collect();
    s.apply_products(Ok(items));
    s.handle_key_event(Key::Char('5'));
    assert_eq!(s.get_movement_target_indices(), vec![5]);
    s.handle_key_event(Key::Char('j'));
    assert_eq!(s.products.selected, Some(5));
    s.handle_key_event(Key::Char('G'));
    assert_eq!(s.products.selected, Some(19));
    s.handle_key_event(Key::Char('g'));
    s.handle_key_event(Key::Char('g'));
    assert_eq!(s.products.selected, Some(0));
    s.handle_key_event(Key::Char('k'));
    assert_eq!(s.products.selected, Some(0));
}

#[test]
fn terminal_too_small_opens_and_closes_warning() {
    let mut s = AppState::new(config(Some("alice")));
    s.check_terminal_size(80, 24);
    assert_eq!(s.ui.input_mode, InputMode::TerminalSizeModal);
    s.check_terminal_size(200, 50);
    assert_eq!(s.ui.input_mode, InputMode::Normal);
    assert!(!s.modals.terminal_size.visible);
}

#[test]
fn search_selection_wraps() {
    let mut s = AppState::new(config(Some("alice")));
    s.apply_products(Ok(vec![product("1", "Cola", 1), product("2", "Cola Zero", 1)]));
    s.show_search_modal();
    s.modals.search.input = "cola".to_string();
    s.update_search_results();
    assert_eq!(s.modals.search.results.len(), 2);
    s.previous_search_result();
    assert_eq!(s.modals.search.selected_index, 1);
    s.next_search_result();
    assert_eq!(s.modals.search.selected_index, 0);
    s.next_search_result();
    s.select_product_from_search();
    assert_eq!(s.products.selected, Some(1));
    assert_eq!(s.ui.input_mode, InputMode::Normal);
}

#[test]
fn username_not_found_is_reworded() {
    let mut s = AppState::new(config(Some("carol")));
    s.user.error = Some("API error: user not found".to_string());
    s.user_reload_finished();
    assert_eq!(s.user.error.as_deref(), Some("User 'carol' not found"));
}

#[test]
fn payment_modal_needs_an_account() {
    let mut s = AppState::new(config(Some("alice")));
    s.show_qr_payment_modal();
    assert_eq!(s.ui.input_mode, InputMode::ErrorModal);
    assert_eq!(
        s.modals.error.message.as_deref(),
        Some("Invalid user account. Please log in with a valid username.")
    );
}

#[test]
fn payment_modal_unwinds_both_steps() {
    let mut s = signed_in(100);
    s.show_qr_payment_modal();
    assert_eq!(s.ui.input_mode, InputMode::QrPaymentAmount);
    for c in "75".chars() {
        s.handle_key_event(Key::Char(c));
    }
    assert_eq!(s.modals.qr_payment.amount_input, "75");
    assert!(matches!(s.handle_key_event(Key::Enter), Command::GenerateQr));
    s.show_qr_code();
    assert_eq!(s.ui.input_mode, InputMode::QrPaymentDisplay);
    s.handle_key_event(Key::Backspace);
    assert_eq!(s.ui.input_mode, InputMode::QrPaymentAmount);
    s.show_qr_code();
    s.handle_key_event(Key::Esc);
    assert_eq!(s.ui.input_mode, InputMode::Normal);
    assert!(!s.modals.qr_payment.visible);
}

#[test]
fn selected_search_result() {
    let mut s = AppState::new(config(Some("alice")));
    assert!(s.get_selected_search_result().is_none());
    s.apply_products(Ok(vec![product("1", "Cola", 1), product("2", "Cola Zero", 1)]));
    s.show_search_modal();
    s.handle_key_event(Key::Char('z'));
    assert_eq!(s.get_selected_search_result().map(|p| p.id.clone()), Some("2".to_string()));
    s.handle_key_event(Key::Backspace);
    assert!(s.modals.search.results.is_empty());
}

#[test]
fn parking_form_keys() {
    let mut s = AppState::new(config(Some("alice")));
    s.handle_key_event(Key::Char('p'));
    assert_eq!(s.ui.input_mode, InputMode::ParkingModal);
    for c in "1234567890x".chars() {
        s.handle_key_event(Key::Char(c));
    }
    assert_eq!(s.modals.parking.phone_input, "12345678");
    s.handle_key_event(Key::Tab);
    for c in "ab-12345".chars() {
        s.handle_key_event(Key::Char(c));
    }
    assert_eq!(s.modals.parking.license_plate_input, "AB12345");
    match s.handle_key_event(Key::Enter) {
        Command::SaveConfig => {}
        other => panic!("unexpected {other:?}"),
    }
    assert_eq!(s.ui.input_mode, InputMode::ParkingModal);
    s.finish_parking_confirmation(Ok(()));
    assert_eq!(s.ui.input_mode, InputMode::ParkingConfirmation);
    match s.handle_key_event(Key::Char('y')) {
        Command::RegisterParking { plate, phone } => {
            assert_eq!(plate, "AB12345");
            assert_eq!(phone, "12345678");
        }
        other => panic!("unexpected {other:?}"),
    }
    s.finish_parking(Err(AppError::Api("nope".into())));
    assert_eq!(s.modals.parking.error.as_deref(), Some("Failed to register parking: API error: nope"));
    s.handle_key_event(Key::Char('x'));
    assert_eq!(s.ui.input_mode, InputMode::Normal);
    assert!(!s.modals.parking.visible);
}

#[test]
fn bad_parking_details_open_error_modal() {
    let mut s = AppState::new(config(Some("alice")));
    s.handle_key_event(Key::Char('p'));
    s.handle_key_event(Key::Char('1'));
    s.handle_key_event(Key::Enter);
    assert_eq!(s.ui.input_mode, InputMode::ErrorModal);
    assert_eq!(
        s.modals.error.message.as_deref(),
        Some("Error confirming parking: Input error: License plate cannot be empty")
    );
    s.handle_key_event(Key::Char('a'));
    assert_eq!(s.ui.input_mode, InputMode::ParkingModal);
}

#[test]
fn empty_username_edit_is_refused() {
    let mut s = AppState::new(config(Some("alice")));
    s.handle_key_event(Key::Char('u'));
    assert_eq!(s.modals.username.input, "alice");
    for _ in 0..5 {
        s.handle_key_event(Key::Backspace);
    }
    s.handle_key_event(Key::Enter);
    assert_eq!(s.ui.input_mode, InputMode::ErrorModal);
    assert_eq!(
        s.modals.error.message.as_deref(),
        Some("Error updating username: Input error: Username cannot be empty")
    );
    assert_eq!(s.config.username.as_deref(), Some("alice"));
}

#[test]
fn changed_username_asks_for_reload() {
    let mut s = AppState::new(config(Some("alice")));
    s.handle_key_event(Key::Char('u'));
    s.handle_key_event(Key::Char('2'));
    match s.handle_key_event(Key::Enter) {
        Command::SaveConfigAndReloadUser(ReloadKind::ChangedUsername) => {}
        other => panic!("unexpected {other:?}"),
    }
    assert_eq!(s.config.username.as_deref(), Some("alice2"));
    assert_eq!(s.ui.input_mode, InputMode::EditingUsername);
    assert!(s.finish_username_update(Ok(())));
    assert_eq!(s.ui.input_mode, InputMode::Normal);
    assert!(!s.modals.username.visible);
}

#[test]
fn failed_save_keeps_the_editors_open() {
    let mut s = AppState::new(config(Some("alice")));
    s.handle_key_event(Key::Char('u'));
    s.handle_key_event(Key::Char('2'));
    s.handle_key_event(Key::Enter);
    assert!(!s.finish_username_update(Err(AppError::Io("disk full".into()))));
    assert_eq!(s.ui.input_mode, InputMode::ErrorModal);
    assert_eq!(
        s.modals.error.message.as_deref(),
        Some("Error updating username: I/O error: disk full")
    );
    s.handle_key_event(Key::Esc);
    assert_eq!(s.ui.input_mode, InputMode::EditingUsername);
    assert!(s.modals.username.visible);

    let mut s = AppState::new(config(Some("alice")));
    s.handle_key_event(Key::Char('p'));
    for c in "12345678".chars() {
        s.handle_key_event(Key::Char(c));
    }
    s.handle_key_event(Key::Tab);
    for c in "AB12345".chars() {
        s.handle_key_event(Key::Char(c));
    }
    s.handle_key_event(Key::Enter);
    s.finish_parking_confirmation(Err(AppError::Io("disk full".into())));
    assert_eq!(
        s.modals.error.message.as_deref(),
        Some("Error confirming parking: I/O error: disk full")
    );
    s.handle_key_event(Key::Esc);
    assert_eq!(s.ui.input_mode, InputMode::ParkingModal);
    assert!(!s.modals.parking.confirming);
}

#[test]
fn quit_from_normal_and_from_size_warning() {
    let mut s = AppState::new(config(Some("alice")));
    s.handle_key_event(Key::Char('q'));
    assert!(s.should_quit);
    let mut s = AppState::new(config(Some("alice")));
    s.check_terminal_size(10, 10);
    s.handle_key_event(Key::Char('x'));
    assert!(!s.should_quit);
    s.handle_key_event(Key::Char('q'));
    assert!(s.should_quit);
}

#[test]
fn invalid_username_clears_the_account() {
    let mut s = signed_in(100);
    s.handle_invalid_username("gone");
    assert_eq!(s.user.error.as_deref(), Some("Username error: gone"));
    assert!(s.user.member_info.is_none());
    assert!(s.user.member_id.is_none());
}

#[test]
fn text_ids_sort_after_numbers_by_text() {
    let mut s = AppState::new(config(Some("alice")));
    s.apply_products(Ok(vec![product("b", "B", 1), product("a", "A", 1), product("3", "C", 1)]));
    let ids: Vec<String> = s.products.items.iter().map(|p| p.id.clone()).collect();
    assert_eq!(ids, vec!["3", "a", "b"]);
}
