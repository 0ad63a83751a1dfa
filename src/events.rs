use vstd::prelude::*;
use crate::actions::PurchaseOrder;
use crate::error::{error_text, AppError};
use crate::formatters::{format_error_message, formatted_message};
use crate::navigation::{movement_targets_of, prefix_count, row_down, row_up, current_row};
use crate::search::{utf8_byte_len, utf8_len};
use crate::state::{data_kept, entered, left, modals_kept_but, AppState, InputMode, ModalKind};
use crate::text::{
    alnum_of, chars_of, contains_chars, contains_seq, is_alphanumeric, is_ascii_digit, is_digit,
    string_from_chars, trim_chars, trimmed,
};

verus! {

/// A key press, as the event loop hands it over.
#[derive(Debug, Clone, Copy, PartialEq, Eq, Structural)]
pub enum Key {
    Char(char),
    /// A character typed with Control held.
    CtrlChar(char),
    Enter,
    Esc,
    Backspace,
    Up,
    Down,
    Left,
    Right,
    Tab,
    BackTab,
    Other,
}

/// Why the account is being loaded again.
#[derive(Debug, Clone, Copy, PartialEq, Eq, Structural)]
pub enum ReloadKind {
    /// At start-up, with the configured username.
    Startup,
    /// After the first username was typed in.
    InitialUsername,
    /// After the username was changed in its modal.
    ChangedUsername,
    /// After a purchase went through.
    AfterPurchase,
}

/// Outside work that a key press asks of the event loop, which performs it and
/// hands the outcome back.
#[derive(Debug, Clone)]
pub enum Command {
    Nothing,
    /// Write the settings back after the parking details were taken; then
    /// `finish_parking_confirmation`.
    SaveConfig,
    /// Write the settings back, then load the account again (for a changed
    /// username, `finish_username_update` comes between the two).
    SaveConfigAndReloadUser(ReloadKind),
    /// Send this purchase; then `finish_purchase`, and after a success reload.
    Purchase(PurchaseOrder),
    /// Register parking for this plate and phone number; then `finish_parking`.
    RegisterParking { plate: String, phone: String },
    /// Make a payment code for the typed amount.
    GenerateQr,
}

pub open spec fn is_nothing(c: Command) -> bool {
    c is Nothing
}

fn push_char(s: &mut String, c: char)
    ensures
        final(s)@ == old(s)@.push(c),
{
    let mut v = chars_of(s.as_str());
    v.push(c);
    *s = string_from_chars(&v);
}

fn pop_char(s: &mut String)
    ensures
        final(s)@ == if old(s)@.len() > 0 {
            old(s)@.drop_last()
        } else {
            old(s)@
        },
{
    let mut v = chars_of(s.as_str());
    if v.len() > 0 {
        v.pop();
    }
    *s = string_from_chars(&v);
}

fn to_ascii_uppercase(c: char) -> (r: char)
    ensures
        r == crate::text::ascii_upper(c),
{
    if 'a' <= c && c <= 'z' {
        ((c as u32 - 32) as u8) as char
    } else {
        c
    }
}

/// A control character acts as the plain one, except where a mode says otherwise.
pub open spec fn plain(k: Key) -> Key {
    match k {
        Key::CtrlChar(c) => Key::Char(c),
        _ => k,
    }
}

fn plain_key(k: Key) -> (r: Key)
    ensures
        r == plain(k),
{
    match k {
        Key::CtrlChar(c) => Key::Char(c),
        _ => k,
    }
}

impl AppState {
    /// Keys on the catalog: `q` quits, `j`/`k` (or arrows) move by the count
    /// prefix, `gg` and `G` jump to the ends, digits build the count prefix,
    /// `u` edits the username, `/` or `s` searches, `p` registers parking and
    /// Enter buys the highlighted product.
    pub fn handle_normal_mode(&mut self, key: Key) -> (r: Command)
        requires
            old(self).wf(),
        ensures
            final(self).wf(),
            is_nothing(r),
            normal_key_effect(*old(self), *final(self), key, r),
            final(self).config == old(self).config,
            final(self).user == old(self).user,
            final(self).products.items == old(self).products.items,
    {
        match plain_key(key) {
            Key::Char('q') => {
                self.should_quit = true;
            },
            Key::Esc => {
                self.ui.number_prefix = String::new();
                self.ui.pending_g = false;
            },
            Key::Char('j') | Key::Down => {
                let count = self.parse_and_clear_number_prefix();
                self.move_products_down(count);
                self.ui.pending_g = false;
            },
            Key::Char('k') | Key::Up => {
                let count = self.parse_and_clear_number_prefix();
                self.move_products_up(count);
                self.ui.pending_g = false;
            },
            Key::Char('g') => {
                if self.ui.pending_g {
                    self.go_to_top();
                    self.ui.pending_g = false;
                } else {
                    self.ui.pending_g = true;
                }
            },
            Key::Char('G') => {
                self.go_to_bottom();
            },
            Key::Char(c) => {
                if is_ascii_digit(c) {
                    push_char(&mut self.ui.number_prefix, c);
                    let targets = self.get_movement_target_indices();
                    if targets.len() == 0 {
                        self.ui.number_prefix = String::new();
                    }
                    self.ui.pending_g = false;
                } else if c == 'u' {
                    if self.config.username.is_some() {
                        self.show_username_modal();
                    }
                } else if c == '/' || c == 's' {
                    self.show_search_modal();
                } else if c == 'p' {
                    self.show_parking_modal();
                }
            },
            Key::Enter => {
                if self.config.username.is_some() && self.products.items.len() > 0 {
                    self.show_purchase_modal();
                }
            },
            _ => {},
        }
        Command::Nothing
    }
}

/// `b` shows what `a` shows: same data, modes, modals and quit flag.
pub open spec fn same_screen(a: AppState, b: AppState) -> bool {
    &&& b.config == a.config
    &&& b.products == a.products
    &&& b.user == a.user
    &&& b.modals == a.modals
    &&& b.should_quit == a.should_quit
    &&& b.ui.input_mode == a.ui.input_mode
    &&& b.ui.mode_stack == a.ui.mode_stack
}

pub open spec fn user_cleared(o: AppState, f: AppState) -> bool {
    &&& f.user.member_id.is_none()
    &&& f.user.member_info.is_none()
    &&& f.user.latest_sales@.len() == 0
    &&& f.user.error.is_none()
}

impl AppState {
    /// Keys while the first username is typed: Enter takes the trimmed input
    /// when it is not empty and asks for the settings to be saved and the
    /// account loaded; Esc leaves only when a username is configured.
    pub fn handle_editing_mode(&mut self, key: Key) -> (r: Command)
        requires
            old(self).wf(),
        ensures
            final(self).wf(),
            editing_key_effect(*old(self), *final(self), key, r),
            final(self).products == old(self).products,
            final(self).modals == old(self).modals,
    {
        match plain_key(key) {
            Key::Enter => {
                let name = trim_chars(&chars_of(self.ui.input.as_str()));
                if name.len() > 0 {
                    self.config.username = Some(string_from_chars(&name));
                    self.ui.input_mode = InputMode::Normal;
                    self.user.member_id = None;
                    self.user.member_info = None;
                    self.user.latest_sales = Vec::new();
                    self.user.error = None;
                    return Command::SaveConfigAndReloadUser(ReloadKind::InitialUsername);
                }
            },
            Key::Char(c) => {
                push_char(&mut self.ui.input, c);
            },
            Key::Backspace => {
                pop_char(&mut self.ui.input);
            },
            Key::Esc => {
                if self.config.username.is_some() {
                    self.ui.input_mode = InputMode::Normal;
                }
            },
            _ => {},
        }
        Command::Nothing
    }

    /// Keys in the username modal: Enter takes the edited username and asks for
    /// the settings to be saved (an empty one opens the error modal), Esc
    /// closes, other keys edit.
    pub fn handle_username_editing(&mut self, key: Key) -> (r: Command)
        requires
            old(self).wf(),
        ensures
            final(self).wf(),
            username_key_effect(*old(self), *final(self), key, r),
            final(self).products == old(self).products,
    {
        match plain_key(key) {
            Key::Enter => {
                match self.update_username() {
                    Err(e) => {
                        let message = String::from_str("Error updating username: ").concat(
                            e.to_display_string().as_str(),
                        );
                        self.show_error_modal(message.as_str(), Some("Username Update Error"));
                    },
                    Ok(()) => {
                        return Command::SaveConfigAndReloadUser(ReloadKind::ChangedUsername);
                    },
                }
            },
            Key::Char(c) => {
                push_char(&mut self.modals.username.input, c);
            },
            Key::Backspace => {
                pop_char(&mut self.modals.username.input);
            },
            Key::Esc => {
                self.hide_username_modal();
            },
            _ => {},
        }
        Command::Nothing
    }
}

impl AppState {
    /// Keys in the purchase modal: once a result is shown any key closes it;
    /// otherwise `y` decides on the purchase, `n` or Esc closes, and `+`/`-`
    /// (or right and left) change the quantity.
    pub fn handle_buy_confirmation(&mut self, key: Key) -> (r: Command)
        requires
            old(self).wf(),
        ensures
            final(self).wf(),
            buy_key_effect(*old(self), *final(self), key, r),
            data_kept(*old(self), *final(self)),
    {
        if self.modals.purchase.success || self.modals.purchase.error.is_some() {
            self.hide_purchase_modal();
            return Command::Nothing;
        }
        match plain_key(key) {
            Key::Char('y') => {
                match self.prepare_purchase() {
                    Some(order) => {
                        return Command::Purchase(order);
                    },
                    None => {},
                }
            },
            Key::Char('n') | Key::Esc => {
                self.hide_purchase_modal();
            },
            Key::Char('+') | Key::Char('=') | Key::Right => {
                self.increase_quantity();
            },
            Key::Char('-') | Key::Char('_') | Key::Left => {
                self.decrease_quantity();
            },
            _ => {},
        }
        Command::Nothing
    }

    /// Keys in the search modal: Enter picks the selected result, Control-N or
    /// down and Control-P or up move the selection, Esc closes, and typing
    /// edits the query and ranks again.
    pub fn handle_search_mode(&mut self, key: Key) -> (r: Command)
        requires
            old(self).wf(),
        ensures
            final(self).wf(),
            is_nothing(r),
            search_key_effect(*old(self), *final(self), key, r),
            final(self).config == old(self).config,
            final(self).user == old(self).user,
            final(self).products.items == old(self).products.items,
    {
        match key {
            Key::Enter => {
                self.select_product_from_search();
            },
            Key::CtrlChar('n') | Key::Down => {
                self.next_search_result();
            },
            Key::CtrlChar('p') | Key::Up => {
                self.previous_search_result();
            },
            Key::Char(c) | Key::CtrlChar(c) => {
                push_char(&mut self.modals.search.input, c);
                self.update_search_results();
            },
            Key::Backspace => {
                pop_char(&mut self.modals.search.input);
                self.update_search_results();
            },
            Key::Esc => {
                self.hide_search_modal();
            },
            _ => {},
        }
        Command::Nothing
    }

    /// Keys in the parking form: Enter checks it (a failure opens the error
    /// modal; success asks for the settings to be saved), Tab and Shift-Tab
    /// switch fields, typing fills the phone number (up to eight digits) or the
    /// plate (letters and digits, upper-cased), Esc closes.
    pub fn handle_parking_modal(&mut self, key: Key) -> (r: Command)
        requires
            old(self).wf(),
        ensures
            final(self).wf(),
            parking_key_effect(*old(self), *final(self), key, r),
            final(self).products == old(self).products,
            final(self).user == old(self).user,
    {
        match plain_key(key) {
            Key::Enter => {
                match self.confirm_parking() {
                    Err(e) => {
                        let message = String::from_str("Error confirming parking: ").concat(
                            e.to_display_string().as_str(),
                        );
                        self.show_error_modal(message.as_str(), Some("Parking Error"));
                    },
                    Ok(()) => {
                        return Command::SaveConfig;
                    },
                }
            },
            Key::Tab => {
                self.next_parking_field();
            },
            Key::BackTab => {
                self.prev_parking_field();
            },
            Key::Char(c) => {
                if self.modals.parking.current_field == 0 {
                    if is_ascii_digit(c) && utf8_byte_len(
                        &chars_of(self.modals.parking.phone_input.as_str()),
                    ) < 8 {
                        push_char(&mut self.modals.parking.phone_input, c);
                    }
                } else if is_alphanumeric(c) {
                    push_char(&mut self.modals.parking.license_plate_input, to_ascii_uppercase(c));
                }
            },
            Key::Backspace => {
                if self.modals.parking.current_field == 0 {
                    pop_char(&mut self.modals.parking.phone_input);
                } else {
                    pop_char(&mut self.modals.parking.license_plate_input);
                }
            },
            Key::Esc => {
                self.hide_parking_modal();
            },
            _ => {},
        }
        Command::Nothing
    }

    /// Keys while the parking details await confirmation: once a result is
    /// shown any key closes the form; otherwise `y` asks for the registration
    /// and `n` or Esc closes.
    pub fn handle_parking_confirmation(&mut self, key: Key) -> (r: Command)
        requires
            old(self).wf(),
        ensures
            final(self).wf(),
            parking_confirmation_key_effect(*old(self), *final(self), key, r),
            data_kept(*old(self), *final(self)),
    {
        if self.modals.parking.success || self.modals.parking.error.is_some() {
            self.hide_parking_modal();
            return Command::Nothing;
        }
        match plain_key(key) {
            Key::Char('y') => {
                Command::RegisterParking {
                    plate: self.modals.parking.license_plate_input.clone(),
                    phone: self.modals.parking.phone_input.clone(),
                }
            },
            Key::Char('n') | Key::Esc => {
                self.hide_parking_modal();
                Command::Nothing
            },
            _ => Command::Nothing,
        }
    }

    /// Keys in the payment modal: Enter asks for a code for the typed amount,
    /// Esc closes, Backspace on the code goes back to the amount, typing edits
    /// the amount.
    pub fn handle_qr_payment(&mut self, key: Key) -> (r: Command)
        requires
            old(self).wf(),
        ensures
            final(self).wf(),
            qr_key_effect(*old(self), *final(self), key, r),
            data_kept(*old(self), *final(self)),
    {
        let amount_mode = self.ui.input_mode == InputMode::QrPaymentAmount;
        match plain_key(key) {
            Key::Esc => {
                self.hide_qr_payment_modal();
            },
            Key::Enter => {
                if amount_mode {
                    return Command::GenerateQr;
                }
            },
            Key::Char(c) => {
                if amount_mode {
                    push_char(&mut self.modals.qr_payment.amount_input, c);
                }
            },
            Key::Backspace => {
                if amount_mode {
                    pop_char(&mut self.modals.qr_payment.amount_input);
                } else {
                    self.back_to_amount_input();
                }
            },
            _ => {},
        }
        Command::Nothing
    }

    /// Hands a key to the handler of the current mode. In the error modal any
    /// key closes it; in the size warning only `q` does anything (it quits).
    pub fn handle_key_event(&mut self, key: Key) -> (r: Command)
        requires
            old(self).wf(),
        ensures
            final(self).wf(),
            key_effect(*old(self), *final(self), key, r),
    {
        match self.ui.input_mode {
            InputMode::Normal => self.handle_normal_mode(key),
            InputMode::Editing => self.handle_editing_mode(key),
            InputMode::EditingUsername => self.handle_username_editing(key),
            InputMode::BuyConfirmation => self.handle_buy_confirmation(key),
            InputMode::SearchMode => self.handle_search_mode(key),
            InputMode::ErrorModal => {
                self.hide_error_modal();
                Command::Nothing
            },
            InputMode::ParkingModal => self.handle_parking_modal(key),
            InputMode::ParkingConfirmation => self.handle_parking_confirmation(key),
            InputMode::TerminalSizeModal => {
                if plain_key(key) == Key::Char('q') {
                    self.should_quit = true;
                }
                Command::Nothing
            },
            InputMode::QrPaymentAmount | InputMode::QrPaymentDisplay => self.handle_qr_payment(key),
        }
    }

    /// Follows up a failed account load: after a username was typed or changed
    /// the account is marked invalid and the error modal explains; otherwise
    /// the account panel shows the failure.
    pub fn user_reload_failed(&mut self, kind: ReloadKind, error: &AppError)
        requires
            old(self).wf(),
        ensures
            final(self).wf(),
            match kind {
                ReloadKind::InitialUsername => (final(self).user.error matches Some(t) && t@
                    == "Username error: "@ + "Error loading user data: "@ + error_text(*error))
                    && (final(self).modals.error.message matches Some(m) && m@ == formatted_message(
                    "There was a problem with your username. Error: "@ + error_text(*error),
                    50,
                    10,
                )) && entered(old(self).ui, final(self).ui, InputMode::ErrorModal),
                ReloadKind::ChangedUsername => (final(self).user.error matches Some(t) && t@
                    == "Username error: "@ + "Error: "@ + error_text(*error))
                    && (final(self).modals.error.message matches Some(m) && m@ == formatted_message(
                    "Check that the username exists and try again!\n"@ + error_text(*error),
                    50,
                    10,
                )) && entered(old(self).ui, final(self).ui, InputMode::ErrorModal),
                _ => (final(self).user.error matches Some(t) && t@ == "Failed to load user data: "@
                    + error_text(*error)) && final(self).ui == old(self).ui,
            },
            final(self).products == old(self).products,
            final(self).config == old(self).config,
    {
        let text = error.to_display_string();
        match kind {
            ReloadKind::InitialUsername => {
                let note = String::from_str("Error loading user data: ").concat(text.as_str());
                self.handle_invalid_username(note.as_str());
                let message = String::from_str("There was a problem with your username. Error: ").concat(text.as_str());
                let formatted = format_error_message(message.as_str(), 50, 10);
                self.show_error_modal(formatted.as_str(), Some("Username Error"));
            },
            ReloadKind::ChangedUsername => {
                let note = String::from_str("Error: ").concat(text.as_str());
                self.handle_invalid_username(note.as_str());
                let message = String::from_str("Check that the username exists and try again!\n").concat(
                    text.as_str(),
                );
                let formatted = format_error_message(message.as_str(), 50, 10);
                self.show_error_modal(formatted.as_str(), Some("Username Error"));
            },
            _ => {
                self.record_user_load_failure(error);
            },
        }
    }

    /// After a changed username was loaded: an account error that says the
    /// user was not found is replaced by `User '<name>' not found`.
    pub fn user_reload_finished(&mut self)
        ensures
            match (old(self).user.error, old(self).config.username) {
                (Some(e), Some(u)) => if contains_seq(e@, "not found"@) {
                    final(self).user.error matches Some(t) && t@ == "User '"@ + u@ + "' not found"@
                } else {
                    final(self).user.error == old(self).user.error
                },
                (Some(e), None) => if contains_seq(e@, "not found"@) {
                    final(self).user.error matches Some(t) && t@ == "User '"@ + "unknown"@ + "' not found"@
                } else {
                    final(self).user.error == old(self).user.error
                },
                _ => final(self).user.error == old(self).user.error,
            },
            final(self).user.member_id == old(self).user.member_id,
            final(self).user.member_info == old(self).user.member_info,
            final(self).user.latest_sales == old(self).user.latest_sales,
            final(self).products == old(self).products,
            final(self).config == old(self).config,
            final(self).modals == old(self).modals,
            final(self).ui == old(self).ui,
            final(self).should_quit == old(self).should_quit,
    {
        let not_found = chars_of("not found");
        let hit = match &self.user.error {
            Some(e) => contains_chars(&chars_of(e.as_str()), &not_found),
            None => false,
        };
        if hit {
            let name = match &self.config.username {
                Some(u) => u.clone(),
                None => String::from_str("unknown"),
            };
            self.user.error = Some(
                String::from_str("User '").concat(name.as_str()).concat("' not found"),
            );
        }
    }
}

/// What a key does on the catalog.
pub open spec fn normal_key_effect(o: AppState, f: AppState, key: Key, r: Command) -> bool {
    match plain(key) {
        Key::Char('q') => f.should_quit && f.ui == o.ui && f.modals == o.modals
            && f.products == o.products,
        Key::Esc => f.ui.number_prefix@.len() == 0 && !f.ui.pending_g
            && same_screen(o, f),
        Key::Char('j') | Key::Down => !f.ui.pending_g && f.ui.number_prefix@.len() == 0
            && (o.products.items@.len() > 0 ==> f.products.selected == Some(
            row_down(current_row(o), prefix_count(o.ui.number_prefix@), o.products.items@.len() as int) as usize)),
        Key::Char('k') | Key::Up => !f.ui.pending_g && f.ui.number_prefix@.len() == 0
            && (o.products.items@.len() > 0 ==> f.products.selected == Some(
            row_up(current_row(o), prefix_count(o.ui.number_prefix@)) as usize)),
        Key::Char('g') => if o.ui.pending_g {
            f.products.selected == Some(0usize) && !f.ui.pending_g
        } else {
            f.ui.pending_g && f.products == o.products
        },
        Key::Char('G') => f.ui.number_prefix@.len() == 0 && (o.products.items@.len() > 0
            ==> f.products.selected == Some((o.products.items@.len() - 1) as usize)),
        Key::Char('u') => if o.config.username.is_some() {
            &&& f.modals.username.visible
            &&& o.config.username matches Some(u) && f.modals.username.input@ == u@
            &&& entered(o.ui, f.ui, InputMode::EditingUsername)
            &&& modals_kept_but(o.modals, f.modals, ModalKind::Username)
            &&& data_kept(o, f)
        } else {
            f == o
        },
        Key::Char('/') | Key::Char('s') => {
            &&& f.modals.search.visible
            &&& f.modals.search.input@.len() == 0
            &&& f.modals.search.results@.len() == 0
            &&& f.modals.search.selected_index == 0
            &&& entered(o.ui, f.ui, InputMode::SearchMode)
            &&& modals_kept_but(o.modals, f.modals, ModalKind::Search)
            &&& data_kept(o, f)
        },
        Key::Char('p') => {
            &&& f.modals.parking.visible
            &&& f.modals.parking.phone_input@ == match o.config.phone_number {
                Some(p) => p@,
                None => Seq::<char>::empty(),
            }
            &&& f.modals.parking.license_plate_input@ == match o.config.license_plate {
                Some(p) => p@,
                None => Seq::<char>::empty(),
            }
            &&& f.modals.parking.current_field == 0
            &&& !f.modals.parking.confirming
            &&& f.modals.parking.error.is_none()
            &&& !f.modals.parking.success
            &&& entered(o.ui, f.ui, InputMode::ParkingModal)
            &&& modals_kept_but(o.modals, f.modals, ModalKind::Parking)
            &&& data_kept(o, f)
        },
        Key::Char(c) => if is_digit(c) {
            &&& !f.ui.pending_g
            &&& f.ui.number_prefix@ == if movement_targets_of(
                o.ui.number_prefix@.push(c),
                current_row(o),
                o.products.items@.len() as int,
            ).len() == 0 {
                Seq::<char>::empty()
            } else {
                o.ui.number_prefix@.push(c)
            }
            &&& f.products == o.products
            &&& f.ui.input_mode == o.ui.input_mode
            &&& f.modals == o.modals
        } else {
            f == o
        },
        Key::Enter => if o.config.username.is_some() && o.products.items@.len() > 0 {
            crate::modals::purchase_modal_opened(o, f)
        } else {
            f == o
        },
        _ => f == o,
    }
}

/// What a key does while the first username is typed.
pub open spec fn editing_key_effect(o: AppState, f: AppState, key: Key, r: Command) -> bool {
    match plain(key) {
        Key::Enter => if trimmed(o.ui.input@).len() > 0 {
            &&& r == Command::SaveConfigAndReloadUser(ReloadKind::InitialUsername)
            &&& f.config.username matches Some(u) && u@ == trimmed(o.ui.input@)
            &&& f.ui.input_mode == InputMode::Normal
            &&& user_cleared(o, f)
        } else {
            is_nothing(r) && f == o
        },
        Key::Char(c) => is_nothing(r) && f.ui.input@ == o.ui.input@.push(c)
            && f.ui.input_mode == o.ui.input_mode,
        Key::Backspace => is_nothing(r) && f.ui.input@ == (if o.ui.input@.len() > 0 {
            o.ui.input@.drop_last()
        } else {
            o.ui.input@
        }),
        Key::Esc => is_nothing(r) && f.ui.input_mode == (if o.config.username.is_some() {
            InputMode::Normal
        } else {
            o.ui.input_mode
        }),
        _ => is_nothing(r) && f == o,
    }
}

/// What a key does in the username modal.
pub open spec fn username_key_effect(o: AppState, f: AppState, key: Key, r: Command) -> bool {
    match plain(key) {
        Key::Enter => if trimmed(o.modals.username.input@).len() == 0 {
            &&& is_nothing(r)
            &&& f.modals.error.message matches Some(m) && m@ == "Error updating username: "@
                + ("Input error: "@ + "Username cannot be empty"@)
            &&& entered(o.ui, f.ui, InputMode::ErrorModal)
        } else {
            &&& r == Command::SaveConfigAndReloadUser(ReloadKind::ChangedUsername)
            &&& f.config.username matches Some(u) && u@ == trimmed(o.modals.username.input@)
            &&& f.modals == o.modals
            &&& f.ui == o.ui
            &&& f.user == o.user
        },
        Key::Char(c) => is_nothing(r) && f.modals.username.input@ == o.modals.username.input@.push(c),
        Key::Backspace => is_nothing(r) && f.modals.username.input@ == (if o.modals.username.input@.len() > 0 {
            o.modals.username.input@.drop_last()
        } else {
            o.modals.username.input@
        }),
        Key::Esc => is_nothing(r) && !f.modals.username.visible && left(o.ui, f.ui),
        _ => is_nothing(r) && f == o,
    }
}

/// What a key does in the purchase modal.
pub open spec fn buy_key_effect(o: AppState, f: AppState, key: Key, r: Command) -> bool {
    if o.modals.purchase.success || o.modals.purchase.error.is_some() {
        is_nothing(r) && !f.modals.purchase.visible && left(o.ui, f.ui)
    } else {
        match plain(key) {
            Key::Char('y') => match r {
                Command::Purchase(order) => crate::actions::purchase_decision(o, f, Some(order)),
                Command::Nothing => crate::actions::purchase_decision(o, f, None),
                _ => false,
            },
            Key::Char('n') | Key::Esc => is_nothing(r) && !f.modals.purchase.visible
                && left(o.ui, f.ui),
            Key::Char('+') | Key::Char('=') | Key::Right => is_nothing(r)
                && f.modals.purchase.quantity == (if o.modals.purchase.quantity < 99 {
                (o.modals.purchase.quantity + 1) as u32
            } else {
                o.modals.purchase.quantity
            }),
            Key::Char('-') | Key::Char('_') | Key::Left => is_nothing(r)
                && f.modals.purchase.quantity == (if o.modals.purchase.quantity > 1 {
                (o.modals.purchase.quantity - 1) as u32
            } else {
                o.modals.purchase.quantity
            }),
            _ => is_nothing(r) && f == o,
        }
    }
}

/// What a key does in the search modal.
pub open spec fn search_key_effect(o: AppState, f: AppState, key: Key, r: Command) -> bool {
    match key {
        Key::CtrlChar('n') | Key::Down => f.modals.search.selected_index == (if o.modals.search.results@.len() > 0 {
            ((o.modals.search.selected_index + 1) as int % o.modals.search.results@.len() as int) as usize
        } else {
            o.modals.search.selected_index
        }),
        Key::CtrlChar('p') | Key::Up => f.modals.search.selected_index == (if o.modals.search.results@.len() == 0 {
            o.modals.search.selected_index
        } else if o.modals.search.selected_index == 0 {
            (o.modals.search.results@.len() - 1) as usize
        } else {
            (o.modals.search.selected_index - 1) as usize
        }),
        Key::Char(c) | Key::CtrlChar(c) => f.modals.search.input@ == o.modals.search.input@.push(c)
            && f.modals.search.results@ == crate::search::search_results_spec(
            o.products.items@,
            o.products.named_products@,
            o.modals.search.input@.push(c),
        ),
        Key::Backspace => f.modals.search.results@ == crate::search::search_results_spec(
            o.products.items@,
            o.products.named_products@,
            f.modals.search.input@,
        ) && f.modals.search.input@ == (if o.modals.search.input@.len() > 0 {
            o.modals.search.input@.drop_last()
        } else {
            o.modals.search.input@
        }),
        Key::Esc => !f.modals.search.visible && left(o.ui, f.ui),
        Key::Enter => crate::modals::search_pick(o, f),
        _ => f == o,
    }
}

/// What a key does in the parking form.
pub open spec fn parking_key_effect(o: AppState, f: AppState, key: Key, r: Command) -> bool {
    let phone = trimmed(o.modals.parking.phone_input@);
    let plate = crate::text::upper_of(trimmed(o.modals.parking.license_plate_input@));
    match plain(key) {
        Key::Enter => match crate::modals::parking_input_error(phone, plate) {
            Some(m) => is_nothing(r) && (f.modals.error.message matches Some(t) && t@
                == "Error confirming parking: "@ + ("Input error: "@ + m)) && entered(
                o.ui,
                f.ui,
                InputMode::ErrorModal,
            ),
            None => {
                &&& r == Command::SaveConfig
                &&& f.config.phone_number matches Some(p) && p@ == phone
                &&& f.config.license_plate matches Some(p) && p@ == plate
                &&& f.modals == o.modals
                &&& f.ui == o.ui
            },
        },
        Key::Tab | Key::BackTab => is_nothing(r) && f.modals.parking.current_field
            == 1 - o.modals.parking.current_field,
        Key::Char(c) => is_nothing(r) && if o.modals.parking.current_field == 0 {
            f.modals.parking.phone_input@ == (if is_digit(c) && utf8_len(
                o.modals.parking.phone_input@,
            ) < 8 {
                o.modals.parking.phone_input@.push(c)
            } else {
                o.modals.parking.phone_input@
            })
        } else {
            f.modals.parking.license_plate_input@ == (if alnum_of(c) {
                o.modals.parking.license_plate_input@.push(crate::text::ascii_upper(c))
            } else {
                o.modals.parking.license_plate_input@
            })
        },
        Key::Esc => is_nothing(r) && !f.modals.parking.visible,
        Key::Backspace => is_nothing(r) && if o.modals.parking.current_field == 0 {
            f.modals.parking.phone_input@ == (if o.modals.parking.phone_input@.len() > 0 {
                o.modals.parking.phone_input@.drop_last()
            } else {
                o.modals.parking.phone_input@
            })
        } else {
            f.modals.parking.license_plate_input@ == (if o.modals.parking.license_plate_input@.len()
                > 0 {
                o.modals.parking.license_plate_input@.drop_last()
            } else {
                o.modals.parking.license_plate_input@
            })
        },
        _ => is_nothing(r) && f == o,
    }
}

/// What a key does while parking awaits confirmation.
pub open spec fn parking_confirmation_key_effect(o: AppState, f: AppState, key: Key, r: Command) -> bool {
    if o.modals.parking.success || o.modals.parking.error.is_some() {
        is_nothing(r) && !f.modals.parking.visible
    } else {
        match plain(key) {
            Key::Char('y') => (r matches Command::RegisterParking { plate, phone } && plate
                == o.modals.parking.license_plate_input && phone
                == o.modals.parking.phone_input) && f == o,
            Key::Char('n') | Key::Esc => is_nothing(r) && !f.modals.parking.visible,
            _ => is_nothing(r) && f == o,
        }
    }
}

/// What a key does in the payment modal.
pub open spec fn qr_key_effect(o: AppState, f: AppState, key: Key, r: Command) -> bool {
    match plain(key) {
        Key::Esc => is_nothing(r) && !f.modals.qr_payment.visible,
        Key::Enter => if o.ui.input_mode == InputMode::QrPaymentAmount {
            r == Command::GenerateQr && f == o
        } else {
            is_nothing(r) && f == o
        },
        Key::Char(c) => is_nothing(r) && if o.ui.input_mode == InputMode::QrPaymentAmount {
            f.modals.qr_payment.amount_input@ == o.modals.qr_payment.amount_input@.push(c)
        } else {
            f == o
        },
        Key::Backspace => is_nothing(r) && if o.ui.input_mode == InputMode::QrPaymentAmount {
            f.modals.qr_payment.amount_input@ == (if o.modals.qr_payment.amount_input@.len() > 0 {
                o.modals.qr_payment.amount_input@.drop_last()
            } else {
                o.modals.qr_payment.amount_input@
            })
        } else {
            !f.modals.qr_payment.showing_qr && left(o.ui, f.ui)
        },
        _ => is_nothing(r) && f == o,
    }
}

/// What a key does in the current mode. In the error modal any key closes it;
/// in the size warning only `q` does anything (it quits).
pub open spec fn key_effect(o: AppState, f: AppState, key: Key, r: Command) -> bool {
    match o.ui.input_mode {
        InputMode::Normal => normal_key_effect(o, f, key, r),
        InputMode::Editing => editing_key_effect(o, f, key, r),
        InputMode::EditingUsername => username_key_effect(o, f, key, r),
        InputMode::BuyConfirmation => buy_key_effect(o, f, key, r),
        InputMode::SearchMode => search_key_effect(o, f, key, r),
        InputMode::ErrorModal => is_nothing(r) && !f.modals.error.visible && left(o.ui, f.ui),
        InputMode::ParkingModal => parking_key_effect(o, f, key, r),
        InputMode::ParkingConfirmation => parking_confirmation_key_effect(o, f, key, r),
        InputMode::TerminalSizeModal => is_nothing(r) && f.should_quit == (o.should_quit || plain(
            key,
        ) == Key::Char('q')) && f.ui == o.ui,
        InputMode::QrPaymentAmount | InputMode::QrPaymentDisplay => qr_key_effect(o, f, key, r),
    }
}

} // verus!
