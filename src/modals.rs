use vstd::prelude::*;
use crate::config::Config;
use crate::error::{error_text, AppError};
use crate::formatters::{format_error_message, formatted_message};
use crate::models::Product;
use crate::search::{search_products, search_results_spec};
use crate::state::{
    data_kept, entered, left, modals_kept_but, AppState, ErrorModalState, InputMode, ModalKind,
    ModalState, ParkingModalState, ProductsState, PurchaseModalState, QrPaymentModalState,
    SearchModalState, TerminalSizeModalState, UiState, UserState, UsernameModalState,
};
use crate::text::{
    all_ascii_digits, chars_of, string_from_chars, trim_chars, trimmed, upper_of, uppercase,
};
use crate::validation::{check_plate, plate_problem, PlateProblem};

verus! {

/// The smallest terminal that the layout fits in.
pub const MIN_TERMINAL_WIDTH: u16 = 120;

pub const MIN_TERMINAL_HEIGHT: u16 = 40;

/// The most items of one product that a purchase can hold.
pub const MAX_QUANTITY: u32 = 99;

pub open spec fn no_account_message() -> Seq<char> {
    "Please sign in with a valid username. The current username doesn't exist or couldn't be verified."@
}

/// Why the account cannot buy: its error, or that it has not been resolved.
pub open spec fn purchase_block(u: UserState) -> Option<Seq<char>> {
    match u.error {
        Some(e) => Some("Error: "@ + e@),
        None => if u.member_id.is_none() || u.member_info.is_none() {
            Some(no_account_message())
        } else {
            None
        },
    }
}

/// What opening the purchase modal does: the error modal when the account
/// cannot buy, else the modal for the highlighted product, if there is one.
pub open spec fn purchase_modal_opened(o: AppState, f: AppState) -> bool {
    match purchase_block(o.user) {
        Some(m) => {
            &&& f.modals.error.visible
            &&& f.modals.error.message matches Some(t) && t@ == formatted_message(
                m,
                50,
                10,
            )
            &&& f.modals.error.title matches Some(t) && t@ == "Invalid User"@
            &&& entered(o.ui, f.ui, InputMode::ErrorModal)
            &&& modals_kept_but(o.modals, f.modals, ModalKind::Error)
        },
        None => match o.products.selected {
            Some(i) if i < o.products.items@.len() => {
                &&& f.modals.purchase.visible
                &&& f.modals.purchase.selected_product_id matches Some(id)
                    && id == o.products.items@[i as int].id
                &&& f.modals.purchase.error.is_none()
                &&& !f.modals.purchase.success
                &&& f.modals.purchase.quantity == o.modals.purchase.quantity
                &&& entered(o.ui, f.ui, InputMode::BuyConfirmation)
                &&& modals_kept_but(
                    o.modals,
                    f.modals,
                    ModalKind::Purchase,
                )
            },
            _ => f == o,
        },
    }
}

/// What picking the selected search result does: it is highlighted in the
/// catalog and the search closes; without a result, or when the result left the
/// catalog, nothing changes.
pub open spec fn search_pick(o: AppState, f: AppState) -> bool {
    if o.modals.search.results@.len() > 0 {
        let id = o.modals.search.results@[o.modals.search.selected_index as int].id@;
        match crate::search::index_of_id(o.products.items@, id, 0) {
            Some(k) => f.products.selected == Some(k as usize) && left(o.ui, f.ui)
                && !f.modals.search.visible,
            None => f == o,
        }
    } else {
        f == o
    }
}

/// One more item, but never more than `MAX_QUANTITY`.
pub open spec fn increased(q: int) -> int {
    if q < MAX_QUANTITY {
        q + 1
    } else {
        q
    }
}

/// One item fewer, but never fewer than one.
pub open spec fn decreased(q: int) -> int {
    if q > 1 {
        q - 1
    } else {
        q
    }
}

pub open spec fn increased_times(q: int, n: nat) -> int
    decreases n,
{
    if n == 0 {
        q
    } else {
        increased(increased_times(q, (n - 1) as nat))
    }
}

pub open spec fn decreased_times(q: int, n: nat) -> int
    decreases n,
{
    if n == 0 {
        q
    } else {
        decreased(decreased_times(q, (n - 1) as nat))
    }
}

/// Raising the quantity again and again from one climbs to `MAX_QUANTITY` and
/// stays there; lowering it from `MAX_QUANTITY` falls to one and stays there.
pub proof fn lemma_quantity_clamped(n: nat)
    ensures
        increased_times(1, n) == if 1 + n < MAX_QUANTITY {
            (1 + n) as int
        } else {
            MAX_QUANTITY as int
        },
        decreased_times(MAX_QUANTITY as int, n) == if MAX_QUANTITY - n > 1 {
            (MAX_QUANTITY - n) as int
        } else {
            1int
        },
    decreases n,
{
    if n > 0 {
        lemma_quantity_clamped((n - 1) as nat);
    }
}

fn opt_string(s: Option<&str>) -> (r: Option<String>)
    ensures
        match s {
            Some(t) => r matches Some(u) && u@ == t@,
            None => r.is_none(),
        },
{
    match s {
        Some(t) => Some(String::from_str(t)),
        None => None,
    }
}

impl AppState {
    /// The state at start-up: every modal closed, no data loaded, in `Normal`
    /// mode, or in `Editing` when no username is configured.
    pub fn new(config: Config) -> (r: AppState)
        ensures
            r.wf(),
            r.config == config,
            r.ui.input@.len() == 0,
            r.ui.input_mode == (if config.username.is_none() {
                InputMode::Editing
            } else {
                InputMode::Normal
            }),
            r.ui.mode_stack@.len() == 0,
            r.ui.number_prefix@.len() == 0,
            !r.ui.pending_g,
            r.products.items@.len() == 0,
            r.products.selected == Some(0usize),
            r.products.error.is_none(),
            r.products.named_products@.len() == 0,
            r.products.named_products_error.is_none(),
            r.user.member_id.is_none(),
            r.user.member_info.is_none(),
            r.user.latest_sales@.len() == 0,
            r.user.error.is_none(),
            !r.modals.username.visible,
            !r.modals.purchase.visible,
            r.modals.purchase.quantity == 1,
            !r.modals.search.visible,
            !r.modals.error.visible,
            !r.modals.parking.visible,
            !r.modals.terminal_size.visible,
            !r.modals.qr_payment.visible,
            !r.should_quit,
    {
        let mode = if config.username.is_none() {
            InputMode::Editing
        } else {
            InputMode::Normal
        };
        AppState {
            config,
            ui: UiState {
                input: String::new(),
                input_mode: mode,
                mode_stack: Vec::new(),
                number_prefix: String::new(),
                pending_g: false,
            },
            products: ProductsState {
                items: Vec::new(),
                selected: Some(0),
                error: None,
                named_products: Vec::new(),
                named_products_error: None,
            },
            user: UserState {
                member_id: None,
                member_info: None,
                latest_sales: Vec::new(),
                error: None,
            },
            modals: ModalState {
                username: UsernameModalState { visible: false, input: String::new() },
                purchase: PurchaseModalState {
                    visible: false,
                    selected_product_id: None,
                    error: None,
                    success: false,
                    quantity: 1,
                },
                search: SearchModalState {
                    visible: false,
                    input: String::new(),
                    results: Vec::new(),
                    selected_index: 0,
                },
                error: ErrorModalState { visible: false, message: None, title: None },
                parking: ParkingModalState {
                    visible: false,
                    phone_input: String::new(),
                    license_plate_input: String::new(),
                    current_field: 0,
                    error: None,
                    success: false,
                    confirming: false,
                    vehicle_brand: None,
                    vehicle_model: None,
                    vehicle_variant: None,
                },
                terminal_size: TerminalSizeModalState { visible: false },
                qr_payment: QrPaymentModalState {
                    visible: false,
                    amount_input: String::new(),
                    showing_qr: false,
                },
            },
            should_quit: false,
        }
    }

    /// Records that the username could not be used: the account is cleared and
    /// carries the error `Username error: <error>`.
    pub fn handle_invalid_username(&mut self, error: &str)
        ensures
            final(self).user.error matches Some(e) && e@ == "Username error: "@ + error@,
            final(self).user.member_id.is_none(),
            final(self).user.member_info.is_none(),
            final(self).user.latest_sales@.len() == 0,
            final(self).config == old(self).config,
            final(self).products == old(self).products,
            final(self).modals == old(self).modals,
            final(self).ui == old(self).ui,
            final(self).should_quit == old(self).should_quit,
    {
        self.user.error = Some(String::from_str("Username error: ").concat(error));
        self.user.member_id = None;
        self.user.member_info = None;
        self.user.latest_sales = Vec::new();
    }

    /// Whether the account may buy: `Err` with the reason when it carries an
    /// error or has not been resolved.
    pub fn validate_user_for_purchase(&self) -> (r: Result<(), String>)
        ensures
            match purchase_block(self.user) {
                Some(m) => r matches Err(e) && e@ == m,
                None => r.is_ok(),
            },
    {
        match &self.user.error {
            Some(e) => Err(String::from_str("Error: ").concat(e.as_str())),
            None => {
                if self.user.member_id.is_none() || self.user.member_info.is_none() {
                    Err(
                        String::from_str(
                            "Please sign in with a valid username. The current username doesn't exist or couldn't be verified.",
                        ),
                    )
                } else {
                    Ok(())
                }
            },
        }
    }

    /// The catalog in display order (a copy).
    pub fn get_sorted_products(&self) -> (r: Vec<Product>)
        ensures
            r@ == self.products.items@,
            self.wf() ==> crate::catalog::in_display_order(r@),
    {
        let mut out: Vec<Product> = Vec::new();
        let mut i: usize = 0;
        while i < self.products.items.len()
            invariant
                i <= self.products.items@.len(),
                out@ == self.products.items@.take(i as int),
            decreases self.products.items@.len() - i,
        {
            out.push(self.products.items[i].duplicate());
            i = i + 1;
            assert(out@ =~= self.products.items@.take(i as int));
        }
        assert(self.products.items@.take(i as int) =~= self.products.items@);
        out
    }

    // Error modal.
    /// Opens the error modal with a message and an optional title.
    pub fn show_error_modal(&mut self, message: &str, title: Option<&str>)
        ensures
            final(self).modals.error.visible,
            final(self).modals.error.message matches Some(m) && m@ == message@,
            match title {
                Some(t) => final(self).modals.error.title matches Some(u) && u@ == t@,
                None => final(self).modals.error.title.is_none(),
            },
            entered(old(self).ui, final(self).ui, InputMode::ErrorModal),
            data_kept(*old(self), *final(self)),
            modals_kept_but(old(self).modals, final(self).modals, ModalKind::Error),
    {
        self.modals.error.visible = true;
        self.modals.error.message = Some(String::from_str(message));
        self.modals.error.title = opt_string(title);
        self.push_input_mode(InputMode::ErrorModal);
    }

    pub fn hide_error_modal(&mut self)
        ensures
            !final(self).modals.error.visible,
            final(self).modals.error.message.is_none(),
            final(self).modals.error.title.is_none(),
            left(old(self).ui, final(self).ui),
            data_kept(*old(self), *final(self)),
            modals_kept_but(old(self).modals, final(self).modals, ModalKind::Error),
    {
        self.modals.error.visible = false;
        self.modals.error.message = None;
        self.modals.error.title = None;
        self.pop_input_mode();
    }

    // Terminal size modal.
    pub fn show_terminal_size_modal(&mut self)
        ensures
            final(self).modals.terminal_size.visible,
            entered(old(self).ui, final(self).ui, InputMode::TerminalSizeModal),
            data_kept(*old(self), *final(self)),
            modals_kept_but(old(self).modals, final(self).modals, ModalKind::TerminalSize),
    {
        self.modals.terminal_size.visible = true;
        self.push_input_mode(InputMode::TerminalSizeModal);
    }

    pub fn hide_terminal_size_modal(&mut self)
        ensures
            !final(self).modals.terminal_size.visible,
            left(old(self).ui, final(self).ui),
            data_kept(*old(self), *final(self)),
            modals_kept_but(old(self).modals, final(self).modals, ModalKind::TerminalSize),
    {
        self.modals.terminal_size.visible = false;
        self.pop_input_mode();
    }

    /// Opens the size warning when the terminal becomes too small for the
    /// layout and closes it when the terminal is large enough again.
    pub fn check_terminal_size(&mut self, width: u16, height: u16)
        ensures
            ({
                let small = width < MIN_TERMINAL_WIDTH || height < MIN_TERMINAL_HEIGHT;
                let shown = old(self).modals.terminal_size.visible;
                &&& final(self).modals.terminal_size.visible == small
                &&& (small && !shown ==> entered(
                    old(self).ui,
                    final(self).ui,
                    InputMode::TerminalSizeModal,
                ))
                &&& (!small && shown ==> left(old(self).ui, final(self).ui))
                &&& (small == shown ==> final(self).ui == old(self).ui)
            }),
            data_kept(*old(self), *final(self)),
            modals_kept_but(old(self).modals, final(self).modals, ModalKind::TerminalSize),
    {
        let too_small = width < MIN_TERMINAL_WIDTH || height < MIN_TERMINAL_HEIGHT;
        let visible = self.modals.terminal_size.visible;
        if too_small && !visible {
            self.show_terminal_size_modal();
        } else if !too_small && visible {
            self.hide_terminal_size_modal();
        }
    }
}

impl AppState {
    // Username modal.
    /// Opens the username editor, prefilled with the configured username.
    pub fn show_username_modal(&mut self)
        ensures
            final(self).modals.username.visible,
            final(self).modals.username.input@ == match old(self).config.username {
                Some(u) => u@,
                None => Seq::<char>::empty(),
            },
            entered(old(self).ui, final(self).ui, InputMode::EditingUsername),
            data_kept(*old(self), *final(self)),
            modals_kept_but(old(self).modals, final(self).modals, ModalKind::Username),
    {
        self.modals.username.visible = true;
        self.push_input_mode(InputMode::EditingUsername);
        self.modals.username.input = match &self.config.username {
            Some(u) => u.clone(),
            None => String::new(),
        };
    }

    pub fn hide_username_modal(&mut self)
        ensures
            !final(self).modals.username.visible,
            final(self).modals.username.input@.len() == 0,
            left(old(self).ui, final(self).ui),
            data_kept(*old(self), *final(self)),
            modals_kept_but(old(self).modals, final(self).modals, ModalKind::Username),
    {
        self.modals.username.visible = false;
        self.pop_input_mode();
        self.modals.username.input = String::new();
    }

    /// Takes the edited username, trimmed. An empty one is refused and nothing
    /// changes; otherwise the settings hold it, and the caller saves them and
    /// then calls `finish_username_update`.
    pub fn update_username(&mut self) -> (r: Result<(), AppError>)
        ensures
            ({
                let name = trimmed(old(self).modals.username.input@);
                if name.len() == 0 {
                    &&& r matches Err(AppError::Input(m)) && m@ == "Username cannot be empty"@
                    &&& *final(self) == *old(self)
                } else {
                    &&& r.is_ok()
                    &&& final(self).config.username matches Some(u) && u@ == name
                    &&& final(self).config.room_id == old(self).config.room_id
                    &&& final(self).config.phone_number == old(self).config.phone_number
                    &&& final(self).config.license_plate == old(self).config.license_plate
                    &&& final(self).modals == old(self).modals
                    &&& final(self).ui == old(self).ui
                    &&& final(self).products == old(self).products
                    &&& final(self).user == old(self).user
                    &&& final(self).should_quit == old(self).should_quit
                }
            }),
    {
        let name = trim_chars(&chars_of(self.modals.username.input.as_str()));
        if name.len() == 0 {
            return Err(AppError::Input(String::from_str("Username cannot be empty")));
        }
        self.config.username = Some(string_from_chars(&name));
        Ok(())
    }

    /// Follows up saving a changed username. Once saved, the editor closes and
    /// the account is cleared, to be loaded again (the result is `true`); a
    /// failed save opens the error modal over the editor.
    pub fn finish_username_update(&mut self, saved: Result<(), AppError>) -> (r: bool)
        requires
            old(self).wf(),
        ensures
            final(self).wf(),
            r == saved.is_ok(),
            match saved {
                Ok(()) => {
                    &&& !final(self).modals.username.visible
                    &&& final(self).modals.username.input@.len() == 0
                    &&& left(old(self).ui, final(self).ui)
                    &&& modals_kept_but(old(self).modals, final(self).modals, ModalKind::Username)
                    &&& final(self).user.member_id.is_none()
                    &&& final(self).user.member_info.is_none()
                    &&& final(self).user.latest_sales@.len() == 0
                    &&& final(self).user.error.is_none()
                },
                Err(e) => {
                    &&& final(self).modals.error.visible
                    &&& final(self).modals.error.message matches Some(m) && m@
                        == "Error updating username: "@ + error_text(e)
                    &&& final(self).modals.error.title matches Some(t) && t@
                        == "Username Update Error"@
                    &&& entered(old(self).ui, final(self).ui, InputMode::ErrorModal)
                    &&& modals_kept_but(old(self).modals, final(self).modals, ModalKind::Error)
                    &&& final(self).user == old(self).user
                },
            },
            final(self).config == old(self).config,
            final(self).products == old(self).products,
            final(self).should_quit == old(self).should_quit,
    {
        match saved {
            Ok(()) => {
                self.hide_username_modal();
                self.user.member_id = None;
                self.user.member_info = None;
                self.user.latest_sales = Vec::new();
                self.user.error = None;
                true
            },
            Err(e) => {
                let message = String::from_str("Error updating username: ").concat(
                    e.to_display_string().as_str(),
                );
                self.show_error_modal(message.as_str(), Some("Username Update Error"));
                false
            },
        }
    }

    // Purchase modal.
    pub fn hide_purchase_modal(&mut self)
        ensures
            !final(self).modals.purchase.visible,
            final(self).modals.purchase.selected_product_id.is_none(),
            final(self).modals.purchase.quantity == 1,
            final(self).modals.purchase.error == old(self).modals.purchase.error,
            final(self).modals.purchase.success == old(self).modals.purchase.success,
            left(old(self).ui, final(self).ui),
            data_kept(*old(self), *final(self)),
            modals_kept_but(old(self).modals, final(self).modals, ModalKind::Purchase),
    {
        self.modals.purchase.visible = false;
        self.pop_input_mode();
        self.modals.purchase.selected_product_id = None;
        self.modals.purchase.quantity = 1;
    }

    /// One more item, up to `MAX_QUANTITY`.
    pub fn increase_quantity(&mut self)
        ensures
            final(self).modals.purchase.quantity == increased(
                old(self).modals.purchase.quantity as int,
            ),
            final(self).modals.purchase.visible == old(self).modals.purchase.visible,
            final(self).modals.purchase.selected_product_id == old(self).modals.purchase.selected_product_id,
            final(self).modals.purchase.error == old(self).modals.purchase.error,
            final(self).modals.purchase.success == old(self).modals.purchase.success,
            final(self).ui == old(self).ui,
            data_kept(*old(self), *final(self)),
            modals_kept_but(old(self).modals, final(self).modals, ModalKind::Purchase),
    {
        if self.modals.purchase.quantity < MAX_QUANTITY {
            self.modals.purchase.quantity = self.modals.purchase.quantity + 1;
        }
    }

    /// One item fewer, down to one.
    pub fn decrease_quantity(&mut self)
        ensures
            final(self).modals.purchase.quantity == decreased(
                old(self).modals.purchase.quantity as int,
            ),
            final(self).modals.purchase.visible == old(self).modals.purchase.visible,
            final(self).modals.purchase.selected_product_id == old(self).modals.purchase.selected_product_id,
            final(self).modals.purchase.error == old(self).modals.purchase.error,
            final(self).modals.purchase.success == old(self).modals.purchase.success,
            final(self).ui == old(self).ui,
            data_kept(*old(self), *final(self)),
            modals_kept_but(old(self).modals, final(self).modals, ModalKind::Purchase),
    {
        if self.modals.purchase.quantity > 1 {
            self.modals.purchase.quantity = self.modals.purchase.quantity - 1;
        }
    }

    /// Opens the purchase modal for the highlighted product, or, when the account
    /// cannot buy, the error modal with the reason.
    pub fn show_purchase_modal(&mut self)
        ensures
            purchase_modal_opened(*old(self), *final(self)),
            data_kept(*old(self), *final(self)),
    {
        match self.validate_user_for_purchase() {
            Err(message) => {
                let formatted = format_error_message(message.as_str(), 50, 10);
                self.show_error_modal(formatted.as_str(), Some("Invalid User"));
            },
            Ok(()) => {
                match self.products.selected {
                    Some(i) => {
                        if i < self.products.items.len() {
                            let id = self.products.items[i].id.clone();
                            self.modals.purchase.selected_product_id = Some(id);
                            self.modals.purchase.visible = true;
                            self.push_input_mode(InputMode::BuyConfirmation);
                            self.modals.purchase.error = None;
                            self.modals.purchase.success = false;
                        }
                    },
                    None => {},
                }
            },
        }
    }
}

impl AppState {
    // Search modal.
    pub fn show_search_modal(&mut self)
        ensures
            final(self).modals.search.visible,
            final(self).modals.search.input@.len() == 0,
            final(self).modals.search.results@.len() == 0,
            final(self).modals.search.selected_index == 0,
            entered(old(self).ui, final(self).ui, InputMode::SearchMode),
            data_kept(*old(self), *final(self)),
            modals_kept_but(old(self).modals, final(self).modals, ModalKind::Search),
    {
        self.modals.search.visible = true;
        self.push_input_mode(InputMode::SearchMode);
        self.modals.search.input = String::new();
        self.modals.search.results = Vec::new();
        self.modals.search.selected_index = 0;
    }

    pub fn hide_search_modal(&mut self)
        ensures
            !final(self).modals.search.visible,
            final(self).modals.search.input@.len() == 0,
            final(self).modals.search.results@.len() == 0,
            final(self).modals.search.selected_index == old(self).modals.search.selected_index,
            left(old(self).ui, final(self).ui),
            data_kept(*old(self), *final(self)),
            modals_kept_but(old(self).modals, final(self).modals, ModalKind::Search),
    {
        self.modals.search.visible = false;
        self.pop_input_mode();
        self.modals.search.input = String::new();
        self.modals.search.results = Vec::new();
    }

    /// Moves the selection to the next result, wrapping around.
    pub fn next_search_result(&mut self)
        requires
            old(self).wf(),
        ensures
            final(self).wf(),
            final(self).modals.search.selected_index == if old(self).modals.search.results@.len() > 0 {
                ((old(self).modals.search.selected_index + 1) as int % old(self).modals.search.results@.len() as int) as usize
            } else {
                old(self).modals.search.selected_index
            },
            final(self).modals.search.results == old(self).modals.search.results,
            final(self).modals.search.input == old(self).modals.search.input,
            final(self).modals.search.visible == old(self).modals.search.visible,
            final(self).ui == old(self).ui,
            data_kept(*old(self), *final(self)),
            modals_kept_but(old(self).modals, final(self).modals, ModalKind::Search),
    {
        let n = self.modals.search.results.len();
        if n > 0 {
            self.modals.search.selected_index = (self.modals.search.selected_index + 1) % n;
        }
    }

    /// Moves the selection to the previous result, wrapping around.
    pub fn previous_search_result(&mut self)
        requires
            old(self).wf(),
        ensures
            final(self).wf(),
            final(self).modals.search.selected_index == if old(self).modals.search.results@.len() == 0 {
                old(self).modals.search.selected_index
            } else if old(self).modals.search.selected_index == 0 {
                (old(self).modals.search.results@.len() - 1) as usize
            } else {
                (old(self).modals.search.selected_index - 1) as usize
            },
            final(self).modals.search.results == old(self).modals.search.results,
            final(self).modals.search.input == old(self).modals.search.input,
            final(self).modals.search.visible == old(self).modals.search.visible,
            final(self).ui == old(self).ui,
            data_kept(*old(self), *final(self)),
            modals_kept_but(old(self).modals, final(self).modals, ModalKind::Search),
    {
        let n = self.modals.search.results.len();
        if n > 0 {
            self.modals.search.selected_index = if self.modals.search.selected_index == 0 {
                n - 1
            } else {
                self.modals.search.selected_index - 1
            };
        }
    }

    /// The selected search result, if there are results.
    pub fn get_selected_search_result(&self) -> (r: Option<&Product>)
        requires
            self.wf(),
        ensures
            self.modals.search.results@.len() == 0 ==> r.is_none(),
            self.modals.search.results@.len() > 0 ==> (r matches Some(p) && *p
                == self.modals.search.results@[self.modals.search.selected_index as int]),
    {
        if self.modals.search.results.len() > 0 {
            Some(&self.modals.search.results[self.modals.search.selected_index])
        } else {
            None
        }
    }

    /// Recomputes the results for the search input; the selection goes back to
    /// the first result whenever there are results.
    pub fn update_search_results(&mut self)
        requires
            old(self).wf(),
        ensures
            final(self).wf(),
            final(self).modals.search.results@ == search_results_spec(
                old(self).products.items@,
                old(self).products.named_products@,
                old(self).modals.search.input@,
            ),
            final(self).modals.search.selected_index == if final(self).modals.search.results@.len() > 0 {
                0
            } else {
                old(self).modals.search.selected_index
            },
            final(self).modals.search.input == old(self).modals.search.input,
            final(self).modals.search.visible == old(self).modals.search.visible,
            final(self).ui == old(self).ui,
            data_kept(*old(self), *final(self)),
            modals_kept_but(old(self).modals, final(self).modals, ModalKind::Search),
    {
        let results = search_products(
            self.modals.search.input.as_str(),
            &self.products.items,
            &self.products.named_products,
        );
        proof {
            crate::search::lemma_ranked_bounded_and_distinct(
                self.products.items@,
                self.products.named_products@,
                self.modals.search.input@,
            );
        }
        self.modals.search.results = results;
        if self.modals.search.results.len() > 0 {
            self.modals.search.selected_index = 0;
        }
    }

    /// Highlights the selected search result in the catalog and closes the
    /// search; nothing happens without a result or when it left the catalog.
    pub fn select_product_from_search(&mut self)
        requires
            old(self).wf(),
        ensures
            final(self).wf(),
            final(self).config == old(self).config,
            final(self).user == old(self).user,
            final(self).products.items == old(self).products.items,
            search_pick(*old(self), *final(self)),
    {
        if self.modals.search.results.len() == 0 {
            return;
        }
        let id = chars_of(self.modals.search.results[self.modals.search.selected_index].id.as_str());
        match crate::search::find_by_id(&self.products.items, &id) {
            Some(k) => {
                self.products.selected = Some(k);
                self.hide_search_modal();
            },
            None => {},
        }
    }
}

/// The message of the first check that parking details fail, if any.
pub open spec fn parking_input_error(phone: Seq<char>, plate: Seq<char>) -> Option<Seq<char>> {
    if phone.len() == 0 {
        Some("Phone number cannot be empty"@)
    } else if plate.len() == 0 {
        Some("License plate cannot be empty"@)
    } else if !crate::validation::valid_phone(phone) {
        Some("Phone number must be 8 digits"@)
    } else {
        match plate_problem(plate) {
            Some(PlateProblem::Length) => Some("License plate must be exactly 7 characters"@),
            Some(PlateProblem::Letters) => Some("License plate must start with 2 letters"@),
            Some(PlateProblem::Digits) => Some("License plate must end with 5 digits"@),
            None => None,
        }
    }
}

/// The parking form accepts its details exactly when the phone number is eight
/// ASCII digits and the plate two ASCII letters followed by five ASCII digits.
pub proof fn lemma_parking_accepts_exactly_valid(phone: Seq<char>, plate: Seq<char>)
    ensures
        parking_input_error(phone, plate).is_none() <==> crate::validation::valid_phone(phone)
            && crate::validation::valid_plate(plate),
{
    crate::search::lemma_utf8_len_bounds(plate);
    if plate.len() > 0 {
        crate::validation::lemma_plate_checks_match(plate);
    }
}

impl AppState {
    // Parking modal.
    /// Opens the parking form, prefilled with the saved phone number and plate.
    pub fn show_parking_modal(&mut self)
        ensures
            final(self).modals.parking.visible,
            final(self).modals.parking.phone_input@ == match old(self).config.phone_number {
                Some(p) => p@,
                None => Seq::<char>::empty(),
            },
            final(self).modals.parking.license_plate_input@ == match old(
                self,
            ).config.license_plate {
                Some(p) => p@,
                None => Seq::<char>::empty(),
            },
            final(self).modals.parking.current_field == 0,
            !final(self).modals.parking.confirming,
            final(self).modals.parking.error.is_none(),
            !final(self).modals.parking.success,
            entered(old(self).ui, final(self).ui, InputMode::ParkingModal),
            data_kept(*old(self), *final(self)),
            modals_kept_but(old(self).modals, final(self).modals, ModalKind::Parking),
    {
        self.modals.parking.visible = true;
        self.push_input_mode(InputMode::ParkingModal);
        self.modals.parking.phone_input = match &self.config.phone_number {
            Some(p) => p.clone(),
            None => String::new(),
        };
        self.modals.parking.license_plate_input = match &self.config.license_plate {
            Some(p) => p.clone(),
            None => String::new(),
        };
        self.modals.parking.current_field = 0;
        self.modals.parking.confirming = false;
        self.modals.parking.error = None;
        self.modals.parking.success = false;
    }

    /// Closes the parking form, leaving the confirmation step too when it is open.
    pub fn hide_parking_modal(&mut self)
        ensures
            !final(self).modals.parking.visible,
            final(self).modals.parking.phone_input@.len() == 0,
            final(self).modals.parking.license_plate_input@.len() == 0,
            final(self).modals.parking.current_field == 0,
            !final(self).modals.parking.confirming,
            final(self).modals.parking.error.is_none(),
            !final(self).modals.parking.success,
            old(self).modals.parking.confirming ==> exists|mid: UiState|
                left(old(self).ui, mid) && left(mid, final(self).ui),
            !old(self).modals.parking.confirming ==> left(old(self).ui, final(self).ui),
            data_kept(*old(self), *final(self)),
            modals_kept_but(old(self).modals, final(self).modals, ModalKind::Parking),
    {
        self.modals.parking.visible = false;
        if self.modals.parking.confirming {
            let ghost before = self.ui;
            self.pop_input_mode();
            let ghost mid = self.ui;
            self.pop_input_mode();
            assert(left(before, mid) && left(mid, self.ui));
        } else {
            self.pop_input_mode();
        }
        self.modals.parking.phone_input = String::new();
        self.modals.parking.license_plate_input = String::new();
        self.modals.parking.current_field = 0;
        self.modals.parking.confirming = false;
        self.modals.parking.error = None;
        self.modals.parking.success = false;
    }

    /// Moves to the other of the form's two fields.
    pub fn next_parking_field(&mut self)
        requires
            old(self).wf(),
        ensures
            final(self).wf(),
            final(self).modals.parking.current_field == (old(self).modals.parking.current_field
                + 1) % 2,
            final(self).ui == old(self).ui,
            data_kept(*old(self), *final(self)),
            modals_kept_but(old(self).modals, final(self).modals, ModalKind::Parking),
    {
        self.modals.parking.current_field = (self.modals.parking.current_field + 1) % 2;
    }

    pub fn prev_parking_field(&mut self)
        requires
            old(self).wf(),
        ensures
            final(self).wf(),
            final(self).modals.parking.current_field == if old(self).modals.parking.current_field
                == 0 {
                1usize
            } else {
                0usize
            },
            final(self).ui == old(self).ui,
            data_kept(*old(self), *final(self)),
            modals_kept_but(old(self).modals, final(self).modals, ModalKind::Parking),
    {
        self.modals.parking.current_field = if self.modals.parking.current_field == 0 {
            1
        } else {
            0
        };
    }

    /// Checks the form: the phone number (trimmed) must be eight digits and the
    /// plate (trimmed, upper-cased) two letters and five digits. On success the
    /// settings keep both, and the caller saves them and then calls
    /// `finish_parking_confirmation`; on failure nothing changes.
    pub fn confirm_parking(&mut self) -> (r: Result<(), AppError>)
        requires
            old(self).wf(),
        ensures
            final(self).wf(),
            crate::text::all_ascii(trimmed(old(self).modals.parking.license_plate_input@))
                ==> upper_of(trimmed(old(self).modals.parking.license_plate_input@)) == trimmed(
                old(self).modals.parking.license_plate_input@,
            ).map_values(|c: char| crate::text::ascii_upper(c)),
            ({
                let phone = trimmed(old(self).modals.parking.phone_input@);
                let plate = upper_of(trimmed(old(self).modals.parking.license_plate_input@));
                match parking_input_error(phone, plate) {
                    Some(m) => {
                        &&& r matches Err(AppError::Input(t)) && t@ == m
                        &&& *final(self) == *old(self)
                    },
                    None => {
                        &&& r.is_ok()
                        &&& final(self).config.phone_number matches Some(p) && p@ == phone
                        &&& final(self).config.license_plate matches Some(p) && p@ == plate
                        &&& final(self).config.username == old(self).config.username
                        &&& final(self).config.room_id == old(self).config.room_id
                        &&& final(self).modals == old(self).modals
                        &&& final(self).ui == old(self).ui
                        &&& final(self).should_quit == old(self).should_quit
                        &&& final(self).products == old(self).products
                        &&& final(self).user == old(self).user
                    },
                }
            }),
    {
        let phone = trim_chars(&chars_of(self.modals.parking.phone_input.as_str()));
        let trimmed_plate = string_from_chars(
            &trim_chars(&chars_of(self.modals.parking.license_plate_input.as_str())),
        );
        let plate_text = uppercase(trimmed_plate.as_str());
        let plate = chars_of(plate_text.as_str());
        if phone.len() == 0 {
            return Err(AppError::Input(String::from_str("Phone number cannot be empty")));
        }
        if plate.len() == 0 {
            return Err(AppError::Input(String::from_str("License plate cannot be empty")));
        }
        if !(phone.len() == 8 && all_ascii_digits(&phone)) {
            return Err(AppError::Input(String::from_str("Phone number must be 8 digits")));
        }
        match check_plate(&plate) {
            Some(PlateProblem::Length) => {
                return Err(
                    AppError::Input(String::from_str("License plate must be exactly 7 characters")),
                );
            },
            Some(PlateProblem::Letters) => {
                return Err(
                    AppError::Input(String::from_str("License plate must start with 2 letters")),
                );
            },
            Some(PlateProblem::Digits) => {
                return Err(
                    AppError::Input(String::from_str("License plate must end with 5 digits")),
                );
            },
            None => {},
        }
        let phone_text = string_from_chars(&phone);
        self.config.phone_number = Some(phone_text);
        self.config.license_plate = Some(plate_text);
        Ok(())
    }

    /// Follows up saving the parking details: once saved, the form shows the
    /// details as saved and the confirmation step opens; a failed save opens the
    /// error modal over the form.
    pub fn finish_parking_confirmation(&mut self, saved: Result<(), AppError>)
        requires
            old(self).wf(),
        ensures
            final(self).wf(),
            match saved {
                Ok(()) => {
                    &&& final(self).modals.parking.phone_input@ == match old(self).config.phone_number {
                        Some(p) => p@,
                        None => old(self).modals.parking.phone_input@,
                    }
                    &&& final(self).modals.parking.license_plate_input@ == match old(self).config.license_plate {
                        Some(p) => p@,
                        None => old(self).modals.parking.license_plate_input@,
                    }
                    &&& final(self).modals.parking.confirming
                    &&& final(self).modals.parking.visible == old(self).modals.parking.visible
                    &&& final(self).modals.parking.error == old(self).modals.parking.error
                    &&& final(self).modals.parking.success == old(self).modals.parking.success
                    &&& entered(old(self).ui, final(self).ui, InputMode::ParkingConfirmation)
                    &&& modals_kept_but(old(self).modals, final(self).modals, ModalKind::Parking)
                },
                Err(e) => {
                    &&& final(self).modals.error.visible
                    &&& final(self).modals.error.message matches Some(m) && m@
                        == "Error confirming parking: "@ + error_text(e)
                    &&& final(self).modals.error.title matches Some(t) && t@ == "Parking Error"@
                    &&& entered(old(self).ui, final(self).ui, InputMode::ErrorModal)
                    &&& modals_kept_but(old(self).modals, final(self).modals, ModalKind::Error)
                },
            },
            data_kept(*old(self), *final(self)),
    {
        match saved {
            Ok(()) => {
                match &self.config.phone_number {
                    Some(p) => {
                        self.modals.parking.phone_input = p.clone();
                    },
                    None => {},
                }
                match &self.config.license_plate {
                    Some(p) => {
                        self.modals.parking.license_plate_input = p.clone();
                    },
                    None => {},
                }
                self.modals.parking.confirming = true;
                self.push_input_mode(InputMode::ParkingConfirmation);
            },
            Err(e) => {
                let message = String::from_str("Error confirming parking: ").concat(
                    e.to_display_string().as_str(),
                );
                self.show_error_modal(message.as_str(), Some("Parking Error"));
            },
        }
    }

    // Payment modal.
    /// Opens the payment modal, or the error modal when no account is loaded.
    pub fn show_qr_payment_modal(&mut self)
        ensures
            old(self).user.member_info.is_none() ==> {
                &&& final(self).modals.error.visible
                &&& final(self).modals.error.message matches Some(m) && m@
                    == "Invalid user account. Please log in with a valid username."@
                &&& final(self).modals.error.title matches Some(t) && t@ == "Invalid User"@
                &&& entered(old(self).ui, final(self).ui, InputMode::ErrorModal)
                &&& modals_kept_but(old(self).modals, final(self).modals, ModalKind::Error)
            },
            old(self).user.member_info.is_some() ==> {
                &&& final(self).modals.qr_payment.visible
                &&& final(self).modals.qr_payment.amount_input@.len() == 0
                &&& !final(self).modals.qr_payment.showing_qr
                &&& entered(old(self).ui, final(self).ui, InputMode::QrPaymentAmount)
                &&& modals_kept_but(old(self).modals, final(self).modals, ModalKind::QrPayment)
            },
            data_kept(*old(self), *final(self)),
    {
        if self.user.member_info.is_none() {
            self.show_error_modal(
                "Invalid user account. Please log in with a valid username.",
                Some("Invalid User"),
            );
            return;
        }
        self.modals.qr_payment.visible = true;
        self.modals.qr_payment.amount_input = String::new();
        self.modals.qr_payment.showing_qr = false;
        self.push_input_mode(InputMode::QrPaymentAmount);
    }

    /// Closes the payment modal, leaving the code display too when it is open.
    pub fn hide_qr_payment_modal(&mut self)
        ensures
            !final(self).modals.qr_payment.visible,
            final(self).modals.qr_payment.amount_input@.len() == 0,
            !final(self).modals.qr_payment.showing_qr,
            old(self).ui.input_mode == InputMode::QrPaymentDisplay ==> exists|mid: UiState|
                left(old(self).ui, mid) && left(mid, final(self).ui),
            old(self).ui.input_mode != InputMode::QrPaymentDisplay ==> left(
                old(self).ui,
                final(self).ui,
            ),
            data_kept(*old(self), *final(self)),
            modals_kept_but(old(self).modals, final(self).modals, ModalKind::QrPayment),
    {
        self.modals.qr_payment.visible = false;
        self.modals.qr_payment.amount_input = String::new();
        self.modals.qr_payment.showing_qr = false;
        if self.ui.input_mode == InputMode::QrPaymentDisplay {
            let ghost before = self.ui;
            self.pop_input_mode();
            let ghost mid = self.ui;
            self.pop_input_mode();
            assert(left(before, mid) && left(mid, self.ui));
        } else {
            self.pop_input_mode();
        }
    }

    /// Shows the payment code once it has been made for the typed amount.
    pub fn show_qr_code(&mut self)
        ensures
            final(self).modals.qr_payment.showing_qr,
            final(self).modals.qr_payment.visible == old(self).modals.qr_payment.visible,
            final(self).modals.qr_payment.amount_input == old(self).modals.qr_payment.amount_input,
            entered(old(self).ui, final(self).ui, InputMode::QrPaymentDisplay),
            data_kept(*old(self), *final(self)),
            modals_kept_but(old(self).modals, final(self).modals, ModalKind::QrPayment),
    {
        self.modals.qr_payment.showing_qr = true;
        self.push_input_mode(InputMode::QrPaymentDisplay);
    }

    /// Goes back from the code display to the amount.
    pub fn back_to_amount_input(&mut self)
        ensures
            !final(self).modals.qr_payment.showing_qr,
            final(self).modals.qr_payment.visible == old(self).modals.qr_payment.visible,
            final(self).modals.qr_payment.amount_input == old(self).modals.qr_payment.amount_input,
            left(old(self).ui, final(self).ui),
            data_kept(*old(self), *final(self)),
            modals_kept_but(old(self).modals, final(self).modals, ModalKind::QrPayment),
    {
        self.modals.qr_payment.showing_qr = false;
        self.pop_input_mode();
    }
}

} // verus!
