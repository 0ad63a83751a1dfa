use vstd::prelude::*;
use crate::config::Config;
use crate::models::{MemberInfo, Product, Sale};
use crate::catalog::in_display_order;
use crate::search::{unique_ids, MAX_RESULTS};

verus! {

/// Which modal or workflow owns keyboard input.
#[derive(PartialEq, Eq, Clone, Copy, Debug, Structural)]
pub enum InputMode {
    Normal,
    Editing,
    EditingUsername,
    BuyConfirmation,
    SearchMode,
    ErrorModal,
    ParkingModal,
    ParkingConfirmation,
    TerminalSizeModal,
    QrPaymentAmount,
    QrPaymentDisplay,
}

/// Input buffers and the mode stack: the current mode, and below it the modes
/// that opening each modal interrupted, innermost last.
#[derive(Debug, Clone)]
pub struct UiState {
    pub input: String,
    pub input_mode: InputMode,
    pub mode_stack: Vec<InputMode>,
    pub number_prefix: String,
    pub pending_g: bool,
}

/// The catalog, in display order, with the highlighted row and the alias index.
#[derive(Debug, Clone)]
pub struct ProductsState {
    pub items: Vec<Product>,
    pub selected: Option<usize>,
    pub error: Option<String>,
    pub named_products: Vec<(String, i32)>,
    pub named_products_error: Option<String>,
}

#[derive(Debug, Clone)]
pub struct UserState {
    pub member_id: Option<i32>,
    pub member_info: Option<MemberInfo>,
    pub latest_sales: Vec<Sale>,
    pub error: Option<String>,
}

#[derive(Debug, Clone)]
pub struct ErrorModalState {
    pub visible: bool,
    pub message: Option<String>,
    pub title: Option<String>,
}

#[derive(Debug, Clone)]
pub struct UsernameModalState {
    pub visible: bool,
    pub input: String,
}

#[derive(Debug, Clone)]
pub struct PurchaseModalState {
    pub visible: bool,
    pub selected_product_id: Option<String>,
    pub error: Option<String>,
    pub success: bool,
    pub quantity: u32,
}

#[derive(Debug, Clone)]
pub struct SearchModalState {
    pub visible: bool,
    pub input: String,
    pub results: Vec<Product>,
    pub selected_index: usize,
}

#[derive(Debug, Clone)]
pub struct ParkingModalState {
    pub visible: bool,
    pub phone_input: String,
    pub license_plate_input: String,
    pub current_field: usize,
    pub error: Option<String>,
    pub success: bool,
    pub confirming: bool,
    pub vehicle_brand: Option<String>,
    pub vehicle_model: Option<String>,
    pub vehicle_variant: Option<String>,
}

#[derive(Debug, Clone, Copy, PartialEq, Eq, Structural)]
pub struct TerminalSizeModalState {
    pub visible: bool,
}

/// The payment modal: an amount being typed, then a code shown for it.
#[derive(Debug, Clone)]
pub struct QrPaymentModalState {
    pub visible: bool,
    pub amount_input: String,
    pub showing_qr: bool,
}

#[derive(Debug, Clone)]
pub struct ModalState {
    pub username: UsernameModalState,
    pub purchase: PurchaseModalState,
    pub search: SearchModalState,
    pub error: ErrorModalState,
    pub parking: ParkingModalState,
    pub terminal_size: TerminalSizeModalState,
    pub qr_payment: QrPaymentModalState,
}

/// Everything the screen shows, owned in one place.
#[derive(Debug, Clone)]
pub struct AppState {
    pub config: Config,
    pub ui: UiState,
    pub products: ProductsState,
    pub user: UserState,
    pub modals: ModalState,
    pub should_quit: bool,
}

/// The modals, to say which one an operation touches.
#[derive(PartialEq, Eq, Clone, Copy, Debug, Structural)]
pub enum ModalKind {
    Username,
    Purchase,
    Search,
    Error,
    Parking,
    TerminalSize,
    QrPayment,
}

/// `b` holds the same modal states as `a`, but perhaps for modal `k`.
pub open spec fn modals_kept_but(a: ModalState, b: ModalState, k: ModalKind) -> bool {
    &&& (k != ModalKind::Username ==> b.username == a.username)
    &&& (k != ModalKind::Purchase ==> b.purchase == a.purchase)
    &&& (k != ModalKind::Search ==> b.search == a.search)
    &&& (k != ModalKind::Error ==> b.error == a.error)
    &&& (k != ModalKind::Parking ==> b.parking == a.parking)
    &&& (k != ModalKind::TerminalSize ==> b.terminal_size == a.terminal_size)
    &&& (k != ModalKind::QrPayment ==> b.qr_payment == a.qr_payment)
}

/// `b` keeps `a`'s settings, catalog, account, quit flag and input buffers.
pub open spec fn data_kept(a: AppState, b: AppState) -> bool {
    &&& b.config == a.config
    &&& b.products == a.products
    &&& b.user == a.user
    &&& b.should_quit == a.should_quit
    &&& b.ui.input == a.ui.input
    &&& b.ui.number_prefix == a.ui.number_prefix
    &&& b.ui.pending_g == a.ui.pending_g
}

/// `b`'s modes are `a`'s with `mode` entered: the current mode is remembered.
pub open spec fn entered(a: UiState, b: UiState, mode: InputMode) -> bool {
    b.input_mode == mode && b.mode_stack@ == a.mode_stack@.push(a.input_mode)
}

/// `b`'s modes are `a`'s with the current mode left: the last remembered mode
/// comes back, or `Normal` when none is remembered.
pub open spec fn left(a: UiState, b: UiState) -> bool {
    if a.mode_stack@.len() > 0 {
        b.input_mode == a.mode_stack@.last() && b.mode_stack@ == a.mode_stack@.drop_last()
    } else {
        b.input_mode == InputMode::Normal && b.mode_stack@.len() == 0
    }
}

pub open spec fn same_modes(a: UiState, b: UiState) -> bool {
    b.input_mode == a.input_mode && b.mode_stack@ == a.mode_stack@
}

/// The bounds that the state keeps between operations.
pub open spec fn state_wf(s: AppState) -> bool {
    &&& 1 <= s.modals.purchase.quantity <= 99
    &&& s.modals.search.results@.len() <= MAX_RESULTS
    &&& (s.modals.search.results@.len() > 0 ==> s.modals.search.selected_index
        < s.modals.search.results@.len())
    &&& s.modals.parking.current_field < 2
    &&& unique_ids(s.products.items@)
    &&& in_display_order(s.products.items@)
    &&& (s.products.selected matches Some(i) ==> i == 0 || i < s.products.items@.len())
}

impl AppState {
    pub open spec fn wf(&self) -> bool {
        state_wf(*self)
    }

    /// Records the current mode and switches to `new_mode`.
    pub fn push_input_mode(&mut self, new_mode: InputMode)
        ensures
            entered(old(self).ui, final(self).ui, new_mode),
            data_kept(*old(self), *final(self)),
            final(self).modals == old(self).modals,
    {
        let current = self.ui.input_mode;
        self.ui.mode_stack.push(current);
        self.ui.input_mode = new_mode;
    }

    /// Restores the last remembered mode, or `Normal` when none is remembered.
    pub fn pop_input_mode(&mut self)
        ensures
            left(old(self).ui, final(self).ui),
            data_kept(*old(self), *final(self)),
            final(self).modals == old(self).modals,
    {
        match self.ui.mode_stack.pop() {
            Some(mode) => {
                self.ui.input_mode = mode;
            },
            None => {
                self.ui.input_mode = InputMode::Normal;
            },
        }
    }
}

/// Entering two modes one inside the other and leaving both gives back the
/// modes there were before.
pub proof fn lemma_nested_round_trip(
    a: UiState,
    b: UiState,
    c: UiState,
    d: UiState,
    e: UiState,
    x: InputMode,
    y: InputMode,
)
    requires
        entered(a, b, x),
        entered(b, c, y),
        left(c, d),
        left(d, e),
    ensures
        same_modes(a, e),
{
    lemma_enter_leave_round_trip(b, c, d, y);
    assert(d.mode_stack@ =~= b.mode_stack@);
    assert(e.mode_stack@ =~= a.mode_stack@);
}

/// What the instructions line needs to know.
pub struct InstructionsViewState<'a> {
    pub username: Option<&'a String>,
    pub input: &'a str,
    pub input_mode: &'a InputMode,
}

/// Entering a mode and leaving it gives back the mode and the remembered modes
/// there were before; so from `Normal`, entering two modes and leaving twice
/// comes back to `Normal`.
pub proof fn lemma_enter_leave_round_trip(a: UiState, b: UiState, c: UiState, mode: InputMode)
    requires
        entered(a, b, mode),
        left(b, c),
    ensures
        same_modes(a, c),
{
    assert(c.mode_stack@ =~= a.mode_stack@);
}

} // verus!
