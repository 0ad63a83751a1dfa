use vstd::prelude::*;
use crate::catalog::{build_catalog, catalog_from, product_views, unique_view_ids};
use crate::decimal::{int_chars, int_text};
use crate::error::{error_text, AppError};
use crate::formatters::{format_error_message, formatted_message};
use crate::models::{MemberInfo, Product, Sale};
use crate::modals::purchase_block;
use crate::money::{amount_text, money_text};
use crate::search::{index_of_id, find_by_id, unique_ids};
use crate::state::{data_kept, entered, modals_kept_but, AppState, InputMode, ModalKind};
use crate::text::{chars_of, string_from_chars};

verus! {

/// A purchase to send to the backend: the member and the buy string
/// `<username> <product id>:<quantity>`.
#[derive(Debug, Clone)]
pub struct PurchaseOrder {
    pub member_id: i32,
    pub buystring: String,
}

/// The product that the purchase modal is for, if it is in the catalog.
pub open spec fn selected_product(s: AppState) -> Option<Product> {
    match s.modals.purchase.selected_product_id {
        Some(id) => match index_of_id(s.products.items@, id@, 0) {
            Some(k) => Some(s.products.items@[k]),
            None => None,
        },
        None => None,
    }
}

/// What the purchase costs: the product's price times the quantity.
pub open spec fn total_cost(s: AppState) -> Option<int> {
    match selected_product(s) {
        Some(p) => Some(p.price@ * s.modals.purchase.quantity),
        None => None,
    }
}

/// Whether the loaded balance covers the purchase.
pub open spec fn balance_covers(s: AppState) -> bool {
    match (s.user.member_info, total_cost(s)) {
        (Some(info), Some(c)) => info.balance@ >= c,
        _ => false,
    }
}

pub open spec fn buy_string(s: AppState) -> Option<Seq<char>> {
    match (s.user.member_info, s.modals.purchase.selected_product_id) {
        (Some(info), Some(id)) => Some(
            info.username@ + seq![' '] + id@ + seq![':'] + int_text(
                s.modals.purchase.quantity as int,
            ),
        ),
        _ => None,
    }
}

pub open spec fn insufficient_message(s: AppState) -> Seq<char> {
    match total_cost(s) {
        Some(c) => "Insufficient balance. This purchase requires "@ + money_text(c),
        None => "Insufficient balance for this purchase"@,
    }
}

/// What deciding on the open purchase does, and the order it gives, if any.
pub open spec fn purchase_decision(o: AppState, f: AppState, r: Option<PurchaseOrder>) -> bool {
    match purchase_block(o.user) {
        Some(m) => {
            &&& r.is_none()
            &&& f.modals.error.visible
            &&& f.modals.error.message matches Some(t) && t@ == formatted_message(m, 50, 10)
            &&& f.modals.error.title matches Some(t) && t@ == "Invalid User"@
            &&& entered(o.ui, f.ui, InputMode::ErrorModal)
            &&& modals_kept_but(o.modals, f.modals, ModalKind::Error)
        },
        None => if !balance_covers(o) {
            &&& r.is_none()
            &&& f.modals.purchase.error matches Some(t) && t@ == insufficient_message(o)
            &&& f.modals.purchase.success == o.modals.purchase.success
            &&& f.modals.purchase.visible == o.modals.purchase.visible
            &&& f.modals.purchase.quantity == o.modals.purchase.quantity
            &&& f.modals.purchase.selected_product_id == o.modals.purchase.selected_product_id
            &&& modals_kept_but(o.modals, f.modals, ModalKind::Purchase)
            &&& f.ui == o.ui
        } else {
            match (o.user.member_id, buy_string(o)) {
                (Some(id), Some(b)) => {
                    &&& r matches Some(order) && order.member_id == id && order.buystring@ == b
                    &&& f.modals.purchase.error.is_none()
                    &&& !f.modals.purchase.success
                    &&& f.modals.purchase.visible == o.modals.purchase.visible
                    &&& f.modals.purchase.quantity == o.modals.purchase.quantity
                    &&& f.modals.purchase.selected_product_id == o.modals.purchase.selected_product_id
                    &&& modals_kept_but(o.modals, f.modals, ModalKind::Purchase)
                    &&& f.ui == o.ui
                },
                _ => {
                    &&& r.is_none()
                    &&& f.modals.error.visible
                    &&& modals_kept_but(o.modals, f.modals, ModalKind::Error)
                    &&& f.modals.error.message matches Some(t) && t@ == formatted_message(
                        "Unable to process purchase: missing required information"@, 50, 5)
                    &&& f.modals.error.title matches Some(t) && t@ == "Purchase Error"@
                    &&& entered(o.ui, f.ui, InputMode::ErrorModal)
                },
            }
        },
    }
}

/// What taking a delivered product list (or the failure to get one) does.
pub open spec fn products_applied(
    o: AppState,
    f: AppState,
    result: Result<Vec<Product>, AppError>,
) -> bool {
    &&& match result {
        Ok(raw) => product_views(f.products.items@) == catalog_from(raw@)
            && f.products.error.is_none(),
        Err(e) => (f.products.error matches Some(t) && t@ == error_text(e))
            && f.products.items@.len() == 0,
    }
    &&& f.products.named_products == o.products.named_products
    &&& f.products.named_products_error == o.products.named_products_error
    &&& f.user == o.user
    &&& f.config == o.config
    &&& f.modals == o.modals
    &&& f.ui == o.ui
}

/// What starting an account load does, and the username it gives.
pub open spec fn user_load_begun(o: AppState, f: AppState, r: Option<String>) -> bool {
    &&& match o.config.username {
        Some(u) => {
            &&& r == Some(u)
            &&& f.user.error.is_none()
            &&& f.user.member_id.is_none()
            &&& f.user.member_info.is_none()
            &&& f.user.latest_sales@.len() == 0
        },
        None => r.is_none() && f.user == o.user,
    }
    &&& f.config == o.config
    &&& f.products == o.products
    &&& f.modals == o.modals
    &&& f.ui == o.ui
    &&& f.should_quit == o.should_quit
}

/// What taking the answer to a username lookup does, and what it hands back.
pub open spec fn member_id_applied(
    o: AppState,
    f: AppState,
    username: Seq<char>,
    result: Result<Option<i32>, AppError>,
    r: Result<Option<i32>, AppError>,
) -> bool {
    &&& match result {
        Ok(Some(id)) => r == Ok::<Option<i32>, AppError>(Some(id)) && f.user.member_id == Some(id)
            && f.user.error == o.user.error,
        Ok(None) => r == Ok::<Option<i32>, AppError>(None) && (f.user.error matches Some(t) && t@
            == "Username '"@ + username + "' does not exist"@) && f.user.member_id
            == o.user.member_id,
        Err(e) => r == Err::<Option<i32>, AppError>(e) && f.user == o.user,
    }
    &&& f.user.member_info == o.user.member_info
    &&& f.user.latest_sales == o.user.latest_sales
    &&& f.config == o.config
    &&& f.products == o.products
    &&& f.modals == o.modals
    &&& f.ui == o.ui
    &&& f.should_quit == o.should_quit
}

/// Loading the catalog and then an account whose username the backend does not
/// know leaves the catalog as loaded, with no catalog error, and gives an
/// account-scoped error with no account data; the lookup hands back no member.
pub proof fn lemma_unknown_user_keeps_catalog(
    s0: AppState,
    s1: AppState,
    s2: AppState,
    s3: AppState,
    raw: Vec<Product>,
    name: String,
    r: Result<Option<i32>, AppError>,
)
    requires
        products_applied(s0, s1, Ok(raw)),
        user_load_begun(s1, s2, Some(name)),
        member_id_applied(s2, s3, name@, Ok(None), r),
    ensures
        product_views(s3.products.items@) == catalog_from(raw@),
        s3.products.error.is_none(),
        s3.products.named_products == s0.products.named_products,
        r == Ok::<Option<i32>, AppError>(None),
        s3.user.error matches Some(t) && t@ == "Username '"@ + name@ + "' does not exist"@,
        s3.user.member_info.is_none(),
        s3.user.member_id.is_none(),
{
}

impl AppState {
    /// The cost of the open purchase, in minor units.
    fn get_total_cost(&self) -> (r: Option<i64>)
        ensures
            match total_cost(*self) {
                Some(c) => r == Some(c as i64) && -0x8000_0000 * 0xFFFF_FFFF <= c <= 0x7FFF_FFFF
                    * 0xFFFF_FFFF,
                None => r.is_none(),
            },
    {
        match &self.modals.purchase.selected_product_id {
            Some(id) => {
                let idc = chars_of(id.as_str());
                match find_by_id(&self.products.items, &idc) {
                    Some(k) => {
                        let price = self.products.items[k].price.0 as i64;
                        let q = self.modals.purchase.quantity as i64;
                        assert(-0x8000_0000 * 0xFFFF_FFFF <= price * q <= 0x7FFF_FFFF
                            * 0xFFFF_FFFF) by (nonlinear_arith)
                            requires
                                -0x8000_0000 <= price <= 0x7FFF_FFFF,
                                0 <= q <= 0xFFFF_FFFF,
                        ;
                        Some(price * q)
                    },
                    None => None,
                }
            },
            None => None,
        }
    }

    fn has_sufficient_balance(&self) -> (r: bool)
        ensures
            r == balance_covers(*self),
    {
        match (&self.user.member_info, self.get_total_cost()) {
            (Some(info), Some(cost)) => info.balance.0 as i64 >= cost,
            _ => false,
        }
    }

    fn get_buy_string(&self) -> (r: Option<String>)
        ensures
            match buy_string(*self) {
                Some(b) => r matches Some(t) && t@ == b,
                None => r.is_none(),
            },
    {
        match (&self.user.member_info, &self.modals.purchase.selected_product_id) {
            (Some(info), Some(id)) => {
                let mut v = chars_of(info.username.as_str());
                v.push(' ');
                let v = crate::text::concat_chars(&v, &chars_of(id.as_str()));
                let mut v = v;
                v.push(':');
                let v = crate::text::concat_chars(&v, &int_chars(self.modals.purchase.quantity as i64));
                Some(string_from_chars(&v))
            },
            _ => None,
        }
    }

    /// Decides on the open purchase before anything is sent. An account that
    /// cannot buy gets the error modal; a balance that does not cover the cost
    /// gets a message in the purchase modal; otherwise the order to send is
    /// returned, with the modal's message and success cleared.
    pub fn prepare_purchase(&mut self) -> (r: Option<PurchaseOrder>)
        requires
            old(self).wf(),
        ensures
            final(self).wf(),
            purchase_decision(*old(self), *final(self), r),
            data_kept(*old(self), *final(self)),
    {
        match self.validate_user_for_purchase() {
            Err(message) => {
                let formatted = format_error_message(message.as_str(), 50, 10);
                self.show_error_modal(formatted.as_str(), Some("Invalid User"));
                return None;
            },
            Ok(()) => {},
        }
        if !self.has_sufficient_balance() {
            let message = match self.get_total_cost() {
                Some(cost) => String::from_str("Insufficient balance. This purchase requires ").concat(
                    amount_text(cost).as_str(),
                ),
                None => String::from_str("Insufficient balance for this purchase"),
            };
            self.modals.purchase.error = Some(message);
            return None;
        }
        match (self.user.member_id, self.get_buy_string()) {
            (Some(member_id), Some(buystring)) => {
                self.modals.purchase.error = None;
                self.modals.purchase.success = false;
                Some(PurchaseOrder { member_id, buystring })
            },
            _ => {
                let message = "Unable to process purchase: missing required information";
                let formatted = format_error_message(message, 50, 5);
                self.show_error_modal(formatted.as_str(), Some("Purchase Error"));
                None
            },
        }
    }

    /// Records what the backend answered to a purchase. After a success the
    /// caller reloads the account; a failure leaves balance and history alone.
    pub fn finish_purchase(&mut self, outcome: Result<(), AppError>)
        ensures
            match outcome {
                Ok(()) => final(self).modals.purchase.success && final(self).modals.purchase.error
                    == old(self).modals.purchase.error,
                Err(e) => (final(self).modals.purchase.error matches Some(t) && t@
                    == "Purchase failed: "@ + error_text(e)) && final(self).modals.purchase.success
                    == old(self).modals.purchase.success,
            },
            final(self).modals.purchase.visible == old(self).modals.purchase.visible,
            final(self).modals.purchase.quantity == old(self).modals.purchase.quantity,
            final(self).modals.purchase.selected_product_id == old(self).modals.purchase.selected_product_id,
            final(self).ui == old(self).ui,
            data_kept(*old(self), *final(self)),
            modals_kept_but(old(self).modals, final(self).modals, ModalKind::Purchase),
    {
        match outcome {
            Ok(()) => {
                self.modals.purchase.success = true;
            },
            Err(e) => {
                self.modals.purchase.error = Some(
                    String::from_str("Purchase failed: ").concat(e.to_display_string().as_str()),
                );
            },
        }
    }

    /// Records what the parking provider answered.
    pub fn finish_parking(&mut self, outcome: Result<(), AppError>)
        ensures
            match outcome {
                Ok(()) => final(self).modals.parking.success && final(self).modals.parking.error.is_none(),
                Err(e) => !final(self).modals.parking.success && (final(self).modals.parking.error matches Some(t)
                    && t@ == "Failed to register parking: "@ + error_text(e)),
            },
            final(self).modals.parking.visible == old(self).modals.parking.visible,
            final(self).modals.parking.confirming == old(self).modals.parking.confirming,
            final(self).modals.parking.phone_input == old(self).modals.parking.phone_input,
            final(self).modals.parking.license_plate_input == old(self).modals.parking.license_plate_input,
            final(self).ui == old(self).ui,
            data_kept(*old(self), *final(self)),
            modals_kept_but(old(self).modals, final(self).modals, ModalKind::Parking),
    {
        match outcome {
            Ok(()) => {
                self.modals.parking.success = true;
                self.modals.parking.error = None;
            },
            Err(e) => {
                self.modals.parking.success = false;
                self.modals.parking.error = Some(
                    String::from_str("Failed to register parking: ").concat(
                        e.to_display_string().as_str(),
                    ),
                );
            },
        }
    }
}

proof fn lemma_views_in_order(s: Seq<Product>, raw: Seq<Product>)
    requires
        product_views(s) == catalog_from(raw),
    ensures
        crate::catalog::in_display_order(s),
{
    crate::catalog::lemma_sorted_by_id_in_order(
        crate::catalog::first_of_each_id(raw.map_values(|p: Product| crate::catalog::cleaned_view(p))),
    );
    assert forall|i: int| 0 <= i < s.len() - 1 implies !crate::catalog::id_before(
        (#[trigger] s[i + 1]).id@,
        s[i].id@,
    ) by {
        assert(product_views(s)[i] == crate::catalog::product_view(s[i]));
        assert(product_views(s)[i + 1] == crate::catalog::product_view(s[i + 1]));
        assert(product_views(s).len() == s.len());
    }
}

proof fn lemma_views_unique_ids(s: Seq<Product>)
    requires
        unique_view_ids(product_views(s)),
    ensures
        unique_ids(s),
{
    assert forall|i: int, j: int|
        0 <= i < s.len() && 0 <= j < s.len() && i != j implies (#[trigger] s[i]).id@ != (
        #[trigger] s[j]).id@ by {
        assert(product_views(s)[i].0 == s[i].id@);
        assert(product_views(s)[j].0 == s[j].id@);
    }
}

impl AppState {
    /// Takes the product list that the backend delivered, or records why it
    /// could not be had. A failure leaves the alias index and the account alone.
    pub fn apply_products(&mut self, result: Result<Vec<Product>, AppError>)
        requires
            old(self).wf(),
        ensures
            final(self).wf(),
            products_applied(*old(self), *final(self), result),
    {
        match result {
            Ok(raw) => {
                let ghost raw_view = raw@;
                let items = build_catalog(raw);
                proof {
                    crate::catalog::lemma_catalog_ids_unique(raw_view);
                    lemma_views_unique_ids(items@);
                    lemma_views_in_order(items@, raw_view);
                }
                self.products.items = items;
                self.products.error = None;
            },
            Err(e) => {
                self.products.items = Vec::new();
                self.products.error = Some(e.to_display_string());
            },
        }
        if self.products.items.len() == 0 {
            self.products.selected = Some(0);
        } else {
            match self.products.selected {
                Some(i) => {
                    if i >= self.products.items.len() {
                        self.products.selected = Some(0);
                    }
                },
                None => {},
            }
        }
    }

    /// Takes the alias index that the backend delivered, or records why it
    /// could not be had.
    pub fn apply_named_products(&mut self, result: Result<Vec<(String, i32)>, AppError>)
        requires
            old(self).wf(),
        ensures
            final(self).wf(),
            match result {
                Ok(v) => final(self).products.named_products == v
                    && final(self).products.named_products_error.is_none(),
                Err(e) => final(self).products.named_products_error matches Some(t) && t@
                    == error_text(e) && final(self).products.named_products
                    == old(self).products.named_products,
            },
            final(self).products.items == old(self).products.items,
            final(self).products.selected == old(self).products.selected,
            final(self).products.error == old(self).products.error,
            final(self).user == old(self).user,
            final(self).config == old(self).config,
            final(self).modals == old(self).modals,
            final(self).ui == old(self).ui,
    {
        match result {
            Ok(v) => {
                self.products.named_products = v;
                self.products.named_products_error = None;
            },
            Err(e) => {
                self.products.named_products_error = Some(e.to_display_string());
            },
        }
    }

    /// Starts loading the account: with a configured username the account is
    /// cleared and the username to look up returned; without one nothing changes.
    pub fn begin_user_load(&mut self) -> (r: Option<String>)
        ensures
            user_load_begun(*old(self), *final(self), r),
    {
        match &self.config.username {
            Some(u) => {
                let name = u.clone();
                self.user.error = None;
                self.user.member_info = None;
                self.user.member_id = None;
                self.user.latest_sales = Vec::new();
                Some(name)
            },
            None => None,
        }
    }

    /// Takes the answer to the username lookup. A known member's id is kept and
    /// returned, so that the caller fetches the account and the sales; an unknown
    /// username is recorded as `Username '<name>' does not exist`; a failed
    /// lookup is handed back to the caller with nothing changed.
    pub fn apply_member_id(&mut self, username: &str, result: Result<Option<i32>, AppError>) -> (r:
        Result<Option<i32>, AppError>)
        ensures
            member_id_applied(*old(self), *final(self), username@, result, r),
    {
        match result {
            Ok(Some(id)) => {
                self.user.member_id = Some(id);
                Ok(Some(id))
            },
            Ok(None) => {
                self.user.error = Some(
                    String::from_str("Username '").concat(username).concat("' does not exist"),
                );
                Ok(None)
            },
            Err(e) => Err(e),
        }
    }

    /// Takes the two answers fetched together for a known member. Each success
    /// is kept whatever became of the other; the first failure is recorded and a
    /// later one does not replace it.
    pub fn apply_member_data(
        &mut self,
        info: Result<MemberInfo, AppError>,
        sales: Result<Vec<Sale>, AppError>,
    )
        ensures
            match info {
                Ok(i) => final(self).user.member_info == Some(i),
                Err(_) => final(self).user.member_info == old(self).user.member_info,
            },
            match sales {
                Ok(v) => final(self).user.latest_sales == v,
                Err(_) => final(self).user.latest_sales == old(self).user.latest_sales,
            },
            match info {
                Err(e) => final(self).user.error matches Some(t) && t@
                    == "Failed to fetch member info: "@ + error_text(e),
                Ok(_) => match (old(self).user.error, sales) {
                    (None, Err(e)) => final(self).user.error matches Some(t) && t@
                        == "Failed to fetch sales: "@ + error_text(e),
                    _ => final(self).user.error == old(self).user.error,
                },
            },
            final(self).user.member_id == old(self).user.member_id,
            final(self).config == old(self).config,
            final(self).products == old(self).products,
            final(self).modals == old(self).modals,
            final(self).ui == old(self).ui,
            final(self).should_quit == old(self).should_quit,
    {
        match info {
            Ok(i) => {
                self.user.member_info = Some(i);
            },
            Err(e) => {
                let t = String::from_str("Failed to fetch member info: ").concat(
                    e.to_display_string().as_str(),
                );
                self.user.error = Some(t);
            },
        }
        match sales {
            Ok(v) => {
                self.user.latest_sales = v;
            },
            Err(e) => {
                if self.user.error.is_none() {
                    let t = String::from_str("Failed to fetch sales: ").concat(
                        e.to_display_string().as_str(),
                    );
                    self.user.error = Some(t);
                }
            },
        }
    }

    /// Records that the account could not be loaded at all.
    pub fn record_user_load_failure(&mut self, error: &AppError)
        ensures
            final(self).user.error matches Some(t) && t@ == "Failed to load user data: "@
                + error_text(*error),
            final(self).user.member_id == old(self).user.member_id,
            final(self).user.member_info == old(self).user.member_info,
            final(self).user.latest_sales == old(self).user.latest_sales,
            final(self).config == old(self).config,
            final(self).products == old(self).products,
            final(self).modals == old(self).modals,
            final(self).ui == old(self).ui,
            final(self).should_quit == old(self).should_quit,
    {
        self.user.error = Some(
            String::from_str("Failed to load user data: ").concat(error.to_display_string().as_str()),
        );
    }
}

} // verus!
