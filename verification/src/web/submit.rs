//! The decisions of a checkout submission, step by step: what to do with the cart and the
//! contact form, which catalog cards to read, the one order to place, then clearing the cart
//! and the redirect. The caller performs each action (storage reads and writes) and hands
//! back what came of it.

use vstd::prelude::*;

use crate::catalog::search::CatalogCard;
use crate::orders::cart::CartItem;
use crate::orders::order::{NewOrderContact, NewOrderItem};
use crate::shared::is_uuid_v4_text;
use crate::text::opt_view;
use crate::web::checkout::{
    checkout_done_location, contact_outcome, guest_buyer_id, is_plan_of, plan_order_items,
    plan_refusal, unavailable_message, validate_contact, ContactForm,
};
use crate::web::cookie::{expire_cart_cookie, expire_cookie_text};
use crate::web::error::WebError;

verus! {

/// Where a submission stands.
#[derive(Debug, Clone, Copy, PartialEq, Eq, Structural)]
pub enum SubmitStage {
    /// Reading the catalog card of each cart line, in order.
    Cards,
    /// Waiting for the order to be stored.
    Order,
    /// Waiting for the cart to be emptied.
    Clear,
    /// Answered; nothing more happens.
    Over,
}

/// The one order a submission places: `OrderRepo::checkout` with these arguments.
pub struct OrderCall {
    pub buyer_id: String,
    pub currency: String,
    pub items: Vec<NewOrderItem>,
    pub contact: NewOrderContact,
}

/// What the caller does next.
pub enum SubmitAction {
    /// Answer with a redirect to the cart page (no cart, or an empty one).
    RedirectToCart,
    /// Show the form again with this message.
    ShowContactError(String),
    /// Read the catalog card of cart line `i` and hand it to `card_read`.
    ReadCard(usize),
    /// Answer with this error.
    Fail(WebError),
    /// Store this order and hand its id to `order_placed`.
    PlaceOrder(OrderCall),
    /// Empty the cart and call `cart_cleared`.
    ClearCart,
    /// Answer 303 to `location`, expiring the cart cookie with `set_cookie`.
    Finish { location: String, set_cookie: String },
}

/// A checkout submission in progress.
pub struct SubmitFlow {
    items: Vec<CartItem>,
    cards: Vec<Option<CatalogCard>>,
    contact: NewOrderContact,
    secure: bool,
    stage: SubmitStage,
    order_id: String,
}

impl SubmitFlow {
    /// The cart lines being checked out.
    pub closed spec fn items(&self) -> Seq<CartItem> {
        self.items@
    }

    /// The cards read so far, one per cart line from the first.
    pub closed spec fn cards(&self) -> Seq<Option<CatalogCard>> {
        self.cards@
    }

    /// The accepted contact, once the form has passed.
    pub closed spec fn contact(&self) -> NewOrderContact {
        self.contact
    }

    /// Whether the site is served over HTTPS.
    pub closed spec fn secure(&self) -> bool {
        self.secure
    }

    pub closed spec fn stage(&self) -> SubmitStage {
        self.stage
    }

    /// The id of the stored order, once there is one.
    pub closed spec fn order_id(&self) -> Seq<char> {
        self.order_id@
    }

    /// Starts a submission with the lines of the visitor's cart (`None` when there is no cart)
    /// and the form: no cart or an empty one goes back to the cart page; a form that does not
    /// pass `validate_contact` is shown again with its message; otherwise the card of the first
    /// line is read.
    pub fn begin(items: Option<Vec<CartItem>>, form: &ContactForm, secure: bool) -> (r: (
        SubmitFlow,
        SubmitAction,
    ))
        ensures
            r.0.secure() == secure,
            r.0.cards().len() == 0,
            r.0.items() == (match items {
                Some(v) => v@,
                None => Seq::empty(),
            }),
            (items is None || items->0@.len() == 0) ==> r.1 is RedirectToCart && r.0.stage()
                == SubmitStage::Over,
            items matches Some(v) && v@.len() > 0 ==> match contact_outcome(
                form.email@,
                opt_view(form.name),
            ) {
                Err(m) => r.1 matches SubmitAction::ShowContactError(msg) && msg@ == m
                    && r.0.stage() == SubmitStage::Over,
                Ok((e, n)) => r.1 == SubmitAction::ReadCard(0) && r.0.stage() == SubmitStage::Cards
                    && r.0.contact().email@ == e && opt_view(r.0.contact().name) == n,
            },
    {
        let items = match items {
            Some(v) => v,
            None => Vec::new(),
        };
        let mut flow = SubmitFlow {
            items,
            cards: Vec::new(),
            contact: NewOrderContact { email: String::new(), name: None },
            secure,
            stage: SubmitStage::Over,
            order_id: String::new(),
        };
        if flow.items.len() == 0 {
            return (flow, SubmitAction::RedirectToCart);
        }
        match validate_contact(form) {
            Err(m) => (flow, SubmitAction::ShowContactError(m)),
            Ok(c) => {
                flow.contact = c;
                flow.stage = SubmitStage::Cards;
                (flow, SubmitAction::ReadCard(0))
            },
        }
    }

    /// Whether the flow waits for a card (`card_read` may be called).
    pub fn awaits_card(&self) -> (r: bool)
        ensures
            r == (self.stage() == SubmitStage::Cards && self.cards().len() < self.items().len()),
    {
        self.stage == SubmitStage::Cards && self.cards.len() < self.items.len()
    }

    /// The stage the flow is at.
    pub fn current_stage(&self) -> (r: SubmitStage)
        ensures
            r == self.stage(),
    {
        self.stage
    }

    /// The cart lines being checked out (to show the form again).
    pub fn cart_items(&self) -> (r: &Vec<CartItem>)
        ensures
            r@ == self.items(),
    {
        &self.items
    }

    /// Takes the card read for the next cart line (`None`: the product is no longer
    /// published). A missing product refuses the checkout at once, naming it, and no other
    /// card is read; after the last card the lines are planned (`plan_order_items`) and either
    /// refused or placed as one order of a fresh guest buyer, in the plan's currency, with the
    /// plan's lines and the accepted contact.
    pub fn card_read(&mut self, card: Option<CatalogCard>) -> (a: SubmitAction)
        requires
            old(self).stage() == SubmitStage::Cards,
            old(self).cards().len() < old(self).items().len(),
        ensures
            final(self).items() == old(self).items(),
            final(self).secure() == old(self).secure(),
            final(self).contact() == old(self).contact(),
            final(self).cards() == old(self).cards().push(card),
            card is None ==> final(self).stage() == SubmitStage::Over && (a matches SubmitAction::Fail(e)
                && e.kind_and_message() == (
                "bad_request"@,
                unavailable_message(old(self).items()[old(self).cards().len() as int].title@),
            )),
            card is Some && final(self).cards().len() < final(self).items().len() ==> a
                == SubmitAction::ReadCard(final(self).cards().len() as usize) && final(self).stage()
                == SubmitStage::Cards,
            card is Some && final(self).cards().len() == final(self).items().len() ==> (match a {
                SubmitAction::Fail(e) => e.kind_and_message() == plan_refusal(
                    final(self).items(),
                    final(self).cards(),
                ) && final(self).stage() == SubmitStage::Over,
                SubmitAction::PlaceOrder(call) => {
                    &&& is_plan_of(final(self).items(), final(self).cards(), call.currency@, call.items@)
                    &&& call.buyer_id@.take(6) == "guest:"@
                    &&& is_uuid_v4_text(call.buyer_id@.skip(6))
                    &&& call.contact.email@ == final(self).contact().email@
                    &&& opt_view(call.contact.name) == opt_view(final(self).contact().name)
                    &&& final(self).stage() == SubmitStage::Order
                },
                _ => false,
            }),
    {
        let i = self.cards.len();
        let missing = card.is_none();
        self.cards.push(card);
        if missing {
            self.stage = SubmitStage::Over;
            let mut msg = String::new();
            msg.append("Товар \"");
            msg.append(self.items[i].title.as_str());
            msg.append("\" більше не доступний для замовлення. Будь ласка, поверніться до кошика.");
            return SubmitAction::Fail(WebError::BadRequest(msg));
        }
        if self.cards.len() < self.items.len() {
            return SubmitAction::ReadCard(self.cards.len());
        }
        match plan_order_items(&self.items, &self.cards) {
            Err(e) => {
                self.stage = SubmitStage::Over;
                SubmitAction::Fail(e)
            },
            Ok(plan) => {
                let contact = NewOrderContact {
                    email: self.contact.email.clone(),
                    name: match &self.contact.name {
                        Some(n) => Some(n.clone()),
                        None => None,
                    },
                };
                self.stage = SubmitStage::Order;
                SubmitAction::PlaceOrder(
                    OrderCall {
                        buyer_id: guest_buyer_id(),
                        currency: plan.currency,
                        items: plan.items,
                        contact,
                    },
                )
            },
        }
    }

    /// Takes the id of the stored order; the cart is emptied next.
    pub fn order_placed(&mut self, order_id: String) -> (a: SubmitAction)
        requires
            old(self).stage() == SubmitStage::Order,
        ensures
            a is ClearCart,
            final(self).stage() == SubmitStage::Clear,
            final(self).order_id() == order_id@,
            final(self).secure() == old(self).secure(),
    {
        self.order_id = order_id;
        self.stage = SubmitStage::Clear;
        SubmitAction::ClearCart
    }

    /// The cart is empty: answer with a redirect to the order's confirmation page, expiring
    /// the cart cookie.
    pub fn cart_cleared(&mut self) -> (a: SubmitAction)
        requires
            old(self).stage() == SubmitStage::Clear,
        ensures
            final(self).stage() == SubmitStage::Over,
            a matches SubmitAction::Finish { location, set_cookie } && location@ == "/checkout/done/"@
                + old(self).order_id() && set_cookie@ == expire_cookie_text(old(self).secure()),
    {
        self.stage = SubmitStage::Over;
        let location = checkout_done_location(self.order_id.as_str());
        let set_cookie = expire_cart_cookie(self.secure);
        SubmitAction::Finish { location, set_cookie }
    }
}

} // verus!
