use vstd::prelude::*;
use std::collections::HashMap;
use crate::errors::Error;
use crate::types::{opt_address_view, Address, Invoice, InvoiceStatus, PlatformConfig};

verus! {

broadcast use vstd::std_specs::hash::group_hash_axioms;

/// A movement of `amount` units of `asset` from `from` to `to`, to be carried
/// out by the ledger's asset contract.
#[derive(Clone, Debug)]
pub struct Transfer {
    pub asset: Address,
    pub from: Address,
    pub to: Address,
    pub amount: i128,
}

impl Transfer {
    pub open spec fn moves(self, asset: Seq<char>, from: Seq<char>, to: Seq<char>, amount: int) -> bool {
        &&& self.asset@ == asset
        &&& self.from@ == from
        &&& self.to@ == to
        &&& self.amount == amount
    }
}

/// The payments that settle an invoice: the payout to its owner, and the
/// platform's fee to the administrator when that fee is not zero.
#[derive(Clone, Debug)]
pub struct Settlement {
    pub payout: Transfer,
    pub fee: Option<Transfer>,
}

/// The platform's share of a face value, in basis points, rounded down.
pub open spec fn spec_platform_fee(face_amount: int, platform_fee_bps: int) -> int {
    face_amount * platform_fee_bps / 10000
}

/// The fee arithmetic stays within `i128`.
pub open spec fn settlement_fits(face_amount: int, platform_fee_bps: int) -> bool {
    &&& 0 <= face_amount
    &&& face_amount * platform_fee_bps <= i128::MAX
}

/// Splits a face value into the platform's fee and the investor's payout.
pub fn split_settlement(face_amount: i128, platform_fee_bps: u32) -> (r: (i128, i128))
    requires
        settlement_fits(face_amount as int, platform_fee_bps as int),
    ensures
        r.0 == spec_platform_fee(face_amount as int, platform_fee_bps as int),
        r.1 == face_amount - r.0,
        0 <= r.0,
{
    proof {
        assert(0 <= face_amount * platform_fee_bps) by (nonlinear_arith)
            requires
                0 <= face_amount,
                0 <= platform_fee_bps,
        ;
    }
    let gross: i128 = face_amount * (platform_fee_bps as i128);
    let fee: i128 = gross / 10000;
    (fee, face_amount - fee)
}

/// The ledger state of one deployment: its configuration, the id counter and
/// the invoices keyed by id.
pub struct InvoiceRegistry {
    pub config: Option<PlatformConfig>,
    pub next_invoice_id: Option<u64>,
    pub invoices: HashMap<u64, Invoice>,
}

impl InvoiceRegistry {
    /// The id that the next creation hands out.
    pub open spec fn next_id(self) -> u64 {
        match self.next_invoice_id {
            Some(n) => n,
            None => 1,
        }
    }

    /// Every stored invoice is consistent with its lifecycle.
    pub open spec fn wf(self) -> bool {
        forall|id: u64| #[trigger] self.invoices@.contains_key(id) ==> self.invoices@[id].wf(id)
    }

    /// Every stored id lies below the counter, so the counter never hands one out again.
    pub open spec fn ids_fresh(self) -> bool {
        forall|id: u64| #[trigger] self.invoices@.contains_key(id) ==> id < self.next_id()
    }

    /// Settling the invoice under `id` stays within `i128`.
    pub open spec fn settlement_fits(self, id: u64) -> bool {
        self.invoices@.contains_key(id) ==> match self.config {
            Some(c) => settlement_fits(
                self.invoices@[id].face_amount as int,
                c.platform_fee_bps as int,
            ),
            None => true,
        }
    }
}

/// Across a step, records are kept, a discount once set keeps its value, and a
/// record in a final status stays as it is.
pub open spec fn history_kept(before: InvoiceRegistry, after: InvoiceRegistry) -> bool {
    forall|id: u64| #[trigger] before.invoices@.contains_key(id) ==> {
        &&& after.invoices@.contains_key(id)
        &&& (before.invoices@[id].discount_amount is Some ==> after.invoices@[id].discount_amount
            == before.invoices@[id].discount_amount)
        &&& (before.invoices@[id].status.is_terminal() ==> after.invoices@[id]
            == before.invoices@[id])
    }
}

/// `after` is `before` with the invoice under `id` replaced by `inv`, and the
/// configuration and counter untouched.
pub open spec fn replaces(before: InvoiceRegistry, id: u64, inv: Invoice, after: InvoiceRegistry) -> bool {
    &&& after.config == before.config
    &&& after.next_invoice_id == before.next_invoice_id
    &&& after.invoices@ == before.invoices@.insert(id, inv)
}

/// What `initialize` does.
pub open spec fn initialize_post(
    before: InvoiceRegistry,
    admin: Seq<char>,
    platform_fee_bps: u32,
    r: Result<(), Error>,
    after: InvoiceRegistry,
) -> bool {
    if before.config is Some {
        r == Err::<(), Error>(Error::AlreadyInitialized) && after == before
    } else {
        &&& r is Ok
        &&& after.invoices == before.invoices
        &&& after.next_invoice_id == Some(1u64)
        &&& match after.config {
            Some(c) => c.admin@ == admin && c.platform_fee_bps == platform_fee_bps,
            None => false,
        }
    }
}

/// A freshly created invoice.
pub open spec fn new_draft(
    inv: Invoice,
    id: u64,
    now: u64,
    issuer: Seq<char>,
    face_amount: i128,
    asset: Seq<char>,
    due_timestamp: u64,
    memo: Seq<char>,
) -> bool {
    &&& inv.id == id
    &&& inv.issuer@ == issuer
    &&& inv.asset@ == asset
    &&& inv.face_amount == face_amount
    &&& inv.discount_amount is None
    &&& inv.due_timestamp == due_timestamp
    &&& inv.status is Draft
    &&& inv.owner@ == issuer
    &&& inv.buyer is None
    &&& inv.created_at == now
    &&& inv.memo@ == memo
}

/// What `create_invoice` does.
pub open spec fn create_post(
    before: InvoiceRegistry,
    now: u64,
    issuer: Seq<char>,
    face_amount: i128,
    asset: Seq<char>,
    due_timestamp: u64,
    memo: Seq<char>,
    r: Result<u64, Error>,
    after: InvoiceRegistry,
) -> bool {
    if face_amount <= 0 {
        r == Err::<u64, Error>(Error::InvalidAmount) && after == before
    } else if due_timestamp <= now {
        r == Err::<u64, Error>(Error::InvalidDueDate) && after == before
    } else {
        let id = before.next_id();
        &&& r == Ok::<u64, Error>(id)
        &&& after.config == before.config
        &&& after.next_invoice_id == Some((id + 1) as u64)
        &&& after.invoices@ == before.invoices@.insert(id, after.invoices@[id])
        &&& new_draft(after.invoices@[id], id, now, issuer, face_amount, asset, due_timestamp, memo)
    }
}

/// What `list_fixed` does.
pub open spec fn list_post(
    before: InvoiceRegistry,
    id: u64,
    discount_amount: i128,
    r: Result<(), Error>,
    after: InvoiceRegistry,
) -> bool {
    if !before.invoices@.contains_key(id) {
        r == Err::<(), Error>(Error::InvoiceNotFound) && after == before
    } else if !(before.invoices@[id].status is Draft) {
        r == Err::<(), Error>(Error::InvalidStatus) && after == before
    } else if discount_amount <= 0 || discount_amount >= before.invoices@[id].face_amount {
        r == Err::<(), Error>(Error::InvalidDiscount) && after == before
    } else {
        &&& r is Ok
        &&& replaces(
            before,
            id,
            Invoice {
                discount_amount: Some(discount_amount),
                status: InvoiceStatus::ListedFixed,
                ..before.invoices@[id]
            },
            after,
        )
    }
}

/// What `buy_now` does.
pub open spec fn buy_post(
    before: InvoiceRegistry,
    buyer: Seq<char>,
    id: u64,
    r: Result<Transfer, Error>,
    after: InvoiceRegistry,
) -> bool {
    if !before.invoices@.contains_key(id) {
        r == Err::<Transfer, Error>(Error::InvoiceNotFound) && after == before
    } else if !(before.invoices@[id].status is ListedFixed) {
        r == Err::<Transfer, Error>(Error::NotListed) && after == before
    } else {
        let inv = before.invoices@[id];
        match inv.discount_amount {
            None => r == Err::<Transfer, Error>(Error::InvalidDiscount) && after == before,
            Some(d) => {
                let sold = after.invoices@[id];
                &&& match r {
                    Ok(t) => t.moves(inv.asset@, buyer, inv.issuer@, d as int),
                    Err(_) => false,
                }
                &&& replaces(before, id, sold, after)
                &&& sold == Invoice {
                    owner: sold.owner,
                    buyer: sold.buyer,
                    status: InvoiceStatus::Sold,
                    ..inv
                }
                &&& sold.owner@ == buyer
                &&& opt_address_view(sold.buyer) == Some(buyer)
            },
        }
    }
}

/// What `repay` does.
pub open spec fn repay_post(
    before: InvoiceRegistry,
    payer: Seq<char>,
    id: u64,
    r: Result<Settlement, Error>,
    after: InvoiceRegistry,
) -> bool {
    if !before.invoices@.contains_key(id) {
        r == Err::<Settlement, Error>(Error::InvoiceNotFound) && after == before
    } else if !(before.invoices@[id].status is Sold) {
        r == Err::<Settlement, Error>(Error::CannotRepay) && after == before
    } else {
        let inv = before.invoices@[id];
        match before.config {
            None => r == Err::<Settlement, Error>(Error::NotInitialized) && after == before,
            Some(c) => {
                let fee = spec_platform_fee(inv.face_amount as int, c.platform_fee_bps as int);
                &&& match r {
                    Ok(s) => {
                        &&& s.payout.moves(inv.asset@, payer, inv.owner@, inv.face_amount - fee)
                        &&& if fee > 0 {
                            match s.fee {
                                Some(f) => f.moves(inv.asset@, payer, c.admin@, fee),
                                None => false,
                            }
                        } else {
                            s.fee is None
                        }
                    },
                    Err(_) => false,
                }
                &&& replaces(before, id, Invoice { status: InvoiceStatus::Settled, ..inv }, after)
            },
        }
    }
}

/// What `cancel` does.
pub open spec fn cancel_post(
    before: InvoiceRegistry,
    id: u64,
    r: Result<(), Error>,
    after: InvoiceRegistry,
) -> bool {
    if !before.invoices@.contains_key(id) {
        r == Err::<(), Error>(Error::InvoiceNotFound) && after == before
    } else if !(before.invoices@[id].status is Draft || before.invoices@[id].status is ListedFixed) {
        r == Err::<(), Error>(Error::CannotCancel) && after == before
    } else {
        &&& r is Ok
        &&& replaces(before, id, Invoice { status: InvoiceStatus::Canceled, ..before.invoices@[id] }, after)
    }
}

impl InvoiceRegistry {
    /// A deployment with nothing stored yet.
    pub fn new() -> (r: InvoiceRegistry)
        ensures
            r.config is None,
            r.next_invoice_id is None,
            r.invoices@ == Map::<u64, Invoice>::empty(),
            r.wf(),
            r.ids_fresh(),
    {
        InvoiceRegistry { config: None, next_invoice_id: None, invoices: HashMap::new() }
    }

    /// Writes the configuration and starts the id counter at 1; refused once a
    /// configuration exists.
    pub fn initialize(&mut self, admin: Address, platform_fee_bps: u32) -> (r: Result<(), Error>)
        ensures
            initialize_post(*old(self), admin@, platform_fee_bps, r, *final(self)),
            old(self).wf() ==> final(self).wf(),
            old(self).ids_fresh() && (old(self).config is Some || old(self).invoices@.dom().is_empty())
                ==> final(self).ids_fresh(),
            history_kept(*old(self), *final(self)),
    {
        if self.config.is_some() {
            return Err(Error::AlreadyInitialized);
        }
        self.config = Some(PlatformConfig { admin, platform_fee_bps });
        self.next_invoice_id = Some(1);
        Ok(())
    }

    /// Records a new invoice in Draft, owned by its issuer, under the next id.
    pub fn create_invoice(
        &mut self,
        now: u64,
        issuer: Address,
        face_amount: i128,
        asset: Address,
        due_timestamp: u64,
        memo: String,
    ) -> (r: Result<u64, Error>)
        requires
            old(self).next_id() < u64::MAX,
        ensures
            create_post(
                *old(self),
                now,
                issuer@,
                face_amount,
                asset@,
                due_timestamp,
                memo@,
                r,
                *final(self),
            ),
            old(self).wf() ==> final(self).wf(),
            old(self).ids_fresh() ==> final(self).ids_fresh(),
            old(self).ids_fresh() ==> history_kept(*old(self), *final(self)),
    {
        if face_amount <= 0 {
            return Err(Error::InvalidAmount);
        }
        if due_timestamp <= now {
            return Err(Error::InvalidDueDate);
        }
        let id: u64 = match self.next_invoice_id {
            Some(n) => n,
            None => 1,
        };
        let owner = issuer.duplicate();
        let invoice = Invoice {
            id,
            issuer,
            asset,
            face_amount,
            discount_amount: None,
            due_timestamp,
            status: InvoiceStatus::Draft,
            owner,
            buyer: None,
            created_at: now,
            memo,
        };
        self.invoices.insert(id, invoice);
        self.next_invoice_id = Some(id + 1);
        proof {
            assert(self.invoices@ == old(self).invoices@.insert(id, self.invoices@[id]));
        }
        Ok(id)
    }

    /// Puts `inv` back under `id` in place of the record taken out.
    fn put_back(&mut self, id: u64, inv: Invoice)
        ensures
            final(self).config == old(self).config,
            final(self).next_invoice_id == old(self).next_invoice_id,
            final(self).invoices@ == old(self).invoices@.insert(id, inv),
    {
        self.invoices.insert(id, inv);
    }

    /// Lists a Draft invoice for sale at `discount_amount`, which must lie
    /// strictly between zero and the face value.
    pub fn list_fixed(&mut self, invoice_id: u64, discount_amount: i128) -> (r: Result<(), Error>)
        ensures
            list_post(*old(self), invoice_id, discount_amount, r, *final(self)),
            old(self).wf() ==> final(self).wf(),
            old(self).ids_fresh() ==> final(self).ids_fresh(),
            old(self).wf() ==> history_kept(*old(self), *final(self)),
    {
        match self.invoices.get(&invoice_id) {
            None => {
                return Err(Error::InvoiceNotFound);
            },
            Some(inv) => {
                if inv.status != InvoiceStatus::Draft {
                    return Err(Error::InvalidStatus);
                }
                if discount_amount <= 0 || discount_amount >= inv.face_amount {
                    return Err(Error::InvalidDiscount);
                }
            },
        }
        let ghost before = *self;
        if let Some(mut inv) = self.invoices.remove(&invoice_id) {
            inv.discount_amount = Some(discount_amount);
            inv.status = InvoiceStatus::ListedFixed;
            self.put_back(invoice_id, inv);
            proof {
                assert(self.invoices@ =~= before.invoices@.insert(invoice_id, inv));
            }
        }
        Ok(())
    }

    /// Sells a listed invoice to `buyer` at its discount; the returned
    /// transfer pays the issuer.
    pub fn buy_now(&mut self, buyer: Address, invoice_id: u64) -> (r: Result<Transfer, Error>)
        ensures
            buy_post(*old(self), buyer@, invoice_id, r, *final(self)),
            old(self).wf() ==> final(self).wf(),
            old(self).ids_fresh() ==> final(self).ids_fresh(),
            history_kept(*old(self), *final(self)),
    {
        let proceeds: i128;
        match self.invoices.get(&invoice_id) {
            None => {
                return Err(Error::InvoiceNotFound);
            },
            Some(inv) => {
                if inv.status != InvoiceStatus::ListedFixed {
                    return Err(Error::NotListed);
                }
                match inv.discount_amount {
                    None => {
                        return Err(Error::InvalidDiscount);
                    },
                    Some(d) => {
                        proceeds = d;
                    },
                }
            },
        }
        let ghost before = *self;
        let ghost orig = before.invoices@[invoice_id];
        match self.invoices.remove(&invoice_id) {
            Some(mut inv) => {
                let transfer = Transfer {
                    asset: inv.asset.duplicate(),
                    from: buyer.duplicate(),
                    to: inv.issuer.duplicate(),
                    amount: proceeds,
                };
                inv.owner = buyer.duplicate();
                inv.buyer = Some(buyer);
                inv.status = InvoiceStatus::Sold;
                self.put_back(invoice_id, inv);
                proof {
                    assert(self.invoices@ =~= before.invoices@.insert(invoice_id, inv));
                    assert(inv == Invoice {
                        owner: inv.owner,
                        buyer: inv.buyer,
                        status: InvoiceStatus::Sold,
                        ..orig
                    });
                }
                Ok(transfer)
            },
            None => Err(Error::InvoiceNotFound),
        }
    }

    /// Settles a sold invoice paid by `payer`: the face value less the
    /// platform's fee goes to the owner, the fee to the administrator.
    pub fn repay(&mut self, payer: Address, invoice_id: u64) -> (r: Result<Settlement, Error>)
        requires
            old(self).wf(),
            old(self).settlement_fits(invoice_id),
        ensures
            repay_post(*old(self), payer@, invoice_id, r, *final(self)),
            final(self).wf(),
            old(self).ids_fresh() ==> final(self).ids_fresh(),
            history_kept(*old(self), *final(self)),
    {
        let face_amount: i128;
        match self.invoices.get(&invoice_id) {
            None => {
                return Err(Error::InvoiceNotFound);
            },
            Some(inv) => {
                if inv.status != InvoiceStatus::Sold {
                    return Err(Error::CannotRepay);
                }
                face_amount = inv.face_amount;
            },
        }
        let (admin, platform_fee_bps) = match &self.config {
            None => {
                return Err(Error::NotInitialized);
            },
            Some(c) => (c.admin.duplicate(), c.platform_fee_bps),
        };
        let (platform_fee, investor_payout) = split_settlement(face_amount, platform_fee_bps);
        let ghost before = *self;
        match self.invoices.remove(&invoice_id) {
            Some(mut inv) => {
                let payout = Transfer {
                    asset: inv.asset.duplicate(),
                    from: payer.duplicate(),
                    to: inv.owner.duplicate(),
                    amount: investor_payout,
                };
                let fee = if platform_fee > 0 {
                    Some(Transfer {
                        asset: inv.asset.duplicate(),
                        from: payer,
                        to: admin,
                        amount: platform_fee,
                    })
                } else {
                    None
                };
                inv.status = InvoiceStatus::Settled;
                self.put_back(invoice_id, inv);
                proof {
                    assert(self.invoices@ =~= before.invoices@.insert(invoice_id, inv));
                }
                Ok(Settlement { payout, fee })
            },
            None => Err(Error::InvoiceNotFound),
        }
    }

    /// Cancels a Draft or listed invoice for good.
    pub fn cancel(&mut self, invoice_id: u64) -> (r: Result<(), Error>)
        ensures
            cancel_post(*old(self), invoice_id, r, *final(self)),
            old(self).wf() ==> final(self).wf(),
            old(self).ids_fresh() ==> final(self).ids_fresh(),
            history_kept(*old(self), *final(self)),
    {
        match self.invoices.get(&invoice_id) {
            None => {
                return Err(Error::InvoiceNotFound);
            },
            Some(inv) => {
                if inv.status != InvoiceStatus::Draft && inv.status != InvoiceStatus::ListedFixed {
                    return Err(Error::CannotCancel);
                }
            },
        }
        let ghost before = *self;
        if let Some(mut inv) = self.invoices.remove(&invoice_id) {
            inv.status = InvoiceStatus::Canceled;
            self.put_back(invoice_id, inv);
            proof {
                assert(self.invoices@ =~= before.invoices@.insert(invoice_id, inv));
            }
        }
        Ok(())
    }

    /// The invoice stored under `invoice_id`.
    pub fn get_invoice(&self, invoice_id: u64) -> (r: Result<Invoice, Error>)
        ensures
            match r {
                Ok(inv) => self.invoices@.contains_key(invoice_id) && inv.same_as(
                    self.invoices@[invoice_id],
                ),
                Err(e) => !self.invoices@.contains_key(invoice_id) && e == Error::InvoiceNotFound,
            },
    {
        match self.invoices.get(&invoice_id) {
            Some(inv) => Ok(inv.duplicate()),
            None => Err(Error::InvoiceNotFound),
        }
    }

    /// The deployment's configuration.
    pub fn get_config(&self) -> (r: Result<PlatformConfig, Error>)
        ensures
            match r {
                Ok(c) => match self.config {
                    Some(stored) => c.same_as(stored),
                    None => false,
                },
                Err(e) => self.config is None && e == Error::NotInitialized,
            },
    {
        match &self.config {
            Some(c) => Ok(c.duplicate()),
            None => Err(Error::NotInitialized),
        }
    }
}

} // verus!
