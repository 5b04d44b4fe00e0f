use vstd::prelude::*;

verus! {

/// An identity on the ledger (an account or a contract), held by its strkey text.
#[derive(Clone, Debug, PartialEq, Eq)]
pub struct Address {
    pub strkey: String,
}

impl View for Address {
    type V = Seq<char>;

    open spec fn view(&self) -> Seq<char> {
        self.strkey@
    }
}

impl Address {
    pub fn new(strkey: String) -> (r: Address)
        ensures
            r@ == strkey@,
    {
        Address { strkey }
    }

    /// A second handle on the same identity.
    pub fn duplicate(&self) -> (r: Address)
        ensures
            r@ == self@,
    {
        Address { strkey: self.strkey.clone() }
    }
}

/// Where an invoice stands in its lifecycle.
#[derive(Clone, Copy, Debug, PartialEq, Eq, Structural)]
pub enum InvoiceStatus {
    Draft,
    ListedFixed,
    Sold,
    Settled,
    Defaulted,
    Canceled,
}

impl InvoiceStatus {
    /// Settled and Canceled are final: no operation moves an invoice out of them.
    pub open spec fn is_terminal(self) -> bool {
        self is Settled || self is Canceled
    }

    /// The stable numeric code of the status, as stored on the ledger.
    pub open spec fn spec_code(self) -> u32 {
        match self {
            InvoiceStatus::Draft => 0,
            InvoiceStatus::ListedFixed => 1,
            InvoiceStatus::Sold => 2,
            InvoiceStatus::Settled => 3,
            InvoiceStatus::Defaulted => 4,
            InvoiceStatus::Canceled => 5,
        }
    }

    pub fn code(&self) -> (r: u32)
        ensures
            r == self.spec_code(),
    {
        match self {
            InvoiceStatus::Draft => 0,
            InvoiceStatus::ListedFixed => 1,
            InvoiceStatus::Sold => 2,
            InvoiceStatus::Settled => 3,
            InvoiceStatus::Defaulted => 4,
            InvoiceStatus::Canceled => 5,
        }
    }
}

/// A tokenized receivable.
#[derive(Clone, Debug)]
pub struct Invoice {
    pub id: u64,
    pub issuer: Address,
    pub asset: Address,
    pub face_amount: i128,
    pub discount_amount: Option<i128>,
    pub due_timestamp: u64,
    pub status: InvoiceStatus,
    pub owner: Address,
    pub buyer: Option<Address>,
    pub created_at: u64,
    pub memo: String,
}

pub open spec fn opt_address_view(a: Option<Address>) -> Option<Seq<char>> {
    match a {
        Some(x) => Some(x@),
        None => None,
    }
}

impl Invoice {
    /// The record stored under `key` is consistent with the lifecycle.
    pub open spec fn wf(self, key: u64) -> bool {
        &&& self.id == key
        &&& self.face_amount > 0
        &&& self.created_at < self.due_timestamp
        &&& match self.discount_amount {
            Some(d) => 0 < d < self.face_amount,
            None => true,
        }
        &&& (self.status is Draft ==> self.discount_amount is None)
        &&& (self.status is ListedFixed || self.status is Sold || self.status is Settled)
            ==> self.discount_amount is Some
        &&& (self.status is Draft || self.status is ListedFixed || self.status is Canceled) ==> {
            &&& self.owner@ == self.issuer@
            &&& self.buyer is None
        }
        &&& (self.status is Sold || self.status is Settled) ==> opt_address_view(self.buyer)
            == Some(self.owner@)
    }

    /// Two records that hold the same values.
    pub open spec fn same_as(self, other: Invoice) -> bool {
        &&& self.id == other.id
        &&& self.issuer@ == other.issuer@
        &&& self.asset@ == other.asset@
        &&& self.face_amount == other.face_amount
        &&& self.discount_amount == other.discount_amount
        &&& self.due_timestamp == other.due_timestamp
        &&& self.status == other.status
        &&& self.owner@ == other.owner@
        &&& opt_address_view(self.buyer) == opt_address_view(other.buyer)
        &&& self.created_at == other.created_at
        &&& self.memo@ == other.memo@
    }

    pub fn duplicate(&self) -> (r: Invoice)
        ensures
            r.same_as(*self),
    {
        let buyer = match &self.buyer {
            Some(b) => Some(b.duplicate()),
            None => None,
        };
        Invoice {
            id: self.id,
            issuer: self.issuer.duplicate(),
            asset: self.asset.duplicate(),
            face_amount: self.face_amount,
            discount_amount: self.discount_amount,
            due_timestamp: self.due_timestamp,
            status: self.status,
            owner: self.owner.duplicate(),
            buyer,
            created_at: self.created_at,
            memo: self.memo.clone(),
        }
    }
}

/// The deployment-wide settings, written once.
#[derive(Clone, Debug)]
pub struct PlatformConfig {
    pub admin: Address,
    pub platform_fee_bps: u32,
}

impl PlatformConfig {
    pub open spec fn same_as(self, other: PlatformConfig) -> bool {
        &&& self.admin@ == other.admin@
        &&& self.platform_fee_bps == other.platform_fee_bps
    }

    pub fn duplicate(&self) -> (r: PlatformConfig)
        ensures
            r.same_as(*self),
    {
        PlatformConfig { admin: self.admin.duplicate(), platform_fee_bps: self.platform_fee_bps }
    }
}

} // verus!
