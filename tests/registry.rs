use invoice_registry::errors::Error;
use invoice_registry::registry::{split_settlement, InvoiceRegistry};
use invoice_registry::storage::{invoice_key, lifetime_of, DataKey, CONFIG_LIFETIME, INVOICE_LIFETIME};
use invoice_registry::types::{Address, InvoiceStatus};

fn addr(s: &str) -> Address {
    Address::new(s.to_string())
}

const NOW: u64 = 0;

fn initialized() -> InvoiceRegistry {
    let mut reg = InvoiceRegistry::new();
    reg.initialize(addr("GADMIN"), 20).unwrap();
    reg
}

fn with_invoice() -> (InvoiceRegistry, u64) {
    let mut reg = initialized();
    let id = reg
        .create_invoice(NOW, addr("GISSUER"), 1000, addr("CASSET"), NOW + 2592000, "Test".to_string())
        .unwrap();
    (reg, id)
}

#[test]
fn test_initialize() {
    let mut reg = InvoiceRegistry::new();
    let admin = addr("GADMIN");
    let platform_fee_bps = 20u32;

    reg.initialize(admin.clone(), platform_fee_bps).unwrap();

    let config = reg.get_config().unwrap();
    assert_eq!(config.admin, admin);
    assert_eq!(config.platform_fee_bps, 20);
}

#[test]
fn test_create_invoice() {
    let mut reg = InvoiceRegistry::new();
    let issuer = addr("GISSUER");
    let asset = addr("CASSET");
    reg.initialize(addr("GADMIN"), 20u32).unwrap();

    let invoice_id = reg
        .create_invoice(NOW, issuer, 1000i128, asset, NOW + 2592000, "Test invoice".to_string())
        .unwrap();

    assert_eq!(invoice_id, 1);

    let invoice = reg.get_invoice(invoice_id).unwrap();
    assert_eq!(invoice.face_amount, 1000);
}

#[test]
fn test_full_flow() {
    let mut reg = InvoiceRegistry::new();
    reg.initialize(addr("GADMIN"), 20u32).unwrap();
    let invoice_id = reg
        .create_invoice(NOW, addr("GISSUER"), 1000i128, addr("CASSET"), NOW + 2592000, "Test".to_string())
        .unwrap();

    reg.list_fixed(invoice_id, 975i128).unwrap();

    let invoice = reg.get_invoice(invoice_id).unwrap();
    assert_eq!(invoice.status, InvoiceStatus::ListedFixed);
    assert_eq!(invoice.discount_amount, Some(975));
}

#[test]
fn fee_is_rounded_down() {
    assert_eq!(split_settlement(1000, 20), (2, 998));
    assert_eq!(split_settlement(999, 20), (1, 998));
    assert_eq!(split_settlement(499, 20), (0, 499));
    assert_eq!(split_settlement(1000, 0), (0, 1000));
    assert_eq!(split_settlement(1000, 10000), (1000, 0));
}

#[test]
fn second_initialize_is_refused() {
    let mut reg = initialized();
    assert_eq!(reg.initialize(addr("GOTHER"), 50), Err(Error::AlreadyInitialized));
    let config = reg.get_config().unwrap();
    assert_eq!(config.admin, addr("GADMIN"));
    assert_eq!(config.platform_fee_bps, 20);
    assert_eq!(reg.next_invoice_id, Some(1));
}

#[test]
fn initialize_accepts_fee_above_full() {
    let mut reg = InvoiceRegistry::new();
    assert_eq!(reg.initialize(addr("GADMIN"), 20000), Ok(()));
    assert_eq!(reg.get_config().unwrap().platform_fee_bps, 20000);
}

#[test]
fn due_date_must_be_after_now() {
    let mut reg = initialized();
    let r = reg.create_invoice(500, addr("GISSUER"), 1000, addr("CASSET"), 500, "m".to_string());
    assert_eq!(r, Err(Error::InvalidDueDate));
    let r = reg.create_invoice(500, addr("GISSUER"), 1000, addr("CASSET"), 499, "m".to_string());
    assert_eq!(r, Err(Error::InvalidDueDate));
    assert_eq!(reg.next_invoice_id, Some(1));
    assert!(reg.invoices.is_empty());
    let r = reg.create_invoice(500, addr("GISSUER"), 1000, addr("CASSET"), 501, "m".to_string());
    assert_eq!(r, Ok(1));
}

#[test]
fn face_amount_must_be_positive() {
    let mut reg = initialized();
    let r = reg.create_invoice(NOW, addr("GISSUER"), 0, addr("CASSET"), 10, "m".to_string());
    assert_eq!(r, Err(Error::InvalidAmount));
    let r = reg.create_invoice(NOW, addr("GISSUER"), -5, addr("CASSET"), 10, "m".to_string());
    assert_eq!(r, Err(Error::InvalidAmount));
    assert!(reg.invoices.is_empty());
}

#[test]
fn new_invoice_is_draft_owned_by_issuer() {
    let mut reg = initialized();
    let id = reg
        .create_invoice(7, addr("GISSUER"), 1000, addr("CASSET"), 100, "memo".to_string())
        .unwrap();
    let inv = reg.get_invoice(id).unwrap();
    assert_eq!(inv.id, id);
    assert_eq!(inv.issuer, addr("GISSUER"));
    assert_eq!(inv.owner, addr("GISSUER"));
    assert_eq!(inv.asset, addr("CASSET"));
    assert_eq!(inv.status, InvoiceStatus::Draft);
    assert_eq!(inv.discount_amount, None);
    assert_eq!(inv.buyer, None);
    assert_eq!(inv.created_at, 7);
    assert_eq!(inv.due_timestamp, 100);
    assert_eq!(inv.memo, "memo".to_string());
}

#[test]
fn end_to_end_settlement() {
    let mut reg = InvoiceRegistry::new();
    reg.initialize(addr("GADMIN"), 20).unwrap();
    let id = reg
        .create_invoice(NOW, addr("GISSUER"), 1000, addr("CASSET"), NOW + 2592000, "memo".to_string())
        .unwrap();
    assert_eq!(id, 1);
    assert_eq!(reg.get_invoice(1).unwrap().status, InvoiceStatus::Draft);

    reg.list_fixed(1, 975).unwrap();
    let inv = reg.get_invoice(1).unwrap();
    assert_eq!(inv.status, InvoiceStatus::ListedFixed);
    assert_eq!(inv.discount_amount, Some(975));

    let t = reg.buy_now(addr("GINVESTOR"), 1).unwrap();
    assert_eq!(t.asset, addr("CASSET"));
    assert_eq!(t.from, addr("GINVESTOR"));
    assert_eq!(t.to, addr("GISSUER"));
    assert_eq!(t.amount, 975);
    let inv = reg.get_invoice(1).unwrap();
    assert_eq!(inv.status, InvoiceStatus::Sold);
    assert_eq!(inv.owner, addr("GINVESTOR"));
    assert_eq!(inv.buyer, Some(addr("GINVESTOR")));
    assert_eq!(inv.issuer, addr("GISSUER"));

    let s = reg.repay(addr("GPAYER"), 1).unwrap();
    assert_eq!(s.payout.from, addr("GPAYER"));
    assert_eq!(s.payout.to, addr("GINVESTOR"));
    assert_eq!(s.payout.asset, addr("CASSET"));
    assert_eq!(s.payout.amount, 998);
    let fee = s.fee.unwrap();
    assert_eq!(fee.from, addr("GPAYER"));
    assert_eq!(fee.to, addr("GADMIN"));
    assert_eq!(fee.amount, 2);
    let inv = reg.get_invoice(1).unwrap();
    assert_eq!(inv.status, InvoiceStatus::Settled);
    assert_eq!(inv.discount_amount, Some(975));
}

#[test]
fn repay_without_fee_makes_one_transfer() {
    let mut reg = InvoiceRegistry::new();
    reg.initialize(addr("GADMIN"), 0).unwrap();
    let id = reg.create_invoice(NOW, addr("GISSUER"), 1000, addr("CASSET"), 10, "m".to_string()).unwrap();
    reg.list_fixed(id, 900).unwrap();
    reg.buy_now(addr("GINVESTOR"), id).unwrap();
    let s = reg.repay(addr("GPAYER"), id).unwrap();
    assert_eq!(s.payout.amount, 1000);
    assert!(s.fee.is_none());
}

#[test]
fn repay_with_odd_face_amount() {
    let mut reg = initialized();
    let id = reg.create_invoice(NOW, addr("GISSUER"), 999, addr("CASSET"), 10, "m".to_string()).unwrap();
    reg.list_fixed(id, 950).unwrap();
    reg.buy_now(addr("GINVESTOR"), id).unwrap();
    let s = reg.repay(addr("GPAYER"), id).unwrap();
    assert_eq!(s.payout.amount, 998);
    assert_eq!(s.fee.unwrap().amount, 1);
}

#[test]
fn cancel_from_draft_and_listed() {
    let (mut reg, id) = with_invoice();
    assert_eq!(reg.cancel(id), Ok(()));
    assert_eq!(reg.get_invoice(id).unwrap().status, InvoiceStatus::Canceled);

    let id2 = reg.create_invoice(NOW, addr("GISSUER"), 1000, addr("CASSET"), 10, "m".to_string()).unwrap();
    reg.list_fixed(id2, 500).unwrap();
    assert_eq!(reg.cancel(id2), Ok(()));
    let inv = reg.get_invoice(id2).unwrap();
    assert_eq!(inv.status, InvoiceStatus::Canceled);
    assert_eq!(inv.discount_amount, Some(500));
}

#[test]
fn canceled_is_final() {
    let (mut reg, id) = with_invoice();
    reg.cancel(id).unwrap();
    assert_eq!(reg.cancel(id), Err(Error::CannotCancel));
    assert_eq!(reg.list_fixed(id, 500), Err(Error::InvalidStatus));
    assert_eq!(reg.buy_now(addr("GINVESTOR"), id).unwrap_err(), Error::NotListed);
    assert_eq!(reg.repay(addr("GPAYER"), id).unwrap_err(), Error::CannotRepay);
    assert_eq!(reg.get_invoice(id).unwrap().status, InvoiceStatus::Canceled);
}

#[test]
fn cancel_refused_once_sold_or_settled() {
    let (mut reg, id) = with_invoice();
    reg.list_fixed(id, 975).unwrap();
    reg.buy_now(addr("GINVESTOR"), id).unwrap();
    assert_eq!(reg.cancel(id), Err(Error::CannotCancel));
    assert_eq!(reg.get_invoice(id).unwrap().status, InvoiceStatus::Sold);
    reg.repay(addr("GPAYER"), id).unwrap();
    assert_eq!(reg.cancel(id), Err(Error::CannotCancel));
    assert_eq!(reg.get_invoice(id).unwrap().status, InvoiceStatus::Settled);
}

#[test]
fn buy_now_needs_a_listing() {
    let (mut reg, id) = with_invoice();
    assert_eq!(reg.buy_now(addr("GINVESTOR"), id).unwrap_err(), Error::NotListed);
    reg.list_fixed(id, 975).unwrap();
    reg.buy_now(addr("GINVESTOR"), id).unwrap();
    assert_eq!(reg.buy_now(addr("GOTHER"), id).unwrap_err(), Error::NotListed);
    assert_eq!(reg.get_invoice(id).unwrap().owner, addr("GINVESTOR"));
    reg.repay(addr("GPAYER"), id).unwrap();
    assert_eq!(reg.buy_now(addr("GOTHER"), id).unwrap_err(), Error::NotListed);
}

#[test]
fn discount_must_lie_inside_face_amount() {
    let (mut reg, id) = with_invoice();
    assert_eq!(reg.list_fixed(id, 0), Err(Error::InvalidDiscount));
    assert_eq!(reg.list_fixed(id, -1), Err(Error::InvalidDiscount));
    assert_eq!(reg.list_fixed(id, 1000), Err(Error::InvalidDiscount));
    assert_eq!(reg.list_fixed(id, 1001), Err(Error::InvalidDiscount));
    assert_eq!(reg.get_invoice(id).unwrap().discount_amount, None);
    assert_eq!(reg.list_fixed(id, 999), Ok(()));
    assert_eq!(reg.list_fixed(id, 1), Err(Error::InvalidStatus));
    assert_eq!(reg.get_invoice(id).unwrap().discount_amount, Some(999));
}

#[test]
fn missing_invoice_is_reported() {
    let mut reg = initialized();
    assert_eq!(reg.list_fixed(9, 10), Err(Error::InvoiceNotFound));
    assert_eq!(reg.buy_now(addr("GINVESTOR"), 9).unwrap_err(), Error::InvoiceNotFound);
    assert_eq!(reg.repay(addr("GPAYER"), 9).unwrap_err(), Error::InvoiceNotFound);
    assert_eq!(reg.cancel(9), Err(Error::InvoiceNotFound));
    assert_eq!(reg.get_invoice(9).unwrap_err(), Error::InvoiceNotFound);
}

#[test]
fn repay_needs_a_configuration() {
    let mut reg = InvoiceRegistry::new();
    assert_eq!(reg.get_config().unwrap_err(), Error::NotInitialized);
    let id = reg.create_invoice(NOW, addr("GISSUER"), 1000, addr("CASSET"), 10, "m".to_string()).unwrap();
    assert_eq!(id, 1);
    reg.list_fixed(id, 975).unwrap();
    reg.buy_now(addr("GINVESTOR"), id).unwrap();
    assert_eq!(reg.repay(addr("GPAYER"), id).unwrap_err(), Error::NotInitialized);
    assert_eq!(reg.get_invoice(id).unwrap().status, InvoiceStatus::Sold);
}

#[test]
fn ids_count_up_and_are_not_reused() {
    let mut reg = initialized();
    let a = reg.create_invoice(NOW, addr("GISSUER"), 1000, addr("CASSET"), 10, "a".to_string()).unwrap();
    let b = reg.create_invoice(NOW, addr("GISSUER"), 1000, addr("CASSET"), 10, "b".to_string()).unwrap();
    assert_eq!((a, b), (1, 2));
    reg.cancel(b).unwrap();
    let c = reg.create_invoice(NOW, addr("GISSUER"), 1000, addr("CASSET"), 10, "c".to_string()).unwrap();
    assert_eq!(c, 3);
    assert_eq!(reg.next_invoice_id, Some(4));
    assert_eq!(reg.get_invoice(b).unwrap().status, InvoiceStatus::Canceled);
    assert_eq!(reg.get_invoice(b).unwrap().memo, "b".to_string());
}

#[test]
fn error_and_status_codes() {
    assert_eq!(Error::NotInitialized.code(), 1);
    assert_eq!(Error::Unauthorized.code(), 3);
    assert_eq!(Error::NotListed.code(), 11);
    assert_eq!(InvoiceStatus::Draft.code(), 0);
    assert_eq!(InvoiceStatus::Canceled.code(), 5);
}

#[test]
fn storage_slots_and_lifetimes() {
    assert_eq!(invoice_key(4), DataKey::Invoice(4));
    assert_eq!(lifetime_of(&DataKey::Invoice(4)), INVOICE_LIFETIME);
    assert_eq!(lifetime_of(&DataKey::Config), CONFIG_LIFETIME);
    assert_eq!(lifetime_of(&DataKey::NextInvoiceId), 5184000);
}
