use vstd::prelude::*;

verus! {

/// Where each logical record lives in the ledger's key-value storage.
#[derive(Clone, Copy, Debug, PartialEq, Eq, Structural)]
pub enum DataKey {
    Invoice(u64),
    NextInvoiceId,
    Config,
}

/// Ledgers for which an invoice record stays alive after each write.
pub const INVOICE_LIFETIME: u32 = 5184000;

/// Ledgers for which the configuration slot stays alive after each write.
pub const CONFIG_LIFETIME: u32 = 5184000;

/// The slot that holds the invoice with this id.
pub fn invoice_key(id: u64) -> (r: DataKey)
    ensures
        r == DataKey::Invoice(id),
{
    DataKey::Invoice(id)
}

/// The lifetime to which a write refreshes the slot under `key`.
pub fn lifetime_of(key: &DataKey) -> (r: u32)
    ensures
        r == (match *key {
            DataKey::Invoice(_) => INVOICE_LIFETIME,
            _ => CONFIG_LIFETIME,
        }),
{
    match key {
        DataKey::Invoice(_) => INVOICE_LIFETIME,
        _ => CONFIG_LIFETIME,
    }
}

} // verus!
