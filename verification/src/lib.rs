//! A sealed-bid auction whose bid comparison runs inside a confidential
//! computation cluster. The ledger-visible coordinator only ever sees an
//! opaque encrypted state blob; the circuit logic that folds bids and
//! reveals the winner is specified and proved here on plain values.

pub mod bytes;
pub mod circuit;
pub mod coordinator;
pub mod record;
pub mod request;
