//! A harness that checks a bounded connection pool and a record store under
//! concurrent load: the bookkeeping of the pool, the record-store contract, the
//! compound transactional operation and the per-worker validation protocol.

pub mod labels;
pub mod memory;
pub mod models;
pub mod pool;
pub mod worker;
