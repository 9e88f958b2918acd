pub mod arith;
pub mod decode;
pub mod deposit_entry;
pub mod error;
pub mod lockup;
pub mod record;
pub mod registrar;
pub mod voter;
