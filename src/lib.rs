pub mod amount;
pub mod naming;
pub mod record;
pub mod remittance;
pub mod render;
pub mod text;
