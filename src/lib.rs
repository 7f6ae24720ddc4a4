//! Pricing by interchangeable strategies.
//!
//! Amounts are fixed-point integers. A base price counts cents, and a
//! multiplier counts percent, so a computed price counts ten-thousandths of
//! the currency unit and every multiplier applies without rounding.
pub mod generic;
pub mod money;
pub mod package;
pub mod policy;
