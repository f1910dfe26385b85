//! Collects one product's price across many regional storefronts, reads each
//! price out of the storefront page, converts it into a base currency and ranks
//! the regions by price.

pub mod text;
pub mod json;
pub mod currency;
pub mod format;
pub mod convert;
pub mod collect;
pub mod extract;
