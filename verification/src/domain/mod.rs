pub mod action;
pub mod finder;
pub mod model;
pub mod query;
pub mod session;
