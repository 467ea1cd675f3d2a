pub mod biguint;
pub mod decimal;
pub mod errors;
pub mod model;
pub mod parser;
pub mod transport;
