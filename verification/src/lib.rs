pub mod compat;
pub mod constants;
pub mod destination;
pub mod discovery;
pub mod provider;
pub mod text;

pub use destination::{Destination, MediaSize, PrinterState};
