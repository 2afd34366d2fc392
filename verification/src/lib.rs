//! Sans-I/O driver for the WeAct Studio e-paper panels (SSD1680 controller).
use vstd::prelude::*;

pub mod color;
pub mod driver;
pub mod command;
pub mod flag;
pub mod laws;
pub mod script;
pub mod steps;

pub use color::{Color, ColorType, TriColor};
pub use display_interface::DisplayError;
pub use driver::{
    DisplayDriver, Next, WeActStudio213BlackWhiteDriver, WeActStudio213TriColorDriver,
    WeActStudio290BlackWhiteDriver, WeActStudio290TriColorDriver,
};
pub use steps::{busy_poll_continues, Action};

verus! {

/// The error that the display interface reports.
#[verifier::external_type_specification]
#[verifier::external_body]
pub struct ExDisplayError(display_interface::DisplayError);

} // verus!
