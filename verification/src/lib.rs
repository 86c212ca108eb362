//! Verified core of the Ore desktop miner: the text handling, the mining and
//! transaction state machines, and the account bookkeeping that the desktop
//! front end drives.

pub mod accounts;
pub mod mining;
pub mod screens;
pub mod text;
pub mod text_input;
pub mod tx;
pub mod ui_state;
pub mod utils;
pub mod wallet;
