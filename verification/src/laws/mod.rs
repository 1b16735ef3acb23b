//! What the operations are for, stated apart from how they are written: over prices, stakes
//! and times, over the answers that come back, and over two runs of the same operation.

pub mod account;
pub mod chat;
pub mod driver;
pub mod entries;
pub mod exact;
pub mod exits;
pub mod gains;
pub mod halts;
pub mod markets;
pub mod notices;
pub mod numbers;
pub mod orders;
pub mod records;
pub mod replay;
pub mod runs;
pub mod settings;
pub mod weather;
