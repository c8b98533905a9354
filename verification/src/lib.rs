//! Orb treasury bookkeeping for summoning planners: how many heroes a stock of
//! orbs pays for, the on-disk book of named treasuries, and the integer side of
//! the summoning projections (rows, circles, counters and report text).

pub mod text;
pub mod profile;
pub mod projection;
pub mod report;
pub mod settings;
pub mod messages;
pub mod book;
