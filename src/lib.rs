//! Keeps native windows in line with declarative window records: builds a
//! native window for each new record, turns each change of a record into the
//! native calls it needs, takes back what the native layer decides, and takes
//! a native window down once its record is gone.

use vstd::prelude::*;

pub mod hook;
pub mod laws;
pub mod lifecycle;
pub mod monitor;
pub mod reconcile;
pub mod record;
pub mod registry;
