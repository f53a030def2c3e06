//! Reports about players. The service has no operations yet.

use vstd::prelude::*;

verus! {

/// The report service.
#[derive(Debug, Clone, Copy, PartialEq, Eq, Structural)]
pub struct ReportService {}

} // verus!
