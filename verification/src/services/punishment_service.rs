//! Punishments of players. The service has no operations yet.

use vstd::prelude::*;

verus! {

/// The punishment service.
#[derive(Debug, Clone, Copy, PartialEq, Eq, Structural)]
pub struct PunishmentService {}

} // verus!
