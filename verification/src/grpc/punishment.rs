//! The remote face of the punishment service.

use crate::services::PunishmentService;
use std::sync::Arc;
use vstd::prelude::*;

verus! {

/// Serves the punishment service to remote callers.
pub struct GrpcPunishmentService {
    punishment_service: Arc<PunishmentService>,
}

impl GrpcPunishmentService {
    /// The service that this value serves.
    pub closed spec fn service(&self) -> Arc<PunishmentService> {
        self.punishment_service
    }

    /// Wraps the shared service.
    pub fn new(punishment_service: Arc<PunishmentService>) -> (served: Self)
        ensures
            served.service() == punishment_service,
    {
        Self { punishment_service }
    }
}

} // verus!
