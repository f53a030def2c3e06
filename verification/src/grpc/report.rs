//! The remote face of the report service.

use crate::services::ReportService;
use std::sync::Arc;
use vstd::prelude::*;

verus! {

/// Serves the report service to remote callers.
pub struct GrpcReportService {
    report_service: Arc<ReportService>,
}

impl GrpcReportService {
    /// The service that this value serves.
    pub closed spec fn service(&self) -> Arc<ReportService> {
        self.report_service
    }

    /// Wraps the shared service.
    pub fn new(report_service: Arc<ReportService>) -> (served: Self)
        ensures
            served.service() == report_service,
    {
        Self { report_service }
    }
}

} // verus!
