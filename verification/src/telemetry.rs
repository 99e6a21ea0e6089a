//! Settings of the OTLP trace export.
use vstd::prelude::*;
use vstd::string::StringExecFns;

verus! {

/// Where and how request spans are exported.
pub struct OtlpTracingConfig {
    pub service_name: String,
    pub endpoint: String,
    pub filter: String,
}

impl OtlpTracingConfig {
    /// Export for `service_name` to `endpoint`, at the `info` level.
    pub fn new(service_name: String, endpoint: String) -> (r: OtlpTracingConfig)
        ensures
            r.service_name == service_name,
            r.endpoint == endpoint,
            r.filter@ == "info"@,
    {
        OtlpTracingConfig { service_name, endpoint, filter: String::from_str("info") }
    }

    /// The same settings with another span filter.
    pub fn with_filter(self, filter: String) -> (r: OtlpTracingConfig)
        ensures
            r.service_name == self.service_name,
            r.endpoint == self.endpoint,
            r.filter == filter,
    {
        OtlpTracingConfig { filter, ..self }
    }
}

} // verus!
