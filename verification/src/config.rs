//! How the service is set up.
use vstd::prelude::*;

verus! {

/// How events are told to a webhook endpoint.
#[derive(Debug)]
pub struct WebhookConfig {
    pub enabled: bool,
    pub endpoint_url: Option<String>,
    /// How many events wait for delivery at most.
    pub queue_size: usize,
    /// How long one delivery may take.
    pub timeout_secs: u64,
    pub max_retries: u32,
}

impl Clone for WebhookConfig {
    fn clone(&self) -> (r: Self)
        ensures
            r == *self,
    {
        let r = WebhookConfig {
            enabled: self.enabled,
            endpoint_url: self.endpoint_url.clone(),
            queue_size: self.queue_size,
            timeout_secs: self.timeout_secs,
            max_retries: self.max_retries,
        };
        assert(r.endpoint_url == self.endpoint_url);
        r
    }
}

} // verus!
