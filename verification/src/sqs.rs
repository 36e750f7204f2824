//! Settings of a queue-polling source, modeled as plain values: the queue
//! address, polling cadence, message visibility, and acknowledgement
//! switches. Building the polling client and the event stream around
//! these settings is outside the verified library.

use vstd::prelude::*;

verus! {

/// How long to wait while polling the queue for new messages, in seconds.
pub fn default_poll_secs() -> (r: u32)
    ensures
        r == 15,
{
    15
}

/// How long a received message stays unavailable to other consumers, in
/// seconds.
pub fn default_visibility_timeout_secs() -> (r: u32)
    ensures
        r == 300,
{
    300
}

/// Messages are deleted once processed unless configured otherwise.
pub fn default_true() -> (r: bool)
    ensures
        r,
{
    true
}

/// Configuration of the queue-polling source.
pub struct AwsSqsConfig {
    /// The URL of the queue to poll for messages.
    pub queue_url: String,
    /// How long to wait while polling, in seconds.
    pub poll_secs: u32,
    /// The visibility timeout to use for received messages, in seconds.
    pub visibility_timeout_secs: u32,
    /// Whether to delete a message once it is processed.
    pub delete_message: bool,
    /// Number of concurrent polling tasks; the machine's available
    /// parallelism when unset.
    pub client_concurrency: Option<usize>,
    /// The region the queue lives in, when addressed by region.
    pub region: Option<String>,
    /// An explicit endpoint, when not addressed by region.
    pub endpoint: Option<String>,
    /// Whether delivered batches are acknowledged end to end.
    pub acknowledgements: bool,
    /// Per-source override of the log namespacing switch.
    pub log_namespace: Option<bool>,
}

impl Default for AwsSqsConfig {
    /// The documented defaults: poll every 15 seconds, 300 seconds of
    /// visibility, delete after processing.
    fn default() -> (r: AwsSqsConfig)
        ensures
            r.queue_url@.len() == 0,
            r.poll_secs == 15,
            r.visibility_timeout_secs == 300,
            r.delete_message,
            r.client_concurrency is None,
            r.region is None,
            r.endpoint is None,
            !r.acknowledgements,
            r.log_namespace is None,
    {
        AwsSqsConfig {
            queue_url: String::new(),
            poll_secs: default_poll_secs(),
            visibility_timeout_secs: default_visibility_timeout_secs(),
            delete_message: default_true(),
            client_concurrency: None,
            region: None,
            endpoint: None,
            acknowledgements: false,
            log_namespace: None,
        }
    }
}

impl AwsSqsConfig {
    /// The polling configuration a queue descriptor denotes: the queue
    /// address as given, and every knob left unset taking its documented
    /// default. Two equal descriptors parameterize the source identically.
    pub fn from_descriptor(
        queue_url: String,
        poll_secs: Option<i64>,
        visibility_timeout_secs: Option<i64>,
        delete_message: Option<bool>,
    ) -> (r: AwsSqsConfig)
        requires
            poll_secs matches Option::Some(v) ==> 0 <= v <= u32::MAX,
            visibility_timeout_secs matches Option::Some(v) ==> 0 <= v <= u32::MAX,
        ensures
            r.queue_url == queue_url,
            r.poll_secs as int == (match poll_secs {
                Option::Some(v) => v as int,
                Option::None => 15,
            }),
            r.visibility_timeout_secs as int == (match visibility_timeout_secs {
                Option::Some(v) => v as int,
                Option::None => 300,
            }),
            r.delete_message == (match delete_message {
                Option::Some(b) => b,
                Option::None => true,
            }),
            r.client_concurrency is None,
            r.region is None,
            r.endpoint is None,
            !r.acknowledgements,
            r.log_namespace is None,
    {
        let mut c = AwsSqsConfig::default();
        c.queue_url = queue_url;
        match poll_secs {
            Some(v) => {
                c.poll_secs = v as u32;
            },
            None => {},
        }
        match visibility_timeout_secs {
            Some(v) => {
                c.visibility_timeout_secs = v as u32;
            },
            None => {},
        }
        match delete_message {
            Some(b) => {
                c.delete_message = b;
            },
            None => {},
        }
        c
    }

    /// The number of concurrent polling tasks: the configured count when
    /// one is set, else the machine's available parallelism.
    pub fn concurrency(&self, available: usize) -> (r: usize)
        ensures
            r == (match self.client_concurrency {
                Option::Some(n) => n,
                Option::None => available,
            }),
    {
        match self.client_concurrency {
            Some(n) => n,
            None => available,
        }
    }

    /// This source can take part in end-to-end acknowledgement.
    pub fn can_acknowledge(&self) -> (r: bool)
        ensures
            r,
    {
        true
    }
}

} // verus!
