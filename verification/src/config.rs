//! Router configuration: presets for development, production and testing,
//! a builder, and the consistency rules that a configuration must meet.

use vstd::prelude::*;
use crate::bounds::{
    ChannelCapacity, CircuitBreakerThreshold, CircuitBreakerTimeoutMs, ConversationTimeoutMs,
    DeadLetterQueueSize, HealthCheckIntervalMs, MaxConversationParticipants, MaxRetries,
    MessageBatchSize, MessageTimeoutMs, RetryBackoffFactor, RetryDelayMs, TraceSamplingRatio,
    WorkerThreadCount,
};
use crate::text::decimal_text;

verus! {

broadcast use vstd::string::group_string_axioms;

/// Errors of configuration handling.
#[derive(Debug)]
pub enum ConfigError {
    /// A setting breaks a consistency rule.
    ValidationError { field: String, reason: String },
    /// Reading or writing a configuration file failed.
    IoError { cause: String },
    /// A configuration could not be serialized or parsed.
    SerializationError { cause: String },
}

/// Complete router configuration.
#[derive(Debug, Clone)]
pub struct RouterConfig {
    pub inbound_queue_size: ChannelCapacity,
    pub outbound_queue_size: ChannelCapacity,
    pub message_timeout_ms: MessageTimeoutMs,
    pub message_batch_size: MessageBatchSize,
    pub worker_thread_count: WorkerThreadCount,
    pub max_retries: MaxRetries,
    pub retry_delay_ms: RetryDelayMs,
    pub retry_backoff_factor: RetryBackoffFactor,
    pub dead_letter_queue_size: DeadLetterQueueSize,
    pub circuit_breaker_threshold: CircuitBreakerThreshold,
    pub circuit_breaker_timeout_ms: CircuitBreakerTimeoutMs,
    pub conversation_timeout_ms: ConversationTimeoutMs,
    pub max_conversation_participants: MaxConversationParticipants,
    pub health_check_interval_ms: HealthCheckIntervalMs,
    pub trace_sampling_ratio: TraceSamplingRatio,
    pub enable_metrics: bool,
    pub enable_detailed_logs: bool,
    pub storage_path: Option<String>,
    pub enable_persistence: bool,
    pub storage_cleanup_interval_ms: u64,
    pub enable_batching: bool,
    pub enable_connection_pooling: bool,
    pub connection_pool_size: usize,
    pub enable_compression: bool,
    pub enable_message_validation: bool,
    pub max_message_size_bytes: usize,
    pub enable_rate_limiting: bool,
    pub rate_limit_messages_per_second: usize,
}

/// The first consistency rule that a configuration breaks, as the field it
/// names and the reason it gives, when the machine has `cpus` processors;
/// `None` where it breaks none. The rules are checked in this order.
pub open spec fn config_violation(c: RouterConfig, cpus: usize) -> Option<(Seq<char>, Seq<char>)> {
    if c.inbound_queue_size@ < 10 {
        Some(("inbound_queue_size"@, "Must be at least 10"@))
    } else if c.outbound_queue_size@ < 10 {
        Some(("outbound_queue_size"@, "Must be at least 10"@))
    } else if c.message_timeout_ms@ < 1000 {
        Some(("message_timeout_ms"@, "Must be at least 1 second"@))
    } else if c.conversation_timeout_ms@ < 60_000 {
        Some(("conversation_timeout_ms"@, "Must be at least 1 minute"@))
    } else if c.worker_thread_count@ > 2 * cpus {
        Some(
            (
                "worker_thread_count"@,
                "Should not exceed 2x CPU cores ("@ + decimal_text((2 * cpus) as nat) + ")"@,
            ),
        )
    } else if c.message_batch_size@ > c.inbound_queue_size@ / 10 {
        Some(("message_batch_size"@, "Should not exceed 10% of inbound queue size"@))
    } else if c.retry_delay_ms@ >= c.message_timeout_ms@ {
        Some(("retry_delay_ms"@, "Should be less than message timeout"@))
    } else if c.circuit_breaker_timeout_ms@ < c.retry_delay_ms@ * c.max_retries@ {
        Some(("circuit_breaker_timeout_ms"@, "Should be longer than total retry time"@))
    } else if c.enable_persistence && c.storage_path is None {
        Some(("storage_path"@, "Must specify storage path when persistence is enabled"@))
    } else if c.enable_rate_limiting && c.rate_limit_messages_per_second == 0 {
        Some(
            (
                "rate_limit_messages_per_second"@,
                "Must be greater than 0 when rate limiting is enabled"@,
            ),
        )
    } else {
        None
    }
}

/// The settings of the development preset.
pub open spec fn is_development_preset(c: RouterConfig) -> bool {
    &&& c.inbound_queue_size@ == 1000
    &&& c.outbound_queue_size@ == 1000
    &&& c.message_timeout_ms@ == 10_000
    &&& c.message_batch_size@ == 10
    &&& c.worker_thread_count@ == 2
    &&& c.max_retries@ == 2
    &&& c.retry_delay_ms@ == 500
    &&& c.retry_backoff_factor@ == 150
    &&& c.dead_letter_queue_size@ == 10_000
    &&& c.circuit_breaker_threshold@ == 3
    &&& c.circuit_breaker_timeout_ms@ == 30_000
    &&& c.conversation_timeout_ms@ == 600_000
    &&& c.max_conversation_participants@ == 5
    &&& c.health_check_interval_ms@ == 10_000
    &&& c.trace_sampling_ratio@ == 1_000_000
    &&& c.enable_metrics
    &&& c.enable_detailed_logs
    &&& c.storage_path is None
    &&& !c.enable_persistence
    &&& c.storage_cleanup_interval_ms == 60_000
    &&& c.enable_batching
    &&& !c.enable_connection_pooling
    &&& c.connection_pool_size == 5
    &&& !c.enable_compression
    &&& c.enable_message_validation
    &&& c.max_message_size_bytes == 1_048_576
    &&& !c.enable_rate_limiting
    &&& c.rate_limit_messages_per_second == 1000
}

/// The settings of the production preset.
pub open spec fn is_production_preset(c: RouterConfig) -> bool {
    &&& c.inbound_queue_size@ == 100_000
    &&& c.outbound_queue_size@ == 50_000
    &&& c.message_timeout_ms@ == 30_000
    &&& c.message_batch_size@ == 1000
    &&& c.worker_thread_count@ == 8
    &&& c.max_retries@ == 3
    &&& c.retry_delay_ms@ == 1000
    &&& c.retry_backoff_factor@ == 200
    &&& c.dead_letter_queue_size@ == 1_000_000
    &&& c.circuit_breaker_threshold@ == 10
    &&& c.circuit_breaker_timeout_ms@ == 60_000
    &&& c.conversation_timeout_ms@ == 1_800_000
    &&& c.max_conversation_participants@ == 20
    &&& c.health_check_interval_ms@ == 60_000
    &&& c.trace_sampling_ratio@ == 10_000
    &&& c.enable_metrics
    &&& !c.enable_detailed_logs
    &&& c.storage_path matches Some(p) && p@ == "./data/message_router"@
    &&& c.enable_persistence
    &&& c.storage_cleanup_interval_ms == 3_600_000
    &&& c.enable_batching
    &&& c.enable_connection_pooling
    &&& c.connection_pool_size == 50
    &&& c.enable_compression
    &&& c.enable_message_validation
    &&& c.max_message_size_bytes == 10_485_760
    &&& c.enable_rate_limiting
    &&& c.rate_limit_messages_per_second == 10_000
}

/// The settings of the testing preset.
pub open spec fn is_testing_preset(c: RouterConfig) -> bool {
    &&& c.inbound_queue_size@ == 10_000
    &&& c.outbound_queue_size@ == 10_000
    &&& c.message_timeout_ms@ == 5_000
    &&& c.message_batch_size@ == 5
    &&& c.worker_thread_count@ == 1
    &&& c.max_retries@ == 1
    &&& c.retry_delay_ms@ == 100
    &&& c.retry_backoff_factor@ == 110
    &&& c.dead_letter_queue_size@ == 10_000
    &&& c.circuit_breaker_threshold@ == 1
    &&& c.circuit_breaker_timeout_ms@ == 5_000
    &&& c.conversation_timeout_ms@ == 300_000
    &&& c.max_conversation_participants@ == 3
    &&& c.health_check_interval_ms@ == 5_000
    &&& c.trace_sampling_ratio@ == 0
    &&& !c.enable_metrics
    &&& !c.enable_detailed_logs
    &&& c.storage_path is None
    &&& !c.enable_persistence
    &&& c.storage_cleanup_interval_ms == 30_000
    &&& !c.enable_batching
    &&& !c.enable_connection_pooling
    &&& c.connection_pool_size == 1
    &&& !c.enable_compression
    &&& c.enable_message_validation
    &&& c.max_message_size_bytes == 1024
    &&& !c.enable_rate_limiting
    &&& c.rate_limit_messages_per_second == 100
}

/// The development preset meets every consistency rule on a machine with at
/// least one processor.
pub proof fn lemma_development_preset_valid(c: RouterConfig, cpus: usize)
    requires
        is_development_preset(c),
        cpus >= 1,
    ensures
        config_violation(c, cpus) is None,
{
}

/// The production preset meets every consistency rule on a machine with at
/// least four processors (it asks for eight worker threads).
pub proof fn lemma_production_preset_valid(c: RouterConfig, cpus: usize)
    requires
        is_production_preset(c),
        cpus >= 4,
    ensures
        config_violation(c, cpus) is None,
{
}

/// The testing preset meets every consistency rule on a machine with at
/// least one processor.
pub proof fn lemma_testing_preset_valid(c: RouterConfig, cpus: usize)
    requires
        is_testing_preset(c),
        cpus >= 1,
    ensures
        config_violation(c, cpus) is None,
{
}

/// Calls `num_cpus::get`, the number of processors that this process may use.
/// The number depends on the machine; its documentation promises at least 1,
/// and that is all that is stated.
#[verifier::external_body]
fn available_cpus() -> (n: usize)
    ensures
        n >= 1,
{
    num_cpus::get()
}

/// A configuration that meets every rule with some number of processors
/// meets them with any larger number: only the worker count depends on it.
pub proof fn lemma_more_cpus_keep_valid(c: RouterConfig, fewer: usize, more: usize)
    requires
        fewer <= more,
        config_violation(c, fewer) is None,
    ensures
        config_violation(c, more) is None,
{
}

/// The outcome of a build with the configuration left out.
pub open spec fn outcome_of(r: Result<RouterConfig, ConfigError>) -> Result<(), ConfigError> {
    match r {
        Ok(_) => Ok(()),
        Err(e) => Err(e),
    }
}

/// Whether `r` is what validating `c` on a machine with `cpus` processors
/// gives: success exactly where no rule is broken, else the first broken
/// rule's field and reason.
pub open spec fn validated_as(c: RouterConfig, cpus: usize, r: Result<(), ConfigError>) -> bool {
    &&& (r is Ok <==> config_violation(c, cpus) is None)
    &&& (r matches Err(e) ==> (e matches ConfigError::ValidationError { field, reason }
        && config_violation(c, cpus) == Some((field@, reason@))))
}

/// The decimal digit of a value below 10.
fn digit_text(d: u128) -> (s: &'static str)
    requires
        d < 10,
    ensures
        s@ == seq![crate::text::digit_char(d as nat)],
{
    if d == 0 {
        proof {
            reveal_strlit("0");
        }
        "0"
    } else if d == 1 {
        proof {
            reveal_strlit("1");
        }
        "1"
    } else if d == 2 {
        proof {
            reveal_strlit("2");
        }
        "2"
    } else if d == 3 {
        proof {
            reveal_strlit("3");
        }
        "3"
    } else if d == 4 {
        proof {
            reveal_strlit("4");
        }
        "4"
    } else if d == 5 {
        proof {
            reveal_strlit("5");
        }
        "5"
    } else if d == 6 {
        proof {
            reveal_strlit("6");
        }
        "6"
    } else if d == 7 {
        proof {
            reveal_strlit("7");
        }
        "7"
    } else if d == 8 {
        proof {
            reveal_strlit("8");
        }
        "8"
    } else {
        proof {
            reveal_strlit("9");
        }
        "9"
    }
}

/// The decimal text of an unsigned integer, without leading zeros.
pub(crate) fn u128_text(n: u128) -> (s: String)
    ensures
        s@ == decimal_text(n as nat),
    decreases n,
{
    if n < 10 {
        String::from_str(digit_text(n))
    } else {
        let head = u128_text(n / 10);
        let s = head.concat(digit_text(n % 10));
        assert(s@ =~= decimal_text((n / 10) as nat).push(crate::text::digit_char((n % 10) as nat)));
        s
    }
}

fn validation_failure(field: &str, reason: String) -> (r: Result<(), ConfigError>)
    ensures
        r matches Err(ConfigError::ValidationError { field: f, reason: why }) && f@ == field@
            && why@ == reason@,
{
    Err(ConfigError::ValidationError { field: String::from_str(field), reason })
}

impl RouterConfig {
    /// Development configuration: small queues, short timeouts, full tracing.
    pub fn development() -> (c: Self)
        ensures
            is_development_preset(c),
    {
        RouterConfig {
            inbound_queue_size: ChannelCapacity::try_new(1_000).unwrap(),
            outbound_queue_size: ChannelCapacity::try_new(1_000).unwrap(),
            message_timeout_ms: MessageTimeoutMs::try_new(10_000).unwrap(),
            message_batch_size: MessageBatchSize::try_new(10).unwrap(),
            worker_thread_count: WorkerThreadCount::try_new(2).unwrap(),
            max_retries: MaxRetries::try_new(2).unwrap(),
            retry_delay_ms: RetryDelayMs::try_new(500).unwrap(),
            retry_backoff_factor: RetryBackoffFactor::try_new(150).unwrap(),
            dead_letter_queue_size: DeadLetterQueueSize::try_new(10_000).unwrap(),
            circuit_breaker_threshold: CircuitBreakerThreshold::try_new(3).unwrap(),
            circuit_breaker_timeout_ms: CircuitBreakerTimeoutMs::try_new(30_000).unwrap(),
            conversation_timeout_ms: ConversationTimeoutMs::try_new(600_000).unwrap(),
            max_conversation_participants: MaxConversationParticipants::try_new(5).unwrap(),
            health_check_interval_ms: HealthCheckIntervalMs::try_new(10_000).unwrap(),
            trace_sampling_ratio: TraceSamplingRatio::try_new(1_000_000).unwrap(),
            enable_metrics: true,
            enable_detailed_logs: true,
            storage_path: None,
            enable_persistence: false,
            storage_cleanup_interval_ms: 60_000,
            enable_batching: true,
            enable_connection_pooling: false,
            connection_pool_size: 5,
            enable_compression: false,
            enable_message_validation: true,
            max_message_size_bytes: 1_048_576,
            enable_rate_limiting: false,
            rate_limit_messages_per_second: 1000,
        }
    }

    /// Production configuration: large queues, persistence, sampled tracing.
    pub fn production() -> (c: Self)
        ensures
            is_production_preset(c),
    {
        RouterConfig {
            inbound_queue_size: ChannelCapacity::try_new(100_000).unwrap(),
            outbound_queue_size: ChannelCapacity::try_new(50_000).unwrap(),
            message_timeout_ms: MessageTimeoutMs::try_new(30_000).unwrap(),
            message_batch_size: MessageBatchSize::try_new(1000).unwrap(),
            worker_thread_count: WorkerThreadCount::try_new(8).unwrap(),
            max_retries: MaxRetries::try_new(3).unwrap(),
            retry_delay_ms: RetryDelayMs::try_new(1000).unwrap(),
            retry_backoff_factor: RetryBackoffFactor::try_new(200).unwrap(),
            dead_letter_queue_size: DeadLetterQueueSize::try_new(1_000_000).unwrap(),
            circuit_breaker_threshold: CircuitBreakerThreshold::try_new(10).unwrap(),
            circuit_breaker_timeout_ms: CircuitBreakerTimeoutMs::try_new(60_000).unwrap(),
            conversation_timeout_ms: ConversationTimeoutMs::default(),
            max_conversation_participants: MaxConversationParticipants::try_new(20).unwrap(),
            health_check_interval_ms: HealthCheckIntervalMs::try_new(60_000).unwrap(),
            trace_sampling_ratio: TraceSamplingRatio::try_new(10_000).unwrap(),
            enable_metrics: true,
            enable_detailed_logs: false,
            storage_path: Some(String::from_str("./data/message_router")),
            enable_persistence: true,
            storage_cleanup_interval_ms: 3_600_000,
            enable_batching: true,
            enable_connection_pooling: true,
            connection_pool_size: 50,
            enable_compression: true,
            enable_message_validation: true,
            max_message_size_bytes: 10_485_760,
            enable_rate_limiting: true,
            rate_limit_messages_per_second: 10_000,
        }
    }

    /// Testing configuration: minimal resources, no tracing.
    pub fn testing() -> (c: Self)
        ensures
            is_testing_preset(c),
    {
        RouterConfig {
            inbound_queue_size: ChannelCapacity::try_new(10_000).unwrap(),
            outbound_queue_size: ChannelCapacity::try_new(10_000).unwrap(),
            message_timeout_ms: MessageTimeoutMs::try_new(5_000).unwrap(),
            message_batch_size: MessageBatchSize::try_new(5).unwrap(),
            worker_thread_count: WorkerThreadCount::try_new(1).unwrap(),
            max_retries: MaxRetries::try_new(1).unwrap(),
            retry_delay_ms: RetryDelayMs::try_new(100).unwrap(),
            retry_backoff_factor: RetryBackoffFactor::try_new(110).unwrap(),
            dead_letter_queue_size: DeadLetterQueueSize::try_new(10_000).unwrap(),
            circuit_breaker_threshold: CircuitBreakerThreshold::try_new(1).unwrap(),
            circuit_breaker_timeout_ms: CircuitBreakerTimeoutMs::try_new(5_000).unwrap(),
            conversation_timeout_ms: ConversationTimeoutMs::try_new(300_000).unwrap(),
            max_conversation_participants: MaxConversationParticipants::try_new(3).unwrap(),
            health_check_interval_ms: HealthCheckIntervalMs::try_new(5_000).unwrap(),
            trace_sampling_ratio: TraceSamplingRatio::try_new(0).unwrap(),
            enable_metrics: false,
            enable_detailed_logs: false,
            storage_path: None,
            enable_persistence: false,
            storage_cleanup_interval_ms: 30_000,
            enable_batching: false,
            enable_connection_pooling: false,
            connection_pool_size: 1,
            enable_compression: false,
            enable_message_validation: true,
            max_message_size_bytes: 1024,
            enable_rate_limiting: false,
            rate_limit_messages_per_second: 100,
        }
    }

    /// A builder that starts from the development configuration.
    pub fn builder() -> (b: RouterConfigBuilder)
        ensures
            is_development_preset(b.current()),
    {
        RouterConfigBuilder::new()
    }

    /// Checks the configuration's consistency rules on a machine with
    /// `cpus` processors, and reports the first rule it breaks.
    pub fn validate_with_cpu_count(&self, cpus: usize) -> (r: Result<(), ConfigError>)
        ensures
            r is Ok <==> config_violation(*self, cpus) is None,
            r matches Err(e) ==> (e matches ConfigError::ValidationError { field, reason }
                && config_violation(*self, cpus) == Some((field@, reason@))),
    {
        if self.inbound_queue_size.as_usize() < 10 {
            return validation_failure("inbound_queue_size", String::from_str("Must be at least 10"));
        }
        if self.outbound_queue_size.as_usize() < 10 {
            return validation_failure("outbound_queue_size", String::from_str("Must be at least 10"));
        }
        if self.message_timeout_ms.as_u64() < 1000 {
            return validation_failure(
                "message_timeout_ms",
                String::from_str("Must be at least 1 second"),
            );
        }
        if self.conversation_timeout_ms.as_u64() < 60_000 {
            return validation_failure(
                "conversation_timeout_ms",
                String::from_str("Must be at least 1 minute"),
            );
        }
        let limit: u128 = (cpus as u128) * 2;
        if (self.worker_thread_count.as_usize() as u128) > limit {
            let reason = String::from_str("Should not exceed 2x CPU cores (").concat(
                u128_text(limit).as_str(),
            ).concat(")");
            return validation_failure("worker_thread_count", reason);
        }
        if self.message_batch_size.as_usize() > self.inbound_queue_size.as_usize() / 10 {
            return validation_failure(
                "message_batch_size",
                String::from_str("Should not exceed 10% of inbound queue size"),
            );
        }
        if self.retry_delay_ms.as_u64() >= self.message_timeout_ms.as_u64() {
            return validation_failure(
                "retry_delay_ms",
                String::from_str("Should be less than message timeout"),
            );
        }
        let delay: u64 = self.retry_delay_ms.as_u64();
        let retries: u64 = self.max_retries.as_u8() as u64;
        assert(delay * retries <= 3_000_000) by (nonlinear_arith)
            requires
                delay <= 300_000,
                retries <= 10,
        ;
        let total_retry: u64 = delay * retries;
        if self.circuit_breaker_timeout_ms.as_u64() < total_retry {
            return validation_failure(
                "circuit_breaker_timeout_ms",
                String::from_str("Should be longer than total retry time"),
            );
        }
        if self.enable_persistence && self.storage_path.is_none() {
            return validation_failure(
                "storage_path",
                String::from_str("Must specify storage path when persistence is enabled"),
            );
        }
        if self.enable_rate_limiting && self.rate_limit_messages_per_second == 0 {
            return validation_failure(
                "rate_limit_messages_per_second",
                String::from_str("Must be greater than 0 when rate limiting is enabled"),
            );
        }
        Ok(())
    }

    /// Checks the configuration's consistency rules on this machine.
    /// Which rule the processor count decides depends on the machine; on a
    /// configuration that breaks an earlier rule, that rule is reported.
    pub fn validate(&self) -> (r: Result<(), ConfigError>)
        ensures
            exists|cpus: usize| cpus >= 1 && #[trigger] validated_as(*self, cpus, r),
            config_violation(*self, 1) is None ==> r is Ok,
    {
        let cpus = available_cpus();
        let r = self.validate_with_cpu_count(cpus);
        proof {
            if config_violation(*self, 1) is None {
                lemma_more_cpus_keep_valid(*self, 1, cpus);
            }
        }
        assert(validated_as(*self, cpus, r));
        r
    }
}

impl Default for RouterConfig {
    fn default() -> (c: Self)
        ensures
            is_development_preset(c),
    {
        Self::development()
    }
}

/// Builder for custom router configurations; starts from the development preset.
pub struct RouterConfigBuilder {
    config: RouterConfig,
}

impl RouterConfigBuilder {
    /// The configuration built so far.
    pub closed spec fn current(self) -> RouterConfig {
        self.config
    }

    /// A builder holding the development preset.
    pub fn new() -> (b: Self)
        ensures
            is_development_preset(b.current()),
    {
        RouterConfigBuilder { config: RouterConfig::development() }
    }

    /// Sets the inbound queue size.
    pub fn inbound_queue_size(self, size: ChannelCapacity) -> (b: Self)
        ensures
            b.current() == (RouterConfig { inbound_queue_size: size, ..self.current() }),
    {
        let mut b = self;
        b.config.inbound_queue_size = size;
        b
    }

    /// Sets the outbound queue size.
    pub fn outbound_queue_size(self, size: ChannelCapacity) -> (b: Self)
        ensures
            b.current() == (RouterConfig { outbound_queue_size: size, ..self.current() }),
    {
        let mut b = self;
        b.config.outbound_queue_size = size;
        b
    }

    /// Sets the message timeout.
    pub fn message_timeout_ms(self, timeout: MessageTimeoutMs) -> (b: Self)
        ensures
            b.current() == (RouterConfig { message_timeout_ms: timeout, ..self.current() }),
    {
        let mut b = self;
        b.config.message_timeout_ms = timeout;
        b
    }

    /// Sets the message batch size.
    pub fn message_batch_size(self, size: MessageBatchSize) -> (b: Self)
        ensures
            b.current() == (RouterConfig { message_batch_size: size, ..self.current() }),
    {
        let mut b = self;
        b.config.message_batch_size = size;
        b
    }

    /// Sets the worker thread count.
    pub fn worker_thread_count(self, count: WorkerThreadCount) -> (b: Self)
        ensures
            b.current() == (RouterConfig { worker_thread_count: count, ..self.current() }),
    {
        let mut b = self;
        b.config.worker_thread_count = count;
        b
    }

    /// Sets the maximum retry attempts.
    pub fn max_retries(self, retries: MaxRetries) -> (b: Self)
        ensures
            b.current() == (RouterConfig { max_retries: retries, ..self.current() }),
    {
        let mut b = self;
        b.config.max_retries = retries;
        b
    }

    /// Sets the retry delay.
    pub fn retry_delay_ms(self, delay: RetryDelayMs) -> (b: Self)
        ensures
            b.current() == (RouterConfig { retry_delay_ms: delay, ..self.current() }),
    {
        let mut b = self;
        b.config.retry_delay_ms = delay;
        b
    }

    /// Sets the conversation timeout.
    pub fn conversation_timeout_ms(self, timeout: ConversationTimeoutMs) -> (b: Self)
        ensures
            b.current() == (RouterConfig { conversation_timeout_ms: timeout, ..self.current() }),
    {
        let mut b = self;
        b.config.conversation_timeout_ms = timeout;
        b
    }

    /// Sets the trace sampling ratio.
    pub fn trace_sampling_ratio(self, ratio: TraceSamplingRatio) -> (b: Self)
        ensures
            b.current() == (RouterConfig { trace_sampling_ratio: ratio, ..self.current() }),
    {
        let mut b = self;
        b.config.trace_sampling_ratio = ratio;
        b
    }

    /// Enables or disables persistence.
    pub fn enable_persistence(self, enable: bool) -> (b: Self)
        ensures
            b.current() == (RouterConfig { enable_persistence: enable, ..self.current() }),
    {
        let mut b = self;
        b.config.enable_persistence = enable;
        b
    }

    /// Sets the storage path.
    pub fn storage_path(self, path: String) -> (b: Self)
        ensures
            b.current() == (RouterConfig { storage_path: Some(path), ..self.current() }),
    {
        let mut b = self;
        b.config.storage_path = Some(path);
        b
    }

    /// Enables or disables batching.
    pub fn enable_batching(self, enable: bool) -> (b: Self)
        ensures
            b.current() == (RouterConfig { enable_batching: enable, ..self.current() }),
    {
        let mut b = self;
        b.config.enable_batching = enable;
        b
    }

    /// Enables or disables connection pooling.
    pub fn enable_connection_pooling(self, enable: bool) -> (b: Self)
        ensures
            b.current() == (RouterConfig { enable_connection_pooling: enable, ..self.current() }),
    {
        let mut b = self;
        b.config.enable_connection_pooling = enable;
        b
    }

    /// Sets the connection pool size.
    pub fn connection_pool_size(self, size: usize) -> (b: Self)
        ensures
            b.current() == (RouterConfig { connection_pool_size: size, ..self.current() }),
    {
        let mut b = self;
        b.config.connection_pool_size = size;
        b
    }

    /// Enables or disables metrics.
    pub fn enable_metrics(self, enable: bool) -> (b: Self)
        ensures
            b.current() == (RouterConfig { enable_metrics: enable, ..self.current() }),
    {
        let mut b = self;
        b.config.enable_metrics = enable;
        b
    }

    /// Enables or disables detailed logging.
    pub fn enable_detailed_logs(self, enable: bool) -> (b: Self)
        ensures
            b.current() == (RouterConfig { enable_detailed_logs: enable, ..self.current() }),
    {
        let mut b = self;
        b.config.enable_detailed_logs = enable;
        b
    }

    /// Enables or disables rate limiting.
    pub fn enable_rate_limiting(self, enable: bool) -> (b: Self)
        ensures
            b.current() == (RouterConfig { enable_rate_limiting: enable, ..self.current() }),
    {
        let mut b = self;
        b.config.enable_rate_limiting = enable;
        b
    }

    /// Sets the rate limit.
    pub fn rate_limit_messages_per_second(self, rate: usize) -> (b: Self)
        ensures
            b.current() == (RouterConfig { rate_limit_messages_per_second: rate, ..self.current() }),
    {
        let mut b = self;
        b.config.rate_limit_messages_per_second = rate;
        b
    }

    /// Validates the configuration on a machine with `cpus` processors and
    /// hands it back where it passes.
    pub fn build_with_cpu_count(self, cpus: usize) -> (r: Result<RouterConfig, ConfigError>)
        ensures
            r is Ok <==> config_violation(self.current(), cpus) is None,
            r matches Ok(c) ==> c == self.current(),
            r matches Err(e) ==> (e matches ConfigError::ValidationError { field, reason }
                && config_violation(self.current(), cpus) == Some((field@, reason@))),
    {
        match self.config.validate_with_cpu_count(cpus) {
            Ok(()) => Ok(self.config),
            Err(e) => Err(e),
        }
    }

    /// Validates the configuration on this machine and hands it back where it passes.
    pub fn build(self) -> (r: Result<RouterConfig, ConfigError>)
        ensures
            r matches Ok(c) ==> c == self.current(),
            exists|cpus: usize| cpus >= 1 && #[trigger] validated_as(self.current(), cpus, outcome_of(r)),
            config_violation(self.current(), 1) is None ==> r is Ok,
    {
        let ghost current = self.current();
        let cpus = available_cpus();
        let r = self.build_with_cpu_count(cpus);
        proof {
            if config_violation(current, 1) is None {
                lemma_more_cpus_keep_valid(current, 1, cpus);
            }
        }
        assert(validated_as(current, cpus, outcome_of(r)));
        r
    }
}

impl Default for RouterConfigBuilder {
    fn default() -> (b: Self)
        ensures
            is_development_preset(b.current()),
    {
        Self::new()
    }
}

} // verus!
