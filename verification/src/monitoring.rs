//! Performance monitoring: thresholds per kind of operation, and the
//! decision of what to report about an operation that was timed.
//!
//! The functions here run a thunk, time it, and return what is to be
//! reported as a list of alerts; sending the alerts to the alert channel and
//! isolating faults of the thunk are left to the caller, which hands a fault
//! to [`PerformanceMonitor::fault`].

use vstd::prelude::*;
use crate::clock::{nanos_since, nanos_to_millis, now};
use crate::errors::AppError;
use crate::text::{decimal_digits, join2, join3, push_decimal, push_text};

verus! {

/// Thresholds above which an operation counts as slow, in milliseconds.
#[derive(Debug, Clone, Copy, PartialEq, Eq)]
pub struct PerformanceConfig {
    pub startup_threshold_ms: u64,
    pub database_threshold_ms: u64,
    pub ipc_threshold_ms: u64,
    pub ai_request_threshold_ms: u64,
}

impl Default for PerformanceConfig {
    /// One second for startup, 50 ms for database operations, 100 ms for
    /// cross-process calls and two seconds for remote-AI calls.
    fn default() -> (c: Self)
        ensures
            c == PerformanceConfig::spec_default(),
    {
        PerformanceConfig {
            startup_threshold_ms: 1000,
            database_threshold_ms: 50,
            ipc_threshold_ms: 100,
            ai_request_threshold_ms: 2000,
        }
    }
}

impl PerformanceConfig {
    /// The default thresholds.
    pub open spec fn spec_default() -> Self {
        PerformanceConfig {
            startup_threshold_ms: 1000,
            database_threshold_ms: 50,
            ipc_threshold_ms: 100,
            ai_request_threshold_ms: 2000,
        }
    }

    /// The default thresholds.
    pub fn new() -> (c: Self)
        ensures
            c == Self::spec_default(),
    {
        PerformanceConfig {
            startup_threshold_ms: 1000,
            database_threshold_ms: 50,
            ipc_threshold_ms: 100,
            ai_request_threshold_ms: 2000,
        }
    }

    /// Looser thresholds for a development machine.
    pub fn development() -> (c: Self)
        ensures
            c.startup_threshold_ms == 3000,
            c.database_threshold_ms == 200,
            c.ipc_threshold_ms == 300,
            c.ai_request_threshold_ms == 5000,
    {
        PerformanceConfig {
            startup_threshold_ms: 3000,
            database_threshold_ms: 200,
            ipc_threshold_ms: 300,
            ai_request_threshold_ms: 5000,
        }
    }

    /// Stricter thresholds for production.
    pub fn production() -> (c: Self)
        ensures
            c.startup_threshold_ms == 800,
            c.database_threshold_ms == 30,
            c.ipc_threshold_ms == 80,
            c.ai_request_threshold_ms == 1500,
    {
        PerformanceConfig {
            startup_threshold_ms: 800,
            database_threshold_ms: 30,
            ipc_threshold_ms: 80,
            ai_request_threshold_ms: 1500,
        }
    }

    /// A builder with no threshold chosen yet.
    pub fn builder() -> (b: PerformanceConfigBuilder)
        ensures
            b.chosen() == (None::<u64>, None::<u64>, None::<u64>, None::<u64>),
    {
        PerformanceConfigBuilder {
            startup_threshold_ms: None,
            database_threshold_ms: None,
            ipc_threshold_ms: None,
            ai_request_threshold_ms: None,
        }
    }

    /// The threshold for a kind of operation.
    pub open spec fn spec_threshold(&self, kind: OperationKind) -> u64 {
        match kind {
            OperationKind::Startup => self.startup_threshold_ms,
            OperationKind::Database => self.database_threshold_ms,
            OperationKind::Ipc => self.ipc_threshold_ms,
            OperationKind::AiRequest => self.ai_request_threshold_ms,
        }
    }

    /// The threshold for a kind of operation.
    pub fn threshold(&self, kind: OperationKind) -> (ms: u64)
        ensures
            ms == self.spec_threshold(kind),
    {
        match kind {
            OperationKind::Startup => self.startup_threshold_ms,
            OperationKind::Database => self.database_threshold_ms,
            OperationKind::Ipc => self.ipc_threshold_ms,
            OperationKind::AiRequest => self.ai_request_threshold_ms,
        }
    }
}

/// Builder of a [`PerformanceConfig`]: thresholds that were not chosen get
/// their default.
#[derive(Debug, Default)]
pub struct PerformanceConfigBuilder {
    startup_threshold_ms: Option<u64>,
    database_threshold_ms: Option<u64>,
    ipc_threshold_ms: Option<u64>,
    ai_request_threshold_ms: Option<u64>,
}

/// The chosen value, or the default.
pub open spec fn chosen_or(chosen: Option<u64>, default: u64) -> u64 {
    match chosen {
        Some(ms) => ms,
        None => default,
    }
}

impl PerformanceConfigBuilder {
    /// The thresholds chosen so far: startup, database, cross-process, AI.
    pub closed spec fn chosen(&self) -> (Option<u64>, Option<u64>, Option<u64>, Option<u64>) {
        (
            self.startup_threshold_ms,
            self.database_threshold_ms,
            self.ipc_threshold_ms,
            self.ai_request_threshold_ms,
        )
    }

    /// Chooses the startup threshold.
    pub fn startup_threshold_ms(self, ms: u64) -> (b: Self)
        ensures
            b.chosen() == (Some(ms), self.chosen().1, self.chosen().2, self.chosen().3),
    {
        PerformanceConfigBuilder {
            startup_threshold_ms: Some(ms),
            database_threshold_ms: self.database_threshold_ms,
            ipc_threshold_ms: self.ipc_threshold_ms,
            ai_request_threshold_ms: self.ai_request_threshold_ms,
        }
    }

    /// Chooses the threshold of database operations.
    pub fn database_threshold_ms(self, ms: u64) -> (b: Self)
        ensures
            b.chosen() == (self.chosen().0, Some(ms), self.chosen().2, self.chosen().3),
    {
        PerformanceConfigBuilder {
            startup_threshold_ms: self.startup_threshold_ms,
            database_threshold_ms: Some(ms),
            ipc_threshold_ms: self.ipc_threshold_ms,
            ai_request_threshold_ms: self.ai_request_threshold_ms,
        }
    }

    /// Chooses the threshold of cross-process calls.
    pub fn ipc_threshold_ms(self, ms: u64) -> (b: Self)
        ensures
            b.chosen() == (self.chosen().0, self.chosen().1, Some(ms), self.chosen().3),
    {
        PerformanceConfigBuilder {
            startup_threshold_ms: self.startup_threshold_ms,
            database_threshold_ms: self.database_threshold_ms,
            ipc_threshold_ms: Some(ms),
            ai_request_threshold_ms: self.ai_request_threshold_ms,
        }
    }

    /// Chooses the threshold of remote-AI calls.
    pub fn ai_request_threshold_ms(self, ms: u64) -> (b: Self)
        ensures
            b.chosen() == (self.chosen().0, self.chosen().1, self.chosen().2, Some(ms)),
    {
        PerformanceConfigBuilder {
            startup_threshold_ms: self.startup_threshold_ms,
            database_threshold_ms: self.database_threshold_ms,
            ipc_threshold_ms: self.ipc_threshold_ms,
            ai_request_threshold_ms: Some(ms),
        }
    }

    /// The configuration: each chosen threshold, and the default for the rest.
    pub fn build(self) -> (c: PerformanceConfig)
        ensures
            c.startup_threshold_ms == chosen_or(self.chosen().0, 1000),
            c.database_threshold_ms == chosen_or(self.chosen().1, 50),
            c.ipc_threshold_ms == chosen_or(self.chosen().2, 100),
            c.ai_request_threshold_ms == chosen_or(self.chosen().3, 2000),
    {
        let default = PerformanceConfig::new();
        PerformanceConfig {
            startup_threshold_ms: match self.startup_threshold_ms {
                Some(ms) => ms,
                None => default.startup_threshold_ms,
            },
            database_threshold_ms: match self.database_threshold_ms {
                Some(ms) => ms,
                None => default.database_threshold_ms,
            },
            ipc_threshold_ms: match self.ipc_threshold_ms {
                Some(ms) => ms,
                None => default.ipc_threshold_ms,
            },
            ai_request_threshold_ms: match self.ai_request_threshold_ms {
                Some(ms) => ms,
                None => default.ai_request_threshold_ms,
            },
        }
    }
}

/// The kinds of operation that have a threshold of their own.
#[derive(Debug, Clone, Copy, PartialEq, Eq, Structural)]
pub enum OperationKind {
    Startup,
    Database,
    Ipc,
    AiRequest,
}

/// The threshold in force for a kind: the configuration's, or the default.
pub open spec fn threshold_for(kind: OperationKind, config: Option<&PerformanceConfig>) -> u64 {
    match config {
        Some(c) => c.spec_threshold(kind),
        None => PerformanceConfig::spec_default().spec_threshold(kind),
    }
}

/// An operation is slow when it took longer than its threshold.
pub open spec fn is_slow(elapsed_ms: nat, threshold_ms: u64) -> bool {
    elapsed_ms > threshold_ms
}

/// The outcome of a monitored operation that did not succeed.
#[derive(Debug)]
pub enum MonitoringError<E> {
    /// The operation returned this error; it is carried unaltered.
    Operation(E),
    /// The operation faulted; the text is the fault's message.
    Panic(String),
    /// The operation ran out of time.
    Timeout(String),
}

/// Errors that can say what they are.
pub trait ErrorText {
    /// The characters of the error's text.
    spec fn spec_error_text(&self) -> Seq<char>;

    /// The text of the error.
    fn error_text(&self) -> (text: String)
        ensures
            text@ == self.spec_error_text(),
    ;
}

impl ErrorText for String {
    /// A string is its own text.
    open spec fn spec_error_text(&self) -> Seq<char> {
        self@
    }

    fn error_text(&self) -> (text: String) {
        self.clone()
    }
}

impl<'a> ErrorText for &'a str {
    /// A string slice is its own text.
    open spec fn spec_error_text(&self) -> Seq<char> {
        (*self)@
    }

    fn error_text(&self) -> (text: String) {
        String::from_str(*self)
    }
}

impl ErrorText for AppError {
    /// The technical text: the category's label, then the message.
    open spec fn spec_error_text(&self) -> Seq<char> {
        AppError::kind_label(self.spec_kind()) + self.spec_message()
    }

    fn error_text(&self) -> (text: String) {
        self.technical_message()
    }
}

impl<E: ErrorText> MonitoringError<E> {
    /// What the error prints as: the kind of failure, then the error's own
    /// text or the message.
    pub fn to_string(&self) -> (text: String)
        ensures
            match self {
                MonitoringError::Operation(e) => text@ == "Operation error: "@
                    + e.spec_error_text(),
                MonitoringError::Panic(message) => text@ == "Operation panicked: "@ + message@,
                MonitoringError::Timeout(message) => text@ == "Operation timed out: "@ + message@,
            },
    {
        match self {
            MonitoringError::Operation(e) => {
                let detail = e.error_text();
                join2("Operation error: ", detail.as_str())
            },
            MonitoringError::Panic(message) => join2("Operation panicked: ", message.as_str()),
            MonitoringError::Timeout(message) => join2("Operation timed out: ", message.as_str()),
        }
    }
}

/// How an alert is sent.
#[derive(Debug, Clone, Copy, PartialEq, Eq, Structural)]
pub enum AlertChannel {
    /// A breadcrumb: context attached to whatever is reported next.
    Breadcrumb,
    /// An event reported at once.
    Event,
}

/// The severity of an alert.
#[derive(Debug, Clone, Copy, PartialEq, Eq, Structural)]
pub enum AlertLevel {
    Info,
    Warning,
    Error,
}

/// Something to report about a monitored operation.
#[derive(Debug)]
pub struct Alert {
    pub channel: AlertChannel,
    pub level: AlertLevel,
    pub category: String,
    pub message: String,
    /// The tokens that a remote-AI call used, where that is known.
    pub tokens_used: Option<i32>,
}

/// The plain content of an [`Alert`].
pub struct AlertModel {
    pub channel: AlertChannel,
    pub level: AlertLevel,
    pub category: Seq<char>,
    pub message: Seq<char>,
    pub tokens_used: Option<i32>,
}

impl View for Alert {
    type V = AlertModel;

    open spec fn view(&self) -> AlertModel {
        AlertModel {
            channel: self.channel,
            level: self.level,
            category: self.category@,
            message: self.message@,
            tokens_used: self.tokens_used,
        }
    }
}

/// The plain content of each alert of a sequence.
pub open spec fn alert_models(alerts: Seq<Alert>) -> Seq<AlertModel> {
    Seq::new(alerts.len(), |i: int| alerts[i]@)
}

/// The word for a kind of operation in an alert's message.
pub open spec fn kind_phrase(kind: OperationKind) -> Seq<char> {
    match kind {
        OperationKind::Startup => "startup"@,
        OperationKind::Database => "database operation"@,
        OperationKind::Ipc => "IPC command"@,
        OperationKind::AiRequest => "AI request"@,
    }
}

/// The category of the breadcrumb that announces an operation.
pub open spec fn kind_category(kind: OperationKind) -> Seq<char> {
    match kind {
        OperationKind::Startup => "startup"@,
        OperationKind::Database => "database"@,
        OperationKind::Ipc => "ipc"@,
        OperationKind::AiRequest => "ai"@,
    }
}

/// The breadcrumb that announces an operation.
pub open spec fn started_alert(kind: OperationKind, label: Seq<char>) -> AlertModel {
    AlertModel {
        channel: AlertChannel::Breadcrumb,
        level: AlertLevel::Info,
        category: kind_category(kind),
        message: match kind {
            OperationKind::Startup => "Startup: "@ + label,
            OperationKind::Database => "Database operation: "@ + label,
            OperationKind::Ipc => "IPC command: "@ + label,
            OperationKind::AiRequest => "AI request to model: "@ + label,
        },
        tokens_used: None,
    }
}

/// The breadcrumb that reports a slow operation.
pub open spec fn slow_alert(kind: OperationKind, label: Seq<char>, elapsed_ms: nat) -> AlertModel {
    AlertModel {
        channel: AlertChannel::Breadcrumb,
        level: AlertLevel::Warning,
        category: "performance"@,
        message: "Slow "@ + kind_phrase(kind) + ": "@ + label + " ("@ + decimal_digits(elapsed_ms)
            + "ms)"@,
        tokens_used: None,
    }
}

/// The event that reports a fault inside an operation.
pub open spec fn fault_alert(kind: OperationKind, label: Seq<char>, fault: Seq<char>) -> AlertModel {
    AlertModel {
        channel: AlertChannel::Event,
        level: AlertLevel::Error,
        category: Seq::empty(),
        message: match kind {
            OperationKind::Startup => "Startup panicked: "@ + label + " - "@ + fault,
            OperationKind::Database => "Database operation panicked: "@ + label + " - "@ + fault,
            OperationKind::Ipc => "IPC command panicked: "@ + label + " - "@ + fault,
            OperationKind::AiRequest => "AI request panicked: "@ + label + " - "@ + fault,
        },
        tokens_used: None,
    }
}

/// The event that reports a failed operation.
pub open spec fn failed_alert(kind: OperationKind, label: Seq<char>, detail: Seq<char>) -> AlertModel {
    AlertModel {
        channel: AlertChannel::Event,
        level: AlertLevel::Error,
        category: Seq::empty(),
        message: match kind {
            OperationKind::Startup => "Startup failed: "@ + label + " - "@ + detail,
            OperationKind::Database => "Database operation failed: "@ + label + " - "@ + detail,
            OperationKind::Ipc => "IPC command failed: "@ + label + " - "@ + detail,
            OperationKind::AiRequest => "AI request failed: "@ + label + " - "@ + detail,
        },
        tokens_used: None,
    }
}

/// The event that reports a slow startup.
pub open spec fn slow_startup_alert(elapsed_ms: nat) -> AlertModel {
    AlertModel {
        channel: AlertChannel::Event,
        level: AlertLevel::Error,
        category: Seq::empty(),
        message: "Slow startup: "@ + decimal_digits(elapsed_ms)
            + "ms - VoidCat RDC Performance Alert"@,
        tokens_used: None,
    }
}

/// What is reported about an operation that ran to its end: that it
/// started, and that it was slow if it took longer than the threshold.
pub open spec fn operation_alerts(
    kind: OperationKind,
    label: Seq<char>,
    elapsed_ms: nat,
    threshold_ms: u64,
) -> Seq<AlertModel> {
    if is_slow(elapsed_ms, threshold_ms) {
        seq![started_alert(kind, label), slow_alert(kind, label, elapsed_ms)]
    } else {
        seq![started_alert(kind, label)]
    }
}

/// What is reported about the startup: nothing if it was fast enough, an
/// event if it was slow.
pub open spec fn startup_alerts(elapsed_ms: nat, threshold_ms: u64) -> Seq<AlertModel> {
    if is_slow(elapsed_ms, threshold_ms) {
        seq![slow_startup_alert(elapsed_ms)]
    } else {
        Seq::empty()
    }
}

/// What is reported about a cross-process command: the alerts of the
/// operation, and after them an error event with the error's text if the
/// command returned an error.
pub open spec fn command_alerts<T, E: ErrorText>(
    command: Seq<char>,
    elapsed_ms: nat,
    threshold_ms: u64,
    result: Result<T, MonitoringError<E>>,
) -> Seq<AlertModel> {
    match result {
        Err(MonitoringError::Operation(e)) => operation_alerts(
            OperationKind::Ipc,
            command,
            elapsed_ms,
            threshold_ms,
        ).push(
            failed_alert(OperationKind::Ipc, command, "Operation error: "@ + e.spec_error_text()),
        ),
        _ => operation_alerts(OperationKind::Ipc, command, elapsed_ms, threshold_ms),
    }
}

/// The result of a monitored thunk: a value passes through unchanged, an
/// error is wrapped and not altered.
pub open spec fn wrapped<T, E>(thunk_result: Result<T, E>) -> Result<T, MonitoringError<E>> {
    match thunk_result {
        Ok(value) => Ok(value),
        Err(error) => Err(MonitoringError::Operation(error)),
    }
}

/// `out` is a value that the thunk `f` can return.
pub open spec fn thunk_returns<T, E, F: FnOnce() -> Result<T, E>>(f: F, out: Result<T, E>) -> bool {
    call_ensures(f, (), out)
}

/// A monitored operation: its result, how long it took, and what to report.
pub struct Monitored<T, E> {
    pub result: Result<T, MonitoringError<E>>,
    pub elapsed_ms: u128,
    pub alerts: Vec<Alert>,
}

/// Entry points of performance monitoring.
pub struct PerformanceMonitor;

fn kind_category_text(kind: OperationKind) -> (text: &'static str)
    ensures
        text@ == kind_category(kind),
{
    match kind {
        OperationKind::Startup => "startup",
        OperationKind::Database => "database",
        OperationKind::Ipc => "ipc",
        OperationKind::AiRequest => "ai",
    }
}

fn started(kind: OperationKind, label: &str) -> (alert: Alert)
    ensures
        alert@ == started_alert(kind, label@),
{
    let message = match kind {
        OperationKind::Startup => join2("Startup: ", label),
        OperationKind::Database => join2("Database operation: ", label),
        OperationKind::Ipc => join2("IPC command: ", label),
        OperationKind::AiRequest => join2("AI request to model: ", label),
    };
    Alert {
        channel: AlertChannel::Breadcrumb,
        level: AlertLevel::Info,
        category: String::from_str(kind_category_text(kind)),
        message,
        tokens_used: None,
    }
}

fn slow(kind: OperationKind, label: &str, elapsed_ms: u128) -> (alert: Alert)
    ensures
        alert@ == slow_alert(kind, label@, elapsed_ms as nat),
{
    let phrase = match kind {
        OperationKind::Startup => "startup",
        OperationKind::Database => "database operation",
        OperationKind::Ipc => "IPC command",
        OperationKind::AiRequest => "AI request",
    };
    let mut message = join3("Slow ", phrase, ": ");
    push_text(&mut message, label);
    push_text(&mut message, " (");
    push_decimal(&mut message, elapsed_ms);
    push_text(&mut message, "ms)");
    Alert {
        channel: AlertChannel::Breadcrumb,
        level: AlertLevel::Warning,
        category: String::from_str("performance"),
        message,
        tokens_used: None,
    }
}

fn failed(kind: OperationKind, label: &str, detail: &str) -> (alert: Alert)
    ensures
        alert@ == failed_alert(kind, label@, detail@),
{
    let mut message = match kind {
        OperationKind::Startup => join3("Startup failed: ", label, " - "),
        OperationKind::Database => join3("Database operation failed: ", label, " - "),
        OperationKind::Ipc => join3("IPC command failed: ", label, " - "),
        OperationKind::AiRequest => join3("AI request failed: ", label, " - "),
    };
    push_text(&mut message, detail);
    Alert {
        channel: AlertChannel::Event,
        level: AlertLevel::Error,
        category: String::new(),
        message,
        tokens_used: None,
    }
}

fn faulted(kind: OperationKind, label: &str, fault: &str) -> (alert: Alert)
    ensures
        alert@ == fault_alert(kind, label@, fault@),
{
    let mut message = match kind {
        OperationKind::Startup => join3("Startup panicked: ", label, " - "),
        OperationKind::Database => join3("Database operation panicked: ", label, " - "),
        OperationKind::Ipc => join3("IPC command panicked: ", label, " - "),
        OperationKind::AiRequest => join3("AI request panicked: ", label, " - "),
    };
    push_text(&mut message, fault);
    Alert {
        channel: AlertChannel::Event,
        level: AlertLevel::Error,
        category: String::new(),
        message,
        tokens_used: None,
    }
}

impl PerformanceMonitor {
    /// The threshold in force for a kind of operation.
    pub fn threshold(kind: OperationKind, config: Option<&PerformanceConfig>) -> (ms: u64)
        ensures
            ms == threshold_for(kind, config),
    {
        match config {
            Some(c) => c.threshold(kind),
            None => PerformanceConfig::new().threshold(kind),
        }
    }

    /// Starts timing the startup.
    pub fn start_startup_tracking() -> (start: std::time::Instant) {
        now()
    }

    /// What to report about a startup that took `elapsed_ms`.
    pub fn startup_report(elapsed_ms: u128, config: Option<&PerformanceConfig>) -> (alerts: Vec<
        Alert,
    >)
        ensures
            alert_models(alerts@) == startup_alerts(
                elapsed_ms as nat,
                threshold_for(OperationKind::Startup, config),
            ),
    {
        let threshold = Self::threshold(OperationKind::Startup, config);
        let mut alerts: Vec<Alert> = Vec::new();
        if elapsed_ms > threshold as u128 {
            let mut message = String::from_str("Slow startup: ");
            push_decimal(&mut message, elapsed_ms);
            push_text(&mut message, "ms - VoidCat RDC Performance Alert");
            alerts.push(
                Alert {
                    channel: AlertChannel::Event,
                    level: AlertLevel::Error,
                    category: String::new(),
                    message,
                    tokens_used: None,
                },
            );
        }
        assert(alert_models(alerts@) =~= startup_alerts(
            elapsed_ms as nat,
            threshold_for(OperationKind::Startup, config),
        ));
        alerts
    }

    /// Ends timing the startup and says what to report: an event if the
    /// startup was slow, nothing otherwise.
    pub fn finish_startup_tracking(
        start_time: std::time::Instant,
        config: Option<&PerformanceConfig>,
    ) -> (alerts: Vec<Alert>)
        ensures
            exists|elapsed_ms: nat|
                alert_models(alerts@) == #[trigger] startup_alerts(
                    elapsed_ms,
                    threshold_for(OperationKind::Startup, config),
                ),
    {
        let elapsed_ms = nanos_to_millis(nanos_since(&start_time));
        Self::startup_report(elapsed_ms, config)
    }

    /// What to report about an operation that ran to its end in `elapsed_ms`.
    pub fn operation_report(
        kind: OperationKind,
        label: &str,
        elapsed_ms: u128,
        config: Option<&PerformanceConfig>,
    ) -> (alerts: Vec<Alert>)
        ensures
            alert_models(alerts@) == operation_alerts(
                kind,
                label@,
                elapsed_ms as nat,
                threshold_for(kind, config),
            ),
    {
        let threshold = Self::threshold(kind, config);
        let mut alerts: Vec<Alert> = Vec::new();
        alerts.push(started(kind, label));
        if elapsed_ms > threshold as u128 {
            alerts.push(slow(kind, label, elapsed_ms));
        }
        assert(alert_models(alerts@) =~= operation_alerts(
            kind,
            label@,
            elapsed_ms as nat,
            threshold_for(kind, config),
        ));
        alerts
    }

    /// Runs a database operation and times it.
    ///
    /// A value of the thunk passes through unchanged and an error of the
    /// thunk is wrapped unaltered. The alerts announce the operation and
    /// report it as slow if it took longer than the threshold of database
    /// operations (50 ms unless configured).
    pub fn track_database_operation<F, T, E>(
        operation: &str,
        f: F,
        config: Option<&PerformanceConfig>,
    ) -> (outcome: Monitored<T, E>) where F: FnOnce() -> Result<T, E>
        requires
            call_requires(f, ()),
        ensures
            exists|out: Result<T, E>| #[trigger]
                thunk_returns(f, out) && outcome.result == wrapped(out),
            alert_models(outcome.alerts@) == operation_alerts(
                OperationKind::Database,
                operation@,
                outcome.elapsed_ms as nat,
                threshold_for(OperationKind::Database, config),
            ),
    {
        let start = now();
        let out = f();
        let elapsed_ms = nanos_to_millis(nanos_since(&start));
        assert(thunk_returns(f, out));
        let result = match out {
            Ok(value) => Ok(value),
            Err(error) => Err(MonitoringError::Operation(error)),
        };
        Monitored {
            result,
            elapsed_ms,
            alerts: Self::operation_report(OperationKind::Database, operation, elapsed_ms, config),
        }
    }

    /// Runs a cross-process command and times it.
    ///
    /// A value of the thunk passes through unchanged and an error of the
    /// thunk is wrapped unaltered. The alerts announce the command, report
    /// it as slow if it took longer than the threshold of cross-process
    /// calls (100 ms unless configured), and end with an error event if the
    /// command failed.
    pub fn track_ipc_command<F, T, E>(command: &str, f: F, config: Option<&PerformanceConfig>) -> (outcome:
        Monitored<T, E>) where F: FnOnce() -> Result<T, E>, E: ErrorText
        requires
            call_requires(f, ()),
        ensures
            exists|out: Result<T, E>| #[trigger]
                thunk_returns(f, out) && outcome.result == wrapped(out),
            alert_models(outcome.alerts@) == command_alerts(
                command@,
                outcome.elapsed_ms as nat,
                threshold_for(OperationKind::Ipc, config),
                outcome.result,
            ),
    {
        let start = now();
        let out = f();
        let elapsed_ms = nanos_to_millis(nanos_since(&start));
        assert(thunk_returns(f, out));
        let mut alerts = Self::operation_report(OperationKind::Ipc, command, elapsed_ms, config);
        let result = match out {
            Ok(value) => Ok(value),
            Err(error) => {
                let detail = error.error_text();
                let text = join2("Operation error: ", detail.as_str());
                let ghost before = alert_models(alerts@);
                let alert = failed(OperationKind::Ipc, command, text.as_str());
                alerts.push(alert);
                assert(alert_models(alerts@) =~= before.push(
                    failed_alert(
                        OperationKind::Ipc,
                        command@,
                        "Operation error: "@ + error.spec_error_text(),
                    ),
                ));
                Err(MonitoringError::Operation(error))
            },
        };
        Monitored { result, elapsed_ms, alerts }
    }

    /// Says what to report about a finished remote-AI call: the breadcrumb
    /// that names the model and the tokens used, and an error event if the
    /// call failed.
    pub fn track_ai_request<E: ErrorText>(
        model: &str,
        tokens_used: Option<i32>,
        status: Result<(), E>,
    ) -> (alerts: Vec<Alert>)
        ensures
            alerts@.len() == if status is Ok {
                1nat
            } else {
                2nat
            },
            alerts@[0]@ == (AlertModel {
                tokens_used,
                ..started_alert(OperationKind::AiRequest, model@)
            }),
            status matches Err(e) ==> alerts@[1]@ == failed_alert(
                OperationKind::AiRequest,
                model@,
                e.spec_error_text(),
            ),
    {
        let mut announce = started(OperationKind::AiRequest, model);
        announce.tokens_used = tokens_used;
        let mut alerts: Vec<Alert> = Vec::new();
        alerts.push(announce);
        match status {
            Ok(_) => {},
            Err(error) => {
                let detail = error.error_text();
                alerts.push(failed(OperationKind::AiRequest, model, detail.as_str()));
            },
        }
        alerts
    }

    /// The outcome of an operation whose thunk faulted after `elapsed_ms`:
    /// the fault as an error, and the alerts of the operation followed by an
    /// error event that carries the fault's message.
    pub fn fault<T, E>(
        kind: OperationKind,
        label: &str,
        fault_message: String,
        elapsed_ms: u128,
        config: Option<&PerformanceConfig>,
    ) -> (outcome: Monitored<T, E>)
        ensures
            outcome.result matches Err(MonitoringError::Panic(message)) && message@
                == fault_message@,
            outcome.elapsed_ms == elapsed_ms,
            alert_models(outcome.alerts@) == operation_alerts(
                kind,
                label@,
                elapsed_ms as nat,
                threshold_for(kind, config),
            ).push(fault_alert(kind, label@, fault_message@)),
    {
        let mut alerts = Self::operation_report(kind, label, elapsed_ms, config);
        let ghost before = alert_models(alerts@);
        alerts.push(faulted(kind, label, fault_message.as_str()));
        assert(alert_models(alerts@) =~= before.push(fault_alert(kind, label@, fault_message@)));
        Monitored { result: Err(MonitoringError::Panic(fault_message)), elapsed_ms, alerts }
    }
}

} // verus!
