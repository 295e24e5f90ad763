//! Runtime configuration consumed read-only by the monitoring core.
//!
//! Loading and saving the on-disk JSON representation is an outside concern;
//! the core only reads these plain values.

use vstd::prelude::*;

verus! {

/// Monitoring thresholds and intervals. `cpu_threshold_centi` is in
/// hundredths of a percent (8000 = 80.00%); intervals are in seconds.
pub struct MonitoringConfig {
    pub cpu_threshold_centi: u64,
    pub check_interval: u64,
    pub docker_stats_timeout: u64,
}

/// Mail transport settings. Empty sender, credential or recipient strings
/// stand for "not configured".
pub struct EmailConfig {
    pub enabled: bool,
    pub smtp_server: String,
    pub smtp_port: u16,
    pub sender_email: String,
    pub sender_password: String,
    pub recipient_email: String,
}

/// Logging settings, consumed by the logging collaborator only.
pub struct LoggingConfig {
    pub level: String,
    pub file: String,
    pub max_size_mb: u32,
    pub backup_count: u32,
}

pub struct Config {
    pub monitoring: MonitoringConfig,
    pub email: EmailConfig,
    pub logging: LoggingConfig,
}

impl Clone for MonitoringConfig {
    fn clone(&self) -> (r: Self)
        ensures
            r == *self,
    {
        MonitoringConfig {
            cpu_threshold_centi: self.cpu_threshold_centi,
            check_interval: self.check_interval,
            docker_stats_timeout: self.docker_stats_timeout,
        }
    }
}

impl Clone for EmailConfig {
    fn clone(&self) -> (r: Self)
        ensures
            r == *self,
    {
        EmailConfig {
            enabled: self.enabled,
            smtp_server: self.smtp_server.clone(),
            smtp_port: self.smtp_port,
            sender_email: self.sender_email.clone(),
            sender_password: self.sender_password.clone(),
            recipient_email: self.recipient_email.clone(),
        }
    }
}

impl Clone for LoggingConfig {
    fn clone(&self) -> (r: Self)
        ensures
            r == *self,
    {
        LoggingConfig {
            level: self.level.clone(),
            file: self.file.clone(),
            max_size_mb: self.max_size_mb,
            backup_count: self.backup_count,
        }
    }
}

impl Clone for Config {
    fn clone(&self) -> (r: Self)
        ensures
            r == *self,
    {
        Config {
            monitoring: self.monitoring.clone(),
            email: self.email.clone(),
            logging: self.logging.clone(),
        }
    }
}

impl Default for Config {
    /// Built-in defaults used whenever no configuration file can be read:
    /// 80.00% CPU threshold, 300 s interval, mail disabled.
    fn default() -> (c: Self)
        ensures
            c.monitoring.cpu_threshold_centi == 8000,
            c.monitoring.check_interval == 300,
            c.monitoring.docker_stats_timeout == 10,
            !c.email.enabled,
            c.email.smtp_server@ == "smtp.gmail.com"@,
            c.email.smtp_port == 587,
            c.email.sender_email@ == Seq::<char>::empty(),
            c.email.sender_password@ == Seq::<char>::empty(),
            c.email.recipient_email@ == Seq::<char>::empty(),
            c.logging.level@ == "INFO"@,
            c.logging.file@ == "monitoring.log"@,
            c.logging.max_size_mb == 10,
            c.logging.backup_count == 5,
    {
        Config {
            monitoring: MonitoringConfig {
                cpu_threshold_centi: 8000,
                check_interval: 300,
                docker_stats_timeout: 10,
            },
            email: EmailConfig {
                enabled: false,
                smtp_server: String::from_str("smtp.gmail.com"),
                smtp_port: 587,
                sender_email: String::new(),
                sender_password: String::new(),
                recipient_email: String::new(),
            },
            logging: LoggingConfig {
                level: String::from_str("INFO"),
                file: String::from_str("monitoring.log"),
                max_size_mb: 10,
                backup_count: 5,
            },
        }
    }
}

} // verus!
