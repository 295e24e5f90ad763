use performance_monitor::config::{Config, EmailConfig, LoggingConfig, MonitoringConfig};
use performance_monitor::docker_monitor::{
    ContainerEnumeration, ContainerObservation, ContainerStats, DockerInfoReadings, DockerMonitor,
    StatsSample,
};
use performance_monitor::email_notifier::EmailNotifier;
use performance_monitor::monitor::{verdict_line, PerformanceMonitor};
use performance_monitor::numfmt::{centi_to_string, percent_centi, u64_to_string};
use performance_monitor::server_monitor::{DiskReading, HostReadings, ServerMonitor, ServerStats};

fn test_config(threshold_centi: u64, email_enabled: bool) -> Config {
    Config {
        monitoring: MonitoringConfig {
            cpu_threshold_centi: threshold_centi,
            check_interval: 300,
            docker_stats_timeout: 10,
        },
        email: EmailConfig {
            enabled: email_enabled,
            smtp_server: String::from("smtp.example.com"),
            smtp_port: 587,
            sender_email: String::from("sender@example.com"),
            sender_password: String::from("secret"),
            recipient_email: String::from("ops@example.com"),
        },
        logging: LoggingConfig {
            level: String::from("INFO"),
            file: String::from("monitoring.log"),
            max_size_mb: 10,
            backup_count: 5,
        },
    }
}

fn container(name: &str, cpu_centi: u64) -> ContainerStats {
    ContainerStats {
        id: String::from("0123456789ab"),
        name: String::from(name),
        image: String::from("img"),
        status: String::from("running"),
        cpu_usage_centi: cpu_centi,
        memory_usage: 100,
        memory_limit: 1000,
        memory_percent_centi: 1000,
        ports: Vec::new(),
        timestamp: String::from("2024-01-01 00:00:00"),
    }
}

fn observation(id: &str, name: &str, cpu_centi: u64) -> ContainerObservation {
    ContainerObservation {
        id: Some(String::from(id)),
        names: vec![format!("/{}", name)],
        image: Some(String::from("img")),
        status: Some(String::from("running")),
        sample: Some(StatsSample {
            cpu_usage_centi: cpu_centi,
            memory_usage: 100,
            memory_limit: 1000,
        }),
    }
}

#[test]
fn default_config_values() {
    let c = Config::default();
    assert_eq!(c.monitoring.cpu_threshold_centi, 8000);
    assert_eq!(c.monitoring.check_interval, 300);
    assert_eq!(c.monitoring.docker_stats_timeout, 10);
    assert!(!c.email.enabled);
    assert_eq!(c.email.smtp_server, "smtp.gmail.com");
    assert_eq!(c.email.smtp_port, 587);
    assert_eq!(c.email.sender_email, "");
    assert_eq!(c.logging.level, "INFO");
    assert_eq!(c.logging.file, "monitoring.log");
    assert_eq!(c.logging.max_size_mb, 10);
    assert_eq!(c.logging.backup_count, 5);
}

#[test]
fn host_threshold_is_strict() {
    let monitor = ServerMonitor::new(test_config(8000, false));
    let (high, cpu) = monitor.check_cpu_threshold(8000);
    assert!(!high);
    assert_eq!(cpu, 8000);
    let (high, cpu) = monitor.check_cpu_threshold(8001);
    assert!(high);
    assert_eq!(cpu, 8001);
    let (high, _) = monitor.check_cpu_threshold(7999);
    assert!(!high);
}

#[test]
fn container_threshold_is_strict() {
    let monitor = DockerMonitor::new(test_config(8000, false));
    let set = vec![container("a", 5000), container("b", 5001)];
    let (high, subset) = monitor.check_container_cpu_threshold(&set, 5000);
    assert!(high);
    assert_eq!(subset.len(), 1);
    assert_eq!(subset[0].name, "b");
    let (high, subset) = monitor.check_container_cpu_threshold(&set, 5001);
    assert!(!high);
    assert!(subset.is_empty());
}

#[test]
fn container_set_sorted_descending_and_stable() {
    let monitor = DockerMonitor::new(test_config(8000, false));
    let observations = vec![
        observation("aaaaaaaaaaaa", "first-tie", 7550),
        observation("bbbbbbbbbbbb", "low", 3000),
        observation("cccccccccccc", "second-tie", 7550),
        observation("dddddddddddd", "mid", 5000),
    ];
    let stats = monitor.get_container_stats(observations);
    let cpus: Vec<u64> = stats.iter().map(|c| c.cpu_usage_centi).collect();
    assert_eq!(cpus, vec![7550, 7550, 5000, 3000]);
    // equal values keep their listing order
    assert_eq!(stats[0].name, "first-tie");
    assert_eq!(stats[1].name, "second-tie");
}

#[test]
fn snapshot_id_truncated_name_stripped_defaults_filled() {
    let monitor = DockerMonitor::new(test_config(8000, false));
    let mut obs = observation("0123456789abcdef", "web", 0);
    obs.image = None;
    let stats = monitor.get_container_stats(vec![obs]);
    assert_eq!(stats.len(), 1);
    assert_eq!(stats[0].id, "0123456789ab");
    assert_eq!(stats[0].name, "web");
    assert_eq!(stats[0].image, "unknown");
}

#[test]
fn snapshot_short_id_and_nameless_container() {
    let monitor = DockerMonitor::new(test_config(8000, false));
    let mut obs = observation("abc", "ignored", 0);
    obs.names = Vec::new();
    let stats = monitor.get_container_stats(vec![obs]);
    assert_eq!(stats[0].id, "abc");
    assert_eq!(stats[0].name, "unknown");
}

#[test]
fn snapshot_name_without_separator_kept() {
    let monitor = DockerMonitor::new(test_config(8000, false));
    let mut obs = observation("abcabcabcabc", "x", 0);
    obs.names = vec![String::from("plain-name")];
    let stats = monitor.get_container_stats(vec![obs]);
    assert_eq!(stats[0].name, "plain-name");
}

#[test]
fn snapshot_skips_idless_and_degrades_missing_sample() {
    let monitor = DockerMonitor::new(test_config(8000, false));
    let mut no_id = observation("x", "ghost", 9000);
    no_id.id = None;
    let mut no_sample = observation("eeeeeeeeeeee", "quiet", 0);
    no_sample.sample = None;
    let stats = monitor.get_container_stats(vec![no_id, no_sample]);
    assert_eq!(stats.len(), 1);
    assert_eq!(stats[0].name, "quiet");
    assert_eq!(stats[0].cpu_usage_centi, 0);
    assert_eq!(stats[0].memory_usage, 0);
    assert_eq!(stats[0].memory_percent_centi, 0);
}

#[test]
fn memory_percent_zero_when_limit_zero() {
    // the division-by-zero guard, for several usage values
    for usage in [0u64, 1, 1000, u64::MAX] {
        assert_eq!(percent_centi(usage, 0), 0);
    }
    let monitor = DockerMonitor::new(test_config(8000, false));
    let mut obs = observation("ffffffffffff", "limitless", 100);
    obs.sample = Some(StatsSample {
        cpu_usage_centi: 100,
        memory_usage: 123456,
        memory_limit: 0,
    });
    let stats = monitor.get_container_stats(vec![obs]);
    assert_eq!(stats[0].memory_percent_centi, 0);
}

#[test]
fn memory_percent_exact() {
    assert_eq!(percent_centi(250, 1000), 2500); // 25.00%
    assert_eq!(percent_centi(1, 3), 3333); // 33.33%
    assert_eq!(percent_centi(1000, 1000), 10000); // 100.00%
}

#[test]
fn top_cpu_containers_truncates() {
    let monitor = DockerMonitor::new(test_config(8000, false));
    let observations = vec![
        observation("aaaaaaaaaaaa", "a", 100),
        observation("bbbbbbbbbbbb", "b", 300),
        observation("cccccccccccc", "c", 200),
    ];
    let top = monitor.get_top_cpu_containers(observations, 2);
    assert_eq!(top.len(), 2);
    assert_eq!(top[0].cpu_usage_centi, 300);
    assert_eq!(top[1].cpu_usage_centi, 200);
}

#[test]
fn strip_html_tags_scenario() {
    let notifier = EmailNotifier::new(test_config(8000, true));
    assert_eq!(notifier.strip_html_tags("<b>x</b>\n\n<i>y</i>"), "x\ny");
}

#[test]
fn strip_html_tags_plain_identity() {
    let notifier = EmailNotifier::new(test_config(8000, true));
    assert_eq!(notifier.strip_html_tags("x\ny"), "x\ny");
    assert_eq!(notifier.strip_html_tags("  x  \n\n y "), "x\ny");
}

#[test]
fn disabled_notifier_never_dispatches() {
    // flag off
    let n = EmailNotifier::new(test_config(8000, false));
    assert!(!n.enabled);
    assert!(n.send_alert("s", "<p>m</p>").is_none());
    assert!(n.send_test_email().is_none());
    // flag on, but a credential field empty: each missing field forces off
    for field in ["sender", "password", "recipient"] {
        let mut c = test_config(8000, true);
        match field {
            "sender" => c.email.sender_email = String::new(),
            "password" => c.email.sender_password = String::new(),
            _ => c.email.recipient_email = String::new(),
        }
        let n = EmailNotifier::new(c);
        assert!(!n.enabled);
        assert!(n.send_alert("subject", "<p>body</p>").is_none());
        assert!(n.send_cpu_alert(9000, &Vec::new()).is_none());
        assert!(n.send_container_cpu_alert(&Vec::new()).is_none());
    }
}

#[test]
fn enabled_notifier_builds_message() {
    let n = EmailNotifier::new(test_config(8000, true));
    assert!(n.enabled);
    let m = n.send_alert("subject", "<p>hello</p>").expect("enabled notifier dispatches");
    assert_eq!(m.smtp_server, "smtp.example.com");
    assert_eq!(m.smtp_port, 587);
    assert_eq!(m.sender_email, "sender@example.com");
    assert_eq!(m.recipient_email, "ops@example.com");
    assert_eq!(m.subject, "subject");
    assert_eq!(m.html_body, "<p>hello</p>");
    assert_eq!(m.plain_body, "hello");
}

#[test]
fn empty_container_list_alert_names_no_containers() {
    let n = EmailNotifier::new(test_config(8000, true));
    let m = n.send_cpu_alert(8500, &Vec::new()).expect("enabled notifier dispatches");
    assert!(m
        .html_body
        .contains("<p>No specific containers with high CPU usage detected.</p>"));
    assert!(!m.html_body.contains("<table"));
    let m = n.send_container_cpu_alert(&Vec::new()).expect("enabled notifier dispatches");
    assert!(m
        .html_body
        .contains("<p>No specific containers with high CPU usage detected.</p>"));
}

#[test]
fn alert_table_renders_exact_percentages() {
    let n = EmailNotifier::new(test_config(8000, true));
    let t = n.format_container_table(&vec![container("busy", 7550)]);
    assert!(t.contains("<td style='padding: 8px;'>busy</td>"));
    assert!(t.contains("75.50%"));
    assert!(t.contains("10.00%"));
    assert!(t.starts_with("<table"));
    assert!(t.ends_with("</table>"));
    let d = n.format_detailed_container_table(&vec![container("busy", 7550)]);
    assert!(d.contains("<td style='padding: 8px;'>running</td>"));
}

#[test]
fn cycle_high_host_cpu_triggers_and_alerts() {
    // threshold 80.00%, host at 85.00%
    let m = PerformanceMonitor::new(test_config(8000, true));
    let outcome = m.run_monitoring(8500, &ContainerEnumeration::Listed(Vec::new()));
    assert!(outcome.server_triggered);
    assert!(outcome.any_triggered);
    assert_eq!(outcome.server_cpu_centi, 8500);
    let alert = outcome.server_alert.expect("one alert dispatched");
    assert!(alert.subject.contains("HIGH CPU USAGE ALERT"));
    assert!(outcome.container_alert.is_none());
}

#[test]
fn cycle_cpu_exactly_at_threshold_does_not_trigger() {
    // host exactly at 80.00%: the boundary is exclusive
    let m = PerformanceMonitor::new(test_config(8000, true));
    let outcome = m.run_monitoring(8000, &ContainerEnumeration::Listed(Vec::new()));
    assert!(!outcome.server_triggered);
    assert!(!outcome.any_triggered);
    assert!(outcome.server_alert.is_none());
    assert!(outcome.container_alert.is_none());
}

#[test]
fn cycle_survives_enumeration_failure() {
    // the runtime fails mid-cycle: the cycle completes, the container side
    // reports nothing, the host evaluation is unaffected
    let m = PerformanceMonitor::new(test_config(8000, true));
    let outcome = m.run_monitoring(8500, &ContainerEnumeration::Unavailable);
    assert!(!outcome.container_triggered);
    assert!(outcome.high_cpu_containers.is_empty());
    assert!(outcome.container_alert.is_none());
    assert!(outcome.server_triggered);
    assert!(outcome.any_triggered);
}

#[test]
fn cycle_high_cpu_subset_in_order() {
    // containers at 30.00% and 75.50%, threshold 50.00%
    let m = PerformanceMonitor::new(test_config(5000, true));
    let dm = DockerMonitor::new(test_config(5000, false));
    let set = dm.get_container_stats(vec![
        observation("aaaaaaaaaaaa", "calm", 3000),
        observation("bbbbbbbbbbbb", "busy", 7550),
    ]);
    let outcome = m.run_monitoring(0, &ContainerEnumeration::Listed(set));
    assert!(outcome.container_triggered);
    assert_eq!(outcome.high_cpu_containers.len(), 1);
    assert_eq!(outcome.high_cpu_containers[0].cpu_usage_centi, 7550);
    assert!(!outcome.server_triggered);
    assert!(outcome.any_triggered);
    let alert = outcome.container_alert.expect("container alert dispatched");
    assert!(alert.subject.contains("HIGH CONTAINER CPU ALERT"));
}

#[test]
fn host_alert_embeds_secondary_filter_subset() {
    // host triggers; alongside it only containers above the fixed 50% filter
    let m = PerformanceMonitor::new(test_config(8000, true));
    let dm = DockerMonitor::new(test_config(8000, false));
    let set = dm.get_container_stats(vec![
        observation("aaaaaaaaaaaa", "calm", 3000),
        observation("bbbbbbbbbbbb", "busy", 6000),
    ]);
    let outcome = m.run_monitoring(9000, &ContainerEnumeration::Listed(set));
    let alert = outcome.server_alert.expect("host alert dispatched");
    assert!(alert.html_body.contains("busy"));
    assert!(!alert.html_body.contains("calm"));
    // 60% does not exceed the primary 80% threshold: no container alert
    assert!(!outcome.container_triggered);
}

#[test]
fn number_rendering_exact() {
    assert_eq!(u64_to_string(0), "0");
    assert_eq!(u64_to_string(42), "42");
    assert_eq!(u64_to_string(10000), "10000");
    assert_eq!(centi_to_string(7550), "75.50");
    assert_eq!(centi_to_string(5), "0.05");
    assert_eq!(centi_to_string(10000), "100.00");
    assert_eq!(centi_to_string(80), "0.80");
}

#[test]
fn load_average_parsing() {
    let monitor = ServerMonitor::new(test_config(8000, false));
    let l = monitor.get_load_average(Some("0.52 0.58 0.59 1/123 4567"));
    assert_eq!(l.one_min_centi, 52);
    assert_eq!(l.five_min_centi, 58);
    assert_eq!(l.fifteen_min_centi, 59);
    // integer tokens and long fractions
    let l = monitor.get_load_average(Some("2 1.5 3.14159"));
    assert_eq!(l.one_min_centi, 200);
    assert_eq!(l.five_min_centi, 150);
    assert_eq!(l.fifteen_min_centi, 314);
    // malformed tokens fall back to zero, independently
    let l = monitor.get_load_average(Some("abc 1.25 ."));
    assert_eq!(l.one_min_centi, 0);
    assert_eq!(l.five_min_centi, 125);
    assert_eq!(l.fifteen_min_centi, 0);
    // too few fields: all zeroes
    let l = monitor.get_load_average(Some("0.52 0.58"));
    assert_eq!(l.one_min_centi, 0);
    assert_eq!(l.fifteen_min_centi, 0);
    // no line at all: all zeroes
    let l = monitor.get_load_average(None);
    assert_eq!(l.one_min_centi, 0);
}

#[test]
fn memory_and_disk_stats() {
    let monitor = ServerMonitor::new(test_config(8000, false));
    let mem = monitor.get_memory_usage(1000, 250, 750);
    assert_eq!(mem.percent_centi, 2500);
    assert_eq!(mem.total, 1000);
    let disk = monitor.get_disk_usage(Some(DiskReading { total: 2000, available: 500 }));
    assert_eq!(disk.used, 1500);
    assert_eq!(disk.percent_centi, 7500);
    let none = monitor.get_disk_usage(None);
    assert_eq!(none.total, 0);
    assert_eq!(none.percent_centi, 0);
}

#[test]
fn docker_system_info_defaults() {
    let monitor = DockerMonitor::new(test_config(8000, false));
    let info = monitor.get_docker_system_info(DockerInfoReadings {
        version: Some(String::from("24.0")),
        api_version: None,
        containers: Some(7),
        containers_running: None,
        containers_paused: None,
        containers_stopped: Some(2),
        images: None,
        server_version: None,
        memory_total: Some(1024),
        cpu_count: Some(8),
    });
    assert_eq!(info.version, "24.0");
    assert_eq!(info.api_version, "unknown");
    assert_eq!(info.containers, 7);
    assert_eq!(info.containers_running, 0);
    assert_eq!(info.containers_stopped, 2);
    assert_eq!(info.server_version, "unknown");
    assert_eq!(info.memory_total, 1024);
    assert_eq!(info.cpu_count, 8);
}

#[test]
fn verdict_lines() {
    assert_eq!(
        verdict_line(true),
        "⚠️  High CPU usage detected! Check your email for alerts."
    );
    assert_eq!(verdict_line(false), "✅ All systems normal.");
}

#[test]
fn status_report_layout() {
    let m = PerformanceMonitor::new(test_config(8000, false));
    let sm = ServerMonitor::new(test_config(8000, false));
    let dm = DockerMonitor::new(test_config(8000, false));
    let server: ServerStats = {
        sm.get_full_stats(HostReadings {
            cpu_usage_centi: 1234,
            memory_total: 1000,
            memory_used: 500,
            memory_available: 500,
            disk: Some(DiskReading { total: 100, available: 75 }),
            loadavg: Some(String::from("0.10 0.20 0.30")),
            hostname: Some(String::from("host1")),
            os: None,
            kernel: None,
            cpu_count: 4,
            cpu_brand: None,
            total_memory: 1000,
            boot_time: 0,
        })
    };
    assert_eq!(server.cpu_usage_centi, 1234);
    assert_eq!(server.memory_usage.percent_centi, 5000);
    assert_eq!(server.disk_usage.percent_centi, 2500);
    assert_eq!(server.load_average.five_min_centi, 20);
    assert_eq!(server.system_info.hostname, "host1");
    assert_eq!(server.system_info.os, "Unknown");
    let containers = dm.get_container_stats(vec![
        observation("aaaaaaaaaaaa", "one", 9000),
        observation("bbbbbbbbbbbb", "two", 100),
    ]);
    let info = dm.get_docker_system_info(DockerInfoReadings {
        version: None,
        api_version: None,
        containers: Some(2),
        containers_running: Some(2),
        containers_paused: None,
        containers_stopped: None,
        images: None,
        server_version: None,
        memory_total: None,
        cpu_count: None,
    });
    let report = m.format_status_report(&server, &containers, &info);
    assert!(report.contains("SYSTEM STATUS - "));
    assert!(report.contains("   CPU Usage: 12.34%"));
    assert!(report.contains("   Memory Usage: 50.00%"));
    assert!(report.contains("   Disk Usage: 25.00%"));
    assert!(report.contains("   Running Containers: 2"));
    assert!(report.contains("   Total Containers: 2"));
    assert!(report.contains("   1. one: 90.00% CPU"));
    assert!(report.contains("   2. two: 1.00% CPU"));
}
