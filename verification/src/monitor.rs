//! The orchestrator: one check cycle from plain sampled values to composed
//! alerts and a single verdict.
//!
//! A cycle evaluates the host sample and the container enumeration against
//! the configured threshold, composes the corresponding alerts, and reports
//! whether anything triggered. Sampling and dispatch I/O are outside
//! concerns: the caller feeds a cycle its inputs, performs the dispatches a
//! cycle decides, sleeps the configured interval, and repeats.

use vstd::prelude::*;

use crate::SECONDARY_CONTAINER_THRESHOLD_CENTI;
use crate::config::Config;
use crate::docker_monitor::ContainerEnumeration;
use crate::docker_monitor::ContainerStats;
use crate::docker_monitor::ContainerView;
use crate::docker_monitor::DockerMonitor;
use crate::docker_monitor::DockerSystemInfo;
use crate::docker_monitor::cpu_above;
use crate::docker_monitor::filter_above_threshold;
use crate::docker_monitor::views_of;
use crate::email_notifier::EmailNotifier;
use crate::email_notifier::OutgoingEmail;
use crate::email_notifier::container_alert_html;
use crate::email_notifier::container_alert_subject;
use crate::email_notifier::cpu_alert_html;
use crate::email_notifier::cpu_alert_subject;
use crate::email_notifier::notifier_enabled;
use crate::email_notifier::strip_tags_spec;
use crate::email_notifier::transport_matches;
use crate::numfmt::centi_str;
use crate::numfmt::centi_to_string;
use crate::numfmt::dec_str;
use crate::numfmt::u64_to_string;
use crate::server_monitor::ServerMonitor;
use crate::server_monitor::ServerStats;

verus! {

/// The containers a host-CPU alert lists: those above the fixed secondary
/// filter, or none at all when the enumeration failed.
pub open spec fn secondary_subset(containers: ContainerEnumeration) -> Seq<ContainerView> {
    match containers {
        ContainerEnumeration::Listed(cs) => views_of(cs@).filter(
            cpu_above(SECONDARY_CONTAINER_THRESHOLD_CENTI),
        ),
        ContainerEnumeration::Unavailable => Seq::empty(),
    }
}

/// What one check cycle concluded and composed.
pub struct CycleOutcome {
    pub server_triggered: bool,
    pub server_cpu_centi: u64,
    pub container_triggered: bool,
    pub high_cpu_containers: Vec<ContainerStats>,
    pub server_alert: Option<OutgoingEmail>,
    pub container_alert: Option<OutgoingEmail>,
    pub any_triggered: bool,
}

/// The orchestrator's cross-call state: configuration and the component
/// handles, built once and reused every cycle.
pub struct PerformanceMonitor {
    pub config: Config,
    pub server_monitor: ServerMonitor,
    pub docker_monitor: DockerMonitor,
    pub email_notifier: EmailNotifier,
}

impl PerformanceMonitor {
    /// The components agree with the owning configuration.
    pub open spec fn wf(self) -> bool {
        &&& self.server_monitor.config.monitoring.cpu_threshold_centi
            == self.config.monitoring.cpu_threshold_centi
        &&& self.email_notifier.config == self.config.email
        &&& self.email_notifier.enabled == notifier_enabled(self.config.email)
    }

    pub fn new(config: Config) -> (r: Self)
        ensures
            r.config == config,
            r.wf(),
    {
        let server_monitor = ServerMonitor::new(config.clone());
        let docker_monitor = DockerMonitor::new(config.clone());
        let email_notifier = EmailNotifier::new(config.clone());
        PerformanceMonitor { config, server_monitor, docker_monitor, email_notifier }
    }

    /// Host-level evaluation of one cycle: triggers exactly when the host
    /// CPU usage strictly exceeds the configured threshold. On a trigger
    /// the host alert is composed, listing the containers above the fixed
    /// secondary filter; the alert is handed out exactly when the notifier
    /// is enabled.
    pub fn check_server_cpu(&self, host_cpu_centi: u64, containers: &ContainerEnumeration) -> (r: (
        bool,
        u64,
        Option<OutgoingEmail>,
    ))
        requires
            self.wf(),
        ensures
            r.0 == (host_cpu_centi > self.config.monitoring.cpu_threshold_centi),
            r.1 == host_cpu_centi,
            !r.0 ==> r.2 is None,
            r.0 ==> (r.2 is Some <==> notifier_enabled(self.config.email)),
            r.0 && notifier_enabled(self.config.email) ==> exists|ts: Seq<char>|
                {
                    &&& r.2->0.subject@ == #[trigger] cpu_alert_subject(ts)
                    &&& r.2->0.html_body@ == cpu_alert_html(
                        ts,
                        host_cpu_centi,
                        secondary_subset(*containers),
                    )
                    &&& r.2->0.plain_body@ == strip_tags_spec(r.2->0.html_body@)
                    &&& transport_matches(r.2->0, self.config.email)
                },
    {
        let (is_high, cpu_usage) = self.server_monitor.check_cpu_threshold(host_cpu_centi);
        if is_high {
            let high_cpu_containers = match containers {
                ContainerEnumeration::Listed(cs) => filter_above_threshold(
                    cs,
                    SECONDARY_CONTAINER_THRESHOLD_CENTI,
                ),
                ContainerEnumeration::Unavailable => Vec::new(),
            };
            proof {
                if !(*containers is Listed) {
                    assert(views_of(high_cpu_containers@) =~= Seq::<ContainerView>::empty());
                }
                assert(views_of(high_cpu_containers@) == secondary_subset(*containers));
            }
            let alert = self.email_notifier.send_cpu_alert(cpu_usage, &high_cpu_containers);
            (true, cpu_usage, alert)
        } else {
            (false, cpu_usage, Option::None)
        }
    }

    /// Container-level evaluation of one cycle: triggers exactly when some
    /// container strictly exceeds the configured threshold. When the
    /// enumeration failed, the cycle still completes: nothing triggers and
    /// no alert is composed. On a trigger the container alert lists
    /// exactly the exceeding subset, in sorted order.
    pub fn check_container_cpu(&self, containers: &ContainerEnumeration) -> (r: (
        bool,
        Vec<ContainerStats>,
        Option<OutgoingEmail>,
    ))
        requires
            self.wf(),
        ensures
            containers is Unavailable ==> !r.0 && r.1@.len() == 0 && r.2 is None,
            containers matches ContainerEnumeration::Listed(cs) ==> {
                &&& views_of(r.1@) == views_of(cs@).filter(
                    cpu_above(self.config.monitoring.cpu_threshold_centi),
                )
                &&& r.0 == (views_of(cs@).filter(
                    cpu_above(self.config.monitoring.cpu_threshold_centi),
                ).len() > 0)
            },
            !r.0 ==> r.2 is None,
            r.0 ==> (r.2 is Some <==> notifier_enabled(self.config.email)),
            r.0 && notifier_enabled(self.config.email) ==> exists|ts: Seq<char>|
                {
                    &&& r.2->0.subject@ == #[trigger] container_alert_subject(ts)
                    &&& r.2->0.html_body@ == container_alert_html(ts, views_of(r.1@))
                    &&& r.2->0.plain_body@ == strip_tags_spec(r.2->0.html_body@)
                    &&& transport_matches(r.2->0, self.config.email)
                },
    {
        match containers {
            ContainerEnumeration::Unavailable => {
                let empty: Vec<ContainerStats> = Vec::new();
                (false, empty, Option::None)
            },
            ContainerEnumeration::Listed(cs) => {
                let (is_high, high_cpu_containers) = self.docker_monitor
                    .check_container_cpu_threshold(
                    cs,
                    self.config.monitoring.cpu_threshold_centi,
                );
                if is_high {
                    let alert = self.email_notifier.send_container_cpu_alert(
                        &high_cpu_containers,
                    );
                    (true, high_cpu_containers, alert)
                } else {
                    (false, high_cpu_containers, Option::None)
                }
            },
        }
    }

    /// One full check cycle over sampled inputs: both evaluations run, the
    /// composed alerts are handed out, and the verdict is whether either
    /// level triggered. A failed container enumeration never fails the
    /// cycle and leaves the host evaluation untouched.
    pub fn run_monitoring(&self, host_cpu_centi: u64, containers: &ContainerEnumeration) -> (r:
        CycleOutcome)
        requires
            self.wf(),
        ensures
            r.server_triggered == (host_cpu_centi > self.config.monitoring.cpu_threshold_centi),
            r.server_cpu_centi == host_cpu_centi,
            containers is Unavailable ==> !r.container_triggered && r.high_cpu_containers@.len()
                == 0 && r.container_alert is None,
            containers matches ContainerEnumeration::Listed(cs) ==> {
                &&& views_of(r.high_cpu_containers@) == views_of(cs@).filter(
                    cpu_above(self.config.monitoring.cpu_threshold_centi),
                )
                &&& r.container_triggered == (views_of(cs@).filter(
                    cpu_above(self.config.monitoring.cpu_threshold_centi),
                ).len() > 0)
            },
            r.any_triggered == (r.server_triggered || r.container_triggered),
            !r.server_triggered ==> r.server_alert is None,
            r.server_triggered ==> (r.server_alert is Some <==> notifier_enabled(
                self.config.email,
            )),
            !r.container_triggered ==> r.container_alert is None,
            r.container_triggered ==> (r.container_alert is Some <==> notifier_enabled(
                self.config.email,
            )),
            r.server_triggered && notifier_enabled(self.config.email) ==> exists|ts: Seq<char>|
                {
                    &&& r.server_alert->0.subject@ == #[trigger] cpu_alert_subject(ts)
                    &&& r.server_alert->0.html_body@ == cpu_alert_html(
                        ts,
                        host_cpu_centi,
                        secondary_subset(*containers),
                    )
                    &&& r.server_alert->0.plain_body@ == strip_tags_spec(
                        r.server_alert->0.html_body@,
                    )
                    &&& transport_matches(r.server_alert->0, self.config.email)
                },
            r.container_triggered && notifier_enabled(self.config.email) ==> exists|ts: Seq<char>|
                {
                    &&& r.container_alert->0.subject@ == #[trigger] container_alert_subject(ts)
                    &&& r.container_alert->0.html_body@ == container_alert_html(
                        ts,
                        views_of(r.high_cpu_containers@),
                    )
                    &&& r.container_alert->0.plain_body@ == strip_tags_spec(
                        r.container_alert->0.html_body@,
                    )
                    &&& transport_matches(r.container_alert->0, self.config.email)
                },
    {
        let (server_triggered, server_cpu_centi, server_alert) = self.check_server_cpu(
            host_cpu_centi,
            containers,
        );
        let (container_triggered, high_cpu_containers, container_alert) = self.check_container_cpu(
            containers,
        );
        let any_triggered = server_triggered || container_triggered;
        CycleOutcome {
            server_triggered,
            server_cpu_centi,
            container_triggered,
            high_cpu_containers,
            server_alert,
            container_alert,
            any_triggered,
        }
    }
}

/// The separator line of the status report.
pub open spec fn separator_line() -> Seq<char> {
    "============================================================"@
}

/// One "   n. name: cpu% CPU" line per listed container, numbered from 1.
pub open spec fn top_container_lines(cs: Seq<ContainerView>) -> Seq<char>
    decreases cs.len(),
{
    if cs.len() == 0 {
        Seq::empty()
    } else {
        top_container_lines(cs.drop_last()) + "   "@ + dec_str(cs.len() as nat) + ". "@
            + cs.last().name + ": "@ + centi_str(cs.last().cpu_usage_centi as nat) + "% CPU\n"@
    }
}

/// The status report: host usage figures, container counts, and the up to
/// five containers with the highest CPU usage.
pub open spec fn status_report_text(
    server: ServerStats,
    containers: Seq<ContainerView>,
    info: DockerSystemInfo,
) -> Seq<char> {
    let top = if containers.len() <= 5 {
        containers
    } else {
        containers.subrange(0, 5)
    };
    let head = "\n"@ + separator_line() + "\n"@ + "SYSTEM STATUS - "@ + server.timestamp@ + "\n"@
        + separator_line() + "\n"@ + "\n🖥️  SERVER:\n"@ + "   CPU Usage: "@ + centi_str(
        server.cpu_usage_centi as nat,
    ) + "%\n"@ + "   Memory Usage: "@ + centi_str(server.memory_usage.percent_centi as nat)
        + "%\n"@ + "   Disk Usage: "@ + centi_str(server.disk_usage.percent_centi as nat) + "%\n"@
        + "\n🐳 DOCKER:\n"@ + "   Running Containers: "@ + dec_str(containers.len()) + "\n"@
        + "   Total Containers: "@ + dec_str(info.containers as nat) + "\n"@;
    let tops = if containers.len() > 0 {
        "\n   Top CPU Containers:\n"@ + top_container_lines(top)
    } else {
        Seq::empty()
    };
    head + tops + "\n"@ + separator_line() + "\n"@
}

impl PerformanceMonitor {
    /// Renders the multi-section status report for one host snapshot, one
    /// container set and the runtime's self-description.
    #[verifier::rlimit(100)]
    pub fn format_status_report(
        &self,
        server_stats: &ServerStats,
        container_stats: &Vec<ContainerStats>,
        docker_info: &DockerSystemInfo,
    ) -> (r: String)
        ensures
            r@ == status_report_text(*server_stats, views_of(container_stats@), *docker_info),
    {
        let ghost cviews = views_of(container_stats@);
        let mut t = String::from_str("\n");
        t.append("============================================================");
        t.append("\n");
        t.append("SYSTEM STATUS - ");
        t.append(server_stats.timestamp.as_str());
        t.append("\n");
        t.append("============================================================");
        t.append("\n");
        t.append("\n🖥️  SERVER:\n");
        t.append("   CPU Usage: ");
        let cpu = centi_to_string(server_stats.cpu_usage_centi);
        t.append(cpu.as_str());
        t.append("%\n");
        t.append("   Memory Usage: ");
        let mem = centi_to_string(server_stats.memory_usage.percent_centi);
        t.append(mem.as_str());
        t.append("%\n");
        t.append("   Disk Usage: ");
        let disk = centi_to_string(server_stats.disk_usage.percent_centi);
        t.append(disk.as_str());
        t.append("%\n");
        t.append("\n🐳 DOCKER:\n");
        t.append("   Running Containers: ");
        let running = u64_to_string(container_stats.len() as u64);
        t.append(running.as_str());
        t.append("\n");
        t.append("   Total Containers: ");
        let total = u64_to_string(docker_info.containers);
        t.append(total.as_str());
        t.append("\n");
        let ghost head = t@;
        let ghost top = if cviews.len() <= 5 {
            cviews
        } else {
            cviews.subrange(0, 5)
        };
        if container_stats.len() > 0 {
            t.append("\n   Top CPU Containers:\n");
            let m: usize = if container_stats.len() <= 5 {
                container_stats.len()
            } else {
                5
            };
            proof {
                assert(m as int == top.len());
                assert(top.take(0) =~= Seq::<ContainerView>::empty());
            }
            let mut k: usize = 0;
            while k < m
                invariant
                    0 <= k <= m,
                    m as int == top.len(),
                    top == (if cviews.len() <= 5 {
                        cviews
                    } else {
                        cviews.subrange(0, 5)
                    }),
                    cviews == views_of(container_stats@),
                    m <= container_stats@.len(),
                    t@ == head + "\n   Top CPU Containers:\n"@ + top_container_lines(
                        top.take(k as int),
                    ),
                decreases m - k,
            {
                t.append("   ");
                let num = u64_to_string((k as u64) + 1);
                t.append(num.as_str());
                t.append(". ");
                t.append(container_stats[k].name.as_str());
                t.append(": ");
                let ccpu = centi_to_string(container_stats[k].cpu_usage_centi);
                t.append(ccpu.as_str());
                t.append("% CPU\n");
                proof {
                    assert(top.take(k as int + 1).drop_last() =~= top.take(k as int));
                    assert(top.take(k as int + 1).last() == container_stats@[k as int]@);
                    assert(top.take(k as int + 1).len() == k + 1);
                    assert(t@ =~= head + "\n   Top CPU Containers:\n"@ + top_container_lines(
                        top.take(k as int + 1),
                    ));
                }
                k += 1;
            }
            proof {
                assert(top.take(m as int) =~= top);
            }
        }
        t.append("\n");
        t.append("============================================================");
        t.append("\n");
        proof {
            assert(t@ =~= status_report_text(
                *server_stats,
                views_of(container_stats@),
                *docker_info,
            ));
        }
        t
    }
}

/// The one-line verdict a check cycle prints.
pub open spec fn verdict_text(triggered: bool) -> Seq<char> {
    if triggered {
        "⚠️  High CPU usage detected! Check your email for alerts."@
    } else {
        "✅ All systems normal."@
    }
}

pub fn verdict_line(triggered: bool) -> (r: String)
    ensures
        r@ == verdict_text(triggered),
{
    if triggered {
        String::from_str("⚠️  High CPU usage detected! Check your email for alerts.")
    } else {
        String::from_str("✅ All systems normal.")
    }
}

} // verus!
