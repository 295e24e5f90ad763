//! Alert composition and the dispatch decision.
//!
//! The notifier composes a subject and an HTML body, derives the plain-text
//! part by stripping tags and collapsing blank lines, and decides whether a
//! message goes to the mail transport at all: a notifier left disabled, or
//! missing its sender, credential or recipient, yields no dispatch. Driving
//! the SMTP session itself is an outside concern; the decision hands over a
//! fully composed `OutgoingEmail`.

use vstd::prelude::*;

use crate::clock::now_timestamp;
use crate::config::Config;
use crate::config::EmailConfig;
use crate::docker_monitor::ContainerStats;
use crate::docker_monitor::ContainerView;
use crate::docker_monitor::views_of;
use crate::numfmt::centi_str;
use crate::numfmt::centi_to_string;

verus! {

/// The whitespace trimmed from line ends when a body is rendered as plain
/// text.
pub open spec fn is_space(c: char) -> bool {
    c == ' ' || c == '\t' || c == '\r' || c == '\n'
}

/// Tag removal: every character between '<' and '>' falls away, the
/// brackets included.
pub open spec fn remove_tags_rec(s: Seq<char>, in_tag: bool) -> Seq<char>
    decreases s.len(),
{
    if s.len() == 0 {
        Seq::empty()
    } else if s[0] == '<' {
        remove_tags_rec(s.drop_first(), true)
    } else if s[0] == '>' {
        remove_tags_rec(s.drop_first(), false)
    } else if in_tag {
        remove_tags_rec(s.drop_first(), true)
    } else {
        seq![s[0]] + remove_tags_rec(s.drop_first(), false)
    }
}

pub open spec fn remove_tags(s: Seq<char>) -> Seq<char> {
    remove_tags_rec(s, false)
}

pub open spec fn trim_start(s: Seq<char>) -> Seq<char>
    decreases s.len(),
{
    if s.len() > 0 && is_space(s[0]) {
        trim_start(s.drop_first())
    } else {
        s
    }
}

pub open spec fn trim_end(s: Seq<char>) -> Seq<char>
    decreases s.len(),
{
    if s.len() > 0 && is_space(s.last()) {
        trim_end(s.drop_last())
    } else {
        s
    }
}

pub open spec fn trim(s: Seq<char>) -> Seq<char> {
    trim_end(trim_start(s))
}

/// The segments between newline characters; one more segment than there
/// are newlines, so the result is never empty.
pub open spec fn split_lines(s: Seq<char>) -> Seq<Seq<char>>
    decreases s.len(),
{
    if s.len() == 0 {
        seq![Seq::<char>::empty()]
    } else if s.last() == '\n' {
        split_lines(s.drop_last()).push(Seq::empty())
    } else {
        let ls = split_lines(s.drop_last());
        ls.update(ls.len() - 1, ls.last().push(s.last()))
    }
}

proof fn lemma_split_lines_nonempty(s: Seq<char>)
    ensures
        split_lines(s).len() >= 1,
    decreases s.len(),
{
    if s.len() > 0 {
        lemma_split_lines_nonempty(s.drop_last());
    }
}

/// Each line trimmed, blank lines dropped, the rest joined with single
/// newlines.
pub open spec fn collapse_lines(lines: Seq<Seq<char>>) -> Seq<char>
    decreases lines.len(),
{
    if lines.len() == 0 {
        Seq::empty()
    } else {
        let rest = collapse_lines(lines.drop_last());
        let t = trim(lines.last());
        if t.len() == 0 {
            rest
        } else if rest.len() == 0 {
            t
        } else {
            rest + seq!['\n'] + t
        }
    }
}

/// The plain-text rendering of an HTML body: tags removed, lines trimmed,
/// blank lines dropped.
pub open spec fn strip_tags_spec(s: Seq<char>) -> Seq<char> {
    collapse_lines(split_lines(remove_tags(s)))
}

proof fn lemma_remove_tags_plain(s: Seq<char>)
    requires
        forall|i: int| 0 <= i < s.len() ==> s[i] != '<' && s[i] != '>',
    ensures
        remove_tags_rec(s, false) == s,
    decreases s.len(),
{
    if s.len() > 0 {
        lemma_remove_tags_plain(s.drop_first());
        assert(seq![s[0]] + s.drop_first() =~= s);
    }
}

/// Stripping a string that holds no tag characters only trims its lines
/// and drops the blank ones: tag removal itself is the identity there.
pub proof fn lemma_strip_plain_is_collapse(s: Seq<char>)
    requires
        forall|i: int| 0 <= i < s.len() ==> s[i] != '<' && s[i] != '>',
    ensures
        strip_tags_spec(s) == collapse_lines(split_lines(s)),
{
    lemma_remove_tags_plain(s);
}

proof fn lemma_trim_start_at(s: Seq<char>, a: int)
    requires
        0 <= a <= s.len(),
        forall|k: int| 0 <= k < a ==> is_space(s[k]),
        a < s.len() ==> !is_space(s[a]),
    ensures
        trim_start(s) == s.skip(a),
    decreases a,
{
    if a == 0 {
        assert(trim_start(s) =~= s.skip(0));
    } else {
        lemma_trim_start_at(s.drop_first(), a - 1);
        assert(s.drop_first().skip(a - 1) =~= s.skip(a));
    }
}

proof fn lemma_trim_end_at(s: Seq<char>, b: int)
    requires
        0 <= b <= s.len(),
        forall|k: int| b <= k < s.len() ==> is_space(s[k]),
        b > 0 ==> !is_space(s[b - 1]),
    ensures
        trim_end(s) == s.take(b),
    decreases s.len(),
{
    if b == s.len() {
        assert(trim_end(s) =~= s.take(b));
    } else {
        lemma_trim_end_at(s.drop_last(), b);
        assert(s.drop_last().take(b) =~= s.take(b));
    }
}

fn is_space_exec(c: char) -> (r: bool)
    ensures
        r == is_space(c),
{
    c == ' ' || c == '\t' || c == '\r' || c == '\n'
}

/// Trims leading and trailing whitespace from one line.
fn trim_str(s: &str) -> (t: String)
    ensures
        t@ == trim(s@),
{
    let n = s.unicode_len();
    let mut a: usize = 0;
    while a < n && is_space_exec(s.get_char(a))
        invariant
            0 <= a <= n,
            n == s@.len(),
            forall|k: int| 0 <= k < a ==> is_space(s@[k]),
        decreases n - a,
    {
        a += 1;
    }
    proof {
        lemma_trim_start_at(s@, a as int);
    }
    let mut b: usize = n;
    while b > a && is_space_exec(s.get_char(b - 1))
        invariant
            a <= b <= n,
            n == s@.len(),
            forall|k: int| b <= k < n ==> is_space(s@[k]),
        decreases b,
    {
        b -= 1;
    }
    proof {
        lemma_trim_end_at(s@.skip(a as int), b - a as int);
        assert(s@.skip(a as int).take(b - a as int) =~= s@.subrange(a as int, b as int));
    }
    String::from_str(s.substring_char(a, b))
}

fn remove_tags_exec(s: &str) -> (r: String)
    ensures
        r@ == remove_tags(s@),
{
    let n = s.unicode_len();
    let mut r = String::new();
    let mut in_tag = false;
    let mut i: usize = 0;
    proof {
        assert(s@.skip(0) =~= s@);
    }
    while i < n
        invariant
            0 <= i <= n,
            n == s@.len(),
            remove_tags(s@) == r@ + remove_tags_rec(s@.skip(i as int), in_tag),
        decreases n - i,
    {
        let c = s.get_char(i);
        proof {
            assert(s@.skip(i as int)[0] == c);
            assert(s@.skip(i as int).drop_first() =~= s@.skip(i as int + 1));
        }
        if c == '<' {
            in_tag = true;
        } else if c == '>' {
            in_tag = false;
        } else if !in_tag {
            let ghost r0 = r@;
            r.append(s.substring_char(i, i + 1));
            proof {
                assert(s@.subrange(i as int, i as int + 1) =~= seq![c]);
                assert(r@ =~= r0 + seq![c]);
                assert((r0 + seq![c]) + remove_tags_rec(s@.skip(i as int + 1), false) =~= r0 + (
                seq![c] + remove_tags_rec(s@.skip(i as int + 1), false)));
            }
        }
        proof {
            assert(remove_tags(s@) == r@ + remove_tags_rec(s@.skip(i as int + 1), in_tag));
        }
        i += 1;
    }
    proof {
        assert(s@.skip(n as int) =~= Seq::<char>::empty());
        assert(r@ + Seq::<char>::empty() =~= r@);
    }
    r
}

/// The mail transport settings an enabled notifier was built with.
pub struct EmailNotifier {
    pub config: EmailConfig,
    pub enabled: bool,
}

/// When a notifier is live: the explicit flag is set and none of sender,
/// credential and recipient is empty. Any missing field forces it off.
pub open spec fn notifier_enabled(c: EmailConfig) -> bool {
    &&& c.enabled
    &&& c.sender_email@.len() > 0
    &&& c.sender_password@.len() > 0
    &&& c.recipient_email@.len() > 0
}

/// One fully composed message together with the transport settings it is
/// to be sent through.
pub struct OutgoingEmail {
    pub smtp_server: String,
    pub smtp_port: u16,
    pub sender_email: String,
    pub sender_password: String,
    pub recipient_email: String,
    pub subject: String,
    pub plain_body: String,
    pub html_body: String,
}

/// The dispatch carries the notifier's transport settings unchanged.
pub open spec fn transport_matches(m: OutgoingEmail, c: EmailConfig) -> bool {
    &&& m.smtp_server@ == c.smtp_server@
    &&& m.smtp_port == c.smtp_port
    &&& m.sender_email@ == c.sender_email@
    &&& m.sender_password@ == c.sender_password@
    &&& m.recipient_email@ == c.recipient_email@
}

impl EmailNotifier {
    /// Decides enablement once, at construction: the flag alone is not
    /// enough, every credential field has to be present.
    pub fn new(config: Config) -> (r: Self)
        ensures
            r.config == config.email,
            r.enabled == notifier_enabled(config.email),
    {
        let email_config = config.email;
        let enabled = email_config.enabled && !email_config.sender_email.as_str().is_empty()
            && !email_config.sender_password.as_str().is_empty()
            && !email_config.recipient_email.as_str().is_empty();
        EmailNotifier { config: email_config, enabled }
    }

    /// Removes every HTML tag, then trims each line and drops the blank
    /// ones: the plain-text rendering of an HTML body.
    pub fn strip_html_tags(&self, html: &str) -> (r: String)
        ensures
            r@ == strip_tags_spec(html@),
    {
        let stripped = remove_tags_exec(html);
        let ghost sv = stripped@;
        let n = stripped.as_str().unicode_len();
        let mut out = String::new();
        let mut cur = String::new();
        let mut i: usize = 0;
        proof {
            assert(sv.take(0) =~= Seq::<char>::empty());
            assert(split_lines(sv.take(0)) == seq![Seq::<char>::empty()]);
            assert(seq![Seq::<char>::empty()].drop_last() =~= Seq::<Seq<char>>::empty());
            assert(collapse_lines(Seq::<Seq<char>>::empty()) == Seq::<char>::empty());
        }
        while i < n
            invariant
                0 <= i <= n,
                n == sv.len(),
                stripped@ == sv,
                split_lines(sv.take(i as int)).len() >= 1,
                out@ == collapse_lines(split_lines(sv.take(i as int)).drop_last()),
                cur@ == split_lines(sv.take(i as int)).last(),
            decreases n - i,
        {
            let ghost lines = split_lines(sv.take(i as int));
            let c = stripped.as_str().get_char(i);
            proof {
                assert(sv.take(i as int + 1).drop_last() =~= sv.take(i as int));
                assert(sv.take(i as int + 1).last() == c);
                lemma_split_lines_nonempty(sv.take(i as int + 1));
            }
            if c == '\n' {
                proof {
                    assert(split_lines(sv.take(i as int + 1)) == lines.push(Seq::empty()));
                    assert(lines.push(Seq::<char>::empty()).drop_last() =~= lines);
                }
                let t = trim_str(cur.as_str());
                if !t.as_str().is_empty() {
                    if !out.as_str().is_empty() {
                        out.append("\n");
                        proof {
                            reveal_strlit("\n");
                        }
                    }
                    out.append(t.as_str());
                }
                cur = String::new();
                proof {
                    reveal_strlit("\n");
                    assert(out@ =~= collapse_lines(lines));
                }
            } else {
                cur.append(stripped.as_str().substring_char(i, i + 1));
                proof {
                    assert(sv.subrange(i as int, i as int + 1) =~= seq![c]);
                    let nl = split_lines(sv.take(i as int + 1));
                    assert(nl == lines.update(lines.len() - 1, lines.last().push(c)));
                    assert(nl.drop_last() =~= lines.drop_last());
                    assert(nl.last() == lines.last().push(c));
                    assert(cur@ =~= lines.last().push(c));
                }
            }
            i += 1;
        }
        proof {
            assert(sv.take(n as int) =~= sv);
            lemma_split_lines_nonempty(sv);
        }
        let t = trim_str(cur.as_str());
        if !t.as_str().is_empty() {
            if !out.as_str().is_empty() {
                out.append("\n");
                proof {
                    reveal_strlit("\n");
                }
            }
            out.append(t.as_str());
        }
        proof {
            reveal_strlit("\n");
            assert(out@ =~= collapse_lines(split_lines(sv)));
        }
        out
    }
}

/// The sentence rendered in place of an empty container table.
pub open spec fn no_containers_line() -> Seq<char> {
    "<p>No specific containers with high CPU usage detected.</p>"@
}

pub open spec fn table_opening() -> Seq<char> {
    "<table border='1' style='border-collapse: collapse; width: 100%;'>"@
        + "<tr style='background-color: #f2f2f2;'>"@
        + "<th style='padding: 8px; text-align: left;'>Container Name</th>"@
        + "<th style='padding: 8px; text-align: left;'>CPU Usage</th>"@
        + "<th style='padding: 8px; text-align: left;'>Memory Usage</th>"@
}

/// The header row of the plain table: name, CPU, memory, image.
pub open spec fn simple_table_header() -> Seq<char> {
    table_opening() + "<th style='padding: 8px; text-align: left;'>Image</th>"@ + "</tr>"@
}

/// The header row of the detailed table: a status column follows the image.
pub open spec fn detailed_table_header() -> Seq<char> {
    table_opening() + "<th style='padding: 8px; text-align: left;'>Image</th>"@
        + "<th style='padding: 8px; text-align: left;'>Status</th>"@ + "</tr>"@
}

/// One table row: name, CPU and memory percentages with two decimals, image.
pub open spec fn container_row(c: ContainerView) -> Seq<char> {
    "<tr>"@ + "<td style='padding: 8px;'>"@ + c.name + "</td>"@
        + "<td style='padding: 8px; color: red; font-weight: bold;'>"@ + centi_str(
        c.cpu_usage_centi as nat,
    ) + "%</td>"@ + "<td style='padding: 8px;'>"@ + centi_str(c.memory_percent_centi as nat)
        + "%</td>"@ + "<td style='padding: 8px;'>"@ + c.image + "</td>"@ + "</tr>"@
}

/// One detailed table row: the plain row's cells, then the status.
pub open spec fn detailed_container_row(c: ContainerView) -> Seq<char> {
    "<tr>"@ + "<td style='padding: 8px;'>"@ + c.name + "</td>"@
        + "<td style='padding: 8px; color: red; font-weight: bold;'>"@ + centi_str(
        c.cpu_usage_centi as nat,
    ) + "%</td>"@ + "<td style='padding: 8px;'>"@ + centi_str(c.memory_percent_centi as nat)
        + "%</td>"@ + "<td style='padding: 8px;'>"@ + c.image + "</td>"@
        + "<td style='padding: 8px;'>"@ + c.status + "</td>"@ + "</tr>"@
}

pub open spec fn container_rows(cs: Seq<ContainerView>) -> Seq<char>
    decreases cs.len(),
{
    if cs.len() == 0 {
        Seq::empty()
    } else {
        container_rows(cs.drop_last()) + container_row(cs.last())
    }
}

pub open spec fn detailed_container_rows(cs: Seq<ContainerView>) -> Seq<char>
    decreases cs.len(),
{
    if cs.len() == 0 {
        Seq::empty()
    } else {
        detailed_container_rows(cs.drop_last()) + detailed_container_row(cs.last())
    }
}

/// The plain table, or the explanatory sentence when there is no container
/// to list.
pub open spec fn container_table(cs: Seq<ContainerView>) -> Seq<char> {
    if cs.len() == 0 {
        no_containers_line()
    } else {
        simple_table_header() + container_rows(cs) + "</table>"@
    }
}

/// The detailed table, with the same empty-list sentence.
pub open spec fn detailed_container_table(cs: Seq<ContainerView>) -> Seq<char> {
    if cs.len() == 0 {
        no_containers_line()
    } else {
        detailed_table_header() + detailed_container_rows(cs) + "</table>"@
    }
}

/// The subject of a host-CPU alert at check time `ts`.
pub open spec fn cpu_alert_subject(ts: Seq<char>) -> Seq<char> {
    "🚨 HIGH CPU USAGE ALERT - "@ + ts
}

/// The HTML body of a host-CPU alert: check time, the host's CPU usage,
/// and the table of containers above the secondary filter.
pub open spec fn cpu_alert_html(ts: Seq<char>, server_cpu_centi: u64, cs: Seq<
    ContainerView,
>) -> Seq<char> {
    "<html><body><h2>🚨 HIGH CPU USAGE ALERT</h2><p><strong>Time:</strong> "@ + ts
        + "</p><h3>📊 Server CPU Usage</h3><p><strong>Current CPU Usage:</strong> <span style=\"color: red; font-size: 18px; font-weight: bold;\">"@
        + centi_str(server_cpu_centi as nat)
        + "%</span></p><p><strong>Threshold:</strong> 80%</p><h3>🐳 High CPU Docker Containers</h3>"@
        + container_table(cs)
        + "<br><p><em>This is an automated alert from your Docker & Server Performance Monitoring System.</em></p><p><em>Please check your server and containers immediately.</em></p></body></html>"@
}

/// The subject of a container-CPU alert at check time `ts`.
pub open spec fn container_alert_subject(ts: Seq<char>) -> Seq<char> {
    "🐳 HIGH CONTAINER CPU ALERT - "@ + ts
}

/// The HTML body of a container-CPU alert: check time and the detailed
/// table of the containers above the primary threshold.
pub open spec fn container_alert_html(ts: Seq<char>, cs: Seq<ContainerView>) -> Seq<char> {
    "<html><body><h2>🐳 HIGH CONTAINER CPU USAGE ALERT</h2><p><strong>Time:</strong> "@ + ts
        + "</p><h3>🔥 High CPU Docker Containers</h3>"@ + detailed_container_table(cs)
        + "<br><p><em>This is an automated alert from your Docker & Server Performance Monitoring System.</em></p><p><em>Please check the highlighted containers immediately.</em></p></body></html>"@
}

pub open spec fn test_email_subject() -> Seq<char> {
    "🧪 Test Email - Docker & Server Performance Monitoring"@
}

pub open spec fn test_email_html(ts: Seq<char>) -> Seq<char> {
    "<html><body><h2>🧪 Test Email</h2><p>This is a test email from your Docker & Server Performance Monitoring System.</p><p><strong>Time:</strong> "@
        + ts
        + "</p><p>If you receive this email, your email configuration is working correctly.</p><br><p><em>System is ready to send alerts when CPU usage exceeds the threshold.</em></p></body></html>"@
}

/// One character sequence occurring inside another.
pub open spec fn contains_seq(hay: Seq<char>, needle: Seq<char>) -> bool {
    exists|i: int|
        0 <= i && i + needle.len() <= hay.len() && #[trigger] hay.subrange(i, i + needle.len())
            == needle
}

/// A host-CPU alert composed for an empty container list names the absence
/// of containers in its body instead of rendering an empty table, whatever
/// the check time and the measured usage.
pub proof fn lemma_empty_cpu_alert_names_no_containers(ts: Seq<char>, server_cpu_centi: u64)
    ensures
        contains_seq(cpu_alert_html(ts, server_cpu_centi, Seq::empty()), no_containers_line()),
{
    let a =
        "<html><body><h2>🚨 HIGH CPU USAGE ALERT</h2><p><strong>Time:</strong> "@ + ts
        + "</p><h3>📊 Server CPU Usage</h3><p><strong>Current CPU Usage:</strong> <span style=\"color: red; font-size: 18px; font-weight: bold;\">"@
        + centi_str(server_cpu_centi as nat)
        + "%</span></p><p><strong>Threshold:</strong> 80%</p><h3>🐳 High CPU Docker Containers</h3>"@;
    let hay = cpu_alert_html(ts, server_cpu_centi, Seq::empty());
    let needle = no_containers_line();
    assert(hay.subrange(a.len() as int, a.len() as int + needle.len() as int) =~= needle);
}

/// A container-CPU alert composed for an empty list does the same.
pub proof fn lemma_empty_container_alert_names_no_containers(ts: Seq<char>)
    ensures
        contains_seq(container_alert_html(ts, Seq::empty()), no_containers_line()),
{
    let a =
        "<html><body><h2>🐳 HIGH CONTAINER CPU USAGE ALERT</h2><p><strong>Time:</strong> "@ + ts
        + "</p><h3>🔥 High CPU Docker Containers</h3>"@;
    let hay = container_alert_html(ts, Seq::empty());
    let needle = no_containers_line();
    assert(hay.subrange(a.len() as int, a.len() as int + needle.len() as int) =~= needle);
}

impl EmailNotifier {
    /// Renders the plain container table, or the explanatory sentence for
    /// an empty list.
    #[verifier::rlimit(100)]
    pub fn format_container_table(&self, containers: &Vec<ContainerStats>) -> (r: String)
        ensures
            r@ == container_table(views_of(containers@)),
    {
        if containers.len() == 0 {
            proof {
                assert(views_of(containers@) =~= Seq::<ContainerView>::empty());
            }
            return String::from_str(
                "<p>No specific containers with high CPU usage detected.</p>",
            );
        }
        let mut t = String::from_str(
            "<table border='1' style='border-collapse: collapse; width: 100%;'>",
        );
        t.append("<tr style='background-color: #f2f2f2;'>");
        t.append("<th style='padding: 8px; text-align: left;'>Container Name</th>");
        t.append("<th style='padding: 8px; text-align: left;'>CPU Usage</th>");
        t.append("<th style='padding: 8px; text-align: left;'>Memory Usage</th>");
        t.append("<th style='padding: 8px; text-align: left;'>Image</th>");
        t.append("</tr>");
        proof {
            assert(t@ =~= simple_table_header());
            assert(views_of(containers@.take(0)) =~= Seq::<ContainerView>::empty());
            assert(t@ =~= simple_table_header() + container_rows(views_of(containers@.take(0))));
        }
        let mut i: usize = 0;
        while i < containers.len()
            invariant
                0 <= i <= containers@.len(),
                t@ == simple_table_header() + container_rows(views_of(containers@.take(i as int))),
            decreases containers@.len() - i,
        {
            let c = &containers[i];
            t.append("<tr>");
            t.append("<td style='padding: 8px;'>");
            t.append(c.name.as_str());
            t.append("</td>");
            t.append("<td style='padding: 8px; color: red; font-weight: bold;'>");
            let cpu = centi_to_string(c.cpu_usage_centi);
            t.append(cpu.as_str());
            t.append("%</td>");
            t.append("<td style='padding: 8px;'>");
            let mem = centi_to_string(c.memory_percent_centi);
            t.append(mem.as_str());
            t.append("%</td>");
            t.append("<td style='padding: 8px;'>");
            t.append(c.image.as_str());
            t.append("</td>");
            t.append("</tr>");
            proof {
                assert(views_of(containers@.take(i as int + 1)).drop_last() =~= views_of(
                    containers@.take(i as int),
                ));
                assert(views_of(containers@.take(i as int + 1)).last() == containers@[i as int]@);
                assert(t@ =~= simple_table_header() + container_rows(
                    views_of(containers@.take(i as int + 1)),
                ));
            }
            i += 1;
        }
        t.append("</table>");
        proof {
            assert(containers@.take(containers@.len() as int) =~= containers@);
            assert(t@ =~= container_table(views_of(containers@)));
        }
        t
    }

    /// Renders the detailed container table (with a status column), or the
    /// explanatory sentence for an empty list.
    #[verifier::rlimit(100)]
    pub fn format_detailed_container_table(&self, containers: &Vec<ContainerStats>) -> (r: String)
        ensures
            r@ == detailed_container_table(views_of(containers@)),
    {
        if containers.len() == 0 {
            proof {
                assert(views_of(containers@) =~= Seq::<ContainerView>::empty());
            }
            return String::from_str(
                "<p>No specific containers with high CPU usage detected.</p>",
            );
        }
        let mut t = String::from_str(
            "<table border='1' style='border-collapse: collapse; width: 100%;'>",
        );
        t.append("<tr style='background-color: #f2f2f2;'>");
        t.append("<th style='padding: 8px; text-align: left;'>Container Name</th>");
        t.append("<th style='padding: 8px; text-align: left;'>CPU Usage</th>");
        t.append("<th style='padding: 8px; text-align: left;'>Memory Usage</th>");
        t.append("<th style='padding: 8px; text-align: left;'>Image</th>");
        t.append("<th style='padding: 8px; text-align: left;'>Status</th>");
        t.append("</tr>");
        proof {
            assert(t@ =~= detailed_table_header());
            assert(views_of(containers@.take(0)) =~= Seq::<ContainerView>::empty());
            assert(t@ =~= detailed_table_header() + detailed_container_rows(
                views_of(containers@.take(0)),
            ));
        }
        let mut i: usize = 0;
        while i < containers.len()
            invariant
                0 <= i <= containers@.len(),
                t@ == detailed_table_header() + detailed_container_rows(
                    views_of(containers@.take(i as int)),
                ),
            decreases containers@.len() - i,
        {
            let c = &containers[i];
            t.append("<tr>");
            t.append("<td style='padding: 8px;'>");
            t.append(c.name.as_str());
            t.append("</td>");
            t.append("<td style='padding: 8px; color: red; font-weight: bold;'>");
            let cpu = centi_to_string(c.cpu_usage_centi);
            t.append(cpu.as_str());
            t.append("%</td>");
            t.append("<td style='padding: 8px;'>");
            let mem = centi_to_string(c.memory_percent_centi);
            t.append(mem.as_str());
            t.append("%</td>");
            t.append("<td style='padding: 8px;'>");
            t.append(c.image.as_str());
            t.append("</td>");
            t.append("<td style='padding: 8px;'>");
            t.append(c.status.as_str());
            t.append("</td>");
            t.append("</tr>");
            proof {
                assert(views_of(containers@.take(i as int + 1)).drop_last() =~= views_of(
                    containers@.take(i as int),
                ));
                assert(views_of(containers@.take(i as int + 1)).last() == containers@[i as int]@);
                assert(t@ =~= detailed_table_header() + detailed_container_rows(
                    views_of(containers@.take(i as int + 1)),
                ));
            }
            i += 1;
        }
        t.append("</table>");
        proof {
            assert(containers@.take(containers@.len() as int) =~= containers@);
            assert(t@ =~= detailed_container_table(views_of(containers@)));
        }
        t
    }

    /// Decides one dispatch. A disabled notifier yields nothing, at once
    /// and for every message; an enabled one yields the exact message for
    /// the mail transport, its plain-text part derived by stripping the
    /// HTML body.
    pub fn send_alert(&self, subject: &str, message: &str) -> (r: Option<OutgoingEmail>)
        ensures
            r is Some <==> self.enabled,
            self.enabled ==> {
                &&& transport_matches(r->0, self.config)
                &&& r->0.subject@ == subject@
                &&& r->0.html_body@ == message@
                &&& r->0.plain_body@ == strip_tags_spec(message@)
            },
    {
        if !self.enabled {
            return Option::None;
        }
        let plain_body = self.strip_html_tags(message);
        Option::Some(
            OutgoingEmail {
                smtp_server: self.config.smtp_server.clone(),
                smtp_port: self.config.smtp_port,
                sender_email: self.config.sender_email.clone(),
                sender_password: self.config.sender_password.clone(),
                recipient_email: self.config.recipient_email.clone(),
                subject: String::from_str(subject),
                plain_body,
                html_body: String::from_str(message),
            },
        )
    }

    /// Composes the host-CPU alert for the current check time and decides
    /// its dispatch.
    pub fn send_cpu_alert(&self, server_cpu_centi: u64, high_cpu_containers: &Vec<
        ContainerStats,
    >) -> (r: Option<OutgoingEmail>)
        ensures
            r is Some <==> self.enabled,
            self.enabled ==> exists|ts: Seq<char>|
                {
                    &&& r->0.subject@ == #[trigger] cpu_alert_subject(ts)
                    &&& r->0.html_body@ == cpu_alert_html(
                        ts,
                        server_cpu_centi,
                        views_of(high_cpu_containers@),
                    )
                    &&& r->0.plain_body@ == strip_tags_spec(r->0.html_body@)
                    &&& transport_matches(r->0, self.config)
                },
    {
        let ts = now_timestamp();
        let ghost gts = ts@;
        let mut subject = String::from_str("🚨 HIGH CPU USAGE ALERT - ");
        subject.append(ts.as_str());
        let mut html = String::from_str(
            "<html><body><h2>🚨 HIGH CPU USAGE ALERT</h2><p><strong>Time:</strong> ",
        );
        html.append(ts.as_str());
        html.append(
            "</p><h3>📊 Server CPU Usage</h3><p><strong>Current CPU Usage:</strong> <span style=\"color: red; font-size: 18px; font-weight: bold;\">",
        );
        let cpu = centi_to_string(server_cpu_centi);
        html.append(cpu.as_str());
        html.append(
            "%</span></p><p><strong>Threshold:</strong> 80%</p><h3>🐳 High CPU Docker Containers</h3>",
        );
        let table = self.format_container_table(high_cpu_containers);
        html.append(table.as_str());
        html.append(
            "<br><p><em>This is an automated alert from your Docker & Server Performance Monitoring System.</em></p><p><em>Please check your server and containers immediately.</em></p></body></html>",
        );
        proof {
            assert(subject@ =~= cpu_alert_subject(gts));
            assert(html@ =~= cpu_alert_html(
                gts,
                server_cpu_centi,
                views_of(high_cpu_containers@),
            ));
        }
        self.send_alert(subject.as_str(), html.as_str())
    }

    /// Composes the container-CPU alert for the current check time and
    /// decides its dispatch.
    pub fn send_container_cpu_alert(&self, high_cpu_containers: &Vec<ContainerStats>) -> (r:
        Option<OutgoingEmail>)
        ensures
            r is Some <==> self.enabled,
            self.enabled ==> exists|ts: Seq<char>|
                {
                    &&& r->0.subject@ == #[trigger] container_alert_subject(ts)
                    &&& r->0.html_body@ == container_alert_html(
                        ts,
                        views_of(high_cpu_containers@),
                    )
                    &&& r->0.plain_body@ == strip_tags_spec(r->0.html_body@)
                    &&& transport_matches(r->0, self.config)
                },
    {
        let ts = now_timestamp();
        let ghost gts = ts@;
        let mut subject = String::from_str("🐳 HIGH CONTAINER CPU ALERT - ");
        subject.append(ts.as_str());
        let mut html = String::from_str(
            "<html><body><h2>🐳 HIGH CONTAINER CPU USAGE ALERT</h2><p><strong>Time:</strong> ",
        );
        html.append(ts.as_str());
        html.append("</p><h3>🔥 High CPU Docker Containers</h3>");
        let table = self.format_detailed_container_table(high_cpu_containers);
        html.append(table.as_str());
        html.append(
            "<br><p><em>This is an automated alert from your Docker & Server Performance Monitoring System.</em></p><p><em>Please check the highlighted containers immediately.</em></p></body></html>",
        );
        proof {
            assert(subject@ =~= container_alert_subject(gts));
            assert(html@ =~= container_alert_html(gts, views_of(high_cpu_containers@)));
        }
        self.send_alert(subject.as_str(), html.as_str())
    }

    /// Composes the configuration-test message for the current check time
    /// and decides its dispatch.
    pub fn send_test_email(&self) -> (r: Option<OutgoingEmail>)
        ensures
            r is Some <==> self.enabled,
            self.enabled ==> exists|ts: Seq<char>|
                {
                    &&& r->0.subject@ == test_email_subject()
                    &&& r->0.html_body@ == #[trigger] test_email_html(ts)
                    &&& r->0.plain_body@ == strip_tags_spec(r->0.html_body@)
                    &&& transport_matches(r->0, self.config)
                },
    {
        let ts = now_timestamp();
        let ghost gts = ts@;
        let subject = String::from_str("🧪 Test Email - Docker & Server Performance Monitoring");
        let mut html = String::from_str(
            "<html><body><h2>🧪 Test Email</h2><p>This is a test email from your Docker & Server Performance Monitoring System.</p><p><strong>Time:</strong> ",
        );
        html.append(ts.as_str());
        html.append(
            "</p><p>If you receive this email, your email configuration is working correctly.</p><br><p><em>System is ready to send alerts when CPU usage exceeds the threshold.</em></p></body></html>",
        );
        proof {
            assert(subject@ =~= test_email_subject());
            assert(html@ =~= test_email_html(gts));
        }
        self.send_alert(subject.as_str(), html.as_str())
    }
}

} // verus!
