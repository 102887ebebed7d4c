//! Tests of the network-overview queries, batch alert parsing, and the
//! command-line sample filter.

use hefesto::features::procwatch_cmd::filter_by_match;
use hefesto::portinfo::binding::{ConnectionState, PortBinding, Protocol};
use hefesto::portinfo::enriched::EnrichedPortBinding;
use hefesto::portinfo::overview::NetworkOverview;
use hefesto::portinfo::service_info::{ServiceCategory, ServiceInfo};
use hefesto::procwatch::monitor::{ProcessMonitorService, ProcessSampler};
use hefesto::procwatch::sample::ProcessSample;

fn binding(port: u16, addr: &str, pid: u32, name: &str, state: ConnectionState) -> PortBinding {
    PortBinding {
        port,
        protocol: Protocol::Tcp,
        state,
        pid,
        process_name: name.to_string(),
        command_line: String::new(),
        user: String::new(),
        local_address: addr.to_string(),
        remote_address: String::new(),
        remote_port: 0,
    }
}

fn sample_overview() -> NetworkOverview {
    let bindings = vec![
        EnrichedPortBinding::from_binding(binding(80, "0.0.0.0", 10, "nginx", ConnectionState::Listen)),
        EnrichedPortBinding::from_binding(binding(443, "127.0.0.1", 10, "nginx", ConnectionState::Listen)),
        EnrichedPortBinding::with_service(
            binding(3306, "127.0.0.1", 20, "mysqld", ConnectionState::Established),
            ServiceInfo::new("MySQL", "MySQL Database", ServiceCategory::Database),
        ),
    ];
    NetworkOverview::from_bindings(bindings)
}

#[test]
fn test_overview_listening_ports() {
    let o = sample_overview();
    let listening = o.listening_ports();
    assert_eq!(listening.len(), 2);
    assert_eq!(listening[0].binding.port, 80);
    assert_eq!(listening[1].binding.port, 443);
}

#[test]
fn test_overview_exposed_and_local() {
    let o = sample_overview();
    let exposed = o.exposed_ports();
    assert_eq!(exposed.len(), 1);
    assert_eq!(exposed[0].binding.port, 80);
    let local = o.local_only_ports();
    assert_eq!(local.len(), 2);
}

#[test]
fn test_overview_by_pid_and_name() {
    let o = sample_overview();
    assert_eq!(o.by_pid(10).len(), 2);
    assert_eq!(o.by_pid(99).len(), 0);
    assert_eq!(o.by_process_name("nginx").len(), 2);
    assert_eq!(o.filter_by_process_name("NGIN").len(), 2);
    assert_eq!(o.by_service_category(&ServiceCategory::Database).len(), 1);
}

#[test]
fn test_overview_unique_and_docker() {
    let o = sample_overview();
    assert_eq!(o.unique_pids(), vec![10, 20]);
    let names = o.unique_process_names();
    assert_eq!(names, vec!["nginx".to_string(), "mysqld".to_string()]);
    assert_eq!(o.docker_container_count(), 0);
}

// ── Batch alert parsing ────────────────────────────────────────────────

struct NoSampler;

impl ProcessSampler for NoSampler {
    fn sample_by_pid(&self, _pid: u32) -> Result<Option<ProcessSample>, String> {
        Ok(None)
    }

    fn sample_by_name(&self, _name: &str) -> Result<Vec<ProcessSample>, String> {
        Ok(Vec::new())
    }

    fn top_by_cpu(&self, _limit: usize) -> Result<Vec<ProcessSample>, String> {
        Ok(Vec::new())
    }

    fn top_by_memory(&self, _limit: usize) -> Result<Vec<ProcessSample>, String> {
        Ok(Vec::new())
    }

    fn get_all_processes(&self) -> Result<Vec<ProcessSample>, String> {
        Ok(Vec::new())
    }
}

#[test]
fn test_parse_alerts_keeps_valid_in_order() {
    let service = ProcessMonitorService::new(NoSampler);
    let exprs = vec![
        "cpu>80%".to_string(),
        "garbage".to_string(),
        "rss>1.5GB".to_string(),
        "bogus>1".to_string(),
        "threads>100".to_string(),
    ];
    let rules = service.parse_alerts(&exprs);
    assert_eq!(rules.len(), 3);
    assert_eq!(rules[0].expression, "cpu>80%");
    assert_eq!(rules[1].expression, "rss>1.5GB");
    assert_eq!(rules[2].expression, "threads>100");
}

#[test]
fn test_parse_alerts_empty_when_nothing_parses() {
    let service = ProcessMonitorService::new(NoSampler);
    let exprs = vec!["nope".to_string(), "".to_string()];
    assert!(service.parse_alerts(&exprs).is_empty());
}

// ── Command-line filter ────────────────────────────────────────────────

fn sample_with_cmd(pid: u32, cmd: &str) -> ProcessSample {
    let mut s = ProcessSample::minimal(pid, "java", "user");
    s.command_line = cmd.to_string();
    s
}

#[test]
fn test_filter_by_match_none() {
    let samples = vec![sample_with_cmd(1, "java -jar a.jar")];
    let filtered = filter_by_match(&samples, None);
    assert_eq!(filtered.len(), 1);
}

#[test]
fn test_filter_by_match_some() {
    let samples = vec![
        sample_with_cmd(1, "java -jar myservice.jar"),
        sample_with_cmd(2, "java -jar other.jar"),
        sample_with_cmd(3, "java -jar MYSERVICE-v2.jar"),
    ];
    let filtered = filter_by_match(&samples, Some("myservice"));
    assert_eq!(filtered.len(), 2);
    assert_eq!(filtered[0].pid, 1);
    assert_eq!(filtered[1].pid, 3);
    let all = filter_by_match(&samples, Some(""));
    assert_eq!(all.len(), 3);
}
