//! Tests of the service registry, port bindings, and the port information
//! service over a mock platform parser.

use hefesto::port_parser::PortParser;
use hefesto::portinfo::binding::{ConnectionState, PortBinding, Protocol};
use hefesto::portinfo::port_service::PortInfoService;
use hefesto::portinfo::registry::ServiceRegistry;
use hefesto::portinfo::service_info::ServiceCategory;

#[test]
fn test_lookup_tcp() {
    let registry = ServiceRegistry::new();
    let info = registry.lookup_tcp(3306).unwrap();
    assert_eq!(info.name, "MySQL");
    assert_eq!(info.category, ServiceCategory::Database);
}

#[test]
fn test_lookup_udp() {
    let registry = ServiceRegistry::new();
    let info = registry.lookup_udp(53).unwrap();
    assert_eq!(info.name, "DNS");
    assert_eq!(info.category, ServiceCategory::Infra);
}

#[test]
fn test_lookup_by_protocol_string() {
    let registry = ServiceRegistry::new();
    assert!(registry.lookup(8080, "TCP").is_some());
    assert!(registry.lookup(8080, "tcp").is_some());
    assert!(registry.lookup(53, "UDP").is_some());
    assert!(registry.lookup(65535, "TCP").is_none());
}

#[test]
fn test_is_development_port() {
    let registry = ServiceRegistry::new();
    assert!(registry.is_development_port(5005));
    assert!(registry.is_development_port(9229));
    assert!(!registry.is_development_port(3306));
}

#[test]
fn test_is_database_port() {
    let registry = ServiceRegistry::new();
    assert!(registry.is_database_port(3306));
    assert!(registry.is_database_port(5432));
    assert!(!registry.is_database_port(8080));
}

#[test]
fn test_is_debug_port() {
    let registry = ServiceRegistry::new();
    assert!(registry.is_debug_port(5005));
    assert!(registry.is_debug_port(9229));
    assert!(registry.is_debug_port(5858));
    assert!(!registry.is_debug_port(80));
}

#[test]
fn test_by_category_database() {
    let registry = ServiceRegistry::new();
    let db_entries = registry.by_category(&ServiceCategory::Database);
    assert!(!db_entries.is_empty());
    // Sorted by port.
    let ports: Vec<u16> = db_entries.iter().map(|(p, _)| *p).collect();
    let mut sorted = ports.clone();
    sorted.sort();
    assert_eq!(ports, sorted);
}

#[test]
fn test_all_tcp_ports_not_empty() {
    let registry = ServiceRegistry::new();
    let ports = registry.all_tcp_ports();
    assert!(ports.len() > 50, "Expected 50+ TCP ports, got {}", ports.len());
}

#[test]
fn test_development_ports_list() {
    let registry = ServiceRegistry::new();
    let dev_ports = registry.development_ports();
    assert!(dev_ports.contains(&3000));
    assert!(dev_ports.contains(&8080));
    assert!(dev_ports.contains(&5005));
}

#[test]
fn test_database_ports_list() {
    let registry = ServiceRegistry::new();
    let db_ports = registry.database_ports();
    assert!(db_ports.contains(&3306));
    assert!(db_ports.contains(&5432));
    assert!(db_ports.contains(&27017));
}

#[test]
fn test_config_server_overwrites_jupyter() {
    let registry = ServiceRegistry::new();
    let info = registry.lookup_tcp(8888).unwrap();
    assert_eq!(info.name, "Config-Server");
}

// ── Port bindings ──────────────────────────────────────────────────────

#[test]
fn test_listen_binding() {
    let b = PortBinding::listen(8080, Protocol::Tcp, 1234, "java");
    assert_eq!(b.port, 8080);
    assert_eq!(b.protocol, Protocol::Tcp);
    assert_eq!(b.state, ConnectionState::Listen);
    assert_eq!(b.pid, 1234);
}

#[test]
fn test_to_compact() {
    let b = PortBinding::listen(8080, Protocol::Tcp, 1234, "java");
    assert_eq!(b.to_compact(), "TCP :8080 LISTEN java (pid 1234)");
}

#[test]
fn test_to_text_minimal() {
    let b = PortBinding::listen(80, Protocol::Tcp, 1, "nginx");
    let text = b.to_text();
    assert!(text.contains("TCP"));
    assert!(text.contains(":80"));
    assert!(text.contains("LISTEN"));
    assert!(text.contains("nginx"));
}

#[test]
fn test_to_text_with_remote() {
    let b = PortBinding {
        port: 443,
        protocol: Protocol::Tcp,
        state: ConnectionState::Established,
        pid: 100,
        process_name: "curl".to_string(),
        command_line: String::new(),
        user: "root".to_string(),
        local_address: "192.168.1.1".to_string(),
        remote_address: "8.8.8.8".to_string(),
        remote_port: 443,
    };
    let text = b.to_text();
    assert!(text.contains("-> 8.8.8.8:443"));
    assert!(text.contains("user=root"));
}

#[test]
fn test_connection_state_from_str() {
    assert_eq!(ConnectionState::from_str_loose("LISTEN"), ConnectionState::Listen);
    assert_eq!(ConnectionState::from_str_loose("ESTABLISHED"), ConnectionState::Established);
    assert_eq!(ConnectionState::from_str_loose("ESTAB"), ConnectionState::Established);
    assert_eq!(ConnectionState::from_str_loose("TIME_WAIT"), ConnectionState::TimeWait);
}

#[test]
fn test_protocol_from_str() {
    assert_eq!(Protocol::from_str_loose("tcp"), Protocol::Tcp);
    assert_eq!(Protocol::from_str_loose("UDP"), Protocol::Udp);
    assert_eq!(Protocol::from_str_loose("anything"), Protocol::Tcp);
}

// ── Port information service over a mock parser ────────────────────────

struct MockPortParser {
    bindings: Vec<PortBinding>,
}

impl MockPortParser {
    fn new(bindings: Vec<PortBinding>) -> Self {
        Self { bindings }
    }
}

impl PortParser for MockPortParser {
    fn find_by_port(&self, port: u16, _tcp: bool, _udp: bool) -> Result<Vec<PortBinding>, String> {
        Ok(self.bindings.iter().filter(|b| b.port == port).cloned().collect())
    }

    fn find_by_pid(&self, pid: u32) -> Result<Vec<PortBinding>, String> {
        Ok(self.bindings.iter().filter(|b| b.pid == pid).cloned().collect())
    }

    fn find_in_range(
        &self,
        from: u16,
        to: u16,
        _listen_only: bool,
    ) -> Result<Vec<PortBinding>, String> {
        Ok(self
            .bindings
            .iter()
            .filter(|b| b.port >= from && b.port <= to)
            .cloned()
            .collect())
    }

    fn find_all_listening(&self) -> Result<Vec<PortBinding>, String> {
        Ok(self
            .bindings
            .iter()
            .filter(|b| b.state == ConnectionState::Listen)
            .cloned()
            .collect())
    }

    fn find_all(&self, _tcp: bool, _udp: bool) -> Result<Vec<PortBinding>, String> {
        Ok(self.bindings.clone())
    }

    fn find_by_process_name(&self, name: &str) -> Result<Vec<PortBinding>, String> {
        let lower = name.to_lowercase();
        Ok(self
            .bindings
            .iter()
            .filter(|b| b.process_name.to_lowercase().contains(&lower))
            .cloned()
            .collect())
    }

    fn kill_process(&self, _pid: u32, _force: bool) -> Result<bool, String> {
        Ok(true)
    }
}

fn make_binding(port: u16, pid: u32, name: &str) -> PortBinding {
    PortBinding::listen(port, Protocol::Tcp, pid, name)
}

#[test]
fn test_find_by_port() {
    let bindings = vec![make_binding(8080, 100, "java")];
    let service = PortInfoService::new(MockPortParser::new(bindings));
    let result = service.find_by_port(8080);
    assert_eq!(result.len(), 1);
    assert_eq!(result[0].process_name, "java");
}

#[test]
fn test_find_by_pid() {
    let bindings = vec![
        make_binding(8080, 100, "java"),
        make_binding(8081, 100, "java"),
        make_binding(3000, 200, "node"),
    ];
    let service = PortInfoService::new(MockPortParser::new(bindings));
    let result = service.find_by_pid(100);
    assert_eq!(result.len(), 2);
}

#[test]
fn test_find_all_listening() {
    let bindings = vec![
        make_binding(8080, 100, "java"),
        PortBinding {
            port: 443,
            protocol: Protocol::Tcp,
            state: ConnectionState::Established,
            pid: 200,
            process_name: "curl".to_string(),
            command_line: String::new(),
            user: String::new(),
            local_address: "0.0.0.0".to_string(),
            remote_address: String::new(),
            remote_port: 0,
        },
    ];
    let service = PortInfoService::new(MockPortParser::new(bindings));
    let result = service.find_all_listening();
    assert_eq!(result.len(), 1);
    assert_eq!(result[0].port, 8080);
}

#[test]
fn test_enrich_binding_with_known_service() {
    let binding = make_binding(3306, 100, "mysqld");
    let service = PortInfoService::new(MockPortParser::new(vec![]));
    let enriched = service.enrich_binding(&binding);
    assert!(enriched.service_info.is_some());
    assert_eq!(enriched.service_info.as_ref().unwrap().name, "MySQL");
}

#[test]
fn test_enrich_binding_unknown_port() {
    let binding = make_binding(12345, 100, "custom");
    let service = PortInfoService::new(MockPortParser::new(vec![]));
    let enriched = service.enrich_binding(&binding);
    assert!(enriched.service_info.is_none());
}

#[test]
fn test_find_dev_ports() {
    let bindings = vec![
        make_binding(3000, 100, "node"),
        make_binding(3306, 200, "mysqld"),
        make_binding(8080, 300, "java"),
    ];
    let service = PortInfoService::new(MockPortParser::new(bindings));
    let result = service.find_dev_ports();
    let ports: Vec<u16> = result.iter().map(|b| b.port).collect();
    assert!(ports.contains(&3000));
    assert!(ports.contains(&8080));
    assert!(!ports.contains(&3306));
}

#[test]
fn test_find_by_process_name() {
    let bindings = vec![
        make_binding(8080, 100, "java"),
        make_binding(3000, 200, "node"),
        make_binding(9229, 200, "node"),
    ];
    let service = PortInfoService::new(MockPortParser::new(bindings));
    let result = service.find_by_process_name("node");
    assert_eq!(result.len(), 2);
}

#[test]
fn test_network_overview() {
    let bindings = vec![
        make_binding(8080, 100, "java"),
        make_binding(3306, 200, "mysqld"),
    ];
    let service = PortInfoService::new(MockPortParser::new(bindings));
    let overview = service.get_network_overview();
    assert_eq!(overview.statistics.total_listening, 2);
}
