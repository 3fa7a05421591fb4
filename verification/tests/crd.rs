use stackable_monitoring::crd::{
    ContainerPort, Error, MonitoringCluster, MonitoringClusterSpec, MonitoringClusterStatus,
    MonitoringConfig, MonitoringRole, MonitoringVersion, NodeMonitoringConfig, PodMonitoringConfig,
    Role,
};
use stackable_monitoring::versioning::VersioningState;

fn strings(v: &[&str]) -> Vec<String> {
    v.iter().map(|s| s.to_string()).collect()
}

fn pod_config(port: Option<u16>, cli_args: &[&str]) -> PodMonitoringConfig {
    PodMonitoringConfig {
        web_ui_port: port,
        scrape_interval: Some("10s".to_string()),
        scrape_timeout: None,
        evaluation_interval: Some("20s".to_string()),
        scheme: Some("http".to_string()),
        cli_args: strings(cli_args),
    }
}

fn role<T>(groups: Vec<(&str, Option<T>)>) -> Role<T> {
    let mut r = Role::new();
    for (name, config) in groups {
        r.insert(name.to_string(), config);
    }
    r
}

fn spec() -> MonitoringClusterSpec {
    MonitoringClusterSpec {
        version: MonitoringVersion::v2_28_1,
        pod_aggregator: role(vec![
            ("default", Some(pod_config(Some(9090), &["--a"]))),
            ("empty", None),
        ]),
        node_exporter: Some(role(vec![(
            "default",
            Some(NodeMonitoringConfig { metrics_port: Some(9111), cli_args: strings(&["--n"]) }),
        )])),
        federation: None,
    }
}

#[test]
fn test_zookeeper_version_versioning() {
    assert_eq!(
        MonitoringVersion::v2_28_1.versioning_state(&MonitoringVersion::v2_30_0),
        VersioningState::ValidUpgrade
    );
    assert_eq!(
        MonitoringVersion::v2_30_0.versioning_state(&MonitoringVersion::v2_28_1),
        VersioningState::ValidDowngrade
    );
    assert_eq!(
        MonitoringVersion::v2_28_1.versioning_state(&MonitoringVersion::v2_28_1),
        VersioningState::NoOp
    );
}

#[test]
fn test_version_conversion() {
    MonitoringVersion::from_str("2.28.1").unwrap();
    MonitoringVersion::from_str("2.30.0").unwrap();
    MonitoringVersion::from_str("1.2.3").unwrap_err();
}

#[test]
fn version_text_round_trip() {
    for v in [MonitoringVersion::v2_28_1, MonitoringVersion::v2_30_0] {
        assert_eq!(MonitoringVersion::from_str(&v.to_string()), Ok(v));
    }
    assert_eq!(MonitoringVersion::v2_28_1.to_string(), "2.28.1");
    assert_eq!(MonitoringVersion::v2_30_0.to_string(), "2.30.0");
    assert_eq!(MonitoringVersion::v2_30_0.variant_string(), "v2_30_0");
    assert_eq!(
        MonitoringVersion::from_str("2.28"),
        Err(Error::UnknownVersion { version: "2.28".to_string() })
    );
}

#[test]
fn is_valid_upgrade_follows_semver_order() {
    assert_eq!(MonitoringVersion::v2_28_1.is_valid_upgrade(&MonitoringVersion::v2_30_0), Ok(true));
    assert_eq!(MonitoringVersion::v2_30_0.is_valid_upgrade(&MonitoringVersion::v2_28_1), Ok(false));
    assert_eq!(MonitoringVersion::v2_28_1.is_valid_upgrade(&MonitoringVersion::v2_28_1), Ok(false));
}

#[test]
fn versioning_is_antisymmetric() {
    let all = [MonitoringVersion::v2_28_1, MonitoringVersion::v2_30_0];
    for a in all {
        for b in all {
            let forth = a.versioning_state(&b);
            let back = b.versioning_state(&a);
            assert_eq!(forth == VersioningState::ValidUpgrade, back == VersioningState::ValidDowngrade);
            assert_eq!(forth == VersioningState::NoOp, a == b);
        }
    }
}

#[test]
fn node_exporter_version() {
    assert_eq!(MonitoringVersion::v2_28_1.node_exporter(), "1.2.0");
    assert_eq!(MonitoringVersion::v2_30_0.node_exporter(), "1.2.0");
}

#[test]
fn role_names_and_order() {
    let names: Vec<String> = MonitoringRole::iter().iter().map(|r| r.to_string()).collect();
    assert_eq!(names, strings(&["pod-aggregator", "node-exporter", "federation"]));
}

#[test]
fn role_images() {
    let v = MonitoringVersion::v2_30_0;
    assert_eq!(MonitoringRole::PodAggregator.image(&v), "stackable/prometheus:2.30.0");
    assert_eq!(MonitoringRole::Federation.image(&v), "stackable/prometheus:2.30.0");
    assert_eq!(MonitoringRole::NodeExporter.image(&v), "node-exporter:1.2.0");
}

#[test]
fn role_commands() {
    let v = MonitoringVersion::v2_28_1;
    assert_eq!(
        MonitoringRole::PodAggregator.command(&v),
        strings(&["prometheus-2.28.1.linux-amd64/prometheus-wrapper.sh"])
    );
    assert_eq!(
        MonitoringRole::NodeExporter.command(&v),
        strings(&["node_exporter-1.2.0.linux-amd64/node_exporter"])
    );
}

#[test]
fn prometheus_args_without_user_args() {
    assert_eq!(
        MonitoringRole::PodAggregator.args("9090", vec![]),
        strings(&[
            "--web.listen-address=:9090",
            "--config.file={{configroot}}/conf/prometheus.yaml",
            "--log.level debug",
            "--storage.tsdb.path={{configroot}}/data/",
        ])
    );
}

#[test]
fn prometheus_args_with_user_args() {
    assert_eq!(
        MonitoringRole::Federation.args("9091", strings(&["--x", "--y"])),
        strings(&[
            "--web.listen-address=:9091",
            "--config.file={{configroot}}/conf/prometheus.yaml",
            "--log.level debug",
            "--x",
            "--y",
        ])
    );
}

#[test]
fn node_exporter_args() {
    assert_eq!(
        MonitoringRole::NodeExporter.args("9100", strings(&["--z"])),
        strings(&["--web.listen-address=127.0.0.1:9100", "--z"])
    );
    assert_eq!(
        MonitoringRole::NodeExporter.args("9100", vec![]),
        strings(&["--web.listen-address=127.0.0.1:9100"])
    );
}

#[test]
fn container_ports_per_role() {
    let port = |n: &str| ContainerPort { container_port: 9090, name: n.to_string() };
    assert_eq!(MonitoringRole::PodAggregator.container_ports("9090"), Ok(vec![port("metrics"), port("http")]));
    assert_eq!(MonitoringRole::NodeExporter.container_ports("+9090"), Ok(vec![port("metrics")]));
    assert_eq!(MonitoringRole::Federation.container_ports("09090"), Ok(vec![port("http")]));
}

#[test]
fn container_ports_refuse_bad_port() {
    for bad in ["", "70000", "-1", "90 90", "+", "port"] {
        assert_eq!(
            MonitoringRole::PodAggregator.container_ports(bad),
            Err(Error::InvalidPort { port: bad.to_string() })
        );
    }
}

#[test]
fn pod_config_properties() {
    let c = pod_config(Some(9090), &[]);
    assert!(c.compute_env().is_empty());
    assert_eq!(c.compute_cli(), vec![("webUiPort".to_string(), Some("9090".to_string()))]);
    assert_eq!(
        c.compute_files(),
        vec![
            ("evaluationInterval".to_string(), Some("20s".to_string())),
            ("scheme".to_string(), Some("http".to_string())),
            ("scrapeInterval".to_string(), Some("10s".to_string())),
        ]
    );
    assert!(pod_config(None, &[]).compute_cli().is_empty());
}

#[test]
fn monitoring_config_properties() {
    let c = MonitoringConfig {
        web_ui_port: Some(80),
        scrape_interval: None,
        scrape_timeout: Some("5s".to_string()),
        evaluation_interval: None,
        scheme: None,
    };
    assert!(c.compute_env().is_empty());
    assert_eq!(c.compute_cli(), vec![("webUiPort".to_string(), Some("80".to_string()))]);
    assert_eq!(c.compute_files(), vec![("scrapeTimeout".to_string(), Some("5s".to_string()))]);
}

#[test]
fn node_config_properties() {
    let c = NodeMonitoringConfig { metrics_port: Some(9100), cli_args: vec![] };
    assert!(c.compute_env().is_empty());
    assert!(c.compute_files().is_empty());
    assert_eq!(c.compute_cli(), vec![("nodeMetricsPort".to_string(), Some("9100".to_string()))]);
}

#[test]
fn node_exporter_metrics_port_by_group() {
    let s = spec();
    assert_eq!(s.node_exporter_metrics_port("default"), Some(9111));
    assert_eq!(s.node_exporter_metrics_port("other"), None);
    let mut without = spec();
    without.node_exporter = None;
    assert_eq!(without.node_exporter_metrics_port("default"), None);
}

#[test]
fn cli_args_by_role_and_group() {
    let s = spec();
    assert_eq!(s.cli_args(&MonitoringRole::PodAggregator, "default"), strings(&["--a"]));
    assert_eq!(s.cli_args(&MonitoringRole::PodAggregator, "empty"), Vec::<String>::new());
    assert_eq!(s.cli_args(&MonitoringRole::NodeExporter, "default"), strings(&["--n"]));
    assert_eq!(s.cli_args(&MonitoringRole::Federation, "default"), Vec::<String>::new());
}

#[test]
fn conditions_mut_creates_status() {
    let mut cluster = MonitoringCluster { name: "mc".to_string(), namespace: "ns".to_string(), spec: spec(), status: None };
    assert!(cluster.conditions().is_none());
    assert!(cluster.conditions_mut().is_empty());
    assert_eq!(cluster.status, Some(MonitoringClusterStatus::default()));
    assert_eq!(cluster.conditions().map(|c| c.len()), Some(0));
}

#[test]
fn port_text_round_trip() {
    for port in [0u16, 9, 10, 9100, 65535] {
        let cli = NodeMonitoringConfig { metrics_port: Some(port), cli_args: vec![] }.compute_cli();
        let text = cli[0].1.clone().unwrap();
        assert_eq!(text, port.to_string());
        assert_eq!(
            MonitoringRole::NodeExporter.container_ports(&text),
            Ok(vec![ContainerPort { container_port: port, name: "metrics".to_string() }])
        );
    }
}

#[test]
fn role_groups_have_unique_names() {
    let mut r = role(vec![("a", Some(1u8)), ("b", Some(2u8))]);
    assert_eq!(r.len(), 2);
    r.insert("a".to_string(), Some(3));
    assert_eq!(r.len(), 2);
    assert_eq!(r.group_config("a"), Some(&3));
    assert_eq!(r.group_config("b"), Some(&2));
    r.insert("c".to_string(), None);
    assert_eq!(r.len(), 3);
    assert_eq!(r.group_config("c"), None);
}
