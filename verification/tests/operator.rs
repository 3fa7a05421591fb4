use stackable_monitoring::crd::{
    ContainerPort, Error as CrdError, MonitoringCluster, MonitoringClusterSpec, MonitoringClusterStatus,
    MonitoringRole, MonitoringVersion, NodeMonitoringConfig, PodMonitoringConfig, Role,
};
use stackable_monitoring::error::Error;
use stackable_monitoring::operator::{
    init_status, property_kinds, roles_to_configure, ConditionStatus, ConfigContent, MissingPodsStep, MonitoringState,
    GroupNodes, PropertyNameKind, StatusUpdate,
};
use stackable_monitoring::prometheus::{NodepodsTemplateDataBuilder, TemplateValue};
use stackable_monitoring::properties::Properties;

fn strings(v: &[&str]) -> Vec<String> {
    v.iter().map(|s| s.to_string()).collect()
}

fn spec(version: MonitoringVersion) -> MonitoringClusterSpec {
    MonitoringClusterSpec {
        version,
        pod_aggregator: {
            let mut r = Role::new();
            r.insert(
                "default".to_string(),
                Some(PodMonitoringConfig {
                    web_ui_port: Some(9090),
                    scrape_interval: None,
                    scrape_timeout: None,
                    evaluation_interval: None,
                    scheme: None,
                    cli_args: strings(&["--user"]),
                }),
            );
            r
        },
        node_exporter: Some({
            let mut r = Role::new();
            r.insert(
                "default".to_string(),
                Some(NodeMonitoringConfig { metrics_port: Some(9101), cli_args: vec![] }),
            );
            r
        }),
        federation: None,
    }
}

fn status(current: Option<MonitoringVersion>, target: Option<MonitoringVersion>) -> MonitoringClusterStatus {
    MonitoringClusterStatus { current_version: current, target_version: target, conditions: vec![] }
}

fn state(version: MonitoringVersion, st: Option<MonitoringClusterStatus>) -> MonitoringState {
    MonitoringState {
        resource: MonitoringCluster {
            name: "simple".to_string(),
            namespace: "monitoring".to_string(),
            spec: spec(version),
            status: st,
        },
    }
}

fn condition(message: &str, reason: &str, status: ConditionStatus) -> StatusUpdate {
    StatusUpdate::SetUpgradingCondition { message: message.to_string(), reason: reason.to_string(), status }
}

/// Applies the version changes to a status, as the caller would.
fn apply(st: &mut MonitoringClusterStatus, updates: &[StatusUpdate]) {
    for u in updates {
        match u {
            StatusUpdate::SetTargetVersion(t) => st.target_version = *t,
            StatusUpdate::SetCurrentVersion(c) => st.current_version = *c,
            _ => {}
        }
    }
}

const V1: MonitoringVersion = MonitoringVersion::v2_28_1;
const V2: MonitoringVersion = MonitoringVersion::v2_30_0;

#[test]
fn init_without_status_starts_installation() {
    assert_eq!(
        init_status(&None, &V1),
        vec![
            StatusUpdate::InitializeStatus,
            condition("Initial installation to version [v2_28_1]", "InitialInstallation", ConditionStatus::True),
            StatusUpdate::SetTargetVersion(Some(V1)),
        ]
    );
}

#[test]
fn init_during_installation_keeps_target() {
    assert_eq!(
        init_status(&Some(status(None, Some(V1))), &V2),
        vec![condition("Initial installation to version [v2_28_1]", "InitialInstallation", ConditionStatus::True)]
    );
}

#[test]
fn init_stable_same_version() {
    assert_eq!(
        init_status(&Some(status(Some(V2), None)), &V2),
        vec![condition("No upgrade required [v2_30_0] is still the current_version", "", ConditionStatus::False)]
    );
}

#[test]
fn init_stable_upgrade() {
    assert_eq!(
        init_status(&Some(status(Some(V1), None)), &V2),
        vec![
            StatusUpdate::SetTargetVersion(Some(V2)),
            condition("Upgrading from [v2_28_1] to [v2_30_0]", "Upgrading", ConditionStatus::True),
        ]
    );
}

#[test]
fn init_stable_downgrade_is_ignored() {
    assert_eq!(init_status(&Some(status(Some(V2), None)), &V1), vec![]);
}

#[test]
fn init_while_upgrading() {
    assert_eq!(
        state(V1, Some(status(Some(V1), Some(V2)))).init_status(),
        vec![condition("Upgrading from [v2_28_1] to [v2_30_0]", "", ConditionStatus::False)]
    );
}

#[test]
fn initial_installation_reaches_spec_version() {
    let mut st = MonitoringClusterStatus::default();
    apply(&mut st, &init_status(&None, &V2));
    assert_eq!((st.current_version, st.target_version), (None, Some(V2)));
    let s = state(V2, Some(st.clone()));
    match s.create_missing_pods(&vec![]) {
        Ok(MissingPodsStep::Finalize(updates)) => {
            assert_eq!(
                updates,
                vec![
                    StatusUpdate::SetTargetVersion(None),
                    StatusUpdate::SetCurrentVersion(Some(V2)),
                    condition("No upgrade required [v2_30_0] is still the current_version", "", ConditionStatus::False),
                ]
            );
            apply(&mut st, &updates);
        }
        other => panic!("unexpected {:?}", other),
    }
    assert_eq!((st.current_version, st.target_version), (Some(V2), None));
}

#[test]
fn finalize_without_target_changes_nothing() {
    let s = state(V1, Some(status(Some(V1), None)));
    assert_eq!(s.create_missing_pods(&vec![]), Ok(MissingPodsStep::Finalize(vec![])));
}

#[test]
fn finalize_without_status_is_an_error() {
    let s = state(V1, None);
    assert_eq!(
        s.create_missing_pods(&vec![]),
        Err(Error::ReconcileError(
            "`Prometheus status missing, this is a programming error and should never happen. Please report in our issue tracker."
                .to_string()
        ))
    );
}

#[test]
fn next_pod_goes_to_first_named_node() {
    let s = state(V1, None);
    let candidates = vec![
        GroupNodes { role: MonitoringRole::Federation, group: "f".to_string(), node_names: vec![Some("n3".to_string())] },
        GroupNodes { role: MonitoringRole::PodAggregator, group: "default".to_string(), node_names: vec![None] },
        GroupNodes { role: MonitoringRole::NodeExporter, group: "e".to_string(), node_names: vec![] },
        GroupNodes {
            role: MonitoringRole::NodeExporter,
            group: "g".to_string(),
            node_names: vec![None, Some("n2".to_string()), Some("n4".to_string())],
        },
    ];
    match s.create_missing_pods(&candidates) {
        Ok(MissingPodsStep::CreatePod(p)) => {
            assert_eq!(p.role, MonitoringRole::NodeExporter);
            assert_eq!(p.group, "g");
            assert_eq!(p.node_name, "n2");
        }
        other => panic!("unexpected {:?}", other),
    }
}

#[test]
fn required_labels() {
    let labels = state(V2, None).get_required_labels();
    assert_eq!(
        labels,
        vec![
            (
                "app.kubernetes.io/component".to_string(),
                Some(strings(&["pod-aggregator", "node-exporter", "federation"]))
            ),
            ("app.kubernetes.io/instance".to_string(), Some(strings(&["simple"]))),
            ("app.kubernetes.io/version".to_string(), Some(strings(&["2.30.0"]))),
        ]
    );
}

#[test]
fn roles_and_their_property_kinds() {
    let file = PropertyNameKind::File("prometheus.yaml".to_string());
    assert_eq!(property_kinds(MonitoringRole::NodeExporter), vec![PropertyNameKind::Cli]);
    assert_eq!(property_kinds(MonitoringRole::Federation), vec![file.clone(), PropertyNameKind::Cli]);
    let mut sp = spec(V1);
    assert_eq!(
        roles_to_configure(&sp),
        vec![
            (MonitoringRole::PodAggregator, vec![file.clone(), PropertyNameKind::Cli]),
            (MonitoringRole::NodeExporter, vec![PropertyNameKind::Cli]),
        ]
    );
    sp.node_exporter = None;
    assert_eq!(roles_to_configure(&sp), vec![(MonitoringRole::PodAggregator, vec![file, PropertyNameKind::Cli])]);
}

fn props(entries: &[(&str, &str)]) -> Properties {
    let mut p = Properties::new();
    for (k, v) in entries {
        p.insert(k.to_string(), v.to_string());
    }
    p
}

#[test]
fn pod_container_for_prometheus() {
    let s = state(V1, None);
    let env = props(&[("", "skipped"), ("LOG", "debug")]);
    let cli = props(&[("webUiPort", "9095"), ("nodeMetricsPort", "9100")]);
    let c = s
        .pod_container(
            &MonitoringRole::PodAggregator,
            "default",
            Some(&env),
            Some(&cli),
            Some(Some("cm".to_string())),
            "pod".to_string(),
        )
        .unwrap();
    assert_eq!(c.name, "monitoring");
    assert_eq!(c.image, "stackable/prometheus:2.28.1");
    assert_eq!(c.command, strings(&["prometheus-2.28.1.linux-amd64/prometheus-wrapper.sh"]));
    assert_eq!(
        c.args,
        strings(&[
            "--web.listen-address=:9095",
            "--config.file={{configroot}}/conf/prometheus.yaml",
            "--log.level debug",
            "--user",
        ])
    );
    assert_eq!(c.env_vars, vec![("LOG".to_string(), "debug".to_string())]);
    assert_eq!(
        c.container_ports,
        vec![
            ContainerPort { container_port: 9095, name: "metrics".to_string() },
            ContainerPort { container_port: 9095, name: "http".to_string() },
        ]
    );
    assert_eq!(c.config_map_volume, Some(("cm".to_string(), "conf".to_string())));
}

#[test]
fn pod_container_for_node_exporter() {
    let s = state(V1, None);
    let cli = props(&[("nodeMetricsPort", "9101")]);
    let c = s
        .pod_container(&MonitoringRole::NodeExporter, "default", None, Some(&cli), None, "pod".to_string())
        .unwrap();
    assert_eq!(c.image, "node-exporter:1.2.0");
    assert_eq!(c.args, strings(&["--web.listen-address=127.0.0.1:9101"]));
    assert!(c.env_vars.is_empty());
    assert_eq!(c.container_ports, vec![ContainerPort { container_port: 9101, name: "metrics".to_string() }]);
    assert_eq!(c.config_map_volume, None);
}

#[test]
fn pod_container_default_port() {
    let s = state(V1, None);
    let c = s
        .pod_container(&MonitoringRole::Federation, "none", None, None, Some(Some("cm".to_string())), "p".to_string())
        .unwrap();
    assert_eq!(c.container_ports, vec![ContainerPort { container_port: 9090, name: "http".to_string() }]);
    assert_eq!(c.args[0], "--web.listen-address=:9090");
    assert_eq!(c.args[3], "--storage.tsdb.path={{configroot}}/data/");
}

#[test]
fn pod_container_errors() {
    let s = state(V1, None);
    assert_eq!(
        s.pod_container(&MonitoringRole::PodAggregator, "default", None, None, None, "pod-1".to_string()),
        Err(Error::MissingConfigMapError { cm_type: "config", pod_name: "pod-1".to_string() })
    );
    assert_eq!(
        s.pod_container(&MonitoringRole::Federation, "default", None, None, Some(None), "pod-1".to_string()),
        Err(Error::MissingConfigMapNameError { cm_type: "config" })
    );
    let cli = props(&[("webUiPort", "http")]);
    assert_eq!(
        s.pod_container(&MonitoringRole::PodAggregator, "default", None, Some(&cli), None, "pod-1".to_string()),
        Err(Error::CrdModuleError { source: CrdError::InvalidPort { port: "http".to_string() } })
    );
    assert_eq!(Error::InvalidConfigMap, Error::InvalidConfigMap);
    assert_ne!(
        Error::PrometheusConfigCannotBeSerialized { reason: "r".to_string() },
        Error::InvalidConfigMap
    );
}

#[test]
fn pod_aggregator_template_data_uses_group_port() {
    let s = state(V1, None);
    let data = s.pod_aggregator_template_data("default", "ns", "node-1", &props(&[("scheme", "http")]));
    let vars = data.template_variables();
    let get = |name: &str| vars.iter().find(|(n, _)| n == name).map(|(_, v)| match v {
        TemplateValue::Text(t) => t.clone(),
        TemplateValue::Flag(b) => b.to_string(),
    });
    assert_eq!(get("node_exporter_metrics_port"), Some("9101".to_string()));
    assert_eq!(get("with_node_scraper"), Some("true".to_string()));
    assert_eq!(get("scrape_configs_k8s_scheme"), Some("http".to_string()));
    assert_eq!(get("scrape_configs_k8s_selector_node_name"), Some("node-1".to_string()));
    assert_eq!(get("scrape_configs_k8s_namespace"), Some("ns".to_string()));
    assert_eq!(get("node_exporter_instance"), Some("simple".to_string()));
    assert_eq!(get("node_exporter_node_name"), Some("node-1".to_string()));
    assert_eq!(get("node_exporter_namespace"), Some("monitoring".to_string()));
    let other = s.pod_aggregator_template_data("other", "ns", "node-1", &Properties::new());
    let mut expected = NodepodsTemplateDataBuilder::new_with_namespace_and_node_name("ns", "node-1");
    expected.with_node_exporter_labels("simple", "node-1", "monitoring");
    assert_eq!(other, expected);
}

#[test]
fn federation_template_data_takes_namespace_and_config() {
    let s = state(V1, None);
    let data = s.federation_template_data("ns", &props(&[("scrapeInterval", "10s"), ("scheme", "http")]));
    let vars = data.template_variables();
    let get = |name: &str| vars.iter().find(|(n, _)| n == name).map(|(_, v)| match v {
        TemplateValue::Text(t) => t.clone(),
        TemplateValue::Flag(b) => b.to_string(),
    });
    assert_eq!(get("scrape_configs_k8s_namespace"), Some("ns".to_string()));
    assert_eq!(get("scrape_configs_k8s_scrape_interval"), Some("10s".to_string()));
    assert_eq!(get("scrape_configs_k8s_scheme"), Some("http".to_string()));
    assert_eq!(get("scrape_configs_k8s_scrape_timeout"), Some("30s".to_string()));
    assert_eq!(get("global_evaluation_interval"), Some("60s".to_string()));
}

#[test]
fn upgrade_reaches_spec_version() {
    let mut st = status(Some(V1), None);
    let s = state(V2, Some(st.clone()));
    apply(&mut st, &s.init_status());
    assert_eq!((st.current_version, st.target_version), (Some(V1), Some(V2)));
    // A later request for the old version does not redirect the running upgrade.
    let during = state(V1, Some(st.clone()));
    let mut kept = st.clone();
    apply(&mut kept, &during.init_status());
    assert_eq!((kept.current_version, kept.target_version), (Some(V1), Some(V2)));
    match state(V2, Some(st.clone())).create_missing_pods(&vec![]) {
        Ok(MissingPodsStep::Finalize(updates)) => apply(&mut st, &updates),
        other => panic!("unexpected {:?}", other),
    }
    assert_eq!((st.current_version, st.target_version), (Some(V2), None));
}

#[test]
fn config_content_plan_per_role() {
    let s = state(V1, None);
    let file = props(&[("scheme", "http")]);
    assert!(s.config_content_plan(&MonitoringRole::PodAggregator, "default", "ns", "n1", None).is_none());
    assert!(s.config_content_plan(&MonitoringRole::Federation, "default", "ns", "n1", None).is_none());
    assert_eq!(
        s.config_content_plan(&MonitoringRole::Federation, "default", "ns", "n1", Some(&file)),
        Some(ConfigContent::Federation(s.federation_template_data("ns", &file)))
    );
    assert_eq!(
        s.config_content_plan(&MonitoringRole::PodAggregator, "default", "ns", "n1", Some(&file)),
        Some(ConfigContent::PodAggregator(s.pod_aggregator_template_data("default", "ns", "n1", &file)))
    );
    assert_eq!(
        s.config_content_plan(&MonitoringRole::NodeExporter, "default", "ns", "n1", Some(&file)),
        Some(ConfigContent::Empty)
    );
}

#[test]
fn env_vars_in_name_order() {
    let s = state(V1, None);
    let env = props(&[("ZED", "1"), ("ALPHA", "2"), ("", "x"), ("MID", "3")]);
    let c = s
        .pod_container(&MonitoringRole::NodeExporter, "default", Some(&env), None, None, "p".to_string())
        .unwrap();
    assert_eq!(
        c.env_vars,
        vec![
            ("ALPHA".to_string(), "2".to_string()),
            ("MID".to_string(), "3".to_string()),
            ("ZED".to_string(), "1".to_string()),
        ]
    );
}
