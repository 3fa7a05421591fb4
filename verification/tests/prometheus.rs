use stackable_monitoring::error::Error;
use stackable_monitoring::prometheus::{
    federation_template_outcome, nodepods_template_outcome, Action, ConfigManager, FederationTemplateDataBuilder,
    KubernetesSdConfigRole, NodepodsTemplateDataBuilder, TemplateValue,
};
use stackable_monitoring::properties::Properties;

fn render(tdata: &NodepodsTemplateDataBuilder) -> serde_yaml::Value {
    let text = ConfigManager::render_nodepods_template(tdata).unwrap();
    serde_yaml::from_str(&text).unwrap()
}

fn text_var<'a>(vars: &'a [(String, TemplateValue)], name: &str) -> &'a str {
    match vars.iter().find(|(n, _)| n == name).map(|(_, v)| v) {
        Some(TemplateValue::Text(s)) => s.as_str(),
        _ => panic!("no text variable {}", name),
    }
}

fn flag_var(vars: &[(String, TemplateValue)], name: &str) -> bool {
    match vars.iter().find(|(n, _)| n == name).map(|(_, v)| v) {
        Some(TemplateValue::Flag(b)) => *b,
        _ => panic!("no flag variable {}", name),
    }
}

#[test]
fn test_nodepods_template() {
    let config = render(&NodepodsTemplateDataBuilder::new_with_namespace_and_node_name("default", "localhost"));
    assert_eq!(
        config["scrape_configs"][0]["kubernetes_sd_configs"][0]["selectors"][0]["field"].as_str().unwrap(),
        "spec.nodeName=localhost"
    );
}

#[test]
fn test_nodepods_and_node_template() {
    let config = render(
        NodepodsTemplateDataBuilder::new_with_namespace_and_node_name("default", "localhost")
            .with_node_exporter(Some(9111)),
    );
    assert_eq!(
        config["scrape_configs"][1]["static_configs"][0]["targets"][0].as_str().unwrap(),
        "localhost:9111"
    );
}

#[test]
fn test_serialize() {
    let config = render(&NodepodsTemplateDataBuilder::new_with_namespace_and_node_name("default", "localhost"));
    let yaml = serde_yaml::to_string(&config);
    assert!(yaml.is_ok())
}

#[test]
fn rendered_template_holds_the_data() {
    let mut props = Properties::new();
    props.insert("scrapeInterval".to_string(), "15s".to_string());
    props.insert("scheme".to_string(), "http".to_string());
    let mut data = NodepodsTemplateDataBuilder::new_with_namespace_and_node_name("monitoring", "node-1");
    data.with_config(&props).with_node_exporter(Some(9100));
    let config = render(data.build());
    assert_eq!(config["global"]["evaluation_interval"].as_str(), Some("60s"));
    let job = &config["scrape_configs"][0];
    assert_eq!(job["job_name"].as_str(), Some("nodepods"));
    assert_eq!(job["scrape_interval"].as_str(), Some("15s"));
    assert_eq!(job["scrape_timeout"].as_str(), Some("30s"));
    assert_eq!(job["scheme"].as_str(), Some("http"));
    assert_eq!(job["kubernetes_sd_configs"][0]["namespaces"]["names"][0].as_str(), Some("monitoring"));
    assert_eq!(config["scrape_configs"][1]["job_name"].as_str(), Some("node"));
    assert_eq!(config["scrape_configs"][1]["scrape_interval"].as_str(), Some("15s"));
}

#[test]
fn without_node_exporter_there_is_one_job() {
    let mut data = NodepodsTemplateDataBuilder::new_with_namespace_and_node_name("default", "localhost");
    data.with_node_exporter(None);
    let config = render(&data);
    assert_eq!(config["scrape_configs"].as_sequence().map(|s| s.len()), Some(1));
}

#[test]
fn builder_defaults() {
    let data = NodepodsTemplateDataBuilder::new_with_namespace_and_node_name("ns", "n1");
    let vars = data.template_variables();
    assert_eq!(vars.len(), 11);
    assert_eq!(text_var(&vars, "global_evaluation_interval"), "60s");
    assert_eq!(text_var(&vars, "scrape_configs_k8s_scrape_interval"), "60s");
    assert_eq!(text_var(&vars, "scrape_configs_k8s_scrape_timeout"), "30s");
    assert_eq!(text_var(&vars, "scrape_configs_k8s_scheme"), "https");
    assert_eq!(text_var(&vars, "scrape_configs_k8s_namespace"), "ns");
    assert_eq!(text_var(&vars, "scrape_configs_k8s_selector_node_name"), "n1");
    assert_eq!(text_var(&vars, "node_exporter_metrics_port"), "9100");
    assert!(!flag_var(&vars, "with_node_scraper"));
    assert_eq!(text_var(&vars, "node_exporter_instance"), "");
    assert_eq!(text_var(&vars, "node_exporter_node_name"), "");
    assert_eq!(text_var(&vars, "node_exporter_namespace"), "");
}

#[test]
fn with_node_exporter_labels_sets_labels() {
    let mut data = NodepodsTemplateDataBuilder::new_with_namespace_and_node_name("ns", "n1");
    data.with_node_exporter_labels("simple", "node-7", "monitoring");
    let vars = data.template_variables();
    assert_eq!(text_var(&vars, "node_exporter_instance"), "simple");
    assert_eq!(text_var(&vars, "node_exporter_node_name"), "node-7");
    assert_eq!(text_var(&vars, "node_exporter_namespace"), "monitoring");
    assert_eq!(text_var(&vars, "scrape_configs_k8s_selector_node_name"), "n1");
    assert!(!flag_var(&vars, "with_node_scraper"));
}

#[test]
fn federation_builder_defaults_and_config() {
    let data = FederationTemplateDataBuilder::new_with_namespace("ns");
    let vars = data.template_variables();
    assert_eq!(vars.len(), 5);
    assert_eq!(text_var(&vars, "global_evaluation_interval"), "60s");
    assert_eq!(text_var(&vars, "scrape_configs_k8s_scrape_interval"), "60s");
    assert_eq!(text_var(&vars, "scrape_configs_k8s_scrape_timeout"), "30s");
    assert_eq!(text_var(&vars, "scrape_configs_k8s_scheme"), "https");
    assert_eq!(text_var(&vars, "scrape_configs_k8s_namespace"), "ns");
    let mut props = Properties::new();
    props.insert("evaluationInterval".to_string(), "2m".to_string());
    props.insert("scrapeTimeout".to_string(), "9s".to_string());
    let mut data = FederationTemplateDataBuilder::new_with_namespace("ns");
    let built = data.with_config(&props).build().clone();
    let vars = built.template_variables();
    assert_eq!(text_var(&vars, "global_evaluation_interval"), "2m");
    assert_eq!(text_var(&vars, "scrape_configs_k8s_scrape_interval"), "60s");
    assert_eq!(text_var(&vars, "scrape_configs_k8s_scrape_timeout"), "9s");
    assert_eq!(text_var(&vars, "scrape_configs_k8s_scheme"), "https");
}

#[test]
fn rendered_federation_template_holds_the_data() {
    let mut props = Properties::new();
    props.insert("scrapeInterval".to_string(), "20s".to_string());
    props.insert("scheme".to_string(), "http".to_string());
    let mut data = FederationTemplateDataBuilder::new_with_namespace("monitoring");
    data.with_config(&props);
    let text = ConfigManager::render_federation_template(data.build()).unwrap();
    let config: serde_yaml::Value = serde_yaml::from_str(&text).unwrap();
    assert_eq!(config["global"]["evaluation_interval"].as_str(), Some("60s"));
    let job = &config["scrape_configs"][0];
    assert_eq!(job["job_name"].as_str(), Some("federate"));
    assert_eq!(job["metrics_path"].as_str(), Some("/federate"));
    assert_eq!(job["scrape_interval"].as_str(), Some("20s"));
    assert_eq!(job["scrape_timeout"].as_str(), Some("30s"));
    assert_eq!(job["scheme"].as_str(), Some("http"));
    assert_eq!(job["kubernetes_sd_configs"][0]["namespaces"]["names"][0].as_str(), Some("monitoring"));
    assert_eq!(config["scrape_configs"].as_sequence().map(|s| s.len()), Some(1));
}

#[test]
fn with_node_exporter_sets_port_and_flag() {
    let mut data = NodepodsTemplateDataBuilder::new_with_namespace_and_node_name("ns", "n1");
    let before = data.clone();
    data.with_node_exporter(None);
    assert_eq!(data, before);
    data.with_node_exporter(Some(9200));
    let vars = data.template_variables();
    assert_eq!(text_var(&vars, "node_exporter_metrics_port"), "9200");
    assert!(flag_var(&vars, "with_node_scraper"));
}

#[test]
fn with_config_takes_known_properties() {
    let mut props = Properties::new();
    props.insert("evaluationInterval".to_string(), "1m".to_string());
    props.insert("scrapeTimeout".to_string(), "5s".to_string());
    props.insert("unknown".to_string(), "x".to_string());
    let mut data = NodepodsTemplateDataBuilder::new_with_namespace_and_node_name("ns", "n1");
    let built = data.with_config(&props).build().clone();
    let vars = built.template_variables();
    assert_eq!(text_var(&vars, "global_evaluation_interval"), "1m");
    assert_eq!(text_var(&vars, "scrape_configs_k8s_scrape_interval"), "60s");
    assert_eq!(text_var(&vars, "scrape_configs_k8s_scrape_timeout"), "5s");
    assert_eq!(text_var(&vars, "scrape_configs_k8s_scheme"), "https");
}

#[test]
fn render_failure_becomes_yaml_error() {
    assert_eq!(nodepods_template_outcome(Ok("a: b".to_string())), Ok("a: b".to_string()));
    assert_eq!(
        nodepods_template_outcome(Err("broken".to_string())),
        Err(Error::YamlNotParsable { content: "NODEPODS_TEMPLATE".to_string(), reason: "broken".to_string() })
    );
    assert_eq!(federation_template_outcome(Ok("a: b".to_string())), Ok("a: b".to_string()));
    assert_eq!(
        federation_template_outcome(Err("broken".to_string())),
        Err(Error::YamlNotParsable { content: "FEDERATION_TEMPLATE".to_string(), reason: "broken".to_string() })
    );
}

#[test]
fn defaults_of_enums() {
    assert_eq!(KubernetesSdConfigRole::default(), KubernetesSdConfigRole::Pod);
    assert_eq!(Action::default(), Action::Replace);
}

#[test]
fn config_manager_holds_config() {
    let mut config = stackable_monitoring::prometheus::Config::default();
    config.global.scrape_interval = Some("1s".to_string());
    let manager = ConfigManager::from_config(config.clone());
    assert_eq!(manager.config(), &config);
}
