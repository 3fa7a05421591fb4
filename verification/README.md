# stackable_monitoring

The core of the Stackable operator for monitoring (Prometheus and the node
exporter on Kubernetes), verified with Verus.

- `src/` is the verified library: the `MonitoringCluster` resource model and its
  roles (`crd`), semantic versions through the `semver` crate (`versioning`), the
  Prometheus configuration model and the template data rendered by `handlebars`
  (`prometheus`), ordered properties (`properties`), the decisions of the
  reconciliation loop (`operator`), and properties that span several functions
  (`laws`).
- `app/` is the operator program around it: the command line, the controller
  that talks to Kubernetes, and serde copies of the library's types for YAML.
- `tests/` runs the library on concrete values.
