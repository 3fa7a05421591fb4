//! Properties of the library that span its functions, proved over the spec
//! functions that their contracts use.
use crate::crd::{
    group_config, opt_text, prometheus_file_properties, set_group, MonitoringClusterStatus, MonitoringRole,
    MonitoringVersion, RoleGroup, PROM_EVALUATION_INTERVAL, PROM_SCHEME, PROM_SCRAPE_INTERVAL, PROM_SCRAPE_TIMEOUT,
};
use crate::operator::{
    apply_updates, finalize_version_updates, first_in_role, first_named_node, init_status_plan,
    init_version_updates, is_upgrade, next_pod, status_versions, GroupNodes,
};
use crate::prometheus::{
    data_with_config, federation_with_config, FederationTemplateData, NodepodsTemplateData,
};
use crate::properties::{lookup, set_entry};
use crate::text::{all_digits, decimal, digit_char, digit_value, digits_value, is_digit, u16_text_value};
use crate::versioning::{triple_order, versioning_of, VersionOrder, VersioningState};
use vstd::prelude::*;

verus! {

/// After a property is set, reading it gives the value just set.
pub proof fn property_read_after_write(entries: Seq<(Seq<char>, Seq<char>)>, key: Seq<char>, value: Seq<char>)
    ensures
        lookup(set_entry(entries, key, value), key) == Some(value),
    decreases entries.len(),
{
    if entries.len() > 0 && entries[0].0 != key {
        property_read_after_write(entries.drop_first(), key, value);
        assert((seq![entries[0]] + set_entry(entries.drop_first(), key, value)).drop_first()
            =~= set_entry(entries.drop_first(), key, value));
    }
}

/// Setting a property leaves every other property as it was.
pub proof fn property_write_keeps_others(
    entries: Seq<(Seq<char>, Seq<char>)>,
    key: Seq<char>,
    value: Seq<char>,
    other: Seq<char>,
)
    requires
        other != key,
    ensures
        lookup(set_entry(entries, key, value), other) == lookup(entries, other),
    decreases entries.len(),
{
    if entries.len() > 0 {
        if entries[0].0 == key {
            let after = set_entry(entries, key, value);
            assert(after == entries.update(0, (key, value)));
            assert(after.len() > 0 && after[0].0 == key);
            assert(after.drop_first() =~= entries.drop_first());
            assert(lookup(after, other) == lookup(after.drop_first(), other));
        } else if crate::text::name_less(key, entries[0].0) {
            let after = set_entry(entries, key, value);
            assert(after.drop_first() =~= entries);
        } else {
            property_write_keeps_others(entries.drop_first(), key, value, other);
            assert((seq![entries[0]] + set_entry(entries.drop_first(), key, value)).drop_first()
                =~= set_entry(entries.drop_first(), key, value));
        }
    } else {
        let after = set_entry(entries, key, value);
        assert(after == seq![(key, value)]);
        assert(after.drop_first() =~= Seq::<(Seq<char>, Seq<char>)>::empty());
        assert(lookup(after, other) == lookup(after.drop_first(), other));
    }
}

/// After a group is added to a role, its name gives its configuration.
pub proof fn group_read_after_write<T>(groups: Seq<RoleGroup<T>>, group: RoleGroup<T>)
    ensures
        group_config(set_group(groups, group), group.name@) == group.config,
    decreases groups.len(),
{
    if groups.len() > 0 && groups[0].name@ != group.name@ {
        group_read_after_write(groups.drop_first(), group);
        assert((seq![groups[0]] + set_group(groups.drop_first(), group)).drop_first()
            =~= set_group(groups.drop_first(), group));
    }
}

/// Adding a group leaves the groups of every other name as they were.
pub proof fn group_write_keeps_others<T>(groups: Seq<RoleGroup<T>>, group: RoleGroup<T>, other: Seq<char>)
    requires
        other != group.name@,
    ensures
        group_config(set_group(groups, group), other) == group_config(groups, other),
    decreases groups.len(),
{
    let after = set_group(groups, group);
    if groups.len() > 0 {
        if groups[0].name@ == group.name@ {
            assert(after == groups.update(0, group));
            assert(after[0].name@ == group.name@);
            assert(after.drop_first() =~= groups.drop_first());
            assert(group_config(after, other) == group_config(after.drop_first(), other));
        } else {
            group_write_keeps_others(groups.drop_first(), group, other);
            assert(after.drop_first() =~= set_group(groups.drop_first(), group));
            assert(after[0] == groups[0]);
        }
    } else {
        assert(after == seq![group]);
        assert(after.drop_first() =~= Seq::<RoleGroup<T>>::empty());
        assert(group_config(after, other) == group_config(after.drop_first(), other));
    }
}

/// The decimal text of a number is a non-empty string of digits whose value is
/// the number.
proof fn lemma_decimal_digits(n: nat)
    ensures
        decimal(n).len() > 0,
        all_digits(decimal(n)),
        digits_value(decimal(n)) == n,
        is_digit(decimal(n)[0]),
    decreases n,
{
    if n < 10 {
        assert(digits_value(decimal(n).drop_last()) == 0) by {
            assert(decimal(n).drop_last() =~= Seq::<char>::empty());
        }
    } else {
        lemma_decimal_digits(n / 10);
        let prefix = decimal(n / 10);
        let d = (n % 10) as int;
        assert(decimal(n) == prefix.push(digit_char(d)));
        assert(decimal(n).drop_last() =~= prefix);
        assert(digit_value(digit_char(d)) == d);
        vstd::arithmetic::div_mod::lemma_fundamental_div_mod(n as int, 10);
        assert(all_digits(decimal(n))) by {
            assert forall|i: int| 0 <= i < decimal(n).len() implies is_digit(#[trigger] decimal(n)[i]) by {
                if i < prefix.len() {
                    assert(decimal(n)[i] == prefix[i]);
                }
            }
        }
        assert(decimal(n)[0] == prefix[0]);
    }
}

/// A port that the operator writes in decimal (as `with_node_exporter` and
/// `compute_cli` do) reads back, as `container_ports` reads it, as the same port.
pub proof fn port_text_round_trip(port: u16)
    ensures
        u16_text_value(decimal(port as nat)) == Some(port),
{
    lemma_decimal_digits(port as nat);
    assert(decimal(port as nat)[0] != '+');
}

/// Two versions with the same text are the same version, so reading the text
/// of a version gives that version back.
pub proof fn version_text_identifies_version(v: MonitoringVersion, w: MonitoringVersion)
    ensures
        v.text() == w.text() ==> v == w,
{
    reveal_strlit("2.28.1");
    reveal_strlit("2.30.0");
    if v != w {
        assert(v.text()[2] != w.text()[2]);
    }
}

/// Moving from `a` to `b` is an upgrade exactly when moving back from `b` to
/// `a` is a downgrade.
pub proof fn upgrade_iff_reverse_downgrade(a: MonitoringVersion, b: MonitoringVersion)
    ensures
        versioning_of(a.numbers(), b.numbers()) == VersioningState::ValidUpgrade
            <==> versioning_of(b.numbers(), a.numbers()) == VersioningState::ValidDowngrade,
{
}

/// Staying on a version changes nothing; moving between two versions is always
/// either an upgrade, a downgrade or no change, never invalid.
pub proof fn versioning_is_total(a: MonitoringVersion, b: MonitoringVersion)
    ensures
        versioning_of(a.numbers(), a.numbers()) == VersioningState::NoOp,
        versioning_of(a.numbers(), b.numbers()) == VersioningState::NoOp <==> a == b,
        !(versioning_of(a.numbers(), b.numbers()) is Invalid),
{
}

/// `is_valid_upgrade` and `versioning_state` agree: a move is a valid upgrade
/// exactly when it is judged an upgrade.
pub proof fn valid_upgrade_agrees_with_versioning(from: MonitoringVersion, to: MonitoringVersion)
    ensures
        (triple_order(to.numbers(), from.numbers()) == VersionOrder::Greater)
            <==> versioning_of(from.numbers(), to.numbers()) == VersioningState::ValidUpgrade,
        is_upgrade(from, to) <==> versioning_of(from.numbers(), to.numbers()) == VersioningState::ValidUpgrade,
{
}

/// Starting a reconciliation never changes the current version.
pub proof fn init_keeps_current_version(status: Option<MonitoringClusterStatus>, spec_version: MonitoringVersion)
    ensures
        apply_updates(status_versions(status), init_status_plan(status, spec_version)).0 == status_versions(status).0,
{
    reveal_with_fuel(apply_updates, 4);
}

/// While a version change runs, starting a reconciliation keeps its target,
/// even where the spec asks for another version meanwhile.
pub proof fn init_keeps_running_target(status: Option<MonitoringClusterStatus>, spec_version: MonitoringVersion)
    ensures
        status_versions(status).1 is Some ==> apply_updates(status_versions(status), init_status_plan(status, spec_version))
            == status_versions(status),
{
    reveal_with_fuel(apply_updates, 4);
}

/// A stable cluster gets a target version only for an upgrade to the spec's
/// version, and for every such upgrade.
pub proof fn target_only_for_upgrade(current: MonitoringVersion, spec_version: MonitoringVersion)
    ensures
        ({
            let after = apply_updates((Some(current), None), init_version_updates((Some(current), None), spec_version));
            &&& after.0 == Some(current)
            &&& after.1 is Some ==> after.1 == Some(spec_version) && versioning_of(current.numbers(), spec_version.numbers()) == VersioningState::ValidUpgrade
            &&& versioning_of(current.numbers(), spec_version.numbers()) == VersioningState::ValidUpgrade ==> after.1 == Some(spec_version)
        }),
{
    reveal_with_fuel(apply_updates, 3);
}

/// Once every pod runs, the target version becomes the current version and no
/// target remains; without a target nothing changes.
pub proof fn finalize_moves_to_target(versions: (Option<MonitoringVersion>, Option<MonitoringVersion>))
    ensures
        apply_updates(versions, finalize_version_updates(versions.1)) == match versions.1 {
            Some(t) => (Some(t), None),
            None => versions,
        },
{
    reveal_with_fuel(apply_updates, 4);
}

/// An initial installation, once its pods run, has the spec's version as the
/// current version and no target.
pub proof fn initial_installation_reaches_spec_version(spec_version: MonitoringVersion)
    ensures
        ({
            let started = apply_updates(status_versions(None), init_status_plan(None, spec_version));
            &&& started == (None::<MonitoringVersion>, Some(spec_version))
            &&& apply_updates(started, finalize_version_updates(started.1)) == (Some(spec_version), None::<MonitoringVersion>)
        }),
{
    reveal_with_fuel(apply_updates, 4);
    finalize_moves_to_target((None, Some(spec_version)));
}

/// An upgrade requested of a stable cluster, once its pods run, has the spec's
/// version as the current version.
pub proof fn upgrade_reaches_spec_version(current: MonitoringVersion, spec_version: MonitoringVersion)
    requires
        versioning_of(current.numbers(), spec_version.numbers()) == VersioningState::ValidUpgrade,
    ensures
        ({
            let started = apply_updates((Some(current), None), init_version_updates((Some(current), None), spec_version));
            &&& started == (Some(current), Some(spec_version))
            &&& apply_updates(started, finalize_version_updates(started.1)) == (Some(spec_version), None::<MonitoringVersion>)
        }),
{
    target_only_for_upgrade(current, spec_version);
    finalize_moves_to_target((Some(current), Some(spec_version)));
}

/// The user's command line arguments are appended, unchanged, to the arguments
/// that the operator sets; the listen address on the given port always comes first.
pub proof fn user_args_come_last(role: MonitoringRole, port: Seq<char>, args: Seq<Seq<char>>)
    requires
        args.len() > 0,
    ensures
        ({
            let all = role.args_texts(port, args);
            &&& all.len() > args.len()
            &&& all.subrange(all.len() - args.len(), all.len() as int) == args
            &&& all[0] == if role == MonitoringRole::NodeExporter {
                "--web.listen-address=127.0.0.1:"@ + port
            } else {
                "--web.listen-address=:"@ + port
            }
        }),
{
    let all = role.args_texts(port, args);
    assert(all.subrange(all.len() - args.len(), all.len() as int) =~= args);
}


/// Whether some node of a group has a name, so that a pod can be placed on it.
pub open spec fn has_named_node(g: GroupNodes) -> bool {
    exists|j: int| 0 <= j < g.node_names@.len() && (#[trigger] g.node_names@[j]) is Some
}

/// The first named node from `start` on is named, and none before it is.
proof fn lemma_first_named_node(nodes: Seq<Option<String>>, start: int)
    requires
        0 <= start,
    ensures
        match first_named_node(nodes, start) {
            Some(j) => start <= j < nodes.len() && nodes[j] is Some
                && forall|k: int| start <= k < j ==> (#[trigger] nodes[k]) is None,
            None => forall|k: int| start <= k < nodes.len() ==> (#[trigger] nodes[k]) is None,
        },
    decreases nodes.len() - start,
{
    if start < nodes.len() && nodes[start] is None {
        lemma_first_named_node(nodes, start + 1);
    }
}

/// The first group of a role with a named node, from `start` on, is such a group,
/// and no group of that role before it has a named node.
proof fn lemma_first_in_role(groups: Seq<GroupNodes>, role: MonitoringRole, start: int)
    requires
        0 <= start,
    ensures
        match first_in_role(groups, role, start) {
            Some((i, j)) => start <= i < groups.len() && groups[i].role == role
                && 0 <= j < groups[i].node_names@.len() && groups[i].node_names@[j] is Some
                && (forall|m: int| 0 <= m < j ==> (#[trigger] groups[i].node_names@[m]) is None)
                && forall|k: int| start <= k < i && (#[trigger] groups[k]).role == role ==> !has_named_node(groups[k]),
            None => forall|k: int| start <= k < groups.len() && (#[trigger] groups[k]).role == role
                ==> !has_named_node(groups[k]),
        },
    decreases groups.len() - start,
{
    if start < groups.len() {
        lemma_first_named_node(groups[start].node_names@, 0);
        if !(groups[start].role == role && first_named_node(groups[start].node_names@, 0) is Some) {
            lemma_first_in_role(groups, role, start + 1);
        }
    }
}

/// Where some group of any role (the federation included) has a named node, the
/// next pod goes on a named node of a group; the reconciliation finishes only
/// where no group of any role has one. Roles come in the order pod aggregator,
/// node exporter, federation: the chosen pod's role is the first that has a
/// group with a named node, and within it the first such group and its first
/// named node are taken.
pub proof fn next_pod_covers_every_role(groups: Seq<GroupNodes>)
    ensures
        next_pod(groups) is None <==> forall|i: int| 0 <= i < groups.len() ==> !has_named_node(#[trigger] groups[i]),
        next_pod(groups) matches Some((i, j)) ==> {
            &&& 0 <= i < groups.len()
            &&& 0 <= j < groups[i].node_names@.len()
            &&& groups[i].node_names@[j] is Some
            &&& forall|m: int| 0 <= m < j ==> (#[trigger] groups[i].node_names@[m]) is None
            &&& forall|k: int| 0 <= k < i && (#[trigger] groups[k]).role == groups[i].role ==> !has_named_node(groups[k])
            &&& groups[i].role != MonitoringRole::PodAggregator ==> forall|k: int| 0 <= k < groups.len()
                && (#[trigger] groups[k]).role == MonitoringRole::PodAggregator ==> !has_named_node(groups[k])
            &&& groups[i].role == MonitoringRole::Federation ==> forall|k: int| 0 <= k < groups.len()
                && (#[trigger] groups[k]).role == MonitoringRole::NodeExporter ==> !has_named_node(groups[k])
        },
{
    lemma_first_in_role(groups, MonitoringRole::PodAggregator, 0);
    lemma_first_in_role(groups, MonitoringRole::NodeExporter, 0);
    lemma_first_in_role(groups, MonitoringRole::Federation, 0);
    if next_pod(groups) is None {
        assert forall|i: int| 0 <= i < groups.len() implies !has_named_node(#[trigger] groups[i]) by {
            match groups[i].role {
                MonitoringRole::PodAggregator => {},
                MonitoringRole::NodeExporter => {},
                MonitoringRole::Federation => {},
            }
        }
    } else {
        let (i, j) = next_pod(groups)->Some_0;
        assert(has_named_node(groups[i]));
    }
}

/// A status that holds no version yet, whether it is missing or exists empty,
/// starts the initial installation towards the spec's version, which becomes the
/// current version once every pod runs.
pub proof fn initial_installation_from_any_empty_status(
    status: Option<MonitoringClusterStatus>,
    spec_version: MonitoringVersion,
)
    requires
        status_versions(status) == (None::<MonitoringVersion>, None::<MonitoringVersion>),
    ensures
        ({
            let started = apply_updates(status_versions(status), init_status_plan(status, spec_version));
            &&& started == (None::<MonitoringVersion>, Some(spec_version))
            &&& apply_updates(started, finalize_version_updates(started.1)) == (Some(spec_version), None::<MonitoringVersion>)
        }),
{
    reveal_with_fuel(apply_updates, 4);
    finalize_moves_to_target((None, Some(spec_version)));
}

/// Every Prometheus role (all but the node exporter) runs the Prometheus wrapper
/// of the version from the Prometheus image of that version: the pod aggregator
/// and the federation start the same program.
pub proof fn prometheus_roles_run_prometheus(role: MonitoringRole, version: MonitoringVersion)
    requires
        role != MonitoringRole::NodeExporter,
    ensures
        role.command_texts(version) == seq!["prometheus-"@ + version.text() + ".linux-amd64/prometheus-wrapper.sh"@],
        role.image_text(version) == "stackable/prometheus:"@ + version.text(),
        role.command_texts(version) == MonitoringRole::PodAggregator.command_texts(version),
        role.image_text(version) == MonitoringRole::PodAggregator.image_text(version),
{
}

/// The four property names of the Prometheus file are distinct.
proof fn lemma_setting_keys_distinct()
    ensures
        PROM_EVALUATION_INTERVAL@ != PROM_SCRAPE_INTERVAL@,
        PROM_EVALUATION_INTERVAL@ != PROM_SCRAPE_TIMEOUT@,
        PROM_EVALUATION_INTERVAL@ != PROM_SCHEME@,
        PROM_SCRAPE_INTERVAL@ != PROM_SCRAPE_TIMEOUT@,
        PROM_SCRAPE_INTERVAL@ != PROM_SCHEME@,
        PROM_SCRAPE_TIMEOUT@ != PROM_SCHEME@,
{
    reveal_strlit("evaluationInterval");
    reveal_strlit("scrapeInterval");
    reveal_strlit("scrapeTimeout");
    reveal_strlit("scheme");
    assert(PROM_EVALUATION_INTERVAL@.len() == 18);
    assert(PROM_SCRAPE_INTERVAL@.len() == 14);
    assert(PROM_SCRAPE_TIMEOUT@.len() == 13);
    assert(PROM_SCHEME@.len() == 6);
}

/// Setting one of the four scrape settings in the properties makes the template
/// data (of the pods and of the federation) hold that value, whatever else the
/// properties hold.
pub proof fn scrape_setting_read_after_set(
    d: NodepodsTemplateData,
    f: FederationTemplateData,
    config: Seq<(Seq<char>, Seq<char>)>,
    value: Seq<char>,
)
    ensures
        data_with_config(d, set_entry(config, PROM_EVALUATION_INTERVAL@, value)).global_evaluation_interval == value,
        data_with_config(d, set_entry(config, PROM_SCRAPE_INTERVAL@, value)).scrape_configs_k8s_scrape_interval == value,
        data_with_config(d, set_entry(config, PROM_SCRAPE_TIMEOUT@, value)).scrape_configs_k8s_scrape_timeout == value,
        data_with_config(d, set_entry(config, PROM_SCHEME@, value)).scrape_configs_k8s_scheme == value,
        federation_with_config(f, set_entry(config, PROM_EVALUATION_INTERVAL@, value)).global_evaluation_interval == value,
        federation_with_config(f, set_entry(config, PROM_SCRAPE_INTERVAL@, value)).scrape_configs_k8s_scrape_interval == value,
        federation_with_config(f, set_entry(config, PROM_SCRAPE_TIMEOUT@, value)).scrape_configs_k8s_scrape_timeout == value,
        federation_with_config(f, set_entry(config, PROM_SCHEME@, value)).scrape_configs_k8s_scheme == value,
{
    property_read_after_write(config, PROM_EVALUATION_INTERVAL@, value);
    property_read_after_write(config, PROM_SCRAPE_INTERVAL@, value);
    property_read_after_write(config, PROM_SCRAPE_TIMEOUT@, value);
    property_read_after_write(config, PROM_SCHEME@, value);
}

/// Setting any other property leaves each scrape setting of the template data
/// (of the pods and of the federation) as it was: the four settings are taken
/// independently of each other and of every other property.
pub proof fn scrape_setting_ignores_other_keys(
    d: NodepodsTemplateData,
    f: FederationTemplateData,
    config: Seq<(Seq<char>, Seq<char>)>,
    key: Seq<char>,
    value: Seq<char>,
)
    ensures
        key != PROM_EVALUATION_INTERVAL@ ==> data_with_config(d, set_entry(config, key, value)).global_evaluation_interval
            == data_with_config(d, config).global_evaluation_interval,
        key != PROM_SCRAPE_INTERVAL@ ==> data_with_config(d, set_entry(config, key, value)).scrape_configs_k8s_scrape_interval
            == data_with_config(d, config).scrape_configs_k8s_scrape_interval,
        key != PROM_SCRAPE_TIMEOUT@ ==> data_with_config(d, set_entry(config, key, value)).scrape_configs_k8s_scrape_timeout
            == data_with_config(d, config).scrape_configs_k8s_scrape_timeout,
        key != PROM_SCHEME@ ==> data_with_config(d, set_entry(config, key, value)).scrape_configs_k8s_scheme
            == data_with_config(d, config).scrape_configs_k8s_scheme,
        key != PROM_EVALUATION_INTERVAL@ ==> federation_with_config(f, set_entry(config, key, value)).global_evaluation_interval
            == federation_with_config(f, config).global_evaluation_interval,
        key != PROM_SCRAPE_INTERVAL@ ==> federation_with_config(f, set_entry(config, key, value)).scrape_configs_k8s_scrape_interval
            == federation_with_config(f, config).scrape_configs_k8s_scrape_interval,
        key != PROM_SCRAPE_TIMEOUT@ ==> federation_with_config(f, set_entry(config, key, value)).scrape_configs_k8s_scrape_timeout
            == federation_with_config(f, config).scrape_configs_k8s_scrape_timeout,
        key != PROM_SCHEME@ ==> federation_with_config(f, set_entry(config, key, value)).scrape_configs_k8s_scheme
            == federation_with_config(f, config).scrape_configs_k8s_scheme,
{
    if key != PROM_EVALUATION_INTERVAL@ {
        property_write_keeps_others(config, key, value, PROM_EVALUATION_INTERVAL@);
    }
    if key != PROM_SCRAPE_INTERVAL@ {
        property_write_keeps_others(config, key, value, PROM_SCRAPE_INTERVAL@);
    }
    if key != PROM_SCRAPE_TIMEOUT@ {
        property_write_keeps_others(config, key, value, PROM_SCRAPE_TIMEOUT@);
    }
    if key != PROM_SCHEME@ {
        property_write_keeps_others(config, key, value, PROM_SCHEME@);
    }
}

/// Where the properties do not hold a scrape setting, the template data keeps
/// the value it had for it.
pub proof fn scrape_setting_absent_keeps_value(
    d: NodepodsTemplateData,
    f: FederationTemplateData,
    config: Seq<(Seq<char>, Seq<char>)>,
)
    ensures
        lookup(config, PROM_EVALUATION_INTERVAL@) is None ==> data_with_config(d, config).global_evaluation_interval == d.global_evaluation_interval,
        lookup(config, PROM_SCRAPE_INTERVAL@) is None ==> data_with_config(d, config).scrape_configs_k8s_scrape_interval == d.scrape_configs_k8s_scrape_interval,
        lookup(config, PROM_SCRAPE_TIMEOUT@) is None ==> data_with_config(d, config).scrape_configs_k8s_scrape_timeout == d.scrape_configs_k8s_scrape_timeout,
        lookup(config, PROM_SCHEME@) is None ==> data_with_config(d, config).scrape_configs_k8s_scheme == d.scrape_configs_k8s_scheme,
        lookup(config, PROM_EVALUATION_INTERVAL@) is None ==> federation_with_config(f, config).global_evaluation_interval == f.global_evaluation_interval,
        lookup(config, PROM_SCRAPE_INTERVAL@) is None ==> federation_with_config(f, config).scrape_configs_k8s_scrape_interval == f.scrape_configs_k8s_scrape_interval,
        lookup(config, PROM_SCRAPE_TIMEOUT@) is None ==> federation_with_config(f, config).scrape_configs_k8s_scrape_timeout == f.scrape_configs_k8s_scrape_timeout,
        lookup(config, PROM_SCHEME@) is None ==> federation_with_config(f, config).scrape_configs_k8s_scheme == f.scrape_configs_k8s_scheme,
{
}

/// The value that a list of properties gives a name: that of its first entry
/// with the name, or `None` where no entry has it.
pub open spec fn property_value(props: Seq<(Seq<char>, Option<Seq<char>>)>, key: Seq<char>) -> Option<Option<Seq<char>>>
    decreases props.len(),
{
    if props.len() == 0 {
        None
    } else if props[0].0 == key {
        Some(props[0].1)
    } else {
        property_value(props.drop_first(), key)
    }
}

/// In two lists one after the other, a name has its value from the first list
/// where it occurs there, else from the second.
proof fn lemma_property_value_append(
    a: Seq<(Seq<char>, Option<Seq<char>>)>,
    b: Seq<(Seq<char>, Option<Seq<char>>)>,
    key: Seq<char>,
)
    ensures
        property_value(a + b, key) == match property_value(a, key) {
            Some(v) => Some(v),
            None => property_value(b, key),
        },
    decreases a.len(),
{
    if a.len() == 0 {
        assert(a + b =~= b);
    } else {
        assert((a + b).drop_first() =~= a.drop_first() + b);
        lemma_property_value_append(a.drop_first(), b, key);
    }
}

/// The value that an optional property gives a name.
proof fn lemma_property_value_optional(k: Seq<char>, v: Option<Seq<char>>, key: Seq<char>)
    ensures
        property_value(crate::crd::optional_property(k, v), key) == if k == key && v is Some {
            Some(v)
        } else {
            None::<Option<Seq<char>>>
        },
{
    reveal_with_fuel(property_value, 2);
    let p = crate::crd::optional_property(k, v);
    if v is Some {
        assert(p.drop_first() =~= Seq::<(Seq<char>, Option<Seq<char>>)>::empty());
    }
}

/// What a setting of the configuration gives its name in the file properties.
pub open spec fn file_entry(value: Option<String>) -> Option<Option<Seq<char>>> {
    match opt_text(value) {
        Some(t) => Some(Some(t)),
        None => None,
    }
}

/// The Prometheus file properties hold each of the four scrape settings, with the
/// configured value, exactly when the configuration sets it, whatever the other
/// settings are; they hold one entry per setting that is set.
pub proof fn file_properties_hold_each_setting(
    scrape_interval: Option<String>,
    scrape_timeout: Option<String>,
    evaluation_interval: Option<String>,
    scheme: Option<String>,
)
    ensures
        ({
            let props = prometheus_file_properties(scrape_interval, scrape_timeout, evaluation_interval, scheme);
            &&& property_value(props, PROM_SCRAPE_INTERVAL@) == file_entry(scrape_interval)
            &&& property_value(props, PROM_SCRAPE_TIMEOUT@) == file_entry(scrape_timeout)
            &&& property_value(props, PROM_EVALUATION_INTERVAL@) == file_entry(evaluation_interval)
            &&& property_value(props, PROM_SCHEME@) == file_entry(scheme)
            &&& props.len() == (if scrape_interval is Some { 1int } else { 0 }) + (if scrape_timeout is Some { 1int } else { 0 })
                + (if evaluation_interval is Some { 1int } else { 0 }) + (if scheme is Some { 1int } else { 0 })
        }),
{
    lemma_setting_keys_distinct();
    let a = crate::crd::optional_property(PROM_EVALUATION_INTERVAL@, opt_text(evaluation_interval));
    let b = crate::crd::optional_property(PROM_SCHEME@, opt_text(scheme));
    let c = crate::crd::optional_property(PROM_SCRAPE_INTERVAL@, opt_text(scrape_interval));
    let e = crate::crd::optional_property(PROM_SCRAPE_TIMEOUT@, opt_text(scrape_timeout));
    assert(prometheus_file_properties(scrape_interval, scrape_timeout, evaluation_interval, scheme) == a + b + c + e);
    let keys = seq![PROM_SCRAPE_INTERVAL@, PROM_SCRAPE_TIMEOUT@, PROM_EVALUATION_INTERVAL@, PROM_SCHEME@];
    assert forall|i: int| 0 <= i < 4 implies {
        let key = #[trigger] keys[i];
        property_value(a + b + c + e, key) == if key == PROM_SCRAPE_INTERVAL@ {
            file_entry(scrape_interval)
        } else if key == PROM_SCRAPE_TIMEOUT@ {
            file_entry(scrape_timeout)
        } else if key == PROM_EVALUATION_INTERVAL@ {
            file_entry(evaluation_interval)
        } else {
            file_entry(scheme)
        }
    } by {
        let key = keys[i];
        lemma_property_value_append(a + b + c, e, key);
        lemma_property_value_append(a + b, c, key);
        lemma_property_value_append(a, b, key);
        lemma_property_value_optional(PROM_EVALUATION_INTERVAL@, opt_text(evaluation_interval), key);
        lemma_property_value_optional(PROM_SCHEME@, opt_text(scheme), key);
        lemma_property_value_optional(PROM_SCRAPE_INTERVAL@, opt_text(scrape_interval), key);
        lemma_property_value_optional(PROM_SCRAPE_TIMEOUT@, opt_text(scrape_timeout), key);
    }
    assert(keys[0] == PROM_SCRAPE_INTERVAL@);
    assert(keys[1] == PROM_SCRAPE_TIMEOUT@);
    assert(keys[2] == PROM_EVALUATION_INTERVAL@);
    assert(keys[3] == PROM_SCHEME@);
}

} // verus!
