//! The firewall backends, on concrete values.

use fwknox::firewall::backend::FirewallBackend;
use fwknox::firewall::error::FirewallError;
use fwknox::firewall::mock::MockBackend;
use fwknox::firewall::nft::{NftablesBackend, RulesetApplier};
use fwknox::firewall::rule::{AccessRule, RuleHandle};
use fwknox::proto::types::{PortProto, Protocol};
use fwknox::time::Duration;
use nftables::schema::{NfCmd, NfListObject, NfObject, Nftables};
use std::sync::{Arc, Mutex};

/// Records every ruleset that is applied, and fails where it is told to.
#[derive(Debug, Default)]
struct RecordingApplier {
    calls: Mutex<Vec<String>>,
    summaries: Mutex<Vec<CallSummary>>,
    fail_with: Mutex<Option<String>>,
}

#[derive(Debug, Default, Clone)]
struct CallSummary {
    adds: Vec<&'static str>,
    deletes: Vec<&'static str>,
}

impl RecordingApplier {
    fn snapshot_summaries(&self) -> Vec<CallSummary> {
        self.summaries.lock().unwrap().clone()
    }

    fn snapshot_calls(&self) -> Vec<String> {
        self.calls.lock().unwrap().clone()
    }

    fn record(&self, ruleset: &Nftables<'static>) {
        let json = serde_json::to_string(ruleset).expect("ruleset serializes");
        self.calls.lock().unwrap().push(json);
        let mut summary = CallSummary::default();
        for obj in ruleset.objects.iter() {
            if let NfObject::CmdObject(cmd) = obj {
                match cmd {
                    NfCmd::Add(o) => summary.adds.push(object_kind(o)),
                    NfCmd::Delete(o) => summary.deletes.push(object_kind(o)),
                    _ => {}
                }
            }
        }
        self.summaries.lock().unwrap().push(summary);
    }
}

fn object_kind(o: &NfListObject<'static>) -> &'static str {
    match o {
        NfListObject::Table(_) => "table",
        NfListObject::Chain(_) => "chain",
        NfListObject::Set(_) => "set",
        NfListObject::Rule(_) => "rule",
        NfListObject::Element(_) => "element",
        _ => "other",
    }
}

/// Shares a recorder with the test.
#[derive(Debug)]
struct ApplierHandle(Arc<RecordingApplier>);

impl RulesetApplier for ApplierHandle {
    fn apply(&mut self, ruleset: &Nftables<'static>) -> Result<(), FirewallError> {
        self.0.record(ruleset);
        if let Some(msg) = self.0.fail_with.lock().unwrap().clone() {
            return Err(FirewallError::Backend(msg));
        }
        Ok(())
    }
}

fn make_backend() -> (NftablesBackend<ApplierHandle>, Arc<RecordingApplier>) {
    let applier = Arc::new(RecordingApplier::default());
    let backend = NftablesBackend::with_applier(ApplierHandle(applier.clone()));
    (backend, applier)
}

fn nft_rule() -> AccessRule {
    AccessRule {
        source_ip: "192.168.1.5".parse().unwrap(),
        ports: vec![
            PortProto::new(Protocol::Tcp, 22),
            PortProto::new(Protocol::Udp, 53),
        ],
        timeout: Duration::from_secs(30),
        comment: "test".into(),
    }
}

fn mock_rule() -> AccessRule {
    AccessRule {
        source_ip: "192.168.1.5".parse().unwrap(),
        ports: vec![PortProto::new(Protocol::Tcp, 22)],
        timeout: Duration::from_secs(30),
        comment: "test".into(),
    }
}

// nftables.

#[test]
fn init_submits_one_batch_with_table_set_chain_rule() {
    let (mut b, applier) = make_backend();
    b.init().unwrap();
    let summaries = applier.snapshot_summaries();
    assert_eq!(summaries.len(), 1);
    assert_eq!(summaries[0].adds, vec!["table", "set", "chain", "rule"]);
    assert!(summaries[0].deletes.is_empty());
}

#[test]
fn init_ruleset_json_mentions_table_and_set_names() {
    let (mut b, applier) = make_backend();
    b.init().unwrap();
    let calls = applier.snapshot_calls();
    assert_eq!(calls.len(), 1);
    let json = &calls[0];
    assert!(json.contains("\"fwknox\""), "expected table name in JSON: {json}");
    assert!(
        json.contains("\"fwknox_allow_v4\""),
        "expected set name in JSON: {json}"
    );
    assert!(json.contains("\"timeout\""), "expected timeout flag in JSON: {json}");
}

#[test]
fn init_ruleset_is_the_documented_one() {
    let (mut b, applier) = make_backend();
    b.init().unwrap();
    let json: serde_json::Value = serde_json::from_str(&applier.snapshot_calls()[0]).unwrap();
    let expected: serde_json::Value = serde_json::from_str(
        r#"{"nftables": [
            {"add": {"table": {"family": "inet", "name": "fwknox"}}},
            {"add": {"set": {
                "family": "inet", "table": "fwknox", "name": "fwknox_allow_v4",
                "type": ["ipv4_addr", "inet_proto", "inet_service"],
                "flags": ["timeout"]
            }}},
            {"add": {"chain": {
                "family": "inet", "table": "fwknox", "name": "input",
                "type": "filter", "hook": "input", "prio": 0, "policy": "accept"
            }}},
            {"add": {"rule": {
                "family": "inet", "table": "fwknox", "chain": "input",
                "expr": [
                    {"match": {
                        "left": {"concat": [
                            {"payload": {"protocol": "ip", "field": "saddr"}},
                            {"meta": {"key": "l4proto"}},
                            {"payload": {"protocol": "th", "field": "dport"}}
                        ]},
                        "right": "@fwknox_allow_v4",
                        "op": "in"
                    }},
                    {"accept": null}
                ]
            }}}
        ]}"#,
    )
    .unwrap();
    assert_eq!(json, expected);
}

#[test]
fn open_access_submits_one_element_per_port_in_a_single_batch() {
    let (mut b, applier) = make_backend();
    b.init().unwrap();
    let handle = b.open_access(&nft_rule()).unwrap();
    let summaries = applier.snapshot_summaries();
    assert_eq!(summaries.len(), 2);
    assert_eq!(summaries[1].adds, vec!["element", "element"]);
    assert!(summaries[1].deletes.is_empty());
    assert_eq!(handle.as_str(), "192.168.1.5/tcp/22,192.168.1.5/udp/53");
}

#[test]
fn open_access_element_json_includes_per_element_timeout() {
    let (mut b, applier) = make_backend();
    b.init().unwrap();
    b.open_access(&nft_rule()).unwrap();
    let calls = applier.snapshot_calls();
    let element_json = &calls[1];
    assert!(element_json.contains("192.168.1.5"));
    assert!(element_json.contains("\"tcp\""));
    assert!(element_json.contains("\"timeout\":30"));
}

#[test]
fn open_access_before_init_returns_inconsistent_state() {
    let (mut b, _) = make_backend();
    let err = b.open_access(&nft_rule()).unwrap_err();
    assert!(matches!(err, FirewallError::InconsistentState(_)));
    assert_eq!(
        err.to_string(),
        "backend in inconsistent state: open_access called before init"
    );
}

#[test]
fn ipv6_access_returns_unsupported() {
    let (mut b, _) = make_backend();
    b.init().unwrap();
    let mut r = nft_rule();
    r.source_ip = "2001:db8::1".parse().unwrap();
    let err = b.open_access(&r).unwrap_err();
    assert!(matches!(err, FirewallError::Unsupported(_)));
}

#[test]
fn remove_rule_submits_delete_per_handle_segment() {
    let (mut b, applier) = make_backend();
    b.init().unwrap();
    let handle = b.open_access(&nft_rule()).unwrap();
    b.remove_rule(&handle).unwrap();
    let summaries = applier.snapshot_summaries();
    assert_eq!(summaries.len(), 3);
    assert!(summaries[2].adds.is_empty());
    assert_eq!(summaries[2].deletes, vec!["element", "element"]);
}

#[test]
fn removing_deletes_the_elements_that_were_added() {
    let (mut b, applier) = make_backend();
    b.init().unwrap();
    let handle = b.open_access(&nft_rule()).unwrap();
    b.remove_rule(&handle).unwrap();
    let calls = applier.snapshot_calls();
    let added: serde_json::Value = serde_json::from_str(&calls[1]).unwrap();
    let deleted: serde_json::Value = serde_json::from_str(&calls[2]).unwrap();
    let (added, deleted) = (
        added["nftables"].as_array().unwrap(),
        deleted["nftables"].as_array().unwrap(),
    );
    assert_eq!(added.len(), deleted.len());
    for (a, d) in added.iter().zip(deleted) {
        let (a, d) = (&a["add"]["element"], &d["delete"]["element"]);
        assert_eq!(a["family"], "inet");
        assert_eq!(a["table"], "fwknox");
        assert_eq!(a["name"], "fwknox_allow_v4");
        assert_eq!(a["elem"][0]["elem"]["timeout"], 30);
        assert_eq!(a["elem"][0]["elem"]["val"], d["elem"][0]);
        assert_eq!(
            (&a["family"], &a["table"], &a["name"]),
            (&d["family"], &d["table"], &d["name"])
        );
    }
    assert_eq!(
        deleted[1]["delete"]["element"]["elem"][0]["concat"],
        serde_json::Value::Array(vec!["192.168.1.5".into(), "udp".into(), 53.into()])
    );
}

#[test]
fn an_error_of_the_backend_comes_before_anything_is_applied() {
    let (mut b, applier) = make_backend();
    assert!(b.open_access(&nft_rule()).is_err());
    assert!(b.remove_rule(&RuleHandle::new("10.0.0.1/tcp/22")).is_err());
    assert!(applier.snapshot_calls().is_empty());
    b.init().unwrap();
    let mut v6 = nft_rule();
    v6.source_ip = "2001:db8::1".parse().unwrap();
    assert!(b.open_access(&v6).is_err());
    for handle in [
        "not/well/formed/extra",
        "10.0.0.1/tcp/22,not/well/formed/extra",
        "10.0.0.1/tcp/70000",
        "",
    ] {
        let err = b.remove_rule(&RuleHandle::new(handle)).unwrap_err();
        assert!(matches!(err, FirewallError::RuleNotFound(m) if m == handle));
    }
    assert_eq!(applier.snapshot_calls().len(), 1);
    b.flush().unwrap();
    assert_eq!(applier.snapshot_calls().len(), 2);
}

#[test]
fn remove_rule_rejects_malformed_handle() {
    let (mut b, _) = make_backend();
    b.init().unwrap();
    let err = b
        .remove_rule(&RuleHandle::new("not/well/formed/extra"))
        .unwrap_err();
    assert!(matches!(err, FirewallError::RuleNotFound(_)));
}

#[test]
fn remove_rule_rejects_other_malformed_handles() {
    let (mut b, applier) = make_backend();
    b.init().unwrap();
    for handle in ["", "1.2.3.4/tcp", "1.2.3.4/tcp/x", "1.2.3.4/tcp/65536", "1.2.3.4/tcp/22,"] {
        let err = b.remove_rule(&RuleHandle::new(handle)).unwrap_err();
        assert_eq!(err.to_string(), format!("rule not found: {handle}"));
    }
    // Nothing was applied but the first batch.
    assert_eq!(applier.snapshot_calls().len(), 1);
}

#[test]
fn remove_rule_before_init_fails() {
    let (mut b, _) = make_backend();
    let err = b.remove_rule(&RuleHandle::new("1.2.3.4/tcp/22")).unwrap_err();
    assert_eq!(
        err.to_string(),
        "backend in inconsistent state: remove_rule called before init"
    );
}

#[test]
fn a_rule_without_ports_cannot_be_removed_by_its_handle() {
    let (mut b, _) = make_backend();
    b.init().unwrap();
    let mut r = nft_rule();
    r.ports = vec![];
    let handle = b.open_access(&r).unwrap();
    assert_eq!(handle.as_str(), "");
    assert!(matches!(
        b.remove_rule(&handle),
        Err(FirewallError::RuleNotFound(_))
    ));
}

#[test]
fn long_timeouts_are_cut_to_32_bits() {
    let (mut b, applier) = make_backend();
    b.init().unwrap();
    let mut r = nft_rule();
    r.timeout = Duration::from_secs(u64::MAX);
    b.open_access(&r).unwrap();
    assert!(applier.snapshot_calls()[1].contains("\"timeout\":4294967295"));
}

#[test]
fn flush_submits_table_delete_and_clears_initialized() {
    let (mut b, applier) = make_backend();
    b.init().unwrap();
    b.flush().unwrap();
    let summaries = applier.snapshot_summaries();
    assert_eq!(summaries.len(), 2);
    assert_eq!(summaries[1].deletes, vec!["table"]);
    assert!(b.open_access(&nft_rule()).is_err());
    b.init().unwrap();
    assert!(b.open_access(&nft_rule()).is_ok());
}

#[test]
fn flush_swallows_backend_errors() {
    let (mut b, applier) = make_backend();
    *applier.fail_with.lock().unwrap() = Some("nft delete table failed: not found".into());
    b.flush().unwrap();
}

#[test]
fn init_propagates_backend_errors() {
    let (mut b, applier) = make_backend();
    *applier.fail_with.lock().unwrap() = Some("permission denied".into());
    let err = b.init().unwrap_err();
    assert!(matches!(err, FirewallError::Backend(_)));
    assert_eq!(
        err.to_string(),
        "nftables backend failure: permission denied"
    );
}

#[test]
fn failures_to_apply_are_passed_on() {
    let (mut b, applier) = make_backend();
    b.init().unwrap();
    let handle = b.open_access(&nft_rule()).unwrap();
    *applier.fail_with.lock().unwrap() = Some("busy".into());
    assert!(matches!(
        b.open_access(&nft_rule()),
        Err(FirewallError::Backend(_))
    ));
    assert!(matches!(
        b.remove_rule(&handle),
        Err(FirewallError::Backend(_))
    ));
}

// The backend in memory.

#[test]
fn open_then_remove_roundtrip() {
    let mut b = MockBackend::new();
    b.init().unwrap();
    let handle = b.open_access(&mock_rule()).unwrap();
    assert_eq!(b.installed_rules().len(), 1);
    assert_eq!(b.installed_rules()[0].1, mock_rule());
    b.remove_rule(&handle).unwrap();
    assert!(b.installed_rules().is_empty());
}

#[test]
fn open_before_init_fails() {
    let mut b = MockBackend::new();
    let err = b.open_access(&mock_rule()).unwrap_err();
    assert!(matches!(err, FirewallError::InconsistentState(_)));
}

#[test]
fn double_remove_fails_with_not_found() {
    let mut b = MockBackend::new();
    b.init().unwrap();
    let handle = b.open_access(&mock_rule()).unwrap();
    b.remove_rule(&handle).unwrap();
    let err = b.remove_rule(&handle).unwrap_err();
    assert!(matches!(err, FirewallError::RuleNotFound(_)));
}

#[test]
fn flush_clears_rules_and_initialized_flag() {
    let mut b = MockBackend::new();
    b.init().unwrap();
    b.open_access(&mock_rule()).unwrap();
    assert!(b.is_initialized());
    b.flush().unwrap();
    assert!(!b.is_initialized());
    assert!(b.installed_rules().is_empty());
}

#[test]
fn removing_unknown_rule_returns_rulenotfound() {
    let mut fw = MockBackend::new();
    fw.init().unwrap();
    let handle = RuleHandle::new("mock-never-installed");
    let err = fw.remove_rule(&handle).unwrap_err();
    assert!(matches!(err, FirewallError::RuleNotFound(_)));
}

#[test]
fn handles_are_unique() {
    let mut b = MockBackend::new();
    b.init().unwrap();
    let h1 = b.open_access(&mock_rule()).unwrap();
    let h2 = b.open_access(&mock_rule()).unwrap();
    assert_ne!(h1, h2);
    assert_eq!((h1.as_str(), h2.as_str()), ("mock-0", "mock-1"));
}

#[test]
fn removing_one_rule_leaves_the_others() {
    let mut b = MockBackend::new();
    b.init().unwrap();
    let first = b.open_access(&mock_rule()).unwrap();
    let second = b.open_access(&nft_rule()).unwrap();
    b.remove_rule(&first).unwrap();
    assert_eq!(b.installed_rules().len(), 1);
    assert_eq!(b.installed_rules()[0].0, second.as_str());
    assert_eq!(b.installed_rules()[0].1, nft_rule());
}

#[test]
fn unsupported_has_its_text() {
    assert_eq!(
        FirewallError::Unsupported("x").to_string(),
        "operation not supported: x"
    );
}
