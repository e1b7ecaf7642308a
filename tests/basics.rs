use repliagent::actions::{
    ActionRecord, ActionRequester, ActionState, ActionValidityError, AGENT_VERSION,
};
use repliagent::config::{
    APIConfig, APITrees, ApiDefaults, BrokerTarget, Config, KafkaTarget, ZookeeperTarget,
};
use repliagent::error::{Error, ErrorKind};

#[test]
fn finished_states() {
    assert!(ActionState::Done.is_finished());
    assert!(ActionState::Failed.is_finished());
    assert!(!ActionState::New.is_finished());
    assert!(!ActionState::Running.is_finished());
}

#[test]
fn new_record_is_new_and_versioned() {
    let r = ActionRecord::new("agent.test.ping".to_string(), "{}".to_string(), ActionRequester::Api);
    assert_eq!(r.state, ActionState::New);
    assert_eq!(r.agent_version, AGENT_VERSION);
    assert!(r.headers.is_empty());
    let other = ActionRecord::new("agent.test.ping".to_string(), "{}".to_string(), ActionRequester::Api);
    assert_ne!(r.id, other.id);
    assert!(r.created_ts > 1_500_000_000_000);
}

#[test]
fn list_item_summarises_record() {
    let r = ActionRecord::with_identity("a.b".to_string(), "{}".to_string(), ActionRequester::Api, 3, 4);
    let item = r.list_item();
    assert_eq!(item.action, "a.b");
    assert_eq!(item.id, 3);
    assert_eq!(item.state, ActionState::New);
    assert_eq!(r.duplicate(), r);
}

#[test]
fn validity_error_labels() {
    let e = ActionValidityError::InvalidArgs("bad".to_string());
    assert_eq!(e.kind(), "InvalidArgs");
    assert_eq!(e.http_status(), 400);
}

#[test]
fn error_kind_labels_and_statuses() {
    assert_eq!(ErrorKind::ActionAlreadyExists(1).kind_name(), "ActionAlreadyExists");
    assert_eq!(ErrorKind::ActionAlreadyExists(1).http_status(), 500);
    assert_eq!(ErrorKind::ActionNotAvailable("x".to_string()).http_status(), 500);
    assert_eq!(ErrorKind::ActionEncode.http_status(), 500);
    assert_eq!(ErrorKind::PersistentCommit.http_status(), 500);
    assert_eq!(ErrorKind::PersistentCommit.kind_name(), "PersistentCommit");
    assert_eq!(ErrorKind::ThreadSpawn("w".to_string()).kind_name(), "ThreadSpawn");
    let e = Error::from_kind(ErrorKind::ConfigLoad);
    assert_eq!(e.kind(), &ErrorKind::ConfigLoad);
}

#[test]
fn api_defaults() {
    let c = APIConfig::default();
    assert_eq!(c.bind, "127.0.0.1:8000");
    assert_eq!(c.trees, APITrees { introspect: true, unstable: true });
    assert!(APITrees::default_true());
    let mut d = ApiDefaults::new();
    APIConfig::set_default_bind(&mut d, "0.0.0.0:1".to_string());
    assert_eq!(APIConfig::default_bind(&d), "0.0.0.0:1");
    assert_eq!(APIConfig::with_defaults(&d).bind, "0.0.0.0:1");
}

#[test]
fn kafka_defaults() {
    let mut d = ApiDefaults::new();
    Config::override_defaults(&mut d);
    assert_eq!(APIConfig::default_bind(&d), "127.0.0.1:10092");
    let t = KafkaTarget::default();
    assert_eq!(t.jmx, "localhost:9999");
    assert_eq!(t.broker, BrokerTarget { uri: "localhost:9092".to_string(), timeout: 10 });
    assert_eq!(t.zookeeper, ZookeeperTarget { uri: "localhost:2818".to_string(), timeout: 10 });
}

#[test]
fn tree_flags() {
    let t = APITrees { introspect: false, unstable: true };
    assert_eq!(t.flags(), vec![("introspect", false), ("unstable", true)]);
}

#[test]
fn validity_error_response_body() {
    let e = ActionValidityError::InvalidArgs("bad".to_string());
    assert_eq!(e.message(), "invalid action arguments: bad");
    assert_eq!(
        e.response_body(),
        r#"{"error":"invalid action arguments: bad","kind":"InvalidArgs"}"#
    );
}
