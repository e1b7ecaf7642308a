use repliagent::error::ErrorKind;
use repliagent::replset::{
    datastore_info, BuildInfo,
    shard_from_status, ReplSetStatus, ReplSetStatusMember, RepliSetOptime, ShardRole, Timestamp,
};
use repliagent::replset_v3_2::{shard_from_status as shard_from_status_v3_2, ReplSetStatus as StatusV32};

const MONGO_TIMESTAMP_ONE: u32 = 1514677701;
const MONGO_TIMESTAMP_TWO: u32 = 1514677698;

fn member(name: &str, ts: u32, is_self: bool, state: i32) -> ReplSetStatusMember {
    ReplSetStatusMember {
        is_self,
        name: name.to_string(),
        optime: RepliSetOptime { ts: Timestamp { t: ts, i: 0 } },
        state,
    }
}

fn make_members() -> Vec<ReplSetStatusMember> {
    vec![
        member("host0", MONGO_TIMESTAMP_ONE, false, 1),
        member("host1", MONGO_TIMESTAMP_TWO, true, 2),
    ]
}

fn lone_secondary() -> Vec<ReplSetStatusMember> {
    vec![member("host0", MONGO_TIMESTAMP_ONE, false, 2)]
}

fn make_rs() -> ReplSetStatus {
    ReplSetStatus { members: make_members(), my_state: 1, set: "test-rs".to_string() }
}

fn make_v3_2() -> StatusV32 {
    StatusV32 { members: make_members(), my_state: 1, set: "test-rs".to_string() }
}

fn invalid_state_message(error: ErrorKind) -> String {
    match error {
        ErrorKind::InvalidStoreState(msg) => msg,
        other => panic!("Unexpected error {:?}", other),
    }
}

fn free_form_message(error: ErrorKind) -> String {
    match error {
        ErrorKind::FreeForm(msg) => msg,
        other => panic!("Unexpected error {:?}", other),
    }
}

#[test]
fn models_last_op() {
    let rs = make_rs();
    let last_op = rs.last_op().unwrap();
    assert_eq!(last_op, 1514677698);
}

#[test]
fn models_last_op_without_self_fails() {
    let rs = ReplSetStatus { members: lone_secondary(), my_state: 1, set: "test-rs".to_string() };
    match rs.last_op() {
        Err(error) => assert_eq!("self not in members list", invalid_state_message(error)),
        Ok(result) => panic!("Unexpected success {:?}", result),
    };
}

#[test]
fn models_node_name() {
    let rs = make_rs();
    let node_name = rs.node_name().unwrap();
    assert_eq!("host1", node_name);
}

#[test]
fn models_node_name_without_self_fails() {
    let rs = ReplSetStatus { members: lone_secondary(), my_state: 1, set: "test-rs".to_string() };
    match rs.node_name() {
        Err(error) => assert_eq!("self not in members list", invalid_state_message(error)),
        Ok(result) => panic!("Unexpected success {:?}", result),
    };
}

#[test]
fn models_primary_optime() {
    let rs = make_rs();
    let primary_optime = rs.primary_optime().unwrap();
    assert_eq!(1514677701, primary_optime);
}

#[test]
fn models_primary_optime_without_primary() {
    let rs = ReplSetStatus { members: lone_secondary(), my_state: 1, set: "test-rs".to_string() };
    match rs.primary_optime() {
        Err(error) => {
            assert_eq!("primary node not in members list", invalid_state_message(error))
        }
        Ok(result) => panic!("Unexpected success {:?}", result),
    };
}

#[test]
fn models_role_primary() {
    let rs = ReplSetStatus { members: vec![], my_state: 1, set: "test-rs".to_string() };
    let role = rs.role().unwrap();
    assert_eq!(ShardRole::Primary, role);
}

#[test]
fn models_role_not_supported() {
    let rs = ReplSetStatus { members: vec![], my_state: 22, set: "test-rs".to_string() };
    match rs.role() {
        Err(error) => assert_eq!("unsupported node state 22", invalid_state_message(error)),
        Ok(result) => panic!("Unexpected success {:?}", result),
    };
}

#[test]
fn v3_2_last_op() {
    let rs = make_v3_2();
    let last_op = rs.last_op().unwrap();
    assert_eq!(last_op, 1514677698);
}

#[test]
fn v3_2_last_op_without_self_fails() {
    let rs = StatusV32 { members: lone_secondary(), my_state: 1, set: "test-rs".to_string() };
    match rs.last_op() {
        Err(error) => {
            assert_eq!("Unable to find self in members list", free_form_message(error))
        }
        Ok(result) => panic!("Unexpected success {:?}", result),
    };
}

#[test]
fn v3_2_node_name() {
    let rs = make_v3_2();
    let node_name = rs.node_name().unwrap();
    assert_eq!("host1", node_name);
}

#[test]
fn v3_2_node_name_without_self_fails() {
    let rs = StatusV32 { members: lone_secondary(), my_state: 1, set: "test-rs".to_string() };
    match rs.node_name() {
        Err(error) => {
            assert_eq!("Unable to find self in members list", free_form_message(error))
        }
        Ok(result) => panic!("Unexpected success {:?}", result),
    };
}

#[test]
fn v3_2_primary_optime() {
    let rs = make_v3_2();
    let primary_optime = rs.primary_optime().unwrap();
    assert_eq!(1514677701, primary_optime);
}

#[test]
fn v3_2_primary_optime_without_primary() {
    let rs = StatusV32 { members: lone_secondary(), my_state: 1, set: "test-rs".to_string() };
    match rs.primary_optime() {
        Err(error) => assert_eq!(
            "Unable to find primary node in members list",
            free_form_message(error)
        ),
        Ok(result) => panic!("Unexpected success {:?}", result),
    };
}

#[test]
fn v3_2_role_primary() {
    let rs = StatusV32 { members: vec![], my_state: 1, set: "test-rs".to_string() };
    let role = rs.role().unwrap();
    assert_eq!(ShardRole::Primary, role);
}

#[test]
fn v3_2_role_not_supported() {
    let rs = StatusV32 { members: vec![], my_state: 22, set: "test-rs".to_string() };
    match rs.role() {
        Err(error) => assert_eq!("Unkown MongoDB node state", free_form_message(error)),
        Ok(result) => panic!("Unexpected success {:?}", result),
    };
}

#[test]
fn known_unknown_roles_are_named() {
    let rs = ReplSetStatus { members: vec![], my_state: 7, set: "test-rs".to_string() };
    assert_eq!(ShardRole::Unknown("ARBITER".to_string()), rs.role().unwrap());
    let rs = ReplSetStatus { members: vec![], my_state: 4, set: "test-rs".to_string() };
    assert!(rs.role().is_err());
}

#[test]
fn shard_of_secondary_has_lag_behind_primary() {
    let rs = ReplSetStatus { members: make_members(), my_state: 2, set: "test-rs".to_string() };
    let shard = shard_from_status(&rs).unwrap();
    assert_eq!(shard.id, "test-rs");
    assert_eq!(shard.role, ShardRole::Secondary);
    assert_eq!(shard.commit_offset, Some(1514677698));
    assert_eq!(shard.lag, Some(3));
}

#[test]
fn shard_of_primary_has_no_lag() {
    let shard = shard_from_status(&make_rs()).unwrap();
    assert_eq!(shard.role, ShardRole::Primary);
    assert_eq!(shard.lag, None);
}

#[test]
fn shard_without_self_fails() {
    let rs = ReplSetStatus { members: lone_secondary(), my_state: 2, set: "test-rs".to_string() };
    assert!(shard_from_status(&rs).is_err());
}

#[test]
fn datastore_info_of_node() {
    let info = datastore_info(&BuildInfo { version: "3.2.1".to_string() }, &make_rs()).unwrap();
    assert_eq!(info.cluster_id, "test-rs");
    assert_eq!(info.kind, "MongoDB");
    assert_eq!(info.node_id, "host1");
    assert_eq!(info.version, "3.2.1");
    let named = info.clone().with_display_name_override(Some("Prod".to_string()));
    assert_eq!(named.cluster_display_name, Some("Prod".to_string()));
    let kept = info.with_display_name_override(None);
    assert_eq!(kept.cluster_display_name, None);
    let rs = ReplSetStatus { members: lone_secondary(), my_state: 2, set: "test-rs".to_string() };
    assert!(datastore_info(&BuildInfo { version: "3.2.1".to_string() }, &rs).is_err());
}

#[test]
fn v3_2_shard_of_primary_has_zero_lag() {
    let shard = shard_from_status_v3_2(&make_v3_2()).unwrap();
    assert_eq!(shard.id, "test-rs");
    assert_eq!(shard.role, ShardRole::Primary);
    assert_eq!(shard.commit_offset, Some(1514677698));
    assert_eq!(shard.lag, Some(0));
    let rs = StatusV32 { members: make_members(), my_state: 2, set: "test-rs".to_string() };
    assert_eq!(shard_from_status_v3_2(&rs).unwrap().lag, Some(3));
    let rs = StatusV32 { members: lone_secondary(), my_state: 2, set: "test-rs".to_string() };
    assert_eq!(
        shard_from_status_v3_2(&rs),
        Err(ErrorKind::FreeForm("Unable to find self in members list".to_string()))
    );
}

#[test]
fn unsupported_state_message_names_the_number() {
    let rs = ReplSetStatus { members: vec![], my_state: -3, set: "test-rs".to_string() };
    assert_eq!("unsupported node state -3", invalid_state_message(rs.role().unwrap_err()));
    let rs = ReplSetStatus { members: vec![], my_state: 1234, set: "test-rs".to_string() };
    assert_eq!("unsupported node state 1234", invalid_state_message(rs.role().unwrap_err()));
}
