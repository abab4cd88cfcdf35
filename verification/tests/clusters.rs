use trino_connection::discovery::{sqlalchemy_uri, ConfigMap};
use trino_connection::string_map::StringMap;
use trino_connection::superset::{
    ClusterCondition, ClusterConditionStatus, ClusterConditionType, SupersetCluster,
};
use trino_connection::trino_connection_controller::Error;

fn cluster(conditions: Option<Vec<(ClusterConditionType, ClusterConditionStatus)>>) -> SupersetCluster {
    SupersetCluster {
        credentials_secret: "credentials".to_string(),
        conditions: conditions.map(|conditions| {
            conditions
                .into_iter()
                .map(|(type_, status)| ClusterCondition { type_, status })
                .collect()
        }),
    }
}

fn map(entries: &[(&str, &str)]) -> StringMap {
    let mut map = StringMap::new();
    for (key, value) in entries {
        map.insert(key.to_string(), value.to_string());
    }
    map
}

#[test]
fn cluster_without_a_status_is_not_ready() {
    assert!(!cluster(None).is_ready());
    assert!(!cluster(Some(vec![])).is_ready());
}

#[test]
fn available_cluster_is_ready() {
    assert!(cluster(Some(vec![
        (ClusterConditionType::Stopped, ClusterConditionStatus::False),
        (ClusterConditionType::Available, ClusterConditionStatus::True),
    ]))
    .is_ready());
}

#[test]
fn other_conditions_do_not_make_a_cluster_ready() {
    assert!(!cluster(Some(vec![
        (ClusterConditionType::Progressing, ClusterConditionStatus::True),
        (ClusterConditionType::Available, ClusterConditionStatus::False),
        (ClusterConditionType::Available, ClusterConditionStatus::Unknown),
    ]))
    .is_ready());
}

#[test]
fn one_of_several_conditions_is_enough() {
    assert!(cluster(Some(vec![
        (ClusterConditionType::Available, ClusterConditionStatus::False),
        (ClusterConditionType::Available, ClusterConditionStatus::True),
    ]))
    .is_ready());
}

#[test]
fn connect_string_is_taken_from_the_config_map() {
    let data = map(&[
        ("TRINO", "trino:8443"),
        ("TRINO_SQLALCHEMY", "trino://admin@trino:8443/?verify=false"),
    ]);
    let uri = sqlalchemy_uri(ConfigMap { data: Some(data) }).unwrap();
    assert_eq!(uri, "trino://admin@trino:8443/?verify=false");
}

#[test]
fn config_map_without_the_key_has_no_connect_string() {
    let error = sqlalchemy_uri(ConfigMap { data: Some(map(&[("TRINO", "trino:8443")])) }).unwrap_err();
    assert!(matches!(error, Error::MissingTrinoConnString));
}

#[test]
fn config_map_without_data_has_no_connect_string() {
    let error = sqlalchemy_uri(ConfigMap { data: None }).unwrap_err();
    assert!(matches!(error, Error::MissingTrinoConnString));
}

#[test]
fn later_values_take_the_place_of_earlier_ones() {
    let mut map = map(&[("a", "1"), ("b", "2"), ("a", "3")]);
    assert_eq!(map.remove("a"), Some("3".to_string()));
    assert_eq!(map.remove("a"), None);
    assert_eq!(map.remove("b"), Some("2".to_string()));
    assert_eq!(map.remove("c"), None);
}
