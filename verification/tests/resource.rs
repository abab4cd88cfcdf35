use k8s_openapi::apimachinery::pkg::apis::meta::v1::Time;
use k8s_openapi::chrono::{DateTime, Utc};
use trino_connection::object::ObjectMeta;
use trino_connection::trinoconnection::{
    ClusterRef, Error, TrinoConnection, TrinoConnectionSpec, TrinoConnectionStatus,
    TrinoConnectionStatusCondition,
};

fn cluster(name: &str, namespace: Option<&str>) -> ClusterRef {
    ClusterRef { name: name.to_string(), namespace: namespace.map(String::from) }
}

fn connection(
    namespace: Option<&str>,
    superset_namespace: Option<&str>,
    trino_namespace: Option<&str>,
) -> TrinoConnection {
    TrinoConnection {
        metadata: ObjectMeta {
            name: Some("simple".to_string()),
            namespace: namespace.map(String::from),
            uid: None,
            resource_version: None,
        },
        spec: TrinoConnectionSpec {
            superset: cluster("simple-superset", superset_namespace),
            trino: cluster("simple-trino", trino_namespace),
        },
        status: None,
    }
}

fn noon() -> Time {
    Time(DateTime::<Utc>::from_timestamp(1_700_000_000, 0).unwrap())
}

#[test]
fn job_is_named_after_the_connection() {
    assert_eq!(connection(None, None, None).job_name(), "simple-import");
}

#[test]
fn connections_of_different_names_have_jobs_of_different_names() {
    let left = connection(None, None, None);
    let mut right = connection(None, None, None);
    right.metadata.name = Some("simple-import".to_string());
    assert_eq!(right.job_name(), "simple-import-import");
    assert_ne!(left.job_name(), right.job_name());
}

#[test]
fn cluster_names_are_those_of_the_spec() {
    let connection = connection(None, None, None);
    assert_eq!(connection.superset_name(), "simple-superset");
    assert_eq!(connection.trino_name(), "simple-trino");
}

#[test]
fn given_namespaces_stand() {
    let connection = connection(Some("own"), Some("s"), Some("t"));
    assert_eq!(connection.superset_namespace(), Ok("s".to_string()));
    assert_eq!(connection.trino_namespace(), Ok("t".to_string()));
}

#[test]
fn namespaces_default_to_that_of_the_connection() {
    let connection = connection(Some("own"), None, None);
    assert_eq!(connection.superset_namespace(), Ok("own".to_string()));
    assert_eq!(connection.trino_namespace(), Ok("own".to_string()));
}

#[test]
fn namespaces_of_the_two_clusters_are_independent() {
    let connection = connection(None, Some("s"), None);
    assert_eq!(connection.superset_namespace(), Ok("s".to_string()));
    assert_eq!(
        connection.trino_namespace(),
        Err(Error::NoNamespace { trino_connection: "simple".to_string() })
    );
}

#[test]
fn missing_namespace_is_an_error() {
    let error = connection(None, None, Some("t")).superset_namespace().unwrap_err();
    assert_eq!(error, Error::NoNamespace { trino_connection: "simple".to_string() });
    assert_eq!(error.message(), "simple is missing a namespace, this should not happen!");
}

#[test]
fn nameless_connection_has_namespaces() {
    let mut connection = connection(Some("own"), None, Some("t"));
    connection.metadata.name = None;
    assert_eq!(connection.superset_namespace(), Ok("own".to_string()));
    assert_eq!(connection.trino_namespace(), Ok("t".to_string()));
}

#[test]
fn new_status_is_pending_from_now_on() {
    let before = Utc::now();
    let status = TrinoConnectionStatus::new();
    let after = Utc::now();
    assert_eq!(status.condition, TrinoConnectionStatusCondition::Pending);
    let started_at = status.started_at.unwrap();
    assert!(Time(before) <= started_at && started_at <= Time(after));
}

#[test]
fn default_status_is_a_new_one() {
    let status = TrinoConnectionStatus::default();
    assert_eq!(status.condition, TrinoConnectionStatusCondition::Pending);
    assert!(status.started_at.is_some());
}

#[test]
fn pending_status_holds_the_time() {
    let status = TrinoConnectionStatus::pending_since(noon());
    assert_eq!(
        status,
        TrinoConnectionStatus {
            started_at: Some(noon()),
            condition: TrinoConnectionStatusCondition::Pending,
        }
    );
}

#[test]
fn conditions_change_and_the_time_stays() {
    let status = TrinoConnectionStatus::pending_since(noon());
    let importing = status.importing();
    let ready = importing.ready();
    let failed = importing.failed();
    assert_eq!(importing.condition, TrinoConnectionStatusCondition::Importing);
    assert_eq!(ready.condition, TrinoConnectionStatusCondition::Ready);
    assert_eq!(failed.condition, TrinoConnectionStatusCondition::Failed);
    assert_eq!(importing.started_at, Some(noon()));
    assert_eq!(ready.started_at, Some(noon()));
    assert_eq!(failed.started_at, Some(noon()));
    assert_eq!(status.condition, TrinoConnectionStatusCondition::Pending);
}

#[test]
fn status_without_a_time_stays_without() {
    let status = TrinoConnectionStatus {
        started_at: None,
        condition: TrinoConnectionStatusCondition::Importing,
    };
    assert_eq!(status.ready().started_at, None);
    assert_eq!(status.clone(), status);
}

#[test]
fn clone_of_a_connection_is_equal() {
    let mut connection = connection(Some("own"), None, Some("t"));
    connection.status = Some(TrinoConnectionStatus::pending_since(noon()));
    assert_eq!(connection.clone(), connection);
}
