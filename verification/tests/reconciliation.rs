use k8s_openapi::apimachinery::pkg::apis::meta::v1::Time;
use k8s_openapi::chrono::{DateTime, Utc};
use kube::error::ErrorResponse;
use trino_connection::discovery::ConfigMap;
use trino_connection::import_job::SupersetConfigFile;
use trino_connection::object::{ObjectKind, ObjectMeta};
use trino_connection::reconcile::{
    start, JobState, Outcome, Request, Response, Settings, Stage,
};
use trino_connection::string_map::StringMap;
use trino_connection::superset::{
    ClusterCondition, ClusterConditionStatus, ClusterConditionType, ResolvedProductImage,
    SupersetCluster,
};
use trino_connection::trino_connection_controller::{
    error_policy, Action, Error, TRINO_CONNECTION_CONTROLLER_NAME,
};
use trino_connection::trinoconnection::{
    ClusterRef, TrinoConnection, TrinoConnectionSpec, TrinoConnectionStatus,
    TrinoConnectionStatusCondition,
};

fn noon() -> Time {
    Time(DateTime::<Utc>::from_timestamp(1_700_000_000, 0).unwrap())
}

fn connection(condition: Option<TrinoConnectionStatusCondition>) -> TrinoConnection {
    TrinoConnection {
        metadata: ObjectMeta {
            name: Some("simple".to_string()),
            namespace: Some("own".to_string()),
            uid: Some("u-1".to_string()),
            resource_version: Some("17".to_string()),
        },
        spec: TrinoConnectionSpec {
            superset: ClusterRef { name: "simple-superset".to_string(), namespace: None },
            trino: ClusterRef {
                name: "simple-trino".to_string(),
                namespace: Some("trino-ns".to_string()),
            },
        },
        status: condition
            .map(|condition| TrinoConnectionStatus { started_at: Some(noon()), condition }),
    }
}

fn pending() -> TrinoConnection {
    connection(Some(TrinoConnectionStatusCondition::Pending))
}

fn importing() -> TrinoConnection {
    connection(Some(TrinoConnectionStatusCondition::Importing))
}

fn settings() -> Settings {
    Settings {
        service_account: "superset-sa".to_string(),
        config_file: SupersetConfigFile {
            python_path: "/pythonpath".to_string(),
            filename: "superset_config.py".to_string(),
        },
    }
}

fn superset(status: ClusterConditionStatus) -> Response {
    Response::SupersetCluster {
        cluster: SupersetCluster {
            credentials_secret: "credentials".to_string(),
            conditions: Some(vec![ClusterCondition {
                type_: ClusterConditionType::Available,
                status,
            }]),
        },
        image: ResolvedProductImage {
            image: "superset:2.1.0".to_string(),
            image_pull_policy: "Always".to_string(),
            pull_secrets: None,
        },
    }
}

fn ready() -> Response {
    superset(ClusterConditionStatus::True)
}

fn discovery(key: &str) -> Response {
    let mut data = StringMap::new();
    data.insert(key.to_string(), "trino://trino:8443".to_string());
    Response::ConfigMap { config_map: ConfigMap { data: Some(data) } }
}

fn failure() -> Response {
    Response::Failed {
        source: kube::Error::Api(ErrorResponse {
            status: "Failure".to_string(),
            message: "no such thing".to_string(),
            reason: "NotFound".to_string(),
            code: 404,
        }),
    }
}

fn is_the_failure(source: &kube::Error) -> bool {
    matches!(source, kube::Error::Api(response) if response.message == "no such thing")
}

/// Hands the responses to the controller, and gives the requests that it makes and the outcome.
fn run(connection: &TrinoConnection, responses: Vec<Response>) -> (Vec<Request>, Outcome) {
    let settings = settings();
    let mut requests = Vec::new();
    let mut outcome = start();
    for response in responses {
        match outcome {
            Outcome::Continue { stage, request } => {
                assert!(stage.can_act_on(connection, &response));
                requests.push(request);
                outcome = stage.step(connection, &settings, response);
            }
            Outcome::Finished { .. } => panic!("{outcome:?}"),
        }
    }
    (requests, outcome)
}

fn open_request(connection: &TrinoConnection, responses: Vec<Response>) -> Request {
    match run(connection, responses).1 {
        Outcome::Continue { request, .. } => request,
        other => panic!("{other:?}"),
    }
}

fn result(connection: &TrinoConnection, responses: Vec<Response>) -> Result<Action, Error> {
    match run(connection, responses).1 {
        Outcome::Finished { result } => result,
        other => panic!("{other:?}"),
    }
}

fn error(connection: &TrinoConnection, responses: Vec<Response>) -> Error {
    result(connection, responses).unwrap_err()
}

fn until_job() -> Vec<Response> {
    vec![
        Response::Applied,
        Response::Applied,
        Response::ConfigMapFound { found: true },
        ready(),
        discovery("TRINO_SQLALCHEMY"),
    ]
}

#[test]
fn controller_has_a_name() {
    assert_eq!(TRINO_CONNECTION_CONTROLLER_NAME, "trino-connection");
}

#[test]
fn access_is_granted_first() {
    for connection in [connection(None), pending(), importing()] {
        assert_eq!(open_request(&connection, vec![]), Request::ApplyServiceAccount);
        assert_eq!(
            open_request(&connection, vec![Response::Applied]),
            Request::ApplyRoleBinding
        );
    }
}

#[test]
fn connection_without_a_status_becomes_pending() {
    let connection = connection(None);
    let before = Utc::now();
    let request = open_request(&connection, vec![Response::Applied, Response::Applied]);
    match request {
        Request::ApplyStatus { status } => {
            assert_eq!(status.condition, TrinoConnectionStatusCondition::Pending);
            assert!(status.started_at.unwrap() >= Time(before));
        }
        other => panic!("{other:?}"),
    }
    let done = result(
        &connection,
        vec![Response::Applied, Response::Applied, Response::Applied],
    );
    assert_eq!(done.unwrap(), Action::AwaitChange);
}

#[test]
fn pending_connection_is_imported() {
    let mut responses = until_job();
    responses.push(Response::Applied);
    responses.push(Response::Applied);
    let (requests, outcome) = run(&pending(), responses);
    assert_eq!(requests.len(), 7);
    assert_eq!(
        requests[2],
        Request::FindConfigMap {
            name: "simple-trino".to_string(),
            namespace: "trino-ns".to_string(),
        }
    );
    assert_eq!(
        requests[3],
        Request::GetSupersetCluster {
            name: "simple-superset".to_string(),
            namespace: "own".to_string(),
        }
    );
    assert_eq!(
        requests[4],
        Request::GetConfigMap {
            name: "simple-trino".to_string(),
            namespace: "trino-ns".to_string(),
        }
    );
    match &requests[5] {
        Request::ApplyJob { job } => {
            assert_eq!(job.name, "simple-import");
            assert_eq!(job.template.service_account, "superset-sa");
            let container = &job.template.containers[0];
            assert_eq!(container.image, "superset:2.1.0");
            assert_eq!(container.env[0].secret_name, "credentials");
            assert!(container.args[1].starts_with("mkdir -p /pythonpath; "));
            assert!(container.args[1].contains("sqlalchemy_uri: trino://trino:8443\n"));
        }
        other => panic!("{other:?}"),
    }
    assert_eq!(
        requests[6],
        Request::ApplyStatus {
            status: TrinoConnectionStatus {
                started_at: Some(noon()),
                condition: TrinoConnectionStatusCondition::Importing,
            },
        }
    );
    assert!(matches!(outcome, Outcome::Finished { result: Ok(Action::AwaitChange) }));
}

#[test]
fn pending_connection_waits_for_trino() {
    let done = result(
        &pending(),
        vec![
            Response::Applied,
            Response::Applied,
            Response::ConfigMapFound { found: false },
            ready(),
        ],
    );
    assert_eq!(done.unwrap(), Action::AwaitChange);
}

#[test]
fn pending_connection_waits_for_superset() {
    let done = result(
        &pending(),
        vec![
            Response::Applied,
            Response::Applied,
            Response::ConfigMapFound { found: true },
            superset(ClusterConditionStatus::Unknown),
        ],
    );
    assert_eq!(done.unwrap(), Action::AwaitChange);
}

#[test]
fn job_that_is_looked_up_is_the_one_that_was_applied() {
    let applied = match open_request(&pending(), until_job()) {
        Request::ApplyJob { job } => job,
        other => panic!("{other:?}"),
    };
    assert_eq!(
        open_request(&importing(), vec![Response::Applied, Response::Applied]),
        Request::GetJob { name: applied.name, namespace: applied.namespace.unwrap() }
    );
}

#[test]
fn job_is_looked_up_in_the_default_namespace() {
    let mut connection = importing();
    connection.metadata.namespace = None;
    assert_eq!(
        open_request(&connection, vec![Response::Applied, Response::Applied]),
        Request::GetJob { name: "simple-import".to_string(), namespace: "default".to_string() }
    );
}

fn applied_status(connection: &TrinoConnection, responses: Vec<Response>) -> TrinoConnectionStatus {
    match open_request(connection, responses) {
        Request::ApplyStatus { status } => status,
        other => panic!("{other:?}"),
    }
}

fn status_after(state: JobState) -> TrinoConnectionStatus {
    let responses = vec![Response::Applied, Response::Applied, Response::Job { state }];
    applied_status(&importing(), responses)
}

#[test]
fn completed_job_makes_the_connection_ready() {
    let status = status_after(JobState::Complete);
    assert_eq!(status.condition, TrinoConnectionStatusCondition::Ready);
    assert_eq!(status.started_at, Some(noon()));
}

#[test]
fn failed_job_makes_the_connection_fail() {
    let status = status_after(JobState::Failed);
    assert_eq!(status.condition, TrinoConnectionStatusCondition::Failed);
    assert_eq!(status.started_at, Some(noon()));
}

#[test]
fn running_job_changes_nothing() {
    let done = result(
        &importing(),
        vec![
            Response::Applied,
            Response::Applied,
            Response::Job { state: JobState::InProgress },
        ],
    );
    assert_eq!(done.unwrap(), Action::AwaitChange);
}

#[test]
fn ready_and_failed_connections_are_left_alone() {
    for condition in
        [TrinoConnectionStatusCondition::Ready, TrinoConnectionStatusCondition::Failed]
    {
        let connection = connection(Some(condition));
        let done = result(&connection, vec![Response::Applied, Response::Applied]);
        assert_eq!(done.unwrap(), Action::AwaitChange);
    }
}

#[test]
fn status_is_applied_last() {
    for (connection, mut responses) in [
        (connection(None), vec![Response::Applied, Response::Applied]),
        (
            importing(),
            vec![
                Response::Applied,
                Response::Applied,
                Response::Job { state: JobState::Complete },
            ],
        ),
    ] {
        responses.push(Response::Applied);
        let (requests, outcome) = run(&connection, responses);
        let asked = |request: &&Request| matches!(request, Request::ApplyStatus { .. });
        assert_eq!(requests.iter().filter(asked).count(), 1);
        assert!(matches!(requests.last(), Some(Request::ApplyStatus { .. })));
        assert!(matches!(outcome, Outcome::Finished { result: Ok(Action::AwaitChange) }));
    }
}

#[test]
fn connection_goes_its_whole_way() {
    for (state, end) in [
        (JobState::Complete, TrinoConnectionStatusCondition::Ready),
        (JobState::Failed, TrinoConnectionStatusCondition::Failed),
    ] {
        let mut connection = connection(None);
        let first = applied_status(&connection, vec![Response::Applied, Response::Applied]);
        let since = first.started_at.clone();
        assert!(since.is_some());
        assert_eq!(first.condition, TrinoConnectionStatusCondition::Pending);

        connection.status = Some(first);
        let mut responses = until_job();
        responses.push(Response::Applied);
        let second = applied_status(&connection, responses);
        assert_eq!(second.condition, TrinoConnectionStatusCondition::Importing);

        connection.status = Some(second);
        let responses = vec![Response::Applied, Response::Applied, Response::Job { state }];
        let third = applied_status(&connection, responses);
        assert_eq!(third.condition, end);
        assert_eq!(third.started_at, since);
    }
}

#[test]
fn nameless_connection_becomes_pending() {
    let mut connection = connection(None);
    connection.metadata.name = None;
    let request = open_request(&connection, vec![Response::Applied, Response::Applied]);
    assert!(matches!(request, Request::ApplyStatus { .. }));
}

#[test]
fn failure_to_apply_the_service_account() {
    let error = error(&pending(), vec![failure()]);
    assert_eq!(error.category(), "ApplyServiceAccount");
    assert_eq!(error.message(), "failed to patch service account");
    assert!(error.secondary_object().is_none());
    assert!(matches!(error, Error::ApplyServiceAccount { source } if is_the_failure(&source)));
}

#[test]
fn failure_to_apply_the_role_binding() {
    let error = error(&pending(), vec![Response::Applied, failure()]);
    assert_eq!(error.category(), "ApplyRoleBinding");
    assert_eq!(error.message(), "failed to patch role binding");
    assert!(error.secondary_object().is_none());
    assert!(matches!(error, Error::ApplyRoleBinding { source } if is_the_failure(&source)));
}

#[test]
fn failure_to_find_the_discovery_config_map() {
    let mut responses = until_job();
    responses.truncate(2);
    responses.push(failure());
    let error = error(&pending(), responses);
    assert_eq!(error.category(), "TrinoDiscoveryCheck");
    assert_eq!(error.message(), "failed to check if trino discovery map exists");
    assert!(error.secondary_object().is_none());
    assert!(matches!(error, Error::TrinoDiscoveryCheck { source } if is_the_failure(&source)));
}

#[test]
fn failure_to_get_the_superset_cluster() {
    let mut responses = until_job();
    responses.truncate(3);
    responses.push(failure());
    let error = error(&pending(), responses);
    assert_eq!(error.category(), "SupersetClusterRetrieval");
    assert_eq!(error.message(), "failed to retrieve superset cluster");
    assert!(error.secondary_object().is_none());
    assert!(matches!(error, Error::SupersetClusterRetrieval { source } if is_the_failure(&source)));
}

#[test]
fn failure_to_get_the_connect_string() {
    let mut responses = until_job();
    responses.truncate(4);
    responses.push(failure());
    let error = error(&pending(), responses);
    assert_eq!(error.category(), "GetTrinoConnStringConfigMap");
    assert_eq!(
        error.message(),
        "failed to get Trino connection string from config map ConfigMap.v1./simple-trino.trino-ns"
    );
    let object = error.secondary_object().unwrap();
    assert_eq!(object.kind, ObjectKind::ConfigMap);
    assert_eq!(object.name, "simple-trino");
    assert_eq!(object.namespace, Some("trino-ns".to_string()));
    assert!(
        matches!(error, Error::GetTrinoConnStringConfigMap { source, .. } if is_the_failure(&source))
    );
}

#[test]
fn config_map_without_a_connect_string() {
    let mut responses = until_job();
    responses.truncate(4);
    responses.push(discovery("TRINO"));
    let error = error(&pending(), responses);
    assert!(matches!(error, Error::MissingTrinoConnString));
    assert_eq!(error.category(), "MissingTrinoConnString");
    assert_eq!(error.message(), "failed to get Trino connection string from config map");
    assert!(error.secondary_object().is_none());
}

#[test]
fn connection_without_a_uid() {
    let mut connection = pending();
    connection.metadata.uid = None;
    let error = error(&connection, until_job());
    assert_eq!(error.category(), "ObjectMissingMetadataForOwnerRef");
    assert_eq!(error.message(), "object is missing metadata to build owner reference");
    assert!(error.secondary_object().is_none());
}

#[test]
fn failure_to_apply_the_job() {
    let mut responses = until_job();
    responses.push(failure());
    let error = error(&pending(), responses);
    assert_eq!(error.category(), "ApplyJob");
    assert_eq!(error.message(), "failed to apply Job for Trino Connection");
    assert!(error.secondary_object().is_none());
    assert!(matches!(error, Error::ApplyJob { source } if is_the_failure(&source)));
}

#[test]
fn failure_to_apply_the_status() {
    let mut responses = until_job();
    responses.push(Response::Applied);
    responses.push(failure());
    let error = error(&pending(), responses);
    assert_eq!(error.category(), "ApplyStatus");
    assert_eq!(error.message(), "failed to update status");
    assert!(error.secondary_object().is_none());
    assert!(matches!(error, Error::ApplyStatus { source } if is_the_failure(&source)));
}

#[test]
fn failure_to_get_the_job() {
    let error = error(&importing(), vec![Response::Applied, Response::Applied, failure()]);
    assert_eq!(error.category(), "GetImportJob");
    assert_eq!(
        error.message(),
        "trino connection state is 'importing' but failed to find job \
         Job.v1.batch/simple-import.own"
    );
    let object = error.secondary_object().unwrap();
    assert_eq!(object.kind, ObjectKind::Job);
    assert_eq!(object.name, "simple-import");
    assert_eq!(object.namespace, Some("own".to_string()));
    assert!(matches!(error, Error::GetImportJob { source, .. } if is_the_failure(&source)));
}

#[test]
fn trino_cluster_without_a_namespace() {
    let mut connection = pending();
    connection.metadata.namespace = None;
    connection.spec.trino.namespace = None;
    let error = error(&connection, vec![Response::Applied, Response::Applied]);
    assert_eq!(error.category(), "TrinoConnectionNoNamespace");
    assert_eq!(
        error.message(),
        "namespace missing on TrinoConnection \
         TrinoConnection.v1alpha1.superset.stackable.tech/simple"
    );
    let object = error.secondary_object().unwrap();
    assert_eq!(object.kind, ObjectKind::TrinoConnection);
    assert_eq!(object.name, "simple");
    assert_eq!(object.namespace, None);
    assert_eq!(object.uid, Some("u-1".to_string()));
    assert_eq!(object.resource_version, Some("17".to_string()));
}

#[test]
fn superset_cluster_without_a_namespace() {
    let mut connection = pending();
    connection.metadata.namespace = None;
    let mut responses = until_job();
    responses.truncate(3);
    match error(&connection, responses) {
        Error::TrinoConnectionNoNamespace { source, .. } => assert_eq!(
            source.message(),
            "simple is missing a namespace, this should not happen!"
        ),
        other => panic!("{other:?}"),
    }
}

#[test]
fn stage_accepts_only_answers_to_its_request() {
    assert!(Stage::ServiceAccount.can_act_on(&pending(), &Response::Applied));
    assert!(Stage::ServiceAccount.can_act_on(&pending(), &failure()));
    assert!(!Stage::ServiceAccount.can_act_on(&pending(), &ready()));
    assert!(Stage::RoleBinding.can_act_on(&pending(), &Response::Applied));
    assert!(Stage::TrinoDiscovery.can_act_on(&pending(), &Response::ConfigMapFound { found: false }));
    assert!(!Stage::TrinoDiscovery.can_act_on(&pending(), &Response::Applied));
    assert!(Stage::SupersetCluster { trino_discovery_exists: true }.can_act_on(&pending(), &ready()));
    assert!(Stage::ImportJob.can_act_on(&pending(), &Response::Applied));
    assert!(Stage::JobProgress.can_act_on(&pending(), &Response::Job { state: JobState::Complete }));
    assert!(!Stage::JobProgress.can_act_on(&pending(), &discovery("TRINO")));
    assert!(Stage::Status.can_act_on(&pending(), &Response::Applied));
    assert!(!Stage::Status.can_act_on(&pending(), &Response::Job { state: JobState::Complete }));
}

#[test]
fn nameless_connection_can_only_be_acted_on_before_it_is_imported() {
    let mut connection = pending();
    connection.metadata.name = None;
    assert!(Stage::ServiceAccount.can_act_on(&connection, &Response::Applied));
    assert!(Stage::RoleBinding.can_act_on(&connection, &failure()));
    assert!(!Stage::RoleBinding.can_act_on(&connection, &Response::Applied));
    connection.status = None;
    assert!(Stage::RoleBinding.can_act_on(&connection, &Response::Applied));
}

#[test]
fn failure_is_reported_for_a_nameless_connection() {
    let mut connection = pending();
    connection.metadata.name = None;
    let error = error(&connection, vec![Response::Applied, failure()]);
    assert_eq!(error.category(), "ApplyRoleBinding");
}

#[test]
fn errors_are_retried_after_five_seconds() {
    assert_eq!(
        error_policy(&pending(), &Error::MissingTrinoConnString),
        Action::Requeue { seconds: 5 }
    );
}
