//! The decisions that reconcile a connection.
//!
//! Reconciling a connection alternates between asking something of the cluster and deciding on what
//! came back. [`start`] gives the first request. The caller carries each [`Request`] out and hands
//! the [`Response`] to [`Stage::step`], until the outcome is [`Outcome::Finished`].

use crate::discovery::{sqlalchemy_uri, ConfigMap};
use crate::import_job::{
    build_import_job, Job, JobView, SupersetConfigFile, SupersetConfigFileView,
};
use crate::object::{ObjectKind, ObjectRef, ObjectRefView};
use crate::superset::{
    ResolvedProductImage, ResolvedProductImageView, SupersetCluster, SupersetClusterView,
};
use crate::trino_connection_controller::{Action, Error, ErrorView};
use crate::trinoconnection::{
    TrinoConnection, TrinoConnectionStatus, TrinoConnectionStatusCondition, TrinoConnectionView,
};
use k8s_openapi::apimachinery::pkg::apis::meta::v1::Time;
use kube::Error as KubeError;
use vstd::prelude::*;

verus! {

/// What the controller knows before it asks anything of the cluster.
#[derive(Debug, PartialEq, Eq)]
pub struct Settings {
    /// The service account that the import job runs under.
    pub service_account: String,
    /// Where Superset reads its configuration from.
    pub config_file: SupersetConfigFile,
}

/// The model of [`Settings`].
pub struct SettingsView {
    pub service_account: Seq<char>,
    pub config_file: SupersetConfigFileView,
}

impl View for Settings {
    type V = SettingsView;

    open spec fn view(&self) -> SettingsView {
        SettingsView {
            service_account: self.service_account@,
            config_file: self.config_file@,
        }
    }
}

/// How an import job is doing.
#[derive(Clone, Copy, Debug, PartialEq, Eq, Structural)]
pub enum JobState {
    InProgress,
    Complete,
    Failed,
}

/// What the controller asks of the cluster.
#[derive(Debug, PartialEq, Eq)]
pub enum Request {
    /// Apply the service account that import jobs run under.
    ApplyServiceAccount,
    /// Apply the binding that gives the service account its role.
    ApplyRoleBinding,
    /// Find out whether a config map exists.
    FindConfigMap { name: String, namespace: String },
    /// Get a Superset cluster.
    GetSupersetCluster { name: String, namespace: String },
    /// Get a config map.
    GetConfigMap { name: String, namespace: String },
    /// Apply an import job.
    ApplyJob { job: Job },
    /// Get an import job.
    GetJob { name: String, namespace: String },
    /// Apply a status to the connection.
    ApplyStatus { status: TrinoConnectionStatus },
}

/// The model of a [`Request`].
pub enum RequestView {
    ApplyServiceAccount,
    ApplyRoleBinding,
    FindConfigMap { name: Seq<char>, namespace: Seq<char> },
    GetSupersetCluster { name: Seq<char>, namespace: Seq<char> },
    GetConfigMap { name: Seq<char>, namespace: Seq<char> },
    ApplyJob { job: JobView },
    GetJob { name: Seq<char>, namespace: Seq<char> },
    ApplyStatus { status: TrinoConnectionStatus },
}

impl View for Request {
    type V = RequestView;

    open spec fn view(&self) -> RequestView {
        match *self {
            Request::ApplyServiceAccount => RequestView::ApplyServiceAccount,
            Request::ApplyRoleBinding => RequestView::ApplyRoleBinding,
            Request::FindConfigMap { name, namespace } => RequestView::FindConfigMap {
                name: name@,
                namespace: namespace@,
            },
            Request::GetSupersetCluster { name, namespace } => RequestView::GetSupersetCluster {
                name: name@,
                namespace: namespace@,
            },
            Request::GetConfigMap { name, namespace } => RequestView::GetConfigMap {
                name: name@,
                namespace: namespace@,
            },
            Request::ApplyJob { job } => RequestView::ApplyJob { job: job@ },
            Request::GetJob { name, namespace } => RequestView::GetJob {
                name: name@,
                namespace: namespace@,
            },
            Request::ApplyStatus { status } => RequestView::ApplyStatus { status },
        }
    }
}

/// What came back of a request.
#[derive(Debug)]
pub enum Response {
    /// The object was applied.
    Applied,
    /// The config map exists, or it does not.
    ConfigMapFound { found: bool },
    /// The Superset cluster, with the image that it runs.
    SupersetCluster { cluster: SupersetCluster, image: ResolvedProductImage },
    /// The config map.
    ConfigMap { config_map: ConfigMap },
    /// How the import job is doing.
    Job { state: JobState },
    /// The request failed.
    Failed { source: KubeError },
}

/// The model of a [`Response`].
pub enum ResponseView {
    Applied,
    ConfigMapFound { found: bool },
    SupersetCluster { cluster: SupersetClusterView, image: ResolvedProductImageView },
    ConfigMap { data: Option<Map<Seq<char>, Seq<char>>> },
    Job { state: JobState },
    Failed { source: KubeError },
}

impl View for Response {
    type V = ResponseView;

    open spec fn view(&self) -> ResponseView {
        match *self {
            Response::Applied => ResponseView::Applied,
            Response::ConfigMapFound { found } => ResponseView::ConfigMapFound { found },
            Response::SupersetCluster { cluster, image } => ResponseView::SupersetCluster {
                cluster: cluster@,
                image: image@,
            },
            Response::ConfigMap { config_map } => ResponseView::ConfigMap { data: config_map@ },
            Response::Job { state } => ResponseView::Job { state },
            Response::Failed { source } => ResponseView::Failed { source },
        }
    }
}

/// What the controller is waiting for.
#[derive(Debug, PartialEq, Eq)]
pub enum Stage {
    /// The service account to be applied.
    ServiceAccount,
    /// The role binding to be applied.
    RoleBinding,
    /// Word whether the discovery config map of the Trino cluster exists.
    TrinoDiscovery,
    /// The Superset cluster.
    SupersetCluster { trino_discovery_exists: bool },
    /// The discovery config map, which holds the connect string.
    ConnectString { cluster: SupersetCluster, image: ResolvedProductImage },
    /// The import job to be applied.
    ImportJob,
    /// The import job that was applied earlier.
    JobProgress,
    /// The status to be applied.
    Status,
}

/// The model of a [`Stage`].
pub enum StageView {
    ServiceAccount,
    RoleBinding,
    TrinoDiscovery,
    SupersetCluster { trino_discovery_exists: bool },
    ConnectString { cluster: SupersetClusterView, image: ResolvedProductImageView },
    ImportJob,
    JobProgress,
    Status,
}

impl View for Stage {
    type V = StageView;

    open spec fn view(&self) -> StageView {
        match *self {
            Stage::ServiceAccount => StageView::ServiceAccount,
            Stage::RoleBinding => StageView::RoleBinding,
            Stage::TrinoDiscovery => StageView::TrinoDiscovery,
            Stage::SupersetCluster { trino_discovery_exists } => StageView::SupersetCluster {
                trino_discovery_exists,
            },
            Stage::ConnectString { cluster, image } => StageView::ConnectString {
                cluster: cluster@,
                image: image@,
            },
            Stage::ImportJob => StageView::ImportJob,
            Stage::JobProgress => StageView::JobProgress,
            Stage::Status => StageView::Status,
        }
    }
}

/// How it goes on.
#[derive(Debug)]
pub enum Outcome {
    /// The request has to be carried out, and its response to be handed to the stage.
    Continue { stage: Stage, request: Request },
    /// The connection is reconciled for now, or could not be.
    Finished { result: Result<Action, Error> },
}

/// The model of an [`Outcome`].
pub enum OutcomeView {
    Continue { stage: StageView, request: RequestView },
    Finished { result: Result<Action, ErrorView> },
}

impl View for Outcome {
    type V = OutcomeView;

    open spec fn view(&self) -> OutcomeView {
        match *self {
            Outcome::Continue { stage, request } => OutcomeView::Continue {
                stage: stage@,
                request: request@,
            },
            Outcome::Finished { result } => OutcomeView::Finished {
                result: match result {
                    Ok(action) => Ok(action),
                    Err(error) => Err(error@),
                },
            },
        }
    }
}

/// Whether the status of a connection can be acted on: one that is pending or being imported needs a
/// name, after which its import job is named. Every object that comes from the API server has one.
pub open spec fn reconcilable(connection: TrinoConnectionView) -> bool {
    connection.is_in(TrinoConnectionStatusCondition::Pending) || connection.is_in(
        TrinoConnectionStatusCondition::Importing,
    ) ==> connection.metadata.name is Some
}

/// Nothing is left to be done until something changes.
pub open spec fn settled() -> OutcomeView {
    OutcomeView::Finished { result: Ok(Action::AwaitChange) }
}

/// The connection could not be reconciled.
pub open spec fn failed(error: ErrorView) -> OutcomeView {
    OutcomeView::Finished { result: Err(error) }
}

/// A cluster that the connection refers to has no namespace.
pub open spec fn no_namespace(connection: TrinoConnectionView) -> ErrorView {
    ErrorView::TrinoConnectionNoNamespace {
        source: connection.no_namespace(),
        trino_connection: ObjectRefView::from_obj(
            ObjectKind::TrinoConnection,
            connection.metadata,
        ),
    }
}

/// The namespace in which the import job of a connection is looked up.
pub open spec fn job_namespace(connection: TrinoConnectionView) -> Seq<char> {
    match connection.metadata.namespace {
        Some(namespace) => namespace,
        None => "default"@,
    }
}

/// Applies the status of the connection, in another condition.
pub open spec fn advance(
    connection: TrinoConnectionView,
    condition: TrinoConnectionStatusCondition,
) -> OutcomeView {
    OutcomeView::Continue {
        stage: StageView::Status,
        request: RequestView::ApplyStatus {
            status: connection.status->0.with_condition(condition),
        },
    }
}

impl StageView {
    /// Whether a reconciliation of this connection can be in this stage.
    pub open spec fn fits(self, connection: TrinoConnectionView) -> bool {
        let pending = connection.is_in(TrinoConnectionStatusCondition::Pending)
            && connection.metadata.name is Some;
        let importing = connection.is_in(TrinoConnectionStatusCondition::Importing)
            && connection.metadata.name is Some;
        let trino_namespace = connection.namespace_of(connection.spec.trino);
        match self {
            StageView::ServiceAccount => true,
            StageView::RoleBinding => true,
            StageView::TrinoDiscovery => pending && trino_namespace is Some,
            StageView::SupersetCluster { .. } => pending && trino_namespace is Some,
            StageView::ConnectString { cluster, .. } => pending && trino_namespace is Some
                && cluster.is_ready(),
            StageView::ImportJob => pending,
            StageView::JobProgress => importing,
            StageView::Status => true,
        }
    }

    /// Whether a response is one to the request that the stage waits for.
    pub open spec fn accepts(self, response: ResponseView) -> bool {
        response is Failed || match self {
            StageView::TrinoDiscovery => response is ConfigMapFound,
            StageView::SupersetCluster { .. } => response is SupersetCluster,
            StageView::ConnectString { .. } => response is ConfigMap,
            StageView::JobProgress => response is Job,
            _ => response is Applied,
        }
    }

    /// Whether the stage can act on a response to its request. Once the role binding is applied, the
    /// status of the connection is acted on.
    pub open spec fn can_act_on(
        self,
        connection: TrinoConnectionView,
        response: ResponseView,
    ) -> bool {
        &&& self.accepts(response)
        &&& self is RoleBinding && response is Applied ==> reconcilable(connection)
    }

    /// The error that a failed request brings about.
    pub open spec fn failure(
        self,
        connection: TrinoConnectionView,
        source: KubeError,
    ) -> ErrorView {
        match self {
            StageView::ServiceAccount => ErrorView::ApplyServiceAccount { source },
            StageView::RoleBinding => ErrorView::ApplyRoleBinding { source },
            StageView::TrinoDiscovery => ErrorView::TrinoDiscoveryCheck { source },
            StageView::SupersetCluster { .. } => ErrorView::SupersetClusterRetrieval { source },
            StageView::ConnectString { .. } => ErrorView::GetTrinoConnStringConfigMap {
                source,
                config_map: ObjectRefView::named(
                    ObjectKind::ConfigMap,
                    connection.spec.trino.name,
                ).within(connection.namespace_of(connection.spec.trino)->0),
            },
            StageView::ImportJob => ErrorView::ApplyJob { source },
            StageView::JobProgress => ErrorView::GetImportJob {
                source,
                import_job: ObjectRefView::named(ObjectKind::Job, connection.job_name()).within(
                    job_namespace(connection),
                ),
            },
            StageView::Status => ErrorView::ApplyStatus { source },
        }
    }

    /// How it goes on after a response. The time is that of the first status, which a connection
    /// without one gets.
    pub open spec fn next(
        self,
        connection: TrinoConnectionView,
        settings: SettingsView,
        response: ResponseView,
        now: Time,
    ) -> OutcomeView
        recommends
            self.fits(connection),
            self.can_act_on(connection, response),
    {
        if let ResponseView::Failed { source } = response {
            failed(self.failure(connection, source))
        } else {
            match self {
                StageView::ServiceAccount => OutcomeView::Continue {
                    stage: StageView::RoleBinding,
                    request: RequestView::ApplyRoleBinding,
                },
                StageView::RoleBinding => begin(connection, now),
                StageView::TrinoDiscovery => look_up_superset(connection, response->found),
                StageView::SupersetCluster { trino_discovery_exists } => {
                    if trino_discovery_exists && response->cluster.is_ready() {
                        OutcomeView::Continue {
                            stage: StageView::ConnectString {
                                cluster: response->cluster,
                                image: response->image,
                            },
                            request: RequestView::GetConfigMap {
                                name: connection.spec.trino.name,
                                namespace: connection.namespace_of(connection.spec.trino)->0,
                            },
                        }
                    } else {
                        settled()
                    }
                },
                StageView::ConnectString { cluster, image } => start_import(
                    connection,
                    settings,
                    cluster,
                    image,
                    response->data,
                ),
                StageView::ImportJob => advance(
                    connection,
                    TrinoConnectionStatusCondition::Importing,
                ),
                StageView::JobProgress => match response->state {
                    JobState::Failed => advance(connection, TrinoConnectionStatusCondition::Failed),
                    JobState::Complete => advance(
                        connection,
                        TrinoConnectionStatusCondition::Ready,
                    ),
                    JobState::InProgress => settled(),
                },
                StageView::Status => settled(),
            }
        }
    }
}

/// What the status of a connection calls for.
pub open spec fn begin(connection: TrinoConnectionView, now: Time) -> OutcomeView {
    match connection.status {
        None => OutcomeView::Continue {
            stage: StageView::Status,
            request: RequestView::ApplyStatus {
                status: TrinoConnectionStatus::spec_pending_since(now),
            },
        },
        Some(status) => match status.condition {
            TrinoConnectionStatusCondition::Pending => match connection.namespace_of(
                connection.spec.trino,
            ) {
                Some(namespace) => OutcomeView::Continue {
                    stage: StageView::TrinoDiscovery,
                    request: RequestView::FindConfigMap {
                        name: connection.spec.trino.name,
                        namespace,
                    },
                },
                None => failed(no_namespace(connection)),
            },
            TrinoConnectionStatusCondition::Importing => OutcomeView::Continue {
                stage: StageView::JobProgress,
                request: RequestView::GetJob {
                    name: connection.job_name(),
                    namespace: job_namespace(connection),
                },
            },
            TrinoConnectionStatusCondition::Ready => settled(),
            TrinoConnectionStatusCondition::Failed => settled(),
        },
    }
}

/// The Superset cluster is looked up, whether the Trino cluster was discovered or not.
pub open spec fn look_up_superset(
    connection: TrinoConnectionView,
    trino_discovery_exists: bool,
) -> OutcomeView {
    match connection.namespace_of(connection.spec.superset) {
        Some(namespace) => OutcomeView::Continue {
            stage: StageView::SupersetCluster { trino_discovery_exists },
            request: RequestView::GetSupersetCluster {
                name: connection.spec.superset.name,
                namespace,
            },
        },
        None => failed(no_namespace(connection)),
    }
}

/// The import job is applied, if the discovery config map holds a connect string and the connection
/// can own a job.
pub open spec fn start_import(
    connection: TrinoConnectionView,
    settings: SettingsView,
    cluster: SupersetClusterView,
    image: ResolvedProductImageView,
    data: Option<Map<Seq<char>, Seq<char>>>,
) -> OutcomeView {
    match crate::discovery::connect_string(data) {
        Some(uri) if connection.metadata.uid is Some => OutcomeView::Continue {
            stage: StageView::ImportJob,
            request: RequestView::ApplyJob {
                job: crate::import_job::import_job(
                    cluster,
                    connection,
                    image,
                    uri,
                    settings.service_account,
                    settings.config_file,
                ),
            },
        },
        Some(_) => failed(ErrorView::ObjectMissingMetadataForOwnerRef { key: "uid"@ }),
        None => failed(ErrorView::MissingTrinoConnString),
    }
}

/// The outcome from which every reconciliation starts.
pub open spec fn started() -> OutcomeView {
    OutcomeView::Continue {
        stage: StageView::ServiceAccount,
        request: RequestView::ApplyServiceAccount,
    }
}

/// Starts to reconcile a connection.
pub fn start() -> (res: Outcome)
    ensures
        res@ == started(),
{
    Outcome::Continue { stage: Stage::ServiceAccount, request: Request::ApplyServiceAccount }
}

/// The complaint that a cluster has no namespace, with the connection that refers to it.
fn missing_namespace(
    connection: &TrinoConnection,
    source: crate::trinoconnection::Error,
) -> (res: Outcome)
    requires
        connection.metadata.name is Some,
        source@ == connection@.no_namespace(),
    ensures
        res@ == failed(no_namespace(connection@)),
{
    let trino_connection = ObjectRef::from_obj(ObjectKind::TrinoConnection, &connection.metadata);
    Outcome::Finished {
        result: Err(Error::TrinoConnectionNoNamespace { source, trino_connection }),
    }
}

/// The namespace in which the import job of a connection is looked up.
fn import_namespace(connection: &TrinoConnection) -> (res: String)
    ensures
        res@ == job_namespace(connection@),
{
    match &connection.metadata.namespace {
        Some(namespace) => namespace.clone(),
        None => "default".to_owned(),
    }
}

/// Applies a status to the connection.
fn apply_status(status: TrinoConnectionStatus) -> (res: Outcome)
    ensures
        res@ == (OutcomeView::Continue {
            stage: StageView::Status,
            request: RequestView::ApplyStatus { status },
        }),
{
    Outcome::Continue { stage: Stage::Status, request: Request::ApplyStatus { status } }
}

/// Does what the status of a connection calls for.
fn act_on_status(connection: &TrinoConnection) -> (res: Outcome)
    requires
        reconcilable(connection@),
    ensures
        exists|now: Time| res@ == #[trigger] begin(connection@, now),
{
    let ghost any: Time = arbitrary();
    let res = match &connection.status {
        None => {
            let status = TrinoConnectionStatus::new();
            proof {
                any = status.started_at->0;
            }
            apply_status(status)
        },
        Some(status) => match status.condition {
            TrinoConnectionStatusCondition::Pending => match connection.trino_namespace() {
                Ok(namespace) => Outcome::Continue {
                    stage: Stage::TrinoDiscovery,
                    request: Request::FindConfigMap { name: connection.trino_name(), namespace },
                },
                Err(source) => missing_namespace(connection, source),
            },
            TrinoConnectionStatusCondition::Importing => Outcome::Continue {
                stage: Stage::JobProgress,
                request: Request::GetJob {
                    name: connection.job_name(),
                    namespace: import_namespace(connection),
                },
            },
            TrinoConnectionStatusCondition::Ready | TrinoConnectionStatusCondition::Failed =>
                Outcome::Finished { result: Ok(Action::AwaitChange) },
        },
    };
    assert(res@ == begin(connection@, any));
    res
}

/// Looks the Superset cluster up.
fn ask_for_superset(connection: &TrinoConnection, trino_discovery_exists: bool) -> (res: Outcome)
    requires
        connection.metadata.name is Some,
    ensures
        res@ == look_up_superset(connection@, trino_discovery_exists),
{
    match connection.superset_namespace() {
        Ok(namespace) => Outcome::Continue {
            stage: Stage::SupersetCluster { trino_discovery_exists },
            request: Request::GetSupersetCluster { name: connection.superset_name(), namespace },
        },
        Err(source) => missing_namespace(connection, source),
    }
}

/// Applies the import job, if it can be built.
fn apply_import_job(
    connection: &TrinoConnection,
    settings: &Settings,
    cluster: &SupersetCluster,
    image: &ResolvedProductImage,
    config_map: ConfigMap,
) -> (res: Outcome)
    requires
        connection.metadata.name is Some,
    ensures
        res@ == start_import(connection@, settings@, cluster@, image@, config_map@),
{
    let uri = match sqlalchemy_uri(config_map) {
        Ok(uri) => uri,
        Err(error) => return Outcome::Finished { result: Err(error) },
    };
    let job = build_import_job(
        cluster,
        connection,
        image,
        uri.as_str(),
        settings.service_account.as_str(),
        &settings.config_file,
    );
    match job {
        Ok(job) => Outcome::Continue { stage: Stage::ImportJob, request: Request::ApplyJob { job } },
        Err(error) => Outcome::Finished { result: Err(error) },
    }
}

impl Stage {
    /// Decides how it goes on after a response.
    pub fn step(
        self,
        connection: &TrinoConnection,
        settings: &Settings,
        response: Response,
    ) -> (res: Outcome)
        requires
            self@.fits(connection@),
            self@.can_act_on(connection@, response@),
        ensures
            exists|now: Time|
                res@ == #[trigger] self@.next(connection@, settings@, response@, now),
            res@ matches OutcomeView::Continue { stage, .. } ==> stage.fits(connection@),
    {
        let ghost now: Time = arbitrary();
        let res = match (self, response) {
            (stage, Response::Failed { source }) => Outcome::Finished {
                result: Err(stage.fail(connection, source)),
            },
            (Stage::ServiceAccount, _) => Outcome::Continue {
                stage: Stage::RoleBinding,
                request: Request::ApplyRoleBinding,
            },
            (Stage::RoleBinding, _) => {
                let res = act_on_status(connection);
                proof {
                    now = choose|now: Time| res@ == #[trigger] begin(connection@, now);
                }
                res
            },
            (Stage::TrinoDiscovery, Response::ConfigMapFound { found }) => ask_for_superset(
                connection,
                found,
            ),
            (
                Stage::SupersetCluster { trino_discovery_exists },
                Response::SupersetCluster { cluster, image },
            ) => {
                if trino_discovery_exists && cluster.is_ready() {
                    match connection.trino_namespace() {
                        Ok(namespace) => Outcome::Continue {
                            stage: Stage::ConnectString { cluster, image },
                            request: Request::GetConfigMap {
                                name: connection.trino_name(),
                                namespace,
                            },
                        },
                        Err(source) => missing_namespace(connection, source),
                    }
                } else {
                    Outcome::Finished { result: Ok(Action::AwaitChange) }
                }
            },
            (Stage::ConnectString { cluster, image }, Response::ConfigMap { config_map }) =>
                apply_import_job(connection, settings, &cluster, &image, config_map),
            (Stage::ImportJob, _) => apply_status(connection.status.as_ref().unwrap().importing()),
            (Stage::JobProgress, Response::Job { state }) => match state {
                JobState::Failed => apply_status(connection.status.as_ref().unwrap().failed()),
                JobState::Complete => apply_status(connection.status.as_ref().unwrap().ready()),
                JobState::InProgress => Outcome::Finished { result: Ok(Action::AwaitChange) },
            },
            _ => Outcome::Finished { result: Ok(Action::AwaitChange) },
        };
        assert(res@ == self@.next(connection@, settings@, response@, now));
        res
    }

    /// The error that a failed request brings about.
    fn fail(&self, connection: &TrinoConnection, source: KubeError) -> (res: Error)
        requires
            self@.fits(connection@),
        ensures
            res@ == self@.failure(connection@, source),
    {
        match self {
            Stage::ServiceAccount => Error::ApplyServiceAccount { source },
            Stage::RoleBinding => Error::ApplyRoleBinding { source },
            Stage::TrinoDiscovery => Error::TrinoDiscoveryCheck { source },
            Stage::SupersetCluster { .. } => Error::SupersetClusterRetrieval { source },
            Stage::ConnectString { .. } => {
                let config_map = ObjectRef::new(
                    ObjectKind::ConfigMap,
                    connection.spec.trino.name.as_str(),
                );
                let namespace = connection.trino_namespace().unwrap();
                Error::GetTrinoConnStringConfigMap {
                    source,
                    config_map: config_map.within(namespace.as_str()),
                }
            },
            Stage::ImportJob => Error::ApplyJob { source },
            Stage::JobProgress => Error::GetImportJob {
                source,
                import_job: ObjectRef::new(
                    ObjectKind::Job,
                    connection.job_name().as_str(),
                ).within(import_namespace(connection).as_str()),
            },
            Stage::Status => Error::ApplyStatus { source },
        }
    }

    /// Whether a response is one to the request that the stage waits for.
    fn accepts(&self, response: &Response) -> (res: bool)
        ensures
            res == self@.accepts(response@),
    {
        match (self, response) {
            (_, Response::Failed { .. }) => true,
            (Stage::TrinoDiscovery, Response::ConfigMapFound { .. }) => true,
            (Stage::SupersetCluster { .. }, Response::SupersetCluster { .. }) => true,
            (Stage::ConnectString { .. }, Response::ConfigMap { .. }) => true,
            (Stage::JobProgress, Response::Job { .. }) => true,
            (Stage::ServiceAccount, Response::Applied) => true,
            (Stage::RoleBinding, Response::Applied) => true,
            (Stage::ImportJob, Response::Applied) => true,
            (Stage::Status, Response::Applied) => true,
            _ => false,
        }
    }

    /// Whether the stage can act on a response.
    pub fn can_act_on(&self, connection: &TrinoConnection, response: &Response) -> (res: bool)
        ensures
            res == self@.can_act_on(connection@, response@),
    {
        if !self.accepts(response) {
            return false;
        }
        match (self, response, &connection.status) {
            (Stage::RoleBinding, Response::Applied, Some(status)) => match status.condition {
                TrinoConnectionStatusCondition::Pending
                | TrinoConnectionStatusCondition::Importing => connection.metadata.name.is_some(),
                TrinoConnectionStatusCondition::Ready | TrinoConnectionStatusCondition::Failed =>
                    true,
            },
            _ => true,
        }
    }
}

} // verus!
