//! The `TrinoConnection` resource and its status.

use crate::object::{ObjectMeta, ObjectMetaView};
use k8s_openapi::apimachinery::pkg::apis::meta::v1::Time;
use vstd::prelude::*;

verus! {

/// What can be wrong with a connection itself.
#[derive(Debug, PartialEq, Eq)]
pub enum Error {
    NoNamespace { trino_connection: String },
}

/// The model of an [`Error`].
pub enum ErrorView {
    NoNamespace { trino_connection: Seq<char> },
}

impl View for Error {
    type V = ErrorView;

    open spec fn view(&self) -> ErrorView {
        match self {
            Error::NoNamespace { trino_connection } => ErrorView::NoNamespace {
                trino_connection: trino_connection@,
            },
        }
    }
}

impl ErrorView {
    /// The text that tells a user about the error.
    pub open spec fn message(self) -> Seq<char> {
        match self {
            ErrorView::NoNamespace { trino_connection } => trino_connection
                + " is missing a namespace, this should not happen!"@,
        }
    }
}

impl Error {
    /// The text that tells a user about the error.
    pub fn message(&self) -> (res: String)
        ensures
            res@ == self@.message(),
    {
        match self {
            Error::NoNamespace { trino_connection } => trino_connection.clone().concat(
                " is missing a namespace, this should not happen!",
            ),
        }
    }
}

/// A reference to a Superset or a Trino cluster.
#[derive(Debug, PartialEq, Eq)]
pub struct ClusterRef {
    /// The name of the stacklet.
    pub name: String,
    /// The namespace. Defaults to the namespace of the `TrinoConnection` if it is not specified.
    pub namespace: Option<String>,
}

/// The model of a [`ClusterRef`].
pub struct ClusterRefView {
    pub name: Seq<char>,
    pub namespace: Option<Seq<char>>,
}

impl View for ClusterRef {
    type V = ClusterRefView;

    open spec fn view(&self) -> ClusterRefView {
        ClusterRefView { name: self.name@, namespace: self.namespace.deep_view() }
    }
}

impl Clone for ClusterRef {
    fn clone(&self) -> (res: Self)
        ensures
            res == *self,
    {
        ClusterRef { name: self.name.clone(), namespace: self.namespace.clone() }
    }
}

/// What a user asks of a connection.
#[derive(Debug, PartialEq, Eq)]
pub struct TrinoConnectionSpec {
    /// The Superset to connect.
    pub superset: ClusterRef,
    /// The Trino to connect.
    pub trino: ClusterRef,
}

/// The model of a [`TrinoConnectionSpec`].
pub struct TrinoConnectionSpecView {
    pub superset: ClusterRefView,
    pub trino: ClusterRefView,
}

impl View for TrinoConnectionSpec {
    type V = TrinoConnectionSpecView;

    open spec fn view(&self) -> TrinoConnectionSpecView {
        TrinoConnectionSpecView { superset: self.superset@, trino: self.trino@ }
    }
}

impl Clone for TrinoConnectionSpec {
    fn clone(&self) -> (res: Self)
        ensures
            res == *self,
    {
        TrinoConnectionSpec { superset: self.superset.clone(), trino: self.trino.clone() }
    }
}

/// The `TrinoConnection` resource, by which a Trino datasource is deployed in Superset.
#[derive(Debug, PartialEq, Eq)]
pub struct TrinoConnection {
    pub metadata: ObjectMeta,
    pub spec: TrinoConnectionSpec,
    pub status: Option<TrinoConnectionStatus>,
}

/// The model of a [`TrinoConnection`].
pub struct TrinoConnectionView {
    pub metadata: ObjectMetaView,
    pub spec: TrinoConnectionSpecView,
    pub status: Option<TrinoConnectionStatus>,
}

impl View for TrinoConnection {
    type V = TrinoConnectionView;

    open spec fn view(&self) -> TrinoConnectionView {
        TrinoConnectionView {
            metadata: self.metadata@,
            spec: self.spec@,
            status: self.status,
        }
    }
}

impl Clone for TrinoConnection {
    fn clone(&self) -> (res: Self)
        ensures
            res == *self,
    {
        TrinoConnection {
            metadata: self.metadata.clone(),
            spec: self.spec.clone(),
            status: self.status.clone(),
        }
    }
}

impl TrinoConnectionView {
    /// The name of the job that imports this connection.
    pub open spec fn job_name(self) -> Seq<char> {
        self.metadata.name->0 + "-import"@
    }

    /// The namespace of a cluster that the connection refers to: its own one where it is given, and
    /// that of the connection where it is not.
    pub open spec fn namespace_of(self, cluster: ClusterRefView) -> Option<Seq<char>> {
        if cluster.namespace is Some {
            cluster.namespace
        } else {
            self.metadata.namespace
        }
    }

    /// The complaint that a cluster has no namespace.
    pub open spec fn no_namespace(self) -> ErrorView {
        ErrorView::NoNamespace { trino_connection: self.metadata.name->0 }
    }

    /// Whether the connection's status holds this condition.
    pub open spec fn is_in(self, condition: TrinoConnectionStatusCondition) -> bool {
        self.status is Some && self.status->0.condition == condition
    }
}

impl TrinoConnection {
    /// The name of the job that imports this connection.
    pub fn job_name(&self) -> (res: String)
        requires
            self.metadata.name is Some,
        ensures
            res@ == self@.job_name(),
    {
        self.name_unchecked().concat("-import")
    }

    /// The name of the Superset cluster.
    pub fn superset_name(&self) -> (res: String)
        ensures
            res@ == self@.spec.superset.name,
    {
        self.spec.superset.name.clone()
    }

    /// The namespace of the Superset cluster, which is that of the connection by default.
    pub fn superset_namespace(&self) -> (res: Result<String, Error>)
        requires
            self@.namespace_of(self@.spec.superset) is None ==> self.metadata.name is Some,
        ensures
            match res {
                Ok(namespace) => self@.namespace_of(self@.spec.superset) == Some(namespace@),
                Err(error) => self@.namespace_of(self@.spec.superset) is None && error@
                    == self@.no_namespace(),
            },
    {
        self.namespace_of(&self.spec.superset)
    }

    /// The name of the Trino cluster.
    pub fn trino_name(&self) -> (res: String)
        ensures
            res@ == self@.spec.trino.name,
    {
        self.spec.trino.name.clone()
    }

    /// The namespace of the Trino cluster, which is that of the connection by default.
    pub fn trino_namespace(&self) -> (res: Result<String, Error>)
        requires
            self@.namespace_of(self@.spec.trino) is None ==> self.metadata.name is Some,
        ensures
            match res {
                Ok(namespace) => self@.namespace_of(self@.spec.trino) == Some(namespace@),
                Err(error) => self@.namespace_of(self@.spec.trino) is None && error@
                    == self@.no_namespace(),
            },
    {
        self.namespace_of(&self.spec.trino)
    }

    /// The name of the connection, which has one.
    fn name_unchecked(&self) -> (res: String)
        requires
            self.metadata.name is Some,
        ensures
            res@ == self@.metadata.name->0,
    {
        self.metadata.name.clone().unwrap()
    }

    /// The namespace of a cluster that the connection refers to.
    fn namespace_of(&self, cluster: &ClusterRef) -> (res: Result<String, Error>)
        requires
            self@.namespace_of(cluster@) is None ==> self.metadata.name is Some,
        ensures
            match res {
                Ok(namespace) => self@.namespace_of(cluster@) == Some(namespace@),
                Err(error) => self@.namespace_of(cluster@) is None && error@
                    == self@.no_namespace(),
            },
    {
        if let Some(namespace) = &cluster.namespace {
            Ok(namespace.clone())
        } else if let Some(namespace) = &self.metadata.namespace {
            Ok(namespace.clone())
        } else {
            Err(Error::NoNamespace { trino_connection: self.name_unchecked() })
        }
    }
}

/// `Time` of `k8s_openapi`: a point in time as Kubernetes objects hold it.
#[verifier::external_type_specification]
#[verifier::external_body]
pub struct ExTime(Time);

/// `Clone` of `k8s_openapi`'s `Time`, which is derived: the copy is the same point in time.
pub assume_specification[ <Time as Clone>::clone ](time: &Time) -> (res: Time)
    ensures
        res == *time,
;

/// Reads the clock with `chrono::Utc::now`. Nothing is promised of the time that it gives.
#[verifier::external_body]
fn current_time() -> (now: Time) {
    Time(k8s_openapi::chrono::Utc::now())
}

/// How far a connection has come.
#[derive(Clone, Copy, Debug, PartialEq, Eq, Hash, Structural)]
pub enum TrinoConnectionStatusCondition {
    Pending,
    Importing,
    Ready,
    Failed,
}

/// The status of a connection.
#[derive(Debug, PartialEq, Eq)]
pub struct TrinoConnectionStatus {
    pub started_at: Option<Time>,
    pub condition: TrinoConnectionStatusCondition,
}

impl Clone for TrinoConnectionStatus {
    fn clone(&self) -> (res: Self)
        ensures
            res == *self,
    {
        TrinoConnectionStatus { started_at: self.started_at.clone(), condition: self.condition }
    }
}

impl Default for TrinoConnectionStatus {
    fn default() -> (res: Self)
        ensures
            res.started_at is Some,
            res == Self::spec_pending_since(res.started_at->0),
    {
        Self::new()
    }
}

impl TrinoConnectionStatus {
    /// The status of a connection that has been pending since a point in time.
    pub open spec fn spec_pending_since(now: Time) -> TrinoConnectionStatus {
        TrinoConnectionStatus {
            started_at: Some(now),
            condition: TrinoConnectionStatusCondition::Pending,
        }
    }

    /// The same status in another condition.
    pub open spec fn with_condition(
        self,
        condition: TrinoConnectionStatusCondition,
    ) -> TrinoConnectionStatus {
        TrinoConnectionStatus { condition, ..self }
    }

    /// The status of a connection that is pending from now on.
    pub fn new() -> (res: Self)
        ensures
            res.started_at is Some,
            res == Self::spec_pending_since(res.started_at->0),
    {
        Self::pending_since(current_time())
    }

    /// The status of a connection that has been pending since a point in time.
    pub fn pending_since(now: Time) -> (res: Self)
        ensures
            res == Self::spec_pending_since(now),
    {
        TrinoConnectionStatus {
            started_at: Some(now),
            condition: TrinoConnectionStatusCondition::Pending,
        }
    }

    /// The status once the import job has been started.
    pub fn importing(&self) -> (res: Self)
        ensures
            res == self.with_condition(TrinoConnectionStatusCondition::Importing),
    {
        let mut new = self.clone();
        new.condition = TrinoConnectionStatusCondition::Importing;
        new
    }

    /// The status once the import job has completed.
    pub fn ready(&self) -> (res: Self)
        ensures
            res == self.with_condition(TrinoConnectionStatusCondition::Ready),
    {
        let mut new = self.clone();
        new.condition = TrinoConnectionStatusCondition::Ready;
        new
    }

    /// The status once the import job has failed.
    pub fn failed(&self) -> (res: Self)
        ensures
            res == self.with_condition(TrinoConnectionStatusCondition::Failed),
    {
        let mut new = self.clone();
        new.condition = TrinoConnectionStatusCondition::Failed;
        new
    }
}

/// Two connections of different names are imported by jobs of different names.
pub proof fn lemma_job_name_tells_connections_apart(
    left: TrinoConnectionView,
    right: TrinoConnectionView,
)
    requires
        left.metadata.name is Some,
        right.metadata.name is Some,
        left.job_name() == right.job_name(),
    ensures
        left.metadata.name == right.metadata.name,
{
    let l = left.metadata.name->0;
    let r = right.metadata.name->0;
    assert(l.len() == left.job_name().len() - "-import"@.len());
    assert(r.len() == right.job_name().len() - "-import"@.len());
    assert(left.job_name().take(l.len() as int) == l);
    assert(right.job_name().take(r.len() as int) == r);
}

/// A connection that is in a namespace itself finds one for every cluster: its own where the cluster
/// names none, and never its own in place of one that the cluster names.
pub proof fn lemma_namespaced_connection_resolves_every_cluster(
    connection: TrinoConnectionView,
    cluster: ClusterRefView,
)
    requires
        connection.metadata.namespace is Some,
    ensures
        connection.namespace_of(cluster) is Some,
        cluster.namespace is None ==> connection.namespace_of(cluster)
            == connection.metadata.namespace,
        cluster.namespace is Some ==> connection.namespace_of(cluster) == cluster.namespace,
{
}

} // verus!
