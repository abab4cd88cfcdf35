//! The controller that imports Trino connections into Superset.

use crate::object::{MissingObjectKey, ObjectRef, ObjectRefView};
use crate::trinoconnection;
use crate::trinoconnection::TrinoConnection;
use kube::Error as KubeError;
use vstd::prelude::*;

verus! {

/// The name under which the controller applies its objects.
pub const TRINO_CONNECTION_CONTROLLER_NAME: &'static str = "trino-connection";

/// `Error` of `kube`: an error of the Kubernetes client. It is handed on as it came.
#[verifier::external_type_specification]
#[verifier::external_body]
pub struct ExKubeError(KubeError);

/// Why a connection could not be reconciled.
#[derive(Debug)]
#[allow(inconsistent_fields)]
pub enum Error {
    ApplyJob { source: KubeError },
    ApplyStatus { source: KubeError },
    ObjectMissingMetadataForOwnerRef { source: MissingObjectKey },
    GetTrinoConnStringConfigMap { source: KubeError, config_map: ObjectRef },
    MissingTrinoConnString,
    GetImportJob { source: KubeError, import_job: ObjectRef },
    TrinoDiscoveryCheck { source: KubeError },
    TrinoConnectionNoNamespace { source: trinoconnection::Error, trino_connection: ObjectRef },
    ApplyServiceAccount { source: KubeError },
    ApplyRoleBinding { source: KubeError },
    SupersetClusterRetrieval { source: KubeError },
}

/// The model of an [`Error`].
#[allow(inconsistent_fields)]
pub enum ErrorView {
    ApplyJob { source: KubeError },
    ApplyStatus { source: KubeError },
    ObjectMissingMetadataForOwnerRef { key: Seq<char> },
    GetTrinoConnStringConfigMap { source: KubeError, config_map: ObjectRefView },
    MissingTrinoConnString,
    GetImportJob { source: KubeError, import_job: ObjectRefView },
    TrinoDiscoveryCheck { source: KubeError },
    TrinoConnectionNoNamespace {
        source: trinoconnection::ErrorView,
        trino_connection: ObjectRefView,
    },
    ApplyServiceAccount { source: KubeError },
    ApplyRoleBinding { source: KubeError },
    SupersetClusterRetrieval { source: KubeError },
}

impl View for Error {
    type V = ErrorView;

    open spec fn view(&self) -> ErrorView {
        match *self {
            Error::ApplyJob { source } => ErrorView::ApplyJob { source },
            Error::ApplyStatus { source } => ErrorView::ApplyStatus { source },
            Error::ObjectMissingMetadataForOwnerRef { source } =>
                ErrorView::ObjectMissingMetadataForOwnerRef { key: source.key@ },
            Error::GetTrinoConnStringConfigMap { source, config_map } =>
                ErrorView::GetTrinoConnStringConfigMap { source, config_map: config_map@ },
            Error::MissingTrinoConnString => ErrorView::MissingTrinoConnString,
            Error::GetImportJob { source, import_job } => ErrorView::GetImportJob {
                source,
                import_job: import_job@,
            },
            Error::TrinoDiscoveryCheck { source } => ErrorView::TrinoDiscoveryCheck { source },
            Error::TrinoConnectionNoNamespace { source, trino_connection } =>
                ErrorView::TrinoConnectionNoNamespace {
                    source: source@,
                    trino_connection: trino_connection@,
                },
            Error::ApplyServiceAccount { source } => ErrorView::ApplyServiceAccount { source },
            Error::ApplyRoleBinding { source } => ErrorView::ApplyRoleBinding { source },
            Error::SupersetClusterRetrieval { source } => ErrorView::SupersetClusterRetrieval {
                source,
            },
        }
    }
}

impl ErrorView {
    /// The name of the kind of error.
    pub open spec fn category(self) -> Seq<char> {
        match self {
            ErrorView::ApplyJob { .. } => "ApplyJob"@,
            ErrorView::ApplyStatus { .. } => "ApplyStatus"@,
            ErrorView::ObjectMissingMetadataForOwnerRef { .. } =>
                "ObjectMissingMetadataForOwnerRef"@,
            ErrorView::GetTrinoConnStringConfigMap { .. } => "GetTrinoConnStringConfigMap"@,
            ErrorView::MissingTrinoConnString => "MissingTrinoConnString"@,
            ErrorView::GetImportJob { .. } => "GetImportJob"@,
            ErrorView::TrinoDiscoveryCheck { .. } => "TrinoDiscoveryCheck"@,
            ErrorView::TrinoConnectionNoNamespace { .. } => "TrinoConnectionNoNamespace"@,
            ErrorView::ApplyServiceAccount { .. } => "ApplyServiceAccount"@,
            ErrorView::ApplyRoleBinding { .. } => "ApplyRoleBinding"@,
            ErrorView::SupersetClusterRetrieval { .. } => "SupersetClusterRetrieval"@,
        }
    }

    /// The object that the error is about besides the connection that is reconciled.
    pub open spec fn secondary_object(self) -> Option<ObjectRefView> {
        match self {
            ErrorView::GetTrinoConnStringConfigMap { config_map, .. } => Some(config_map),
            ErrorView::GetImportJob { import_job, .. } => Some(import_job),
            ErrorView::TrinoConnectionNoNamespace { trino_connection, .. } => Some(
                trino_connection,
            ),
            _ => None,
        }
    }

    /// The text that tells a user about the error.
    pub open spec fn message(self) -> Seq<char> {
        match self {
            ErrorView::ApplyJob { .. } => "failed to apply Job for Trino Connection"@,
            ErrorView::ApplyStatus { .. } => "failed to update status"@,
            ErrorView::ObjectMissingMetadataForOwnerRef { .. } =>
                "object is missing metadata to build owner reference"@,
            ErrorView::GetTrinoConnStringConfigMap { config_map, .. } =>
                "failed to get Trino connection string from config map "@ + config_map.text(),
            ErrorView::MissingTrinoConnString =>
                "failed to get Trino connection string from config map"@,
            ErrorView::GetImportJob { import_job, .. } =>
                "trino connection state is 'importing' but failed to find job "@
                + import_job.text(),
            ErrorView::TrinoDiscoveryCheck { .. } =>
                "failed to check if trino discovery map exists"@,
            ErrorView::TrinoConnectionNoNamespace { trino_connection, .. } =>
                "namespace missing on TrinoConnection "@ + trino_connection.text(),
            ErrorView::ApplyServiceAccount { .. } => "failed to patch service account"@,
            ErrorView::ApplyRoleBinding { .. } => "failed to patch role binding"@,
            ErrorView::SupersetClusterRetrieval { .. } => "failed to retrieve superset cluster"@,
        }
    }
}

impl Error {
    /// The name of the kind of error.
    pub fn category(&self) -> (res: &'static str)
        ensures
            res@ == self@.category(),
    {
        match self {
            Error::ApplyJob { .. } => "ApplyJob",
            Error::ApplyStatus { .. } => "ApplyStatus",
            Error::ObjectMissingMetadataForOwnerRef { .. } => "ObjectMissingMetadataForOwnerRef",
            Error::GetTrinoConnStringConfigMap { .. } => "GetTrinoConnStringConfigMap",
            Error::MissingTrinoConnString => "MissingTrinoConnString",
            Error::GetImportJob { .. } => "GetImportJob",
            Error::TrinoDiscoveryCheck { .. } => "TrinoDiscoveryCheck",
            Error::TrinoConnectionNoNamespace { .. } => "TrinoConnectionNoNamespace",
            Error::ApplyServiceAccount { .. } => "ApplyServiceAccount",
            Error::ApplyRoleBinding { .. } => "ApplyRoleBinding",
            Error::SupersetClusterRetrieval { .. } => "SupersetClusterRetrieval",
        }
    }

    /// The object that the error is about besides the connection that is reconciled.
    pub fn secondary_object(&self) -> (res: Option<ObjectRef>)
        ensures
            match res {
                Some(object) => self@.secondary_object() == Some(object@),
                None => self@.secondary_object() is None,
            },
    {
        match self {
            Error::ApplyJob { .. } => None,
            Error::ApplyStatus { .. } => None,
            Error::ObjectMissingMetadataForOwnerRef { .. } => None,
            Error::GetTrinoConnStringConfigMap { config_map, .. } => Some(config_map.clone()),
            Error::MissingTrinoConnString => None,
            Error::GetImportJob { import_job, .. } => Some(import_job.clone()),
            Error::TrinoDiscoveryCheck { .. } => None,
            Error::TrinoConnectionNoNamespace { trino_connection, .. } => Some(
                trino_connection.clone(),
            ),
            Error::ApplyServiceAccount { .. } => None,
            Error::ApplyRoleBinding { .. } => None,
            Error::SupersetClusterRetrieval { .. } => None,
        }
    }

    /// The text that tells a user about the error.
    pub fn message(&self) -> (res: String)
        ensures
            res@ == self@.message(),
    {
        match self {
            Error::ApplyJob { .. } => "failed to apply Job for Trino Connection".to_owned(),
            Error::ApplyStatus { .. } => "failed to update status".to_owned(),
            Error::ObjectMissingMetadataForOwnerRef { .. } =>
                "object is missing metadata to build owner reference".to_owned(),
            Error::GetTrinoConnStringConfigMap { config_map, .. } =>
                "failed to get Trino connection string from config map ".to_owned().concat(
                config_map.text().as_str(),
            ),
            Error::MissingTrinoConnString =>
                "failed to get Trino connection string from config map".to_owned(),
            Error::GetImportJob { import_job, .. } =>
                "trino connection state is 'importing' but failed to find job ".to_owned().concat(
                import_job.text().as_str(),
            ),
            Error::TrinoDiscoveryCheck { .. } =>
                "failed to check if trino discovery map exists".to_owned(),
            Error::TrinoConnectionNoNamespace { trino_connection, .. } =>
                "namespace missing on TrinoConnection ".to_owned().concat(
                trino_connection.text().as_str(),
            ),
            Error::ApplyServiceAccount { .. } => "failed to patch service account".to_owned(),
            Error::ApplyRoleBinding { .. } => "failed to patch role binding".to_owned(),
            Error::SupersetClusterRetrieval { .. } =>
                "failed to retrieve superset cluster".to_owned(),
        }
    }
}

/// What the controller does with a connection once it has looked at it.
#[derive(Clone, Copy, Debug, PartialEq, Eq, Structural)]
pub enum Action {
    /// Wait until the connection or an object that belongs to it changes.
    AwaitChange,
    /// Look at the connection again after some seconds.
    Requeue { seconds: u64 },
}

/// What to do after an error: look at the connection again a little later.
pub fn error_policy(_obj: &TrinoConnection, _error: &Error) -> (res: Action)
    ensures
        res == (Action::Requeue { seconds: 5 }),
{
    Action::Requeue { seconds: 5 }
}

} // verus!
