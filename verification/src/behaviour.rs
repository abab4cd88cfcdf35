//! What each operation owes its caller, in terms of what it is given and what it gives back.
//!
//! A proof function here takes the arguments of an operation and a result that its contract allows,
//! and says what that result holds.

use crate::discovery::{sqlalchemy_uri, ConfigMap};
use crate::import_job;
use crate::import_job::{build_import_job, build_trino_db_yaml, Job, SupersetConfigFile};
use crate::object::{MissingObjectKey, ObjectKind, ObjectMeta, ObjectRef, OwnerReference};
use crate::reconcile::{start, JobState, Outcome, Request, Response, Settings, Stage};
use crate::superset::{
    ClusterConditionStatus, ClusterConditionType, ResolvedProductImage, SupersetCluster,
};
use crate::trino_connection_controller::{error_policy, Action, Error};
use crate::trinoconnection;
use crate::trinoconnection::{
    TrinoConnection, TrinoConnectionStatus, TrinoConnectionStatusCondition,
};
use crate::yaml;
use crate::yaml::Yaml;
use k8s_openapi::apimachinery::pkg::apis::meta::v1::Time;
use vstd::prelude::*;

verus! {

/// The connect string is what stands under `TRINO_SQLALCHEMY`, whatever it holds and whatever else
/// the config map has. It is missing exactly where there are no data or that key is absent.
pub proof fn lemma_connect_string_is_taken_as_it_is(
    config_map: ConfigMap,
    res: Result<String, Error>,
)
    requires
        call_ensures(sqlalchemy_uri, (config_map,), res),
    ensures
        res is Ok <==> config_map.data is Some && config_map.data->0@.contains_key(
            "TRINO_SQLALCHEMY"@,
        ),
        res is Ok ==> res->Ok_0@ == config_map.data->0@["TRINO_SQLALCHEMY"@],
        res is Err ==> res->Err_0 is MissingTrinoConnString,
{
}

/// A cluster is ready exactly where one of its conditions, wherever it stands among the others, is of
/// type `Available` and has the status `True`.
pub proof fn lemma_one_condition_makes_ready(cluster: &SupersetCluster, res: bool)
    requires
        call_ensures(SupersetCluster::is_ready, (cluster,), res),
    ensures
        res ==> cluster.conditions is Some,
        res ==> exists|i: int|
            0 <= i < cluster.conditions->0@.len() && (#[trigger] cluster.conditions->0@[i]).type_
                == ClusterConditionType::Available && cluster.conditions->0@[i].status
                == ClusterConditionStatus::True,
        forall|i: int|
            cluster.conditions is Some && 0 <= i < cluster.conditions->0@.len() && (
            #[trigger] cluster.conditions->0@[i]).type_ == ClusterConditionType::Available
                && cluster.conditions->0@[i].status == ClusterConditionStatus::True ==> res,
{
    if cluster.conditions is Some {
        let conditions = cluster.conditions->0@;
        assert(cluster@.conditions == Some(conditions));
        if res {
            let i = choose|i: int|
                0 <= i < conditions.len() && (#[trigger] conditions[i]).says_available();
            assert(conditions[i].type_ == ClusterConditionType::Available);
        }
        assert forall|i: int|
            0 <= i < conditions.len() && (#[trigger] conditions[i]).type_
                == ClusterConditionType::Available && conditions[i].status
                == ClusterConditionStatus::True implies res by {
            assert(cluster@.conditions->0[i].says_available());
        }
    }
}

/// A ready cluster stays ready whatever conditions join those that it reports, before them or after
/// them.
pub proof fn lemma_more_conditions_keep_ready(
    cluster: &SupersetCluster,
    larger: &SupersetCluster,
    start: int,
    res: bool,
    larger_res: bool,
)
    requires
        call_ensures(SupersetCluster::is_ready, (cluster,), res),
        call_ensures(SupersetCluster::is_ready, (larger,), larger_res),
        cluster.conditions is Some,
        larger.conditions is Some,
        0 <= start,
        start + cluster.conditions->0@.len() <= larger.conditions->0@.len(),
        forall|i: int|
            0 <= i < cluster.conditions->0@.len() ==> #[trigger] cluster.conditions->0@[i]
                == larger.conditions->0@[start + i],
    ensures
        res ==> larger_res,
{
    lemma_one_condition_makes_ready(cluster, res);
    lemma_one_condition_makes_ready(larger, larger_res);
    if res {
        let i = choose|i: int|
            0 <= i < cluster.conditions->0@.len() && (#[trigger] cluster.conditions->0@[i]).type_
                == ClusterConditionType::Available && cluster.conditions->0@[i].status
                == ClusterConditionStatus::True;
        assert(larger.conditions->0@[start + i].type_ == ClusterConditionType::Available);
    }
}

/// The kinds are named as the API names them.
pub proof fn lemma_kinds_are_named(
    kind: ObjectKind,
    name: &'static str,
    group: &'static str,
    version: &'static str,
    api_version: String,
)
    requires
        call_ensures(ObjectKind::kind, (kind,), name),
        call_ensures(ObjectKind::group, (kind,), group),
        call_ensures(ObjectKind::version, (kind,), version),
        call_ensures(ObjectKind::api_version, (kind,), api_version),
    ensures
        kind == ObjectKind::ConfigMap ==> name@ == "ConfigMap"@ && group@ == ""@ && version@ == "v1"@
            && api_version@ == "v1"@,
        kind == ObjectKind::Job ==> name@ == "Job"@ && group@ == "batch"@ && version@ == "v1"@
            && api_version@ == "batch/v1"@,
        kind == ObjectKind::TrinoConnection ==> name@ == "TrinoConnection"@ && group@
            == "superset.stackable.tech"@ && version@ == "v1alpha1"@ && api_version@
            == "superset.stackable.tech/v1alpha1"@,
{
    reveal_strlit("");
    reveal_strlit("/");
    reveal_strlit("v1");
    reveal_strlit("batch");
    reveal_strlit("batch/v1");
    reveal_strlit("v1alpha1");
    reveal_strlit("superset.stackable.tech");
    reveal_strlit("superset.stackable.tech/v1alpha1");
    assert("batch/v1"@ =~= "batch"@ + "/"@ + "v1"@);
    assert("superset.stackable.tech/v1alpha1"@ =~= "superset.stackable.tech"@ + "/"@ + "v1alpha1"@);
}

/// A new reference holds the name that it is given, and nothing else.
pub proof fn lemma_new_reference_holds_the_name(kind: ObjectKind, name: &str, res: ObjectRef)
    requires
        call_ensures(ObjectRef::new, (kind, name), res),
    ensures
        res.kind == kind,
        res.name@ == name@,
        res.namespace is None,
        res.resource_version is None,
        res.uid is None,
{
}

/// Placing a reference in a namespace changes its namespace alone.
pub proof fn lemma_within_changes_the_namespace(object: ObjectRef, namespace: &str, res: ObjectRef)
    requires
        call_ensures(ObjectRef::within, (object, namespace), res),
    ensures
        res.namespace is Some,
        res.namespace->0@ == namespace@,
        res.kind == object.kind,
        res.name@ == object.name@,
        res.resource_version is Some <==> object.resource_version is Some,
        res.resource_version is Some ==> res.resource_version->0@ == object.resource_version->0@,
        res.uid is Some <==> object.uid is Some,
        res.uid is Some ==> res.uid->0@ == object.uid->0@,
{
    assert(res@.resource_version == object@.resource_version);
    assert(res@.uid == object@.uid);
}

/// A reference to an object holds all of its metadata unchanged.
pub proof fn lemma_reference_holds_the_metadata(
    kind: ObjectKind,
    metadata: &ObjectMeta,
    res: ObjectRef,
)
    requires
        metadata.name is Some,
        call_ensures(ObjectRef::from_obj, (kind, metadata), res),
    ensures
        res.kind == kind,
        res.name@ == metadata.name->0@,
        res.namespace is Some <==> metadata.namespace is Some,
        res.namespace is Some ==> res.namespace->0@ == metadata.namespace->0@,
        res.resource_version is Some <==> metadata.resource_version is Some,
        res.resource_version is Some ==> res.resource_version->0@ == metadata.resource_version->0@,
        res.uid is Some <==> metadata.uid is Some,
        res.uid is Some ==> res.uid->0@ == metadata.uid->0@,
{
    assert(res@.namespace == metadata@.namespace);
    assert(res@.resource_version == metadata@.resource_version);
    assert(res@.uid == metadata@.uid);
}

/// The text of a reference is its kind, version and group, then its name, then its namespace where
/// it has one.
pub proof fn lemma_reference_is_shown(
    object: &ObjectRef,
    kind: &'static str,
    group: &'static str,
    version: &'static str,
    res: String,
)
    requires
        call_ensures(ObjectKind::kind, (object.kind,), kind),
        call_ensures(ObjectKind::group, (object.kind,), group),
        call_ensures(ObjectKind::version, (object.kind,), version),
        call_ensures(ObjectRef::text, (object,), res),
    ensures
        object.namespace is None ==> res@ == kind@ + "."@ + version@ + "."@ + group@ + "/"@
            + object.name@,
        object.namespace is Some ==> res@ == kind@ + "."@ + version@ + "."@ + group@ + "/"@
            + object.name@ + "."@ + object.namespace->0@,
{
}

/// An object that has a uid can own others: the owner reference holds its uid and its name
/// unchanged, and names it as the controller. An object without a uid cannot.
pub proof fn lemma_owner_is_identified(
    kind: ObjectKind,
    metadata: &ObjectMeta,
    name: &'static str,
    api_version: String,
    res: Result<OwnerReference, MissingObjectKey>,
)
    requires
        metadata.name is Some,
        call_ensures(ObjectKind::kind, (kind,), name),
        call_ensures(ObjectKind::api_version, (kind,), api_version),
        call_ensures(OwnerReference::controlled_by, (kind, metadata), res),
    ensures
        res is Ok <==> metadata.uid is Some,
        res is Ok ==> res->Ok_0.uid@ == metadata.uid->0@,
        res is Ok ==> res->Ok_0.name@ == metadata.name->0@,
        res is Ok ==> res->Ok_0.kind@ == name@,
        res is Ok ==> res->Ok_0.api_version@ == api_version@,
        res is Ok ==> res->Ok_0.controller == Some(true),
        res is Ok ==> res->Ok_0.block_owner_deletion is None,
        res is Err ==> res->Err_0.key@ == "uid"@,
{
}

/// Objects of different uids own by different references.
pub proof fn lemma_owners_are_told_apart(
    kind: ObjectKind,
    left: &ObjectMeta,
    right: &ObjectMeta,
    left_res: Result<OwnerReference, MissingObjectKey>,
    right_res: Result<OwnerReference, MissingObjectKey>,
)
    requires
        left.name is Some,
        right.name is Some,
        left.uid is Some,
        right.uid is Some,
        left.uid->0@ != right.uid->0@,
        call_ensures(OwnerReference::controlled_by, (kind, left), left_res),
        call_ensures(OwnerReference::controlled_by, (kind, right), right_res),
    ensures
        left_res is Ok,
        right_res is Ok,
        left_res->Ok_0.uid@ != right_res->Ok_0.uid@,
{
}

/// The name of the import job is that of the connection with `-import` behind it.
pub proof fn lemma_job_name_extends_the_name(connection: &TrinoConnection, res: String)
    requires
        connection.metadata.name is Some,
        call_ensures(TrinoConnection::job_name, (connection,), res),
    ensures
        connection.metadata.name->0@.is_prefix_of(res@),
        res@.skip(connection.metadata.name->0@.len() as int) == "-import"@,
{
}

/// The names of the clusters are those that the connection asks for.
pub proof fn lemma_cluster_names_are_those_asked_for(
    connection: &TrinoConnection,
    superset: String,
    trino: String,
)
    requires
        call_ensures(TrinoConnection::superset_name, (connection,), superset),
        call_ensures(TrinoConnection::trino_name, (connection,), trino),
    ensures
        superset@ == connection.spec.superset.name@,
        trino@ == connection.spec.trino.name@,
{
}

/// The Superset cluster is in the namespace that it is given, else in that of the connection. Where
/// neither is there, the connection is named in the error.
pub proof fn lemma_superset_namespace_defaults(
    connection: &TrinoConnection,
    res: Result<String, trinoconnection::Error>,
)
    requires
        call_ensures(TrinoConnection::superset_namespace, (connection,), res),
    ensures
        res is Ok <==> connection.spec.superset.namespace is Some
            || connection.metadata.namespace is Some,
        connection.spec.superset.namespace is Some ==> res->Ok_0@
            == connection.spec.superset.namespace->0@,
        connection.spec.superset.namespace is None && connection.metadata.namespace is Some
            ==> res->Ok_0@ == connection.metadata.namespace->0@,
        res is Err && connection.metadata.name is Some ==> res->Err_0->trino_connection@
            == connection.metadata.name->0@,
{
}

/// The Trino cluster is in the namespace that it is given, else in that of the connection. Where
/// neither is there, the connection is named in the error.
pub proof fn lemma_trino_namespace_defaults(
    connection: &TrinoConnection,
    res: Result<String, trinoconnection::Error>,
)
    requires
        call_ensures(TrinoConnection::trino_namespace, (connection,), res),
    ensures
        res is Ok <==> connection.spec.trino.namespace is Some
            || connection.metadata.namespace is Some,
        connection.spec.trino.namespace is Some ==> res->Ok_0@
            == connection.spec.trino.namespace->0@,
        connection.spec.trino.namespace is None && connection.metadata.namespace is Some
            ==> res->Ok_0@ == connection.metadata.namespace->0@,
        res is Err && connection.metadata.name is Some ==> res->Err_0->trino_connection@
            == connection.metadata.name->0@,
{
}

/// The complaint that a namespace is missing begins with the name of the connection.
pub proof fn lemma_missing_namespace_is_told(error: &trinoconnection::Error, res: String)
    requires
        call_ensures(trinoconnection::Error::message, (error,), res),
    ensures
        error->trino_connection@.is_prefix_of(res@),
        res@.skip(error->trino_connection@.len() as int)
            == " is missing a namespace, this should not happen!"@,
{
}

/// A new status is pending and has a start, which is the one that it is given where it is given one.
pub proof fn lemma_new_status_is_pending(
    now: Time,
    given: TrinoConnectionStatus,
    fresh: TrinoConnectionStatus,
    default: TrinoConnectionStatus,
)
    requires
        call_ensures(TrinoConnectionStatus::pending_since, (now,), given),
        call_ensures(TrinoConnectionStatus::new, (), fresh),
        call_ensures(TrinoConnectionStatus::default, (), default),
    ensures
        given.started_at == Some(now),
        given.condition == TrinoConnectionStatusCondition::Pending,
        fresh.started_at is Some,
        fresh.condition == TrinoConnectionStatusCondition::Pending,
        default.started_at is Some,
        default.condition == TrinoConnectionStatusCondition::Pending,
{
}

/// A status that moves on keeps its start and takes the condition that it moves to.
pub proof fn lemma_status_keeps_its_start(
    status: &TrinoConnectionStatus,
    importing: TrinoConnectionStatus,
    ready: TrinoConnectionStatus,
    failed: TrinoConnectionStatus,
)
    requires
        call_ensures(TrinoConnectionStatus::importing, (status,), importing),
        call_ensures(TrinoConnectionStatus::ready, (status,), ready),
        call_ensures(TrinoConnectionStatus::failed, (status,), failed),
    ensures
        importing.started_at == status.started_at,
        ready.started_at == status.started_at,
        failed.started_at == status.started_at,
        importing.condition == TrinoConnectionStatusCondition::Importing,
        ready.condition == TrinoConnectionStatusCondition::Ready,
        failed.condition == TrinoConnectionStatusCondition::Failed,
{
}

/// The import document holds the name and the connect string unchanged, each on a line of its own.
/// Read as YAML it declares exactly that one database.
pub proof fn lemma_document_declares_what_it_is_given(
    name: &str,
    uri: &str,
    res: Result<String, Error>,
)
    requires
        call_ensures(build_trino_db_yaml, (name, uri), res),
    ensures
        res is Ok,
        res->Ok_0@ == "databases:\n- database_name: "@ + name@ + "\n  sqlalchemy_uri: "@ + uri@
            + "\n  tables: []\n"@,
        !name@.contains('\n') && !uri@.contains('\n') ==> import_job::declared(res->Ok_0@) == Some(
            (name@, uri@),
        ),
        yaml::is_plain(name@) && yaml::is_plain(uri@) ==> yaml::read(res->Ok_0@) == Some(
            Yaml::Mapping(
                seq![
                    (
                        "databases"@,
                        Yaml::List(
                            seq![
                                Yaml::Mapping(
                                    seq![
                                        ("database_name"@, Yaml::Scalar(name@)),
                                        ("sqlalchemy_uri"@, Yaml::Scalar(uri@)),
                                        ("tables"@, Yaml::List(seq![])),
                                    ],
                                ),
                            ],
                        ),
                    ),
                ],
            ),
        ),
{
    if !name@.contains('\n') && !uri@.contains('\n') {
        import_job::lemma_yaml_can_be_read_back(name@, uri@);
    }
    if yaml::is_plain(name@) && yaml::is_plain(uri@) {
        import_job::lemma_yaml_declares_one_database(name@, uri@);
    }
}

/// The model of a vector holds the models of its elements, in order.
proof fn lemma_elements_are_modelled<T: DeepView>(elements: Vec<T>)
    ensures
        elements.deep_view().len() == elements@.len(),
        forall|i: int|
            0 <= i < elements@.len() ==> #[trigger] elements.deep_view()[i]
                == elements@[i].deep_view(),
{
}

/// The import job is named after the connection, stands in its namespace and is owned by it. A
/// connection without a uid cannot own a job.
pub proof fn lemma_job_belongs_to_the_connection(
    cluster: &SupersetCluster,
    connection: &TrinoConnection,
    image: &ResolvedProductImage,
    uri: &str,
    service_account: &str,
    config_file: &SupersetConfigFile,
    res: Result<Job, Error>,
)
    requires
        connection.metadata.name is Some,
        call_ensures(
            build_import_job,
            (cluster, connection, image, uri, service_account, config_file),
            res,
        ),
    ensures
        res is Ok <==> connection.metadata.uid is Some,
        res matches Err(error) ==> (error matches Error::ObjectMissingMetadataForOwnerRef { source }
            && source.key@ == "uid"@),
        res matches Ok(job) ==> {
            &&& job.name@ == connection.metadata.name->0@ + "-import"@
            &&& job.namespace is Some <==> connection.metadata.namespace is Some
            &&& job.namespace is Some ==> job.namespace->0@ == connection.metadata.namespace->0@
            &&& job.owner_reference.uid@ == connection.metadata.uid->0@
            &&& job.owner_reference.name@ == connection.metadata.name->0@
            &&& job.owner_reference.kind@ == "TrinoConnection"@
            &&& job.owner_reference.api_version@ == "superset.stackable.tech/v1alpha1"@
            &&& job.owner_reference.controller == Some(true)
            &&& job.owner_reference.block_owner_deletion is None
        },
{
    reveal_strlit("superset.stackable.tech");
    reveal_strlit("/");
    reveal_strlit("v1alpha1");
    reveal_strlit("superset.stackable.tech/v1alpha1");
    assert("superset.stackable.tech/v1alpha1"@ =~= "superset.stackable.tech"@ + "/"@ + "v1alpha1"@);
    if let Ok(job) = res {
        assert(job@.namespace == connection@.metadata.namespace);
    }
}

/// Jobs of connections with different uids are owned by different references.
pub proof fn lemma_jobs_of_different_connections_have_different_owners(
    left_cluster: &SupersetCluster,
    left: &TrinoConnection,
    left_image: &ResolvedProductImage,
    left_uri: &str,
    right_cluster: &SupersetCluster,
    right: &TrinoConnection,
    right_image: &ResolvedProductImage,
    right_uri: &str,
    service_account: &str,
    config_file: &SupersetConfigFile,
    left_res: Result<Job, Error>,
    right_res: Result<Job, Error>,
)
    requires
        left.metadata.name is Some,
        right.metadata.name is Some,
        left.metadata.uid is Some,
        right.metadata.uid is Some,
        left.metadata.uid->0@ != right.metadata.uid->0@,
        call_ensures(
            build_import_job,
            (left_cluster, left, left_image, left_uri, service_account, config_file),
            left_res,
        ),
        call_ensures(
            build_import_job,
            (right_cluster, right, right_image, right_uri, service_account, config_file),
            right_res,
        ),
    ensures
        left_res is Ok,
        right_res is Ok,
        left_res->Ok_0.owner_reference.uid@ != right_res->Ok_0.owner_reference.uid@,
{
    lemma_job_belongs_to_the_connection(
        left_cluster,
        left,
        left_image,
        left_uri,
        service_account,
        config_file,
        left_res,
    );
    lemma_job_belongs_to_the_connection(
        right_cluster,
        right,
        right_image,
        right_uri,
        service_account,
        config_file,
        right_res,
    );
}

/// The pod of the import job runs once, as user 1000 of the root group, under the service account
/// that it is given. It pulls its image with the secrets of the Superset cluster.
pub proof fn lemma_job_runs_once_under_the_service_account(
    cluster: &SupersetCluster,
    connection: &TrinoConnection,
    image: &ResolvedProductImage,
    uri: &str,
    service_account: &str,
    config_file: &SupersetConfigFile,
    res: Result<Job, Error>,
)
    requires
        connection.metadata.name is Some,
        call_ensures(
            build_import_job,
            (cluster, connection, image, uri, service_account, config_file),
            res,
        ),
    ensures
        res matches Ok(job) ==> {
            let secrets = job.template.image_pull_secrets;
            &&& job.template.name@ == connection.metadata.name->0@ + "-import"@
            &&& job.template.service_account@ == service_account@
            &&& job.template.restart_policy@ == "Never"@
            &&& job.template.security_context.run_as_user == 1000
            &&& job.template.security_context.run_as_group == 0
            &&& job.template.containers@.len() == 1
            &&& secrets is Some <==> image.pull_secrets is Some
            &&& secrets is Some ==> {
                &&& secrets->0@.len() == image.pull_secrets->0@.len()
                &&& forall|i: int|
                    0 <= i < secrets->0@.len() ==> {
                        let given = image.pull_secrets->0@[i].name;
                        &&& (#[trigger] secrets->0@[i]).name is Some <==> given is Some
                        &&& given is Some ==> secrets->0@[i].name->0@ == given->0@
                    }
            }
        },
{
    if let Ok(job) = res {
        let secrets = job.template.image_pull_secrets;
        assert(job@.template.image_pull_secrets == image@.pull_secrets);
        lemma_elements_are_modelled(job.template.containers);
        if secrets is Some {
            lemma_elements_are_modelled(secrets->0);
            lemma_elements_are_modelled(image.pull_secrets->0);
            let held = job@.template.image_pull_secrets->0;
            let given = image@.pull_secrets->0;
            assert(held == given);
            assert forall|i: int| 0 <= i < secrets->0@.len() implies {
                let one = image.pull_secrets->0@[i].name;
                &&& (#[trigger] secrets->0@[i]).name is Some <==> one is Some
                &&& one is Some ==> secrets->0@[i].name->0@ == one->0@
            } by {
                assert(held[i] == secrets->0@[i]@);
                assert(given[i] == image.pull_secrets->0@[i]@);
            }
        }
    }
}

/// The container of the import job runs a shell script in the image of the Superset cluster. It finds
/// the database and the secret key of that cluster in its environment.
pub proof fn lemma_container_runs_in_the_image_of_the_cluster(
    cluster: &SupersetCluster,
    connection: &TrinoConnection,
    image: &ResolvedProductImage,
    uri: &str,
    service_account: &str,
    config_file: &SupersetConfigFile,
    res: Result<Job, Error>,
)
    requires
        connection.metadata.name is Some,
        call_ensures(
            build_import_job,
            (cluster, connection, image, uri, service_account, config_file),
            res,
        ),
    ensures
        res matches Ok(job) ==> {
            let container = job.template.containers@[0];
            &&& container.name@ == "superset-import-trino-connection"@
            &&& container.image@ == image.image@
            &&& container.image_pull_policy@ == image.image_pull_policy@
            &&& container.command@.len() == 1
            &&& container.command@[0]@ == "/bin/sh"@
            &&& container.args@.len() == 2
            &&& container.args@[0]@ == "-c"@
            &&& container.env@.len() == 2
            &&& container.env@[0].name@ == "DATABASE_URI"@
            &&& container.env@[0].secret_name@ == cluster.credentials_secret@
            &&& container.env@[0].secret_key@ == "connections.sqlalchemyDatabaseUri"@
            &&& container.env@[1].name@ == "SUPERSET_SECRET_KEY"@
            &&& container.env@[1].secret_name@ == cluster.credentials_secret@
            &&& container.env@[1].secret_key@ == "connections.secretKey"@
        },
{
    if let Ok(job) = res {
        let container = job.template.containers@[0];
        lemma_elements_are_modelled(job.template.containers);
        lemma_elements_are_modelled(container.command);
        lemma_elements_are_modelled(container.args);
        lemma_elements_are_modelled(container.env);
        assert(job@.template.containers[0] == container@);
        assert(container@.command[0] == container.command@[0]@);
        assert(container@.args[0] == container.args@[0]@);
        assert(container@.env[0] == container.env@[0]@);
        assert(container@.env[1] == container.env@[1]@);
    }
}

/// The script of the import job makes the directory of Superset's configuration and writes it. Then it
/// writes a document to `/tmp/trinos.yaml`, and imports that. The document declares exactly one
/// database, which has the name of the connection's Trino cluster and the connect string.
pub proof fn lemma_script_imports_the_trino_cluster(
    cluster: &SupersetCluster,
    connection: &TrinoConnection,
    image: &ResolvedProductImage,
    uri: &str,
    service_account: &str,
    config_file: &SupersetConfigFile,
    res: Result<Job, Error>,
) -> (document: Seq<char>)
    requires
        connection.metadata.name is Some,
        call_ensures(
            build_import_job,
            (cluster, connection, image, uri, service_account, config_file),
            res,
        ),
    ensures
        res matches Ok(job) ==> job.template.containers@[0].args@[1]@ == "mkdir -p "@
            + config_file.python_path@ + "; "@
            + "echo \"import os; SQLALCHEMY_DATABASE_URI = os.environ.get('DATABASE_URI')\" > "@
            + config_file.python_path@ + "/"@ + config_file.filename@ + "; "@ + "echo \""@ + document
            + "\" > /tmp/trinos.yaml"@ + "; "@
            + "superset import_datasources -p /tmp/trinos.yaml"@,
        document == "databases:\n- database_name: "@ + connection.spec.trino.name@
            + "\n  sqlalchemy_uri: "@ + uri@ + "\n  tables: []\n"@,
        !connection.spec.trino.name@.contains('\n') && !uri@.contains('\n')
            ==> import_job::declared(document) == Some((connection.spec.trino.name@, uri@)),
        yaml::is_plain(connection.spec.trino.name@) && yaml::is_plain(uri@) ==> yaml::read(document)
            == Some(
            Yaml::Mapping(
                seq![
                    (
                        "databases"@,
                        Yaml::List(
                            seq![
                                Yaml::Mapping(
                                    seq![
                                        (
                                            "database_name"@,
                                            Yaml::Scalar(connection.spec.trino.name@),
                                        ),
                                        ("sqlalchemy_uri"@, Yaml::Scalar(uri@)),
                                        ("tables"@, Yaml::List(seq![])),
                                    ],
                                ),
                            ],
                        ),
                    ),
                ],
            ),
        ),
{
    let name = connection.spec.trino.name@;
    let document = import_job::trino_db_yaml(name, uri@);
    if !name.contains('\n') && !uri@.contains('\n') {
        import_job::lemma_yaml_can_be_read_back(name, uri@);
    }
    if yaml::is_plain(name) && yaml::is_plain(uri@) {
        import_job::lemma_yaml_declares_one_database(name, uri@);
    }
    if let Ok(job) = res {
        let container = job.template.containers@[0];
        lemma_elements_are_modelled(job.template.containers);
        lemma_elements_are_modelled(container.args);
        assert(job@.template.containers[0] == container@);
        assert(container@.args[1] == container.args@[1]@);
        assert(container@.args[1] =~= "mkdir -p "@ + config_file.python_path@ + "; "@
            + "echo \"import os; SQLALCHEMY_DATABASE_URI = os.environ.get('DATABASE_URI')\" > "@
            + config_file.python_path@ + "/"@ + config_file.filename@ + "; "@ + "echo \""@ + document
            + "\" > /tmp/trinos.yaml"@ + "; "@
            + "superset import_datasources -p /tmp/trinos.yaml"@);
    }
    document
}

/// The category of an error is the name of its variant.
pub proof fn lemma_category_is_the_name_of_the_variant(error: &Error, res: &'static str)
    requires
        call_ensures(Error::category, (error,), res),
    ensures
        error is ApplyJob ==> res@ == "ApplyJob"@,
        error is ApplyStatus ==> res@ == "ApplyStatus"@,
        error is ObjectMissingMetadataForOwnerRef ==> res@ == "ObjectMissingMetadataForOwnerRef"@,
        error is GetTrinoConnStringConfigMap ==> res@ == "GetTrinoConnStringConfigMap"@,
        error is MissingTrinoConnString ==> res@ == "MissingTrinoConnString"@,
        error is GetImportJob ==> res@ == "GetImportJob"@,
        error is TrinoDiscoveryCheck ==> res@ == "TrinoDiscoveryCheck"@,
        error is TrinoConnectionNoNamespace ==> res@ == "TrinoConnectionNoNamespace"@,
        error is ApplyServiceAccount ==> res@ == "ApplyServiceAccount"@,
        error is ApplyRoleBinding ==> res@ == "ApplyRoleBinding"@,
        error is SupersetClusterRetrieval ==> res@ == "SupersetClusterRetrieval"@,
{
}

/// The message of an error without an object says what failed.
pub proof fn lemma_message_says_what_failed(error: &Error, res: String)
    requires
        call_ensures(Error::message, (error,), res),
    ensures
        error is ApplyJob ==> res@ == "failed to apply Job for Trino Connection"@,
        error is ApplyStatus ==> res@ == "failed to update status"@,
        error is ObjectMissingMetadataForOwnerRef ==> res@
            == "object is missing metadata to build owner reference"@,
        error is MissingTrinoConnString ==> res@
            == "failed to get Trino connection string from config map"@,
        error is TrinoDiscoveryCheck ==> res@ == "failed to check if trino discovery map exists"@,
        error is ApplyServiceAccount ==> res@ == "failed to patch service account"@,
        error is ApplyRoleBinding ==> res@ == "failed to patch role binding"@,
        error is SupersetClusterRetrieval ==> res@ == "failed to retrieve superset cluster"@,
{
}

/// The message of an error about an object ends with the text of its reference.
pub proof fn lemma_message_shows_the_object(
    error: &Error,
    object: &ObjectRef,
    shown: String,
    res: String,
)
    requires
        call_ensures(ObjectRef::text, (object,), shown),
        call_ensures(Error::message, (error,), res),
    ensures
        error matches Error::GetTrinoConnStringConfigMap { config_map, .. } && config_map == object
            ==> res@ == "failed to get Trino connection string from config map "@ + shown@,
        error matches Error::GetImportJob { import_job, .. } && import_job == object ==> res@
            == "trino connection state is 'importing' but failed to find job "@ + shown@,
        error matches Error::TrinoConnectionNoNamespace { trino_connection, .. } && trino_connection
            == object ==> res@ == "namespace missing on TrinoConnection "@ + shown@,
{
}

/// The secondary object of an error is the reference that it holds, unchanged. An error that holds
/// none has none.
pub proof fn lemma_secondary_object_is_the_one_held(
    error: &Error,
    object: ObjectRef,
    res: Option<ObjectRef>,
)
    requires
        call_ensures(Error::secondary_object, (error,), res),
    ensures
        res is Some <==> error is GetTrinoConnStringConfigMap || error is GetImportJob
            || error is TrinoConnectionNoNamespace,
        (error matches Error::GetTrinoConnStringConfigMap { config_map, .. } && config_map == object)
            || (error matches Error::GetImportJob { import_job, .. } && import_job == object) || (
        error matches Error::TrinoConnectionNoNamespace { trino_connection, .. } && trino_connection
            == object) ==> {
            &&& res->0.kind == object.kind
            &&& res->0.name@ == object.name@
            &&& res->0.namespace is Some <==> object.namespace is Some
            &&& res->0.namespace is Some ==> res->0.namespace->0@ == object.namespace->0@
            &&& res->0.resource_version is Some <==> object.resource_version is Some
            &&& res->0.resource_version is Some ==> res->0.resource_version->0@
                == object.resource_version->0@
            &&& res->0.uid is Some <==> object.uid is Some
            &&& res->0.uid is Some ==> res->0.uid->0@ == object.uid->0@
        },
{
    if res is Some && error@.secondary_object() == Some(object@) {
        assert(res->0@ == object@);
        assert(res->0@.namespace == object@.namespace);
        assert(res->0@.resource_version == object@.resource_version);
        assert(res->0@.uid == object@.uid);
    }
}

/// Whatever the error, the connection is looked at again after five seconds.
pub proof fn lemma_every_error_is_retried(connection: &TrinoConnection, error: &Error, res: Action)
    requires
        call_ensures(error_policy, (connection, error), res),
    ensures
        res matches Action::Requeue { seconds } && seconds == 5,
{
}

/// Every reconciliation begins with the service account.
pub proof fn lemma_service_account_is_applied_first(res: Outcome)
    requires
        call_ensures(start, (), res),
    ensures
        res matches Outcome::Continue { stage, request } && stage is ServiceAccount
            && request is ApplyServiceAccount,
{
}

/// The role binding is applied after the service account.
pub proof fn lemma_role_binding_is_applied_next(
    stage: Stage,
    connection: &TrinoConnection,
    settings: &Settings,
    response: Response,
    res: Outcome,
)
    requires
        stage is ServiceAccount,
        response is Applied,
        call_ensures(Stage::step, (stage, connection, settings, response), res),
    ensures
        res matches Outcome::Continue { stage, request } && stage is RoleBinding
            && request is ApplyRoleBinding,
{
}

/// A connection without a status becomes pending, from now on.
pub proof fn lemma_new_connection_becomes_pending(
    stage: Stage,
    connection: &TrinoConnection,
    settings: &Settings,
    response: Response,
    res: Outcome,
)
    requires
        stage is RoleBinding,
        response is Applied,
        connection.status is None,
        call_ensures(Stage::step, (stage, connection, settings, response), res),
    ensures
        res matches Outcome::Continue { stage, request: Request::ApplyStatus { status } }
            && stage is Status && status.started_at is Some && status.condition
            == TrinoConnectionStatusCondition::Pending,
{
}

/// Nothing is done for a connection that is ready or has failed.
pub proof fn lemma_ended_connection_waits(
    stage: Stage,
    connection: &TrinoConnection,
    settings: &Settings,
    response: Response,
    res: Outcome,
)
    requires
        stage is RoleBinding,
        response is Applied,
        connection.status is Some,
        connection.status->0.condition == TrinoConnectionStatusCondition::Ready
            || connection.status->0.condition == TrinoConnectionStatusCondition::Failed,
        call_ensures(Stage::step, (stage, connection, settings, response), res),
    ensures
        res matches Outcome::Finished { result: Ok(action) } && action is AwaitChange,
{
}

/// For a pending connection the discovery config map of its Trino cluster is looked for. Where no
/// namespace can be found for it, that is the error, with a reference to the connection.
pub proof fn lemma_pending_connection_looks_for_trino(
    stage: Stage,
    connection: &TrinoConnection,
    settings: &Settings,
    response: Response,
    res: Outcome,
)
    requires
        stage is RoleBinding,
        response is Applied,
        connection.metadata.name is Some,
        connection.status is Some,
        connection.status->0.condition == TrinoConnectionStatusCondition::Pending,
        call_ensures(Stage::step, (stage, connection, settings, response), res),
    ensures
        connection.spec.trino.namespace is Some ==> (res matches Outcome::Continue {
            stage,
            request: Request::FindConfigMap { name, namespace },
        } && stage is TrinoDiscovery && name@ == connection.spec.trino.name@ && namespace@
            == connection.spec.trino.namespace->0@),
        connection.spec.trino.namespace is None && connection.metadata.namespace is Some ==> (
        res matches Outcome::Continue {
            stage,
            request: Request::FindConfigMap { name, namespace },
        } && stage is TrinoDiscovery && name@ == connection.spec.trino.name@ && namespace@
            == connection.metadata.namespace->0@),
        connection.spec.trino.namespace is None && connection.metadata.namespace is None ==> (
        res matches Outcome::Finished {
            result: Err(Error::TrinoConnectionNoNamespace { source, trino_connection }),
        } && source->trino_connection@ == connection.metadata.name->0@ && trino_connection.kind
            == ObjectKind::TrinoConnection && trino_connection.name@ == connection.metadata.name->0@
            && trino_connection.namespace is None && (trino_connection.uid is Some
            <==> connection.metadata.uid is Some) && (trino_connection.uid is Some
            ==> trino_connection.uid->0@ == connection.metadata.uid->0@) && (
        trino_connection.resource_version is Some <==> connection.metadata.resource_version is Some)
            && (trino_connection.resource_version is Some ==> trino_connection.resource_version->0@
            == connection.metadata.resource_version->0@)),
{
    if connection.spec.trino.namespace is None && connection.metadata.namespace is None {
        let trino_connection = res->result->Err_0->trino_connection;
        assert(trino_connection@.uid == connection@.metadata.uid);
        assert(trino_connection@.resource_version == connection@.metadata.resource_version);
    }
}

/// For a connection that is being imported its import job is looked up, in its namespace, or in the
/// default one where it has none.
pub proof fn lemma_importing_connection_looks_for_its_job(
    stage: Stage,
    connection: &TrinoConnection,
    settings: &Settings,
    response: Response,
    res: Outcome,
)
    requires
        stage is RoleBinding,
        response is Applied,
        connection.metadata.name is Some,
        connection.status is Some,
        connection.status->0.condition == TrinoConnectionStatusCondition::Importing,
        call_ensures(Stage::step, (stage, connection, settings, response), res),
    ensures
        res matches Outcome::Continue { stage, request: Request::GetJob { name, namespace } }
            && stage is JobProgress && name@ == connection.metadata.name->0@ + "-import"@ && (
        connection.metadata.namespace is Some ==> namespace@ == connection.metadata.namespace->0@)
            && (connection.metadata.namespace is None ==> namespace@ == "default"@),
{
}

/// Whether the discovery config map was found or not, which is remembered, the Superset cluster is
/// looked up next. Where no namespace can be found for it, that is the error, with a reference to the
/// connection.
pub proof fn lemma_superset_is_looked_up(
    stage: Stage,
    connection: &TrinoConnection,
    settings: &Settings,
    response: Response,
    res: Outcome,
)
    requires
        stage is TrinoDiscovery,
        response is ConfigMapFound,
        connection.metadata.name is Some,
        call_ensures(Stage::step, (stage, connection, settings, response), res),
    ensures
        connection.spec.superset.namespace is Some ==> (res matches Outcome::Continue {
            stage: Stage::SupersetCluster { trino_discovery_exists },
            request: Request::GetSupersetCluster { name, namespace },
        } && trino_discovery_exists == response->found && name@ == connection.spec.superset.name@
            && namespace@ == connection.spec.superset.namespace->0@),
        connection.spec.superset.namespace is None && connection.metadata.namespace is Some ==> (
        res matches Outcome::Continue {
            stage: Stage::SupersetCluster { trino_discovery_exists },
            request: Request::GetSupersetCluster { name, namespace },
        } && trino_discovery_exists == response->found && name@ == connection.spec.superset.name@
            && namespace@ == connection.metadata.namespace->0@),
        connection.spec.superset.namespace is None && connection.metadata.namespace is None ==> (
        res matches Outcome::Finished {
            result: Err(Error::TrinoConnectionNoNamespace { source, trino_connection }),
        } && source->trino_connection@ == connection.metadata.name->0@ && trino_connection.kind
            == ObjectKind::TrinoConnection && trino_connection.name@ == connection.metadata.name->0@
            && trino_connection.namespace is None && (trino_connection.uid is Some
            <==> connection.metadata.uid is Some) && (trino_connection.uid is Some
            ==> trino_connection.uid->0@ == connection.metadata.uid->0@) && (
        trino_connection.resource_version is Some <==> connection.metadata.resource_version is Some)
            && (trino_connection.resource_version is Some ==> trino_connection.resource_version->0@
            == connection.metadata.resource_version->0@)),
{
    if connection.spec.superset.namespace is None && connection.metadata.namespace is None {
        let trino_connection = res->result->Err_0->trino_connection;
        assert(trino_connection@.uid == connection@.metadata.uid);
        assert(trino_connection@.resource_version == connection@.metadata.resource_version);
    }
}

/// The connect string is got as soon as the discovery config map was found and one condition of the
/// Superset cluster is that it is available. The cluster and its image are remembered. In every other
/// case the connection waits for a change.
pub proof fn lemma_import_goes_on_where_both_clusters_are_there(
    stage: Stage,
    connection: &TrinoConnection,
    settings: &Settings,
    response: Response,
    ready: bool,
    res: Outcome,
)
    requires
        stage is SupersetCluster,
        response is SupersetCluster,
        connection.spec.trino.namespace is Some || connection.metadata.namespace is Some,
        call_ensures(SupersetCluster::is_ready, (&response->cluster,), ready),
        call_ensures(Stage::step, (stage, connection, settings, response), res),
    ensures
        stage->trino_discovery_exists && ready ==> (res matches Outcome::Continue {
            stage: Stage::ConnectString { cluster, image },
            request: Request::GetConfigMap { name, namespace },
        } && cluster@ == response->cluster@ && image@ == response->image@ && name@
            == connection.spec.trino.name@ && (connection.spec.trino.namespace is Some
            ==> namespace@ == connection.spec.trino.namespace->0@) && (
        connection.spec.trino.namespace is None ==> namespace@
            == connection.metadata.namespace->0@)),
        !(stage->trino_discovery_exists && ready) ==> (res matches Outcome::Finished {
            result: Ok(action),
        } && action is AwaitChange),
{
}

/// Without a connect string in the config map, that is the error.
pub proof fn lemma_missing_connect_string_is_reported(
    stage: Stage,
    connection: &TrinoConnection,
    settings: &Settings,
    response: Response,
    res: Outcome,
)
    requires
        stage is ConnectString,
        response is ConfigMap,
        response->config_map.data is None || !response->config_map.data->0@.contains_key(
            "TRINO_SQLALCHEMY"@,
        ),
        call_ensures(Stage::step, (stage, connection, settings, response), res),
    ensures
        res matches Outcome::Finished { result: Err(error) } && error is MissingTrinoConnString,
{
}

/// With a connect string in the config map, the import job for the cluster, the image and that string
/// is applied. Where it cannot be built, for want of a uid, that is the error.
pub proof fn lemma_import_job_is_applied(
    stage: Stage,
    connection: &TrinoConnection,
    settings: &Settings,
    response: Response,
    uri: &str,
    service_account: &str,
    built: Result<Job, Error>,
    res: Outcome,
)
    requires
        stage is ConnectString,
        response is ConfigMap,
        response->config_map.data is Some,
        response->config_map.data->0@.contains_key("TRINO_SQLALCHEMY"@),
        uri@ == response->config_map.data->0@["TRINO_SQLALCHEMY"@],
        service_account@ == settings.service_account@,
        connection.metadata.name is Some,
        call_ensures(
            build_import_job,
            (
                &stage->cluster,
                connection,
                &stage->image,
                uri,
                service_account,
                &settings.config_file,
            ),
            built,
        ),
        call_ensures(Stage::step, (stage, connection, settings, response), res),
    ensures
        connection.metadata.uid is Some ==> built is Ok && (res matches Outcome::Continue {
            stage,
            request: Request::ApplyJob { job },
        } && stage is ImportJob && job@ == built->Ok_0@),
        connection.metadata.uid is None ==> (res matches Outcome::Finished {
            result: Err(Error::ObjectMissingMetadataForOwnerRef { source }),
        } && source.key@ == "uid"@),
{
}

/// Once the import job is applied, the connection is marked as importing and keeps its start.
pub proof fn lemma_applied_job_makes_importing(
    stage: Stage,
    connection: &TrinoConnection,
    settings: &Settings,
    response: Response,
    res: Outcome,
)
    requires
        stage is ImportJob,
        response is Applied,
        connection.status is Some,
        call_ensures(Stage::step, (stage, connection, settings, response), res),
    ensures
        res matches Outcome::Continue { stage, request: Request::ApplyStatus { status } }
            && stage is Status && status.started_at == connection.status->0.started_at
            && status.condition == TrinoConnectionStatusCondition::Importing,
{
}

/// A job that has completed makes the connection ready, one that has failed makes it failed, and
/// either keeps the start. While the job is in progress, the connection waits.
pub proof fn lemma_ended_job_ends_the_connection(
    stage: Stage,
    connection: &TrinoConnection,
    settings: &Settings,
    response: Response,
    res: Outcome,
)
    requires
        stage is JobProgress,
        response is Job,
        connection.status is Some,
        call_ensures(Stage::step, (stage, connection, settings, response), res),
    ensures
        response->state == JobState::Complete ==> (res matches Outcome::Continue {
            stage,
            request: Request::ApplyStatus { status },
        } && stage is Status && status.started_at == connection.status->0.started_at
            && status.condition == TrinoConnectionStatusCondition::Ready),
        response->state == JobState::Failed ==> (res matches Outcome::Continue {
            stage,
            request: Request::ApplyStatus { status },
        } && stage is Status && status.started_at == connection.status->0.started_at
            && status.condition == TrinoConnectionStatusCondition::Failed),
        response->state == JobState::InProgress ==> (res matches Outcome::Finished {
            result: Ok(action),
        } && action is AwaitChange),
{
}

/// Once the status is applied, the connection waits for a change.
pub proof fn lemma_applied_status_ends_it(
    stage: Stage,
    connection: &TrinoConnection,
    settings: &Settings,
    response: Response,
    res: Outcome,
)
    requires
        stage is Status,
        response is Applied,
        call_ensures(Stage::step, (stage, connection, settings, response), res),
    ensures
        res matches Outcome::Finished { result: Ok(action) } && action is AwaitChange,
{
}

/// A failed request ends the reconciliation with the error that says which request it was. The error
/// holds what the client reported, and a reference to the object that could not be got.
pub proof fn lemma_failed_request_is_reported(
    stage: Stage,
    connection: &TrinoConnection,
    settings: &Settings,
    response: Response,
    res: Outcome,
)
    requires
        response is Failed,
        call_ensures(Stage::step, (stage, connection, settings, response), res),
    ensures
        ({
            let error = res->result->Err_0;
            &&& res is Finished
            &&& res->result is Err
            &&& stage is ServiceAccount ==> error == (Error::ApplyServiceAccount {
                source: response->source,
            })
            &&& stage is RoleBinding ==> error == (Error::ApplyRoleBinding {
                source: response->source,
            })
            &&& stage is TrinoDiscovery ==> error == (Error::TrinoDiscoveryCheck {
                source: response->source,
            })
            &&& stage is SupersetCluster ==> error == (Error::SupersetClusterRetrieval {
                source: response->source,
            })
            &&& stage is ConnectString ==> (error matches Error::GetTrinoConnStringConfigMap {
                source,
                config_map,
            } && source == response->source && config_map.kind == ObjectKind::ConfigMap
                && config_map.name@ == connection.spec.trino.name@ && config_map.namespace is Some
                && config_map.resource_version is None && config_map.uid is None && (
            connection.spec.trino.namespace is Some ==> config_map.namespace->0@
                == connection.spec.trino.namespace->0@) && (connection.spec.trino.namespace is None
                && connection.metadata.namespace is Some ==> config_map.namespace->0@
                == connection.metadata.namespace->0@))
            &&& stage is ImportJob ==> error == (Error::ApplyJob { source: response->source })
            &&& stage is JobProgress && connection.metadata.name is Some ==> (
            error matches Error::GetImportJob { source, import_job } && source == response->source
                && import_job.kind == ObjectKind::Job && import_job.name@
                == connection.metadata.name->0@ + "-import"@ && import_job.namespace is Some
                && import_job.resource_version is None && import_job.uid is None && (
            connection.metadata.namespace is Some ==> import_job.namespace->0@
                == connection.metadata.namespace->0@) && (connection.metadata.namespace is None
                ==> import_job.namespace->0@ == "default"@))
            &&& stage is Status ==> error == (Error::ApplyStatus { source: response->source })
        }),
{
}

/// A stage can act on what answers its request, and on its failure. Only a connection that is pending
/// or being imported and has no name cannot be acted on, once the role binding is applied.
pub proof fn lemma_stage_acts_on_what_answers_its_request(
    stage: Stage,
    connection: &TrinoConnection,
    response: Response,
    res: bool,
)
    requires
        call_ensures(Stage::can_act_on, (&stage, connection, &response), res),
    ensures
        response is Failed ==> res,
        stage is ServiceAccount || stage is ImportJob || stage is Status ==> (res
            <==> response is Applied || response is Failed),
        stage is TrinoDiscovery ==> (res <==> response is ConfigMapFound || response is Failed),
        stage is SupersetCluster ==> (res <==> response is SupersetCluster || response is Failed),
        stage is ConnectString ==> (res <==> response is ConfigMap || response is Failed),
        stage is JobProgress ==> (res <==> response is Job || response is Failed),
        stage is RoleBinding && !(response is Failed) ==> (res <==> response is Applied && (
        connection.metadata.name is Some || connection.status is None
            || connection.status->0.condition == TrinoConnectionStatusCondition::Ready
            || connection.status->0.condition == TrinoConnectionStatusCondition::Failed)),
{
}

/// A step can be taken wherever the stage can act on the response: at the start, and after each step
/// before.
pub proof fn lemma_reconciliation_can_go_on(
    stage: Stage,
    connection: &TrinoConnection,
    settings: &Settings,
    response: Response,
    res: Outcome,
    next_response: Response,
    can_act: bool,
)
    requires
        call_ensures(Stage::step, (stage, connection, settings, response), res),
        res is Continue,
        call_ensures(Stage::can_act_on, (&res->stage, connection, &next_response), can_act),
        can_act,
    ensures
        call_requires(Stage::step, (res->stage, connection, settings, next_response)),
{
}

/// The first two steps can be taken for every connection whose status can be acted on.
pub proof fn lemma_reconciliation_can_begin(
    stage: Stage,
    connection: &TrinoConnection,
    settings: &Settings,
    response: Response,
    can_act: bool,
)
    requires
        stage is ServiceAccount || stage is RoleBinding,
        call_ensures(Stage::can_act_on, (&stage, connection, &response), can_act),
        can_act,
    ensures
        call_requires(Stage::step, (stage, connection, settings, response)),
{
}

/// Every operation can be called on whatever there is, but for those that need the name of a
/// connection: these can be called wherever it has one.
pub proof fn lemma_operations_can_be_called(
    connection: &TrinoConnection,
    cluster: &SupersetCluster,
    image: &ResolvedProductImage,
    config_file: &SupersetConfigFile,
    config_map: ConfigMap,
    object: ObjectRef,
    kind: ObjectKind,
    error: &Error,
    namespace_error: &trinoconnection::Error,
    status: &TrinoConnectionStatus,
    stage: &Stage,
    response: &Response,
    left: &str,
    right: &str,
    now: Time,
)
    ensures
        call_requires(sqlalchemy_uri, (config_map,)),
        call_requires(SupersetCluster::is_ready, (cluster,)),
        call_requires(build_trino_db_yaml, (left, right)),
        call_requires(ObjectKind::kind, (kind,)),
        call_requires(ObjectKind::group, (kind,)),
        call_requires(ObjectKind::version, (kind,)),
        call_requires(ObjectKind::api_version, (kind,)),
        call_requires(ObjectRef::new, (kind, left)),
        call_requires(ObjectRef::within, (object, left)),
        call_requires(ObjectRef::text, (&object,)),
        call_requires(Error::category, (error,)),
        call_requires(Error::message, (error,)),
        call_requires(Error::secondary_object, (error,)),
        call_requires(error_policy, (connection, error)),
        call_requires(trinoconnection::Error::message, (namespace_error,)),
        call_requires(TrinoConnection::superset_name, (connection,)),
        call_requires(TrinoConnection::trino_name, (connection,)),
        call_requires(TrinoConnectionStatus::new, ()),
        call_requires(TrinoConnectionStatus::pending_since, (now,)),
        call_requires(TrinoConnectionStatus::importing, (status,)),
        call_requires(TrinoConnectionStatus::ready, (status,)),
        call_requires(TrinoConnectionStatus::failed, (status,)),
        call_requires(start, ()),
        call_requires(Stage::can_act_on, (stage, connection, response)),
        connection.metadata.name is Some ==> {
            &&& call_requires(TrinoConnection::job_name, (connection,))
            &&& call_requires(TrinoConnection::superset_namespace, (connection,))
            &&& call_requires(TrinoConnection::trino_namespace, (connection,))
            &&& call_requires(ObjectRef::from_obj, (kind, &connection.metadata))
            &&& call_requires(OwnerReference::controlled_by, (kind, &connection.metadata))
            &&& call_requires(
                build_import_job,
                (cluster, connection, image, left, right, config_file),
            )
        },
        connection.metadata.namespace is Some ==> {
            &&& call_requires(TrinoConnection::superset_namespace, (connection,))
            &&& call_requires(TrinoConnection::trino_namespace, (connection,))
        },
        connection.spec.superset.namespace is Some ==> call_requires(
            TrinoConnection::superset_namespace,
            (connection,),
        ),
        connection.spec.trino.namespace is Some ==> call_requires(
            TrinoConnection::trino_namespace,
            (connection,),
        ),
{
}

} // verus!
