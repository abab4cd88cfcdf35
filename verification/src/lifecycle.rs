//! What holds of every reconciliation, whatever the cluster answers.
//!
//! A reconciliation is told by the responses to its requests, in order. The proof functions here
//! state what the controller has asked for, and why, after any such list of responses.

use crate::discovery;
use crate::import_job;
use crate::import_job::JobView;
use crate::reconcile;
use crate::reconcile::{
    JobState, OutcomeView, RequestView, ResponseView, SettingsView, StageView,
};
use crate::superset::{ClusterConditionStatus, ClusterConditionType};
use crate::trino_connection_controller::{Action, ErrorView};
use crate::trinoconnection::{
    TrinoConnectionStatus, TrinoConnectionStatusCondition, TrinoConnectionView,
};
use k8s_openapi::apimachinery::pkg::apis::meta::v1::Time;
use kube::Error as KubeError;
use vstd::prelude::*;

verus! {

/// How it goes on after these responses.
pub open spec fn outcome_after(
    connection: TrinoConnectionView,
    settings: SettingsView,
    responses: Seq<ResponseView>,
    now: Time,
) -> OutcomeView
    decreases responses.len(),
{
    if responses.len() == 0 {
        reconcile::started()
    } else {
        match outcome_after(connection, settings, responses.drop_last(), now) {
            OutcomeView::Continue { stage, .. } => stage.next(
                connection,
                settings,
                responses.last(),
                now,
            ),
            finished => finished,
        }
    }
}

/// Whether each response answers the request before it, and can be acted on.
pub open spec fn answered(
    connection: TrinoConnectionView,
    settings: SettingsView,
    responses: Seq<ResponseView>,
    now: Time,
) -> bool
    decreases responses.len(),
{
    responses.len() == 0 || {
        &&& answered(connection, settings, responses.drop_last(), now)
        &&& outcome_after(connection, settings, responses.drop_last(), now) matches
            OutcomeView::Continue { stage, .. } && stage.can_act_on(connection, responses.last())
    }
}

/// The requests that a reconciliation can make from this stage on, at most.
pub open spec fn requests_left(stage: StageView) -> nat {
    match stage {
        StageView::ServiceAccount => 7,
        StageView::RoleBinding => 6,
        StageView::TrinoDiscovery => 5,
        StageView::SupersetCluster { .. } => 4,
        StageView::ConnectString { .. } => 3,
        StageView::ImportJob => 2,
        StageView::JobProgress => 2,
        StageView::Status => 1,
    }
}

/// Whether the service account and the role binding were applied first.
pub open spec fn access_granted(responses: Seq<ResponseView>) -> bool {
    responses.len() >= 2 && responses[0] is Applied && responses[1] is Applied
}

/// Whether both clusters were found to be available.
pub open spec fn clusters_available(responses: Seq<ResponseView>) -> bool {
    &&& responses.len() >= 4
    &&& responses[2] == (ResponseView::ConfigMapFound { found: true })
    &&& responses[3] is SupersetCluster
    &&& responses[3]->cluster.is_ready()
}

/// Whether the discovery config map was got, and holds a connect string.
pub open spec fn connect_string_known(responses: Seq<ResponseView>) -> bool {
    responses.len() >= 5 && responses[4] is ConfigMap && discovery::connect_string(
        responses[4]->data,
    ) is Some
}

/// The import job that these responses lead to.
pub open spec fn job_from(
    connection: TrinoConnectionView,
    settings: SettingsView,
    responses: Seq<ResponseView>,
) -> JobView {
    import_job::import_job(
        responses[3]->cluster,
        connection,
        responses[3]->image,
        discovery::connect_string(responses[4]->data)->0,
        settings.service_account,
        settings.config_file,
    )
}

/// Whether a status is to be applied to a connection after these responses.
pub open spec fn status_due(
    connection: TrinoConnectionView,
    responses: Seq<ResponseView>,
    status: TrinoConnectionStatus,
    now: Time,
) -> bool {
    access_granted(responses) && match connection.status {
        None => responses.len() == 2 && status == TrinoConnectionStatus::spec_pending_since(now),
        Some(old) => {
            &&& status.started_at == old.started_at
            &&& match old.condition {
                TrinoConnectionStatusCondition::Pending => {
                    &&& status.condition == TrinoConnectionStatusCondition::Importing
                    &&& responses.len() == 6
                    &&& clusters_available(responses)
                    &&& connect_string_known(responses)
                    &&& responses[5] is Applied
                },
                TrinoConnectionStatusCondition::Importing => {
                    &&& responses.len() == 3
                    &&& responses[2] == (ResponseView::Job { state: JobState::Complete })
                        && status.condition == TrinoConnectionStatusCondition::Ready
                        || responses[2] == (ResponseView::Job { state: JobState::Failed })
                        && status.condition == TrinoConnectionStatusCondition::Failed
                },
                _ => false,
            }
        },
    }
}

/// What the responses so far say of the request that is open.
pub open spec fn told_by(
    connection: TrinoConnectionView,
    settings: SettingsView,
    responses: Seq<ResponseView>,
    stage: StageView,
    request: RequestView,
    now: Time,
) -> bool {
    &&& stage.fits(connection)
    &&& stage is ServiceAccount || stage is RoleBinding || access_granted(responses)
    &&& match stage {
        StageView::ServiceAccount => responses.len() == 0 && request
            == RequestView::ApplyServiceAccount,
        StageView::RoleBinding => responses.len() == 1 && responses[0] is Applied && request
            == RequestView::ApplyRoleBinding,
        StageView::TrinoDiscovery => responses.len() == 2 && request
            == (RequestView::FindConfigMap {
            name: connection.spec.trino.name,
            namespace: connection.namespace_of(connection.spec.trino)->0,
        }),
        StageView::SupersetCluster { trino_discovery_exists } => {
            &&& responses.len() == 3
            &&& responses[2] == (ResponseView::ConfigMapFound { found: trino_discovery_exists })
            &&& connection.namespace_of(connection.spec.superset) is Some
            &&& request == (RequestView::GetSupersetCluster {
                name: connection.spec.superset.name,
                namespace: connection.namespace_of(connection.spec.superset)->0,
            })
        },
        StageView::ConnectString { cluster, image } => {
            &&& responses.len() == 4
            &&& clusters_available(responses)
            &&& responses[3] == (ResponseView::SupersetCluster { cluster, image })
            &&& request == (RequestView::GetConfigMap {
                name: connection.spec.trino.name,
                namespace: connection.namespace_of(connection.spec.trino)->0,
            })
        },
        StageView::ImportJob => {
            &&& responses.len() == 5
            &&& clusters_available(responses)
            &&& connect_string_known(responses)
            &&& connection.metadata.uid is Some
            &&& request == (RequestView::ApplyJob {
                job: job_from(connection, settings, responses),
            })
        },
        StageView::JobProgress => responses.len() == 2 && request == (RequestView::GetJob {
            name: connection.job_name(),
            namespace: reconcile::job_namespace(connection),
        }),
        StageView::Status => request is ApplyStatus && status_due(
            connection,
            responses,
            request->status,
            now,
        ),
    }
}

/// After any list of responses, the open request is the one that they call for.
proof fn lemma_told(
    connection: TrinoConnectionView,
    settings: SettingsView,
    responses: Seq<ResponseView>,
    now: Time,
)
    requires
        answered(connection, settings, responses, now),
    ensures
        match outcome_after(connection, settings, responses, now) {
            OutcomeView::Continue { stage, request } => told_by(
                connection,
                settings,
                responses,
                stage,
                request,
                now,
            ) && requests_left(stage) + responses.len() <= 7,
            OutcomeView::Finished { .. } => 1 <= responses.len() <= 7,
        },
    decreases responses.len(),
{
    if responses.len() > 0 {
        let earlier = responses.drop_last();
        lemma_told(connection, settings, earlier, now);
        assert(forall|i: int| 0 <= i < earlier.len() ==> earlier[i] == responses[i]);
        assert(responses.last() == responses[earlier.len() as int]);
    }
}

/// Every reconciliation ends, after seven requests at most.
pub proof fn lemma_reconciliation_ends(
    connection: TrinoConnectionView,
    settings: SettingsView,
    responses: Seq<ResponseView>,
    now: Time,
)
    requires
        answered(connection, settings, responses, now),
    ensures
        responses.len() <= 7,
        responses.len() == 7 ==> outcome_after(connection, settings, responses, now) is Finished,
{
    lemma_told(connection, settings, responses, now);
}

/// The service account is applied first and the role binding next, whatever the connection is like,
/// and nothing else is asked for before both are in place.
pub proof fn lemma_access_comes_first(
    connection: TrinoConnectionView,
    settings: SettingsView,
    responses: Seq<ResponseView>,
    now: Time,
)
    requires
        answered(connection, settings, responses, now),
        outcome_after(connection, settings, responses, now) is Continue,
    ensures
        ({
            let request = outcome_after(connection, settings, responses, now)->request;
            &&& request is ApplyServiceAccount <==> responses.len() == 0
            &&& request is ApplyRoleBinding <==> responses.len() == 1
            &&& responses.len() >= 1 ==> responses[0] is Applied
            &&& responses.len() >= 2 ==> responses[1] is Applied
        }),
{
    lemma_told(connection, settings, responses, now);
}

/// A connection that is ready, or has failed, stays as it is: after the service account and the role
/// binding nothing is asked for, and nothing fails.
pub proof fn lemma_terminal_connection_is_left_alone(
    connection: TrinoConnectionView,
    settings: SettingsView,
    responses: Seq<ResponseView>,
    now: Time,
)
    requires
        answered(connection, settings, responses, now),
        connection.is_in(TrinoConnectionStatusCondition::Ready) || connection.is_in(
            TrinoConnectionStatusCondition::Failed,
        ),
    ensures
        outcome_after(connection, settings, responses, now) matches OutcomeView::Continue {
            request,
            ..
        } ==> request is ApplyServiceAccount || request is ApplyRoleBinding,
        access_granted(responses) ==> outcome_after(connection, settings, responses, now)
            == reconcile::settled(),
{
    lemma_told(connection, settings, responses, now);
    if access_granted(responses) {
        lemma_two_responses(connection, settings, responses, now);
    }
}

/// After the first two requests the status of the connection decides.
proof fn lemma_two_responses(
    connection: TrinoConnectionView,
    settings: SettingsView,
    responses: Seq<ResponseView>,
    now: Time,
)
    requires
        answered(connection, settings, responses, now),
        access_granted(responses),
    ensures
        answered(connection, settings, responses.take(2), now),
        outcome_after(connection, settings, responses.take(2), now) == reconcile::begin(
            connection,
            now,
        ),
        responses.len() > 2 ==> reconcile::begin(connection, now) is Continue,
    decreases responses.len(),
{
    if responses.len() == 2 {
        let one = responses.drop_last();
        assert(responses.take(2) == responses);
        assert(one.drop_last().len() == 0);
        assert(one.last() == responses[0]);
        assert(outcome_after(connection, settings, one.drop_last(), now) == reconcile::started());
        assert(outcome_after(connection, settings, one, now) == (OutcomeView::Continue {
            stage: StageView::RoleBinding,
            request: RequestView::ApplyRoleBinding,
        }));
    } else {
        let earlier = responses.drop_last();
        assert(earlier.take(2) == responses.take(2));
        lemma_two_responses(connection, settings, earlier, now);
        if earlier.len() == 2 {
            assert(earlier.take(2) == earlier);
        }
    }
}

/// An import job is applied only for a pending connection, and only once the Trino cluster was
/// discovered, the Superset cluster reported that it is available and the connect string is known.
/// The job is the one for that cluster, that image and that connect string.
pub proof fn lemma_import_waits_for_both_clusters(
    connection: TrinoConnectionView,
    settings: SettingsView,
    responses: Seq<ResponseView>,
    now: Time,
)
    requires
        answered(connection, settings, responses, now),
        outcome_after(connection, settings, responses, now) is Continue,
        outcome_after(connection, settings, responses, now)->request is ApplyJob,
    ensures
        connection.is_in(TrinoConnectionStatusCondition::Pending),
        responses.len() == 5,
        clusters_available(responses),
        connect_string_known(responses),
        outcome_after(connection, settings, responses, now)->request == (RequestView::ApplyJob {
            job: job_from(connection, settings, responses),
        }),
{
    lemma_told(connection, settings, responses, now);
}

/// A pending connection that has a uid, and whose clusters have namespaces, is imported as soon as
/// both clusters are available and the connect string is known.
pub proof fn lemma_import_starts_once_clusters_are_available(
    connection: TrinoConnectionView,
    settings: SettingsView,
    responses: Seq<ResponseView>,
    now: Time,
)
    requires
        connection.is_in(TrinoConnectionStatusCondition::Pending),
        connection.metadata.name is Some,
        connection.metadata.uid is Some,
        connection.namespace_of(connection.spec.trino) is Some,
        connection.namespace_of(connection.spec.superset) is Some,
        responses.len() == 5,
        access_granted(responses),
        clusters_available(responses),
        connect_string_known(responses),
    ensures
        answered(connection, settings, responses, now),
        outcome_after(connection, settings, responses, now) == (OutcomeView::Continue {
            stage: StageView::ImportJob,
            request: RequestView::ApplyJob { job: job_from(connection, settings, responses) },
        }),
{
    lemma_pending_so_far(connection, settings, responses.drop_last(), now);
}

/// The first four requests for a pending connection.
proof fn lemma_pending_so_far(
    connection: TrinoConnectionView,
    settings: SettingsView,
    responses: Seq<ResponseView>,
    now: Time,
)
    requires
        connection.is_in(TrinoConnectionStatusCondition::Pending),
        connection.metadata.name is Some,
        connection.namespace_of(connection.spec.trino) is Some,
        connection.namespace_of(connection.spec.superset) is Some,
        responses.len() == 4,
        access_granted(responses),
        responses[2] is ConfigMapFound,
        responses[3] is SupersetCluster,
    ensures
        answered(connection, settings, responses, now),
        outcome_after(connection, settings, responses, now) == (StageView::SupersetCluster {
            trino_discovery_exists: responses[2]->found,
        }).next(connection, settings, responses[3], now),
{
    let three = responses.drop_last();
    let two = three.drop_last();
    let one = two.drop_last();
    assert(one.drop_last().len() == 0);
    assert(one.last() == responses[0]);
    assert(two.last() == responses[1]);
    assert(three.last() == responses[2]);
    assert(answered(connection, settings, one.drop_last(), now));
    assert(outcome_after(connection, settings, one.drop_last(), now) == reconcile::started());
    assert(outcome_after(connection, settings, one, now)->stage == StageView::RoleBinding);
    assert(answered(connection, settings, one, now));
    assert(outcome_after(connection, settings, two, now)->stage == StageView::TrinoDiscovery);
    assert(answered(connection, settings, two, now));
    assert(outcome_after(connection, settings, three, now)->stage == (StageView::SupersetCluster {
        trino_discovery_exists: responses[2]->found,
    }));
    assert(answered(connection, settings, three, now));
}

/// While one of the two clusters is not available, a pending connection is left alone until
/// something changes.
pub proof fn lemma_pending_until_clusters_are_available(
    connection: TrinoConnectionView,
    settings: SettingsView,
    responses: Seq<ResponseView>,
    now: Time,
)
    requires
        connection.is_in(TrinoConnectionStatusCondition::Pending),
        connection.metadata.name is Some,
        connection.namespace_of(connection.spec.trino) is Some,
        connection.namespace_of(connection.spec.superset) is Some,
        responses.len() == 4,
        access_granted(responses),
        responses[2] is ConfigMapFound,
        responses[3] is SupersetCluster,
        !clusters_available(responses),
    ensures
        answered(connection, settings, responses, now),
        outcome_after(connection, settings, responses, now) == reconcile::settled(),
{
    lemma_pending_so_far(connection, settings, responses, now);
}

/// A status is applied where it is due and nowhere else: `Pending` from now on to a connection without
/// a status, `Importing` after the import job was applied, `Ready` and `Failed` after the import job
/// has come to that.
pub proof fn lemma_status_is_applied_where_due(
    connection: TrinoConnectionView,
    settings: SettingsView,
    responses: Seq<ResponseView>,
    status: TrinoConnectionStatus,
    now: Time,
)
    requires
        answered(connection, settings, responses, now),
    ensures
        outcome_after(connection, settings, responses, now) == (OutcomeView::Continue {
            stage: StageView::Status,
            request: RequestView::ApplyStatus { status },
        }) <==> status_due(connection, responses, status, now),
{
    lemma_told(connection, settings, responses, now);
    if status_due(connection, responses, status, now) {
        let earlier = responses.drop_last();
        lemma_told(connection, settings, earlier, now);
        assert(responses.last() == responses[earlier.len() as int]);
    }
}

/// Whether a status is asked to be applied.
pub open spec fn asks_for_status(outcome: OutcomeView) -> bool {
    outcome matches OutcomeView::Continue { request, .. } && request is ApplyStatus
}

/// A reconciliation was answered, and open, at every point on its way.
proof fn lemma_answered_so_far(
    connection: TrinoConnectionView,
    settings: SettingsView,
    responses: Seq<ResponseView>,
    i: int,
    now: Time,
)
    requires
        answered(connection, settings, responses, now),
        0 <= i <= responses.len(),
    ensures
        answered(connection, settings, responses.take(i), now),
        i < responses.len() ==> outcome_after(
            connection,
            settings,
            responses.take(i),
            now,
        ) is Continue,
        i < responses.len() ==> responses.take(i + 1).drop_last() == responses.take(i),
    decreases responses.len() - i,
{
    if i < responses.len() {
        lemma_answered_so_far(connection, settings, responses, i + 1, now);
        assert(responses.take(i + 1).drop_last() == responses.take(i));
    } else {
        assert(responses.take(i) == responses);
    }
}

/// Applying a status is the last request of a reconciliation, so there is at most one. A
/// reconciliation that ended with any error but that the status was not applied has not asked for
/// one, and one that ended well always waits for a change.
pub proof fn lemma_status_is_applied_last(
    connection: TrinoConnectionView,
    settings: SettingsView,
    responses: Seq<ResponseView>,
    now: Time,
)
    requires
        answered(connection, settings, responses, now),
    ensures
        forall|i: int|
            0 <= i < responses.len() && asks_for_status(
                #[trigger] outcome_after(connection, settings, responses.take(i), now),
            ) ==> i == responses.len() - 1 && outcome_after(
                connection,
                settings,
                responses,
                now,
            ) is Finished,
        outcome_after(connection, settings, responses, now) matches OutcomeView::Finished {
            result: Err(error),
        } && !(error is ApplyStatus) ==> forall|i: int|
            0 <= i < responses.len() ==> !asks_for_status(
                #[trigger] outcome_after(connection, settings, responses.take(i), now),
            ),
        outcome_after(connection, settings, responses, now) matches OutcomeView::Finished {
            result: Ok(action),
        } ==> action == Action::AwaitChange,
{
    assert forall|i: int|
        0 <= i < responses.len() && asks_for_status(
            #[trigger] outcome_after(connection, settings, responses.take(i), now),
        ) implies i == responses.len() - 1 && match outcome_after(
        connection,
        settings,
        responses,
        now,
    ) {
        OutcomeView::Finished { result: Err(error) } => error is ApplyStatus,
        OutcomeView::Finished { result: Ok(_) } => true,
        OutcomeView::Continue { .. } => false,
    } by {
        lemma_answered_so_far(connection, settings, responses, i, now);
        lemma_answered_so_far(connection, settings, responses, i + 1, now);
        lemma_told(connection, settings, responses.take(i), now);
        if i == responses.len() - 1 {
            assert(responses.take(i + 1) == responses);
        }
    }
    if responses.len() > 0 {
        lemma_told(connection, settings, responses.drop_last(), now);
    }
}

/// How far a condition is along the way from pending to done.
pub open spec fn progress(condition: TrinoConnectionStatusCondition) -> nat {
    match condition {
        TrinoConnectionStatusCondition::Pending => 0,
        TrinoConnectionStatusCondition::Importing => 1,
        TrinoConnectionStatusCondition::Ready => 2,
        TrinoConnectionStatusCondition::Failed => 2,
    }
}

/// The status of a connection only ever moves forward, one step at a time, and keeps the time at
/// which it started.
pub proof fn lemma_status_moves_forward(
    connection: TrinoConnectionView,
    settings: SettingsView,
    responses: Seq<ResponseView>,
    now: Time,
)
    requires
        answered(connection, settings, responses, now),
        outcome_after(connection, settings, responses, now) is Continue,
        outcome_after(connection, settings, responses, now)->request is ApplyStatus,
        connection.status is Some,
    ensures
        ({
            let status = outcome_after(connection, settings, responses, now)->request->status;
            &&& progress(status.condition) == progress(connection.status->0.condition) + 1
            &&& status.started_at == connection.status->0.started_at
        }),
{
    lemma_told(connection, settings, responses, now);
}

/// A connection is marked as importing only after its import job was applied.
pub proof fn lemma_job_is_applied_before_importing(
    connection: TrinoConnectionView,
    settings: SettingsView,
    responses: Seq<ResponseView>,
    now: Time,
)
    requires
        answered(connection, settings, responses, now),
        outcome_after(connection, settings, responses, now) is Continue,
        outcome_after(connection, settings, responses, now)->request is ApplyStatus,
        outcome_after(connection, settings, responses, now)->request->status.condition
            == TrinoConnectionStatusCondition::Importing,
    ensures
        responses.len() == 6,
        responses.last() is Applied,
        outcome_after(connection, settings, responses.drop_last(), now) is Continue,
        outcome_after(connection, settings, responses.drop_last(), now)->request == (
        RequestView::ApplyJob { job: job_from(connection, settings, responses) }),
{
    lemma_told(connection, settings, responses, now);
    lemma_told(connection, settings, responses.drop_last(), now);
}

/// The connection with a status that was applied to it.
pub open spec fn with_status(
    connection: TrinoConnectionView,
    status: TrinoConnectionStatus,
) -> TrinoConnectionView {
    TrinoConnectionView { status: Some(status), ..connection }
}

/// The whole way of a connection. Three reconciliations take a new connection to its end: the first
/// one makes it pending, the second one, in which both clusters are available, starts its import, and
/// the third one, in which the import job has ended, makes it ready if the job has completed and
/// failed if the job has failed. It keeps the time at which it became pending.
pub proof fn lemma_connection_reaches_its_end(
    connection: TrinoConnectionView,
    settings: SettingsView,
    first: Seq<ResponseView>,
    second: Seq<ResponseView>,
    third: Seq<ResponseView>,
    now: Time,
)
    requires
        ({
            let since = TrinoConnectionStatus::spec_pending_since(now);
            let pending = with_status(connection, since);
            let importing = with_status(
                connection,
                since.with_condition(TrinoConnectionStatusCondition::Importing),
            );
            &&& connection.status is None
            &&& answered(connection, settings, first, now)
            &&& first.len() == 2 && access_granted(first)
            &&& answered(pending, settings, second, now)
            &&& second.len() == 6 && access_granted(second)
            &&& clusters_available(second) && connect_string_known(second)
            &&& second[5] is Applied
            &&& answered(importing, settings, third, now)
            &&& third.len() == 3 && access_granted(third)
            &&& third[2] is Job && third[2]->state != JobState::InProgress
        }),
    ensures
        ({
            let since = TrinoConnectionStatus::spec_pending_since(now);
            let pending = with_status(connection, since);
            let importing = with_status(
                connection,
                since.with_condition(TrinoConnectionStatusCondition::Importing),
            );
            let end = if third[2]->state == JobState::Complete {
                TrinoConnectionStatusCondition::Ready
            } else {
                TrinoConnectionStatusCondition::Failed
            };
            &&& outcome_after(connection, settings, first, now) == (OutcomeView::Continue {
                stage: StageView::Status,
                request: RequestView::ApplyStatus { status: since },
            })
            &&& outcome_after(pending, settings, second, now) == reconcile::advance(
                pending,
                TrinoConnectionStatusCondition::Importing,
            )
            &&& outcome_after(importing, settings, third, now) == reconcile::advance(importing, end)
        }),
{
    let since = TrinoConnectionStatus::spec_pending_since(now);
    let importing = since.with_condition(TrinoConnectionStatusCondition::Importing);
    let ended = importing.with_condition(
        if third[2]->state == JobState::Complete {
            TrinoConnectionStatusCondition::Ready
        } else {
            TrinoConnectionStatusCondition::Failed
        },
    );
    lemma_status_is_applied_where_due(connection, settings, first, since, now);
    lemma_status_is_applied_where_due(
        with_status(connection, since),
        settings,
        second,
        importing,
        now,
    );
    lemma_status_is_applied_where_due(
        with_status(connection, importing),
        settings,
        third,
        ended,
        now,
    );
}

/// The error of the client that an error stems from, where it stems from one.
pub open spec fn cause(error: ErrorView) -> Option<KubeError> {
    match error {
        ErrorView::ApplyJob { source } => Some(source),
        ErrorView::ApplyStatus { source } => Some(source),
        ErrorView::ObjectMissingMetadataForOwnerRef { .. } => None,
        ErrorView::GetTrinoConnStringConfigMap { source, .. } => Some(source),
        ErrorView::MissingTrinoConnString => None,
        ErrorView::GetImportJob { source, .. } => Some(source),
        ErrorView::TrinoDiscoveryCheck { source } => Some(source),
        ErrorView::TrinoConnectionNoNamespace { .. } => None,
        ErrorView::ApplyServiceAccount { source } => Some(source),
        ErrorView::ApplyRoleBinding { source } => Some(source),
        ErrorView::SupersetClusterRetrieval { source } => Some(source),
    }
}

/// The error of the client that a reconciliation has ended with, where it has ended with one.
pub open spec fn reported(outcome: OutcomeView) -> Option<KubeError> {
    match outcome {
        OutcomeView::Finished { result: Err(error) } => cause(error),
        _ => None,
    }
}

/// A failed request ends the reconciliation with an error that stems from that failure, and an error
/// stems from a failure only if the last request failed. No request before the last one failed.
pub proof fn lemma_failure_is_reported(
    connection: TrinoConnectionView,
    settings: SettingsView,
    responses: Seq<ResponseView>,
    now: Time,
)
    requires
        answered(connection, settings, responses, now),
        responses.len() > 0,
    ensures
        reported(outcome_after(connection, settings, responses, now)) == match responses.last() {
            ResponseView::Failed { source } => Some(source),
            _ => None,
        },
        forall|i: int| 0 <= i < responses.len() - 1 ==> !(#[trigger] responses[i] is Failed),
    decreases responses.len(),
{
    let earlier = responses.drop_last();
    lemma_told(connection, settings, earlier, now);
    if earlier.len() > 0 {
        lemma_failure_is_reported(connection, settings, earlier, now);
        assert(forall|i: int| 0 <= i < earlier.len() ==> earlier[i] == responses[i]);
    }
}

/// Where no request failed, only a connection that is pending can end with an error: one of its
/// clusters has no namespace, it has no uid, or the discovery config map holds no connect string.
pub proof fn lemma_errors_of_the_connection_itself(
    connection: TrinoConnectionView,
    settings: SettingsView,
    responses: Seq<ResponseView>,
    now: Time,
)
    requires
        answered(connection, settings, responses, now),
        outcome_after(connection, settings, responses, now) is Finished,
        outcome_after(connection, settings, responses, now)->result is Err,
        reported(outcome_after(connection, settings, responses, now)) is None,
    ensures
        connection.is_in(TrinoConnectionStatusCondition::Pending),
        match outcome_after(connection, settings, responses, now)->result->Err_0 {
            ErrorView::TrinoConnectionNoNamespace { .. } => connection.metadata.namespace is None
                && (connection.spec.trino.namespace is None
                || connection.spec.superset.namespace is None),
            ErrorView::ObjectMissingMetadataForOwnerRef { .. } => connection.metadata.uid is None,
            ErrorView::MissingTrinoConnString => responses.len() == 5 && responses[4] is ConfigMap
                && discovery::connect_string(responses[4]->data) is None,
            _ => false,
        },
{
    if responses.len() > 0 {
        lemma_told(connection, settings, responses.drop_last(), now);
    }
}

/// What stands in the way of a pending connection is reported. That is a cluster without a namespace,
/// a discovery config map without a connect string, or a connection without a uid, in this order.
pub proof fn lemma_what_stands_in_the_way_is_reported(
    connection: TrinoConnectionView,
    settings: SettingsView,
    responses: Seq<ResponseView>,
    now: Time,
)
    requires
        connection.metadata.name is Some,
        connection.status is Some,
        connection.status->0.condition == TrinoConnectionStatusCondition::Pending,
        responses.len() == 5,
        responses[0] is Applied,
        responses[1] is Applied,
        responses[2] == (ResponseView::ConfigMapFound { found: true }),
        responses[3] is SupersetCluster,
        responses[3]->cluster.conditions is Some,
        exists|i: int|
            0 <= i < responses[3]->cluster.conditions->0.len() && (
            #[trigger] responses[3]->cluster.conditions->0[i]).type_
                == ClusterConditionType::Available && responses[3]->cluster.conditions->0[i].status
                == ClusterConditionStatus::True,
        responses[4] is ConfigMap,
    ensures
        connection.spec.trino.namespace is None && connection.metadata.namespace is None ==> (
        outcome_after(connection, settings, responses.take(2), now) matches OutcomeView::Finished {
            result: Err(error),
        } && error is TrinoConnectionNoNamespace),
        connection.spec.trino.namespace is Some && connection.spec.superset.namespace is None
            && connection.metadata.namespace is None ==> (outcome_after(
            connection,
            settings,
            responses.take(3),
            now,
        ) matches OutcomeView::Finished { result: Err(error) }
            && error is TrinoConnectionNoNamespace),
        connection.metadata.namespace is Some || connection.spec.trino.namespace is Some
            && connection.spec.superset.namespace is Some ==> {
            let data = responses[4]->data;
            let known = data is Some && data->0.contains_key("TRINO_SQLALCHEMY"@);
            let outcome = outcome_after(connection, settings, responses, now);
            &&& answered(connection, settings, responses, now)
            &&& !known ==> outcome == (OutcomeView::Finished {
                result: Err(ErrorView::MissingTrinoConnString),
            })
            &&& known && connection.metadata.uid is None ==> outcome == (OutcomeView::Finished {
                result: Err(ErrorView::ObjectMissingMetadataForOwnerRef { key: "uid"@ }),
            })
            &&& known && connection.metadata.uid is Some ==> outcome is Continue
                && outcome->request is ApplyJob
        },
{
    let four = responses.take(4);
    let three = responses.take(3);
    let two = responses.take(2);
    let one = responses.take(1);
    assert(responses.drop_last() == four);
    assert(four.drop_last() == three);
    assert(three.drop_last() == two);
    assert(two.drop_last() == one);
    assert(one.drop_last().len() == 0);
    assert(answered(connection, settings, one.drop_last(), now));
    assert(outcome_after(connection, settings, one.drop_last(), now) == reconcile::started());
    assert(outcome_after(connection, settings, one, now)->stage == StageView::RoleBinding);
    assert(answered(connection, settings, one, now));
    assert(outcome_after(connection, settings, two, now) == reconcile::begin(connection, now));
    assert(connection.namespace_of(connection.spec.trino) is Some ==> outcome_after(
        connection,
        settings,
        three,
        now,
    ) == reconcile::look_up_superset(connection, true));
    assert(responses[3]->cluster.is_ready()) by {
        let i = choose|i: int|
            0 <= i < responses[3]->cluster.conditions->0.len() && (
            #[trigger] responses[3]->cluster.conditions->0[i]).type_
                == ClusterConditionType::Available && responses[3]->cluster.conditions->0[i].status
                == ClusterConditionStatus::True;
        assert(responses[3]->cluster.conditions->0[i].says_available());
    }
    if connection.namespace_of(connection.spec.trino) is Some && connection.namespace_of(
        connection.spec.superset,
    ) is Some {
        lemma_pending_so_far(connection, settings, four, now);
    }
}

/// The job that is looked up for a connection in a namespace is the one that was applied for it.
pub proof fn lemma_applied_job_is_looked_up(
    pending: TrinoConnectionView,
    importing: TrinoConnectionView,
    settings: SettingsView,
    responses: Seq<ResponseView>,
    now: Time,
    later: Time,
)
    requires
        answered(pending, settings, responses, now),
        outcome_after(pending, settings, responses, now) is Continue,
        outcome_after(pending, settings, responses, now)->request is ApplyJob,
        pending.metadata.namespace is Some,
        importing.is_in(TrinoConnectionStatusCondition::Importing),
        importing.metadata.name == pending.metadata.name,
        importing.metadata.namespace == pending.metadata.namespace,
    ensures
        ({
            let job = outcome_after(pending, settings, responses, now)->request->job;
            &&& job.namespace is Some
            &&& reconcile::begin(importing, later) == (OutcomeView::Continue {
                stage: StageView::JobProgress,
                request: RequestView::GetJob { name: job.name, namespace: job.namespace->0 },
            })
        }),
{
    lemma_told(pending, settings, responses, now);
}

/// The clock is read only for the first status of a connection: one that has a status is reconciled
/// in the same way at any time.
pub proof fn lemma_clock_only_dates_the_first_status(
    connection: TrinoConnectionView,
    settings: SettingsView,
    stage: StageView,
    response: ResponseView,
    now: Time,
    later: Time,
)
    requires
        connection.status is Some || !(stage is RoleBinding),
    ensures
        stage.next(connection, settings, response, now) == stage.next(
            connection,
            settings,
            response,
            later,
        ),
{
}

/// A run of `start` and `step` is one of the reconciliations that are told by their responses: it
/// begins like them, and each step leads to where the responses so far and the new one lead. The time
/// that a step reads matters only where a connection gets its first status.
pub proof fn lemma_step_continues_reconciliation(
    connection: TrinoConnectionView,
    settings: SettingsView,
    responses: Seq<ResponseView>,
    response: ResponseView,
    now: Time,
    later: Time,
)
    requires
        answered(connection, settings, responses, now),
        outcome_after(connection, settings, responses, now) is Continue,
        outcome_after(connection, settings, responses, now)->stage.can_act_on(connection, response),
        connection.status is Some || responses.len() != 1 || later == now,
    ensures
        outcome_after(connection, settings, seq![], now) == reconcile::started(),
        answered(connection, settings, responses.push(response), now),
        outcome_after(connection, settings, responses, now)->stage.next(
            connection,
            settings,
            response,
            later,
        ) == outcome_after(connection, settings, responses.push(response), now),
{
    lemma_told(connection, settings, responses, now);
    assert(responses.push(response).drop_last() == responses);
    let stage = outcome_after(connection, settings, responses, now)->stage;
    if later != now {
        lemma_clock_only_dates_the_first_status(
            connection,
            settings,
            stage,
            response,
            now,
            later,
        );
    }
}

} // verus!
