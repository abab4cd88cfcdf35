//! What the controller reads of a Superset cluster.

use vstd::prelude::*;

verus! {

/// The aspect of a cluster that a condition speaks of.
#[derive(Clone, Copy, Debug, PartialEq, Eq, Hash, Structural)]
pub enum ClusterConditionType {
    Available,
    Degraded,
    Progressing,
    ReconciliationPaused,
    Stopped,
}

/// Whether a condition holds.
#[derive(Clone, Copy, Debug, PartialEq, Eq, Hash, Structural)]
pub enum ClusterConditionStatus {
    True,
    False,
    Unknown,
}

/// A condition that a cluster reports.
#[derive(Clone, Copy, Debug, PartialEq, Eq, Structural)]
pub struct ClusterCondition {
    pub type_: ClusterConditionType,
    pub status: ClusterConditionStatus,
}

impl ClusterCondition {
    /// Whether the condition says that the cluster is available.
    pub open spec fn says_available(self) -> bool {
        self.type_ == ClusterConditionType::Available && self.status
            == ClusterConditionStatus::True
    }
}

/// The name of a secret in the namespace of the object that refers to it.
#[derive(Debug, PartialEq, Eq)]
pub struct LocalObjectReference {
    pub name: Option<String>,
}

impl View for LocalObjectReference {
    type V = Option<Seq<char>>;

    open spec fn view(&self) -> Option<Seq<char>> {
        self.name.deep_view()
    }
}

impl DeepView for LocalObjectReference {
    type V = Option<Seq<char>>;

    open spec fn deep_view(&self) -> Option<Seq<char>> {
        self@
    }
}

impl Clone for LocalObjectReference {
    fn clone(&self) -> (res: Self)
        ensures
            res == *self,
    {
        LocalObjectReference { name: self.name.clone() }
    }
}

/// The image that the containers of a cluster run, and how it is pulled.
#[derive(Debug, PartialEq, Eq)]
pub struct ResolvedProductImage {
    pub image: String,
    pub image_pull_policy: String,
    pub pull_secrets: Option<Vec<LocalObjectReference>>,
}

/// The model of a [`ResolvedProductImage`].
pub struct ResolvedProductImageView {
    pub image: Seq<char>,
    pub image_pull_policy: Seq<char>,
    pub pull_secrets: Option<Seq<Option<Seq<char>>>>,
}

impl View for ResolvedProductImage {
    type V = ResolvedProductImageView;

    open spec fn view(&self) -> ResolvedProductImageView {
        ResolvedProductImageView {
            image: self.image@,
            image_pull_policy: self.image_pull_policy@,
            pull_secrets: self.pull_secrets.deep_view(),
        }
    }
}

/// A Superset cluster.
#[derive(Debug, PartialEq, Eq)]
pub struct SupersetCluster {
    /// The secret that holds the credentials of the cluster.
    pub credentials_secret: String,
    /// The conditions that the cluster reports, where it has a status.
    pub conditions: Option<Vec<ClusterCondition>>,
}

/// The model of a [`SupersetCluster`].
pub struct SupersetClusterView {
    pub credentials_secret: Seq<char>,
    pub conditions: Option<Seq<ClusterCondition>>,
}

impl View for SupersetCluster {
    type V = SupersetClusterView;

    open spec fn view(&self) -> SupersetClusterView {
        SupersetClusterView {
            credentials_secret: self.credentials_secret@,
            conditions: match self.conditions {
                Some(conditions) => Some(conditions@),
                None => None,
            },
        }
    }
}

impl SupersetClusterView {
    /// Whether the cluster reports that it is available.
    pub open spec fn is_ready(self) -> bool {
        self.conditions is Some && exists|i: int|
            0 <= i < self.conditions->0.len() && (#[trigger] self.conditions->0[i]).says_available()
    }
}

impl SupersetCluster {
    /// Whether the cluster reports that it is available.
    pub fn is_ready(&self) -> (res: bool)
        ensures
            res == self@.is_ready(),
    {
        match &self.conditions {
            Some(conditions) => {
                let mut i: usize = 0;
                while i < conditions.len()
                    invariant
                        self@.conditions == Some(conditions@),
                        i <= conditions.len(),
                        forall|j: int|
                            0 <= j < i ==> !(#[trigger] conditions@[j]).says_available(),
                    decreases conditions.len() - i,
                {
                    let condition = conditions[i];
                    if condition.type_ == ClusterConditionType::Available && condition.status
                        == ClusterConditionStatus::True {
                        assert(self@.conditions->0[i as int].says_available());
                        return true;
                    }
                    i = i + 1;
                }
                false
            },
            None => false,
        }
    }
}

/// One condition that says so makes a cluster ready, whatever other conditions stand before it and
/// behind it. Without one, or without a status, it is not ready.
pub proof fn lemma_ready_wherever_the_condition_stands(
    credentials_secret: Seq<char>,
    before: Seq<ClusterCondition>,
    condition: ClusterCondition,
    behind: Seq<ClusterCondition>,
)
    ensures
        condition.type_ == ClusterConditionType::Available && condition.status
            == ClusterConditionStatus::True ==> (SupersetClusterView {
            credentials_secret,
            conditions: Some(before.push(condition) + behind),
        }).is_ready(),
        !(condition.type_ == ClusterConditionType::Available && condition.status
            == ClusterConditionStatus::True) ==> ((SupersetClusterView {
            credentials_secret,
            conditions: Some(before.push(condition) + behind),
        }).is_ready() <==> (SupersetClusterView {
            credentials_secret,
            conditions: Some(before + behind),
        }).is_ready()),
        !(SupersetClusterView { credentials_secret, conditions: Some(seq![]) }).is_ready(),
        !(SupersetClusterView { credentials_secret, conditions: None }).is_ready(),
{
    let all = before.push(condition) + behind;
    let others = before + behind;
    let n = before.len() as int;
    let with = SupersetClusterView { credentials_secret, conditions: Some(all) };
    let without = SupersetClusterView { credentials_secret, conditions: Some(others) };
    assert(all[n] == condition);
    if condition.says_available() {
        assert(with.conditions->0[n].says_available());
    } else {
        if with.is_ready() {
            let i = choose|i: int| 0 <= i < all.len() && (#[trigger] all[i]).says_available();
            let j = if i < n {
                i
            } else {
                i - 1
            };
            assert(without.conditions->0[j] == all[i]);
        }
        if without.is_ready() {
            let i = choose|i: int| 0 <= i < others.len() && (#[trigger] others[i]).says_available();
            let j = if i < n {
                i
            } else {
                i + 1
            };
            assert(with.conditions->0[j] == others[i]);
        }
    }
}

} // verus!
