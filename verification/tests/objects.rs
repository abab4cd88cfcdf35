use k8s_openapi::api;
use k8s_openapi::api::batch::v1::Job;
use kube::Resource;
use trino_connection::object::{ObjectKind, ObjectMeta, ObjectRef, OwnerReference};

fn metadata(uid: Option<&str>) -> ObjectMeta {
    ObjectMeta {
        name: Some("simple".to_string()),
        namespace: Some("own".to_string()),
        uid: uid.map(String::from),
        resource_version: Some("17".to_string()),
    }
}

#[test]
fn kinds_are_those_of_the_api() {
    assert_eq!(ObjectKind::ConfigMap.kind(), api::core::v1::ConfigMap::kind(&()));
    assert_eq!(ObjectKind::ConfigMap.group(), api::core::v1::ConfigMap::group(&()));
    assert_eq!(ObjectKind::ConfigMap.version(), api::core::v1::ConfigMap::version(&()));
    assert_eq!(
        ObjectKind::ConfigMap.api_version(),
        api::core::v1::ConfigMap::api_version(&())
    );
    assert_eq!(ObjectKind::Job.kind(), Job::kind(&()));
    assert_eq!(ObjectKind::Job.group(), Job::group(&()));
    assert_eq!(ObjectKind::Job.version(), Job::version(&()));
    assert_eq!(ObjectKind::Job.api_version(), Job::api_version(&()));
    assert_eq!(
        ObjectKind::TrinoConnection.api_version(),
        "superset.stackable.tech/v1alpha1"
    );
    assert_eq!(ObjectKind::TrinoConnection.kind(), "TrinoConnection");
    assert_eq!(ObjectKind::TrinoConnection.group(), "superset.stackable.tech");
    assert_eq!(ObjectKind::TrinoConnection.version(), "v1alpha1");
}

#[test]
fn text_of_a_reference_is_that_of_the_client_library() {
    let config_map = ObjectRef::new(ObjectKind::ConfigMap, "simple-trino").within("own");
    assert_eq!(config_map.text(), "ConfigMap.v1./simple-trino.own");
    assert_eq!(
        config_map.text(),
        kube::runtime::reflector::ObjectRef::<api::core::v1::ConfigMap>::new("simple-trino")
            .within("own")
            .to_string()
    );
    let job = ObjectRef::new(ObjectKind::Job, "simple-import");
    assert_eq!(job.text(), "Job.v1.batch/simple-import");
    assert_eq!(
        job.text(),
        kube::runtime::reflector::ObjectRef::<Job>::new("simple-import").to_string()
    );
}

#[test]
fn reference_to_an_object_holds_its_metadata() {
    let reference = ObjectRef::from_obj(ObjectKind::TrinoConnection, &metadata(Some("u-1")));
    assert_eq!(reference.kind, ObjectKind::TrinoConnection);
    assert_eq!(reference.name, "simple");
    assert_eq!(reference.namespace, Some("own".to_string()));
    assert_eq!(reference.uid, Some("u-1".to_string()));
    assert_eq!(reference.resource_version, Some("17".to_string()));
    assert_eq!(
        reference.text(),
        "TrinoConnection.v1alpha1.superset.stackable.tech/simple.own"
    );
}

#[test]
fn reference_by_name_knows_no_more() {
    let reference = ObjectRef::new(ObjectKind::Job, "simple-import");
    assert_eq!(reference.namespace, None);
    assert_eq!(reference.uid, None);
    assert_eq!(reference.resource_version, None);
}

#[test]
fn owner_controls_what_it_owns() {
    let owner =
        OwnerReference::controlled_by(ObjectKind::TrinoConnection, &metadata(Some("u-1"))).unwrap();
    assert_eq!(owner.api_version, "superset.stackable.tech/v1alpha1");
    assert_eq!(owner.kind, "TrinoConnection");
    assert_eq!(owner.name, "simple");
    assert_eq!(owner.uid, "u-1");
    assert_eq!(owner.controller, Some(true));
    assert_eq!(owner.block_owner_deletion, None);
}

#[test]
fn owner_needs_a_uid() {
    let missing =
        OwnerReference::controlled_by(ObjectKind::TrinoConnection, &metadata(None)).unwrap_err();
    assert_eq!(missing.key, "uid");
}
