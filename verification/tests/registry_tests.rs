use model_registry::models::{CreateModelRequest, Model, ModelStatus};
use model_registry::registry::{ModelStorage, RegistryError};
use model_registry::storage::{FileStorage, MemStorage};

fn request(name: &str, version: &str) -> CreateModelRequest {
    CreateModelRequest { name: name.to_string(), version: version.to_string() }
}

#[test]
fn created_record_starts_in_created_status() {
    let mut reg = ModelStorage::new();
    let m = reg.create_model(request("resnet", "v1")).unwrap();
    assert!(matches!(m.status, ModelStatus::Created));
    assert_eq!(m.name, "resnet");
    assert_eq!(m.version, "v1");
    assert_eq!(m.created_at, m.updated_at);
    assert_eq!(m.id.len(), 36);
    assert!(m.created_at > 0);
}

#[test]
fn creates_never_share_an_id() {
    let mut reg = ModelStorage::new();
    let m1 = reg.create_model(request("resnet", "v1")).unwrap();
    let m2 = reg.create_model(request("bert", "v2")).unwrap();
    assert_ne!(m1.id, m2.id);
    let listed = reg.list_models();
    assert_eq!(listed.len(), 2);
    assert!(listed.iter().any(|m| m.id == m1.id));
    assert!(listed.iter().any(|m| m.id == m2.id));
}

#[test]
fn insert_rejects_duplicate_id_without_side_effects() {
    let mut reg = ModelStorage::new();
    let m = Model {
        id: "fixed-id".to_string(),
        name: "resnet".to_string(),
        version: "v1".to_string(),
        status: ModelStatus::Created,
        created_at: 5,
        updated_at: 5,
    };
    reg.insert_model(m.clone()).unwrap();
    let second = Model { name: "other".to_string(), ..m };
    let err = reg.insert_model(second).unwrap_err();
    assert_eq!(err, RegistryError::DuplicateId);
    let listed = reg.list_models();
    assert_eq!(listed.len(), 1);
    assert_eq!(listed[0].name, "resnet");
}

#[test]
fn get_returns_the_stored_snapshot() {
    let mut reg = ModelStorage::new();
    let m = reg.create_model(request("resnet", "v1")).unwrap();
    let got = reg.get_model(&m.id).unwrap();
    assert_eq!(got.id, m.id);
    assert_eq!(got.name, "resnet");
    assert!(reg.get_model(&"missing".to_string()).is_none());
}

#[test]
fn delete_signals_presence_and_is_idempotent() {
    let mut reg = ModelStorage::new();
    let m = reg.create_model(request("resnet", "v1")).unwrap();
    assert!(reg.delete_model(&m.id));
    assert!(reg.list_models().is_empty());
    assert!(!reg.delete_model(&m.id));
    assert!(reg.list_models().is_empty());
}

#[test]
fn upload_activates_and_refreshes_updated_at() {
    let mut reg = ModelStorage::new();
    let mut store = MemStorage::new();
    let m = reg.create_model(request("resnet", "v1")).unwrap();
    let bytes: Vec<u8> = (0..32u8).collect();
    let ns = "ml-platform-models".to_string();
    let uri = reg.upload_model_file(&mut store, &m.id, &ns, &bytes).unwrap();
    assert_eq!(uri, format!("mem://ml-platform-models/models/{}/v1.model", m.id));
    let after = reg.get_model(&m.id).unwrap();
    assert!(matches!(after.status, ModelStatus::Active));
    assert_eq!(after.created_at, m.created_at);
    assert!(after.updated_at > m.updated_at);
}

#[test]
fn upload_to_unknown_id_fails_not_found_and_changes_nothing() {
    let mut reg = ModelStorage::new();
    let mut store = MemStorage::new();
    let m = reg.create_model(request("resnet", "v1")).unwrap();
    let bytes = vec![1u8, 2, 3];
    let ns = "ml-platform-models".to_string();
    let err = reg.upload_model_file(&mut store, &"unknown".to_string(), &ns, &bytes).unwrap_err();
    assert_eq!(err, RegistryError::NotFound);
    let listed = reg.list_models();
    assert_eq!(listed.len(), 1);
    assert_eq!(listed[0].id, m.id);
    assert!(matches!(listed[0].status, ModelStatus::Created));
    assert_eq!(listed[0].updated_at, m.updated_at);
    assert!(store.download_file(&ns, &format!("models/unknown/v1.model")).is_err());
}

#[test]
fn full_lifecycle_scenario() {
    let mut reg = ModelStorage::new();
    let mut store = MemStorage::new();
    let m = reg.create_model(request("resnet", "v1")).unwrap();
    assert!(matches!(m.status, ModelStatus::Created));
    let bytes: Vec<u8> = (0..1024).map(|i| (i % 251) as u8).collect();
    let ns = "ml-platform-models".to_string();
    let uri = reg.upload_model_file(&mut store, &m.id, &ns, &bytes).unwrap();
    assert!(uri.starts_with("mem://"));
    assert!(uri.ends_with(&format!("/models/{}/v1.model", m.id)));
    let listed = reg.list_models();
    assert_eq!(listed.len(), 1);
    assert_eq!(listed[0].id, m.id);
    assert!(matches!(listed[0].status, ModelStatus::Active));
    assert!(reg.delete_model(&m.id));
    assert!(reg.get_model(&m.id).is_none());
    assert!(reg.list_models().is_empty());
}
