use model_registry::gcs::gcs_location;
use model_registry::local::LocalFileStorage;
use model_registry::models::{Model, ModelResponse, ModelStatus};
use model_registry::storage::{object_key, FileStorage, MemStorage};

#[test]
fn object_key_is_deterministic_and_keeps_the_convention() {
    let id = "abc".to_string();
    let version = "v7".to_string();
    let k1 = object_key(&id, &version);
    let k2 = object_key(&id, &version);
    assert_eq!(k1, "models/abc/v7.model");
    assert_eq!(k1, k2);
}

#[test]
fn upload_then_download_round_trips_the_bytes() {
    let mut store = MemStorage::new();
    let ns = "bucket".to_string();
    let key = "models/x/v1.model".to_string();
    let bytes: Vec<u8> = (0..255u8).collect();
    let uri = store.upload_file(&bytes, &ns, &key).unwrap();
    assert_eq!(uri, "mem://bucket/models/x/v1.model");
    let got = store.download_file(&ns, &key).unwrap();
    assert_eq!(got, bytes);
}

#[test]
fn reupload_overwrites_the_same_object() {
    let mut store = MemStorage::new();
    let ns = "bucket".to_string();
    let key = "models/x/v1.model".to_string();
    store.upload_file(&vec![1u8, 2, 3], &ns, &key).unwrap();
    store.upload_file(&vec![9u8, 9], &ns, &key).unwrap();
    let got = store.download_file(&ns, &key).unwrap();
    assert_eq!(got, vec![9u8, 9]);
}

#[test]
fn download_of_a_missing_object_reports_not_found() {
    let store = MemStorage::new();
    let r = store.download_file(&"bucket".to_string(), &"nothing".to_string());
    assert!(r.is_err());
}

#[test]
fn local_storage_joins_keys_onto_its_root() {
    let local = LocalFileStorage::new("./model_storage".to_string());
    let dest = local.destination(&"models/x/v1.model".to_string());
    assert_eq!(dest, "./model_storage/models/x/v1.model");
    let uri = local.location_of(&"models/x/v1.model".to_string());
    assert_eq!(uri, "local://./model_storage/models/x/v1.model");
}

#[test]
fn gcs_location_carries_bucket_and_key() {
    let uri = gcs_location(&"ml-platform-models".to_string(), &"models/x/v1.model".to_string());
    assert_eq!(uri, "gs://ml-platform-models/models/x/v1.model");
}

#[test]
fn status_labels_match_the_wire_form() {
    assert_eq!(ModelStatus::Created.to_string(), "CREATED");
    assert_eq!(ModelStatus::Uploading.to_string(), "UPLOADING");
    assert_eq!(ModelStatus::Active.to_string(), "ACTIVE");
    assert_eq!(ModelStatus::Inactive.to_string(), "INACTIVE");
    assert_eq!(ModelStatus::Error("boom".to_string()).to_string(), "ERROR: boom");
}

#[test]
fn responses_render_timestamps_as_rfc3339() {
    let m = Model {
        id: "abc".to_string(),
        name: "resnet".to_string(),
        version: "v1".to_string(),
        status: ModelStatus::Created,
        created_at: 0,
        updated_at: 86400000,
    };
    let r = ModelResponse::from(&m);
    assert_eq!(r.id, "abc");
    assert_eq!(r.status, "CREATED");
    assert_eq!(r.created_at, "1970-01-01T00:00:00+00:00");
    assert_eq!(r.updated_at, "1970-01-02T00:00:00+00:00");
}
