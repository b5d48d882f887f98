use upload_server::handlers::{
    build_photo_journal_image, build_reference, create_reference, default_image_name,
    field_is_image, ping_handler, plan_batch_item, prepend_photo_journal_image,
    prepend_reference, select_image_field, stored_filename, BatchCollector, BatchItemPlan,
    MultipartField, TokenQuery, UploadError,
};
use upload_server::models::{PhotoJournalImage, Reference};
use upload_server::phone_server::PhoneServer;
use upload_server::router::{route, HttpMethod, RouteTarget};
use upload_server::DEFAULT_SERVER_PORT;

fn field(name: Option<&str>, file_name: Option<&str>, data: Option<&[u8]>) -> MultipartField {
    MultipartField {
        name: name.map(|s| s.to_string()),
        file_name: file_name.map(|s| s.to_string()),
        data: data.map(|d| d.to_vec()),
    }
}

#[test]
fn selects_the_last_image_field() {
    let fields = vec![
        field(Some("note"), None, Some(b"ignored")),
        field(Some("image"), Some("a.png"), Some(b"first")),
        field(Some("image"), Some("b.jpg"), Some(b"second")),
    ];
    let (name, data) = select_image_field(&fields).unwrap();
    assert_eq!(name, "b.jpg");
    assert_eq!(data, b"second");
}

#[test]
fn missing_image_field_is_refused() {
    assert_eq!(
        select_image_field(&Vec::new()),
        Err(UploadError::MissingFile)
    );
    let fields = vec![field(Some("note"), Some("a.png"), Some(b"x"))];
    assert_eq!(select_image_field(&fields), Err(UploadError::MissingFile));
}

#[test]
fn unreadable_image_field_fails_the_request() {
    let fields = vec![
        field(Some("image"), Some("a.png"), Some(b"ok")),
        field(Some("image"), Some("b.png"), None),
    ];
    assert_eq!(select_image_field(&fields), Err(UploadError::InvalidImage));
}

#[test]
fn nameless_image_gets_a_default_name() {
    let fields = vec![field(Some("image"), None, Some(b"bytes"))];
    let (name, data) = select_image_field(&fields).unwrap();
    assert_eq!(data, b"bytes");
    assert_eq!(name.len(), 46);
    assert!(name.starts_with("image-"));
    assert!(name.ends_with(".jpg"));
    let fresh = default_image_name();
    assert_ne!(name, fresh);
}

#[test]
fn upload_errors_carry_status_and_message() {
    assert_eq!(UploadError::InvalidImage.status_code(), 400);
    assert_eq!(UploadError::InvalidImage.message(), "Invalid image");
    assert_eq!(UploadError::MissingFile.message(), "Missing file");
    assert_eq!(UploadError::MissingData.message(), "Missing data");
}

#[test]
fn stored_filenames_are_collision_resistant() {
    let (id, name) = stored_filename("photo.webp", 1_699_999_999_999);
    assert_eq!(id.len(), 36);
    assert_eq!(name, format!("1699999999999-{}.webp", id));
    let (id2, name2) = stored_filename("noext", 5);
    assert_eq!(name2, format!("5-{}.jpg", id2));
    assert_ne!(id, id2);
}

#[test]
fn reference_records_carry_upload_defaults() {
    let r = build_reference(
        "stored.png".to_string(),
        "orig.png".to_string(),
        "some-id".to_string(),
        1_700_000_000,
    );
    assert_eq!(r.id, "some-id");
    assert_eq!(r.filename, "stored.png");
    assert_eq!(r.original_name, "orig.png");
    assert_eq!(r.url, "references/main/stored.png");
    assert_eq!(r.created_at, 1_700_000_000);
    assert_eq!(r.location.as_deref(), Some("main"));
    assert!(r.folder_id.is_none());
    assert!(r.tags.is_empty());
    assert!(r.image_note.is_none());
    assert!(r.image_source.is_none());
    assert_eq!(r.rotation, 0);

    let created = create_reference("s.jpg".to_string(), "o.jpg".to_string());
    assert_eq!(created.id.len(), 36);
    assert_eq!(created.url, "references/main/s.jpg");
}

#[test]
fn photo_journal_records_carry_mime_and_url() {
    let r = build_photo_journal_image(
        "id-1".to_string(),
        "123-abc.webp".to_string(),
        "painting.webp".to_string(),
        "2024-01-01T00:00:00+00:00".to_string(),
        2_048,
    );
    assert_eq!(r.url, "artwork_journal/123-abc.webp");
    assert_eq!(r.mimetype, "image/webp");
    assert_eq!(r.size, 2_048);
    assert_eq!(r.upload_date, "2024-01-01T00:00:00+00:00");
    assert!(r.prompt.is_none());
    assert!(r.reference_id.is_none());
    assert_eq!(r.rotation, 0);
}

#[test]
fn collections_stay_newest_first() {
    let mut refs: Vec<Reference> = Vec::new();
    let a = build_reference("a".into(), "a".into(), "1".into(), 1);
    let b = build_reference("b".into(), "b".into(), "2".into(), 2);
    prepend_reference(&mut refs, a);
    prepend_reference(&mut refs, b);
    assert_eq!(refs[0].id, "2");
    assert_eq!(refs[1].id, "1");

    let mut journal: Vec<PhotoJournalImage> = Vec::new();
    let p = build_photo_journal_image("p".into(), "f".into(), "o".into(), "d".into(), 1);
    let q = build_photo_journal_image("q".into(), "f".into(), "o".into(), "d".into(), 1);
    prepend_photo_journal_image(&mut journal, p);
    prepend_photo_journal_image(&mut journal, q);
    assert_eq!(journal[0].id, "q");
}

#[test]
fn batch_items_are_planned_per_field() {
    let skip = plan_batch_item(&field(Some("note"), Some("a.png"), Some(b"x")), 7);
    assert!(matches!(skip, BatchItemPlan::Skip));
    assert!(!field_is_image(&field(Some("note"), None, None)));
    assert!(field_is_image(&field(Some("image"), None, None)));

    let failed = plan_batch_item(&field(Some("image"), Some("broken.png"), None), 7);
    match failed {
        BatchItemPlan::Failed(original_name) => assert_eq!(original_name, "broken.png"),
        _ => panic!("an unreadable image field fails as one item"),
    }

    let stored = plan_batch_item(&field(Some("image"), Some("pic.webp"), Some(b"x")), 7);
    match stored {
        BatchItemPlan::Store(original_name, filename) => {
            assert_eq!(original_name, "pic.webp");
            assert!(filename.starts_with("7-"));
            assert!(filename.ends_with(".webp"));
            assert_eq!(filename.len(), 2 + 36 + 5);
        }
        _ => panic!("a readable image field is stored"),
    }

    let unnamed = plan_batch_item(&field(Some("image"), None, Some(b"x")), 7);
    match unnamed {
        BatchItemPlan::Store(original_name, filename) => {
            assert!(original_name.starts_with("image-"));
            assert!(original_name.ends_with(".jpg"));
            assert!(filename.ends_with(".jpg"));
        }
        _ => panic!("a readable image field is stored"),
    }
}

#[test]
fn batch_isolates_failures_per_item() {
    let mut batch = BatchCollector::new();
    batch.record_success("id-0".into(), "f0".into(), "o0".into());
    batch.record_failure("o1".into(), "Invalid image".into());
    batch.record_success("id-2".into(), "f2".into(), "o2".into());
    assert_eq!(batch.count(), 2);
    assert!(batch.succeeded());
    assert_eq!(batch.failures.len(), 1);
    assert_eq!(batch.failures[0].index, 1);
    assert_eq!(batch.failures[0].original_name, "o1");
    assert_eq!(batch.failures[0].error, "Invalid image");
    assert_eq!(batch.successes[0].index, 0);
    assert_eq!(batch.successes[1].index, 2);
}

#[test]
fn empty_batch_does_not_count_as_success() {
    let mut batch = BatchCollector::new();
    assert!(!batch.succeeded());
    batch.record_failure("o0".into(), "Write error".into());
    assert!(!batch.succeeded());
    assert_eq!(batch.count(), 0);
}

#[test]
fn ping_names_the_active_port() {
    let mut server = PhoneServer::new();
    let pong = ping_handler(&server);
    assert_eq!(pong.status, "ok");
    assert_eq!(pong.port, DEFAULT_SERVER_PORT);
    server.on_loopback_bound(8790);
    assert_eq!(ping_handler(&server).port, 8790);
}

#[test]
fn routes_map_method_and_path() {
    assert_eq!(route(HttpMethod::Get, "/api/ping"), RouteTarget::Ping);
    assert_eq!(route(HttpMethod::Get, "/api/phone-info"), RouteTarget::PhoneInfo);
    assert_eq!(route(HttpMethod::Get, "/api/phone-token"), RouteTarget::PhoneToken);
    assert_eq!(route(HttpMethod::Post, "/api/references"), RouteTarget::UploadReference);
    assert_eq!(
        route(HttpMethod::Post, "/api/references/batch"),
        RouteTarget::UploadReferenceBatch
    );
    assert_eq!(route(HttpMethod::Post, "/api/photo-journal"), RouteTarget::UploadPhotoJournal);
    assert_eq!(
        route(HttpMethod::Post, "/api/photo-journal/batch"),
        RouteTarget::UploadPhotoJournalBatch
    );
    assert_eq!(route(HttpMethod::Get, "/phone"), RouteTarget::PhonePage);
    assert_eq!(route(HttpMethod::Post, "/api/ping"), RouteTarget::NotFound);
    assert_eq!(route(HttpMethod::Get, "/api/references"), RouteTarget::NotFound);
    assert_eq!(route(HttpMethod::Options, "/api/ping"), RouteTarget::NotFound);
}

#[test]
fn token_query_holds_the_optional_token() {
    let q = TokenQuery { token: Some("abc".to_string()) };
    assert_eq!(q.token.as_deref(), Some("abc"));
    let none = TokenQuery { token: None };
    assert!(none.token.is_none());
}
