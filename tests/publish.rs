use wasmcloud::publish::{
    object_name_for, object_uri_for, Publication, PublishAction, PublishEvent, PublishRequest, UploadParams,
};
use wasmcloud::Error;

fn request() -> PublishRequest {
    PublishRequest { path: "/staging/module.wasm".to_string(), content_type: "application/wasm".to_string() }
}

fn publish(digest: &str, modified_millis: u128) -> (Vec<PublishAction>, Option<Result<String, Error>>) {
    let mut p = Publication::new(request());
    let mut actions = vec![p.action()];
    let events = vec![
        PublishEvent::Authenticated,
        PublishEvent::UploadTargetGranted,
        PublishEvent::Digested { digest: digest.to_string(), size: 100, modified_millis },
        PublishEvent::Uploaded,
    ];
    for ev in events {
        actions.push(p.handle(ev));
    }
    (actions, p.outcome())
}

#[test]
fn object_names_and_addresses() {
    assert_eq!(object_name_for(&"abc".to_string()), "abc.wasm");
    assert_eq!(object_uri_for(&"abc.wasm".to_string()), "b2://abc.wasm");
}

#[test]
fn successful_publication() {
    let (actions, outcome) = publish("6437b3ac", 1_600_000_000_123);
    assert_eq!(
        actions,
        vec![
            PublishAction::Authenticate,
            PublishAction::RequestUploadTarget,
            PublishAction::Digest { path: "/staging/module.wasm".to_string() },
            PublishAction::Upload {
                path: "/staging/module.wasm".to_string(),
                params: UploadParams {
                    file_name: "6437b3ac.wasm".to_string(),
                    size: 100,
                    content_type: "application/wasm".to_string(),
                    last_modified_millis: 1_600_000_000_123,
                },
            },
            PublishAction::Done,
        ]
    );
    assert_eq!(outcome, Some(Ok("b2://6437b3ac.wasm".to_string())));
}

#[test]
fn identical_content_gets_identical_address() {
    let (_, first) = publish("af1349b9", 10);
    let (_, second) = publish("af1349b9", 99);
    assert_eq!(first, second);
    let (_, other) = publish("af1349b8", 10);
    assert_ne!(first, other);
}

#[test]
fn largest_modification_time_is_kept() {
    let (actions, _) = publish("d", u64::MAX as u128);
    match &actions[3] {
        PublishAction::Upload { params, .. } => assert_eq!(params.last_modified_millis, u64::MAX),
        other => panic!("unexpected {:?}", other),
    }
}

#[test]
fn huge_modification_time_is_clamped() {
    let (actions, _) = publish("d", u64::MAX as u128 + 1);
    match &actions[3] {
        PublishAction::Upload { params, .. } => assert_eq!(params.last_modified_millis, u64::MAX),
        other => panic!("unexpected {:?}", other),
    }
}

#[test]
fn refused_credentials_upload_nothing() {
    let mut p = Publication::new(request());
    assert_eq!(p.handle(PublishEvent::AuthFailed("401".to_string())), PublishAction::Done);
    assert_eq!(p.handle(PublishEvent::Authenticated), PublishAction::Done);
    assert_eq!(p.outcome(), Some(Err(Error::RemoteAuth("401".to_string()))));
}

#[test]
fn refused_upload_target_is_upload_error() {
    let mut p = Publication::new(request());
    p.handle(PublishEvent::Authenticated);
    assert_eq!(p.handle(PublishEvent::UploadTargetRefused("cap".to_string())), PublishAction::Done);
    assert_eq!(p.outcome(), Some(Err(Error::RemoteUpload("cap".to_string()))));
}

#[test]
fn failed_upload_and_failed_digest() {
    let mut p = Publication::new(request());
    p.handle(PublishEvent::Authenticated);
    p.handle(PublishEvent::UploadTargetGranted);
    assert_eq!(p.handle(PublishEvent::DigestFailed(Error::Io("EIO".to_string()))), PublishAction::Done);
    assert_eq!(p.outcome(), Some(Err(Error::Io("EIO".to_string()))));

    let mut q = Publication::new(request());
    q.handle(PublishEvent::Authenticated);
    q.handle(PublishEvent::UploadTargetGranted);
    q.handle(PublishEvent::Digested { digest: "ab".to_string(), size: 1, modified_millis: 1 });
    assert_eq!(q.handle(PublishEvent::UploadFailed("sha1 mismatch".to_string())), PublishAction::Done);
    assert_eq!(q.outcome(), Some(Err(Error::RemoteUpload("sha1 mismatch".to_string()))));
}

#[test]
fn unfinished_publication_has_no_outcome() {
    let mut p = Publication::new(request());
    assert_eq!(p.handle(PublishEvent::Uploaded), PublishAction::Authenticate);
    assert_eq!(p.outcome(), None);
}
