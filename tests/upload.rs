use wasmcloud::auth::select_token;
use wasmcloud::models::admit_login;
use wasmcloud::publish::PublishRequest;
use wasmcloud::upload::plan_upload;
use wasmcloud::{AuthError, Error, FilePart, MultipartDatas, NewUser, TextPart};

fn file(name: &str, content_type: Option<&str>) -> FilePart {
    FilePart {
        name: "upload".to_string(),
        path: format!("/staging/{}", name),
        filename: name.to_string(),
        content_type: content_type.map(|c| c.to_string()),
    }
}

fn data(files: Vec<FilePart>) -> MultipartDatas {
    MultipartDatas { texts: vec![TextPart { key: "name".to_string(), value: "bar".to_string() }], files }
}

#[test]
fn no_file_is_refused() {
    assert_eq!(plan_upload(true, &data(vec![])), Err(Error::IncorrectFilecount(1)));
}

#[test]
fn two_files_are_refused() {
    let d = data(vec![file("a.wasm", Some("application/wasm")), file("b.wasm", Some("application/wasm"))]);
    assert_eq!(plan_upload(true, &d), Err(Error::IncorrectFilecount(1)));
}

#[test]
fn missing_content_type_is_refused() {
    assert_eq!(plan_upload(true, &data(vec![file("a.wasm", None)])), Err(Error::MissingContentType));
}

#[test]
fn foreign_record_is_refused_first() {
    assert_eq!(plan_upload(false, &data(vec![])), Err(Error::LackPermissions));
}

#[test]
fn single_file_is_published() {
    assert_eq!(
        plan_upload(true, &data(vec![file("a.wasm", Some("application/wasm"))])),
        Ok(PublishRequest { path: "/staging/a.wasm".to_string(), content_type: "application/wasm".to_string() })
    );
}

#[test]
fn error_statuses() {
    assert_eq!(Error::MalformedRequest.status(), 400);
    assert_eq!(Error::IncorrectFilecount(1).status(), 400);
    assert_eq!(Error::MissingContentType.status(), 400);
    assert_eq!(Error::LackPermissions.status(), 401);
    assert_eq!(Error::BadOrNoAuth.status(), 401);
    assert_eq!(Error::Encoding.status(), 422);
    assert_eq!(Error::Read("x".to_string()).status(), 422);
    assert_eq!(Error::Write("x".to_string()).status(), 500);
    assert_eq!(Error::RemoteAuth("x".to_string()).status(), 500);
    assert_eq!(Error::RemoteUpload("x".to_string()).status(), 500);
    assert_eq!(Error::Database("x".to_string()).status(), 500);
}

#[test]
fn error_messages() {
    assert_eq!(Error::IncorrectFilecount(1).message(), "incorrect number of files uploaded (wanted 1)");
    assert_eq!(Error::IncorrectFilecount(120).message(), "incorrect number of files uploaded (wanted 120)");
    assert_eq!(Error::LackPermissions.message(), "you lack needed permissions");
    assert_eq!(Error::BadOrNoAuth.message(), "bad or no authorization");
    assert_eq!(Error::RemoteUpload("cap exceeded".to_string()).message(), "b2 error: cap exceeded");
    assert_eq!(Error::Io("EIO".to_string()).message(), "internal server error: EIO");
    assert_eq!(Error::Database("gone".to_string()).message(), "gone");
    assert_eq!(Error::Encoding.message(), "Data can not read as UTF-8");
}

#[test]
fn token_from_header_or_cookie() {
    assert_eq!(select_token(vec!["h".to_string()], Some("c".to_string())), Ok("h".to_string()));
    assert_eq!(select_token(vec![], Some("c".to_string())), Ok("c".to_string()));
    assert_eq!(select_token(vec![], None), Err(AuthError::Missing));
    assert_eq!(select_token(vec!["a".to_string(), "b".to_string()], None), Err(AuthError::BadCount));
    assert_eq!(AuthError::BadCount.status(), 400);
    assert_eq!(AuthError::Missing.status(), 401);
    assert_eq!(AuthError::Invaild.status(), 401);
}

#[test]
fn login_is_for_administrators() {
    assert_eq!(admit_login(true), Ok(()));
    assert_eq!(
        admit_login(false),
        Err(Error::InternalServerError("wasmcloud is not ready for general use yet sorry".to_string()))
    );
    let u = NewUser::from_provider("a@b.c".to_string(), "Ada".to_string(), true);
    assert_eq!(
        u,
        NewUser { email: "a@b.c".to_string(), salutation: "Ada".to_string(), is_admin: true, is_locked: false, tier: 0 }
    );
}
