use my_music::auth::{
    accept_login, auth_cookie_name, authenticated, new_user_record, require_admin, Login, NewUser,
    User,
};
use my_music::config::{
    default_data_dir, default_env_filter, default_jwt_secret, default_listen_addr,
    default_password, default_storage_dir, default_username, default_web_dir, dev_domain,
};
use my_music::error::{
    ApiError, BackendErrorKind, STATUS_BAD_REQUEST, STATUS_INTERNAL_SERVER_ERROR,
    STATUS_NOT_FOUND, STATUS_OK, STATUS_PARTIAL_CONTENT, STATUS_UNAUTHORIZED,
};
use my_music::static_files::{add_extension, extend};

fn user(admin: bool) -> User {
    User { username: "jane".to_string(), hashed_pass: "$argon2id$x".to_string(), admin }
}

#[test]
fn status_constants() {
    assert_eq!(
        (
            STATUS_OK,
            STATUS_PARTIAL_CONTENT,
            STATUS_BAD_REQUEST,
            STATUS_UNAUTHORIZED,
            STATUS_NOT_FOUND,
            STATUS_INTERNAL_SERVER_ERROR
        ),
        (200, 206, 400, 401, 404, 500)
    );
}

#[test]
fn errors_map_to_statuses() {
    let detail = || "detail".to_string();
    let cases = vec![
        (ApiError::NotFound, 404, "not found"),
        (ApiError::Unauthorized, 401, "unauthorized"),
        (ApiError::SerdeJson(detail()), 400, "invalid json"),
        (ApiError::Validation(detail()), 400, "invalid request"),
        (ApiError::Io(detail()), 500, "internal server error"),
        (ApiError::Db(detail()), 500, "internal server error"),
        (ApiError::Reqwest(detail()), 500, "internal server error"),
        (ApiError::Rss(detail()), 500, "internal server error"),
        (ApiError::Axum(detail()), 500, "internal server error"),
        (ApiError::InvalidWSMessage, 500, "internal server error"),
        (ApiError::Symphonia(detail()), 500, "internal server error"),
        (ApiError::OpenDal(detail()), 500, "internal server error"),
    ];
    for (error, status, body) in cases {
        assert_eq!(error.status_code(), status, "{:?}", error);
        assert_eq!(error.body_text(), body, "{:?}", error);
        assert!(!error.body_text().contains("detail"));
    }
}

#[test]
fn backend_errors_are_classified() {
    assert_eq!(
        ApiError::from_backend(BackendErrorKind::NotFound, "gone".to_string()),
        ApiError::NotFound
    );
    assert_eq!(
        ApiError::from_backend(BackendErrorKind::Other, "timeout".to_string()),
        ApiError::OpenDal("timeout".to_string())
    );
}

#[test]
fn configuration_defaults() {
    assert_eq!(dev_domain(), "localhost");
    assert_eq!(
        default_env_filter(true),
        "info,my_music=debug,axum=debug,axum-core=debug,tower_http=debug"
    );
    assert_eq!(default_env_filter(false), "info,my_music=debug,tower_http=debug");
    assert_eq!(default_listen_addr(true), "127.0.0.1:8013");
    assert_eq!(default_listen_addr(false), "0.0.0.0:8013");
    assert_eq!(default_web_dir(true), "./web/dist");
    assert_eq!(default_web_dir(false), "/my-music-web");
    assert_eq!(default_data_dir(true), "./my-music-data");
    assert_eq!(default_data_dir(false), "/my-music-data");
    assert_eq!(default_storage_dir(), "./my-music-data/storage");
    assert_eq!(default_username(true), "admin");
    assert_eq!(default_password(true), "password");
    assert_eq!(default_jwt_secret(true), "secret");
}

#[test]
fn authentication_needs_subject_and_user() {
    assert_eq!(auth_cookie_name(), "auth");
    assert_eq!(authenticated(Some("jane"), Some(user(false))), Ok(user(false)));
    assert_eq!(authenticated(None, Some(user(false))), Err(ApiError::Unauthorized));
    assert_eq!(authenticated(Some("jane"), None), Err(ApiError::Unauthorized));
    assert_eq!(authenticated(None, None), Err(ApiError::Unauthorized));
}

#[test]
fn administration_needs_admin() {
    assert_eq!(require_admin(&user(true)), Ok(()));
    assert_eq!(require_admin(&user(false)), Err(ApiError::Unauthorized));
}

#[test]
fn login_needs_user_and_password() {
    let login = Login { username: "jane".to_string(), password: "pw".to_string() };
    assert_eq!(login.username, "jane");
    assert_eq!(accept_login(Some(user(true)), true), Ok(user(true)));
    assert_eq!(accept_login(Some(user(true)), false), Err(ApiError::Unauthorized));
    assert_eq!(accept_login(None, true), Err(ApiError::Unauthorized));
    assert_eq!(accept_login(None, false), Err(ApiError::Unauthorized));
}

#[test]
fn new_user_record_takes_hash() {
    let new_user =
        NewUser { username: "joe".to_string(), password: "plain".to_string(), admin: true };
    assert_eq!(
        new_user_record(new_user, "$hash".to_string()),
        User { username: "joe".to_string(), hashed_pass: "$hash".to_string(), admin: true }
    );
}

#[test]
fn extension_is_added_after_present_one() {
    assert_eq!(add_extension("index.html", "gz"), "index.html.gz");
    assert_eq!(add_extension("/srv/web/app.js", "gz"), "/srv/web/app.js.gz");
    assert_eq!(add_extension("/srv/web/LICENSE", "gz"), "/srv/web/LICENSE.gz");
    assert_eq!(add_extension("a/b.tar.gz", "gz"), "a/b.tar.gz.gz");
    assert_eq!(add_extension("dir.d/file", "gz"), "dir.d/file.gz");
    assert_eq!(add_extension(".hidden", "gz"), ".hidden.gz");
}

#[test]
fn extended_extension_text() {
    assert_eq!(extend(Some("html".to_string()), "gz"), "html.gz");
    assert_eq!(extend(None, "gz"), "gz");
    assert_eq!(extend(Some(String::new()), "gz"), ".gz");
}
