use opsml_cli::api::error::Error;
use opsml_cli::api::utils::{
    check_args, is_success, remove_suffix, request_url, tracking_uri, OpsmlPaths, SaveRoot,
};

#[test]
fn test_remove_suffix() {
    let test_uri_with_slash = "http://localhost:8080/";
    let test_uri_without_slash = "http://localhost:8080";
    let processed_with_slash_uri = remove_suffix(test_uri_with_slash, '/');
    let processed_without_slash_uri = remove_suffix(test_uri_without_slash, '/');
    assert_eq!(processed_with_slash_uri, "http://localhost:8080");
    assert_eq!(processed_without_slash_uri, test_uri_without_slash);
}

#[test]
fn remove_suffix_takes_one_character_only() {
    assert_eq!(remove_suffix("abc//", '/'), "abc/");
    assert_eq!(remove_suffix("", '/'), "");
    assert_eq!(remove_suffix("/", '/'), "");
    assert_eq!(remove_suffix("caf\u{e9}", '\u{e9}'), "caf");
    assert_eq!(remove_suffix("abc", 'b'), "abc");
}

#[test]
fn tracking_uri_drops_one_trailing_slash() {
    assert_eq!(tracking_uri("http://localhost:8080/"), "http://localhost:8080");
    assert_eq!(tracking_uri("http://localhost:8080"), "http://localhost:8080");
}

#[test]
fn check_args_accepts_uid_alone() {
    assert_eq!(check_args(None, None, None, Some("uid")), Ok(()));
}

#[test]
fn check_args_accepts_name_repository_version() {
    assert_eq!(check_args(Some("name"), Some("repo"), Some("1.0.0"), None), Ok(()));
}

#[test]
fn check_args_accepts_part_of_the_triple_without_uid() {
    assert_eq!(check_args(Some("name"), None, None, None), Ok(()));
    assert_eq!(check_args(None, Some("repo"), None, None), Ok(()));
    assert_eq!(check_args(None, None, Some("1.0.0"), None), Ok(()));
}

#[test]
fn check_args_rejects_nothing_at_all() {
    assert_eq!(check_args(None, None, None, None), Err(Error::InvalidReference));
}

#[test]
fn check_args_rejects_uid_beside_other_fields() {
    assert_eq!(
        check_args(Some("name"), Some("repo"), Some("1.0.0"), Some("uid")),
        Err(Error::InvalidReference)
    );
    assert_eq!(check_args(Some("name"), None, None, Some("uid")), Err(Error::InvalidReference));
    assert_eq!(check_args(None, None, Some("1"), Some("uid")), Err(Error::InvalidReference));
}

#[test]
fn check_args_follows_the_two_flags_on_every_shape() {
    for bits in 0..16 {
        let name = if bits & 1 != 0 { Some("n") } else { None };
        let repository = if bits & 2 != 0 { Some("r") } else { None };
        let version = if bits & 4 != 0 { Some("v") } else { None };
        let uid = if bits & 8 != 0 { Some("u") } else { None };
        let common_absent = name.is_none() && repository.is_none() && version.is_none();
        let uid_absent = uid.is_none();
        let checked = check_args(name, repository, version, uid);
        assert_eq!(checked.is_err(), common_absent == uid_absent);
    }
}

#[test]
fn routes_are_appended_to_the_tracking_uri() {
    let base = "http://localhost:8080";
    assert_eq!(OpsmlPaths::ListCard.as_str(base), "http://localhost:8080/opsml/cards/list");
    assert_eq!(
        OpsmlPaths::MetadataDownload.as_str(base),
        "http://localhost:8080/opsml/models/metadata"
    );
    assert_eq!(OpsmlPaths::Download.as_str(base), "http://localhost:8080/opsml/files/download");
    assert_eq!(
        OpsmlPaths::DownloadPresigned.as_str(base),
        "http://localhost:8080/opsml/files/presigned"
    );
    assert_eq!(OpsmlPaths::Metric.as_str(base), "http://localhost:8080/opsml/metrics");
    assert_eq!(OpsmlPaths::ListFile.as_str(base), "http://localhost:8080/opsml/files/list");
}

#[test]
fn save_root_of_models() {
    assert_eq!(SaveRoot::Model.as_str(), "opsml-root:/OPSML_MODEL_REGISTRY");
}

#[test]
fn success_is_the_two_hundreds() {
    assert!(!is_success(199));
    assert!(is_success(200));
    assert!(is_success(201));
    assert!(is_success(299));
    assert!(!is_success(300));
    assert!(!is_success(404));
    assert!(!is_success(0));
    assert!(!is_success(u16::MAX));
}

#[test]
fn test_get_request() {
    let url = "http://127.0.0.1:1234";
    let get_path = format!("{}/get", url);
    assert_eq!(request_url(&get_path, None), Ok("http://127.0.0.1:1234/get".to_string()));
}

#[test]
fn test_post_request() {
    let url = "http://127.0.0.1:1234";
    let post_path = format!("{}/post", url);
    assert_eq!(request_url(&post_path, None), Ok("http://127.0.0.1:1234/post".to_string()));
}

#[test]
fn request_url_normalises_the_address() {
    assert_eq!(request_url("http://localhost:8080", None), Ok("http://localhost:8080/".to_string()));
    assert_eq!(
        request_url("HTTP://LOCALHOST:8080/a b", None),
        Ok("http://localhost:8080/a%20b".to_string())
    );
}

#[test]
fn request_url_appends_the_query_in_order() {
    let params = [("path", "a/b c"), ("method", "GET")];
    assert_eq!(
        request_url("http://localhost:8080/opsml/files/presigned", Some(&params)),
        Ok("http://localhost:8080/opsml/files/presigned?path=a%2Fb+c&method=GET".to_string())
    );
}

#[test]
fn request_url_without_pairs_leaves_the_query_as_it_is() {
    let none: [(&str, &str); 0] = [];
    assert_eq!(
        request_url("http://localhost:8080/x", Some(&none)),
        Ok("http://localhost:8080/x".to_string())
    );
    assert_eq!(
        request_url("http://localhost:8080/x?a=1", None),
        Ok("http://localhost:8080/x?a=1".to_string())
    );
}

#[test]
fn request_url_appends_behind_a_query_and_before_a_fragment() {
    let params = [("b", "2"), ("c", "\u{e9}")];
    assert_eq!(
        request_url("http://localhost:8080/x?a=1#top", Some(&params)),
        Ok("http://localhost:8080/x?a=1&b=2&c=%C3%A9#top".to_string())
    );
    let empty = [("", "")];
    assert_eq!(
        request_url("http://localhost:8080/x", Some(&empty)),
        Ok("http://localhost:8080/x?=".to_string())
    );
}

#[test]
fn request_url_refuses_what_is_no_absolute_url() {
    assert_eq!(
        request_url("not a url", None),
        Err(Error::InvalidUrl { url: "not a url".to_string() })
    );
    let params = [("path", "files")];
    assert_eq!(
        request_url("/opsml/files/list", Some(&params)),
        Err(Error::InvalidUrl { url: "/opsml/files/list".to_string() })
    );
}

#[test]
fn request_url_takes_a_long_address() {
    let long = format!("http://localhost/{}", "a".repeat(2 * 1048576));
    assert_eq!(request_url(&long, None), Ok(long.clone()));
    let value = "\u{e9}".repeat(1048576);
    let params = [("path", value.as_str())];
    let address = request_url("http://localhost/", Some(&params)).unwrap();
    assert_eq!(address.len(), "http://localhost/?path=".len() + 6 * 1048576);
}
