use std::path::PathBuf;

use ingress_nginx_errors::{
    canonical_code, code_from_header, file_name_for, is_root, is_safe, respond, select_template,
    template_name, HeaderUse, MakeSvc, Reply, Svc, STATUS_NOT_FOUND, STATUS_OK,
};

const NOT_FOUND_MESSAGE: &str = "The page you're looking for could not be found";
const SERVER_ERROR_MESSAGE: &str = "Internal server error";

/// The templates directory used by these tests: `404.html`, `404.json`,
/// `500.html` and `500.json`.
fn read_fixture(name: &str) -> Option<Vec<u8>> {
    let message = match name.split('.').next() {
        Some("404") => NOT_FOUND_MESSAGE,
        Some("500") => SERVER_ERROR_MESSAGE,
        _ => return None,
    };
    match name.split_once('.').map(|(_, ext)| ext) {
        Some("html") => Some(format!("<span>{}</span>", message).into_bytes()),
        Some("json") => Some(format!(r#"{{"message":"{}"}}"#, message).into_bytes()),
        _ => None,
    }
}

/// Handles one request against the fixture directory.
fn handle(dir: &str, path: &str, headers: Vec<(&str, &str)>) -> Reply {
    let svc = Svc::new(PathBuf::from(dir));
    let header = |name: &str| {
        headers
            .iter()
            .find(|(k, _)| k.eq_ignore_ascii_case(name))
            .map(|(_, v)| *v)
    };
    let name = svc.template_for(path, header("X-Code"), header("X-Format"));
    respond(name.and_then(|n| read_fixture(&n)))
}

#[test]
fn formatted_as_json() {
    let errs = vec![("404", NOT_FOUND_MESSAGE), ("500", SERVER_ERROR_MESSAGE)];
    for (code, message) in errs {
        let response = handle("./files", "/", vec![("X-Code", code), ("X-Format", "application/json")]);
        assert_eq!(response.status, 200);
        assert_eq!(response.body, format!(r#"{{"message":"{}"}}"#, message).into_bytes());
    }
}

#[test]
fn formatted_as_html() {
    let errs = vec![("404", NOT_FOUND_MESSAGE), ("500", SERVER_ERROR_MESSAGE)];
    for (code, message) in errs {
        let response = handle("./files", "/", vec![("X-Code", code), ("X-Format", "text/html")]);
        assert_eq!(response.status, 200);
        assert_eq!(response.body, format!("<span>{}</span>", message).into_bytes());
    }
}

#[test]
fn html_by_default() {
    let response = handle("files", "/", vec![("X-Code", "500")]);
    assert_eq!(response.status, 200);
    assert_eq!(response.body, b"<span>Internal server error</span>".to_vec());
}

#[test]
fn picks_404_for_erroneous_code() {
    let response = handle("files", "/", vec![("X-Code", "x500")]);
    assert_eq!(response.status, 200);
    assert_eq!(
        response.body,
        b"<span>The page you're looking for could not be found</span>".to_vec()
    );
}

#[test]
fn empty_404_for_codes_without_files() {
    let response = handle("files", "/", vec![("X-Code", "403")]);
    assert_eq!(response.status, 404);
    assert!(response.body.is_empty());
}

#[test]
fn empty_404_for_requests_to_pages_other_than_root() {
    let response = handle("files", "/boo", vec![("X-Code", "403")]);
    assert_eq!(response.status, 404);
    assert!(response.body.is_empty());
}

#[test]
fn other_paths_ignore_headers() {
    for path in ["/boo", "", "//", "/404.html", "/index"] {
        let svc = Svc::new(PathBuf::from("files"));
        assert_eq!(svc.template_for(path, Some("500"), Some("application/json")), None);
        let response = handle("files", path, vec![("X-Code", "500"), ("X-Format", "application/json")]);
        assert_eq!(response.status, STATUS_NOT_FOUND);
        assert!(response.body.is_empty());
    }
}

#[test]
fn existing_template_is_served() {
    let response = handle("files", "/", vec![("X-Code", "404"), ("X-Format", "application/json")]);
    assert_eq!(response.status, STATUS_OK);
    assert_eq!(response.body, read_fixture("404.json").unwrap());
}

#[test]
fn absent_code_equals_404() {
    let svc = Svc::new(PathBuf::from("files"));
    assert_eq!(
        svc.template_for("/", None, Some("application/json")),
        svc.template_for("/", Some("404"), Some("application/json"))
    );
    assert_eq!(svc.template_for("/", None, None), Some("404.html".to_string()));
}

#[test]
fn absent_or_invalid_format_equals_html() {
    let svc = Svc::new(PathBuf::from("files"));
    let html = svc.template_for("/", Some("500"), Some("text/html"));
    assert_eq!(html, Some("500.html".to_string()));
    assert_eq!(svc.template_for("/", Some("500"), None), html);
    assert_eq!(svc.template_for("/", Some("500"), Some("json")), html);
    assert_eq!(svc.template_for("/", Some("500"), Some("")), html);
    assert_eq!(svc.template_for("/", Some("500"), Some("text html")), html);
}

#[test]
fn invalid_code_equals_404() {
    for code in ["x500", "", "+", "-1", "5 00", " 500", "1e3", "++5", "５00"] {
        assert_eq!(code_from_header(Some(code)), "404");
        assert_eq!(template_name(Some(code), None), "404.html");
    }
    assert_eq!(code_from_header(None), "404");
    assert_eq!(template_name(Some("4294967296"), None), "4294967296.html");
}

#[test]
fn missing_template_gives_empty_404() {
    let response = handle("files", "/", vec![("X-Code", "500"), ("X-Format", "application/xml")]);
    assert_eq!(response.status, STATUS_NOT_FOUND);
    assert!(response.body.is_empty());
}

#[test]
fn same_request_same_response() {
    let svc = Svc::new(PathBuf::from("files"));
    let first = svc.template_for("/", Some("500"), Some("application/json"));
    let second = svc.template_for("/", Some("500"), Some("application/json"));
    assert_eq!(first, second);
    let a = handle("files", "/", vec![("X-Code", "500"), ("X-Format", "application/json")]);
    let b = handle("files", "/", vec![("X-Code", "500"), ("X-Format", "application/json")]);
    assert_eq!(a.status, b.status);
    assert_eq!(a.body, b.body);
}

#[test]
fn traversal_falls_back_to_html() {
    for format in ["text/../../etc/passwd", "text//etc/passwd", "/etc/passwd", "text/..", "text\\..\\x"] {
        let name = template_name(Some("404"), Some(format));
        assert_eq!(name, "404.html", "format {}", format);
    }
    assert_eq!(template_name(Some("404"), Some("text/.hidden")), "404..hidden");
    assert_eq!(template_name(Some("404"), Some("text/a..b")), "404.a..b");
    assert_eq!(template_name(Some("404"), Some("text/.")), "404..");
}

#[test]
fn subtype_is_lower_cased_without_suffix() {
    assert_eq!(template_name(Some("500"), Some("Application/JSON")), "500.json");
    assert_eq!(template_name(Some("500"), Some("application/vnd.api+json")), "500.vnd.api");
    assert_eq!(template_name(Some("500"), Some("text/html; charset=utf-8")), "500.html");
    assert_eq!(template_name(Some("500"), Some("*/*")), "500.*");
}

#[test]
fn canonical_code_cases() {
    assert_eq!(canonical_code("0"), Some("0".to_string()));
    assert_eq!(canonical_code("000"), Some("0".to_string()));
    assert_eq!(canonical_code("404"), Some("404".to_string()));
    assert_eq!(canonical_code("+7"), Some("7".to_string()));
    assert_eq!(canonical_code("00500"), Some("500".to_string()));
    assert_eq!(canonical_code("4294967296"), Some("4294967296".to_string()));
    assert_eq!(
        canonical_code("99999999999999999999999999"),
        Some("99999999999999999999999999".to_string())
    );
    assert_eq!(canonical_code(""), None);
    assert_eq!(canonical_code("+"), None);
    assert_eq!(canonical_code("-0"), None);
    assert_eq!(canonical_code("x500"), None);
    assert_eq!(canonical_code("５00"), None);
}

#[test]
fn large_codes_are_kept() {
    assert_eq!(template_name(Some("999"), Some("text/plain")), "999.plain");
    assert_eq!(template_name(Some("4294967295"), None), "4294967295.html");
    assert_eq!(template_name(Some("4294967296"), None), "4294967296.html");
    assert_eq!(
        template_name(Some("123456789012345678901234567890"), Some("application/json")),
        "123456789012345678901234567890.json"
    );
    assert_eq!(template_name(Some("+007"), None), "7.html");
}

#[test]
fn selection_reports_fallbacks() {
    let used = select_template(Some("500"), Some("application/json"));
    assert_eq!(used.name, "500.json");
    assert_eq!(used.code, HeaderUse::Used);
    assert_eq!(used.format, HeaderUse::Used);
    let absent = select_template(None, None);
    assert_eq!(absent.name, "404.html");
    assert_eq!(absent.code, HeaderUse::Absent);
    assert_eq!(absent.format, HeaderUse::Absent);
    let rejected = select_template(Some("x500"), Some("json"));
    assert_eq!(rejected.name, "404.html");
    assert_eq!(rejected.code, HeaderUse::Rejected);
    assert_eq!(rejected.format, HeaderUse::Rejected);
    let unsafe_subtype = select_template(Some("500"), Some("text/.."));
    assert_eq!(unsafe_subtype.name, "500.html");
    assert_eq!(unsafe_subtype.format, HeaderUse::Rejected);
    let svc = Svc::new(PathBuf::from("files"));
    assert!(svc.selection_for("/boo", Some("500"), None).is_none());
    let root = svc.selection_for("/", Some("500"), None).unwrap();
    assert_eq!(root.name, "500.html");
    assert_eq!(root.format, HeaderUse::Absent);
}

#[test]
fn safe_names() {
    assert!(is_safe("html"));
    assert!(is_safe("vnd.api"));
    assert!(is_safe(""));
    assert!(!is_safe(".."));
    assert!(is_safe("."));
    assert!(is_safe("..."));
    assert!(is_safe(".hidden"));
    assert!(is_safe("a..b"));
    assert!(is_safe("vnd..x"));
    assert!(!is_safe("a/b"));
    assert!(!is_safe("a\\b"));
    assert!(!is_safe("a\0b"));
}

#[test]
fn file_name_from_parsed_subtype() {
    assert_eq!(file_name_for("500", Some("json".to_string())), "500.json");
    assert_eq!(file_name_for("404", None), "404.html");
    assert_eq!(file_name_for("404", Some("../secret".to_string())), "404.html");
    assert_eq!(file_name_for("404", Some("..".to_string())), "404.html");
    assert_eq!(file_name_for("403", Some("x".to_string())), "403.x");
    assert_eq!(file_name_for("500", Some(".".to_string())), "500..");
    assert_eq!(file_name_for("4294967296", Some("json".to_string())), "4294967296.json");
}

#[test]
fn respond_cases() {
    let ok = respond(Some(b"page".to_vec()));
    assert_eq!(ok.status, 200);
    assert_eq!(ok.body, b"page".to_vec());
    let empty_file = respond(Some(Vec::new()));
    assert_eq!(empty_file.status, 200);
    assert!(empty_file.body.is_empty());
    let missing = respond(None);
    assert_eq!(missing.status, 404);
    assert!(missing.body.is_empty());
}

#[test]
fn root_path() {
    assert!(is_root("/"));
    assert!(!is_root(""));
    assert!(!is_root("//"));
    assert!(!is_root("/boo"));
}

#[test]
fn services_keep_their_directory() {
    let svc = Svc::new(PathBuf::from("files"));
    assert_eq!(svc.templates_dir(), &PathBuf::from("files"));
    let make = MakeSvc::new(PathBuf::from("./files"));
    assert_eq!(make.templates_dir(), &PathBuf::from("./files"));
}
