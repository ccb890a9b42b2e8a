use livereload_server::errors::ServeError;
use livereload_server::serve::{
    injection_payload_for, is_html_path, normalize_request_path, serve_file, to_http_reply,
    DirFile, Directory,
};

const INDEX: &str = "<!DOCTYPE html>
<html>
<body>
    <h1>My First Heading</h1>
    <p>My first paragraph.</p>
</body>
</html>
";

const INDEX_CSS: &str = "body {
    color: red;
}
";

fn prepare_directory() -> Directory {
    Directory {
        files: vec![
            DirFile { name: "index.html".to_string(), data: INDEX.as_bytes().to_vec() },
            DirFile { name: "index.css".to_string(), data: INDEX_CSS.as_bytes().to_vec() },
        ],
    }
}

#[test]
fn serving_a_missing_file_returns_none() {
    let dir = prepare_directory();

    let served = serve_file(&dir, "favicon.ico", "").unwrap();

    assert!(served.is_none());
}

#[test]
fn serving_at_root_returns_index_html() {
    let dir = prepare_directory();

    let expected: Vec<u8> = INDEX.bytes().collect();

    let served = serve_file(&dir, "index.html", "").unwrap().unwrap();
    assert_eq!(served, expected);

    let served = serve_file(&dir, "/", "").unwrap().unwrap();
    assert_eq!(served, expected);

    let served = serve_file(&dir, "", "").unwrap().unwrap();
    assert_eq!(served, expected);
}

#[test]
fn serving_an_existing_file_returns_it() {
    let dir = prepare_directory();

    let served = serve_file(&dir, "index.css", "").unwrap().unwrap();

    let expected: Vec<u8> = INDEX_CSS.bytes().collect();

    assert_eq!(served, expected);
}

#[test]
fn serving_injects_payload_into_html() {
    let dir = prepare_directory();
    let payload = "<p>Injected!</p>";

    let served = serve_file(&dir, "/index.html", payload).unwrap().unwrap();

    let expected: Vec<u8> = INDEX.replace("</body>", "<p>Injected!</p></body>").into_bytes();
    assert_eq!(served, expected);
    assert_eq!(served.len(), INDEX.len() + payload.len());
}

#[test]
fn serving_non_html_leaves_bytes_identical() {
    let data: Vec<u8> = vec![0u8, 159, 146, 150, 255, 1, 2, 3];
    let dir = Directory {
        files: vec![DirFile { name: "blob.bin".to_string(), data: data.clone() }],
    };
    let served = serve_file(&dir, "/blob.bin", "<p>x</p>").unwrap().unwrap();
    assert_eq!(served, data);
}

#[test]
fn serving_invalid_utf8_html_is_an_encoding_error() {
    let dir = Directory {
        files: vec![DirFile { name: "bad.html".to_string(), data: vec![0xff, 0xfe, 0x3c] }],
    };
    let served = serve_file(&dir, "bad.html", "<p>x</p>");
    assert_eq!(served, Err(ServeError::InvalidEncoding));
}

#[test]
fn scenario_css_raw_root_injected_missing_not_found() {
    let index_html = "<html><body>hi</body></html>";
    let index_css = "body { color: red; }";
    let dir = Directory {
        files: vec![
            DirFile { name: "index.html".to_string(), data: index_html.as_bytes().to_vec() },
            DirFile { name: "index.css".to_string(), data: index_css.as_bytes().to_vec() },
        ],
    };
    let payload = injection_payload_for("window.location.reload();");

    let css = serve_file(&dir, "index.css", &payload).unwrap().unwrap();
    assert_eq!(css, index_css.as_bytes());

    let root = serve_file(&dir, "/", &payload).unwrap().unwrap();
    let expected = format!(
        "<html><body>hi<script type=\"text/javascript\">window.location.reload();</script></body></html>"
    );
    assert_eq!(root, expected.as_bytes());

    let missing = serve_file(&dir, "missing.txt", &payload).unwrap();
    assert!(missing.is_none());
}

#[test]
fn normalization_maps_root_and_empty_to_index() {
    assert_eq!(normalize_request_path(""), "index.html");
    assert_eq!(normalize_request_path("/"), "index.html");
    assert_eq!(normalize_request_path("/index.html"), "index.html");
    assert_eq!(normalize_request_path("/a/b.css"), "a/b.css");
    assert_eq!(normalize_request_path("plain.txt"), "plain.txt");
}

#[test]
fn html_detection_goes_by_suffix() {
    assert!(is_html_path("index.html"));
    assert!(is_html_path("a/b/c.html"));
    assert!(is_html_path(".html"));
    assert!(!is_html_path("html"));
    assert!(!is_html_path("index.htm"));
    assert!(!is_html_path("index.css"));
    assert!(!is_html_path("index.html.gz"));
}

#[test]
fn http_reply_maps_the_three_outcomes() {
    let (status, body) = to_http_reply(Ok(Some(vec![1u8, 2, 3])));
    assert_eq!(status, 200);
    assert_eq!(body, vec![1u8, 2, 3]);

    let (status, body) = to_http_reply(Ok(None));
    assert_eq!(status, 404);
    assert!(body.is_empty());

    let (status, body) = to_http_reply(Err(ServeError::InvalidEncoding));
    assert_eq!(status, 500);
    assert_eq!(body, ServeError::InvalidEncoding.message().into_bytes());
}

#[test]
fn payload_wraps_script_in_script_tag() {
    let payload = injection_payload_for("alert(1);");
    assert_eq!(payload, "<script type=\"text/javascript\">alert(1);</script>");
}
