use ssh_paste::clipboard::Payload;
use ssh_paste::serve::{
    answer, consults, Reply, Source,
    bad_request, data_reply, ends_headers, kind_reply, request_path, respond, route, unavailable,
    Route,
};

fn split(raw: &[u8]) -> (String, Vec<u8>) {
    let at = raw.windows(4).position(|w| w == b"\r\n\r\n").unwrap();
    (
        String::from_utf8(raw[..at].to_vec()).unwrap(),
        raw[at + 4..].to_vec(),
    )
}

#[test]
fn request_line_gives_the_path_of_a_get() {
    assert_eq!(request_path("GET /kind HTTP/1.1\r\n").as_deref(), Some("/kind"));
    assert_eq!(request_path("  GET\t/data/text  ").as_deref(), Some("/data/text"));
    assert_eq!(request_path("garbage\r\n"), None);
    assert_eq!(request_path("GET\r\n"), None);
    assert_eq!(request_path("POST /kind HTTP/1.1\r\n"), None);
    assert_eq!(request_path(""), None);
}

#[test]
fn blank_line_or_end_of_input_ends_the_head() {
    assert!(ends_headers(""));
    assert!(ends_headers("\r\n"));
    assert!(ends_headers("\n"));
    assert!(!ends_headers("Host: x\r\n"));
}

#[test]
fn paths_route_to_their_sources() {
    assert_eq!(route("/kind"), Route::Kind);
    assert_eq!(route("/data/image"), Route::ImageData);
    assert_eq!(route("/data/text"), Route::TextData);
    assert_eq!(route("/nope"), Route::Unknown);
}

#[test]
fn response_carries_status_type_and_length() {
    let raw = respond(200, "image/png", &[137, 80, 78, 71, 9, 9]);
    let (head, body) = split(&raw);
    assert_eq!(
        head,
        "HTTP/1.1 200 OK\r\nContent-Type: image/png\r\nContent-Length: 6\r\nConnection: close"
    );
    assert_eq!(body, vec![137, 80, 78, 71, 9, 9]);
}

#[test]
fn kind_reports_current_clipboard_bytes() {
    let (head, body) = split(&kind_reply(Some("image/png")));
    assert!(head.starts_with("HTTP/1.1 200"));
    assert_eq!(body, b"image/png");
    let (head, _) = split(&kind_reply(None));
    assert!(head.starts_with("HTTP/1.1 404"));
}

#[test]
fn data_is_served_only_for_the_matching_kind() {
    let png = vec![137, 80, 78, 71, 9, 9];
    let (head, body) = split(&data_reply(Route::ImageData, Some(Payload::Png(png.clone()))));
    assert!(head.starts_with("HTTP/1.1 200"));
    assert!(head.contains("Content-Type: image/png"));
    assert!(head.contains(&format!("Content-Length: {}", png.len())));
    assert_eq!(body, png);

    let (head, _) = split(&data_reply(Route::ImageData, Some(Payload::Text("now text".into()))));
    assert!(head.starts_with("HTTP/1.1 404"));

    let (head, body) = split(&data_reply(Route::TextData, Some(Payload::Text("hé".into()))));
    assert!(head.starts_with("HTTP/1.1 200"));
    assert!(head.contains("Content-Type: text/plain; charset=utf-8"));
    assert_eq!(body, "hé".as_bytes());

    let (head, _) = split(&data_reply(Route::TextData, None));
    assert!(head.starts_with("HTTP/1.1 404"));
}

#[test]
fn failures_answer_400_and_404() {
    let (head, body) = split(&bad_request());
    assert!(head.starts_with("HTTP/1.1 400 Bad Request"));
    assert_eq!(body, b"bad request");
    let (head, body) = split(&unavailable());
    assert!(head.starts_with("HTTP/1.1 404 Not Found"));
    assert_eq!(body, b"clipboard unavailable");
}

#[test]
fn each_route_consults_its_own_source() {
    assert_eq!(consults(Route::Kind), Source::Kind);
    assert_eq!(consults(Route::ImageData), Source::Data);
    assert_eq!(consults(Route::TextData), Source::Data);
    assert_eq!(consults(Route::Unknown), Source::Nothing);
}

#[test]
fn answer_serves_what_the_consulted_source_gave() {
    assert_eq!(
        answer(Route::Kind, Reply::Kind(Some("image/png"))),
        kind_reply(Some("image/png"))
    );
    assert_eq!(
        answer(Route::TextData, Reply::Data(Some(Payload::Text("hi".into())))),
        data_reply(Route::TextData, Some(Payload::Text("hi".into())))
    );
    let (head, body) = split(&answer(Route::ImageData, Reply::Data(Some(Payload::Png(vec![1, 2])))));
    assert!(head.starts_with("HTTP/1.1 200 OK"));
    assert_eq!(body, vec![1, 2]);
    assert_eq!(
        answer(Route::ImageData, Reply::Data(Some(Payload::Text("t".into())))),
        unavailable()
    );
    assert_eq!(answer(Route::Kind, Reply::Kind(None)), unavailable());
    assert_eq!(answer(Route::Unknown, Reply::Nothing), unavailable());
}
