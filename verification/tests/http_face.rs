use rwave::http::{
    build_response, get_id, route_request, status_line_text, str_starts_with, RequestRoute,
    StatusLine,
};

#[test]
fn get_id_extracts_the_path_identifier() {
    assert_eq!(get_id("GET /tracks/12 HTTP/1.1"), "12");
    assert_eq!(get_id("DELETE /tracks/7 HTTP/1.1"), "7");
    assert_eq!(get_id("PUT /tracks/104/ HTTP/1.1"), "104");
}

#[test]
fn get_id_without_second_slash_is_empty() {
    assert_eq!(get_id("no slashes at all"), "");
    assert_eq!(get_id("GET /tracks"), "");
    assert_eq!(get_id(""), "");
}

#[test]
fn get_id_takes_the_third_slash_part_verbatim() {
    // The second slash may come from the protocol suffix: the third part of
    // `GET /tracks HTTP/1.1` split on `/` is `1.1`.
    assert_eq!(get_id("GET /tracks HTTP/1.1"), "1.1");
    // An identifier-less path yields the next token after the slash.
    assert_eq!(get_id("GET /tracks/ HTTP/1.1"), "HTTP");
}

#[test]
fn get_id_with_empty_segment_is_empty() {
    assert_eq!(get_id("GET /tracks// HTTP/1.1"), "");
}

#[test]
fn get_id_skips_leading_whitespace_in_segment() {
    assert_eq!(get_id("GET /tracks/ 12"), "12");
}

#[test]
fn routes_follow_the_handlers_order() {
    assert_eq!(route_request("POST /tracks HTTP/1.1"), RequestRoute::PostTracks);
    assert_eq!(route_request("GET /tracks/12 HTTP/1.1"), RequestRoute::GetTrackById);
    assert_eq!(route_request("GET /tracks HTTP/1.1"), RequestRoute::GetAllTracks);
    assert_eq!(route_request("PUT /tracks/12 HTTP/1.1"), RequestRoute::PutTrack);
    assert_eq!(route_request("DELETE /tracks/12 HTTP/1.1"), RequestRoute::DeleteTrack);
    assert_eq!(route_request("OPTIONS / HTTP/1.1"), RequestRoute::Preflight);
    assert_eq!(route_request("GET /albums HTTP/1.1"), RequestRoute::Unknown);
    assert_eq!(route_request(""), RequestRoute::Unknown);
}

#[test]
fn starts_with_matches_prefixes_only() {
    assert!(str_starts_with("POST /tracks HTTP/1.1", "POST /tracks"));
    assert!(!str_starts_with("POST /track", "POST /tracks"));
    assert!(str_starts_with("anything", ""));
}

#[test]
fn response_is_status_headers_blank_line_content() {
    let r = build_response(status_line_text(StatusLine::NotFound), "Track not found");
    let expected = "HTTP/1.1 404 NOT FOUND\r\nAccess-Control-Allow-Origin: http://localhost:3000\r\nAccess-Control-Allow-Methods: GET, POST, PUT, DELETE\r\nAccess-Control-Allow-Headers: Content-Type\r\nAccess-Control-Allow-Credentials: true\r\n\r\nTrack not found";
    assert_eq!(r, expected);
}

#[test]
fn status_lines_are_exact() {
    assert_eq!(
        status_line_text(StatusLine::Success),
        "HTTP/1.1 200 OK\r\nContent-Type: application/json\r\n"
    );
    assert_eq!(status_line_text(StatusLine::NotFound), "HTTP/1.1 404 NOT FOUND\r\n");
    assert_eq!(
        status_line_text(StatusLine::ServerError),
        "HTTP/1.1 500 INTERNAL SERVER ERROR\r\n"
    );
}
