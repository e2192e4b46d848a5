use fbvideo::{grep_video_title, grep_video_url, Error, FbVideo, Quality};

fn fetched(url: &str, quality: Quality, body: &str) -> FbVideo {
    let mut v = FbVideo::new(url.to_string(), quality);
    assert!(v.needs_fetch());
    v.store_content(body.to_string());
    assert!(!v.needs_fetch());
    v
}

#[test]
fn hd_plain_key_returns_value() {
    let body = r#"var x = 1; hd_src: "https://cdn.example/video_hd.mp4", y: 2"#;
    let v = fetched("https://example.com/v/1", Quality::Hd, body);
    assert_eq!(v.get_video_url(), Ok("https://cdn.example/video_hd.mp4".to_string()));
}

#[test]
fn hd_ratelimit_key_returns_value() {
    let body = r#"hd_src_no_ratelimit: "https://cdn.example/hd_free.mp4""#;
    let v = fetched("https://example.com/v/2", Quality::Hd, body);
    assert_eq!(v.get_video_url(), Ok("https://cdn.example/hd_free.mp4".to_string()));
}

#[test]
fn sd_ratelimit_only_returns_value() {
    let body = r#"payload; sd_src_no_ratelimit: "https://cdn.example/sd_free.mp4"; end"#;
    let v = fetched("https://example.com/v/3", Quality::Sd, body);
    assert_eq!(v.get_video_url(), Ok("https://cdn.example/sd_free.mp4".to_string()));
}

#[test]
fn missing_hd_key_is_invalid_url() {
    let body = r#"sd_src: "https://cdn.example/only_sd.mp4""#;
    let v = fetched("https://example.com/v/4", Quality::Hd, body);
    assert_eq!(v.get_video_url(), Err(Error::InvalidUrl));
}

#[test]
fn title_field_is_extracted() {
    let body = r#"<head><title id="pageTitle">My Video</title></head>"#;
    let v = fetched("https://example.com/v/5", Quality::Hd, body);
    assert_eq!(v.get_video_title(), Ok("My Video".to_string()));
}

#[test]
fn second_query_reuses_single_fetch() {
    let body = r#"hd_src: "https://cdn.example/cached.mp4""#;
    let mut v = FbVideo::new("https://example.com/v/6".to_string(), Quality::Hd);
    let mut fetch_count = 0;
    let mut results = Vec::new();
    for _ in 0..2 {
        if v.needs_fetch() {
            fetch_count += 1;
            v.store_content(body.to_string());
        }
        results.push(v.get_video_url());
    }
    assert_eq!(fetch_count, 1);
    assert_eq!(results[0], results[1]);
    assert_eq!(results[0], Ok("https://cdn.example/cached.mp4".to_string()));
}

#[test]
fn transport_failure_leaves_instance_retryable() {
    let body = r#"hd_src: "https://cdn.example/retry.mp4""#;
    let mut v = FbVideo::new("https://example.com/v/7".to_string(), Quality::Hd);
    // First attempt: the transport times out, so no body is stored; the
    // driver maps the failure and reports it.
    let mut attempts = 0;
    let first: Result<String, Error> = if v.needs_fetch() {
        attempts += 1;
        Err(Error::from_transport(true, false, false))
    } else {
        v.get_video_url()
    };
    assert_eq!(first, Err(Error::Timeout));
    assert!(v.needs_fetch());
    // Second attempt: the transport succeeds and the query goes through.
    if v.needs_fetch() {
        attempts += 1;
        v.store_content(body.to_string());
    }
    assert_eq!(attempts, 2);
    assert_eq!(v.get_video_url(), Ok("https://cdn.example/retry.mp4".to_string()));
}

#[test]
fn title_does_not_depend_on_quality() {
    let body = r#"sd_src: "s.mp4" <title id="pageTitle">Same Title</title> hd_src: "h.mp4""#;
    let sd = fetched("https://example.com/v/8", Quality::Sd, body);
    let hd = fetched("https://example.com/v/8", Quality::Hd, body);
    assert_eq!(sd.get_video_title(), hd.get_video_title());
    assert_eq!(sd.get_video_title(), Ok("Same Title".to_string()));
}

#[test]
fn quality_selects_the_candidate_field() {
    let body = r#"sd_src: "https://cdn.example/v_sd.mp4", hd_src: "https://cdn.example/v_hd.mp4""#;
    assert_eq!(
        grep_video_url(body, Quality::Sd),
        Some("https://cdn.example/v_sd.mp4".to_string())
    );
    assert_eq!(
        grep_video_url(body, Quality::Hd),
        Some("https://cdn.example/v_hd.mp4".to_string())
    );
}

#[test]
fn leftmost_occurrence_wins() {
    let body = r#"hd_src: "first.mp4" hd_src: "second.mp4""#;
    assert_eq!(grep_video_url(body, Quality::Hd), Some("first.mp4".to_string()));
}

#[test]
fn ratelimit_form_before_plain_form_wins() {
    let body = r#"hd_src_no_ratelimit: "marked.mp4" hd_src: "plain.mp4""#;
    assert_eq!(grep_video_url(body, Quality::Hd), Some("marked.mp4".to_string()));
}

#[test]
fn whitespace_after_colon_is_skipped() {
    let body = "sd_src: \t\n\r \"spaced.mp4\"";
    assert_eq!(grep_video_url(body, Quality::Sd), Some("spaced.mp4".to_string()));
}

#[test]
fn empty_quoted_value_does_not_match() {
    let body = r#"hd_src: """#;
    assert_eq!(grep_video_url(body, Quality::Hd), None);
}

#[test]
fn unterminated_value_does_not_match() {
    let body = r#"hd_src: "no closing quote"#;
    assert_eq!(grep_video_url(body, Quality::Hd), None);
}

#[test]
fn key_without_colon_does_not_match() {
    let body = r#"hd_srcs = "not_a_field.mp4""#;
    assert_eq!(grep_video_url(body, Quality::Hd), None);
}

#[test]
fn empty_body_matches_nothing() {
    assert_eq!(grep_video_url("", Quality::Hd), None);
    assert_eq!(grep_video_url("", Quality::Sd), None);
    assert_eq!(grep_video_title(""), None);
}

#[test]
fn empty_title_does_not_match() {
    let body = r#"<title id="pageTitle"></title>"#;
    assert_eq!(grep_video_title(body), None);
}

#[test]
fn unclosed_title_does_not_match() {
    let body = r#"<title id="pageTitle">Broken <b>markup</b>"#;
    assert_eq!(grep_video_title(body), None);
}

#[test]
fn later_complete_title_is_found() {
    let body = r#"title id="pageTitle">cut <title id="pageTitle">Real One</title>"#;
    assert_eq!(grep_video_title(body), Some("Real One".to_string()));
}

#[test]
fn transport_error_taxonomy_in_order() {
    assert_eq!(Error::from_transport(true, false, false), Error::Timeout);
    assert_eq!(Error::from_transport(true, true, true), Error::Timeout);
    assert_eq!(Error::from_transport(false, true, false), Error::Redirect);
    assert_eq!(Error::from_transport(false, true, true), Error::Redirect);
    assert_eq!(Error::from_transport(false, false, true), Error::InvalidUrl);
    assert_eq!(Error::from_transport(false, false, false), Error::Unknown);
}

#[test]
fn error_descriptions() {
    assert_eq!(Error::Redirect.description(), "Error is from a `RedirectPolicy`");
    assert_eq!(Error::Timeout.description(), "Error is related to a timeout");
    assert_eq!(Error::InvalidUrl.description(), "Target site has no video link");
    assert_eq!(Error::Unknown.description(), "Error is unknown");
}

#[test]
fn accessors_report_configuration() {
    let v = FbVideo::new("https://example.com/v/9".to_string(), Quality::Sd);
    assert_eq!(v.url(), "https://example.com/v/9");
    assert_eq!(v.quality(), Quality::Sd);
}
