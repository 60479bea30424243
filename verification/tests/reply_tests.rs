use mi::reply::{
    find_model_context, images_from_reply, jev_outcome, max_context_from_reply, try_max_context_from_reply,
    ModelItem, ModelScan,
};

#[test]
fn jev_reports_a_failed_status() {
    let r = jev_outcome(false, "500 Internal Server Error", "x");
    assert_eq!(r, Err("API 500 Internal Server Error error: x".to_string()));
}

#[test]
fn jev_reports_invalid_json_with_the_body() {
    let r = jev_outcome(true, "200 OK", "not json");
    let e = r.unwrap_err();
    assert!(e.starts_with("invalid JSON: "));
    assert!(e.ends_with(" — body: not json"));
}

#[test]
fn jev_pretty_prints_the_body() {
    let r = jev_outcome(true, "200 OK", "{\"a\":1}");
    assert_eq!(r, Ok("{\n  \"a\": 1\n}".to_string()));
}

#[test]
fn max_context_reports_a_failed_status() {
    let r = try_max_context_from_reply(false, "404 Not Found", "nope", "m");
    assert_eq!(r, Some(Err("API 404 Not Found error: nope".to_string())));
}

#[test]
fn max_context_reports_invalid_json() {
    let r = max_context_from_reply(true, "200 OK", "{", "m").unwrap_err();
    assert!(r.starts_with("invalid JSON: "));
    assert!(r.ends_with(" — body: {"));
}

#[test]
fn max_context_needs_a_data_array() {
    let r = try_max_context_from_reply(true, "200 OK", "{\"models\": []}", "m");
    assert_eq!(r, Some(Err("missing data array in response".to_string())));
}

#[test]
fn max_context_needs_some_models() {
    let r = try_max_context_from_reply(true, "200 OK", "{\"data\": []}", "m");
    assert_eq!(r, Some(Err("no models returned by the API".to_string())));
}

#[test]
fn max_context_takes_the_first_match() {
    let body = "{\"data\": [{\"id\": \"a\"}, {\"id\": 7}, {\"id\": \"m\", \"context_length\": 1000}, \
                {\"id\": \"m\", \"context_length\": 2000}]}";
    assert_eq!(try_max_context_from_reply(true, "200 OK", body, "m"), Some(Ok(1000)));
    assert_eq!(max_context_from_reply(true, "200 OK", body, "m"), Ok(1000));
}

#[test]
fn max_context_reports_a_missing_model() {
    let body = "{\"data\": [{\"id\": \"a\", \"context_length\": 5}]}";
    assert_eq!(try_max_context_from_reply(true, "200 OK", body, "m"), Some(Err("failed to find model".to_string())));
}

#[test]
fn max_context_cannot_read_an_entry_without_id() {
    let body = "{\"data\": [{\"name\": \"a\"}, {\"id\": \"m\", \"context_length\": 5}]}";
    assert_eq!(try_max_context_from_reply(true, "200 OK", body, "m"), None);
    let body = "{\"data\": [{\"id\": \"m\", \"context_length\": \"big\"}]}";
    assert_eq!(try_max_context_from_reply(true, "200 OK", body, "m"), None);
}

#[test]
fn model_search_goes_in_order() {
    let items = vec![
        ModelItem { id: Some(None), context_length: Some(1) },
        ModelItem { id: Some(Some("x".to_string())), context_length: Some(2) },
        ModelItem { id: Some(Some("m".to_string())), context_length: Some(3) },
        ModelItem { id: None, context_length: None },
    ];
    assert_eq!(find_model_context(&items, "m"), ModelScan::Found(3));
    assert_eq!(find_model_context(&items, "y"), ModelScan::Unreadable);
    let known = vec![
        ModelItem { id: Some(None), context_length: Some(1) },
        ModelItem { id: Some(Some("x".to_string())), context_length: Some(2) },
    ];
    assert_eq!(find_model_context(&known, "y"), ModelScan::NotFound);
}

#[test]
fn images_report_a_failed_status() {
    let r = images_from_reply(false, "401 Unauthorized", "no key");
    assert_eq!(r.err(), Some("API 401 Unauthorized error: no key".to_string()));
}

#[test]
fn images_report_invalid_json() {
    let e = images_from_reply(true, "200 OK", "<html>").err().unwrap();
    assert!(e.starts_with("invalid JSON: "));
    assert!(e.ends_with(" — body: <html>"));
}

#[test]
fn images_need_a_data_array_with_entries() {
    assert_eq!(images_from_reply(true, "200 OK", "{}").err(), Some("missing data array in response".to_string()));
    assert_eq!(
        images_from_reply(true, "200 OK", "{\"data\": []}").err(),
        Some("no images returned by the API".to_string())
    );
}

#[test]
fn images_are_read_in_order() {
    let body = "{\"data\": [{\"b64_json\": \"AAAA\", \"media_type\": \"image/png\"}, {\"b64_json\": 3}], \
                \"usage\": {\"cost\": 0.5}}";
    let items = images_from_reply(true, "200 OK", body).ok().unwrap();
    assert_eq!(items.len(), 2);
    assert_eq!(items[0].b64_json, Some("AAAA".to_string()));
    assert_eq!(items[0].media_type, Some("image/png".to_string()));
    assert_eq!(items[1].b64_json, None);
    assert_eq!(items[1].media_type, None);
}
