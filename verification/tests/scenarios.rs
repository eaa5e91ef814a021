use woopra_component::events::{
    Campaign, Client, Context, Data, Event, EventType, HttpMethod, PageData, Session, TrackData,
    UserData,
};
use woopra_component::{page, track, user};

fn empty_page_data() -> PageData {
    PageData {
        name: String::new(),
        category: String::new(),
        keywords: vec![],
        title: String::new(),
        url: String::new(),
        path: String::new(),
        search: String::new(),
        referrer: String::new(),
        properties: vec![],
    }
}

fn empty_user_data() -> UserData {
    UserData {
        user_id: String::new(),
        anonymous_id: String::new(),
        edgee_id: String::new(),
        properties: vec![],
    }
}

fn empty_track_data(name: &str) -> TrackData {
    TrackData {
        name: name.to_string(),
        products: vec![],
        properties: vec![],
    }
}

fn empty_client() -> Client {
    Client {
        city: String::new(),
        ip: String::new(),
        locale: String::new(),
        timezone: String::new(),
        user_agent: String::new(),
        user_agent_architecture: String::new(),
        user_agent_bitness: String::new(),
        user_agent_full_version_list: String::new(),
        user_agent_version_list: String::new(),
        user_agent_mobile: String::new(),
        user_agent_model: String::new(),
        os_name: String::new(),
        os_version: String::new(),
        screen_width: 0,
        screen_height: 0,
        continent: String::new(),
        country_code: String::new(),
        country_name: String::new(),
        region: String::new(),
    }
}

fn minimal_context() -> Context {
    Context {
        page: empty_page_data(),
        user: empty_user_data(),
        client: empty_client(),
        campaign: Campaign {
            name: String::new(),
            source: String::new(),
            medium: String::new(),
            term: String::new(),
            content: String::new(),
            creative_format: String::new(),
            marketing_tactic: String::new(),
        },
        session: Session {
            session_id: String::new(),
            previous_session_id: String::new(),
            session_count: 0,
            session_start: false,
            first_seen: 0,
            last_seen: 0,
        },
    }
}

fn minimal_event(event_type: EventType, data: Data) -> Event {
    Event {
        uuid: "00000000-0000-0000-0000-000000000000".to_string(),
        timestamp: 123,
        timestamp_millis: 123,
        timestamp_micros: 123,
        event_type,
        data,
        context: minimal_context(),
        consent: None,
    }
}

fn settings() -> Vec<(String, String)> {
    vec![("project_name".to_string(), "example.com".to_string())]
}

#[test]
fn page_with_user_data_fails() {
    let event = minimal_event(EventType::Page, Data::User(empty_user_data()));
    let result = page(event, settings());
    assert_eq!(result.unwrap_err(), "Missing page data");
}

#[test]
fn track_with_page_data_fails() {
    let event = minimal_event(EventType::Track, Data::Page(empty_page_data()));
    let result = track(event, settings());
    assert_eq!(result.unwrap_err(), "Missing track data");
}

#[test]
fn user_with_track_data_fails() {
    let event = minimal_event(EventType::User, Data::Track(empty_track_data("evt")));
    let result = user(event, settings());
    assert_eq!(result.unwrap_err(), "Missing user data");
}

#[test]
fn variant_mismatch_wins_over_missing_settings() {
    let event = minimal_event(EventType::Page, Data::User(empty_user_data()));
    let result = page(event, vec![]);
    assert_eq!(result.unwrap_err(), "Missing page data");
}

#[test]
fn page_without_project_name_fails() {
    let event = minimal_event(EventType::Page, Data::Page(empty_page_data()));
    let result = page(event, vec![("other".to_string(), "x".to_string())]);
    assert_eq!(result.unwrap_err(), "Missing example setting");
}

#[test]
fn track_without_project_name_fails() {
    let event = minimal_event(EventType::Track, Data::Track(empty_track_data("evt")));
    let result = track(event, vec![]);
    assert_eq!(result.unwrap_err(), "Missing example setting");
}

#[test]
fn user_without_project_name_fails() {
    let event = minimal_event(EventType::User, Data::User(empty_user_data()));
    let result = user(event, vec![]);
    assert_eq!(result.unwrap_err(), "Missing example setting");
}

#[test]
fn track_with_empty_name_fails() {
    let event = minimal_event(EventType::Track, Data::Track(empty_track_data("")));
    let result = track(event, settings());
    assert_eq!(result.unwrap_err(), "Track is not set");
}

#[test]
fn track_empty_name_wins_over_missing_settings() {
    let event = minimal_event(EventType::Track, Data::Track(empty_track_data("")));
    let result = track(event, vec![]);
    assert_eq!(result.unwrap_err(), "Track is not set");
}

#[test]
fn minimal_page_event_exact_url() {
    let event = minimal_event(EventType::Page, Data::Page(empty_page_data()));
    let request = page(event, settings()).unwrap();
    assert_eq!(request.method, HttpMethod::Get);
    assert_eq!(request.body, "");
    assert!(request.forward_client_headers);
    assert_eq!(
        request.headers,
        vec![("content-length".to_string(), "0".to_string())]
    );
    assert_eq!(
        request.url,
        "https://www.woopra.com/track/ce?project=example.com&event=pv&timestamp=123&cs_session_id=&cs_session_count=0&app=Edgee"
    );
}

#[test]
fn minimal_user_event_exact_url() {
    let event = minimal_event(EventType::User, Data::User(empty_user_data()));
    let request = user(event, settings()).unwrap();
    assert_eq!(request.method, HttpMethod::Get);
    assert_eq!(request.body, "");
    assert!(request.forward_client_headers);
    assert_eq!(
        request.url,
        "https://www.woopra.com/track/identify?project=example.com"
    );
}

#[test]
fn user_custom_property_gets_visitor_prefix() {
    let mut data = empty_user_data();
    data.properties = vec![("prop_name".to_string(), "value1".to_string())];
    let event = minimal_event(EventType::User, Data::User(data));
    let request = user(event, settings()).unwrap();
    assert_eq!(
        request.url,
        "https://www.woopra.com/track/identify?project=example.com&cv_prop_name=value1"
    );
}

#[test]
fn user_id_takes_precedence_for_cv_id() {
    let mut data = empty_user_data();
    data.user_id = "123".to_string();
    data.anonymous_id = "456".to_string();
    let event = minimal_event(EventType::User, Data::User(data));
    let request = user(event, settings()).unwrap();
    assert!(request.url.contains("cv_id=123"));
    assert!(!request.url.contains("cv_id=456"));
}

#[test]
fn user_anonymous_id_used_when_no_user_id() {
    let mut data = empty_user_data();
    data.anonymous_id = "456".to_string();
    let event = minimal_event(EventType::User, Data::User(data));
    let request = user(event, settings()).unwrap();
    assert!(request.url.contains("cv_id=456"));
}

#[test]
fn os_with_name_and_version() {
    let mut event = minimal_event(EventType::Track, Data::Track(empty_track_data("evt")));
    event.context.client.os_name = "MacOS".to_string();
    event.context.client.os_version = "latest".to_string();
    let request = track(event, settings()).unwrap();
    assert!(request.url.contains("&os=MacOS+latest"));
}

#[test]
fn os_with_name_only() {
    let mut event = minimal_event(EventType::Track, Data::Track(empty_track_data("evt")));
    event.context.client.os_name = "MacOS".to_string();
    let request = track(event, settings()).unwrap();
    assert!(request.url.contains("&os=MacOS"));
    assert!(!request.url.contains("&os=MacOS+"));
}

#[test]
fn os_omitted_without_name() {
    let mut event = minimal_event(EventType::Track, Data::Track(empty_track_data("evt")));
    event.context.client.os_version = "latest".to_string();
    let request = track(event, settings()).unwrap();
    assert!(!request.url.contains("&os="));
}

#[test]
fn screen_needs_both_dimensions() {
    let mut event = minimal_event(EventType::Track, Data::Track(empty_track_data("evt")));
    event.context.client.screen_width = 1024;
    event.context.client.screen_height = 768;
    let request = track(event, settings()).unwrap();
    assert!(request.url.contains("&screen=1024x768"));

    let mut event = minimal_event(EventType::Track, Data::Track(empty_track_data("evt")));
    event.context.client.screen_width = 1024;
    let request = track(event, settings()).unwrap();
    assert!(!request.url.contains("&screen="));
}

#[test]
fn page_uri_is_url_search_concatenation() {
    let mut data = empty_page_data();
    data.title = "page title".to_string();
    data.url = "https://example.com/full-url?test=1".to_string();
    data.search = "?test=1".to_string();
    let event = minimal_event(EventType::Page, Data::Page(data));
    let request = page(event, settings()).unwrap();
    assert!(request.url.contains("&ce_title=page+title"));
    assert!(request
        .url
        .contains("&ce_uri=https://example.com/full-url?test%3D1?test%3D1"));
}

#[test]
fn page_property_keys_are_sanitized_and_prefixed() {
    let mut data = empty_page_data();
    data.properties = vec![("my prop".to_string(), "v".to_string())];
    let event = minimal_event(EventType::Page, Data::Page(data));
    let request = page(event, settings()).unwrap();
    assert!(request.url.contains("&ce_page_my_prop=v"));
}

#[test]
fn page_referrer_sets_referer_scalar() {
    let mut data = empty_page_data();
    data.referrer = "https://example.com/another-page".to_string();
    let event = minimal_event(EventType::Page, Data::Page(data));
    let request = page(event, settings()).unwrap();
    assert!(request
        .url
        .contains("&referer=https://example.com/another-page"));
    assert!(!request.url.contains("&ce_referer="));
}

#[test]
fn settings_duplicate_keys_are_last_write_wins() {
    let event = minimal_event(EventType::Page, Data::Page(empty_page_data()));
    let dict = vec![
        ("project_name".to_string(), "first".to_string()),
        ("project_name".to_string(), "second".to_string()),
    ];
    let request = page(event, dict).unwrap();
    assert!(request.url.contains("?project=second&"));
}

#[test]
fn empty_project_name_is_accepted() {
    let event = minimal_event(EventType::Page, Data::Page(empty_page_data()));
    let dict = vec![("project_name".to_string(), String::new())];
    let request = page(event, dict).unwrap();
    assert!(request.url.contains("?project=&"));
}

#[test]
fn negative_timestamp_renders_with_sign() {
    let mut event = minimal_event(EventType::Page, Data::Page(empty_page_data()));
    event.timestamp = -5;
    let request = page(event, settings()).unwrap();
    assert!(request.url.contains("&timestamp=-5&"));
}

#[test]
fn context_user_ids_and_country_become_visitor_properties() {
    let mut event = minimal_event(EventType::Track, Data::Track(empty_track_data("evt")));
    event.context.user.anonymous_id = "456".to_string();
    event.context.user.user_id = "123".to_string();
    event.context.client.country_code = "FR".to_string();
    event.context.client.ip = "192.168.0.1".to_string();
    let request = track(event, settings()).unwrap();
    assert!(request.url.contains("&cv_anonymous_id=456"));
    assert!(request.url.contains("&cv_user_id=123"));
    assert!(request.url.contains("&cv_country=FR"));
    assert!(request.url.contains("&ip=192.168.0.1"));
}

#[test]
fn colliding_visitor_keys_appear_once_last_write_wins() {
    let mut event = minimal_event(EventType::Page, Data::Page(empty_page_data()));
    event.context.user.properties = vec![
        ("x".to_string(), "1".to_string()),
        ("cv_x".to_string(), "2".to_string()),
    ];
    let request = page(event, settings()).unwrap();
    assert_eq!(request.url.matches("cv_x=").count(), 1);
    assert!(request.url.contains("&cv_x=2"));
    assert!(!request.url.contains("cv_x=1"));
}

#[test]
fn colliding_event_keys_appear_once_last_write_wins() {
    let mut data = empty_track_data("evt");
    data.properties = vec![
        ("prop".to_string(), "a".to_string()),
        ("ce_prop".to_string(), "b".to_string()),
    ];
    let event = minimal_event(EventType::Track, Data::Track(data));
    let request = track(event, settings()).unwrap();
    assert_eq!(request.url.matches("ce_prop=").count(), 1);
    assert!(request.url.contains("&ce_prop=b"));
    assert!(!request.url.contains("ce_prop=a"));
}

#[test]
fn cv_id_scalar_overrides_colliding_visitor_property() {
    let mut data = empty_user_data();
    data.user_id = "123".to_string();
    data.properties = vec![("cv_id".to_string(), "prop".to_string())];
    let event = minimal_event(EventType::User, Data::User(data));
    let request = user(event, settings()).unwrap();
    assert_eq!(
        request.url,
        "https://www.woopra.com/track/identify?project=example.com&cv_id=123"
    );
}

#[test]
fn track_event_name_and_properties_in_query() {
    let mut data = empty_track_data("signup");
    data.properties = vec![("plan".to_string(), "pro".to_string())];
    let event = minimal_event(EventType::Track, Data::Track(data));
    let request = track(event, settings()).unwrap();
    assert!(request.url.contains("&event=signup&"));
    assert!(request.url.contains("&ce_plan=pro"));
}
