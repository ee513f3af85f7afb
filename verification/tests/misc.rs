use enceladus::endpoint::helpers::Status;
use enceladus::endpoint::meta::meta_body;
use enceladus::endpoint::oauth::{
    callback_parameters, callback_url, new_user, oauth, remembered_user, InvalidCookie,
};
use enceladus::fairing::feature_filter::{feature, is_among, split};
use enceladus::fairing::feature_filter::FeatureFilter;
use enceladus::fairing::json::{filter, filter_array, filter_object, Field, Json};
use enceladus::reddit::scope::Scope;
use enceladus::reddit::{address, Reddit, UrlError};
use enceladus::telemetry::request_log::{Method, RequestLogEntry, Telemetry};
use enceladus::telemetry::{log_sent_message, RequestTimer};
use std::collections::HashMap;

#[test]
fn returns_auth_data() {
    // The exact callback URL is irrelevant,
    // it just has to be valid (enforced by the URL crate).
    let client_redirect =
        callback_url("https://example.com", 12, "some one", "en", "a.b.c").expect("the callback is valid");

    // Confirm valid data on the client's perspective.
    let response_url = reqwest::Url::parse(&client_redirect).expect("the redirect is valid");
    let auth_data: HashMap<_, _> = response_url.query_pairs().collect();

    // Ensure the appropriate keys are present.
    assert_eq!(auth_data.len(), 4);
    assert!(auth_data.contains_key("user_id"));
    assert!(auth_data.contains_key("username"));
    assert!(auth_data.contains_key("lang"));
    assert!(auth_data.contains_key("token"));
    assert_eq!(auth_data["user_id"], "12");
    assert_eq!(auth_data["username"], "some one");
    assert_eq!(auth_data["lang"], "en");
    assert_eq!(auth_data["token"], "a.b.c");
    assert_eq!(
        client_redirect,
        "https://example.com/?user_id=12&username=some+one&lang=en&token=a.b.c"
    );
}

#[test]
fn a_callback_must_be_an_address() {
    assert_eq!(callback_url("not an address", 1, "a", "b", "c"), Err(UrlError));
    assert_eq!(callback_url("", 1, "a", "b", "c"), Err(UrlError));
    assert_eq!(
        callback_url("https://example.com/path?x=1", -1, "a", "b", "c"),
        Ok("https://example.com/path?x=1&user_id=-1&username=a&lang=b&token=c".to_owned())
    );
}

#[test]
fn signing_in() {
    const SCOPES: [Scope; 1] = [Scope::Identity];
    let reddit = Reddit::from_parts("https://example.com/cb", "agent", "client", "secret", true, &SCOPES);
    assert_eq!(
        oauth(&reddit, Some((3, "name", "en", "tok")), "https://app.example"),
        Ok("https://app.example/?user_id=3&username=name&lang=en&token=tok".to_owned())
    );
    assert_eq!(oauth(&reddit, None, "https://app.example"), reddit.get_auth_url("https://app.example"));
    assert_eq!(oauth(&reddit, Some((3, "name", "en", "tok")), "nowhere"), Err(UrlError));
}

#[test]
fn remembered_users() {
    assert_eq!(remembered_user(None), Ok(None));
    assert_eq!(remembered_user(Some("15")), Ok(Some(15)));
    assert_eq!(remembered_user(Some("-15")), Ok(Some(-15)));
    assert_eq!(remembered_user(Some("")), Err(InvalidCookie));
    assert_eq!(remembered_user(Some("abc")), Err(InvalidCookie));
}

#[test]
fn new_users_have_no_rights() {
    let row = new_user("name".to_owned(), "en".to_owned(), vec![1], vec![2], 99);
    assert_eq!(row.reddit_username, "name");
    assert_eq!(row.lang, "en");
    assert_eq!(row.refresh_token, vec![1]);
    assert_eq!(row.access_token, vec![2]);
    assert_eq!(row.access_token_expires_at_utc, 99);
    assert!(!row.is_global_admin);
    assert!(!row.spacex__is_admin);
    assert!(!row.spacex__is_mod);
    assert!(!row.spacex__is_slack_member);
}

fn features(query: &str) -> Vec<String> {
    FeatureFilter::features(query)
}

#[test]
fn features_of_a_query() {
    assert_eq!(features(""), vec![""]);
    assert_eq!(features("spacex"), vec!["spacex"]);
    assert_eq!(features("SpaceX,Space"), vec!["spacex", "space"]);
    assert_eq!(features("a,,b,"), vec!["a", "", "b", ""]);
    assert_eq!(features(","), vec!["", ""]);
    assert_eq!(features("\u{c9}t\u{e9}"), vec!["\u{e9}t\u{e9}"]);
}

#[test]
fn hidden_fields() {
    let none = features("");
    let spacex = features("SpaceX");
    assert!(FeatureFilter::hides("spacex__is_admin", &none));
    assert!(!FeatureFilter::hides("spacex__is_admin", &spacex));
    assert!(!FeatureFilter::hides("SPACEX__is_admin", &spacex));
    assert!(FeatureFilter::hides("space__t0", &spacex));
    assert!(!FeatureFilter::hides("space__t0", &features("spacex,space")));
    // Keys without two consecutive underscores belong to no feature.
    assert!(!FeatureFilter::hides("id", &none));
    assert!(!FeatureFilter::hides("in_thread_id", &none));
    assert!(!FeatureFilter::hides("", &none));
    assert!(!FeatureFilter::hides("_", &none));
    assert!(!FeatureFilter::hides("a_b_c_", &none));
    // Only what comes before the first two underscores counts.
    assert!(!FeatureFilter::hides("spacex__a__b", &spacex));
    assert!(FeatureFilter::hides("a__spacex__b", &spacex));
    assert!(!FeatureFilter::hides("a_b__c", &features("a_b")));
    assert!(FeatureFilter::hides("a_b__c", &features("a")));
    assert!(!FeatureFilter::hides("a___b", &features("a")));
    // A key that begins with the underscores belongs to the feature without a name,
    // which a query without features asks for.
    assert!(!FeatureFilter::hides("__x", &none));
    assert!(FeatureFilter::hides("__x", &spacex));
    assert_eq!(FeatureFilter::fairing(), FeatureFilter::default());
}

#[test]
fn log_lines() {
    assert_eq!(
        log_sent_message(120, 3, 4567),
        "Sent WebSocket message (120 bytes) to 3 clients in 4567\u{b5}s"
    );
    assert_eq!(
        log_sent_message(0, 0, 0),
        "Sent WebSocket message (0 bytes) to 0 clients in 0\u{b5}s"
    );
}

#[test]
fn request_timers() {
    assert_eq!(RequestTimer::end(), RequestTimer(None));
    assert_eq!(RequestTimer::began_at(5), RequestTimer(Some(5)));
    assert_eq!(*RequestTimer::began_at(5).deref(), Some(5));
    let begun = RequestTimer::begin();
    assert!(begun.0.expect("the timer began") > 1_700_000_000_000_000);
}

fn entry(method: Method, status: Status) -> RequestLogEntry {
    RequestLogEntry {
        method,
        uri: "/example/path".to_owned(),
        status,
        body_size: 4_092,
        duration: 32_768,
        start_time: 0,
    }
}

#[test]
fn request_log() {
    let mut telemetry = Telemetry::default();
    assert_eq!(telemetry.reset(), vec![]);
    telemetry.on_response(entry(Method::Get, Status::Success));
    telemetry.on_response(entry(Method::Get, Status::NotFound));
    telemetry.on_response(entry(Method::Options, Status::Success));
    telemetry.on_response(entry(Method::Options, Status::NotFound));
    telemetry.on_response(entry(Method::Post, Status::InternalServerError));
    assert_eq!(
        telemetry.reset(),
        vec![entry(Method::Get, Status::Success), entry(Method::Post, Status::InternalServerError)]
    );
    assert_eq!(telemetry.reset(), vec![]);
}

fn field(key: &str, value: Json) -> Field {
    Field { key: key.to_owned(), value }
}

fn number(n: i64) -> Json {
    Json::Number(n.to_string())
}

fn text(text: &str) -> Json {
    Json::Text(text.to_owned())
}

#[test]
fn hidden_fields_leave_a_body() {
    let thread = Json::Object(vec![
        field("id", number(1)),
        field("space__t0", number(5)),
        field("spacex__api_id", text("abc")),
        field(
            "created_by_user",
            Json::Object(vec![
                field("id", number(2)),
                field("spacex__is_admin", Json::Bool(true)),
                field("lang", text("en")),
            ]),
        ),
        field(
            "sections",
            Json::Array(vec![
                Json::Object(vec![field("id", number(3)), field("x__y", Json::Null)]),
                Json::Array(vec![Json::Object(vec![field("a__b", Json::Null)])]),
                number(7),
            ]),
        ),
        field("hidden__object", Json::Object(vec![field("id", number(9))])),
    ]);

    let bare = Json::Object(vec![
        field("id", number(1)),
        field("created_by_user", Json::Object(vec![field("id", number(2)), field("lang", text("en"))])),
        field(
            "sections",
            Json::Array(vec![
                Json::Object(vec![field("id", number(3))]),
                Json::Array(vec![Json::Object(vec![])]),
                number(7),
            ]),
        ),
    ]);
    assert_eq!(filter(&thread, &features("")), bare);
    assert_eq!(FeatureFilter::fairing().on_response(&thread, &features("")), bare);

    let with_space = filter(&thread, &features("Space,hidden"));
    match &with_space {
        Json::Object(fields) => {
            let keys: Vec<&str> = fields.iter().map(|field| field.key.as_str()).collect();
            assert_eq!(keys, vec!["id", "space__t0", "created_by_user", "sections", "hidden__object"]);
        }
        _ => unreachable!(),
    }

    // Everything is shown to who asks for everything.
    assert_eq!(filter(&thread, &features("space,spacex,x,a,hidden")), thread);
}

#[test]
fn values_without_fields_stay() {
    let none = features("");
    assert_eq!(filter(&Json::Null, &none), Json::Null);
    assert_eq!(filter(&Json::Bool(true), &none), Json::Bool(true));
    assert_eq!(filter(&number(5), &none), number(5));
    assert_eq!(filter(&text("a__b"), &none), text("a__b"));
    assert_eq!(filter(&Json::Array(vec![]), &none), Json::Array(vec![]));
    assert_eq!(filter_array(&vec![text("a__b"), Json::Null], &none), vec![text("a__b"), Json::Null]);
    assert_eq!(
        filter_object(&vec![field("a__b", Json::Null), field("c", Json::Null)], &none),
        vec![field("c", Json::Null)]
    );
}

#[test]
fn pieces_between_commas() {
    assert_eq!(split(""), vec![""]);
    assert_eq!(split("a"), vec!["a"]);
    assert_eq!(split("A,b"), vec!["A", "b"]);
    assert_eq!(split(",,"), vec!["", "", ""]);
    assert_eq!(split("a, b"), vec!["a", " b"]);
}

#[test]
fn features_of_keys() {
    assert_eq!(feature("spacex__is_admin"), Some("spacex".to_owned()));
    assert_eq!(feature("SpaceX__is_admin"), Some("SpaceX".to_owned()));
    assert_eq!(feature("a_b__c__d"), Some("a_b".to_owned()));
    assert_eq!(feature("__x"), Some("".to_owned()));
    assert_eq!(feature("x__"), Some("x".to_owned()));
    assert_eq!(feature("a___b"), Some("a".to_owned()));
    assert_eq!(feature("__"), Some("".to_owned()));
    assert_eq!(feature("in_thread_id"), None);
    assert_eq!(feature("_"), None);
    assert_eq!(feature(""), None);
    assert_eq!(feature("trailing_"), None);
}

#[test]
fn names_among_names() {
    let names = vec!["a".to_owned(), "".to_owned(), "abc".to_owned()];
    assert!(is_among("a", &names));
    assert!(is_among("", &names));
    assert!(is_among("abc", &names));
    assert!(!is_among("ab", &names));
    assert!(!is_among("a", &vec![]));
}

#[test]
fn the_body_of_meta() {
    assert_eq!(
        meta_body("\"1.2.3\"", "\"1\"", "null"),
        "{\"repository\":null,\"version\":\"1.2.3\",\"version_major\":\"1\"}"
    );
}

#[test]
fn parameters_of_addresses() {
    assert_eq!(
        callback_parameters(-4, "name", "en", "tok"),
        vec![
            ("user_id".to_owned(), "-4".to_owned()),
            ("username".to_owned(), "name".to_owned()),
            ("lang".to_owned(), "en".to_owned()),
            ("token".to_owned(), "tok".to_owned()),
        ]
    );
    const SCOPES: [Scope; 3] = [Scope::Identity, Scope::Edit, Scope::WikiRead];
    let reddit = Reddit::from_parts("uri", "agent", "client", "secret", false, &SCOPES);
    assert_eq!(
        reddit.auth_params("back"),
        vec![
            ("response_type".to_owned(), "code".to_owned()),
            ("client_id".to_owned(), "client".to_owned()),
            ("state".to_owned(), "back".to_owned()),
            ("redirect_uri".to_owned(), "uri".to_owned()),
            ("duration".to_owned(), "temporary".to_owned()),
            ("scope".to_owned(), "identity edit wikiread".to_owned()),
        ]
    );
    let none = Reddit::from_parts("uri", "agent", "client", "secret", true, &[]);
    assert_eq!(none.auth_params("back")[4], ("duration".to_owned(), "permanent".to_owned()));
    assert_eq!(none.auth_params("back")[5], ("scope".to_owned(), "".to_owned()));
    let one = [Scope::Vote];
    let single = Reddit::from_parts("uri", "agent", "client", "secret", true, &one);
    assert_eq!(single.auth_params("back")[5], ("scope".to_owned(), "vote".to_owned()));
    assert_eq!(address(Some("x".to_owned())), Ok("x".to_owned()));
    assert_eq!(address(None), Err(UrlError));
}
