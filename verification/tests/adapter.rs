use countly::CallbackRef;
use countly::Command;
use countly::Config;
use countly::ConsentFeatures;
use countly::Countly;
use countly::DirectCall;
use countly::ElementRef;
use countly::Number;
use countly::UserDetails;
use countly::Value;
use countly::WireError;
use countly::WireValue;

fn num(x: f64) -> Number {
    Number::from_bits(x.to_bits())
}

fn s(x: &str) -> String {
    x.to_string()
}

fn cmd(parts: Vec<WireValue>) -> Command {
    Command { parts }
}

#[test]
fn pageviews_are_queued_in_call_order() {
    let mut c = Countly::new();
    c.track_pageview_with_name("checkout");
    c.track_pageview();
    assert_eq!(
        c.queue,
        vec![
            cmd(vec![
                WireValue::Str(s("track_pageview")),
                WireValue::Str(s("checkout")),
            ]),
            cmd(vec![WireValue::Str(s("track_pageview"))]),
        ]
    );
    assert!(c.direct.is_empty());
}

#[test]
fn add_event_builds_the_event_object_without_unset_fields() {
    let mut c = Countly::new();
    c.add_event("purchase", 1, Some(25), None, vec![(s("sku"), s("A1"))])
        .unwrap();
    assert_eq!(
        c.queue,
        vec![cmd(vec![
            WireValue::Str(s("add_event")),
            WireValue::Object(vec![
                (s("key"), WireValue::Str(s("purchase"))),
                (s("count"), WireValue::UInt(1)),
                (s("sum"), WireValue::UInt(25)),
                (
                    s("segmentation"),
                    WireValue::Object(vec![(s("sku"), WireValue::Str(s("A1")))])
                ),
            ]),
        ])]
    );
}

#[test]
fn add_event_with_duration_and_empty_segmentation() {
    let mut c = Countly::new();
    c.add_event("load", 2, None, Some(num(1.5)), Vec::new()).unwrap();
    assert_eq!(
        c.queue,
        vec![cmd(vec![
            WireValue::Str(s("add_event")),
            WireValue::Object(vec![
                (s("key"), WireValue::Str(s("load"))),
                (s("count"), WireValue::UInt(2)),
                (s("duration"), WireValue::Num(num(1.5))),
                (s("segmentation"), WireValue::Object(Vec::new())),
            ]),
        ])]
    );
}

#[test]
fn user_data_increment_by_queues_exactly_one_command() {
    let mut c = Countly::new();
    c.user_data_increment_by("score", num(5.0)).unwrap();
    assert_eq!(
        c.queue,
        vec![cmd(vec![
            WireValue::Str(s("userData.increment_by")),
            WireValue::Str(s("score")),
            WireValue::Num(num(5.0)),
        ])]
    );
    assert!(c.direct.is_empty());
    c.user_data_increment_by("score", num(5.0)).unwrap();
    assert_eq!(c.queue.len(), 2);
    assert_eq!(c.queue[0], c.queue[1]);
}

#[test]
fn view_name_callback_registration_overwrites_the_previous_one() {
    let mut c = Countly::new();
    c.set_view_name_callback(CallbackRef { id: 1 });
    c.set_view_name_callback(CallbackRef { id: 2 });
    assert_eq!(c.view_name_getter, Some(CallbackRef { id: 2 }));
    assert_eq!(c.view_url_getter, None);
    assert!(c.queue.is_empty());
    assert!(c.direct.is_empty());
    c.set_view_url_callback(CallbackRef { id: 3 });
    assert_eq!(c.view_name_getter, Some(CallbackRef { id: 2 }));
    assert_eq!(c.view_url_getter, Some(CallbackRef { id: 3 }));
}

#[test]
fn consent_calls_are_direct_and_never_queued() {
    let mut c = Countly::new();
    c.add_consent(vec![s("events"), s("views")]);
    c.remove_consent(vec![s("events")]);
    assert!(c.queue.is_empty());
    assert_eq!(
        c.direct,
        vec![
            DirectCall::AddConsent(vec![s("events"), s("views")]),
            DirectCall::RemoveConsent(vec![s("events")]),
        ]
    );
}

#[test]
fn group_features_and_facebook_collection_are_direct_calls() {
    let mut c = Countly::new();
    c.group_features(vec![(
        s("activity"),
        vec![ConsentFeatures::Sessions, ConsentFeatures::Views],
    )]);
    c.collect_from_facebook(vec![(s("name"), s("/me/name"))]);
    assert!(c.queue.is_empty());
    assert_eq!(
        c.direct,
        vec![
            DirectCall::GroupFeatures(vec![(
                s("activity"),
                vec![ConsentFeatures::Sessions, ConsentFeatures::Views],
            )]),
            DirectCall::CollectFromFacebook(vec![(s("name"), s("/me/name"))]),
        ]
    );
}

#[test]
fn configure_records_the_init_call_with_the_serialized_config() {
    let mut c = Countly::new();
    c.configure(Config::new("k", "u")).unwrap();
    assert!(c.queue.is_empty());
    assert_eq!(
        c.direct,
        vec![DirectCall::Init(vec![
            (s("app_key"), WireValue::Str(s("k"))),
            (s("url"), WireValue::Str(s("u"))),
        ])]
    );
    let mut bad = Config::new("k", "u");
    bad.session_update = Some(num(f64::NAN));
    assert_eq!(c.configure(bad), Err(WireError::NonFiniteNumber));
    assert_eq!(c.direct.len(), 1);
}

#[test]
fn non_finite_numbers_are_rejected_and_leave_no_trace() {
    let mut c = Countly::new();
    assert_eq!(
        c.user_data_increment_by("score", num(f64::NAN)),
        Err(WireError::NonFiniteNumber)
    );
    assert_eq!(
        c.extend_session(num(f64::INFINITY)),
        Err(WireError::NonFiniteNumber)
    );
    assert_eq!(
        c.end_session(Some(num(f64::NAN))),
        Err(WireError::NonFiniteNumber)
    );
    assert_eq!(
        c.add_event("e", 1, None, Some(num(f64::NAN)), Vec::new()),
        Err(WireError::NonFiniteNumber)
    );
    let v = Value::Array(vec![Value::Text(s("ok")), Value::Number(num(f64::NAN))]);
    assert_eq!(c.user_data_set("k", &v), Err(WireError::NonFiniteNumber));
    assert_eq!(c.log_error(&v, None), Err(WireError::NonFiniteNumber));
    assert!(c.queue.is_empty());
    assert!(c.direct.is_empty());
}

#[test]
fn user_data_values_convert_to_nested_wire_shapes() {
    let mut c = Countly::new();
    let v = Value::Array(vec![
        Value::Text(s("tag")),
        Value::Number(num(3.25)),
        Value::Array(vec![Value::Number(num(1.0))]),
    ]);
    c.user_data_set("props", &v).unwrap();
    assert_eq!(
        c.queue,
        vec![cmd(vec![
            WireValue::Str(s("userData.set")),
            WireValue::Str(s("props")),
            WireValue::List(vec![
                WireValue::Str(s("tag")),
                WireValue::Num(num(3.25)),
                WireValue::List(vec![WireValue::Num(num(1.0))]),
            ]),
        ])]
    );
}

#[test]
fn user_data_operations_use_their_own_tags() {
    let mut c = Countly::new();
    c.user_data_set_once("a", &Value::Text(s("x"))).unwrap();
    c.user_data_unset("a");
    c.user_data_increment("b");
    c.user_data_multiply("b", num(2.0)).unwrap();
    c.user_data_max("b", num(9.0)).unwrap();
    c.user_data_min("b", num(1.0)).unwrap();
    c.user_data_push("l", &Value::Text(s("v"))).unwrap();
    c.user_data_push_unique("l", &Value::Text(s("v"))).unwrap();
    c.user_data_pull("l", &Value::Text(s("v"))).unwrap();
    c.user_data_save();
    let tags: Vec<&str> = c
        .queue
        .iter()
        .map(|cm| match &cm.parts[0] {
            WireValue::Str(t) => t.as_str(),
            _ => panic!("command tag must be a string"),
        })
        .collect();
    assert_eq!(
        tags,
        vec![
            "userData.set_once",
            "userData.unset",
            "userData.increment",
            "userData.multiply",
            "userData.max",
            "userData.min",
            "userData.push",
            "userData.push_unique",
            "userData.pull",
            "userData.save",
        ]
    );
}

#[test]
fn element_scoped_commands_carry_the_element_or_null() {
    let mut c = Countly::new();
    c.enable_link_tracking(Some(ElementRef { id: 7 }));
    c.enable_link_tracking(None);
    c.enable_form_submission_tracking(None, true);
    c.enable_form_submission_tracking(Some(ElementRef { id: 9 }), false);
    c.enable_form_data_collection(None, true);
    assert_eq!(
        c.queue,
        vec![
            cmd(vec![WireValue::Str(s("track_links")), WireValue::Element(7)]),
            cmd(vec![WireValue::Str(s("track_links"))]),
            cmd(vec![
                WireValue::Str(s("track_forms")),
                WireValue::Null,
                WireValue::Bool(true),
            ]),
            cmd(vec![
                WireValue::Str(s("track_forms")),
                WireValue::Element(9),
                WireValue::Bool(false),
            ]),
            cmd(vec![
                WireValue::Str(s("collect_from_forms")),
                WireValue::Null,
                WireValue::Bool(true),
            ]),
        ]
    );
}

#[test]
fn session_commands_follow_the_heartbeat_and_duration_arguments() {
    let mut c = Countly::new();
    c.enable_session_tracking();
    c.begin_session(true);
    c.begin_session(false);
    c.extend_session(num(30.0)).unwrap();
    c.end_session(Some(num(12.0))).unwrap();
    c.end_session(None).unwrap();
    assert_eq!(
        c.queue,
        vec![
            cmd(vec![WireValue::Str(s("track_sessions"))]),
            cmd(vec![WireValue::Str(s("begin_session")), WireValue::Bool(true)]),
            cmd(vec![WireValue::Str(s("begin_session"))]),
            cmd(vec![
                WireValue::Str(s("session_duration")),
                WireValue::Num(num(30.0)),
            ]),
            cmd(vec![WireValue::Str(s("end_session")), WireValue::Num(num(12.0))]),
            cmd(vec![WireValue::Str(s("end_session"))]),
        ]
    );
}

#[test]
fn misc_commands_build_their_documented_tuples() {
    let mut c = Countly::new();
    c.opt_in();
    c.opt_out();
    c.enable_conversion_reporting(Some("campaign-1"));
    c.enable_conversion_reporting(None);
    c.start_event("load");
    c.end_event("load");
    c.add_log("clicked buy");
    c.change_device_id("user-42", true);
    c.enable_offline_mode();
    c.disable_offline_mode(Some("user-42"));
    c.disable_offline_mode(None);
    assert_eq!(
        c.queue,
        vec![
            cmd(vec![WireValue::Str(s("opt_in"))]),
            cmd(vec![WireValue::Str(s("opt_out"))]),
            cmd(vec![
                WireValue::Str(s("report_conversion")),
                WireValue::Str(s("campaign-1")),
            ]),
            cmd(vec![WireValue::Str(s("report_conversion"))]),
            cmd(vec![WireValue::Str(s("start_event")), WireValue::Str(s("load"))]),
            cmd(vec![WireValue::Str(s("end_event")), WireValue::Str(s("load"))]),
            cmd(vec![WireValue::Str(s("add_log")), WireValue::Str(s("clicked buy"))]),
            cmd(vec![
                WireValue::Str(s("change_id")),
                WireValue::Str(s("user-42")),
                WireValue::Bool(true),
            ]),
            cmd(vec![WireValue::Str(s("enable_offline_mode"))]),
            cmd(vec![
                WireValue::Str(s("disable_offline_mode")),
                WireValue::Str(s("user-42")),
            ]),
            cmd(vec![WireValue::Str(s("disable_offline_mode"))]),
        ]
    );
}

#[test]
fn pageview_filters_are_passed_as_lists() {
    let mut c = Countly::new();
    c.track_pageview_with_filter(&vec![s("/admin/.*")]);
    c.track_pageview_with_name_and_filter("home", &vec![s("/internal")]);
    c.enable_track_errors(Some(vec![(s("build"), s("42"))]));
    c.enable_track_errors(None);
    c.log_error(&Value::Text(s("boom")), Some(vec![(s("page"), s("cart"))]))
        .unwrap();
    c.log_error(&Value::Text(s("boom")), None).unwrap();
    assert_eq!(
        c.queue,
        vec![
            cmd(vec![
                WireValue::Str(s("track_pageview")),
                WireValue::List(vec![WireValue::Str(s("/admin/.*"))]),
            ]),
            cmd(vec![
                WireValue::Str(s("track_pageview")),
                WireValue::Str(s("home")),
                WireValue::List(vec![WireValue::Str(s("/internal"))]),
            ]),
            cmd(vec![
                WireValue::Str(s("track_errors")),
                WireValue::Object(vec![(s("build"), WireValue::Str(s("42")))]),
            ]),
            cmd(vec![WireValue::Str(s("track_errors"))]),
            cmd(vec![
                WireValue::Str(s("log_error")),
                WireValue::Str(s("boom")),
                WireValue::Object(vec![(s("page"), WireValue::Str(s("cart")))]),
            ]),
            cmd(vec![WireValue::Str(s("log_error")), WireValue::Str(s("boom"))]),
        ]
    );
}

#[test]
fn user_details_omit_empty_fields() {
    let mut c = Countly::new();
    let mut d = UserDetails::default();
    d.name = s("Alex Doe");
    d.email = s("alex@example.com");
    d.byear = Some(1990);
    d.custom = vec![(s("plan"), s("pro"))];
    c.set_user_details(&d);
    c.set_user_details(&UserDetails::default());
    assert_eq!(
        c.queue,
        vec![
            cmd(vec![
                WireValue::Str(s("user_details")),
                WireValue::Object(vec![
                    (s("name"), WireValue::Str(s("Alex Doe"))),
                    (s("email"), WireValue::Str(s("alex@example.com"))),
                    (s("byear"), WireValue::UInt(1990)),
                    (
                        s("custom"),
                        WireValue::Object(vec![(s("plan"), WireValue::Str(s("pro")))])
                    ),
                ]),
            ]),
            cmd(vec![
                WireValue::Str(s("user_details")),
                WireValue::Object(Vec::new()),
            ]),
        ]
    );
}

#[test]
fn consent_features_map_to_their_wire_identifiers() {
    assert_eq!(ConsentFeatures::Sessions.as_str(), "sessions");
    assert_eq!(ConsentFeatures::Events.as_str(), "events");
    assert_eq!(ConsentFeatures::Views.as_str(), "views");
    assert_eq!(ConsentFeatures::Scrolls.as_str(), "scrolls");
    assert_eq!(ConsentFeatures::Clicks.as_str(), "clicks");
    assert_eq!(ConsentFeatures::Forms.as_str(), "forms");
    assert_eq!(ConsentFeatures::Crashes.as_str(), "crashes");
    assert_eq!(ConsentFeatures::Attribution.as_str(), "attribution");
    assert_eq!(ConsentFeatures::Users.as_str(), "users");
    assert_eq!(ConsentFeatures::StarRating.as_str(), "star-rating");
    assert_eq!(ConsentFeatures::Location.as_str(), "location");
}

#[test]
fn value_finiteness_is_checked_recursively() {
    assert!(Value::Text(s("x")).is_finite());
    assert!(Value::Number(num(1.0)).is_finite());
    assert!(!Value::Number(num(f64::NAN)).is_finite());
    assert!(Value::Array(vec![Value::Number(num(1.0))]).is_finite());
    assert!(
        !Value::Array(vec![Value::Array(vec![Value::Number(num(f64::INFINITY))])]).is_finite()
    );
}
