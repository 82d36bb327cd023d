use countly::Config;
use countly::Number;
use countly::WireError;
use countly::WireValue;

fn num(x: f64) -> Number {
    Number::from_bits(x.to_bits())
}

fn s(x: &str) -> String {
    x.to_string()
}

#[test]
fn fresh_config_serializes_to_mandatory_fields_only() {
    let c = Config::new("my-app-key", "https://stats.example.com");
    let w = c.serialize().unwrap();
    assert_eq!(
        w,
        vec![
            (s("app_key"), WireValue::Str(s("my-app-key"))),
            (s("url"), WireValue::Str(s("https://stats.example.com"))),
        ]
    );
}

#[test]
fn config_new_sets_documented_defaults() {
    let c = Config::new("k", "u");
    assert_eq!(c.device_id, None);
    assert_eq!(c.app_version, None);
    assert!(!c.debug);
    assert!(c.ignore_bots);
    assert_eq!(c.interval, None);
    assert_eq!(c.queue_size, None);
    assert!(c.ignore_referrers.is_empty());
    assert!(c.ignore_prefetch);
    assert!(!c.force_post);
    assert!(!c.ignore_visitor);
    assert!(!c.require_consent);
    assert!(c.utm.is_empty());
    assert!(c.use_session_cookie);
    assert_eq!(c.session_cookie_timeout, None);
    assert!(!c.remote_config);
    assert!(!c.offline_mode);
    assert_eq!(c.namespace, None);
}

#[test]
fn default_true_flag_sent_only_when_overridden_to_false() {
    let mut c = Config::new("k", "u");
    c.ignore_bots = false;
    let w = c.serialize().unwrap();
    assert_eq!(
        w,
        vec![
            (s("app_key"), WireValue::Str(s("k"))),
            (s("url"), WireValue::Str(s("u"))),
            (s("ignore_bots"), WireValue::Bool(false)),
        ]
    );
}

#[test]
fn default_false_flag_sent_only_when_overridden_to_true() {
    let mut c = Config::new("k", "u");
    c.debug = true;
    c.offline_mode = true;
    let w = c.serialize().unwrap();
    assert_eq!(
        w,
        vec![
            (s("app_key"), WireValue::Str(s("k"))),
            (s("url"), WireValue::Str(s("u"))),
            (s("debug"), WireValue::Bool(true)),
            (s("offline_mode"), WireValue::Bool(true)),
        ]
    );
}

#[test]
fn ignore_referrers_included_verbatim_then_omitted_when_cleared() {
    let mut c = Config::new("k", "u");
    c.ignore_referrers = vec![s("https://a.example"), s("https://b.example")];
    let w = c.serialize().unwrap();
    assert_eq!(
        w,
        vec![
            (s("app_key"), WireValue::Str(s("k"))),
            (s("url"), WireValue::Str(s("u"))),
            (
                s("ignore_referrers"),
                WireValue::List(vec![
                    WireValue::Str(s("https://a.example")),
                    WireValue::Str(s("https://b.example")),
                ])
            ),
        ]
    );
    c.ignore_referrers = Vec::new();
    let w2 = c.serialize().unwrap();
    assert!(w2.iter().all(|(k, _)| k != "ignore_referrers"));
    assert_eq!(
        w2,
        vec![
            (s("app_key"), WireValue::Str(s("k"))),
            (s("url"), WireValue::Str(s("u"))),
        ]
    );
}

#[test]
fn optional_strings_and_numbers_appear_in_field_order() {
    let mut c = Config::new("k", "u");
    c.device_id = Some(s("device-1"));
    c.interval = Some(num(500.0));
    c.queue_size = Some(2000);
    c.namespace = Some(s("shop"));
    let w = c.serialize().unwrap();
    assert_eq!(
        w,
        vec![
            (s("app_key"), WireValue::Str(s("k"))),
            (s("url"), WireValue::Str(s("u"))),
            (s("device_id"), WireValue::Str(s("device-1"))),
            (s("interval"), WireValue::Num(num(500.0))),
            (s("queue_size"), WireValue::UInt(2000)),
            (s("namespace"), WireValue::Str(s("shop"))),
        ]
    );
}

#[test]
fn utm_map_serialized_in_insertion_order_and_omitted_when_empty() {
    let mut c = Config::new("k", "u");
    c.utm = vec![(s("source"), true), (s("medium"), false)];
    let w = c.serialize().unwrap();
    assert_eq!(
        w,
        vec![
            (s("app_key"), WireValue::Str(s("k"))),
            (s("url"), WireValue::Str(s("u"))),
            (
                s("utm"),
                WireValue::Object(vec![
                    (s("source"), WireValue::Bool(true)),
                    (s("medium"), WireValue::Bool(false)),
                ])
            ),
        ]
    );
    c.utm = Vec::new();
    assert!(c.serialize().unwrap().iter().all(|(k, _)| k != "utm"));
}

#[test]
fn non_finite_number_field_is_rejected() {
    let mut c = Config::new("k", "u");
    c.interval = Some(num(f64::NAN));
    assert_eq!(c.serialize(), Err(WireError::NonFiniteNumber));
    c.interval = Some(num(500.0));
    c.fail_timeout = Some(num(f64::INFINITY));
    assert_eq!(c.serialize(), Err(WireError::NonFiniteNumber));
    c.fail_timeout = Some(num(60.0));
    assert!(c.serialize().is_ok());
}

#[test]
fn number_finiteness_follows_the_bit_pattern() {
    assert!(num(0.0).is_finite());
    assert!(num(-12.75).is_finite());
    assert!(num(f64::MAX).is_finite());
    assert!(!num(f64::INFINITY).is_finite());
    assert!(!num(f64::NEG_INFINITY).is_finite());
    assert!(!num(f64::NAN).is_finite());
}
