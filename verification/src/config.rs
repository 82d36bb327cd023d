//! The typed configuration record consumed once, at initialization, by the
//! analytics engine.
//!
//! The serialized form follows a strict omission convention (see
//! [`config_wire`]): a field still holding its default is left out entirely,
//! so the engine applies its own default instead of receiving an explicit
//! empty override. An explicitly overridden boolean is always sent.

use vstd::prelude::*;

use crate::wire::bool_map_entry;
use crate::wire::entry_seq_model;
use crate::wire::flag_entry;
use crate::wire::lemma_entry_seq_model_concat;
use crate::wire::opt_num_entry;
use crate::wire::opt_num_finite;
use crate::wire::opt_num_is_finite;
use crate::wire::opt_str_entry;
use crate::wire::opt_u32_entry;
use crate::wire::push_bool_map_entry;
use crate::wire::push_flag_entry;
use crate::wire::push_opt_num_entry;
use crate::wire::push_opt_str_entry;
use crate::wire::push_opt_u32_entry;
use crate::wire::push_str_entry;
use crate::wire::push_str_list_entry;
use crate::wire::str_entry;
use crate::wire::str_list_entry;
use crate::wire::str_list_model;
use crate::wire::Number;
use crate::wire::SpecValue;
use crate::wire::WireError;
use crate::wire::WireValue;

verus! {

/// The engine configuration: two mandatory fields and the optional overrides
/// the engine understands. A field left at its default is omitted from the
/// serialized form.
#[derive(Debug)]
pub struct Config {
    /// mandatory, the application key created on the analytics server
    pub app_key: String,
    /// mandatory, the analytics server url
    pub url: String,
    /// identifies a visitor; generated by the engine if not provided
    pub device_id: Option<String>,
    /// the version of the app or site
    pub app_version: Option<String>,
    /// country code of the visitor
    pub country_code: Option<String>,
    /// name of the visitor's city
    pub city: Option<String>,
    /// ip address of the visitor
    pub ip_address: Option<String>,
    /// output debug info onto the console (default: false)
    pub debug: bool,
    /// ignore traffic from bots (default: true)
    pub ignore_bots: bool,
    /// how often, in milliseconds, to look for data to report (engine default)
    pub interval: Option<Number>,
    /// maximum amount of queued requests to store (engine default)
    pub queue_size: Option<u32>,
    /// seconds to wait after a failed connection to the server (engine default)
    pub fail_timeout: Option<Number>,
    /// minutes without user actions before the visitor counts as inactive
    pub inactivity_time: Option<Number>,
    /// how often, in seconds, the session should be extended (engine default)
    pub session_update: Option<Number>,
    /// maximum amount of events to send in one batch (engine default)
    pub max_events: Option<u32>,
    /// maximum amount of breadcrumbs to store for crash logs (engine default)
    pub max_logs: Option<u32>,
    /// referrers to ignore (default: none)
    pub ignore_referrers: Vec<String>,
    /// ignore prefetching and pre-rendering as real visits (default: true)
    pub ignore_prefetch: bool,
    /// force the post method for all requests (default: false)
    pub force_post: bool,
    /// ignore the current visitor (default: false)
    pub ignore_visitor: bool,
    /// run no feature without proper consent (default: false)
    pub require_consent: bool,
    /// which UTM parameters to track (engine default when empty)
    pub utm: Vec<(String, bool)>,
    /// use a cookie to track the session (default: true)
    pub use_session_cookie: bool,
    /// minutes until the session cookie expires (engine default)
    pub session_cookie_timeout: Option<Number>,
    /// fetch remote configuration automatically (default: false)
    pub remote_config: bool,
    /// collect data but delay sending it to the server (default: false)
    pub offline_mode: bool,
    /// storage namespace, to keep several trackers on one domain apart
    pub namespace: Option<String>,
}

/// The entries contributed by the fields before the ignored-referrers list,
/// in wire order.
pub open spec fn wire_head(c: Config) -> Seq<(Seq<char>, SpecValue)> {
    str_entry("app_key"@, c.app_key@) + str_entry("url"@, c.url@) + opt_str_entry(
        "device_id"@,
        c.device_id,
    ) + opt_str_entry("app_version"@, c.app_version) + opt_str_entry(
        "country_code"@,
        c.country_code,
    ) + opt_str_entry("city"@, c.city) + opt_str_entry("ip_address"@, c.ip_address) + flag_entry(
        "debug"@,
        c.debug,
        false,
    ) + flag_entry("ignore_bots"@, c.ignore_bots, true) + opt_num_entry("interval"@, c.interval)
        + opt_u32_entry("queue_size"@, c.queue_size) + opt_num_entry("fail_timeout"@, c.fail_timeout)
        + opt_num_entry("inactivity_time"@, c.inactivity_time) + opt_num_entry(
        "session_update"@,
        c.session_update,
    ) + opt_u32_entry("max_events"@, c.max_events) + opt_u32_entry("max_logs"@, c.max_logs)
}

/// The entry contributed by the ignored-referrers list: the list verbatim,
/// in insertion order, or nothing when it is empty.
pub open spec fn wire_referrers(c: Config) -> Seq<(Seq<char>, SpecValue)> {
    str_list_entry("ignore_referrers"@, c.ignore_referrers@)
}

/// The entries contributed by the fields after the ignored-referrers list,
/// in wire order.
pub open spec fn wire_tail(c: Config) -> Seq<(Seq<char>, SpecValue)> {
    flag_entry("ignore_prefetch"@, c.ignore_prefetch, true) + flag_entry(
        "force_post"@,
        c.force_post,
        false,
    ) + flag_entry("ignore_visitor"@, c.ignore_visitor, false) + flag_entry(
        "require_consent"@,
        c.require_consent,
        false,
    ) + bool_map_entry("utm"@, c.utm@) + flag_entry(
        "use_session_cookie"@,
        c.use_session_cookie,
        true,
    ) + opt_num_entry("session_cookie_timeout"@, c.session_cookie_timeout) + flag_entry(
        "remote_config"@,
        c.remote_config,
        false,
    ) + flag_entry("offline_mode"@, c.offline_mode, false) + opt_str_entry(
        "namespace"@,
        c.namespace,
    )
}

/// The serialized form of a configuration: every field in declaration order,
/// each contributing its entry or nothing, under the omission convention.
pub open spec fn config_wire(c: Config) -> Seq<(Seq<char>, SpecValue)> {
    wire_head(c) + wire_referrers(c) + wire_tail(c)
}

impl Config {
    /// Every optional field unset, every list empty and every flag at its
    /// default, as a fresh configuration leaves them.
    pub open spec fn spec_defaults(self) -> bool {
        &&& self.device_id is None
        &&& self.app_version is None
        &&& self.country_code is None
        &&& self.city is None
        &&& self.ip_address is None
        &&& self.debug == false
        &&& self.ignore_bots == true
        &&& self.interval is None
        &&& self.queue_size is None
        &&& self.fail_timeout is None
        &&& self.inactivity_time is None
        &&& self.session_update is None
        &&& self.max_events is None
        &&& self.max_logs is None
        &&& self.ignore_referrers@.len() == 0
        &&& self.ignore_prefetch == true
        &&& self.force_post == false
        &&& self.ignore_visitor == false
        &&& self.require_consent == false
        &&& self.utm@.len() == 0
        &&& self.use_session_cookie == true
        &&& self.session_cookie_timeout is None
        &&& self.remote_config == false
        &&& self.offline_mode == false
        &&& self.namespace is None
    }

    /// Every number field that is set is finite, so the whole record is
    /// representable on the wire.
    pub open spec fn spec_finite(self) -> bool {
        &&& opt_num_finite(self.interval)
        &&& opt_num_finite(self.fail_timeout)
        &&& opt_num_finite(self.inactivity_time)
        &&& opt_num_finite(self.session_update)
        &&& opt_num_finite(self.session_cookie_timeout)
    }

    /// Returns a configuration with the mandatory fields set and everything
    /// else at its default.
    pub fn new(app_key: &str, url: &str) -> (c: Config)
        ensures
            c.app_key@ == app_key@,
            c.url@ == url@,
            c.spec_defaults(),
    {
        Config {
            app_key: app_key.to_owned(),
            url: url.to_owned(),
            device_id: None,
            app_version: None,
            country_code: None,
            city: None,
            ip_address: None,
            debug: false,
            ignore_bots: true,
            interval: None,
            queue_size: None,
            fail_timeout: None,
            inactivity_time: None,
            session_update: None,
            max_events: None,
            max_logs: None,
            ignore_referrers: Vec::new(),
            ignore_prefetch: true,
            force_post: false,
            ignore_visitor: false,
            require_consent: false,
            utm: Vec::new(),
            use_session_cookie: true,
            session_cookie_timeout: None,
            remote_config: false,
            offline_mode: false,
            namespace: None,
        }
    }

    /// Serializes the configuration into its wire object, or rejects it when
    /// a number field holds a value the wire shape cannot represent.
    pub fn serialize(&self) -> (r: Result<Vec<(String, WireValue)>, WireError>)
        ensures
            self.spec_finite() <==> r is Ok,
            r matches Ok(w) ==> entry_seq_model(w@) == config_wire(*self),
            r matches Err(e) ==> e == WireError::NonFiniteNumber,
    {
        if !(opt_num_is_finite(&self.interval) && opt_num_is_finite(&self.fail_timeout)
            && opt_num_is_finite(&self.inactivity_time) && opt_num_is_finite(&self.session_update)
            && opt_num_is_finite(&self.session_cookie_timeout)) {
            return Err(WireError::NonFiniteNumber);
        }
        let mut out: Vec<(String, WireValue)> = Vec::new();
        push_str_entry(&mut out, "app_key", &self.app_key);
        proof {
            assert(entry_seq_model(out@) =~= str_entry("app_key"@, self.app_key@));
        }
        push_str_entry(&mut out, "url", &self.url);
        push_opt_str_entry(&mut out, "device_id", &self.device_id);
        push_opt_str_entry(&mut out, "app_version", &self.app_version);
        push_opt_str_entry(&mut out, "country_code", &self.country_code);
        push_opt_str_entry(&mut out, "city", &self.city);
        push_opt_str_entry(&mut out, "ip_address", &self.ip_address);
        push_flag_entry(&mut out, "debug", self.debug, false);
        push_flag_entry(&mut out, "ignore_bots", self.ignore_bots, true);
        push_opt_num_entry(&mut out, "interval", &self.interval);
        push_opt_u32_entry(&mut out, "queue_size", &self.queue_size);
        push_opt_num_entry(&mut out, "fail_timeout", &self.fail_timeout);
        push_opt_num_entry(&mut out, "inactivity_time", &self.inactivity_time);
        push_opt_num_entry(&mut out, "session_update", &self.session_update);
        push_opt_u32_entry(&mut out, "max_events", &self.max_events);
        push_opt_u32_entry(&mut out, "max_logs", &self.max_logs);
        assert(entry_seq_model(out@) == wire_head(*self));
        push_str_list_entry(&mut out, "ignore_referrers", &self.ignore_referrers);
        assert(entry_seq_model(out@) == wire_head(*self) + wire_referrers(*self));
        let mut tail: Vec<(String, WireValue)> = Vec::new();
        push_flag_entry(&mut tail, "ignore_prefetch", self.ignore_prefetch, true);
        proof {
            assert(entry_seq_model(tail@) =~= flag_entry("ignore_prefetch"@, self.ignore_prefetch, true));
        }
        push_flag_entry(&mut tail, "force_post", self.force_post, false);
        push_flag_entry(&mut tail, "ignore_visitor", self.ignore_visitor, false);
        push_flag_entry(&mut tail, "require_consent", self.require_consent, false);
        push_bool_map_entry(&mut tail, "utm", &self.utm);
        push_flag_entry(&mut tail, "use_session_cookie", self.use_session_cookie, true);
        push_opt_num_entry(&mut tail, "session_cookie_timeout", &self.session_cookie_timeout);
        push_flag_entry(&mut tail, "remote_config", self.remote_config, false);
        push_flag_entry(&mut tail, "offline_mode", self.offline_mode, false);
        push_opt_str_entry(&mut tail, "namespace", &self.namespace);
        assert(entry_seq_model(tail@) == wire_tail(*self));
        let ghost gout = out@;
        let ghost gtail = tail@;
        let mut tail_moved = tail;
        out.append(&mut tail_moved);
        proof {
            lemma_entry_seq_model_concat(gout, gtail);
            assert(entry_seq_model(out@) == config_wire(*self));
        }
        Ok(out)
    }
}

/// A freshly constructed configuration serializes to exactly the two
/// mandatory entries: unset options, empty collections and flags still at
/// their defaults are all omitted.
pub proof fn lemma_fresh_config_wire(c: Config)
    requires
        c.spec_defaults(),
    ensures
        config_wire(c) == seq![
            ("app_key"@, SpecValue::Str(c.app_key@)),
            ("url"@, SpecValue::Str(c.url@)),
        ],
{
    assert(config_wire(c) =~= seq![
        ("app_key"@, SpecValue::Str(c.app_key@)),
        ("url"@, SpecValue::Str(c.url@)),
    ]);
}

/// Setting the ignored-referrers list to a non-empty value contributes
/// exactly one entry holding that list verbatim, in insertion order, right
/// after the head entries; setting it back to empty removes exactly that
/// entry and nothing else.
pub proof fn lemma_ignore_referrers_entry(c: Config, with_rs: Config, without_rs: Config)
    requires
        with_rs.ignore_referrers@.len() > 0,
        with_rs == (Config { ignore_referrers: with_rs.ignore_referrers, ..c }),
        without_rs.ignore_referrers@.len() == 0,
        without_rs == (Config { ignore_referrers: without_rs.ignore_referrers, ..c }),
    ensures
        config_wire(with_rs) == wire_head(c) + seq![
            ("ignore_referrers"@, SpecValue::List(str_list_model(with_rs.ignore_referrers@))),
        ] + wire_tail(c),
        config_wire(with_rs)[wire_head(c).len() as int] == (
            "ignore_referrers"@,
            SpecValue::List(str_list_model(with_rs.ignore_referrers@)),
        ),
        config_wire(without_rs) == wire_head(c) + wire_tail(c),
{
    assert(wire_head(with_rs) == wire_head(c));
    assert(wire_tail(with_rs) == wire_tail(c));
    assert(wire_head(without_rs) == wire_head(c));
    assert(wire_tail(without_rs) == wire_tail(c));
    assert(config_wire(without_rs) =~= wire_head(c) + wire_tail(c));
    assert(config_wire(with_rs)[wire_head(c).len() as int] == (
        "ignore_referrers"@,
        SpecValue::List(str_list_model(with_rs.ignore_referrers@)),
    ));
}

} // verus!
