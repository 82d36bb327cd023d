//! The command adapter: typed operations, each appending exactly one command
//! tuple to the engine's shared command queue or making one direct
//! synchronous call against the engine's static surface.
//!
//! The engine owns all real machinery (queue draining, batching, network
//! transport, session timers). The adapter is a producer-only client: the
//! [`Countly`] value records, in order, everything handed to the engine —
//! the commands appended to the shared queue, the direct synchronous calls,
//! and the current getter-callback registrations — so the host layer that
//! owns the real engine bindings forwards each new entry as it is produced,
//! and every guarantee proved here is about exactly that hand-off sequence.

use vstd::prelude::*;

use crate::gdpr::ConsentFeatures;
use crate::wire::entry_seq_model;
use crate::wire::lemma_wire_seq_model;
use crate::wire::nonempty_str_entry;
use crate::wire::nonempty_str_map_entry;
use crate::wire::opt_num_entry;
use crate::wire::opt_num_finite;
use crate::wire::opt_num_is_finite;
use crate::wire::opt_u32_entry;
use crate::wire::push_nonempty_str_entry;
use crate::wire::push_nonempty_str_map_entry;
use crate::wire::push_opt_num_entry;
use crate::wire::push_opt_u32_entry;
use crate::wire::push_str_entry;
use crate::wire::push_str_map_entry;
use crate::wire::push_u32_entry;
use crate::wire::str_entry;
use crate::wire::str_list_model;
use crate::wire::str_list_value;
use crate::wire::str_map_entry;
use crate::wire::str_map_model;
use crate::wire::str_map_value;
use crate::wire::u32_entry;
use crate::wire::wire_seq_model;
use crate::wire::Number;
use crate::wire::SpecValue;
use crate::wire::Value;
use crate::wire::WireError;
use crate::wire::WireValue;
use crate::config::config_wire;
use crate::config::Config;

verus! {

/// One command tuple: a tag from the fixed vocabulary followed by its
/// positional arguments.
#[derive(Debug, PartialEq)]
pub struct Command {
    pub parts: Vec<WireValue>,
}

impl Command {
    pub open spec fn model(self) -> Seq<SpecValue> {
        wire_seq_model(self.parts@)
    }
}

/// A reference, by handle, to one of the host page's document elements. The
/// host layer that owns the real element references chooses the handles and
/// resolves them again when it forwards a command to the engine.
#[derive(Debug, Clone, Copy, PartialEq, Eq, Structural)]
pub struct ElementRef {
    pub id: u32,
}

/// A reference, by handle, to a zero-argument string-returning callback
/// owned by the host layer, registered with the engine as a view-name or
/// view-url getter.
#[derive(Debug, Clone, Copy, PartialEq, Eq, Structural)]
pub struct CallbackRef {
    pub id: u64,
}

/// A direct synchronous invocation of the engine's static surface — these
/// never go through the command queue.
#[derive(Debug, PartialEq)]
pub enum DirectCall {
    /// The one-time initialization call, with the serialized configuration.
    Init(Vec<(String, WireValue)>),
    /// Grant consent for the named features.
    AddConsent(Vec<String>),
    /// Withdraw consent for the named features.
    RemoveConsent(Vec<String>),
    /// Define named groups of consent features.
    GroupFeatures(Vec<(String, Vec<ConsentFeatures>)>),
    /// Collect user data from the page's social-login integration.
    CollectFromFacebook(Vec<(String, String)>),
}

/// The mathematical model of a direct synchronous invocation.
#[verifier::ext_equal]
pub enum SpecDirect {
    Init(Seq<(Seq<char>, SpecValue)>),
    AddConsent(Seq<Seq<char>>),
    RemoveConsent(Seq<Seq<char>>),
    GroupFeatures(Seq<(Seq<char>, Seq<Seq<char>>)>),
    CollectFromFacebook(Seq<(Seq<char>, Seq<char>)>),
}

/// The views of a sequence of strings.
pub open spec fn str_seq_view(l: Seq<String>) -> Seq<Seq<char>> {
    Seq::new(l.len(), |i: int| l[i]@)
}

/// The wire identifiers of a sequence of consent features.
pub open spec fn feature_idents(l: Seq<ConsentFeatures>) -> Seq<Seq<char>> {
    Seq::new(l.len(), |i: int| l[i].ident())
}

/// The model of named feature groups: each group name with the wire
/// identifiers of its features, in order.
pub open spec fn groups_model(g: Seq<(String, Vec<ConsentFeatures>)>) -> Seq<
    (Seq<char>, Seq<Seq<char>>),
> {
    Seq::new(g.len(), |i: int| (g[i].0@, feature_idents(g[i].1@)))
}

/// The views of a sequence of string pairs.
pub open spec fn str_pairs_view(m: Seq<(String, String)>) -> Seq<(Seq<char>, Seq<char>)> {
    Seq::new(m.len(), |i: int| (m[i].0@, m[i].1@))
}

impl DirectCall {
    pub open spec fn model(self) -> SpecDirect {
        match self {
            DirectCall::Init(w) => SpecDirect::Init(entry_seq_model(w@)),
            DirectCall::AddConsent(f) => SpecDirect::AddConsent(str_seq_view(f@)),
            DirectCall::RemoveConsent(f) => SpecDirect::RemoveConsent(str_seq_view(f@)),
            DirectCall::GroupFeatures(g) => SpecDirect::GroupFeatures(groups_model(g@)),
            DirectCall::CollectFromFacebook(m) => SpecDirect::CollectFromFacebook(
                str_pairs_view(m@),
            ),
        }
    }
}

/// An element argument on the wire: the element reference, or an explicit
/// null when no element is given.
pub open spec fn elem_or_null(p: Option<ElementRef>) -> SpecValue {
    match p {
        Option::Some(e) => SpecValue::Element(e.id),
        Option::None => SpecValue::Null,
    }
}

/// The typed adapter handle. It records everything handed to the engine:
/// the producer side of the shared command queue, the log of direct
/// synchronous calls, and the currently registered getter callbacks.
#[derive(Debug)]
pub struct Countly {
    /// Commands appended to the engine's shared queue, oldest first.
    pub queue: Vec<Command>,
    /// Direct synchronous engine invocations, oldest first.
    pub direct: Vec<DirectCall>,
    /// The currently registered view-name getter, if any.
    pub view_name_getter: Option<CallbackRef>,
    /// The currently registered view-url getter, if any.
    pub view_url_getter: Option<CallbackRef>,
}

/// The step taken by an operation that appends exactly one command to the
/// shared queue and touches nothing else.
pub open spec fn enqueued(pre: Countly, post: Countly, cmd: Seq<SpecValue>) -> bool {
    &&& post.queue_model() == pre.queue_model().push(cmd)
    &&& post.direct_model() == pre.direct_model()
    &&& post.view_name_getter == pre.view_name_getter
    &&& post.view_url_getter == pre.view_url_getter
}

/// The step taken by an operation that makes exactly one direct synchronous
/// engine call, bypassing the queue, and touches nothing else.
pub open spec fn direct_called(pre: Countly, post: Countly, call: SpecDirect) -> bool {
    &&& post.queue_model() == pre.queue_model()
    &&& post.direct_model() == pre.direct_model().push(call)
    &&& post.view_name_getter == pre.view_name_getter
    &&& post.view_url_getter == pre.view_url_getter
}

/// The step taken by registering (or replacing) the view-name getter.
pub open spec fn registered_view_name(pre: Countly, post: Countly, cb: CallbackRef) -> bool {
    &&& post.view_name_getter == Some(cb)
    &&& post.view_url_getter == pre.view_url_getter
    &&& post.queue_model() == pre.queue_model()
    &&& post.direct_model() == pre.direct_model()
}

/// The step taken by registering (or replacing) the view-url getter.
pub open spec fn registered_view_url(pre: Countly, post: Countly, cb: CallbackRef) -> bool {
    &&& post.view_url_getter == Some(cb)
    &&& post.view_name_getter == pre.view_name_getter
    &&& post.queue_model() == pre.queue_model()
    &&& post.direct_model() == pre.direct_model()
}

/// Builds a command of the tag alone.
fn cmd0(tag: &str) -> (c: Command)
    ensures
        c.model() == seq![SpecValue::Str(tag@)],
{
    let mut parts: Vec<WireValue> = Vec::new();
    parts.push(WireValue::Str(tag.to_owned()));
    let c = Command { parts };
    proof {
        lemma_wire_seq_model(c.parts@);
        assert(c.model() =~= seq![SpecValue::Str(tag@)]);
    }
    c
}

/// Builds a command of the tag and one argument.
fn cmd1(tag: &str, a: WireValue) -> (c: Command)
    ensures
        c.model() == seq![SpecValue::Str(tag@), a.model()],
{
    let ghost ga = a;
    let mut parts: Vec<WireValue> = Vec::new();
    parts.push(WireValue::Str(tag.to_owned()));
    parts.push(a);
    let c = Command { parts };
    proof {
        lemma_wire_seq_model(c.parts@);
        assert(c.model() =~= seq![SpecValue::Str(tag@), ga.model()]);
    }
    c
}

/// Builds a command of the tag and two arguments.
fn cmd2(tag: &str, a: WireValue, b: WireValue) -> (c: Command)
    ensures
        c.model() == seq![SpecValue::Str(tag@), a.model(), b.model()],
{
    let ghost ga = a;
    let ghost gb = b;
    let mut parts: Vec<WireValue> = Vec::new();
    parts.push(WireValue::Str(tag.to_owned()));
    parts.push(a);
    parts.push(b);
    let c = Command { parts };
    proof {
        lemma_wire_seq_model(c.parts@);
        assert(c.model() =~= seq![SpecValue::Str(tag@), ga.model(), gb.model()]);
    }
    c
}

impl Countly {
    /// The abstract queue: the models of the appended commands, in order.
    pub open spec fn queue_model(self) -> Seq<Seq<SpecValue>> {
        Seq::new(self.queue@.len(), |i: int| self.queue@[i].model())
    }

    /// The abstract log of direct synchronous calls, in order.
    pub open spec fn direct_model(self) -> Seq<SpecDirect> {
        Seq::new(self.direct@.len(), |i: int| self.direct@[i].model())
    }

    /// Returns an adapter handle that has handed nothing to the engine yet.
    pub fn new() -> (c: Countly)
        ensures
            c.queue_model() == Seq::<Seq<SpecValue>>::empty(),
            c.direct_model() == Seq::<SpecDirect>::empty(),
            c.view_name_getter is None,
            c.view_url_getter is None,
    {
        let c = Countly {
            queue: Vec::new(),
            direct: Vec::new(),
            view_name_getter: None,
            view_url_getter: None,
        };
        proof {
            assert(c.queue_model() =~= Seq::<Seq<SpecValue>>::empty());
            assert(c.direct_model() =~= Seq::<SpecDirect>::empty());
        }
        c
    }

    /// Appends one command to the shared queue.
    fn push_cmd(&mut self, c: Command)
        ensures
            enqueued(*old(self), *final(self), c.model()),
    {
        let ghost gc = c;
        self.queue.push(c);
        proof {
            assert(self.queue_model() =~= old(self).queue_model().push(gc.model()));
            assert(self.direct_model() =~= old(self).direct_model());
        }
    }

    /// Records one direct synchronous engine call.
    fn push_direct(&mut self, d: DirectCall)
        ensures
            direct_called(*old(self), *final(self), d.model()),
    {
        let ghost gd = d;
        self.direct.push(d);
        proof {
            assert(self.direct_model() =~= old(self).direct_model().push(gd.model()));
            assert(self.queue_model() =~= old(self).queue_model());
        }
    }

    /// Hands the serialized configuration to the engine's initialization
    /// entry point. Call this before any other operation; the adapter does
    /// not enforce the ordering, the engine owns that behavior.
    pub fn configure(&mut self, config: Config) -> (r: Result<(), WireError>)
        ensures
            config.spec_finite() <==> r is Ok,
            r is Ok ==> direct_called(
                *old(self),
                *final(self),
                SpecDirect::Init(config_wire(config)),
            ),
            r matches Err(e) ==> *final(self) == *old(self) && e == WireError::NonFiniteNumber,
    {
        match config.serialize() {
            Ok(w) => {
                self.push_direct(DirectCall::Init(w));
                Ok(())
            },
            Err(e) => Err(e),
        }
    }

    /// Enables automatic session tracking: the engine begins, extends and
    /// ends sessions on its own.
    pub fn enable_session_tracking(&mut self)
        ensures
            enqueued(*old(self), *final(self), seq![SpecValue::Str("track_sessions"@)]),
    {
        let c = cmd0("track_sessions");
        self.push_cmd(c);
    }

    /// Tracks the current page view under the page's own location.
    pub fn track_pageview(&mut self)
        ensures
            enqueued(*old(self), *final(self), seq![SpecValue::Str("track_pageview"@)]),
    {
        let c = cmd0("track_pageview");
        self.push_cmd(c);
    }

    /// Records a page view under the given name, for dynamically updated
    /// contents and single-page applications.
    pub fn track_pageview_with_name(&mut self, name: &str)
        ensures
            enqueued(
                *old(self),
                *final(self),
                seq![SpecValue::Str("track_pageview"@), SpecValue::Str(name@)],
            ),
    {
        let c = cmd1("track_pageview", WireValue::Str(name.to_owned()));
        self.push_cmd(c);
    }

    /// Tracks the current page view while excluding the given views (names
    /// or patterns) from tracking.
    pub fn track_pageview_with_filter(&mut self, filter: &Vec<String>)
        ensures
            enqueued(
                *old(self),
                *final(self),
                seq![
                    SpecValue::Str("track_pageview"@),
                    SpecValue::List(str_list_model(filter@)),
                ],
            ),
    {
        let c = cmd1("track_pageview", str_list_value(filter));
        self.push_cmd(c);
    }

    /// Records a page view under the given name while excluding the given
    /// views from tracking.
    pub fn track_pageview_with_name_and_filter(&mut self, name: &str, filter: &Vec<String>)
        ensures
            enqueued(
                *old(self),
                *final(self),
                seq![
                    SpecValue::Str("track_pageview"@),
                    SpecValue::Str(name@),
                    SpecValue::List(str_list_model(filter@)),
                ],
            ),
    {
        let c = cmd2("track_pageview", WireValue::Str(name.to_owned()), str_list_value(filter));
        self.push_cmd(c);
    }

    /// Registers, or replaces, the view-name getter: a single slot, so a
    /// second registration overwrites the first and only the latest callback
    /// is ever consulted by the engine.
    pub fn set_view_name_callback(&mut self, callback: CallbackRef)
        ensures
            registered_view_name(*old(self), *final(self), callback),
    {
        self.view_name_getter = Some(callback);
    }

    /// Registers, or replaces, the view-url getter: a single slot, so a
    /// second registration overwrites the first and only the latest callback
    /// is ever consulted by the engine.
    pub fn set_view_url_callback(&mut self, callback: CallbackRef)
        ensures
            registered_view_url(*old(self), *final(self), callback),
    {
        self.view_url_getter = Some(callback);
    }

    /// Enables link-click tracking, page-wide or under the given parent
    /// element.
    pub fn enable_link_tracking(&mut self, parent: Option<ElementRef>)
        ensures
            parent matches Some(p) ==> enqueued(
                *old(self),
                *final(self),
                seq![SpecValue::Str("track_links"@), SpecValue::Element(p.id)],
            ),
            parent is None ==> enqueued(
                *old(self),
                *final(self),
                seq![SpecValue::Str("track_links"@)],
            ),
    {
        match parent {
            Some(p) => {
                let c = cmd1("track_links", WireValue::Element(p.id));
                self.push_cmd(c);
            },
            None => {
                let c = cmd0("track_links");
                self.push_cmd(c);
            },
        }
    }

    /// Enables form-submission tracking, page-wide or under the given parent
    /// element; hidden inputs are collected only when asked for.
    pub fn enable_form_submission_tracking(&mut self, parent: Option<ElementRef>, include_hidden: bool)
        ensures
            enqueued(
                *old(self),
                *final(self),
                seq![
                    SpecValue::Str("track_forms"@),
                    elem_or_null(parent),
                    SpecValue::Bool(include_hidden),
                ],
            ),
    {
        let p = match parent {
            Some(p) => WireValue::Element(p.id),
            None => WireValue::Null,
        };
        let c = cmd2("track_forms", p, WireValue::Bool(include_hidden));
        self.push_cmd(c);
    }

    /// Reports a conversion for the stored campaign, or for the named one.
    pub fn enable_conversion_reporting(&mut self, name: Option<&str>)
        ensures
            name matches Some(n) ==> enqueued(
                *old(self),
                *final(self),
                seq![SpecValue::Str("report_conversion"@), SpecValue::Str(n@)],
            ),
            name is None ==> enqueued(
                *old(self),
                *final(self),
                seq![SpecValue::Str("report_conversion"@)],
            ),
    {
        match name {
            Some(n) => {
                let c = cmd1("report_conversion", WireValue::Str(n.to_owned()));
                self.push_cmd(c);
            },
            None => {
                let c = cmd0("report_conversion");
                self.push_cmd(c);
            },
        }
    }

    /// Resumes tracking after an opt-out.
    pub fn opt_in(&mut self)
        ensures
            enqueued(*old(self), *final(self), seq![SpecValue::Str("opt_in"@)]),
    {
        let c = cmd0("opt_in");
        self.push_cmd(c);
    }

    /// Disables all tracking, persistently, until an opt-in.
    pub fn opt_out(&mut self)
        ensures
            enqueued(*old(self), *final(self), seq![SpecValue::Str("opt_out"@)]),
    {
        let c = cmd0("opt_out");
        self.push_cmd(c);
    }

    /// Gathers user data from filled forms, page-wide or under the given
    /// form element, optionally storing what is found as custom properties.
    pub fn enable_form_data_collection(&mut self, parent: Option<ElementRef>, custom_properties: bool)
        ensures
            enqueued(
                *old(self),
                *final(self),
                seq![
                    SpecValue::Str("collect_from_forms"@),
                    elem_or_null(parent),
                    SpecValue::Bool(custom_properties),
                ],
            ),
    {
        let p = match parent {
            Some(p) => WireValue::Element(p.id),
            None => WireValue::Null,
        };
        let c = cmd2("collect_from_forms", p, WireValue::Bool(custom_properties));
        self.push_cmd(c);
    }

    /// Collects user data from the page's social-login integration, with
    /// custom properties and the graph paths to read them from. A direct
    /// synchronous call, not a queued command.
    pub fn collect_from_facebook(&mut self, custom_properties: Vec<(String, String)>)
        ensures
            direct_called(
                *old(self),
                *final(self),
                SpecDirect::CollectFromFacebook(str_pairs_view(custom_properties@)),
            ),
    {
        self.push_direct(DirectCall::CollectFromFacebook(custom_properties));
    }

    /// Reports a custom event: its key, how often it happened, an optional
    /// sum and duration to report with it, and its segmentation. Rejected
    /// when the duration is not representable on the wire.
    pub fn add_event(
        &mut self,
        key: &str,
        count: u32,
        sum: Option<u32>,
        duration: Option<Number>,
        segmentation: Vec<(String, String)>,
    ) -> (r: Result<(), WireError>)
        ensures
            opt_num_finite(duration) <==> r is Ok,
            r is Ok ==> enqueued(
                *old(self),
                *final(self),
                seq![
                    SpecValue::Str("add_event"@),
                    SpecValue::Object(event_wire(key@, count, sum, duration, segmentation@)),
                ],
            ),
            r matches Err(e) ==> *final(self) == *old(self) && e == WireError::NonFiniteNumber,
    {
        if !opt_num_is_finite(&duration) {
            return Err(WireError::NonFiniteNumber);
        }
        let mut ev: Vec<(String, WireValue)> = Vec::new();
        push_str_entry(&mut ev, "key", &key.to_owned());
        proof {
            assert(entry_seq_model(ev@) =~= str_entry("key"@, key@));
        }
        push_u32_entry(&mut ev, "count", count);
        push_opt_u32_entry(&mut ev, "sum", &sum);
        push_opt_num_entry(&mut ev, "duration", &duration);
        push_str_map_entry(&mut ev, "segmentation", &segmentation);
        assert(entry_seq_model(ev@) == event_wire(key@, count, sum, duration, segmentation@));
        let c = cmd1("add_event", WireValue::Object(ev));
        self.push_cmd(c);
        Ok(())
    }

    /// Marks the start of a timed event; the engine measures the duration
    /// until the matching end.
    pub fn start_event(&mut self, name: &str)
        ensures
            enqueued(
                *old(self),
                *final(self),
                seq![SpecValue::Str("start_event"@), SpecValue::Str(name@)],
            ),
    {
        let c = cmd1("start_event", WireValue::Str(name.to_owned()));
        self.push_cmd(c);
    }

    /// Ends a timed event started under the same name.
    pub fn end_event(&mut self, name: &str)
        ensures
            enqueued(
                *old(self),
                *final(self),
                seq![SpecValue::Str("end_event"@), SpecValue::Str(name@)],
            ),
    {
        let c = cmd1("end_event", WireValue::Str(name.to_owned()));
        self.push_cmd(c);
    }

    /// Provides the visitor's profile details for the user-profiles view.
    pub fn set_user_details(&mut self, details: &UserDetails)
        ensures
            enqueued(
                *old(self),
                *final(self),
                seq![
                    SpecValue::Str("user_details"@),
                    SpecValue::Object(user_details_wire(*details)),
                ],
            ),
    {
        let w = details.serialize();
        let c = cmd1("user_details", WireValue::Object(w));
        self.push_cmd(c);
    }

    /// Sets a custom user property. Rejected when the value holds a number
    /// the wire shape cannot represent.
    pub fn user_data_set(&mut self, key: &str, value: &Value) -> (r: Result<(), WireError>)
        ensures
            value.spec_finite() <==> r is Ok,
            r is Ok ==> enqueued(
                *old(self),
                *final(self),
                seq![SpecValue::Str("userData.set"@), SpecValue::Str(key@), value.model()],
            ),
            r matches Err(e) ==> *final(self) == *old(self) && e == WireError::NonFiniteNumber,
    {
        if !value.is_finite() {
            return Err(WireError::NonFiniteNumber);
        }
        let c = cmd2("userData.set", WireValue::Str(key.to_owned()), value.to_wire());
        self.push_cmd(c);
        Ok(())
    }

    /// Removes a custom user property.
    pub fn user_data_unset(&mut self, key: &str)
        ensures
            enqueued(
                *old(self),
                *final(self),
                seq![SpecValue::Str("userData.unset"@), SpecValue::Str(key@)],
            ),
    {
        let c = cmd1("userData.unset", WireValue::Str(key.to_owned()));
        self.push_cmd(c);
    }

    /// Sets a custom user property only if it does not exist yet. Rejected
    /// when the value holds a number the wire shape cannot represent.
    pub fn user_data_set_once(&mut self, key: &str, value: &Value) -> (r: Result<(), WireError>)
        ensures
            value.spec_finite() <==> r is Ok,
            r is Ok ==> enqueued(
                *old(self),
                *final(self),
                seq![SpecValue::Str("userData.set_once"@), SpecValue::Str(key@), value.model()],
            ),
            r matches Err(e) ==> *final(self) == *old(self) && e == WireError::NonFiniteNumber,
    {
        if !value.is_finite() {
            return Err(WireError::NonFiniteNumber);
        }
        let c = cmd2("userData.set_once", WireValue::Str(key.to_owned()), value.to_wire());
        self.push_cmd(c);
        Ok(())
    }

    /// Increments the property under the key by one.
    pub fn user_data_increment(&mut self, key: &str)
        ensures
            enqueued(
                *old(self),
                *final(self),
                seq![SpecValue::Str("userData.increment"@), SpecValue::Str(key@)],
            ),
    {
        let c = cmd1("userData.increment", WireValue::Str(key.to_owned()));
        self.push_cmd(c);
    }

    /// Increments the property under the key by the given amount. Rejected
    /// when the amount is not representable on the wire.
    pub fn user_data_increment_by(&mut self, key: &str, value: Number) -> (r: Result<
        (),
        WireError,
    >)
        ensures
            value.spec_finite() <==> r is Ok,
            r is Ok ==> enqueued(
                *old(self),
                *final(self),
                seq![
                    SpecValue::Str("userData.increment_by"@),
                    SpecValue::Str(key@),
                    SpecValue::Num(value.bits),
                ],
            ),
            r matches Err(e) ==> *final(self) == *old(self) && e == WireError::NonFiniteNumber,
    {
        if !value.is_finite() {
            return Err(WireError::NonFiniteNumber);
        }
        let c = cmd2("userData.increment_by", WireValue::Str(key.to_owned()), WireValue::Num(value));
        self.push_cmd(c);
        Ok(())
    }

    /// Multiplies the property under the key by the given amount. Rejected
    /// when the amount is not representable on the wire.
    pub fn user_data_multiply(&mut self, key: &str, value: Number) -> (r: Result<(), WireError>)
        ensures
            value.spec_finite() <==> r is Ok,
            r is Ok ==> enqueued(
                *old(self),
                *final(self),
                seq![
                    SpecValue::Str("userData.multiply"@),
                    SpecValue::Str(key@),
                    SpecValue::Num(value.bits),
                ],
            ),
            r matches Err(e) ==> *final(self) == *old(self) && e == WireError::NonFiniteNumber,
    {
        if !value.is_finite() {
            return Err(WireError::NonFiniteNumber);
        }
        let c = cmd2("userData.multiply", WireValue::Str(key.to_owned()), WireValue::Num(value));
        self.push_cmd(c);
        Ok(())
    }

    /// Keeps the larger of the stored property and the given amount.
    /// Rejected when the amount is not representable on the wire.
    pub fn user_data_max(&mut self, key: &str, value: Number) -> (r: Result<(), WireError>)
        ensures
            value.spec_finite() <==> r is Ok,
            r is Ok ==> enqueued(
                *old(self),
                *final(self),
                seq![
                    SpecValue::Str("userData.max"@),
                    SpecValue::Str(key@),
                    SpecValue::Num(value.bits),
                ],
            ),
            r matches Err(e) ==> *final(self) == *old(self) && e == WireError::NonFiniteNumber,
    {
        if !value.is_finite() {
            return Err(WireError::NonFiniteNumber);
        }
        let c = cmd2("userData.max", WireValue::Str(key.to_owned()), WireValue::Num(value));
        self.push_cmd(c);
        Ok(())
    }

    /// Keeps the smaller of the stored property and the given amount.
    /// Rejected when the amount is not representable on the wire.
    pub fn user_data_min(&mut self, key: &str, value: Number) -> (r: Result<(), WireError>)
        ensures
            value.spec_finite() <==> r is Ok,
            r is Ok ==> enqueued(
                *old(self),
                *final(self),
                seq![
                    SpecValue::Str("userData.min"@),
                    SpecValue::Str(key@),
                    SpecValue::Num(value.bits),
                ],
            ),
            r matches Err(e) ==> *final(self) == *old(self) && e == WireError::NonFiniteNumber,
    {
        if !value.is_finite() {
            return Err(WireError::NonFiniteNumber);
        }
        let c = cmd2("userData.min", WireValue::Str(key.to_owned()), WireValue::Num(value));
        self.push_cmd(c);
        Ok(())
    }

    /// Appends the value to the array property under the key. Rejected when
    /// the value holds a number the wire shape cannot represent.
    pub fn user_data_push(&mut self, key: &str, value: &Value) -> (r: Result<(), WireError>)
        ensures
            value.spec_finite() <==> r is Ok,
            r is Ok ==> enqueued(
                *old(self),
                *final(self),
                seq![SpecValue::Str("userData.push"@), SpecValue::Str(key@), value.model()],
            ),
            r matches Err(e) ==> *final(self) == *old(self) && e == WireError::NonFiniteNumber,
    {
        if !value.is_finite() {
            return Err(WireError::NonFiniteNumber);
        }
        let c = cmd2("userData.push", WireValue::Str(key.to_owned()), value.to_wire());
        self.push_cmd(c);
        Ok(())
    }

    /// Appends the value to the array property under the key, keeping only
    /// unique values. Rejected when the value holds a number the wire shape
    /// cannot represent.
    pub fn user_data_push_unique(&mut self, key: &str, value: &Value) -> (r: Result<
        (),
        WireError,
    >)
        ensures
            value.spec_finite() <==> r is Ok,
            r is Ok ==> enqueued(
                *old(self),
                *final(self),
                seq![
                    SpecValue::Str("userData.push_unique"@),
                    SpecValue::Str(key@),
                    value.model(),
                ],
            ),
            r matches Err(e) ==> *final(self) == *old(self) && e == WireError::NonFiniteNumber,
    {
        if !value.is_finite() {
            return Err(WireError::NonFiniteNumber);
        }
        let c = cmd2("userData.push_unique", WireValue::Str(key.to_owned()), value.to_wire());
        self.push_cmd(c);
        Ok(())
    }

    /// Removes the value from the array property under the key. Rejected
    /// when the value holds a number the wire shape cannot represent.
    pub fn user_data_pull(&mut self, key: &str, value: &Value) -> (r: Result<(), WireError>)
        ensures
            value.spec_finite() <==> r is Ok,
            r is Ok ==> enqueued(
                *old(self),
                *final(self),
                seq![SpecValue::Str("userData.pull"@), SpecValue::Str(key@), value.model()],
            ),
            r matches Err(e) ==> *final(self) == *old(self) && e == WireError::NonFiniteNumber,
    {
        if !value.is_finite() {
            return Err(WireError::NonFiniteNumber);
        }
        let c = cmd2("userData.pull", WireValue::Str(key.to_owned()), value.to_wire());
        self.push_cmd(c);
        Ok(())
    }

    /// Sends the accumulated user-data mutations to the server.
    pub fn user_data_save(&mut self)
        ensures
            enqueued(*old(self), *final(self), seq![SpecValue::Str("userData.save"@)]),
    {
        let c = cmd0("userData.save");
        self.push_cmd(c);
    }

    /// Enables automatic capture of script errors, optionally with segments
    /// to attach to every report.
    pub fn enable_track_errors(&mut self, segments: Option<Vec<(String, String)>>)
        ensures
            segments matches Some(m) ==> enqueued(
                *old(self),
                *final(self),
                seq![
                    SpecValue::Str("track_errors"@),
                    SpecValue::Object(str_map_model(m@)),
                ],
            ),
            segments is None ==> enqueued(
                *old(self),
                *final(self),
                seq![SpecValue::Str("track_errors"@)],
            ),
    {
        match segments {
            Some(m) => {
                let c = cmd1("track_errors", str_map_value(&m));
                self.push_cmd(c);
            },
            None => {
                let c = cmd0("track_errors");
                self.push_cmd(c);
            },
        }
    }

    /// Reports a handled error, optionally with segments. Rejected when the
    /// error value holds a number the wire shape cannot represent.
    pub fn log_error(&mut self, error: &Value, segments: Option<Vec<(String, String)>>) -> (r:
        Result<(), WireError>)
        ensures
            error.spec_finite() <==> r is Ok,
            segments matches Some(m) ==> (r is Ok ==> enqueued(
                *old(self),
                *final(self),
                seq![
                    SpecValue::Str("log_error"@),
                    error.model(),
                    SpecValue::Object(str_map_model(m@)),
                ],
            )),
            r is Ok && segments is None ==> enqueued(
                *old(self),
                *final(self),
                seq![SpecValue::Str("log_error"@), error.model()],
            ),
            r matches Err(e) ==> *final(self) == *old(self) && e == WireError::NonFiniteNumber,
    {
        if !error.is_finite() {
            return Err(WireError::NonFiniteNumber);
        }
        match segments {
            Some(m) => {
                let c = cmd2("log_error", error.to_wire(), str_map_value(&m));
                self.push_cmd(c);
            },
            None => {
                let c = cmd1("log_error", error.to_wire());
                self.push_cmd(c);
            },
        }
        Ok(())
    }

    /// Leaves a breadcrumb to be combined into the next error report.
    pub fn add_log(&mut self, msg: &str)
        ensures
            enqueued(
                *old(self),
                *final(self),
                seq![SpecValue::Str("add_log"@), SpecValue::Str(msg@)],
            ),
    {
        let c = cmd1("add_log", WireValue::Str(msg.to_owned()));
        self.push_cmd(c);
    }

    /// Changes the visitor's device id, optionally asking the server to
    /// merge the data recorded under both ids.
    pub fn change_device_id(&mut self, id: &str, merge: bool)
        ensures
            enqueued(
                *old(self),
                *final(self),
                seq![
                    SpecValue::Str("change_id"@),
                    SpecValue::Str(id@),
                    SpecValue::Bool(merge),
                ],
            ),
    {
        let c = cmd2("change_id", WireValue::Str(id.to_owned()), WireValue::Bool(merge));
        self.push_cmd(c);
    }

    /// Defines named groups of consent features, to be granted together.
    /// Call before consent is granted. A direct synchronous call, not a
    /// queued command.
    pub fn group_features(&mut self, groups: Vec<(String, Vec<ConsentFeatures>)>)
        ensures
            direct_called(
                *old(self),
                *final(self),
                SpecDirect::GroupFeatures(groups_model(groups@)),
            ),
    {
        self.push_direct(DirectCall::GroupFeatures(groups));
    }

    /// Grants consent for the named features or groups. A direct
    /// synchronous call, not a queued command.
    pub fn add_consent(&mut self, features: Vec<String>)
        ensures
            direct_called(
                *old(self),
                *final(self),
                SpecDirect::AddConsent(str_seq_view(features@)),
            ),
    {
        self.push_direct(DirectCall::AddConsent(features));
    }

    /// Withdraws consent for the named features or groups. A direct
    /// synchronous call, not a queued command.
    pub fn remove_consent(&mut self, features: Vec<String>)
        ensures
            direct_called(
                *old(self),
                *final(self),
                SpecDirect::RemoveConsent(str_seq_view(features@)),
            ),
    {
        self.push_direct(DirectCall::RemoveConsent(features));
    }

    /// Begins a session manually, optionally telling the engine not to
    /// extend it on its own.
    pub fn begin_session(&mut self, no_heart_beat: bool)
        ensures
            no_heart_beat ==> enqueued(
                *old(self),
                *final(self),
                seq![SpecValue::Str("begin_session"@), SpecValue::Bool(true)],
            ),
            !no_heart_beat ==> enqueued(
                *old(self),
                *final(self),
                seq![SpecValue::Str("begin_session"@)],
            ),
    {
        if no_heart_beat {
            let c = cmd1("begin_session", WireValue::Bool(true));
            self.push_cmd(c);
        } else {
            let c = cmd0("begin_session");
            self.push_cmd(c);
        }
    }

    /// Extends a manually controlled session by the given number of seconds
    /// since the last begin or extension. Rejected when the number is not
    /// representable on the wire.
    pub fn extend_session(&mut self, secs: Number) -> (r: Result<(), WireError>)
        ensures
            secs.spec_finite() <==> r is Ok,
            r is Ok ==> enqueued(
                *old(self),
                *final(self),
                seq![SpecValue::Str("session_duration"@), SpecValue::Num(secs.bits)],
            ),
            r matches Err(e) ==> *final(self) == *old(self) && e == WireError::NonFiniteNumber,
    {
        if !secs.is_finite() {
            return Err(WireError::NonFiniteNumber);
        }
        let c = cmd1("session_duration", WireValue::Num(secs));
        self.push_cmd(c);
        Ok(())
    }

    /// Ends the session, optionally reporting the seconds since the last
    /// begin or extension. Rejected when the number is not representable on
    /// the wire.
    pub fn end_session(&mut self, secs: Option<Number>) -> (r: Result<(), WireError>)
        ensures
            opt_num_finite(secs) <==> r is Ok,
            secs matches Some(s) ==> (r is Ok ==> enqueued(
                *old(self),
                *final(self),
                seq![SpecValue::Str("end_session"@), SpecValue::Num(s.bits)],
            )),
            r is Ok && secs is None ==> enqueued(
                *old(self),
                *final(self),
                seq![SpecValue::Str("end_session"@)],
            ),
            r matches Err(e) ==> *final(self) == *old(self) && e == WireError::NonFiniteNumber,
    {
        if !opt_num_is_finite(&secs) {
            return Err(WireError::NonFiniteNumber);
        }
        match secs {
            Some(s) => {
                let c = cmd1("end_session", WireValue::Num(s));
                self.push_cmd(c);
            },
            None => {
                let c = cmd0("end_session");
                self.push_cmd(c);
            },
        }
        Ok(())
    }

    /// Tells the engine to keep collecting data but delay sending it.
    pub fn enable_offline_mode(&mut self)
        ensures
            enqueued(*old(self), *final(self), seq![SpecValue::Str("enable_offline_mode"@)]),
    {
        let c = cmd0("enable_offline_mode");
        self.push_cmd(c);
    }

    /// Leaves offline mode, optionally providing the device id to report
    /// the collected data under.
    pub fn disable_offline_mode(&mut self, device_id: Option<&str>)
        ensures
            device_id matches Some(d) ==> enqueued(
                *old(self),
                *final(self),
                seq![SpecValue::Str("disable_offline_mode"@), SpecValue::Str(d@)],
            ),
            device_id is None ==> enqueued(
                *old(self),
                *final(self),
                seq![SpecValue::Str("disable_offline_mode"@)],
            ),
    {
        match device_id {
            Some(d) => {
                let c = cmd1("disable_offline_mode", WireValue::Str(d.to_owned()));
                self.push_cmd(c);
            },
            None => {
                let c = cmd0("disable_offline_mode");
                self.push_cmd(c);
            },
        }
    }
}

/// The wire object of a custom event: key and count always present, sum and
/// duration only when given, segmentation always present.
pub open spec fn event_wire(
    key: Seq<char>,
    count: u32,
    sum: Option<u32>,
    duration: Option<Number>,
    segmentation: Seq<(String, String)>,
) -> Seq<(Seq<char>, SpecValue)> {
    str_entry("key"@, key) + u32_entry("count"@, count) + opt_u32_entry("sum"@, sum)
        + opt_num_entry("duration"@, duration) + str_map_entry("segmentation"@, segmentation)
}

/// The visitor's profile details. A string field left empty and an empty
/// custom map are omitted from the wire form; the birth year is omitted
/// when unset.
#[derive(Debug, PartialEq)]
pub struct UserDetails {
    /// full name
    pub name: String,
    /// username or login
    pub username: String,
    /// email address
    pub email: String,
    /// organization
    pub organization: String,
    /// phone number
    pub phone: String,
    /// url to an avatar picture
    pub picture: String,
    /// gender
    pub gender: String,
    /// year of birth
    pub byear: Option<u32>,
    /// arbitrary custom key-value attributes
    pub custom: Vec<(String, String)>,
}

/// The wire object of the visitor's profile details, under the
/// omit-when-empty convention.
pub open spec fn user_details_wire(d: UserDetails) -> Seq<(Seq<char>, SpecValue)> {
    nonempty_str_entry("name"@, d.name@) + nonempty_str_entry("username"@, d.username@)
        + nonempty_str_entry("email"@, d.email@) + nonempty_str_entry(
        "organization"@,
        d.organization@,
    ) + nonempty_str_entry("phone"@, d.phone@) + nonempty_str_entry("picture"@, d.picture@)
        + nonempty_str_entry("gender"@, d.gender@) + opt_u32_entry("byear"@, d.byear)
        + nonempty_str_map_entry("custom"@, d.custom@)
}

impl UserDetails {
    /// Serializes the details into their wire object.
    pub fn serialize(&self) -> (r: Vec<(String, WireValue)>)
        ensures
            entry_seq_model(r@) == user_details_wire(*self),
    {
        let mut out: Vec<(String, WireValue)> = Vec::new();
        push_nonempty_str_entry(&mut out, "name", &self.name);
        proof {
            assert(entry_seq_model(out@) =~= nonempty_str_entry("name"@, self.name@));
        }
        push_nonempty_str_entry(&mut out, "username", &self.username);
        push_nonempty_str_entry(&mut out, "email", &self.email);
        push_nonempty_str_entry(&mut out, "organization", &self.organization);
        push_nonempty_str_entry(&mut out, "phone", &self.phone);
        push_nonempty_str_entry(&mut out, "picture", &self.picture);
        push_nonempty_str_entry(&mut out, "gender", &self.gender);
        push_opt_u32_entry(&mut out, "byear", &self.byear);
        push_nonempty_str_map_entry(&mut out, "custom", &self.custom);
        assert(entry_seq_model(out@) == user_details_wire(*self));
        out
    }
}

/// Commands reach the shared queue first-in first-out: two consecutive
/// enqueue steps leave the queue extended by exactly those two commands, in
/// the order they were issued, and make no direct call.
pub proof fn lemma_enqueue_order(
    s0: Countly,
    s1: Countly,
    s2: Countly,
    c1: Seq<SpecValue>,
    c2: Seq<SpecValue>,
)
    requires
        enqueued(s0, s1, c1),
        enqueued(s1, s2, c2),
    ensures
        s2.queue_model() == s0.queue_model() + seq![c1, c2],
        s2.direct_model() == s0.direct_model(),
        s2.view_name_getter == s0.view_name_getter,
        s2.view_url_getter == s0.view_url_getter,
{
    assert(s2.queue_model() =~= s0.queue_model() + seq![c1, c2]);
}

/// A direct synchronous engine call never appears in the command queue: it
/// leaves the queue exactly as it was and appends exactly one entry to the
/// direct-call log.
pub proof fn lemma_direct_call_not_queued(pre: Countly, post: Countly, call: SpecDirect)
    requires
        direct_called(pre, post, call),
    ensures
        post.queue_model() == pre.queue_model(),
        post.direct_model().len() == pre.direct_model().len() + 1,
        post.direct_model().last() == call,
{
}

/// Registering a view-name getter twice keeps only the second callback: the
/// single slot holds the latest registration, the first is gone, and neither
/// registration queues a command or makes a direct call.
pub proof fn lemma_view_name_overwrite(
    s0: Countly,
    s1: Countly,
    s2: Countly,
    first: CallbackRef,
    second: CallbackRef,
)
    requires
        registered_view_name(s0, s1, first),
        registered_view_name(s1, s2, second),
    ensures
        s2.view_name_getter == Some(second),
        s2.view_url_getter == s0.view_url_getter,
        s2.queue_model() == s0.queue_model(),
        s2.direct_model() == s0.direct_model(),
{
}

/// Registering a view-url getter twice keeps only the second callback, in
/// the same way as the view-name slot.
pub proof fn lemma_view_url_overwrite(
    s0: Countly,
    s1: Countly,
    s2: Countly,
    first: CallbackRef,
    second: CallbackRef,
)
    requires
        registered_view_url(s0, s1, first),
        registered_view_url(s1, s2, second),
    ensures
        s2.view_url_getter == Some(second),
        s2.view_name_getter == s0.view_name_getter,
        s2.queue_model() == s0.queue_model(),
        s2.direct_model() == s0.direct_model(),
{
}

impl Default for UserDetails {
    /// Returns details with every field unset, which serialize to an empty
    /// wire object.
    fn default() -> (d: UserDetails)
        ensures
            d.name@.len() == 0,
            d.username@.len() == 0,
            d.email@.len() == 0,
            d.organization@.len() == 0,
            d.phone@.len() == 0,
            d.picture@.len() == 0,
            d.gender@.len() == 0,
            d.byear is None,
            d.custom@.len() == 0,
    {
        UserDetails {
            name: String::new(),
            username: String::new(),
            email: String::new(),
            organization: String::new(),
            phone: String::new(),
            picture: String::new(),
            gender: String::new(),
            byear: None,
            custom: Vec::new(),
        }
    }
}

} // verus!
