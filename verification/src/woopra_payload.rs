//! The two Woopra payload shapes and how an event is folded into them.
//!
//! A track-style payload (page views and custom tracks) targets the `/track/ce`
//! endpoint; an identify-style payload (user events) targets `/track/identify`.
//! Each payload carries namespaced property lists that are prefixed with
//! `cv_` (visitor), `ce_` (event) and `cs_` (session) when rendered into
//! query parameters.
use vstd::prelude::*;

verus! {

use crate::events::{Client, Event, PageData, TrackData, UserData};
use crate::props::{
    sanitize, sanitize_key, serialize_ce_prefixed, serialize_cs_prefixed, serialize_cv_prefixed,
    tag_pairs, upsert, upsert_all, upsert_all_props, upsert_prop,
};
use crate::query::{dec_int, dec_nat, i64_to_dec, pairs_view, u64_to_dec};
use vstd::string::StringExecFns;

/// The view of an optional string.
pub open spec fn opt_view(o: Option<String>) -> Option<Seq<char>> {
    match o {
        Some(s) => Some(s@),
        None => None,
    }
}

/// The value when non-empty, absent otherwise: empty strings mean "not set".
pub open spec fn opt_nonempty(s: Seq<char>) -> Option<Seq<char>> {
    if s.len() > 0 {
        Some(s)
    } else {
        None
    }
}

// ---------------------------------------------------------------------------
// Track-style payload
// ---------------------------------------------------------------------------
/// Mathematical model of a track-style payload.
#[verifier::ext_equal]
pub ghost struct TrackModel {
    pub project: Seq<char>,
    pub event: Seq<char>,
    pub timestamp: Seq<char>,
    pub visitor: Seq<(Seq<char>, Seq<char>)>,
    pub event_props: Seq<(Seq<char>, Seq<char>)>,
    pub session: Seq<(Seq<char>, Seq<char>)>,
    pub screen: Option<Seq<char>>,
    pub language: Option<Seq<char>>,
    pub referer: Option<Seq<char>>,
    pub timeout: Option<Seq<char>>,
    pub browser: Option<Seq<char>>,
    pub os: Option<Seq<char>>,
    pub device: Option<Seq<char>>,
    pub ip: Option<Seq<char>>,
    pub app: Option<Seq<char>>,
}

/// Payload for the track endpoint, used by the page and track entry points.
pub struct WoopraPayloadTrack {
    pub project: String,
    pub event: String,
    pub timestamp: String,
    pub visitor_properties: Vec<(String, String)>,
    pub event_properties: Vec<(String, String)>,
    pub session_properties: Vec<(String, String)>,
    pub screen: Option<String>,
    pub language: Option<String>,
    pub referer: Option<String>,
    pub timeout: Option<String>,
    pub browser: Option<String>,
    pub os: Option<String>,
    pub device: Option<String>,
    pub ip: Option<String>,
    pub app: Option<String>,
}

impl View for WoopraPayloadTrack {
    type V = TrackModel;

    open spec fn view(&self) -> TrackModel {
        TrackModel {
            project: self.project@,
            event: self.event@,
            timestamp: self.timestamp@,
            visitor: pairs_view(self.visitor_properties@),
            event_props: pairs_view(self.event_properties@),
            session: pairs_view(self.session_properties@),
            screen: opt_view(self.screen),
            language: opt_view(self.language),
            referer: opt_view(self.referer),
            timeout: opt_view(self.timeout),
            browser: opt_view(self.browser),
            os: opt_view(self.os),
            device: opt_view(self.device),
            ip: opt_view(self.ip),
            app: opt_view(self.app),
        }
    }
}

/// The page-property keys folded into the event namespace: each key is
/// sanitized and put under `page_`.
pub open spec fn page_props_upserts(
    s: Seq<(Seq<char>, Seq<char>)>,
    ps: Seq<(Seq<char>, Seq<char>)>,
) -> Seq<(Seq<char>, Seq<char>)>
    decreases ps.len(),
{
    if ps.len() == 0 {
        s
    } else {
        upsert(
            page_props_upserts(s, ps.drop_last()),
            "page_"@ + sanitize_key(ps.last().0),
            ps.last().1,
        )
    }
}

/// The event-namespace properties after merging page data: `title` when
/// non-empty, `uri` as the url-search concatenation when the url is non-empty,
/// then every page property under a sanitized `page_` key.
pub open spec fn merged_event_props(
    s: Seq<(Seq<char>, Seq<char>)>,
    page: PageData,
) -> Seq<(Seq<char>, Seq<char>)> {
    let s1 = if page.title@.len() > 0 {
        upsert(s, "title"@, page.title@)
    } else {
        s
    };
    let s2 = if page.url@.len() > 0 {
        upsert(s1, "uri"@, page.url@ + page.search@)
    } else {
        s1
    };
    page_props_upserts(s2, pairs_view(page.properties@))
}

/// The referer scalar after merging page data.
pub open spec fn merged_referer(r: Option<Seq<char>>, page: PageData) -> Option<Seq<char>> {
    if page.referrer@.len() > 0 {
        Some(page.referrer@)
    } else {
        r
    }
}

/// A track model after merging page data into it.
pub open spec fn with_page(m: TrackModel, page: PageData) -> TrackModel {
    TrackModel {
        event_props: merged_event_props(m.event_props, page),
        referer: merged_referer(m.referer, page),
        ..m
    }
}

/// A track model after merging a track event's own properties into it.
pub open spec fn with_track(m: TrackModel, data: TrackData) -> TrackModel {
    TrackModel { event_props: upsert_all(m.event_props, pairs_view(data.properties@)), ..m }
}

/// The `os` scalar: name and version joined by one space, the name alone when
/// the version is empty, absent when the name is empty.
pub open spec fn os_field(c: Client) -> Option<Seq<char>> {
    if c.os_name@.len() > 0 {
        if c.os_version@.len() > 0 {
            Some(c.os_name@ + seq![' '] + c.os_version@)
        } else {
            Some(c.os_name@)
        }
    } else {
        None
    }
}

/// The `screen` scalar: `{width}x{height}`, present only when both sides are
/// strictly positive.
pub open spec fn screen_field(c: Client) -> Option<Seq<char>> {
    if c.screen_width > 0 && c.screen_height > 0 {
        Some(dec_nat(c.screen_width as nat) + seq!['x'] + dec_nat(c.screen_height as nat))
    } else {
        None
    }
}

/// The visitor-namespace properties taken from the event's context: ids when
/// non-empty, every context-user property verbatim, then the country code.
pub open spec fn base_visitor_props(ev: Event) -> Seq<(Seq<char>, Seq<char>)> {
    let s0 = Seq::<(Seq<char>, Seq<char>)>::empty();
    let s1 = if ev.context.user.anonymous_id@.len() > 0 {
        upsert(s0, "anonymous_id"@, ev.context.user.anonymous_id@)
    } else {
        s0
    };
    let s2 = if ev.context.user.user_id@.len() > 0 {
        upsert(s1, "user_id"@, ev.context.user.user_id@)
    } else {
        s1
    };
    let s3 = upsert_all(s2, pairs_view(ev.context.user.properties@));
    if ev.context.client.country_code@.len() > 0 {
        upsert(s3, "country"@, ev.context.client.country_code@)
    } else {
        s3
    }
}

/// The session-namespace properties, always present.
pub open spec fn base_session_props(ev: Event) -> Seq<(Seq<char>, Seq<char>)> {
    upsert(
        upsert(
            Seq::<(Seq<char>, Seq<char>)>::empty(),
            "session_id"@,
            ev.context.session.session_id@,
        ),
        "session_count"@,
        dec_nat(ev.context.session.session_count as nat),
    )
}

/// The whole track-style payload built from an event's shared context.
pub open spec fn base_track_model(ev: Event, project: Seq<char>, event: Seq<char>) -> TrackModel {
    TrackModel {
        project: project,
        event: event,
        timestamp: dec_int(ev.timestamp as int),
        visitor: base_visitor_props(ev),
        event_props: merged_event_props(Seq::<(Seq<char>, Seq<char>)>::empty(), ev.context.page),
        session: base_session_props(ev),
        screen: screen_field(ev.context.client),
        language: opt_nonempty(ev.context.client.locale@),
        referer: merged_referer(None, ev.context.page),
        timeout: None,
        browser: opt_nonempty(ev.context.client.user_agent_full_version_list@),
        os: os_field(ev.context.client),
        device: None,
        ip: opt_nonempty(ev.context.client.ip@),
        app: Some("Edgee"@),
    }
}

impl WoopraPayloadTrack {
    /// Builds the base track-style payload from the event's shared context:
    /// the required project, event and timestamp fields, the adapter's fixed
    /// app marker, page, client and session context, and visitor ids.
    pub fn new(edgee_event: &Event, project: String, event: String) -> (r: Result<
        WoopraPayloadTrack,
        String,
    >)
        ensures
            r matches Ok(p) && p@ == base_track_model(*edgee_event, project@, event@),
    {
        let mut payload = WoopraPayloadTrack {
            project,
            event,
            timestamp: i64_to_dec(edgee_event.timestamp),
            visitor_properties: Vec::new(),
            event_properties: Vec::new(),
            session_properties: Vec::new(),
            screen: None,
            language: None,
            referer: None,
            timeout: None,
            browser: None,
            os: None,
            device: None,
            ip: None,
            app: Some(String::from_str("Edgee")),
        };
        proof {
            assert(pairs_view(payload.visitor_properties@) =~= Seq::<(Seq<char>, Seq<char>)>::empty());
            assert(pairs_view(payload.event_properties@) =~= Seq::<(Seq<char>, Seq<char>)>::empty());
            assert(pairs_view(payload.session_properties@) =~= Seq::<(Seq<char>, Seq<char>)>::empty());
        }
        payload.add_page_properties(&edgee_event.context.page);
        if !edgee_event.context.client.locale.as_str().is_empty() {
            payload.language = Some(edgee_event.context.client.locale.clone());
        }
        if !edgee_event.context.client.user_agent_full_version_list.as_str().is_empty() {
            payload.browser = Some(edgee_event.context.client.user_agent_full_version_list.clone());
        }
        if !edgee_event.context.client.os_name.as_str().is_empty() {
            if !edgee_event.context.client.os_version.as_str().is_empty() {
                let mut os = edgee_event.context.client.os_name.clone();
                os.push(' ');
                os.append(edgee_event.context.client.os_version.as_str());
                proof {
                    assert(os@ =~= edgee_event.context.client.os_name@ + seq![' ']
                        + edgee_event.context.client.os_version@);
                }
                payload.os = Some(os);
            } else {
                payload.os = Some(edgee_event.context.client.os_name.clone());
            }
        }
        if edgee_event.context.client.screen_width > 0 && edgee_event.context.client.screen_height
            > 0 {
            let mut screen = u64_to_dec(edgee_event.context.client.screen_width as u64);
            screen.push('x');
            let height = u64_to_dec(edgee_event.context.client.screen_height as u64);
            screen.append(height.as_str());
            proof {
                assert(screen@ =~= dec_nat(edgee_event.context.client.screen_width as nat)
                    + seq!['x'] + dec_nat(edgee_event.context.client.screen_height as nat));
            }
            payload.screen = Some(screen);
        }
        if !edgee_event.context.user.anonymous_id.as_str().is_empty() {
            upsert_prop(
                &mut payload.visitor_properties,
                String::from_str("anonymous_id"),
                edgee_event.context.user.anonymous_id.clone(),
            );
        }
        if !edgee_event.context.user.user_id.as_str().is_empty() {
            upsert_prop(
                &mut payload.visitor_properties,
                String::from_str("user_id"),
                edgee_event.context.user.user_id.clone(),
            );
        }
        upsert_all_props(&mut payload.visitor_properties, &edgee_event.context.user.properties);
        if !edgee_event.context.client.country_code.as_str().is_empty() {
            upsert_prop(
                &mut payload.visitor_properties,
                String::from_str("country"),
                edgee_event.context.client.country_code.clone(),
            );
        }
        if !edgee_event.context.client.ip.as_str().is_empty() {
            payload.ip = Some(edgee_event.context.client.ip.clone());
        }
        upsert_prop(
            &mut payload.session_properties,
            String::from_str("session_id"),
            edgee_event.context.session.session_id.clone(),
        );
        upsert_prop(
            &mut payload.session_properties,
            String::from_str("session_count"),
            u64_to_dec(edgee_event.context.session.session_count as u64),
        );
        proof {
            assert(payload@ =~= base_track_model(*edgee_event, project@, event@));
        }
        Ok(payload)
    }

    /// Merges page data into the payload: event-namespace `title`, `uri` and
    /// sanitized `page_` properties, and the `referer` scalar.
    pub fn add_page_properties(&mut self, page: &PageData)
        ensures
            final(self)@ == with_page(old(self)@, *page),
    {
        if !page.title.as_str().is_empty() {
            upsert_prop(&mut self.event_properties, String::from_str("title"), page.title.clone());
        }
        if !page.url.as_str().is_empty() {
            let mut uri = page.url.clone();
            uri.append(page.search.as_str());
            upsert_prop(&mut self.event_properties, String::from_str("uri"), uri);
        }
        if !page.referrer.as_str().is_empty() {
            self.referer = Some(page.referrer.clone());
        }
        let ghost s2 = pairs_view(self.event_properties@);
        let ghost snap = *self;
        let mut i: usize = 0;
        while i < page.properties.len()
            invariant
                i <= page.properties.len(),
                pairs_view(self.event_properties@) == page_props_upserts(
                    s2,
                    pairs_view(page.properties@).subrange(0, i as int),
                ),
                self.project == snap.project,
                self.event == snap.event,
                self.timestamp == snap.timestamp,
                self.visitor_properties == snap.visitor_properties,
                self.session_properties == snap.session_properties,
                self.screen == snap.screen,
                self.language == snap.language,
                self.referer == snap.referer,
                self.timeout == snap.timeout,
                self.browser == snap.browser,
                self.os == snap.os,
                self.device == snap.device,
                self.ip == snap.ip,
                self.app == snap.app,
            decreases page.properties.len() - i,
        {
            let mut key = String::from_str("page_");
            let sanitized = sanitize(page.properties[i].0.as_str());
            key.append(sanitized.as_str());
            upsert_prop(&mut self.event_properties, key, page.properties[i].1.clone());
            proof {
                let all = pairs_view(page.properties@);
                let pre = all.subrange(0, i + 1);
                assert(pre.drop_last() =~= all.subrange(0, i as int));
                assert(pre.last() == (page.properties@[i as int].0@, page.properties@[i as int].1@));
            }
            i += 1;
        }
        proof {
            assert(pairs_view(page.properties@).subrange(0, page.properties@.len() as int)
                =~= pairs_view(page.properties@));
        }
    }

    /// Merges a track event's own properties verbatim into the event
    /// namespace.
    pub fn add_track_properties(&mut self, data: &TrackData)
        ensures
            final(self)@ == with_track(old(self)@, *data),
    {
        upsert_all_props(&mut self.event_properties, &data.properties);
    }
}

// ---------------------------------------------------------------------------
// Identify-style payload
// ---------------------------------------------------------------------------
/// Mathematical model of an identify-style payload.
#[verifier::ext_equal]
pub ghost struct IdentifyModel {
    pub project: Seq<char>,
    pub visitor: Seq<(Seq<char>, Seq<char>)>,
    pub cv_id: Option<Seq<char>>,
    pub cookie: Option<Seq<char>>,
}

/// Payload for the identify endpoint, used by the user entry point.
pub struct WoopraPayloadIdentify {
    pub project: String,
    pub visitor_properties: Vec<(String, String)>,
    pub cv_id: Option<String>,
    pub cookie: Option<String>,
}

impl View for WoopraPayloadIdentify {
    type V = IdentifyModel;

    open spec fn view(&self) -> IdentifyModel {
        IdentifyModel {
            project: self.project@,
            visitor: pairs_view(self.visitor_properties@),
            cv_id: opt_view(self.cv_id),
            cookie: opt_view(self.cookie),
        }
    }
}

/// The identifier after merging user data: the user id when non-empty takes
/// precedence over a non-empty anonymous id; otherwise the old value stays.
pub open spec fn merged_cv_id(r: Option<Seq<char>>, user: UserData) -> Option<Seq<char>> {
    if user.user_id@.len() > 0 {
        Some(user.user_id@)
    } else if user.anonymous_id@.len() > 0 {
        Some(user.anonymous_id@)
    } else {
        r
    }
}

/// An identify model after merging user data into it.
pub open spec fn with_user(m: IdentifyModel, user: UserData) -> IdentifyModel {
    IdentifyModel {
        visitor: upsert_all(m.visitor, pairs_view(user.properties@)),
        cv_id: merged_cv_id(m.cv_id, user),
        ..m
    }
}

/// The whole identify-style payload built from an event's shared context.
pub open spec fn base_identify_model(ev: Event, project: Seq<char>) -> IdentifyModel {
    let m0 = IdentifyModel {
        project: project,
        visitor: Seq::<(Seq<char>, Seq<char>)>::empty(),
        cv_id: None,
        cookie: None,
    };
    let m1 = with_user(m0, ev.context.user);
    if ev.context.client.country_code@.len() > 0 {
        IdentifyModel {
            visitor: upsert(m1.visitor, "country"@, ev.context.client.country_code@),
            ..m1
        }
    } else {
        m1
    }
}

impl WoopraPayloadIdentify {
    /// Builds the identify-style payload from the event's shared context:
    /// the required project field, the context user's identifier and
    /// properties, and the country code.
    pub fn new(edgee_event: &Event, project: String) -> (r: Result<WoopraPayloadIdentify, String>)
        ensures
            r matches Ok(p) && p@ == base_identify_model(*edgee_event, project@),
    {
        let mut payload = WoopraPayloadIdentify {
            project,
            visitor_properties: Vec::new(),
            cv_id: None,
            cookie: None,
        };
        proof {
            assert(pairs_view(payload.visitor_properties@) =~= Seq::<(Seq<char>, Seq<char>)>::empty());
        }
        payload.add_user_properties(&edgee_event.context.user);
        if !edgee_event.context.client.country_code.as_str().is_empty() {
            upsert_prop(
                &mut payload.visitor_properties,
                String::from_str("country"),
                edgee_event.context.client.country_code.clone(),
            );
        }
        proof {
            assert(payload@ =~= base_identify_model(*edgee_event, project@));
        }
        Ok(payload)
    }

    /// Merges user data into the payload: the `cv_id` identifier, with the
    /// user id overriding the anonymous id, and every user property verbatim
    /// into the visitor namespace.
    pub fn add_user_properties(&mut self, user: &UserData)
        ensures
            final(self)@ == with_user(old(self)@, *user),
    {
        if !user.anonymous_id.as_str().is_empty() {
            self.cv_id = Some(user.anonymous_id.clone());
        }
        if !user.user_id.as_str().is_empty() {
            self.cv_id = Some(user.user_id.clone());
        }
        upsert_all_props(&mut self.visitor_properties, &user.properties);
    }
}

// ---------------------------------------------------------------------------
// Rendering a payload into query parameters
// ---------------------------------------------------------------------------
/// The parameter contributed by one optional scalar field: upserted when
/// present, nothing when absent, so a scalar whose name collides with an
/// already rendered key overwrites that key's value instead of repeating the
/// key.
pub open spec fn upsert_opt(
    s: Seq<(Seq<char>, Seq<char>)>,
    name: Seq<char>,
    o: Option<Seq<char>>,
) -> Seq<(Seq<char>, Seq<char>)> {
    match o {
        Some(v) => upsert(s, name, v),
        None => s,
    }
}

/// Every query parameter of a track-style payload: the three required fields,
/// the three namespaced property lists under their tags, then the optional
/// scalars. Each piece is upserted, so every present key appears exactly
/// once, last write wins.
pub open spec fn track_model_pairs(m: TrackModel) -> Seq<(Seq<char>, Seq<char>)> {
    let s0 = seq![("project"@, m.project), ("event"@, m.event), ("timestamp"@, m.timestamp)];
    let s1 = upsert_all(s0, tag_pairs("cv_"@, m.visitor));
    let s2 = upsert_all(s1, tag_pairs("ce_"@, m.event_props));
    let s3 = upsert_all(s2, tag_pairs("cs_"@, m.session));
    let s4 = upsert_opt(s3, "screen"@, m.screen);
    let s5 = upsert_opt(s4, "language"@, m.language);
    let s6 = upsert_opt(s5, "referer"@, m.referer);
    let s7 = upsert_opt(s6, "timeout"@, m.timeout);
    let s8 = upsert_opt(s7, "browser"@, m.browser);
    let s9 = upsert_opt(s8, "os"@, m.os);
    let s10 = upsert_opt(s9, "device"@, m.device);
    let s11 = upsert_opt(s10, "ip"@, m.ip);
    upsert_opt(s11, "app"@, m.app)
}

/// Every query parameter of an identify-style payload, each present key
/// exactly once: a visitor property that collides with the `cv_id`
/// identifier is overwritten by it.
pub open spec fn identify_model_pairs(m: IdentifyModel) -> Seq<(Seq<char>, Seq<char>)> {
    let s0 = seq![("project"@, m.project)];
    let s1 = upsert_all(s0, tag_pairs("cv_"@, m.visitor));
    let s2 = upsert_opt(s1, "cv_id"@, m.cv_id);
    upsert_opt(s2, "cookie"@, m.cookie)
}

fn merge_opt(out: &mut Vec<(String, String)>, name: &str, o: &Option<String>)
    ensures
        pairs_view(final(out)@) == upsert_opt(pairs_view(old(out)@), name@, opt_view(*o)),
{
    match o {
        Some(v) => {
            upsert_prop(out, String::from_str(name), v.clone());
        },
        None => {},
    }
}

impl WoopraPayloadTrack {
    /// The payload as flat query parameters, namespaced keys under their tags.
    pub fn to_query_pairs(&self) -> (r: Vec<(String, String)>)
        ensures
            pairs_view(r@) == track_model_pairs(self@),
    {
        let mut out: Vec<(String, String)> = Vec::new();
        out.push((String::from_str("project"), self.project.clone()));
        out.push((String::from_str("event"), self.event.clone()));
        out.push((String::from_str("timestamp"), self.timestamp.clone()));
        proof {
            assert(pairs_view(out@) =~= seq![
                ("project"@, self.project@),
                ("event"@, self.event@),
                ("timestamp"@, self.timestamp@),
            ]);
        }
        serialize_cv_prefixed(&mut out, &self.visitor_properties);
        serialize_ce_prefixed(&mut out, &self.event_properties);
        serialize_cs_prefixed(&mut out, &self.session_properties);
        merge_opt(&mut out, "screen", &self.screen);
        merge_opt(&mut out, "language", &self.language);
        merge_opt(&mut out, "referer", &self.referer);
        merge_opt(&mut out, "timeout", &self.timeout);
        merge_opt(&mut out, "browser", &self.browser);
        merge_opt(&mut out, "os", &self.os);
        merge_opt(&mut out, "device", &self.device);
        merge_opt(&mut out, "ip", &self.ip);
        merge_opt(&mut out, "app", &self.app);
        proof {
            assert(pairs_view(out@) =~= track_model_pairs(self@));
        }
        out
    }
}

impl WoopraPayloadIdentify {
    /// The payload as flat query parameters, visitor keys under the `cv_` tag.
    pub fn to_query_pairs(&self) -> (r: Vec<(String, String)>)
        ensures
            pairs_view(r@) == identify_model_pairs(self@),
    {
        let mut out: Vec<(String, String)> = Vec::new();
        out.push((String::from_str("project"), self.project.clone()));
        proof {
            assert(pairs_view(out@) =~= seq![("project"@, self.project@)]);
        }
        serialize_cv_prefixed(&mut out, &self.visitor_properties);
        merge_opt(&mut out, "cv_id", &self.cv_id);
        merge_opt(&mut out, "cookie", &self.cookie);
        proof {
            assert(pairs_view(out@) =~= identify_model_pairs(self@));
        }
        out
    }
}

} // verus!
