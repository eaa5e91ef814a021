//! Woopra data-collection component: turns normalized analytics events into
//! outbound GET requests against the Woopra query-string tracking API.
//!
//! Each entry point resolves the required `project_name` setting, folds the
//! event into the matching payload shape, renders the payload as a
//! namespace-prefixed query string, and wraps it in a request descriptor for
//! the host to deliver.
use vstd::prelude::*;

pub mod events;
pub mod laws;
pub mod props;
pub mod query;
pub mod woopra_payload;

verus! {

use crate::events::{Data, Dict, EdgeeRequest, Event, HttpMethod};
use crate::query::{encode_query, pairs_view, qs_of};
use crate::woopra_payload::{
    base_identify_model, base_track_model, identify_model_pairs, track_model_pairs, with_page,
    with_track, with_user, WoopraPayloadIdentify, WoopraPayloadTrack,
};
use vstd::string::StringExecFns;

/// The fixed vendor host every request is sent to.
pub open spec fn woopra_host() -> Seq<char> {
    "https://www.woopra.com"@
}

/// The endpoint path for page and custom-track events.
pub open spec fn track_endpoint() -> Seq<char> {
    "/track/ce"@
}

/// The endpoint path for user-identify events.
pub open spec fn identify_endpoint() -> Seq<char> {
    "/track/identify"@
}

/// The full request URL: host, endpoint and query string.
pub open spec fn request_url(endpoint: Seq<char>, qs: Seq<char>) -> Seq<char> {
    woopra_host() + endpoint + seq!['?'] + qs
}

/// The value of the last `project_name` entry of a settings list, absent when
/// no entry has that key: duplicate keys are last-write-wins.
pub open spec fn project_of(s: Seq<(Seq<char>, Seq<char>)>) -> Option<Seq<char>>
    decreases s.len(),
{
    if s.len() == 0 {
        None
    } else if s.last().0 == "project_name"@ {
        Some(s.last().1)
    } else {
        project_of(s.drop_last())
    }
}

/// The settings this component reads, resolved from the host's settings map.
pub struct Settings {
    pub project_name: String,
}

impl Settings {
    /// Resolves the required `project_name` setting. Any present value is
    /// accepted as-is, the empty string included; only an absent key fails.
    pub fn new(settings_dict: Dict) -> (r: Result<Settings, String>)
        ensures
            project_of(pairs_view(settings_dict@)) matches Some(p) ==> (r matches Ok(s)
                && s.project_name@ == p),
            project_of(pairs_view(settings_dict@)) is None ==> (r matches Err(e) && e@
                == "Missing example setting"@),
    {
        let key = String::from_str("project_name");
        let mut found: Option<String> = None;
        let mut i: usize = 0;
        while i < settings_dict.len()
            invariant
                i <= settings_dict.len(),
                key@ == "project_name"@,
                match found {
                    Some(p) => project_of(pairs_view(settings_dict@).subrange(0, i as int))
                        == Some(p@),
                    None => project_of(pairs_view(settings_dict@).subrange(0, i as int)) is None,
                },
            decreases settings_dict.len() - i,
        {
            proof {
                let all = pairs_view(settings_dict@);
                let pre = all.subrange(0, i + 1);
                assert(pre.drop_last() =~= all.subrange(0, i as int));
                assert(pre.last() == (settings_dict@[i as int].0@, settings_dict@[i as int].1@));
            }
            if settings_dict[i].0 == key {
                found = Some(settings_dict[i].1.clone());
            }
            i += 1;
        }
        proof {
            assert(pairs_view(settings_dict@).subrange(0, settings_dict@.len() as int)
                =~= pairs_view(settings_dict@));
        }
        match found {
            Some(project_name) => Ok(Settings { project_name }),
            None => Err(String::from_str("Missing example setting")),
        }
    }
}

/// True of a request descriptor built for the given endpoint and query
/// string: method GET, the assembled URL, the fixed `content-length: 0`
/// header, the client-header forwarding flag, and an empty body.
pub open spec fn ok_request(req: EdgeeRequest, endpoint: Seq<char>, qs: Seq<char>) -> bool {
    &&& req.method == HttpMethod::Get
    &&& req.url@ == request_url(endpoint, qs)
    &&& req.headers@.len() == 1
    &&& req.headers@[0].0@ == "content-length"@
    &&& req.headers@[0].1@ == "0"@
    &&& req.forward_client_headers == true
    &&& req.body@ == Seq::<char>::empty()
}

/// Assembles the outbound request descriptor around a rendered query string.
pub fn build_edgee_request(querystring: String, endpoint: String) -> (r: Result<
    EdgeeRequest,
    String,
>)
    ensures
        r matches Ok(req) && ok_request(req, endpoint@, querystring@),
{
    let mut headers: Vec<(String, String)> = Vec::new();
    headers.push((String::from_str("content-length"), String::from_str("0")));
    let mut url = String::from_str("https://www.woopra.com");
    url.append(endpoint.as_str());
    url.push('?');
    url.append(querystring.as_str());
    proof {
        assert(url@ =~= request_url(endpoint@, querystring@));
    }
    Ok(EdgeeRequest {
        method: HttpMethod::Get,
        url,
        headers,
        forward_client_headers: true,
        body: String::new(),
    })
}

/// Every query parameter of a successful page request: the base track model
/// for the fixed `pv` event, with the page data merged a second time.
pub open spec fn page_request_pairs(ev: Event, project: Seq<char>) -> Seq<(Seq<char>, Seq<char>)> {
    track_model_pairs(with_page(base_track_model(ev, project, "pv"@), ev.data->Page_0))
}

/// Every query parameter of a successful track request: the base track model
/// for the event's own name, with the track properties merged.
pub open spec fn track_request_pairs(ev: Event, project: Seq<char>) -> Seq<(Seq<char>, Seq<char>)> {
    track_model_pairs(
        with_track(base_track_model(ev, project, ev.data->Track_0.name@), ev.data->Track_0),
    )
}

/// Every query parameter of a successful user request: the base identify
/// model from the shared context, with the event's own user data merged.
pub open spec fn user_request_pairs(ev: Event, project: Seq<char>) -> Seq<(Seq<char>, Seq<char>)> {
    identify_model_pairs(with_user(base_identify_model(ev, project), ev.data->User_0))
}

/// Handles a page-view event: requires `Page` data and the `project_name`
/// setting, and returns the `/track/ce` request for the `pv` event.
pub fn page(edgee_event: Event, settings_dict: Dict) -> (r: Result<EdgeeRequest, String>)
    ensures
        !(edgee_event.data is Page) ==> (r matches Err(e) && e@ == "Missing page data"@),
        edgee_event.data is Page && project_of(pairs_view(settings_dict@)) is None ==> (r matches
            Err(e) && e@ == "Missing example setting"@),
        edgee_event.data is Page ==> (project_of(pairs_view(settings_dict@)) matches Some(p) ==> (r
            matches Ok(req) && ok_request(
            req,
            track_endpoint(),
            qs_of(page_request_pairs(edgee_event, p)),
        ))),
{
    if let Data::Page(data) = &edgee_event.data {
        let settings = match Settings::new(settings_dict) {
            Ok(s) => s,
            Err(e) => {
                return Err(e);
            },
        };
        let mut payload = match WoopraPayloadTrack::new(
            &edgee_event,
            settings.project_name,
            String::from_str("pv"),
        ) {
            Ok(p) => p,
            Err(e) => {
                return Err(e);
            },
        };
        payload.add_page_properties(data);
        let querystring = encode_query(&payload.to_query_pairs());
        build_edgee_request(querystring, String::from_str("/track/ce"))
    } else {
        Err(String::from_str("Missing page data"))
    }
}

/// Handles a custom-track event: requires `Track` data with a non-empty name
/// and the `project_name` setting, and returns the `/track/ce` request for
/// the event's own name.
pub fn track(edgee_event: Event, settings_dict: Dict) -> (r: Result<EdgeeRequest, String>)
    ensures
        !(edgee_event.data is Track) ==> (r matches Err(e) && e@ == "Missing track data"@),
        edgee_event.data is Track && edgee_event.data->Track_0.name@.len() == 0 ==> (r matches Err(
            e,
        ) && e@ == "Track is not set"@),
        edgee_event.data is Track && edgee_event.data->Track_0.name@.len() > 0 && project_of(
            pairs_view(settings_dict@),
        ) is None ==> (r matches Err(e) && e@ == "Missing example setting"@),
        edgee_event.data is Track && edgee_event.data->Track_0.name@.len() > 0 ==> (project_of(
            pairs_view(settings_dict@),
        ) matches Some(p) ==> (r matches Ok(req) && ok_request(
            req,
            track_endpoint(),
            qs_of(track_request_pairs(edgee_event, p)),
        ))),
{
    if let Data::Track(data) = &edgee_event.data {
        if data.name.as_str().is_empty() {
            return Err(String::from_str("Track is not set"));
        }
        let settings = match Settings::new(settings_dict) {
            Ok(s) => s,
            Err(e) => {
                return Err(e);
            },
        };
        let mut payload = match WoopraPayloadTrack::new(
            &edgee_event,
            settings.project_name,
            data.name.clone(),
        ) {
            Ok(p) => p,
            Err(e) => {
                return Err(e);
            },
        };
        payload.add_track_properties(data);
        let querystring = encode_query(&payload.to_query_pairs());
        build_edgee_request(querystring, String::from_str("/track/ce"))
    } else {
        Err(String::from_str("Missing track data"))
    }
}

/// Handles a user-identify event: requires `User` data and the
/// `project_name` setting, and returns the `/track/identify` request.
pub fn user(edgee_event: Event, settings_dict: Dict) -> (r: Result<EdgeeRequest, String>)
    ensures
        !(edgee_event.data is User) ==> (r matches Err(e) && e@ == "Missing user data"@),
        edgee_event.data is User && project_of(pairs_view(settings_dict@)) is None ==> (r matches
            Err(e) && e@ == "Missing example setting"@),
        edgee_event.data is User ==> (project_of(pairs_view(settings_dict@)) matches Some(p) ==> (r
            matches Ok(req) && ok_request(
            req,
            identify_endpoint(),
            qs_of(user_request_pairs(edgee_event, p)),
        ))),
{
    if let Data::User(data) = &edgee_event.data {
        let settings = match Settings::new(settings_dict) {
            Ok(s) => s,
            Err(e) => {
                return Err(e);
            },
        };
        let mut payload = match WoopraPayloadIdentify::new(&edgee_event, settings.project_name) {
            Ok(p) => p,
            Err(e) => {
                return Err(e);
            },
        };
        payload.add_user_properties(data);
        let querystring = encode_query(&payload.to_query_pairs());
        build_edgee_request(querystring, String::from_str("/track/identify"))
    } else {
        Err(String::from_str("Missing user data"))
    }
}

} // verus!
