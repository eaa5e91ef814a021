//! The host-facing data model: the normalized analytics event that the host
//! hands to each entry point, and the outbound request descriptor handed back.
use vstd::prelude::*;

verus! {

/// Key-value string pairs, as the host supplies settings and properties.
pub type Dict = Vec<(String, String)>;

/// Page-view payload data and the page part of the shared context.
pub struct PageData {
    pub name: String,
    pub category: String,
    pub keywords: Vec<String>,
    pub title: String,
    pub url: String,
    pub path: String,
    pub search: String,
    pub referrer: String,
    pub properties: Dict,
}

/// Custom-track payload data.
pub struct TrackData {
    pub name: String,
    pub products: Vec<Dict>,
    pub properties: Dict,
}

/// User-identify payload data and the user part of the shared context.
pub struct UserData {
    pub user_id: String,
    pub anonymous_id: String,
    pub edgee_id: String,
    pub properties: Dict,
}

/// Device, browser, locale and geo attributes; empty string means absent.
pub struct Client {
    pub city: String,
    pub ip: String,
    pub locale: String,
    pub timezone: String,
    pub user_agent: String,
    pub user_agent_architecture: String,
    pub user_agent_bitness: String,
    pub user_agent_full_version_list: String,
    pub user_agent_version_list: String,
    pub user_agent_mobile: String,
    pub user_agent_model: String,
    pub os_name: String,
    pub os_version: String,
    pub screen_width: i32,
    pub screen_height: i32,
    pub continent: String,
    pub country_code: String,
    pub country_name: String,
    pub region: String,
}

/// Campaign attribution attributes.
pub struct Campaign {
    pub name: String,
    pub source: String,
    pub medium: String,
    pub term: String,
    pub content: String,
    pub creative_format: String,
    pub marketing_tactic: String,
}

/// Session bookkeeping supplied by the host.
pub struct Session {
    pub session_id: String,
    pub previous_session_id: String,
    pub session_count: u32,
    pub session_start: bool,
    pub first_seen: i64,
    pub last_seen: i64,
}

/// The shared context attached to every event.
pub struct Context {
    pub page: PageData,
    pub user: UserData,
    pub client: Client,
    pub campaign: Campaign,
    pub session: Session,
}

/// Which kind of event the host captured.
#[derive(Clone, Copy, PartialEq, Eq, Structural, Debug)]
pub enum EventType {
    Page,
    Track,
    User,
}

/// The event payload, tagged by kind.
pub enum Data {
    Page(PageData),
    Track(TrackData),
    User(UserData),
}

/// End-user consent status forwarded by the host.
#[derive(Clone, Copy, PartialEq, Eq, Structural, Debug)]
pub enum Consent {
    Pending,
    Granted,
    Denied,
}

/// One normalized analytics event plus its shared context.
pub struct Event {
    pub uuid: String,
    pub timestamp: i64,
    pub timestamp_millis: i64,
    pub timestamp_micros: i64,
    pub event_type: EventType,
    pub data: Data,
    pub context: Context,
    pub consent: Option<Consent>,
}

/// HTTP method of the outbound request.
#[derive(Clone, Copy, PartialEq, Eq, Structural, Debug)]
pub enum HttpMethod {
    Get,
    Put,
    Post,
    Delete,
}

/// The outbound request descriptor returned to the host, which owns delivery.
#[derive(Debug)]
pub struct EdgeeRequest {
    pub method: HttpMethod,
    pub url: String,
    pub headers: Vec<(String, String)>,
    pub forward_client_headers: bool,
    pub body: String,
}

} // verus!
