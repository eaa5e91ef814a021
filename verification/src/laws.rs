//! Laws of the component, stated and proved over the same spec functions
//! that the executable functions' contracts use.
use vstd::prelude::*;

verus! {

use crate::events::Event;
use crate::props::{
    lemma_upsert_all_first, lemma_upsert_all_unique, lemma_upsert_first, lemma_upsert_keys,
    tag_key, tag_pairs, unique_keys,
};
use crate::query::{escape_byte, escape_bytes, escape_str, is_plain_byte, pair_str, qs_of};
use crate::woopra_payload::{
    identify_model_pairs, track_model_pairs, upsert_opt, IdentifyModel, TrackModel,
};
use crate::{
    identify_endpoint, page_request_pairs, request_url, track_endpoint, track_request_pairs,
    user_request_pairs, woopra_host,
};
use vstd::utf8::{encode_utf8, is_ascii_chars, is_ascii_chars_encode_utf8};

proof fn lemma_upsert_opt_first(
    s: Seq<(Seq<char>, Seq<char>)>,
    name: Seq<char>,
    o: Option<Seq<char>>,
)
    ensures
        s.len() > 0 ==> upsert_opt(s, name, o).len() > 0 && upsert_opt(s, name, o)[0].0 == s[0].0,
{
    match o {
        Some(v) => lemma_upsert_first(s, name, v),
        None => {},
    }
}

proof fn lemma_upsert_opt_unique(
    s: Seq<(Seq<char>, Seq<char>)>,
    name: Seq<char>,
    o: Option<Seq<char>>,
)
    ensures
        unique_keys(s) ==> unique_keys(upsert_opt(s, name, o)),
{
    match o {
        Some(v) => lemma_upsert_keys(s, name, v),
        None => {},
    }
}

/// A rendered track-style payload is never empty and begins with the
/// `project` parameter.
proof fn lemma_track_model_pairs_project(m: TrackModel)
    ensures
        track_model_pairs(m).len() > 0,
        track_model_pairs(m)[0].0 == "project"@,
{
    let s0 = seq![("project"@, m.project), ("event"@, m.event), ("timestamp"@, m.timestamp)];
    let s1 = crate::props::upsert_all(s0, tag_pairs("cv_"@, m.visitor));
    let s2 = crate::props::upsert_all(s1, tag_pairs("ce_"@, m.event_props));
    let s3 = crate::props::upsert_all(s2, tag_pairs("cs_"@, m.session));
    let s4 = upsert_opt(s3, "screen"@, m.screen);
    let s5 = upsert_opt(s4, "language"@, m.language);
    let s6 = upsert_opt(s5, "referer"@, m.referer);
    let s7 = upsert_opt(s6, "timeout"@, m.timeout);
    let s8 = upsert_opt(s7, "browser"@, m.browser);
    let s9 = upsert_opt(s8, "os"@, m.os);
    let s10 = upsert_opt(s9, "device"@, m.device);
    let s11 = upsert_opt(s10, "ip"@, m.ip);
    lemma_upsert_all_first(s0, tag_pairs("cv_"@, m.visitor));
    lemma_upsert_all_first(s1, tag_pairs("ce_"@, m.event_props));
    lemma_upsert_all_first(s2, tag_pairs("cs_"@, m.session));
    lemma_upsert_opt_first(s3, "screen"@, m.screen);
    lemma_upsert_opt_first(s4, "language"@, m.language);
    lemma_upsert_opt_first(s5, "referer"@, m.referer);
    lemma_upsert_opt_first(s6, "timeout"@, m.timeout);
    lemma_upsert_opt_first(s7, "browser"@, m.browser);
    lemma_upsert_opt_first(s8, "os"@, m.os);
    lemma_upsert_opt_first(s9, "device"@, m.device);
    lemma_upsert_opt_first(s10, "ip"@, m.ip);
    lemma_upsert_opt_first(s11, "app"@, m.app);
}

/// A rendered identify-style payload is never empty and begins with the
/// `project` parameter.
proof fn lemma_identify_model_pairs_project(m: IdentifyModel)
    ensures
        identify_model_pairs(m).len() > 0,
        identify_model_pairs(m)[0].0 == "project"@,
{
    let s0 = seq![("project"@, m.project)];
    let s1 = crate::props::upsert_all(s0, tag_pairs("cv_"@, m.visitor));
    let s2 = upsert_opt(s1, "cv_id"@, m.cv_id);
    lemma_upsert_all_first(s0, tag_pairs("cv_"@, m.visitor));
    lemma_upsert_opt_first(s1, "cv_id"@, m.cv_id);
    lemma_upsert_opt_first(s2, "cookie"@, m.cookie);
}

/// Every key of a rendered track-style payload appears exactly once.
pub proof fn lemma_track_model_pairs_unique(m: TrackModel)
    ensures
        unique_keys(track_model_pairs(m)),
{
    let s0 = seq![("project"@, m.project), ("event"@, m.event), ("timestamp"@, m.timestamp)];
    reveal_strlit("project");
    reveal_strlit("event");
    reveal_strlit("timestamp");
    assert("project"@.len() == 7 && "event"@.len() == 5 && "timestamp"@.len() == 9);
    assert forall|i: int, j: int| 0 <= i < j < s0.len() implies (#[trigger] s0[i]).0 != (
    #[trigger] s0[j]).0 by {
        assert(s0[i].0.len() != s0[j].0.len());
    }
    assert(unique_keys(s0));
    let s1 = crate::props::upsert_all(s0, tag_pairs("cv_"@, m.visitor));
    let s2 = crate::props::upsert_all(s1, tag_pairs("ce_"@, m.event_props));
    let s3 = crate::props::upsert_all(s2, tag_pairs("cs_"@, m.session));
    let s4 = upsert_opt(s3, "screen"@, m.screen);
    let s5 = upsert_opt(s4, "language"@, m.language);
    let s6 = upsert_opt(s5, "referer"@, m.referer);
    let s7 = upsert_opt(s6, "timeout"@, m.timeout);
    let s8 = upsert_opt(s7, "browser"@, m.browser);
    let s9 = upsert_opt(s8, "os"@, m.os);
    let s10 = upsert_opt(s9, "device"@, m.device);
    let s11 = upsert_opt(s10, "ip"@, m.ip);
    lemma_upsert_all_unique(s0, tag_pairs("cv_"@, m.visitor));
    lemma_upsert_all_unique(s1, tag_pairs("ce_"@, m.event_props));
    lemma_upsert_all_unique(s2, tag_pairs("cs_"@, m.session));
    lemma_upsert_opt_unique(s3, "screen"@, m.screen);
    lemma_upsert_opt_unique(s4, "language"@, m.language);
    lemma_upsert_opt_unique(s5, "referer"@, m.referer);
    lemma_upsert_opt_unique(s6, "timeout"@, m.timeout);
    lemma_upsert_opt_unique(s7, "browser"@, m.browser);
    lemma_upsert_opt_unique(s8, "os"@, m.os);
    lemma_upsert_opt_unique(s9, "device"@, m.device);
    lemma_upsert_opt_unique(s10, "ip"@, m.ip);
    lemma_upsert_opt_unique(s11, "app"@, m.app);
}

/// Every key of a rendered identify-style payload appears exactly once.
pub proof fn lemma_identify_model_pairs_unique(m: IdentifyModel)
    ensures
        unique_keys(identify_model_pairs(m)),
{
    let s0 = seq![("project"@, m.project)];
    assert(unique_keys(s0));
    let s1 = crate::props::upsert_all(s0, tag_pairs("cv_"@, m.visitor));
    let s2 = upsert_opt(s1, "cv_id"@, m.cv_id);
    lemma_upsert_all_unique(s0, tag_pairs("cv_"@, m.visitor));
    lemma_upsert_opt_unique(s1, "cv_id"@, m.cv_id);
    lemma_upsert_opt_unique(s2, "cookie"@, m.cookie);
}

/// Every query key of a successful page request appears exactly once.
pub proof fn lemma_page_request_keys_unique(ev: Event, project: Seq<char>)
    ensures
        unique_keys(page_request_pairs(ev, project)),
{
    lemma_track_model_pairs_unique(
        crate::woopra_payload::with_page(
            crate::woopra_payload::base_track_model(ev, project, "pv"@),
            ev.data->Page_0,
        ),
    );
}

/// Every query key of a successful track request appears exactly once.
pub proof fn lemma_track_request_keys_unique(ev: Event, project: Seq<char>)
    ensures
        unique_keys(track_request_pairs(ev, project)),
{
    lemma_track_model_pairs_unique(
        crate::woopra_payload::with_track(
            crate::woopra_payload::base_track_model(ev, project, ev.data->Track_0.name@),
            ev.data->Track_0,
        ),
    );
}

/// Every query key of a successful user request appears exactly once.
pub proof fn lemma_user_request_keys_unique(ev: Event, project: Seq<char>)
    ensures
        unique_keys(user_request_pairs(ev, project)),
{
    lemma_identify_model_pairs_unique(
        crate::woopra_payload::with_user(
            crate::woopra_payload::base_identify_model(ev, project),
            ev.data->User_0,
        ),
    );
}

/// Namespace prefixing is idempotent: tagging a key that already carries the
/// tag leaves it unchanged, so no key is ever double-prefixed.
pub proof fn lemma_prefix_idempotent(tag: Seq<char>, k: Seq<char>)
    ensures
        tag_key(tag, tag_key(tag, k)) == tag_key(tag, k),
{
    let t = tag_key(tag, k);
    if k.len() >= tag.len() && k.subrange(0, tag.len() as int) == tag {
    } else {
        assert((tag + k).subrange(0, tag.len() as int) =~= tag);
    }
}

/// Every key of a rendered namespace begins with the namespace's tag.
pub proof fn lemma_tagged_keys_carry_tag(tag: Seq<char>, s: Seq<(Seq<char>, Seq<char>)>)
    ensures
        forall|i: int|
            0 <= i < tag_pairs(tag, s).len() ==> (#[trigger] tag_pairs(tag, s)[i]).0.len()
                >= tag.len() && tag_pairs(tag, s)[i].0.subrange(0, tag.len() as int) == tag,
{
    assert forall|i: int|
        0 <= i < tag_pairs(tag, s).len() implies (#[trigger] tag_pairs(tag, s)[i]).0.len()
        >= tag.len() && tag_pairs(tag, s)[i].0.subrange(0, tag.len() as int) == tag by {
        let k = s[i].0;
        if !(k.len() >= tag.len() && k.subrange(0, tag.len() as int) == tag) {
            assert((tag + k).subrange(0, tag.len() as int) =~= tag);
        }
    }
}

/// Rendering a namespace a second time changes nothing: prefixing a whole
/// property list is idempotent.
pub proof fn lemma_tag_pairs_idempotent(tag: Seq<char>, s: Seq<(Seq<char>, Seq<char>)>)
    ensures
        tag_pairs(tag, tag_pairs(tag, s)) == tag_pairs(tag, s),
{
    assert forall|i: int|
        0 <= i < s.len() implies #[trigger] tag_pairs(tag, tag_pairs(tag, s))[i] == tag_pairs(
        tag,
        s,
    )[i] by {
        lemma_prefix_idempotent(tag, s[i].0);
    }
    assert(tag_pairs(tag, tag_pairs(tag, s)) =~= tag_pairs(tag, s));
}

/// True of the characters that the query-string escaping leaves unchanged.
pub open spec fn is_plain_char(c: char) -> bool {
    ' ' < c < '\u{7f}' && c != '"' && c != '#' && c != '<' && c != '>' && c != '%' && c != '+'
        && c != '[' && c != ']' && c != '=' && c != '&'
}

proof fn lemma_escape_bytes_plain(b: Seq<u8>)
    requires
        forall|i: int| 0 <= i < b.len() ==> is_plain_byte(#[trigger] b[i]),
    ensures
        escape_bytes(b).len() == b.len(),
        forall|i: int| 0 <= i < b.len() ==> escape_bytes(b)[i] == (#[trigger] b[i]) as char,
    decreases b.len(),
{
    if b.len() > 0 {
        let front = b.drop_last();
        lemma_escape_bytes_plain(front);
        assert(escape_byte(b.last()) =~= seq![b.last() as char]);
        assert(escape_bytes(b) == escape_bytes(front) + escape_byte(b.last()));
        assert forall|i: int| 0 <= i < b.len() implies escape_bytes(b)[i] == (
        #[trigger] b[i]) as char by {
            if i < b.len() - 1 {
                assert(escape_bytes(b)[i] == escape_bytes(front)[i]);
                assert(front[i] == b[i]);
            } else {
                assert(escape_bytes(b)[i] == escape_byte(b.last())[0]);
            }
        }
    }
}

/// A string of plain characters passes through the query-string escaping
/// unchanged.
pub proof fn lemma_escape_plain(s: Seq<char>)
    ensures
        (forall|i: int| 0 <= i < s.len() ==> is_plain_char(#[trigger] s[i])) ==> escape_str(s) == s,
{
    if forall|i: int| 0 <= i < s.len() ==> is_plain_char(#[trigger] s[i]) {
        assert(is_ascii_chars(s));
        is_ascii_chars_encode_utf8(s);
        let b = encode_utf8(s);
        assert forall|i: int| 0 <= i < b.len() implies is_plain_byte(#[trigger] b[i]) by {
            assert(b[i] == s[i] as u8);
        }
        lemma_escape_bytes_plain(b);
        assert forall|i: int| 0 <= i < b.len() implies escape_bytes(b)[i] == s[i] by {
            vstd::utf8::char_u32_cast(s[i], s[i] as u32);
            assert(b[i] == s[i] as u8);
            assert((b[i] as char) == s[i]);
        }
        assert(escape_str(s) =~= s);
    }
}

/// The query string of a pair list whose first key is `project` begins with
/// `project=`.
proof fn lemma_qs_project_prefix(ps: Seq<(Seq<char>, Seq<char>)>)
    requires
        ps.len() > 0,
        ps[0].0 == "project"@,
    ensures
        qs_of(ps).len() >= 8,
        qs_of(ps).subrange(0, 8) == "project="@,
    decreases ps.len(),
{
    reveal_strlit("project");
    reveal_strlit("project=");
    if ps.len() == 1 {
        assert(forall|i: int|
            0 <= i < "project"@.len() ==> is_plain_char(#[trigger] "project"@[i]));
        lemma_escape_plain("project"@);
        assert(qs_of(ps) == pair_str(ps[0]));
        assert(pair_str(ps[0]) == "project"@ + seq!['='] + escape_str(ps[0].1));
        assert(qs_of(ps).subrange(0, 8) =~= "project="@);
    } else {
        let front = ps.drop_last();
        assert(front[0] == ps[0]);
        lemma_qs_project_prefix(front);
        assert(qs_of(ps) == qs_of(front) + seq!['&'] + pair_str(ps.last()));
        assert(qs_of(ps).subrange(0, 8) =~= qs_of(front).subrange(0, 8));
    }
}

/// Shape of every successful request URL: it begins with the fixed vendor
/// host, a `?` follows the endpoint path, and the query string behind it
/// begins with the `project` parameter.
pub proof fn lemma_request_shape(endpoint: Seq<char>, ps: Seq<(Seq<char>, Seq<char>)>)
    requires
        ps.len() > 0,
        ps[0].0 == "project"@,
    ensures
        ({
            let url = request_url(endpoint, qs_of(ps));
            &&& url.len() == woopra_host().len() + endpoint.len() + 1 + qs_of(ps).len()
            &&& url.subrange(0, woopra_host().len() as int) == woopra_host()
            &&& url[woopra_host().len() + endpoint.len() as int] == '?'
            &&& qs_of(ps).len() >= 8
            &&& qs_of(ps).subrange(0, 8) == "project="@
        }),
{
    lemma_qs_project_prefix(ps);
    let url = request_url(endpoint, qs_of(ps));
    assert(url.subrange(0, woopra_host().len() as int) =~= woopra_host());
}

/// A successful page request's query parameters begin with `project`.
pub proof fn lemma_page_pairs_project(ev: Event, project: Seq<char>)
    ensures
        page_request_pairs(ev, project).len() > 0,
        page_request_pairs(ev, project)[0].0 == "project"@,
{
    lemma_track_model_pairs_project(
        crate::woopra_payload::with_page(
            crate::woopra_payload::base_track_model(ev, project, "pv"@),
            ev.data->Page_0,
        ),
    );
}

/// A successful track request's query parameters begin with `project`.
pub proof fn lemma_track_pairs_project(ev: Event, project: Seq<char>)
    ensures
        track_request_pairs(ev, project).len() > 0,
        track_request_pairs(ev, project)[0].0 == "project"@,
{
    lemma_track_model_pairs_project(
        crate::woopra_payload::with_track(
            crate::woopra_payload::base_track_model(ev, project, ev.data->Track_0.name@),
            ev.data->Track_0,
        ),
    );
}

/// A successful user request's query parameters begin with `project`.
pub proof fn lemma_user_pairs_project(ev: Event, project: Seq<char>)
    ensures
        user_request_pairs(ev, project).len() > 0,
        user_request_pairs(ev, project)[0].0 == "project"@,
{
    lemma_identify_model_pairs_project(
        crate::woopra_payload::with_user(
            crate::woopra_payload::base_identify_model(ev, project),
            ev.data->User_0,
        ),
    );
}

/// Every successful page request goes to the vendor host's track endpoint
/// with a non-empty query string that starts with the `project` parameter.
pub proof fn lemma_page_url_shape(ev: Event, project: Seq<char>)
    ensures
        ({
            let url = request_url(track_endpoint(), qs_of(page_request_pairs(ev, project)));
            &&& url.subrange(0, woopra_host().len() as int) == woopra_host()
            &&& url[woopra_host().len() + track_endpoint().len() as int] == '?'
            &&& qs_of(page_request_pairs(ev, project)).subrange(0, 8) == "project="@
        }),
{
    lemma_page_pairs_project(ev, project);
    lemma_request_shape(track_endpoint(), page_request_pairs(ev, project));
}

/// Every successful track request goes to the vendor host's track endpoint
/// with a non-empty query string that starts with the `project` parameter.
pub proof fn lemma_track_url_shape(ev: Event, project: Seq<char>)
    ensures
        ({
            let url = request_url(track_endpoint(), qs_of(track_request_pairs(ev, project)));
            &&& url.subrange(0, woopra_host().len() as int) == woopra_host()
            &&& url[woopra_host().len() + track_endpoint().len() as int] == '?'
            &&& qs_of(track_request_pairs(ev, project)).subrange(0, 8) == "project="@
        }),
{
    lemma_track_pairs_project(ev, project);
    lemma_request_shape(track_endpoint(), track_request_pairs(ev, project));
}

/// Every successful user request goes to the vendor host's identify endpoint
/// with a non-empty query string that starts with the `project` parameter.
pub proof fn lemma_user_url_shape(ev: Event, project: Seq<char>)
    ensures
        ({
            let url = request_url(identify_endpoint(), qs_of(user_request_pairs(ev, project)));
            &&& url.subrange(0, woopra_host().len() as int) == woopra_host()
            &&& url[woopra_host().len() + identify_endpoint().len() as int] == '?'
            &&& qs_of(user_request_pairs(ev, project)).subrange(0, 8) == "project="@
        }),
{
    lemma_user_pairs_project(ev, project);
    lemma_request_shape(identify_endpoint(), user_request_pairs(ev, project));
}

} // verus!
