//! Requests to the server, and how they are answered.

use vstd::prelude::*;
use vstd::string::*;

use crate::addr::IpAddr;
use crate::cmd::run::{after_write_at, has_id, is_at, monitors_wf, AppState};
use crate::db::ping::{view_all, DbWrite, ExtSpec, Id, PingMonitorExt};
use crate::db::view_text;
use crate::text::{is_text_le, law_order_of_texts_is_transitive, text_le};
use crate::time::{utc_text, Timestamp};

verus! {

/// The status of an answer if what was asked for does not exist.
pub const NOT_FOUND: u16 = 404;

/// The status of an answer if something went wrong.
pub const INTERNAL_SERVER_ERROR: u16 = 500;

/// Why the dashboard cannot be shown.
#[derive(Debug)]
pub enum DashboardError {
    /// Something went wrong.
    Other(String),
}

impl DashboardError {
    /// The status of the answer.
    pub fn status_code(&self) -> (res: u16)
        ensures
            res == INTERNAL_SERVER_ERROR,
    {
        match self {
            Self::Other(_) => INTERNAL_SERVER_ERROR,
        }
    }

    /// Whether the log should tell.
    pub fn should_log(&self) -> (res: bool)
        ensures
            res,
    {
        match self {
            Self::Other(_) => true,
        }
    }

    /// The message of the error.
    pub fn message(&self) -> (res: String)
        ensures
            res@ == self->Other_0@,
    {
        match self {
            Self::Other(message) => message.clone(),
        }
    }
}

/// Why a ping cannot be taken.
#[derive(Debug)]
pub enum PingError {
    /// Nobody knows the token.
    DoesNotExist,
    /// Something went wrong.
    Other(String),
}

impl PingError {
    /// The status of the answer.
    pub open spec fn code(self) -> u16 {
        match self {
            PingError::DoesNotExist => NOT_FOUND,
            PingError::Other(_) => INTERNAL_SERVER_ERROR,
        }
    }

    /// The message of the error.
    pub open spec fn text(self) -> Seq<char> {
        match self {
            PingError::DoesNotExist => "no ping monitor exists for the given token"@,
            PingError::Other(message) => message@,
        }
    }

    /// The status of the answer.
    pub fn status_code(&self) -> (res: u16)
        ensures
            res == self.code(),
    {
        match self {
            Self::DoesNotExist => NOT_FOUND,
            Self::Other(_) => INTERNAL_SERVER_ERROR,
        }
    }

    /// Whether the log should tell. A token that nobody knows is not worth it.
    pub fn should_log(&self) -> (res: bool)
        ensures
            res == (self is Other),
    {
        match self {
            Self::DoesNotExist => false,
            Self::Other(_) => true,
        }
    }

    /// The message of the error.
    pub fn message(&self) -> (res: String)
        ensures
            res@ == self.text(),
    {
        match self {
            Self::DoesNotExist => "no ping monitor exists for the given token".to_string(),
            Self::Other(message) => message.clone(),
        }
    }
}

/// The monitor that a ping is for, and what to write to the database. `id` is the key that the
/// database has for the token of the ping.
pub fn handle_ping(
    state: &AppState,
    id: Option<Id>,
    now: Timestamp,
    source_addr: Option<IpAddr>,
) -> (res: Result<(usize, DbWrite), PingError>)
    requires
        state.wf(),
    ensures
        match id {
            None => res == Err::<(usize, DbWrite), PingError>(PingError::DoesNotExist),
            Some(id) => if has_id(state.ping_monitors@, id as int) {
                &&& res is Ok
                &&& is_at(state.ping_monitors@, id as int, res->Ok_0.0 as int)
                &&& res->Ok_0.1@ == state.ping_monitors@[res->Ok_0.0 as int].ping_write(
                    now@,
                    source_addr,
                )
            } else {
                &&& res is Err
                &&& res->Err_0 is Other
                &&& res->Err_0.text() == "retrieving monitor index for id"@
            },
        },
{
    let id: Id = match id {
        Some(id) => id,
        None => {
            return Err(PingError::DoesNotExist);
        },
    };
    match state.ping_monitors.find(id) {
        Some(idx) => Ok((idx, state.ping_monitors.get(idx).event_ping(now, source_addr))),
        None => Err(PingError::Other("retrieving monitor index for id".to_string())),
    }
}

/// The answer to a ping, and whether the log should tell.
pub fn http_ping(result: &Result<(), PingError>) -> (res: (Result<&'static str, u16>, bool))
    ensures
        match result {
            Ok(_) => res.0 is Ok && res.0->Ok_0@ == "OK"@ && !res.1,
            Err(e) => res.0 == Err::<&'static str, u16>(e.code()) && res.1 == (e is Other),
        },
{
    match result {
        Ok(_) => (Ok("OK"), false),
        Err(e) => (Err(e.status_code()), e.should_log()),
    }
}

/// What the dashboard shows.
#[derive(Debug)]
pub struct DashboardTemplate {
    pub now: Timestamp,
    pub pms: Vec<PingMonitorExt>,
    pub started_at: String,
    pub version: &'static str,
}

/// Whether monitors are in the order of their names.
pub open spec fn sorted_by_name(monitors: Seq<ExtSpec>) -> bool {
    forall|i: int, j: int|
        0 <= i < j < monitors.len() ==> text_le(
            (#[trigger] monitors[i]).monitor.name,
            (#[trigger] monitors[j]).monitor.name,
        )
}

/// Whether a monitor comes no later than the next one.
spec fn in_order_at(monitors: Seq<ExtSpec>, i: int) -> bool {
    text_le(monitors[i].monitor.name, monitors[i + 1].monitor.name)
}

/// Monitors are in the order of their names if each one comes no later than the next.
proof fn lemma_sorted_by_neighbours(monitors: Seq<ExtSpec>, i: int, j: int)
    requires
        forall|k: int| 0 <= k < monitors.len() - 1 ==> #[trigger] in_order_at(monitors, k),
        0 <= i < j < monitors.len(),
    ensures
        text_le(monitors[i].monitor.name, monitors[j].monitor.name),
    decreases j - i,
{
    assert(in_order_at(monitors, j - 1));
    if i < j - 1 {
        lemma_sorted_by_neighbours(monitors, i, j - 1);
        law_order_of_texts_is_transitive(
            monitors[i].monitor.name,
            monitors[j - 1].monitor.name,
            monitors[j].monitor.name,
        );
    }
}

impl DashboardTemplate {
    /// Whether the monitors are in the order of their names.
    pub fn is_sorted(&self) -> (res: bool)
        ensures
            res == sorted_by_name(view_all(self.pms@)),
    {
        let ghost monitors = view_all(self.pms@);
        let mut idx: usize = 1;
        while idx < self.pms.len()
            invariant
                monitors == view_all(self.pms@),
                1 <= idx,
                forall|k: int|
                    0 <= k < idx - 1 && k < monitors.len() - 1 ==> #[trigger] in_order_at(
                        monitors,
                        k,
                    ),
            decreases self.pms.len() - idx,
        {
            assert(monitors[idx - 1] == self.pms[idx - 1]@);
            assert(monitors[idx as int] == self.pms[idx as int]@);
            if !is_text_le(self.pms[idx - 1].inner.name.as_str(), self.pms[idx].inner.name.as_str()) {
                return false;
            }
            idx = idx + 1;
        }
        assert forall|i: int, j: int| 0 <= i < j < monitors.len() implies text_le(
            (#[trigger] monitors[i]).monitor.name,
            (#[trigger] monitors[j]).monitor.name,
        ) by {
            lemma_sorted_by_neighbours(monitors, i, j);
        }
        true
    }
}

/// Collects what the dashboard shows: all monitors as they are now.
pub fn handle_dashboard(
    state: &AppState,
    now: Timestamp,
    started_at: Timestamp,
    version: &'static str,
) -> (res: DashboardTemplate)
    ensures
        view_all(res.pms@) == state.ping_monitors@,
        res.now == now,
        res.started_at@ == utc_text(started_at@),
        res.version@ == version@,
{
    let ghost monitors = state.ping_monitors@;
    let mut pms: Vec<PingMonitorExt> = Vec::new();
    let mut idx: usize = 0;
    while idx < state.ping_monitors.len()
        invariant
            monitors == state.ping_monitors@,
            idx <= monitors.len(),
            view_all(pms@) == monitors.take(idx as int),
        decreases monitors.len() - idx,
    {
        let ghost before = pms@;
        pms.push(state.ping_monitors.get(idx).clone());
        assert(view_all(pms@) =~= view_all(before).push(monitors[idx as int]));
        assert(monitors.take(idx + 1) =~= monitors.take(idx as int).push(monitors[idx as int]));
        idx = idx + 1;
    }
    assert(monitors.take(idx as int) =~= monitors);
    DashboardTemplate { now, pms, started_at: started_at.format(), version }
}

/// The answer to a request for the dashboard, and whether the log should tell.
pub fn http_dashboard(result: Result<String, DashboardError>) -> (res: (Result<String, u16>, bool))
    ensures
        match result {
            Ok(html) => res == (Ok::<String, u16>(html), false),
            Err(_) => res == (Err::<String, u16>(INTERNAL_SERVER_ERROR), true),
        },
{
    match result {
        Ok(html) => (Ok(html), false),
        Err(e) => (Err(e.status_code()), e.should_log()),
    }
}

/// The header in which a reverse proxy names the address of its client.
pub const REALIP_HEADER: &'static str = "x-real-ip";

/// A header's value.
#[verifier::external_type_specification]
#[verifier::external_body]
pub struct ExHeaderValue(axum::http::HeaderValue);

/// The headers of a request.
#[verifier::external_type_specification]
#[verifier::external_body]
#[verifier::reject_recursive_types(T)]
pub struct ExHeaderMap<T>(axum::http::HeaderMap<T>);

/// The values of each header of a request, in their order. Names are in lower case.
pub uninterp spec fn header_values(
    headers: axum::http::HeaderMap<axum::http::HeaderValue>,
) -> Map<Seq<char>, Seq<Seq<u8>>>;

/// Whether a text is the name of a header, in lower case.
pub open spec fn is_header_name(name: Seq<char>) -> bool {
    &&& 0 < name.len() < 64
    &&& forall|i: int|
        0 <= i < name.len() ==> 'a' <= #[trigger] name[i] <= 'z' || name[i] == '-'
}

/// The first value of a header, if the request has the header.
pub open spec fn first_value(
    headers: axum::http::HeaderMap<axum::http::HeaderValue>,
    name: Seq<char>,
) -> Option<Seq<u8>> {
    if header_values(headers).contains_key(name) {
        Some(header_values(headers)[name][0])
    } else {
        None
    }
}

/// The view of bytes that may be missing.
pub open spec fn view_bytes(bytes: Option<Vec<u8>>) -> Option<Seq<u8>> {
    match bytes {
        Some(b) => Some(b@),
        None => None,
    }
}

/// Looks up a header with http's `HeaderMap::get`, and hands out the bytes of its value.
///
/// Not proved: it finds the first value of the header if there is one, and nothing otherwise.
#[verifier::external_body]
fn header_bytes(
    headers: &axum::http::HeaderMap<axum::http::HeaderValue>,
    name: &str,
) -> (res: Option<Vec<u8>>)
    requires
        is_header_name(name@),
    ensures
        match res {
            Some(value) => {
                &&& header_values(*headers).contains_key(name@)
                &&& value@ == header_values(*headers)[name@][0]
            },
            None => !header_values(*headers).contains_key(name@),
        },
{
    headers.get(name).map(|value| value.as_bytes().to_vec())
}

/// Whether a byte may stand in a header that is read as text: visible characters, blanks and
/// tabs.
pub open spec fn is_visible(byte: u8) -> bool {
    32 <= byte < 127 || byte == 9
}

/// The text of a header, if all its bytes may stand in one.
pub open spec fn header_text(bytes: Seq<u8>) -> Option<Seq<char>> {
    if forall|i: int| 0 <= i < bytes.len() ==> is_visible(#[trigger] bytes[i]) {
        Some(bytes.map_values(|b: u8| b as char))
    } else {
        None
    }
}

/// The text of a header, if all its bytes may stand in one.
fn to_str(bytes: &Vec<u8>) -> (res: Option<String>)
    ensures
        view_text(res) == header_text(bytes@),
{
    let mut res: String = String::new();
    let mut i: usize = 0;
    while i < bytes.len()
        invariant
            i <= bytes.len(),
            forall|k: int| 0 <= k < i ==> is_visible(#[trigger] bytes[k]),
            res@ == bytes@.take(i as int).map_values(|b: u8| b as char),
        decreases bytes.len() - i,
    {
        let byte: u8 = bytes[i];
        if !(byte >= 32 && byte < 127 || byte == 9) {
            assert(!is_visible(bytes@[i as int]));
            return None;
        }
        res.push(byte as char);
        assert(bytes@.take(i + 1).map_values(|b: u8| b as char) =~= bytes@.take(
            i as int,
        ).map_values(|b: u8| b as char).push(byte as char));
        i = i + 1;
    }
    assert(bytes@.take(i as int) =~= bytes@);
    Some(res)
}

/// Where the address of a client comes from.
#[derive(Debug)]
pub enum AddrSource {
    /// From the connection. There is none for a unix socket.
    Connection(Option<IpAddr>),
    /// From a header whose text has to be read as an address.
    Header(String),
    /// From a header that is no text.
    Unreadable,
}

/// Where the address of a client comes from, in mathematical terms.
pub enum SourceSpec {
    Connection(Option<IpAddr>),
    Header(Seq<char>),
    Unreadable,
}

impl View for AddrSource {
    type V = SourceSpec;

    open spec fn view(&self) -> SourceSpec {
        match self {
            AddrSource::Connection(addr) => SourceSpec::Connection(*addr),
            AddrSource::Header(text) => SourceSpec::Header(text@),
            AddrSource::Unreadable => SourceSpec::Unreadable,
        }
    }
}

/// Where the address of a client comes from: from the header if the server may look there and
/// the header is present, or else from the connection.
pub open spec fn addr_source(
    set_real_ip: bool,
    remote_addr: Option<IpAddr>,
    header: Option<Seq<u8>>,
) -> SourceSpec {
    match header {
        Some(bytes) if set_real_ip => match header_text(bytes) {
            Some(text) => SourceSpec::Header(text),
            None => SourceSpec::Unreadable,
        },
        _ => SourceSpec::Connection(remote_addr),
    }
}

/// Where the address of a client comes from, given the value of the header.
pub fn find_addr(set_real_ip: bool, remote_addr: Option<IpAddr>, header: Option<Vec<u8>>) -> (res:
    AddrSource)
    ensures
        res@ == addr_source(set_real_ip, remote_addr, view_bytes(header)),
{
    if set_real_ip {
        if let Some(bytes) = header {
            return match to_str(&bytes) {
                Some(text) => AddrSource::Header(text),
                None => AddrSource::Unreadable,
            };
        }
    }
    AddrSource::Connection(remote_addr)
}

/// Where the address of a client comes from. `remote_addr` is what the connection says.
pub fn get_remote_addr(
    set_real_ip: bool,
    remote_addr: Option<IpAddr>,
    headers: &axum::http::HeaderMap<axum::http::HeaderValue>,
) -> (res: AddrSource)
    ensures
        res@ == addr_source(set_real_ip, remote_addr, first_value(*headers, REALIP_HEADER@)),
{
    proof {
        reveal_strlit("x-real-ip");
    }
    let header: Option<Vec<u8>> = header_bytes(headers, REALIP_HEADER);
    find_addr(set_real_ip, remote_addr, header)
}

impl AddrSource {
    /// The address of the client. `parsed` is the address that the text of the header stands
    /// for, if it stands for one.
    pub fn addr(&self, parsed: Option<IpAddr>) -> (res: Option<IpAddr>)
        ensures
            res == match self {
                AddrSource::Connection(addr) => *addr,
                AddrSource::Header(_) => parsed,
                AddrSource::Unreadable => None,
            },
    {
        match self {
            AddrSource::Connection(addr) => *addr,
            AddrSource::Header(_) => parsed,
            AddrSource::Unreadable => None,
        }
    }
}

/// Without the option to look into the header, its content has no influence.
pub proof fn law_header_counts_only_on_request(
    remote_addr: Option<IpAddr>,
    header: Option<Seq<u8>>,
)
    ensures
        addr_source(false, remote_addr, header) == SourceSpec::Connection(remote_addr),
        addr_source(true, remote_addr, None) == SourceSpec::Connection(remote_addr),
        header is Some ==> !(addr_source(true, remote_addr, header) is Connection),
{
}

/// The writes that a ping leads to make its monitor all right and change no other one. Monitors
/// stay well formed and are found at the same places as before.
pub proof fn law_ping_changes_its_monitor_only(
    monitors: Seq<ExtSpec>,
    id: int,
    idx: int,
    now: int,
    source_addr: Option<IpAddr>,
)
    requires
        monitors_wf(monitors),
        is_at(monitors, id, idx),
        monitors[idx].accepts_ping(now),
    ensures
        ({
            let m = monitors[idx];
            let write = m.ping_write(now, source_addr);
            let pinged = after_write_at(monitors, idx, write);
            let after = match m.next_write(write) {
                Some(next) => after_write_at(pinged, idx, next),
                None => pinged,
            };
            &&& m.accepts_write(write)
            &&& m.next_write(write) matches Some(next) ==> pinged[idx].accepts_write(next)
            &&& after == monitors.update(idx, m.after_ping(now))
            &&& monitors_wf(after)
            &&& is_at(after, id, idx)
        }),
{
    let m = monitors[idx];
    let write = m.ping_write(now, source_addr);
    let pinged = after_write_at(monitors, idx, write);
    let after = match m.next_write(write) {
        Some(next) => after_write_at(pinged, idx, next),
        None => pinged,
    };
    assert(after =~= monitors.update(idx, m.after_ping(now)));
    assert forall|j: int| idx < j < after.len() implies (#[trigger] after[j]).id != id by {
        assert(after[j] == monitors[j]);
    }
}

/// An unknown token is answered with the status 404, and anything else that goes wrong with 500.
/// The messages are told apart by their source.
pub proof fn law_status_of_refused_pings(e: PingError)
    ensures
        e.code() == 404 <==> e is DoesNotExist,
        e.code() == 500 <==> e is Other,
        e is DoesNotExist ==> e.text() == "no ping monitor exists for the given token"@,
        e matches PingError::Other(message) ==> e.text() == message@,
{
}

/// A header is read as text if and only if all its bytes are visible characters, blanks or tabs.
/// The text has one character for each byte, with the same code.
pub proof fn law_header_is_read_byte_by_byte(bytes: Seq<u8>)
    ensures
        header_text(bytes) is Some <==> forall|i: int|
            0 <= i < bytes.len() ==> 32 <= #[trigger] bytes[i] <= 126 || bytes[i] == 9,
        header_text(bytes) matches Some(text) ==> {
            &&& text.len() == bytes.len()
            &&& forall|i: int| 0 <= i < bytes.len() ==> #[trigger] text[i] as int == bytes[i] as int
        },
{
    if forall|i: int| 0 <= i < bytes.len() ==> 32 <= #[trigger] bytes[i] <= 126 || bytes[i] == 9 {
        assert forall|i: int| 0 <= i < bytes.len() implies is_visible(#[trigger] bytes[i]) by {}
    }
    if header_text(bytes) is Some {
        assert forall|i: int| 0 <= i < bytes.len() implies 32 <= #[trigger] bytes[i] <= 126
            || bytes[i] == 9 by {
            assert(is_visible(bytes[i]));
        }
    }
}

/// If the server may look into the header and it is there, its text decides the address, and one
/// that cannot be read leaves the address unknown. The connection then has no say.
pub proof fn law_header_decides_the_address(
    bytes: Seq<u8>,
    remote_addr: Option<IpAddr>,
    other: Option<IpAddr>,
)
    ensures
        header_text(bytes) matches Some(text) ==> addr_source(true, remote_addr, Some(bytes))
            == SourceSpec::Header(text),
        header_text(bytes) is None ==> addr_source(true, remote_addr, Some(bytes))
            == SourceSpec::Unreadable,
        addr_source(true, remote_addr, Some(bytes)) == addr_source(true, other, Some(bytes)),
{
}

/// Of several values of a header the first one counts.
pub proof fn law_first_value_counts(
    headers: axum::http::HeaderMap<axum::http::HeaderValue>,
    name: Seq<char>,
)
    ensures
        first_value(headers, name) is Some <==> header_values(headers).contains_key(name),
        header_values(headers).contains_key(name) ==> first_value(headers, name) == Some(
            header_values(headers)[name][0],
        ),
{
}

/// Monitors are in order if and only if no one comes before another with a smaller name.
pub proof fn law_order_on_the_dashboard(monitors: Seq<ExtSpec>)
    ensures
        sorted_by_name(monitors) <==> forall|i: int, j: int|
            0 <= i < j < monitors.len() ==> text_le(
                (#[trigger] monitors[i]).monitor.name,
                (#[trigger] monitors[j]).monitor.name,
            ),
{
}

/// What is shown of the source of an address is what it is, and bytes are shown as they are.
pub proof fn law_views_show_the_source(addr: Option<IpAddr>, text: String, bytes: Vec<u8>)
    ensures
        AddrSource::Connection(addr)@ == SourceSpec::Connection(addr),
        AddrSource::Header(text)@ == SourceSpec::Header(text@),
        AddrSource::Unreadable@ == SourceSpec::Unreadable,
        view_bytes(Some(bytes)) == Some(bytes@),
        view_bytes(None) is None,
{
}

} // verus!
