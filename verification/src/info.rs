//! The record of what the server saw of one request.

use crate::field::HeaderField;
use crate::headers::{field_text, header_fields, is_visible_text, octets_text};
use axum::http::{HeaderMap, HeaderValue};
use vstd::prelude::*;

verus! {

/// What the server saw of one request. A header that the request did not
/// carry, or whose value is not text, is `None`: never an empty string.
#[derive(Debug)]
pub struct RequestInfo {
    pub ip_addr: String,
    pub remote_host: String,
    pub user_agent: Option<String>,
    pub port: u16,
    pub method: String,
    pub encoding: Option<String>,
    pub mime: Option<String>,
    pub language: Option<String>,
    pub referer: Option<String>,
    pub connection: Option<String>,
    pub keep_alive: Option<String>,
    pub charset: Option<String>,
    pub via: Option<String>,
    pub forwarded: Option<String>,
}

/// A `RequestInfo` as contracts see it: each string as its characters.
pub struct RequestInfoView {
    pub ip_addr: Seq<char>,
    pub remote_host: Seq<char>,
    pub user_agent: Option<Seq<char>>,
    pub port: u16,
    pub method: Seq<char>,
    pub encoding: Option<Seq<char>>,
    pub mime: Option<Seq<char>>,
    pub language: Option<Seq<char>>,
    pub referer: Option<Seq<char>>,
    pub connection: Option<Seq<char>>,
    pub keep_alive: Option<Seq<char>>,
    pub charset: Option<Seq<char>>,
    pub via: Option<Seq<char>>,
    pub forwarded: Option<Seq<char>>,
}

impl View for RequestInfo {
    type V = RequestInfoView;

    open spec fn view(&self) -> RequestInfoView {
        RequestInfoView {
            ip_addr: self.ip_addr@,
            remote_host: self.remote_host@,
            user_agent: self.user_agent.deep_view(),
            port: self.port,
            method: self.method@,
            encoding: self.encoding.deep_view(),
            mime: self.mime.deep_view(),
            language: self.language.deep_view(),
            referer: self.referer.deep_view(),
            connection: self.connection.deep_view(),
            keep_alive: self.keep_alive.deep_view(),
            charset: self.charset.deep_view(),
            via: self.via.deep_view(),
            forwarded: self.forwarded.deep_view(),
        }
    }
}

impl RequestInfoView {
    /// The value that the record holds for one of the optional headers.
    pub open spec fn optional(self, field: HeaderField) -> Option<Seq<char>> {
        match field {
            HeaderField::UserAgent => self.user_agent,
            HeaderField::Encoding => self.encoding,
            HeaderField::Mime => self.mime,
            HeaderField::Language => self.language,
            HeaderField::Referer => self.referer,
            HeaderField::Connection => self.connection,
            HeaderField::KeepAlive => self.keep_alive,
            HeaderField::Charset => self.charset,
            HeaderField::Via => self.via,
            HeaderField::Forwarded => self.forwarded,
        }
    }
}

/// The record of a request that came from `ip_addr` and `port` with the
/// method `method` and the header fields `fields`. No name is looked up for
/// the peer: the remote host is always reported as unavailable.
pub open spec fn record(
    ip_addr: Seq<char>,
    port: u16,
    method: Seq<char>,
    fields: Map<Seq<char>, Seq<Seq<u8>>>,
) -> RequestInfoView {
    RequestInfoView {
        ip_addr,
        remote_host: "unavailable"@,
        user_agent: field_text(fields, HeaderField::UserAgent.header_name()),
        port,
        method,
        encoding: field_text(fields, HeaderField::Encoding.header_name()),
        mime: field_text(fields, HeaderField::Mime.header_name()),
        language: field_text(fields, HeaderField::Language.header_name()),
        referer: field_text(fields, HeaderField::Referer.header_name()),
        connection: field_text(fields, HeaderField::Connection.header_name()),
        keep_alive: field_text(fields, HeaderField::KeepAlive.header_name()),
        charset: field_text(fields, HeaderField::Charset.header_name()),
        via: field_text(fields, HeaderField::Via.header_name()),
        forwarded: field_text(fields, HeaderField::Forwarded.header_name()),
    }
}

/// Reads one of the optional headers out of a request's header map, for a
/// record to keep.
fn field_value(headers: &HeaderMap<HeaderValue>, field: HeaderField) -> (value: Option<String>)
    ensures
        value.deep_view() == field_text(header_fields(headers), field.header_name()),
{
    match field.read(headers) {
        Some(s) => Some(s.to_owned()),
        None => None,
    }
}

/// Builds the record of one request from the peer's address, the request's
/// method and its headers. This never fails: a header that is missing or not
/// text is left out of the record.
pub fn get_request_info(
    ip_addr: String,
    port: u16,
    method: String,
    headers: &HeaderMap<HeaderValue>,
) -> (info: RequestInfo)
    ensures
        info@ == record(ip_addr@, port, method@, header_fields(headers)),
{
    RequestInfo {
        ip_addr,
        remote_host: "unavailable".to_owned(),
        user_agent: field_value(headers, HeaderField::UserAgent),
        port,
        method,
        encoding: field_value(headers, HeaderField::Encoding),
        mime: field_value(headers, HeaderField::Mime),
        language: field_value(headers, HeaderField::Language),
        referer: field_value(headers, HeaderField::Referer),
        connection: field_value(headers, HeaderField::Connection),
        keep_alive: field_value(headers, HeaderField::KeepAlive),
        charset: field_value(headers, HeaderField::Charset),
        via: field_value(headers, HeaderField::Via),
        forwarded: field_value(headers, HeaderField::Forwarded),
    }
}

/// The record holds for each optional header what the request's headers give
/// for the header's name.
pub proof fn lemma_record_reads_each_header(
    ip_addr: Seq<char>,
    port: u16,
    method: Seq<char>,
    fields: Map<Seq<char>, Seq<Seq<u8>>>,
    field: HeaderField,
)
    ensures
        record(ip_addr, port, method, fields).optional(field) == field_text(
            fields,
            field.header_name(),
        ),
{
}

/// A header that the request does not carry is absent from the record: the
/// record holds no value for it, which is neither the empty string nor the
/// word `unknown`.
pub proof fn lemma_missing_header_is_absent(
    ip_addr: Seq<char>,
    port: u16,
    method: Seq<char>,
    fields: Map<Seq<char>, Seq<Seq<u8>>>,
    field: HeaderField,
)
    requires
        !fields.contains_key(field.header_name()),
    ensures
        record(ip_addr, port, method, fields).optional(field) is None,
        record(ip_addr, port, method, fields).optional(field) != Some(Seq::<char>::empty()),
        record(ip_addr, port, method, fields).optional(field) != Some("unknown"@),
{
}

/// A header that the request carries as text is kept in the record as it
/// came: as many characters as the value has octets, each the octet at its
/// place, none changed, dropped or added.
pub proof fn lemma_present_header_is_kept(
    ip_addr: Seq<char>,
    port: u16,
    method: Seq<char>,
    fields: Map<Seq<char>, Seq<Seq<u8>>>,
    field: HeaderField,
)
    requires
        fields.contains_key(field.header_name()),
        is_visible_text(fields[field.header_name()][0]),
    ensures
        ({
            let octets = fields[field.header_name()][0];
            let kept = record(ip_addr, port, method, fields).optional(field);
            &&& kept == Some(octets_text(octets))
            &&& kept->0.len() == octets.len()
            &&& forall|i: int| 0 <= i < octets.len() ==> #[trigger] kept->0[i] as u8 == octets[i]
        }),
{
}

} // verus!
