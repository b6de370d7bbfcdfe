//! The bodies that the service's routes answer with.

use crate::decimal::{decimal, port_text};
use crate::field::HeaderField;
use crate::headers::{field_text, header_fields};
use crate::info::{get_request_info, record, RequestInfo, RequestInfoView};
use axum::http::{HeaderMap, HeaderValue};
use vstd::prelude::*;
use vstd::string::StringExecFns;

verus! {

/// The body of a route that reports one value: the value, or the word
/// `unknown` where there is none, and a line feed.
pub open spec fn single_body(value: Option<Seq<char>>) -> Seq<char> {
    match value {
        Some(text) => text + "\n"@,
        None => "unknown"@ + "\n"@,
    }
}

/// A value as the full report shows it: nothing at all where there is none.
pub open spec fn or_empty(value: Option<Seq<char>>) -> Seq<char> {
    match value {
        Some(text) => text,
        None => Seq::empty(),
    }
}

/// One line of the full report: the label, a colon and a space, the value
/// and a line feed.
pub open spec fn text_line(label: Seq<char>, value: Seq<char>) -> Seq<char> {
    label + ": "@ + value + "\n"@
}

/// The line of the full report that shows one of the optional headers.
pub open spec fn field_line(info: RequestInfoView, field: HeaderField) -> Seq<char> {
    text_line(field.label(), or_empty(info.optional(field)))
}

/// The full report of a record: fourteen lines, in this order.
pub open spec fn all_text(info: RequestInfoView) -> Seq<char> {
    text_line("ip_addr"@, info.ip_addr)
        + text_line("remote_host"@, info.remote_host)
        + field_line(info, HeaderField::UserAgent)
        + text_line("port"@, decimal(info.port as nat))
        + field_line(info, HeaderField::Language)
        + field_line(info, HeaderField::Referer)
        + field_line(info, HeaderField::Connection)
        + field_line(info, HeaderField::KeepAlive)
        + text_line("method"@, info.method)
        + field_line(info, HeaderField::Encoding)
        + field_line(info, HeaderField::Mime)
        + field_line(info, HeaderField::Charset)
        + field_line(info, HeaderField::Via)
        + field_line(info, HeaderField::Forwarded)
}

/// The body of `/` and `/ip`: the peer's address and a line feed.
pub fn ip_handler(ip_addr: &str) -> (body: String)
    ensures
        body@ == ip_addr@ + "\n"@,
{
    let mut body = ip_addr.to_owned();
    body.append("\n");
    body
}

/// The body of a route that reports one value, from the value as it was
/// read: the value itself, or the word `unknown` where there is none, and a
/// line feed.
pub fn single_line(value: Option<&str>) -> (body: String)
    ensures
        body@ == single_body(value.deep_view()),
{
    let mut body = match value {
        Some(text) => text.to_owned(),
        None => "unknown".to_owned(),
    };
    body.append("\n");
    body
}

/// The body of a route that reports one optional header.
pub fn field_handler(headers: &HeaderMap<HeaderValue>, field: HeaderField) -> (body: String)
    ensures
        body@ == single_body(field_text(header_fields(headers), field.header_name())),
{
    single_line(field.read(headers))
}

/// The body of `/ua`: the `User-Agent` header.
pub fn ua_handler(headers: &HeaderMap<HeaderValue>) -> (body: String)
    ensures
        body@ == single_body(
            field_text(header_fields(headers), HeaderField::UserAgent.header_name()),
        ),
{
    field_handler(headers, HeaderField::UserAgent)
}

/// The body of `/lang`: the `Accept-Language` header.
pub fn lang_handler(headers: &HeaderMap<HeaderValue>) -> (body: String)
    ensures
        body@ == single_body(
            field_text(header_fields(headers), HeaderField::Language.header_name()),
        ),
{
    field_handler(headers, HeaderField::Language)
}

/// The body of `/encoding`: the `Accept-Encoding` header.
pub fn encoding_handler(headers: &HeaderMap<HeaderValue>) -> (body: String)
    ensures
        body@ == single_body(
            field_text(header_fields(headers), HeaderField::Encoding.header_name()),
        ),
{
    field_handler(headers, HeaderField::Encoding)
}

/// The body of `/mime`: the `Accept` header.
pub fn mime_handler(headers: &HeaderMap<HeaderValue>) -> (body: String)
    ensures
        body@ == single_body(field_text(header_fields(headers), HeaderField::Mime.header_name())),
{
    field_handler(headers, HeaderField::Mime)
}

/// The body of `/forwarded`: the `Forwarded` header.
pub fn forwarded_handler(headers: &HeaderMap<HeaderValue>) -> (body: String)
    ensures
        body@ == single_body(
            field_text(header_fields(headers), HeaderField::Forwarded.header_name()),
        ),
{
    field_handler(headers, HeaderField::Forwarded)
}

/// Appends one line of the full report.
fn push_line(out: &mut String, label: &str, value: &str)
    ensures
        final(out)@ == old(out)@ + text_line(label@, value@),
{
    out.append(label);
    out.append(": ");
    out.append(value);
    out.append("\n");
}

/// Appends the line of the full report that shows one of the optional headers.
fn push_field(out: &mut String, field: HeaderField, value: &Option<String>)
    ensures
        final(out)@ == old(out)@ + text_line(field.label(), or_empty(value.deep_view())),
{
    proof {
        reveal_strlit("");
    }
    let text = match value {
        Some(text) => text.as_str(),
        None => "",
    };
    push_line(out, field.label_str(), text);
}

impl RequestInfo {
    /// The full report of the record as text, one line for each field. A
    /// header that the record lacks is shown with nothing after its label.
    pub fn to_text(&self) -> (body: String)
        ensures
            body@ == all_text(self@),
    {
        let mut body = String::new();
        push_line(&mut body, "ip_addr", self.ip_addr.as_str());
        push_line(&mut body, "remote_host", self.remote_host.as_str());
        push_field(&mut body, HeaderField::UserAgent, &self.user_agent);
        let port = port_text(self.port);
        push_line(&mut body, "port", port.as_str());
        push_field(&mut body, HeaderField::Language, &self.language);
        push_field(&mut body, HeaderField::Referer, &self.referer);
        push_field(&mut body, HeaderField::Connection, &self.connection);
        push_field(&mut body, HeaderField::KeepAlive, &self.keep_alive);
        push_line(&mut body, "method", self.method.as_str());
        push_field(&mut body, HeaderField::Encoding, &self.encoding);
        push_field(&mut body, HeaderField::Mime, &self.mime);
        push_field(&mut body, HeaderField::Charset, &self.charset);
        push_field(&mut body, HeaderField::Via, &self.via);
        push_field(&mut body, HeaderField::Forwarded, &self.forwarded);
        body
    }
}

/// The body of `/all`: the full report of the request as text.
pub fn all_handler(
    ip_addr: String,
    port: u16,
    method: String,
    headers: &HeaderMap<HeaderValue>,
) -> (body: String)
    ensures
        body@ == all_text(record(ip_addr@, port, method@, header_fields(headers))),
{
    let info = get_request_info(ip_addr, port, method, headers);
    info.to_text()
}

/// The route of a header that the request does not carry answers with
/// exactly the word `unknown` and a line feed.
pub proof fn lemma_missing_header_reads_unknown(
    fields: Map<Seq<char>, Seq<Seq<u8>>>,
    field: HeaderField,
)
    requires
        !fields.contains_key(field.header_name()),
    ensures
        single_body(field_text(fields, field.header_name())) == "unknown\n"@,
{
    reveal_strlit("unknown");
    reveal_strlit("\n");
    reveal_strlit("unknown\n");
    assert("unknown"@ + "\n"@ =~= "unknown\n"@);
}

/// In the full report, the line of a header that the request does not carry
/// is the label, a colon, a space and a line feed: the value is empty, not
/// the word `unknown`.
pub proof fn lemma_missing_header_line_is_empty(
    ip_addr: Seq<char>,
    port: u16,
    method: Seq<char>,
    fields: Map<Seq<char>, Seq<Seq<u8>>>,
    field: HeaderField,
)
    requires
        !fields.contains_key(field.header_name()),
    ensures
        field_line(record(ip_addr, port, method, fields), field) == field.label() + ": \n"@,
{
    reveal_strlit(": ");
    reveal_strlit("\n");
    reveal_strlit(": \n");
    assert(field.label() + ": "@ + Seq::<char>::empty() + "\n"@ =~= field.label() + ": \n"@);
}

} // verus!
