//! The request headers that the service reports.

use crate::headers::{field_text, header_fields, header_str, lower_name};
use axum::http::{HeaderMap, HeaderValue};
use vstd::prelude::*;

verus! {

/// One of the optional request headers that the service reports.
#[derive(Clone, Copy, Debug)]
pub enum HeaderField {
    UserAgent,
    Encoding,
    Mime,
    Language,
    Referer,
    Connection,
    KeepAlive,
    Charset,
    Via,
    Forwarded,
}

impl HeaderField {
    /// The name of the request header that the field is read from.
    pub open spec fn header_name(self) -> Seq<char> {
        match self {
            HeaderField::UserAgent => "user-agent"@,
            HeaderField::Encoding => "accept-encoding"@,
            HeaderField::Mime => "accept"@,
            HeaderField::Language => "accept-language"@,
            HeaderField::Referer => "referer"@,
            HeaderField::Connection => "connection"@,
            HeaderField::KeepAlive => "keep-alive"@,
            HeaderField::Charset => "accept-charset"@,
            HeaderField::Via => "via"@,
            HeaderField::Forwarded => "forwarded"@,
        }
    }

    /// The name under which the field appears in a report.
    pub open spec fn label(self) -> Seq<char> {
        match self {
            HeaderField::UserAgent => "user_agent"@,
            HeaderField::Encoding => "encoding"@,
            HeaderField::Mime => "mime"@,
            HeaderField::Language => "language"@,
            HeaderField::Referer => "referer"@,
            HeaderField::Connection => "connection"@,
            HeaderField::KeepAlive => "keep_alive"@,
            HeaderField::Charset => "charset"@,
            HeaderField::Via => "via"@,
            HeaderField::Forwarded => "forwarded"@,
        }
    }

    /// The header's name is written in lower case already, so a header map
    /// is asked for it as it stands.
    pub proof fn lemma_header_name_is_lower(self)
        ensures
            lower_name(self.header_name()) == self.header_name(),
    {
        reveal_strlit("user-agent");
        reveal_strlit("accept-encoding");
        reveal_strlit("accept");
        reveal_strlit("accept-language");
        reveal_strlit("referer");
        reveal_strlit("connection");
        reveal_strlit("keep-alive");
        reveal_strlit("accept-charset");
        reveal_strlit("via");
        reveal_strlit("forwarded");
        assert(lower_name(self.header_name()) =~= self.header_name());
    }

    /// The name of the request header that the field is read from.
    pub fn header_name_str(self) -> (name: &'static str)
        ensures
            name@ == self.header_name(),
    {
        match self {
            HeaderField::UserAgent => "user-agent",
            HeaderField::Encoding => "accept-encoding",
            HeaderField::Mime => "accept",
            HeaderField::Language => "accept-language",
            HeaderField::Referer => "referer",
            HeaderField::Connection => "connection",
            HeaderField::KeepAlive => "keep-alive",
            HeaderField::Charset => "accept-charset",
            HeaderField::Via => "via",
            HeaderField::Forwarded => "forwarded",
        }
    }

    /// The name under which the field appears in a report.
    pub fn label_str(self) -> (label: &'static str)
        ensures
            label@ == self.label(),
    {
        match self {
            HeaderField::UserAgent => "user_agent",
            HeaderField::Encoding => "encoding",
            HeaderField::Mime => "mime",
            HeaderField::Language => "language",
            HeaderField::Referer => "referer",
            HeaderField::Connection => "connection",
            HeaderField::KeepAlive => "keep_alive",
            HeaderField::Charset => "charset",
            HeaderField::Via => "via",
            HeaderField::Forwarded => "forwarded",
        }
    }

    /// Reads the field out of a request's header map: the text of the first
    /// value under the header's name, and `None` where the header is missing
    /// or that value is not text.
    pub fn read<'a>(self, headers: &'a HeaderMap<HeaderValue>) -> (value: Option<&'a str>)
        ensures
            value.deep_view() == field_text(header_fields(headers), self.header_name()),
    {
        proof {
            self.lemma_header_name_is_lower();
        }
        header_str(headers, self.header_name_str())
    }
}

} // verus!
