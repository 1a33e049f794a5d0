//! How consignments travel: transports, endpoints and the URLs behind them.

use vstd::prelude::*;

use crate::error::{failure, Failure, RgbLibError};
use crate::network::BitcoinNetwork;
use crate::text::{
    begins, begins_with, contains_text, has_text, join_two, stands_at, text_after,
};
use crate::types::IndexerProtocol;

verus! {

/// A transport of consignments.
#[derive(Debug, Clone, PartialEq, Eq, Hash)]
pub enum RgbTransport {
    /// A JSON-RPC endpoint.
    JsonRpc { endpoint: String },
    /// A REST endpoint.
    RestHttp { endpoint: String },
}

/// What a transport says.
pub enum TransportView {
    JsonRpc(Seq<char>),
    RestHttp(Seq<char>),
}

impl View for RgbTransport {
    type V = TransportView;

    open spec fn view(&self) -> TransportView {
        match self {
            RgbTransport::JsonRpc { endpoint } => TransportView::JsonRpc(endpoint@),
            RgbTransport::RestHttp { endpoint } => TransportView::RestHttp(endpoint@),
        }
    }
}

/// The text of a transport.
pub open spec fn transport_text(transport: TransportView) -> Seq<char> {
    match transport {
        TransportView::JsonRpc(endpoint) => "rpc://"@ + endpoint,
        TransportView::RestHttp(endpoint) => "http://"@ + endpoint,
    }
}

/// The transport that a text names.
pub open spec fn transport_of(text: Seq<char>) -> Option<TransportView> {
    if begins(text, "rpc://"@) {
        Some(TransportView::JsonRpc(text.subrange("rpc://"@.len() as int, text.len() as int)))
    } else if begins(text, "http://"@) {
        Some(TransportView::RestHttp(text.subrange("http://"@.len() as int, text.len() as int)))
    } else {
        None
    }
}

impl RgbTransport {
    /// The transport that a text names.
    pub fn from_str(s: &str) -> (r: Result<Self, String>)
        ensures
            match r {
                Ok(transport) => transport_of(s@) == Some(transport@),
                Err(e) => transport_of(s@) is None && e@ == "Invalid RGB transport string"@,
            },
    {
        proof {
            reveal_strlit("rpc://");
            reveal_strlit("http://");
        }
        if begins_with(s, "rpc://") {
            Ok(RgbTransport::JsonRpc { endpoint: text_after(s, 6).to_owned() })
        } else if begins_with(s, "http://") {
            Ok(RgbTransport::RestHttp { endpoint: text_after(s, 7).to_owned() })
        } else {
            Err("Invalid RGB transport string".to_owned())
        }
    }

    /// The text of the transport.
    pub fn text(&self) -> (r: String)
        ensures
            r@ == transport_text(self@),
    {
        match self {
            RgbTransport::JsonRpc { endpoint } => join_two("rpc://", endpoint.as_str()),
            RgbTransport::RestHttp { endpoint } => join_two("http://", endpoint.as_str()),
        }
    }
}

/// A transport is read back from its text, and the text of what is read is the text.
pub proof fn law_transport_round_trip(transport: TransportView, text: Seq<char>)
    ensures
        transport_of(transport_text(transport)) == Some(transport),
        transport_of(text) matches Some(found) ==> transport_text(found) == text,
{
    reveal_strlit("rpc://");
    reveal_strlit("http://");
    let written = transport_text(transport);
    match transport {
        TransportView::JsonRpc(endpoint) => {
            assert(written.subrange(0, 6) =~= "rpc://"@);
            assert(written.subrange(6, written.len() as int) =~= endpoint);
        },
        TransportView::RestHttp(endpoint) => {
            assert(written.subrange(0, 7) =~= "http://"@);
            assert(written.subrange(0, 6)[0] == 'h');
            assert(!begins(written, "rpc://"@));
            assert(written.subrange(7, written.len() as int) =~= endpoint);
        },
    }
    if let Some(found) = transport_of(text) {
        assert(transport_text(found) =~= text);
    }
}

/// The kind of a transport.
#[derive(Debug, Clone, Copy, PartialEq, Eq, Structural)]
pub enum TransportType {
    JsonRpc,
}

/// An endpoint of a transfer.
#[derive(Debug, Clone)]
pub struct TransportEndpoint {
    pub endpoint: String,
    pub transport_type: TransportType,
    pub used: bool,
}

/// Whether an endpoint is the unused JSON-RPC endpoint with this text.
pub open spec fn is_unused(endpoint: TransportEndpoint, text: Seq<char>) -> bool {
    &&& endpoint.endpoint@ == text
    &&& endpoint.transport_type == TransportType::JsonRpc
    &&& !endpoint.used
}

impl TransportEndpoint {
    /// An endpoint that was not used yet.
    pub fn new(endpoint: String) -> (r: Option<Self>)
        ensures
            r matches Some(e) && is_unused(e, endpoint@),
    {
        Some(Self { endpoint, transport_type: TransportType::JsonRpc, used: false })
    }
}

impl TryFrom<RgbTransport> for TransportEndpoint {
    type Error = std::convert::Infallible;

    /// The endpoint of a transport, which was not used yet.
    fn try_from(transport: RgbTransport) -> (r: Result<Self, std::convert::Infallible>)
        ensures
            r matches Ok(e) && is_unused(e, transport_text(transport@)),
    {
        Ok(
            Self {
                endpoint: transport.text(),
                transport_type: TransportType::JsonRpc,
                used: false,
            },
        )
    }
}

// What `try_from` gives is said by its own contract, over what its text holds: two endpoints with
// the same text need not be the same value.
impl vstd::std_specs::convert::TryFromSpecImpl<RgbTransport> for TransportEndpoint {
    open spec fn obeys_try_from_spec() -> bool {
        false
    }

    open spec fn try_from_spec(transport: RgbTransport) -> Result<Self, std::convert::Infallible> {
        arbitrary()
    }
}

/// The URL to post to: a JSON-RPC scheme stands for the HTTP scheme it runs over.
pub open spec fn http_url(url: Seq<char>) -> Seq<char> {
    if begins(url, "rpc://"@) {
        "http://"@ + url.subrange("rpc://"@.len() as int, url.len() as int)
    } else if begins(url, "rpcs://"@) {
        "https://"@ + url.subrange("rpcs://"@.len() as int, url.len() as int)
    } else {
        url
    }
}

/// The URL to post to.
pub fn url_to_post(url: &str) -> (r: String)
    ensures
        r@ == http_url(url@),
{
    proof {
        reveal_strlit("rpc://");
        reveal_strlit("rpcs://");
    }
    if begins_with(url, "rpc://") {
        join_two("http://", text_after(url, 6))
    } else if begins_with(url, "rpcs://") {
        join_two("https://", text_after(url, 7))
    } else {
        url.to_owned()
    }
}

/// Every transport is posted to over HTTP, at its endpoint; a URL to post to stays as it is.
pub proof fn law_http_url(transport: TransportView, url: Seq<char>)
    ensures
        http_url(transport_text(transport)) == "http://"@ + match transport {
            TransportView::JsonRpc(endpoint) => endpoint,
            TransportView::RestHttp(endpoint) => endpoint,
        },
        http_url(http_url(url)) == http_url(url),
{
    reveal_strlit("rpc://");
    reveal_strlit("rpcs://");
    reveal_strlit("http://");
    reveal_strlit("https://");
    let text = transport_text(transport);
    match transport {
        TransportView::JsonRpc(endpoint) => {
            assert(text.subrange(0, 6) =~= "rpc://"@);
            assert(text.subrange(6, text.len() as int) =~= endpoint);
        },
        TransportView::RestHttp(endpoint) => {
            assert(text.subrange(0, 6)[0] == 'h');
            assert(!begins(text, "rpc://"@));
            assert(!begins(text, "rpcs://"@)) by {
                if text.len() >= 7 {
                    assert(text.subrange(0, 7)[0] == 'h');
                }
            }
        },
    }
    let posted = http_url(url);
    if posted != url {
        assert(posted[0] == 'h');
        assert(!begins(posted, "rpc://"@)) by {
            if posted.len() >= 6 {
                assert(posted.subrange(0, 6)[0] == 'h');
            }
        }
        assert(!begins(posted, "rpcs://"@)) by {
            if posted.len() >= 7 {
                assert(posted.subrange(0, 7)[0] == 'h');
            }
        }
    }
}

/// The protocol of an indexer: every URL is taken for an Electrum server.
pub fn check_indexer_url(_indexer_url: &str, _bitcoin_network: BitcoinNetwork) -> (r: Result<
    IndexerProtocol,
    RgbLibError,
>)
    ensures
        r == Ok::<IndexerProtocol, RgbLibError>(IndexerProtocol::Electrum),
{
    Ok(IndexerProtocol::Electrum)
}

/// What is wrong with the URL of a proxy: it is empty, or has no scheme.
pub open spec fn url_fault(url: Seq<char>) -> Option<Failure> {
    if url.len() == 0 {
        Some(Failure::Other("Proxy URL cannot be empty"@))
    } else if !has_text(url, "://"@) {
        Some(Failure::Other("Invalid proxy URL format"@))
    } else {
        None
    }
}

/// Every URL with a scheme is one of a proxy, whatever stands before the colon and its two slashes or
/// behind them, and every transport has such a URL. An empty one, and one without them, is none.
pub proof fn law_proxy_url(scheme: Seq<char>, rest: Seq<char>, url: Seq<char>)
    ensures
        url_fault(scheme + "://"@ + rest) is None,
        url_fault(transport_text(TransportView::JsonRpc(rest))) is None,
        url_fault(transport_text(TransportView::RestHttp(rest))) is None,
        url_fault(Seq::empty()) == Some(Failure::Other("Proxy URL cannot be empty"@)),
        url.len() > 0 && (forall|at: int|
            0 <= at <= url.len() - 3 ==> #[trigger] url.subrange(at, at + 3) != seq![':', '/', '/'])
            ==> url_fault(url) == Some(Failure::Other("Invalid proxy URL format"@)),
{
    reveal_strlit("://");
    reveal_strlit("rpc://");
    reveal_strlit("http://");
    assert("://"@ =~= seq![':', '/', '/']);
    let full = scheme + "://"@ + rest;
    let at = scheme.len() as int;
    assert(full.subrange(at, at + 3) =~= "://"@);
    assert(stands_at(full, "://"@, at));
    let rpc = transport_text(TransportView::JsonRpc(rest));
    assert(rpc.subrange(3, 6) =~= "://"@);
    assert(stands_at(rpc, "://"@, 3));
    let rest_http = transport_text(TransportView::RestHttp(rest));
    assert(rest_http.subrange(4, 7) =~= "://"@);
    assert(stands_at(rest_http, "://"@, 4));
}

/// Checks that the URL of a proxy is not empty and has a scheme.
pub fn check_proxy_url(proxy_url: &str) -> (r: Result<(), RgbLibError>)
    ensures
        match r {
            Ok(_) => proxy_url@.len() > 0 && has_text(proxy_url@, "://"@),
            Err(e) => if proxy_url@.len() == 0 {
                failure(e) == Failure::Other("Proxy URL cannot be empty"@)
            } else {
                !has_text(proxy_url@, "://"@) && failure(e) == Failure::Other(
                    "Invalid proxy URL format"@,
                )
            },
        },
        match r {
            Ok(_) => url_fault(proxy_url@) is None,
            Err(e) => url_fault(proxy_url@) == Some(failure(e)),
        },
{
    if proxy_url.is_empty() {
        return Err(RgbLibError::Other("Proxy URL cannot be empty".to_owned()));
    }
    if !contains_text(proxy_url, "://") {
        return Err(RgbLibError::Other("Invalid proxy URL format".to_owned()));
    }
    Ok(())
}

/// A text names a JSON-RPC transport behind one scheme and a REST transport behind another, with the
/// endpoint that follows. Without one of them it names none.
pub proof fn law_transport_named(endpoint: Seq<char>, text: Seq<char>)
    ensures
        transport_of("rpc://"@ + endpoint) == Some(TransportView::JsonRpc(endpoint)),
        transport_of("http://"@ + endpoint) == Some(TransportView::RestHttp(endpoint)),
        !"rpc://"@.is_prefix_of(text) && !"http://"@.is_prefix_of(text) ==> transport_of(text) is None,
        transport_text(TransportView::JsonRpc(endpoint)) == "rpc://"@ + endpoint,
        transport_text(TransportView::RestHttp(endpoint)) == "http://"@ + endpoint,
{
    law_transport_round_trip(TransportView::JsonRpc(endpoint), text);
    law_transport_round_trip(TransportView::RestHttp(endpoint), text);
    assert(begins(text, "rpc://"@) ==> "rpc://"@.is_prefix_of(text));
    assert(begins(text, "http://"@) ==> "http://"@.is_prefix_of(text));
}

/// JSON-RPC is posted over HTTP, and over HTTPS where it is secured, to the same endpoint. Every other
/// URL is posted to as it stands.
pub proof fn law_posted_url(endpoint: Seq<char>, url: Seq<char>)
    ensures
        http_url("rpc://"@ + endpoint) == "http://"@ + endpoint,
        http_url("rpcs://"@ + endpoint) == "https://"@ + endpoint,
        !"rpc://"@.is_prefix_of(url) && !"rpcs://"@.is_prefix_of(url) ==> http_url(url) == url,
{
    reveal_strlit("rpc://");
    reveal_strlit("rpcs://");
    let plain = "rpc://"@ + endpoint;
    let secured = "rpcs://"@ + endpoint;
    assert(plain.subrange(0, 6) =~= "rpc://"@);
    assert(plain.subrange(6, plain.len() as int) =~= endpoint);
    assert(secured.subrange(0, 7) =~= "rpcs://"@);
    assert(secured.subrange(7, secured.len() as int) =~= endpoint);
    assert(secured.subrange(0, 6)[3] == 's');
    assert("rpc://"@[3] == ':');
    assert(!begins(secured, "rpc://"@));
    assert(begins(url, "rpc://"@) ==> "rpc://"@.is_prefix_of(url));
    assert(begins(url, "rpcs://"@) ==> "rpcs://"@.is_prefix_of(url));
}

/// An endpoint of a transfer that was not used yet has the text that it was made with, and is one of
/// JSON-RPC.
pub proof fn law_unused_endpoint(endpoint: TransportEndpoint, text: Seq<char>)
    ensures
        is_unused(endpoint, text) <==> endpoint.endpoint@ == text && endpoint.transport_type
            is JsonRpc && endpoint.used == false,
{
}

} // verus!
