//! Requests to the proxy that holds consignments, and its replies.

use vstd::prelude::*;
use vstd::string::StringSliceAdditionalSpecFns;
use vstd::utf8::{decode_utf8, encode_utf8, valid_utf8};

use crate::codec::{
    base64_bytes, base64_decode, base64_encode, base64_text, hex_bytes, hex_decode, hex_encode,
    hex_error, lower_hex, utf8_error, utf8_text,
};
use crate::error::{failure, other_with, Failure, RgbLibError};
use crate::json::{
    compact_text, content, depth_limit, json_compact, json_object, json_of_text, json_text,
    law_whole_read_back, lemma_fits_any, put, reads_as, Json,
};
use crate::path::{law_file_below, FilePath, PathView};
use crate::text::{join_three, join_two};
use crate::transport::{http_url, url_to_post};

verus! {

/// A JSON document to post to a URL.
pub struct ProxyRequest {
    pub url: String,
    pub body: serde_json::Value,
}

/// What a request says.
pub struct RequestView {
    pub url: Seq<char>,
    pub body: Json,
}

impl View for ProxyRequest {
    type V = RequestView;

    open spec fn view(&self) -> RequestView {
        RequestView { url: self.url@, body: content(self.body) }
    }
}

/// The call of a method of the proxy.
pub open spec fn call_body(method: Seq<char>, params: Json) -> Json {
    Json::Object(
        map![
            "method"@ => Json::Text(method),
            "jsonrpc"@ => Json::Text("2.0"@),
            "id"@ => Json::Text("1"@),
            "params"@ => params,
        ],
    )
}

/// The call of a method of the proxy.
fn new_call(method: &str, params: serde_json::Value) -> (r: serde_json::Value)
    ensures
        content(r) == call_body(method@, content(params)),
{
    let mut body: serde_json::Value = json_object();
    put(&mut body, "method", json_text(method));
    put(&mut body, "jsonrpc", json_text("2.0"));
    put(&mut body, "id", json_text("1"));
    put(&mut body, "params", params);
    assert(content(body).fields() =~= call_body(method@, content(params)).fields());
    body
}

/// The question for the consignment of a recipient.
pub open spec fn query(recipient: Seq<char>, url: Seq<char>) -> RequestView {
    RequestView {
        url: http_url(url),
        body: call_body(
            "consignment.get"@,
            Json::Object(map!["recipient_id"@ => Json::Text(recipient)]),
        ),
    }
}

/// The question for the consignment of a recipient.
pub fn consignment_query(recipient: &str, url: &str) -> (r: ProxyRequest)
    ensures
        r@ == query(recipient@, url@),
{
    let mut params: serde_json::Value = json_object();
    put(&mut params, "recipient_id", json_text(recipient));
    assert(content(params).fields() =~= map!["recipient_id"@ => Json::Text(recipient@)]);
    ProxyRequest { url: url_to_post(url), body: new_call("consignment.get", params) }
}

/// What the proxy replied to a question.
pub enum ProxyReply {
    /// The request could not be sent. Holds the text of the error.
    SendFailed(String),
    /// The status was no success. Holds the text of the status.
    Refused(String),
    /// The reply was no answer. Holds the text of the error.
    Unparsed(String),
    /// The answer.
    Answer { error: Option<serde_json::Value>, consignment: Option<String> },
}

/// What the proxy replied to a question.
pub enum ReplyView {
    SendFailed(Seq<char>),
    Refused(Seq<char>),
    Unparsed(Seq<char>),
    Answer { error: Option<Json>, consignment: Option<Seq<char>> },
}

impl View for ProxyReply {
    type V = ReplyView;

    open spec fn view(&self) -> ReplyView {
        match self {
            ProxyReply::SendFailed(e) => ReplyView::SendFailed(e@),
            ProxyReply::Refused(status) => ReplyView::Refused(status@),
            ProxyReply::Unparsed(e) => ReplyView::Unparsed(e@),
            ProxyReply::Answer { error, consignment } => ReplyView::Answer {
                error: match error {
                    Some(error) => Some(content(*error)),
                    None => None,
                },
                consignment: match consignment {
                    Some(text) => Some(text@),
                    None => None,
                },
            },
        }
    }
}

/// The text inside a consignment: UTF-8 in base64. The messages go before the reasons why there
/// is none.
pub open spec fn consignment_text(
    consignment: Seq<char>,
    no_base64: Seq<char>,
    no_utf8: Seq<char>,
) -> Result<Seq<char>, Failure> {
    match base64_bytes(consignment) {
        Err(e) => Err(Failure::Other(no_base64 + e)),
        Ok(bytes) => if valid_utf8(bytes) {
            Ok(decode_utf8(bytes))
        } else {
            Err(Failure::Other(no_utf8 + utf8_error(bytes)))
        },
    }
}

/// The text inside a consignment.
pub fn decode_consignment(consignment: &str, no_base64: &str, no_utf8: &str) -> (r: Result<
    String,
    RgbLibError,
>)
    ensures
        match r {
            Ok(text) => consignment_text(consignment@, no_base64@, no_utf8@) == Ok::<
                Seq<char>,
                Failure,
            >(text@),
            Err(e) => consignment_text(consignment@, no_base64@, no_utf8@) == Err::<
                Seq<char>,
                Failure,
            >(failure(e)),
        },
{
    match base64_decode(consignment) {
        Err(e) => Err(other_with(no_base64, e.as_str())),
        Ok(bytes) => match utf8_text(bytes) {
            Ok(text) => Ok(text),
            Err(e) => Err(other_with(no_utf8, e.as_str())),
        },
    }
}

/// What an initiator says of a channel, as the proxy replied.
pub open spec fn channel_text(reply: ReplyView) -> Result<Seq<char>, Failure> {
    match reply {
        ReplyView::SendFailed(e) => Err(Failure::Other("Failed to get channel info: "@ + e)),
        ReplyView::Refused(_) => Err(Failure::NoConsignment),
        ReplyView::Unparsed(e) => Err(
            Failure::Other("Failed to parse JSON-RPC response: "@ + e),
        ),
        ReplyView::Answer { error: Some(error), .. } => Err(
            Failure::Other("JSON-RPC error: "@ + json_compact(error)),
        ),
        ReplyView::Answer { consignment: None, .. } => Err(Failure::NoConsignment),
        ReplyView::Answer { consignment: Some(consignment), .. } => consignment_text(
            consignment,
            "Failed to decode base64 consignment: "@,
            "Failed to convert consignment to UTF-8: "@,
        ),
    }
}

/// What an initiator says of a channel, as the proxy replied.
pub fn read_channel_reply(reply: &ProxyReply) -> (r: Result<String, RgbLibError>)
    ensures
        match r {
            Ok(text) => channel_text(reply@) == Ok::<Seq<char>, Failure>(text@),
            Err(e) => channel_text(reply@) == Err::<Seq<char>, Failure>(failure(e)),
        },
{
    match reply {
        ProxyReply::SendFailed(e) => Err(other_with("Failed to get channel info: ", e.as_str())),
        ProxyReply::Refused(_) => Err(RgbLibError::NoConsignment),
        ProxyReply::Unparsed(e) => Err(
            other_with("Failed to parse JSON-RPC response: ", e.as_str()),
        ),
        ProxyReply::Answer { error: Some(error), .. } => Err(
            other_with("JSON-RPC error: ", compact_text(error).as_str()),
        ),
        ProxyReply::Answer { consignment: None, .. } => Err(RgbLibError::NoConsignment),
        ProxyReply::Answer { consignment: Some(consignment), .. } => decode_consignment(
            consignment.as_str(),
            "Failed to decode base64 consignment: ",
            "Failed to convert consignment to UTF-8: ",
        ),
    }
}

/// What an acceptor says of its key, as the proxy replied.
pub open spec fn key_text(reply: ReplyView) -> Result<Seq<char>, Failure> {
    match reply {
        ReplyView::SendFailed(e) => Err(
            Failure::Other("Failed to get counterparty pubkey: "@ + e),
        ),
        ReplyView::Refused(status) => Err(
            Failure::Other("Proxy GET failed for acceptor pubkey: "@ + status),
        ),
        ReplyView::Unparsed(e) => Err(Failure::Other("Failed to parse response: "@ + e)),
        ReplyView::Answer { error: Some(error), .. } => Err(
            Failure::Other("Proxy error: "@ + json_compact(error)),
        ),
        ReplyView::Answer { consignment: None, .. } => Err(
            Failure::Other("No result in response"@),
        ),
        ReplyView::Answer { consignment: Some(consignment), .. } => consignment_text(
            consignment,
            "Failed to decode base64: "@,
            "Failed to convert to UTF-8: "@,
        ),
    }
}

/// What an acceptor says of its key, as the proxy replied.
pub fn read_key_reply(reply: &ProxyReply) -> (r: Result<String, RgbLibError>)
    ensures
        match r {
            Ok(text) => key_text(reply@) == Ok::<Seq<char>, Failure>(text@),
            Err(e) => key_text(reply@) == Err::<Seq<char>, Failure>(failure(e)),
        },
{
    match reply {
        ProxyReply::SendFailed(e) => Err(
            other_with("Failed to get counterparty pubkey: ", e.as_str()),
        ),
        ProxyReply::Refused(status) => Err(
            other_with("Proxy GET failed for acceptor pubkey: ", status.as_str()),
        ),
        ProxyReply::Unparsed(e) => Err(other_with("Failed to parse response: ", e.as_str())),
        ProxyReply::Answer { error: Some(error), .. } => Err(
            other_with("Proxy error: ", compact_text(error).as_str()),
        ),
        ProxyReply::Answer { consignment: None, .. } => Err(
            RgbLibError::Other("No result in response".to_owned()),
        ),
        ProxyReply::Answer { consignment: Some(consignment), .. } => decode_consignment(
            consignment.as_str(),
            "Failed to decode base64: ",
            "Failed to convert to UTF-8: ",
        ),
    }
}

/// The recipient under which an acceptor's key is posted.
pub open spec fn key_recipient(contract_id: Seq<char>) -> Seq<char> {
    contract_id + "_acceptor_pubkey"@
}

/// What an acceptor says of its key.
pub open spec fn key_payload(contract_id: Seq<char>, wallet_pubkey: Seq<char>) -> Json {
    Json::Object(
        map![
            "wallet_pubkey"@ => Json::Text(wallet_pubkey),
            "contract_id"@ => Json::Text(contract_id),
        ],
    )
}

/// The text of what an acceptor says of its key. Reading it gives the payload back.
fn key_payload_text(contract_id: &str, wallet_pubkey: &str) -> (r: String)
    ensures
        r@ == json_compact(key_payload(contract_id@, wallet_pubkey@)),
        reads_as(r@, key_payload(contract_id@, wallet_pubkey@)),
{
    let mut payload: serde_json::Value = json_object();
    put(&mut payload, "wallet_pubkey", json_text(wallet_pubkey));
    put(&mut payload, "contract_id", json_text(contract_id));
    let ghost expected = key_payload(contract_id@, wallet_pubkey@);
    assert(content(payload).fields() =~= expected.fields());
    assert(expected.fits(depth_limit(), true)) by {
        assert forall|key: Seq<char>| #[trigger]
            expected.fields().contains_key(key) implies expected.fields()[key].fits(
            (depth_limit() - 1) as nat,
            true,
        ) by {}
    }
    let text: String = compact_text(&payload);
    proof {
        lemma_fits_any(expected, depth_limit());
        law_whole_read_back(text@, expected);
    }
    text
}

/// The posting of an acceptor's key as a consignment.
pub open spec fn key_posting(
    contract_id: Seq<char>,
    wallet_pubkey: Seq<char>,
    url: Seq<char>,
) -> RequestView {
    let payload = json_compact(key_payload(contract_id, wallet_pubkey));
    RequestView {
        url: http_url(url),
        body: call_body(
            "consignment.post"@,
            Json::Object(
                map![
                    "recipient_id"@ => Json::Text(key_recipient(contract_id)),
                    "consignment"@ => Json::Text(base64_text(encode_utf8(payload))),
                ],
            ),
        ),
    }
}

/// Whether a consignment carries an acceptor's key: a reader finds the payload in it.
pub open spec fn carries_key(
    consignment: Seq<char>,
    contract_id: Seq<char>,
    wallet_pubkey: Seq<char>,
) -> bool {
    key_text(ReplyView::Answer { error: None, consignment: Some(consignment) }) matches Ok(text)
        && reads_as(text, key_payload(contract_id, wallet_pubkey))
}

/// The posting of an acceptor's key as a consignment. Whoever asks for that consignment, and is
/// answered with it, reads the key that was posted.
pub fn acceptor_key_request(contract_id: &str, wallet_pubkey: &str, proxy_url: &str) -> (r:
    ProxyRequest)
    ensures
        r@ == key_posting(contract_id@, wallet_pubkey@, proxy_url@),
        carries_key(
            base64_text(
                encode_utf8(json_compact(key_payload(contract_id@, wallet_pubkey@))),
            ),
            contract_id@,
            wallet_pubkey@,
        ),
{
    let recipient: String = join_two(contract_id, "_acceptor_pubkey");
    let payload: String = key_payload_text(contract_id, wallet_pubkey);
    let consignment: String = base64_encode(payload.as_str().as_bytes());
    proof {
        vstd::utf8::encode_utf8_valid_utf8(payload@);
        vstd::utf8::encode_utf8_decode_utf8(payload@);
    }
    let mut params: serde_json::Value = json_object();
    put(&mut params, "recipient_id", json_text(recipient.as_str()));
    put(&mut params, "consignment", json_text(consignment.as_str()));
    assert(content(params).fields() =~= map![
        "recipient_id"@ => Json::Text(recipient@),
        "consignment"@ => Json::Text(consignment@),
    ]);
    ProxyRequest { url: url_to_post(proxy_url), body: new_call("consignment.post", params) }
}

/// What the proxy replied to the posting of a key.
pub enum PostReply {
    /// The request could not be sent. Holds the text of the error.
    SendFailed(String),
    /// The status was no success. Holds the text of the status.
    Refused(String),
    /// The status was success.
    Accepted,
}

/// Why a key was not posted, as the proxy replied.
pub open spec fn post_fault(reply: PostReply) -> Option<Failure> {
    match reply {
        PostReply::SendFailed(text) => Some(
            Failure::Other("Failed to post acceptor pubkey: "@ + text@),
        ),
        PostReply::Refused(status) => Some(
            Failure::Other("Proxy rejected acceptor pubkey post: "@ + status@),
        ),
        PostReply::Accepted => None,
    }
}

/// A key is posted if and only if the proxy accepts it. That the request could not be sent, and that the
/// proxy rejected it, are told apart.
pub proof fn law_posted(reply: PostReply, text: String)
    ensures
        post_fault(reply) is None <==> reply is Accepted,
        post_fault(PostReply::SendFailed(text)) == Some(
            Failure::Other("Failed to post acceptor pubkey: "@ + text@),
        ),
        post_fault(PostReply::Refused(text)) == Some(
            Failure::Other("Proxy rejected acceptor pubkey post: "@ + text@),
        ),
{
}

/// Whether a key was posted, as the proxy replied.
pub fn read_post_reply(reply: &PostReply) -> (r: Result<(), RgbLibError>)
    ensures
        match (reply, r) {
            (PostReply::SendFailed(text), Err(e)) => failure(e) == Failure::Other(
                "Failed to post acceptor pubkey: "@ + text@,
            ),
            (PostReply::Refused(status), Err(e)) => failure(e) == Failure::Other(
                "Proxy rejected acceptor pubkey post: "@ + status@,
            ),
            (PostReply::Accepted, Ok(_)) => true,
            _ => false,
        },
        match r {
            Ok(_) => post_fault(*reply) is None,
            Err(e) => post_fault(*reply) == Some(failure(e)),
        },
{
    match reply {
        PostReply::SendFailed(text) => Err(
            other_with("Failed to post acceptor pubkey: ", text.as_str()),
        ),
        PostReply::Refused(status) => Err(
            other_with("Proxy rejected acceptor pubkey post: ", status.as_str()),
        ),
        PostReply::Accepted => Ok(()),
    }
}

/// The uncompressed public key of a secret key, or the text of the error.
pub uninterp spec fn public_key(secret: Seq<u8>) -> Result<Seq<u8>, Seq<char>>;

/// `bitcoin::secp256k1`: the secret key of some bytes, its public key, and that key's
/// uncompressed bytes, by `SecretKey::from_slice`, `PublicKey::from_secret_key` and
/// `PublicKey::serialize_uncompressed`. The bytes, or the text of the error, are given the name
/// `public_key`.
#[verifier::external_body]
fn uncompressed_public_key(secret: &[u8]) -> (r: Result<Vec<u8>, String>)
    ensures
        match r {
            Ok(key) => public_key(secret@) == Ok::<_, Seq<char>>(key@),
            Err(e) => public_key(secret@) == Err::<Seq<u8>, _>(e@),
        },
{
    let secp = bitcoin::secp256k1::Secp256k1::new();
    match bitcoin::secp256k1::SecretKey::from_slice(secret) {
        Ok(key) => Ok(
            bitcoin::secp256k1::PublicKey::from_secret_key(&secp, &key).serialize_uncompressed().to_vec(),
        ),
        Err(e) => Err(e.to_string()),
    }
}

/// The public key of the wallet, given the master key in hexadecimal, if it is set.
pub open spec fn wallet_key(master_key: Option<Seq<char>>) -> Result<Seq<char>, Failure> {
    match master_key {
        None => Err(Failure::Other("FIREFLY_PRIVATE_KEY not set"@)),
        Some(text) => match hex_bytes(text) {
            None => Err(Failure::Other("Invalid master key hex: "@ + hex_error(text))),
            Some(bytes) => match public_key(bytes) {
                Err(e) => Err(Failure::Other("Invalid secp256k1 master key: "@ + e)),
                Ok(key) => Ok(lower_hex(key)),
            },
        },
    }
}

/// The public key of the wallet in hexadecimal, given what its master key gives.
pub fn wallet_key_text(key: Result<Vec<u8>, String>) -> (r: Result<String, RgbLibError>)
    ensures
        match (key, r) {
            (Ok(key), Ok(text)) => text@ == lower_hex(key@),
            (Err(reason), Err(e)) => failure(e) == Failure::Other(
                "Invalid secp256k1 master key: "@ + reason@,
            ),
            _ => false,
        },
{
    match key {
        Ok(key) => Ok(hex_encode(key.as_slice())),
        Err(e) => Err(other_with("Invalid secp256k1 master key: ", e.as_str())),
    }
}

/// The public key of the wallet, given the master key in hexadecimal, if it is set.
pub fn wallet_public_key(master_key: &Option<String>) -> (r: Result<String, RgbLibError>)
    ensures
        ({
            let given = match master_key {
                Some(text) => Some(text@),
                None => None,
            };
            match r {
                Ok(key) => wallet_key(given) == Ok::<Seq<char>, Failure>(key@),
                Err(e) => wallet_key(given) == Err::<Seq<char>, Failure>(failure(e)),
            }
        }),
{
    match master_key {
        None => Err(RgbLibError::Other("FIREFLY_PRIVATE_KEY not set".to_owned())),
        Some(text) => match hex_decode(text.as_str()) {
            Err(e) => Err(other_with("Invalid master key hex: ", e.as_str())),
            Ok(bytes) => wallet_key_text(uncompressed_public_key(bytes.as_slice())),
        },
    }
}

/// The upload of an acceptor's key as a file.
pub struct KeyUpload {
    pub url: String,
    /// The parameters of the call, as JSON text.
    pub params: String,
    /// Where the file is written until it is uploaded.
    pub path: FilePath,
    /// What the file holds.
    pub text: String,
}

/// The upload of an acceptor's key as a file.
pub struct UploadView {
    pub url: Seq<char>,
    pub params: Seq<char>,
    pub path: PathView,
    pub text: Seq<char>,
}

impl View for KeyUpload {
    type V = UploadView;

    open spec fn view(&self) -> UploadView {
        UploadView {
            url: self.url@,
            params: self.params@,
            path: self.path@,
            text: self.text@,
        }
    }
}

/// The parameters of the upload of an acceptor's key.
pub open spec fn upload_params(contract_id: Seq<char>) -> Json {
    Json::Object(
        map![
            "recipient_id"@ => Json::Text(key_recipient(contract_id)),
            "txid"@ => Json::Text(key_recipient(contract_id)),
        ],
    )
}

/// Where an acceptor's key is written until it is uploaded.
pub open spec fn upload_path(ldk_data_dir: PathView, contract_id: Seq<char>) -> PathView {
    ldk_data_dir.join("temp_acceptor_pubkey_"@ + contract_id + ".json"@)
}

/// Where an acceptor's key is written until it is uploaded.
pub(crate) fn path_of_upload(ldk_data_dir: &FilePath, contract_id: &str) -> (r: FilePath)
    ensures
        r@ == upload_path(ldk_data_dir@, contract_id@),
{
    ldk_data_dir.join(join_three("temp_acceptor_pubkey_", contract_id, ".json").as_str())
}

/// The upload of an acceptor's key.
pub open spec fn upload(
    ldk_data_dir: PathView,
    contract_id: Seq<char>,
    wallet_pubkey: Seq<char>,
    url: Seq<char>,
) -> UploadView {
    UploadView {
        url: http_url(url),
        params: json_compact(upload_params(contract_id)),
        path: upload_path(ldk_data_dir, contract_id),
        text: json_compact(key_payload(contract_id, wallet_pubkey)),
    }
}

/// The upload of an acceptor's key, after it has accepted a channel. `master_key` is the secret
/// key of the wallet in hexadecimal, if it is set. What the file holds is read as the key, and the
/// parameters are read as they were meant.
pub fn post_acceptor_pubkey_after_accept(
    ldk_data_dir: &FilePath,
    contract_id: &str,
    proxy_url: &str,
    master_key: &Option<String>,
) -> (r: Result<KeyUpload, RgbLibError>)
    ensures
        ({
            let given = match master_key {
                Some(text) => Some(text@),
                None => None,
            };
            match r {
                Ok(sent) => wallet_key(given) matches Ok(key) && sent@ == upload(
                    ldk_data_dir@,
                    contract_id@,
                    key,
                    proxy_url@,
                ) && reads_as(sent.text@, key_payload(contract_id@, key)) && reads_as(
                    sent.params@,
                    upload_params(contract_id@),
                ),
                Err(e) => wallet_key(given) == Err::<Seq<char>, Failure>(failure(e)),
            }
        }),
{
    let key: String = match wallet_public_key(master_key) {
        Ok(key) => key,
        Err(e) => {
            return Err(e);
        },
    };
    let recipient: String = join_two(contract_id, "_acceptor_pubkey");
    let text: String = key_payload_text(contract_id, key.as_str());
    let mut params: serde_json::Value = json_object();
    put(&mut params, "recipient_id", json_text(recipient.as_str()));
    put(&mut params, "txid", json_text(recipient.as_str()));
    let ghost expected = upload_params(contract_id@);
    assert(content(params).fields() =~= expected.fields());
    assert(expected.fits(depth_limit(), true)) by {
        assert forall|key: Seq<char>| #[trigger]
            expected.fields().contains_key(key) implies expected.fields()[key].fits(
            (depth_limit() - 1) as nat,
            true,
        ) by {}
    }
    let params: String = compact_text(&params);
    proof {
        lemma_fits_any(expected, depth_limit());
        law_whole_read_back(params@, expected);
    }
    Ok(
        KeyUpload {
            url: url_to_post(proxy_url),
            params,
            path: path_of_upload(ldk_data_dir, contract_id),
            text,
        },
    )
}

/// What became of an upload.
pub enum UploadReply {
    /// The file could not be written. Holds the text of the error.
    WriteFailed(String),
    /// The file could not be attached. Holds the text of the error.
    AttachFailed(String),
    /// The request could not be sent. Holds the text of the error.
    SendFailed(String),
    /// The status was no success.
    Refused,
    /// The reply was no answer. Holds the text of the error.
    Unparsed(String),
    /// The answer, which says whether there was an error.
    Answered { failed: bool },
}

/// What became of an upload.
pub enum UploadReplyView {
    WriteFailed(Seq<char>),
    AttachFailed(Seq<char>),
    SendFailed(Seq<char>),
    Refused,
    Unparsed(Seq<char>),
    Answered { failed: bool },
}

impl View for UploadReply {
    type V = UploadReplyView;

    open spec fn view(&self) -> UploadReplyView {
        match self {
            UploadReply::WriteFailed(e) => UploadReplyView::WriteFailed(e@),
            UploadReply::AttachFailed(e) => UploadReplyView::AttachFailed(e@),
            UploadReply::SendFailed(e) => UploadReplyView::SendFailed(e@),
            UploadReply::Refused => UploadReplyView::Refused,
            UploadReply::Unparsed(e) => UploadReplyView::Unparsed(e@),
            UploadReply::Answered { failed } => UploadReplyView::Answered { failed: *failed },
        }
    }
}

/// Whether a channel may open after an upload: that the proxy refuses the key does not stop it.
pub open spec fn upload_result(reply: UploadReplyView) -> Result<(), Failure> {
    match reply {
        UploadReplyView::WriteFailed(e) => Err(
            Failure::Other("Failed to write temp file: "@ + e),
        ),
        UploadReplyView::AttachFailed(e) => Err(Failure::Other("Failed to attach file: "@ + e)),
        UploadReplyView::SendFailed(e) => Err(
            Failure::Other("Failed to post acceptor pubkey: "@ + e),
        ),
        UploadReplyView::Unparsed(e) => Err(Failure::Other("Failed to parse response: "@ + e)),
        UploadReplyView::Refused => Ok(()),
        UploadReplyView::Answered { .. } => Ok(()),
    }
}

/// Whether a channel may open after an upload.
pub fn read_upload_reply(reply: &UploadReply) -> (r: Result<(), RgbLibError>)
    ensures
        match r {
            Ok(_) => upload_result(reply@) is Ok,
            Err(e) => upload_result(reply@) == Err::<(), Failure>(failure(e)),
        },
{
    match reply {
        UploadReply::WriteFailed(e) => Err(other_with("Failed to write temp file: ", e.as_str())),
        UploadReply::AttachFailed(e) => Err(other_with("Failed to attach file: ", e.as_str())),
        UploadReply::SendFailed(e) => Err(
            other_with("Failed to post acceptor pubkey: ", e.as_str()),
        ),
        UploadReply::Unparsed(e) => Err(other_with("Failed to parse response: ", e.as_str())),
        UploadReply::Refused => Ok(()),
        UploadReply::Answered { .. } => Ok(()),
    }
}

/// Whether an upload was sent, so that its file is of no use any more.
pub open spec fn was_sent(reply: UploadReplyView) -> bool {
    reply is Refused || reply is Unparsed || reply is Answered
}

/// An acceptor's key is posted, as a consignment or as a file, to the place where the initiator
/// asks for it, and what is posted names the key.
pub proof fn law_key_exchange(
    ldk_data_dir: PathView,
    contract_id: Seq<char>,
    wallet_pubkey: Seq<char>,
    url: Seq<char>,
)
    ensures
        ({
            let asked = query(key_recipient(contract_id), url);
            let posted = key_posting(contract_id, wallet_pubkey, url);
            let sent = upload(ldk_data_dir, contract_id, wallet_pubkey, url);
            let recipient = Some(Json::Text(key_recipient(contract_id)));
            &&& asked.url == posted.url
            &&& asked.url == sent.url
            &&& asked.body.get("params"@) matches Some(params) && params.get("recipient_id"@)
                == recipient
            &&& posted.body.get("params"@) matches Some(params) && params.get("recipient_id"@)
                == recipient
            &&& upload_params(contract_id).get("recipient_id"@) == recipient
            &&& key_payload(contract_id, wallet_pubkey).get("wallet_pubkey"@) == Some(
                Json::Text(wallet_pubkey),
            )
        }),
{
    reveal_strlit("recipient_id");
    reveal_strlit("consignment");
    reveal_strlit("txid");
    reveal_strlit("wallet_pubkey");
    reveal_strlit("contract_id");
    assert("recipient_id"@.len() != "consignment"@.len());
    assert("recipient_id"@.len() != "txid"@.len());
    assert("wallet_pubkey"@.len() != "contract_id"@.len());
}

/// What is asked of the proxy, key by key: the call for a consignment, in the form that the proxy
/// takes, for the recipient alone. A key is posted by the call that stores a consignment, for the
/// recipient that is the contract with a mark behind it, and the consignment is the base64 of what
/// names the key and the contract. Both go to where the proxy is.
pub proof fn law_requests(
    recipient: Seq<char>,
    contract_id: Seq<char>,
    wallet_pubkey: Seq<char>,
    url: Seq<char>,
)
    ensures
        ({
            let asked = query(recipient, url);
            let posted = key_posting(contract_id, wallet_pubkey, url);
            let said = key_payload(contract_id, wallet_pubkey);
            &&& asked.url == http_url(url)
            &&& asked.body.get("method"@) == Some(Json::Text("consignment.get"@))
            &&& asked.body.get("jsonrpc"@) == Some(Json::Text("2.0"@))
            &&& asked.body.get("id"@) == Some(Json::Text("1"@))
            &&& asked.body.get_two("params"@, "recipient_id"@) == Some(Json::Text(recipient))
            &&& posted.url == http_url(url)
            &&& posted.body.get("method"@) == Some(Json::Text("consignment.post"@))
            &&& posted.body.get("jsonrpc"@) == Some(Json::Text("2.0"@))
            &&& posted.body.get("id"@) == Some(Json::Text("1"@))
            &&& posted.body.get_two("params"@, "recipient_id"@) == Some(
                Json::Text(contract_id + "_acceptor_pubkey"@),
            )
            &&& posted.body.get_two("params"@, "consignment"@) == Some(
                Json::Text(base64_text(encode_utf8(json_compact(said)))),
            )
            &&& said.get("wallet_pubkey"@) == Some(Json::Text(wallet_pubkey))
            &&& said.get("contract_id"@) == Some(Json::Text(contract_id))
            &&& key_recipient(contract_id) == contract_id + "_acceptor_pubkey"@
        }),
{
    reveal_strlit("method");
    reveal_strlit("jsonrpc");
    reveal_strlit("id");
    reveal_strlit("params");
    reveal_strlit("recipient_id");
    reveal_strlit("consignment");
    reveal_strlit("wallet_pubkey");
    reveal_strlit("contract_id");
    assert("method"@[0] == 'm' && "params"@[0] == 'p');
    assert("method"@.len() == 6 && "jsonrpc"@.len() == 7 && "id"@.len() == 2);
    assert("recipient_id"@.len() != "consignment"@.len());
    assert("wallet_pubkey"@.len() != "contract_id"@.len());
}

/// What an initiator says is read from every answer without an error that holds UTF-8 in base64. Any
/// other reply is a failure that says why: an error goes before a consignment, and a reply with
/// neither holds none.
pub proof fn law_channel_reply(error: Json, consignment: Seq<char>, reason: Seq<char>)
    ensures
        channel_text(ReplyView::SendFailed(reason)) == Err::<Seq<char>, Failure>(
            Failure::Other("Failed to get channel info: "@ + reason),
        ),
        channel_text(ReplyView::Refused(reason)) == Err::<Seq<char>, Failure>(
            Failure::NoConsignment,
        ),
        channel_text(ReplyView::Unparsed(reason)) == Err::<Seq<char>, Failure>(
            Failure::Other("Failed to parse JSON-RPC response: "@ + reason),
        ),
        forall|held: Option<Seq<char>>| #[trigger]
            channel_text(ReplyView::Answer { error: Some(error), consignment: held }) == Err::<
                Seq<char>,
                Failure,
            >(Failure::Other("JSON-RPC error: "@ + json_compact(error))),
        channel_text(ReplyView::Answer { error: None, consignment: None }) == Err::<
            Seq<char>,
            Failure,
        >(Failure::NoConsignment),
        channel_text(ReplyView::Answer { error: None, consignment: Some(consignment) })
            == match base64_bytes(consignment) {
            Err(e) => Err::<Seq<char>, Failure>(
                Failure::Other("Failed to decode base64 consignment: "@ + e),
            ),
            Ok(bytes) => if valid_utf8(bytes) {
                Ok::<Seq<char>, Failure>(decode_utf8(bytes))
            } else {
                Err::<Seq<char>, Failure>(
                    Failure::Other(
                        "Failed to convert consignment to UTF-8: "@ + utf8_error(bytes),
                    ),
                )
            },
        },
{
}

/// What an acceptor says of its key is read from every answer without an error that holds UTF-8 in
/// base64. Any other reply is a failure that says why.
pub proof fn law_key_reply(error: Json, consignment: Seq<char>, reason: Seq<char>)
    ensures
        key_text(ReplyView::SendFailed(reason)) == Err::<Seq<char>, Failure>(
            Failure::Other("Failed to get counterparty pubkey: "@ + reason),
        ),
        key_text(ReplyView::Refused(reason)) == Err::<Seq<char>, Failure>(
            Failure::Other("Proxy GET failed for acceptor pubkey: "@ + reason),
        ),
        key_text(ReplyView::Unparsed(reason)) == Err::<Seq<char>, Failure>(
            Failure::Other("Failed to parse response: "@ + reason),
        ),
        forall|held: Option<Seq<char>>| #[trigger]
            key_text(ReplyView::Answer { error: Some(error), consignment: held }) == Err::<
                Seq<char>,
                Failure,
            >(Failure::Other("Proxy error: "@ + json_compact(error))),
        key_text(ReplyView::Answer { error: None, consignment: None }) == Err::<
            Seq<char>,
            Failure,
        >(Failure::Other("No result in response"@)),
        key_text(ReplyView::Answer { error: None, consignment: Some(consignment) })
            == match base64_bytes(consignment) {
            Err(e) => Err::<Seq<char>, Failure>(Failure::Other("Failed to decode base64: "@ + e)),
            Ok(bytes) => if valid_utf8(bytes) {
                Ok::<Seq<char>, Failure>(decode_utf8(bytes))
            } else {
                Err::<Seq<char>, Failure>(
                    Failure::Other("Failed to convert to UTF-8: "@ + utf8_error(bytes)),
                )
            },
        },
{
}

/// What is uploaded, field by field: a file in the node's directory that is named after the contract
/// and holds what names the key and the contract, with parameters that name the recipient twice.
pub proof fn law_upload(
    ldk_data_dir: PathView,
    contract_id: Seq<char>,
    wallet_pubkey: Seq<char>,
    url: Seq<char>,
)
    ensures
        ({
            let sent = upload(ldk_data_dir, contract_id, wallet_pubkey, url);
            let name = "temp_acceptor_pubkey_"@ + contract_id + ".json"@;
            let recipient = Json::Text(contract_id + "_acceptor_pubkey"@);
            &&& sent.url == http_url(url)
            &&& sent.params == json_compact(upload_params(contract_id))
            &&& sent.text == json_compact(key_payload(contract_id, wallet_pubkey))
            &&& sent.path == ldk_data_dir.join(name)
            &&& sent.path == upload_path(ldk_data_dir, contract_id)
            &&& !contract_id.contains('/') ==> sent.path.file_name() == Some(name)
                && sent.path.parent() == Some(ldk_data_dir.trimmed())
            &&& upload_params(contract_id).get("recipient_id"@) == Some(recipient)
            &&& upload_params(contract_id).get("txid"@) == Some(recipient)
        }),
{
    reveal_strlit("recipient_id");
    reveal_strlit("txid");
    reveal_strlit("temp_acceptor_pubkey_");
    reveal_strlit(".json");
    reveal_strlit(".");
    reveal_strlit("..");
    assert("recipient_id"@.len() != "txid"@.len());
    if !contract_id.contains('/') {
        let name = "temp_acceptor_pubkey_"@ + contract_id + ".json"@;
        assert("."@.len() == 1 && ".."@.len() == 2 && name.len() > 2);
        assert forall|i: int| 0 <= i < name.len() implies name[i] != '/' by {
            if 21 <= i < 21 + contract_id.len() {
                assert(name[i] == contract_id[i - 21]);
            } else if i >= 21 + contract_id.len() {
                assert(name[i] == ".json"@[i - 21 - contract_id.len()]);
            }
        }
        law_file_below(ldk_data_dir, name);
    }
}

/// A channel may open whether the proxy takes the key or refuses it, with or without an error in its
/// answer. It may not where the file could not be written, attached or sent, or where the reply is no
/// answer. The file is of no use any more once there is a reply.
pub proof fn law_upload_result(reason: Seq<char>, failed: bool)
    ensures
        upload_result(UploadReplyView::Refused) is Ok,
        upload_result(UploadReplyView::Answered { failed }) is Ok,
        upload_result(UploadReplyView::WriteFailed(reason)) == Err::<(), Failure>(
            Failure::Other("Failed to write temp file: "@ + reason),
        ),
        upload_result(UploadReplyView::AttachFailed(reason)) == Err::<(), Failure>(
            Failure::Other("Failed to attach file: "@ + reason),
        ),
        upload_result(UploadReplyView::SendFailed(reason)) == Err::<(), Failure>(
            Failure::Other("Failed to post acceptor pubkey: "@ + reason),
        ),
        upload_result(UploadReplyView::Unparsed(reason)) == Err::<(), Failure>(
            Failure::Other("Failed to parse response: "@ + reason),
        ),
        was_sent(UploadReplyView::Refused),
        was_sent(UploadReplyView::Unparsed(reason)),
        was_sent(UploadReplyView::Answered { failed }),
        !was_sent(UploadReplyView::WriteFailed(reason)),
        !was_sent(UploadReplyView::AttachFailed(reason)),
        !was_sent(UploadReplyView::SendFailed(reason)),
{
}

/// The public key of the wallet is that of the bytes that its master key is in hexadecimal, written in
/// hexadecimal itself. There is none where the master key is not set, is not hexadecimal, or is no
/// secret key.
pub proof fn law_wallet_key(text: Seq<char>, secret: Seq<u8>)
    ensures
        wallet_key(None) == Err::<Seq<char>, Failure>(
            Failure::Other("FIREFLY_PRIVATE_KEY not set"@),
        ),
        hex_bytes(text) is None ==> wallet_key(Some(text)) == Err::<Seq<char>, Failure>(
            Failure::Other("Invalid master key hex: "@ + hex_error(text)),
        ),
        hex_bytes(text) == Some(secret) ==> match public_key(secret) {
            Ok(key) => wallet_key(Some(text)) == Ok::<Seq<char>, Failure>(lower_hex(key)),
            Err(e) => wallet_key(Some(text)) == Err::<Seq<char>, Failure>(
                Failure::Other("Invalid secp256k1 master key: "@ + e),
            ),
        },
{
}

/// What the proxy replied is told apart, with its text; an answer says what its error and its
/// consignment hold, each where there is one.
pub proof fn law_replies(text: String, error: serde_json::Value)
    ensures
        ProxyReply::SendFailed(text)@ == ReplyView::SendFailed(text@),
        ProxyReply::Refused(text)@ == ReplyView::Refused(text@),
        ProxyReply::Unparsed(text)@ == ReplyView::Unparsed(text@),
        (ProxyReply::Answer { error: None, consignment: Some(text) })@ == (ReplyView::Answer {
            error: None,
            consignment: Some(text@),
        }),
        (ProxyReply::Answer { error: None, consignment: None })@ == (ReplyView::Answer {
            error: None,
            consignment: None,
        }),
        (ProxyReply::Answer { error: Some(error), consignment: Some(text) })@ == (
        ReplyView::Answer { error: Some(content(error)), consignment: Some(text@) }),
        (ProxyReply::Answer { error: Some(error), consignment: None })@ == (ReplyView::Answer {
            error: Some(content(error)),
            consignment: None,
        }),
        UploadReply::WriteFailed(text)@ == UploadReplyView::WriteFailed(text@),
        UploadReply::AttachFailed(text)@ == UploadReplyView::AttachFailed(text@),
        UploadReply::SendFailed(text)@ == UploadReplyView::SendFailed(text@),
        UploadReply::Unparsed(text)@ == UploadReplyView::Unparsed(text@),
        UploadReply::Refused@ == UploadReplyView::Refused,
{
}

/// A consignment that carries an acceptor's key is UTF-8 in base64 of a document that names the key and
/// the contract.
pub proof fn law_key_carried(
    consignment: Seq<char>,
    contract_id: Seq<char>,
    wallet_pubkey: Seq<char>,
)
    ensures
        carries_key(consignment, contract_id, wallet_pubkey) ==> {
            &&& base64_bytes(consignment) matches Ok(bytes)
            &&& valid_utf8(bytes)
            &&& json_of_text(decode_utf8(bytes)) matches Ok(said)
            &&& said.get("wallet_pubkey"@) == Some(Json::Text(wallet_pubkey))
            &&& said.get("contract_id"@) == Some(Json::Text(contract_id))
        },
{
    reveal_strlit("wallet_pubkey");
    reveal_strlit("contract_id");
    assert("wallet_pubkey"@.len() != "contract_id"@.len());
}

} // verus!
