//! The lookup of a counterparty's public key, step by step: first in the state file, then at the
//! proxy, whose answer is noted in the state file, which is made where there is none.

use vstd::prelude::*;

use crate::error::{failure, other_with, Failure, RgbLibError};
use crate::json::{content, depth_limit, json_of_text, json_pretty, Json};
use crate::path::{FilePath, PathView};
use crate::proxy::{
    consignment_query, key_recipient, key_text, query, read_key_reply, ProxyReply, ProxyRequest,
    RequestView,
};
use crate::state_file::{
    cache_counterparty, counterparty_in, counterparty_of, has_place, holds, law_noted_entry,
    law_noting, law_same_readings, no_parent, noting, read_counterparty, state_file_path, state_path,
    wallet_dir, wallet_directory, FileRead, FileView, StateWrite, StateWriteView,
};
use crate::text::join_two;

verus! {

/// How far a lookup is. From where it is known, the key is carried along.
pub enum LookupStage {
    /// The state file is being read.
    ReadingCache,
    /// The proxy was asked for the key.
    Asked,
    /// What the counterparty says is being read.
    ReadingPayload,
    /// The directory of the wallet is being made, to note the key.
    MakingDir(String),
    /// The state file is being read again, to note the key.
    ReadingState(String),
    /// The state file is being written.
    Writing(String),
    /// Nothing is left to do.
    Done,
}

/// What an action gave.
pub enum LookupEvent {
    /// What reading the state file gave.
    State(FileRead),
    /// The reply of the proxy.
    Reply(ProxyReply),
    /// The key that the counterparty says, or the text of the error.
    Payload(Result<String, String>),
    /// The directory is there, or the text of the error.
    DirMade(Option<String>),
    /// The state file is written, or the text of the error.
    Written(Option<String>),
}

/// What to do next.
pub enum LookupAction {
    /// Read the state file.
    ReadState(FilePath),
    /// Post the request to the proxy.
    Ask(ProxyRequest),
    /// Read the key from this JSON text.
    ReadPayload(String),
    /// Make the directory, with those above it.
    MakeDir(FilePath),
    /// Write the text to the state file.
    WriteState(FilePath, String),
    /// The key is found, or could not be.
    Finish(Result<String, RgbLibError>),
    /// The state file has no place for the key.
    Stop,
    /// The event does not belong to this stage.
    Unexpected,
}

/// What to do next.
pub enum LookupActionView {
    ReadState(PathView),
    Ask(RequestView),
    ReadPayload(Seq<char>),
    MakeDir(PathView),
    /// Write this document.
    WriteState(PathView, Json),
    Finish(Result<Seq<char>, Failure>),
    Stop,
    Unexpected,
}

/// Whether an action is what `expected` says.
pub open spec fn looks_up(action: LookupAction, expected: LookupActionView) -> bool {
    match (action, expected) {
        (LookupAction::ReadState(path), LookupActionView::ReadState(e)) => path@ == e,
        (LookupAction::Ask(request), LookupActionView::Ask(e)) => request@ == e,
        (LookupAction::ReadPayload(text), LookupActionView::ReadPayload(e)) => text@ == e,
        (LookupAction::MakeDir(dir), LookupActionView::MakeDir(e)) => dir@ == e,
        (LookupAction::WriteState(path, text), LookupActionView::WriteState(e, state)) => path@ == e
            && holds(text@, state),
        (LookupAction::Finish(Ok(key)), LookupActionView::Finish(Ok(e))) => key@ == e,
        (LookupAction::Finish(Err(error)), LookupActionView::Finish(Err(e))) => failure(error) == e,
        (LookupAction::Stop, LookupActionView::Stop) => true,
        (LookupAction::Unexpected, LookupActionView::Unexpected) => true,
        _ => false,
    }
}

/// A lookup under way.
pub struct KeyLookup {
    /// The directory of the node.
    pub ldk_data_dir: FilePath,
    pub contract_id: String,
    pub proxy_url: String,
    pub stage: LookupStage,
}

/// The first step of a lookup.
pub open spec fn lookup_start(ldk_data_dir: PathView) -> (LookupStage, LookupActionView) {
    match state_path(ldk_data_dir) {
        None => (LookupStage::Done, LookupActionView::Finish(Err(no_parent()))),
        Some(path) => (LookupStage::ReadingCache, LookupActionView::ReadState(path)),
    }
}

/// The step after `event`: the next stage and what to do.
pub open spec fn lookup_step(
    ldk_data_dir: PathView,
    contract_id: Seq<char>,
    proxy_url: Seq<char>,
    stage: LookupStage,
    event: LookupEvent,
) -> (LookupStage, LookupActionView) {
    match (stage, event) {
        (LookupStage::ReadingCache, LookupEvent::State(file)) => match counterparty_of(
            file@,
            contract_id,
        ) {
            Err(e) => (LookupStage::Done, LookupActionView::Finish(Err(e))),
            Ok(Some(key)) => (LookupStage::Done, LookupActionView::Finish(Ok(key))),
            Ok(None) => (
                LookupStage::Asked,
                LookupActionView::Ask(query(key_recipient(contract_id), proxy_url)),
            ),
        },
        (LookupStage::Asked, LookupEvent::Reply(reply)) => match key_text(reply@) {
            Err(e) => (LookupStage::Done, LookupActionView::Finish(Err(e))),
            Ok(text) => (LookupStage::ReadingPayload, LookupActionView::ReadPayload(text)),
        },
        (LookupStage::ReadingPayload, LookupEvent::Payload(Err(e))) => (
            LookupStage::Done,
            LookupActionView::Finish(Err(Failure::Other("Failed to parse pubkey payload: "@ + e@))),
        ),
        (LookupStage::ReadingPayload, LookupEvent::Payload(Ok(key))) => match wallet_dir(
            ldk_data_dir,
        ) {
            None => (LookupStage::Done, LookupActionView::Finish(Err(no_parent()))),
            Some(dir) => (LookupStage::MakingDir(key), LookupActionView::MakeDir(dir)),
        },
        (LookupStage::MakingDir(key), LookupEvent::DirMade(Some(e))) => (
            LookupStage::Done,
            LookupActionView::Finish(Err(Failure::Other("Cannot create directory: "@ + e@))),
        ),
        (LookupStage::MakingDir(key), LookupEvent::DirMade(None)) => match state_path(
            ldk_data_dir,
        ) {
            None => (LookupStage::Done, LookupActionView::Finish(Err(no_parent()))),
            Some(path) => (LookupStage::ReadingState(key), LookupActionView::ReadState(path)),
        },
        (LookupStage::ReadingState(key), LookupEvent::State(file)) => match (
            noting(file@, contract_id, key@),
            state_path(ldk_data_dir),
        ) {
            (_, None) => (LookupStage::Done, LookupActionView::Finish(Err(no_parent()))),
            (StateWriteView::Write(state), Some(path)) => (
                LookupStage::Writing(key),
                LookupActionView::WriteState(path, state),
            ),
            (StateWriteView::NoPlace, _) => (LookupStage::Done, LookupActionView::Stop),
            (StateWriteView::Fail(e), _) => (LookupStage::Done, LookupActionView::Finish(Err(e))),
        },
        (LookupStage::Writing(key), LookupEvent::Written(None)) => (
            LookupStage::Done,
            LookupActionView::Finish(Ok(key@)),
        ),
        (LookupStage::Writing(key), LookupEvent::Written(Some(e))) => (
            LookupStage::Done,
            LookupActionView::Finish(Err(Failure::Other("Failed to write state: "@ + e@))),
        ),
        _ => (stage, LookupActionView::Unexpected),
    }
}

impl KeyLookup {
    /// Begins to look up the key of the counterparty in a contract's channel.
    pub fn begin(ldk_data_dir: &FilePath, contract_id: &str, proxy_url: &str) -> (r: (
        KeyLookup,
        LookupAction,
    ))
        ensures
            ({
                let (stage, action) = lookup_start(ldk_data_dir@);
                &&& r.0.ldk_data_dir@ == ldk_data_dir@
                &&& r.0.contract_id@ == contract_id@
                &&& r.0.proxy_url@ == proxy_url@
                &&& r.0.stage == stage
                &&& looks_up(r.1, action)
            }),
    {
        let (stage, action): (LookupStage, LookupAction) = match state_file_path(ldk_data_dir) {
            Err(e) => (LookupStage::Done, LookupAction::Finish(Err(e))),
            Ok(path) => (LookupStage::ReadingCache, LookupAction::ReadState(path)),
        };
        (
            KeyLookup {
                ldk_data_dir: ldk_data_dir.copy(),
                contract_id: contract_id.to_owned(),
                proxy_url: proxy_url.to_owned(),
                stage,
            },
            action,
        )
    }

    /// Takes what the last action gave, and says what to do next.
    pub fn step(self, event: LookupEvent) -> (r: (KeyLookup, LookupAction))
        ensures
            ({
                let (stage, action) = lookup_step(
                    self.ldk_data_dir@,
                    self.contract_id@,
                    self.proxy_url@,
                    self.stage,
                    event,
                );
                &&& r.0.ldk_data_dir@ == self.ldk_data_dir@
                &&& r.0.contract_id@ == self.contract_id@
                &&& r.0.proxy_url@ == self.proxy_url@
                &&& r.0.stage == stage
                &&& looks_up(r.1, action)
            }),
    {
        let KeyLookup { ldk_data_dir, contract_id, proxy_url, stage } = self;
        let (stage, action): (LookupStage, LookupAction) = match (stage, event) {
            (LookupStage::ReadingCache, LookupEvent::State(file)) => match read_counterparty(
                &file,
                contract_id.as_str(),
            ) {
                Err(e) => (LookupStage::Done, LookupAction::Finish(Err(e))),
                Ok(Some(key)) => (LookupStage::Done, LookupAction::Finish(Ok(key))),
                Ok(None) => {
                    let recipient: String = join_two(contract_id.as_str(), "_acceptor_pubkey");
                    (
                        LookupStage::Asked,
                        LookupAction::Ask(
                            consignment_query(recipient.as_str(), proxy_url.as_str()),
                        ),
                    )
                },
            },
            (LookupStage::Asked, LookupEvent::Reply(reply)) => match read_key_reply(&reply) {
                Err(e) => (LookupStage::Done, LookupAction::Finish(Err(e))),
                Ok(text) => (LookupStage::ReadingPayload, LookupAction::ReadPayload(text)),
            },
            (LookupStage::ReadingPayload, LookupEvent::Payload(Err(e))) => (
                LookupStage::Done,
                LookupAction::Finish(
                    Err(other_with("Failed to parse pubkey payload: ", e.as_str())),
                ),
            ),
            (LookupStage::ReadingPayload, LookupEvent::Payload(Ok(key))) => match wallet_directory(
                &ldk_data_dir,
            ) {
                Err(e) => (LookupStage::Done, LookupAction::Finish(Err(e))),
                Ok(dir) => (LookupStage::MakingDir(key), LookupAction::MakeDir(dir)),
            },
            (LookupStage::MakingDir(_), LookupEvent::DirMade(Some(e))) => (
                LookupStage::Done,
                LookupAction::Finish(Err(other_with("Cannot create directory: ", e.as_str()))),
            ),
            (LookupStage::MakingDir(key), LookupEvent::DirMade(None)) => match state_file_path(
                &ldk_data_dir,
            ) {
                Err(e) => (LookupStage::Done, LookupAction::Finish(Err(e))),
                Ok(path) => (LookupStage::ReadingState(key), LookupAction::ReadState(path)),
            },
            (LookupStage::ReadingState(key), LookupEvent::State(file)) => match state_file_path(
                &ldk_data_dir,
            ) {
                Err(e) => (LookupStage::Done, LookupAction::Finish(Err(e))),
                Ok(path) => match cache_counterparty(&file, contract_id.as_str(), key.as_str()) {
                    StateWrite::Write(text) => (
                        LookupStage::Writing(key),
                        LookupAction::WriteState(path, text),
                    ),
                    StateWrite::NoPlace => (LookupStage::Done, LookupAction::Stop),
                    StateWrite::Fail(e) => (LookupStage::Done, LookupAction::Finish(Err(e))),
                },
            },
            (LookupStage::Writing(key), LookupEvent::Written(None)) => (
                LookupStage::Done,
                LookupAction::Finish(Ok(key)),
            ),
            (LookupStage::Writing(_), LookupEvent::Written(Some(e))) => (
                LookupStage::Done,
                LookupAction::Finish(Err(other_with("Failed to write state: ", e.as_str()))),
            ),
            (stage, _) => (stage, LookupAction::Unexpected),
        };
        (KeyLookup { ldk_data_dir, contract_id, proxy_url, stage }, action)
    }
}

/// A key that the state file knows is found there, and the proxy is not asked. A key that the
/// proxy gave is found only once it is noted: the state that is written knows it, also where there
/// was no state file.
pub proof fn law_lookup(
    ldk_data_dir: PathView,
    contract_id: Seq<char>,
    proxy_url: Seq<char>,
    stage: LookupStage,
    event: LookupEvent,
)
    ensures
        ({
            let (next, action) = lookup_step(ldk_data_dir, contract_id, proxy_url, stage, event);
            &&& match (stage, event) {
                (LookupStage::ReadingCache, LookupEvent::State(file)) => match counterparty_of(
                    file@,
                    contract_id,
                ) {
                    Ok(Some(key)) => next is Done && action == LookupActionView::Finish(Ok(key)),
                    _ => true,
                },
                (LookupStage::ReadingState(_), LookupEvent::State(file)) => file@ is Missing
                    && state_path(ldk_data_dir) is Some ==> action is WriteState,
                _ => true,
            }
            &&& action matches LookupActionView::Finish(Ok(key)) ==> match (stage, event) {
                (LookupStage::ReadingCache, LookupEvent::State(file)) => counterparty_of(
                    file@,
                    contract_id,
                ) == Ok::<Option<Seq<char>>, Failure>(Some(key)),
                (LookupStage::Writing(noted), LookupEvent::Written(None)) => noted@ == key,
                _ => false,
            }
            &&& action matches LookupActionView::WriteState(path, state) ==> {
                &&& state_path(ldk_data_dir) == Some(path)
                &&& next matches LookupStage::Writing(key)
                &&& stage == LookupStage::ReadingState(key)
                &&& counterparty_in(state, contract_id) == Some(key@)
                &&& lookup_step(
                    ldk_data_dir,
                    contract_id,
                    proxy_url,
                    next,
                    LookupEvent::Written(None),
                ).1 == LookupActionView::Finish(Ok(key@))
            }
            &&& stage is Done ==> next is Done && action is Unexpected
        }),
{
}

/// Once a lookup has written the state file, the next lookup of the contract's key finds the same
/// key in what was written, and does not ask a proxy.
pub proof fn law_lookup_again(
    ldk_data_dir: PathView,
    contract_id: Seq<char>,
    proxy_url: Seq<char>,
    stage: LookupStage,
    event: LookupEvent,
    action: LookupAction,
    again: FileRead,
    other_url: Seq<char>,
)
    requires
        looks_up(action, lookup_step(ldk_data_dir, contract_id, proxy_url, stage, event).1),
        action matches LookupAction::WriteState(_, text) && again@ == FileView::Text(text@),
    ensures
        lookup_start(ldk_data_dir).0 is ReadingCache,
        ({
            let next = lookup_step(ldk_data_dir, contract_id, proxy_url, stage, event).0;
            let (ended, found) = lookup_step(
                ldk_data_dir,
                contract_id,
                other_url,
                LookupStage::ReadingCache,
                LookupEvent::State(again),
            );
            &&& next matches LookupStage::Writing(key)
            &&& ended is Done
            &&& found == LookupActionView::Finish(Ok(key@))
        }),
{
    if let LookupActionView::WriteState(_, state) = lookup_step(
        ldk_data_dir,
        contract_id,
        proxy_url,
        stage,
        event,
    ).1 {
        if let FileView::Text(text) = again@ {
            let found = crate::json::json_of_text(text)->Ok_0;
            law_same_readings(found, state, crate::json::depth_limit(), contract_id, Seq::empty());
        }
    }
}

/// A lookup goes to its end when every reply is good. A key that the state file does not know is asked
/// for under the contract with a mark behind it; what the answer says is read; the wallet's directory is
/// made and the state file read there again; the key is noted beside those of all other contracts; and
/// that key is found.
pub proof fn law_lookup_ends_well(
    ldk_data_dir: PathView,
    contract_id: Seq<char>,
    proxy_url: Seq<char>,
    unknown: FileRead,
    reply: ProxyReply,
    text: Seq<char>,
    key: String,
    file: FileRead,
    state: Json,
    other: Seq<char>,
)
    requires
        ldk_data_dir.parent() is Some,
        has_place(state, "channel_counterparties"@),
        other != contract_id,
    ensures
        counterparty_of(unknown@, contract_id) == Ok::<Option<Seq<char>>, Failure>(None)
            && key_text(reply@) == Ok::<Seq<char>, Failure>(text) && (match file@ {
            FileView::Missing(_) => state == Json::Object(Map::empty()),
            FileView::Unreadable(_) => false,
            FileView::Text(held) => match json_of_text(held) {
                Ok(document) => state == document,
                Err(_) => state == Json::Object(Map::empty()),
            },
        }) ==> {
            let dir = ldk_data_dir;
            let id = contract_id;
            let (s0, a0) = lookup_start(dir);
            let (s1, a1) = lookup_step(dir, id, proxy_url, s0, LookupEvent::State(unknown));
            let (s2, a2) = lookup_step(dir, id, proxy_url, s1, LookupEvent::Reply(reply));
            let (s3, a3) = lookup_step(dir, id, proxy_url, s2, LookupEvent::Payload(Ok(key)));
            let (s4, a4) = lookup_step(dir, id, proxy_url, s3, LookupEvent::DirMade(None));
            let (s5, a5) = lookup_step(dir, id, proxy_url, s4, LookupEvent::State(file));
            let (s6, a6) = lookup_step(dir, id, proxy_url, s5, LookupEvent::Written(None));
            &&& state_path(dir) matches Some(path)
            &&& a0 == LookupActionView::ReadState(path)
            &&& a1 == LookupActionView::Ask(query(id + "_acceptor_pubkey"@, proxy_url))
            &&& a2 == LookupActionView::ReadPayload(text)
            &&& wallet_dir(dir) matches Some(wallet) && a3 == LookupActionView::MakeDir(wallet)
            &&& a4 == LookupActionView::ReadState(path)
            &&& a5 matches LookupActionView::WriteState(at, after)
            &&& at == path
            &&& after.get_two("channel_counterparties"@, id) == Some(Json::Text(key@))
            &&& after.get_two("channel_counterparties"@, other) == state.get_two(
                "channel_counterparties"@,
                other,
            )
            &&& s6 is Done
            &&& a6 == LookupActionView::Finish(Ok(key@))
        },
{
    law_noting(file@, contract_id, key@, state);
    reveal_strlit("channel_counterparties");
    let place = Seq::<char>::empty();
    assert(place.len() != "channel_counterparties"@.len());
    law_noted_entry(state, contract_id, key@, other, place);
}

/// Where something goes wrong, the lookup ends and says what did, at every stage; and where the state
/// file has no place for the key, it stops.
pub proof fn law_lookup_fails(
    ldk_data_dir: PathView,
    contract_id: Seq<char>,
    proxy_url: Seq<char>,
    file: FileRead,
    reply: ProxyReply,
    key: String,
    reason: String,
    e: Failure,
)
    ensures
        ({
            let dir = ldk_data_dir;
            let id = contract_id;
            &&& dir.parent() is None ==> lookup_start(dir) == (
                LookupStage::Done,
                LookupActionView::Finish(
                    Err(Failure::Other("Cannot get parent directory"@)),
                ),
            )
            &&& counterparty_of(file@, id) == Err::<Option<Seq<char>>, Failure>(e) ==> lookup_step(
                dir,
                id,
                proxy_url,
                LookupStage::ReadingCache,
                LookupEvent::State(file),
            ) == (LookupStage::Done, LookupActionView::Finish(Err(e)))
            &&& key_text(reply@) == Err::<Seq<char>, Failure>(e) ==> lookup_step(
                dir,
                id,
                proxy_url,
                LookupStage::Asked,
                LookupEvent::Reply(reply),
            ) == (LookupStage::Done, LookupActionView::Finish(Err(e)))
            &&& lookup_step(
                dir,
                id,
                proxy_url,
                LookupStage::ReadingPayload,
                LookupEvent::Payload(Err(reason)),
            ) == (
                LookupStage::Done,
                LookupActionView::Finish(
                    Err(Failure::Other("Failed to parse pubkey payload: "@ + reason@)),
                ),
            )
            &&& lookup_step(
                dir,
                id,
                proxy_url,
                LookupStage::MakingDir(key),
                LookupEvent::DirMade(Some(reason)),
            ) == (
                LookupStage::Done,
                LookupActionView::Finish(
                    Err(Failure::Other("Cannot create directory: "@ + reason@)),
                ),
            )
            &&& dir.parent() is Some && file@ is Unreadable ==> lookup_step(
                dir,
                id,
                proxy_url,
                LookupStage::ReadingState(key),
                LookupEvent::State(file),
            ) == (
                LookupStage::Done,
                LookupActionView::Finish(
                    Err(Failure::Other("Failed to read state: "@ + file@->Unreadable_0)),
                ),
            )
            &&& dir.parent() is Some && (file@ matches FileView::Text(text) && json_of_text(
                text,
            ) matches Ok(state) && !has_place(state, "channel_counterparties"@)) ==> lookup_step(
                dir,
                id,
                proxy_url,
                LookupStage::ReadingState(key),
                LookupEvent::State(file),
            ) == (LookupStage::Done, LookupActionView::Stop)
            &&& lookup_step(
                dir,
                id,
                proxy_url,
                LookupStage::Writing(key),
                LookupEvent::Written(Some(reason)),
            ) == (
                LookupStage::Done,
                LookupActionView::Finish(Err(Failure::Other("Failed to write state: "@ + reason@))),
            )
        }),
{
}

/// What an action of a lookup says, value by value: where an action is what was expected, it is of the
/// same kind, and every path, text and request is the one that was expected; the state that is written
/// is read as the one that was expected; and the key that is found is the one that was expected, or the
/// error says what was expected.
pub proof fn law_lookup_actions(action: LookupAction, expected: LookupActionView)
    requires
        looks_up(action, expected),
    ensures
        match expected {
            LookupActionView::ReadState(path) => action matches LookupAction::ReadState(file)
                && file.raw@ == path.text,
            LookupActionView::Ask(asked) => action matches LookupAction::Ask(request)
                && request.url@ == asked.url && content(request.body) == asked.body,
            LookupActionView::ReadPayload(text) => action matches LookupAction::ReadPayload(held)
                && held@ == text,
            LookupActionView::MakeDir(path) => action matches LookupAction::MakeDir(dir)
                && dir.raw@ == path.text,
            LookupActionView::WriteState(path, state) => action matches LookupAction::WriteState(
                file,
                text,
            ) && file.raw@ == path.text && text@ == json_pretty(state) && (json_of_text(
                text@,
            ) matches Ok(found) && found.agrees(state, depth_limit())),
            LookupActionView::Finish(Ok(key)) => action matches LookupAction::Finish(Ok(found))
                && found@ == key,
            LookupActionView::Finish(Err(e)) => action matches LookupAction::Finish(Err(error))
                && failure(error) == e,
            LookupActionView::Stop => action is Stop,
            LookupActionView::Unexpected => action is Unexpected,
        },
{
}

} // verus!
