//! The three entry operations: they unpack a message, run the vault's
//! operation and render its outcome.
use crate::msg::{ExecuteMsg, InstantiateMsg, QueryMsg};
use crate::state::{
    details, get_key_details, load_config, retrieve_key, save_config, store_key, configured,
    retrieve_key_step, store_key_step, ConfigView, KeyVault, RecordView, State, VaultError,
    VaultView,
};
use crate::text::{decimal, decimal_text};
use vstd::prelude::*;

verus! {

/// One named value describing an action and its outcome.
#[derive(Debug, Clone)]
pub struct Attribute {
    pub key: String,
    pub value: String,
}

/// The outcome of an operation that changes the vault, as named values.
#[derive(Debug, Clone)]
pub struct Response {
    pub attributes: Vec<Attribute>,
}

impl View for Response {
    type V = Seq<(Seq<char>, Seq<char>)>;

    open spec fn view(&self) -> Seq<(Seq<char>, Seq<char>)> {
        self.attributes@.map_values(|a: Attribute| (a.key@, a.value@))
    }
}

/// A record's details together with the deployment's broadcast message.
#[derive(Debug, Clone)]
pub struct KeyDetails {
    pub key_id: u64,
    pub creator: String,
    pub recipient: String,
    pub retrieved: bool,
    pub timestamp: u64,
    pub encrypted_data: Vec<u8>,
    pub broadcast: String,
}

fn attribute(key: &str, value: String) -> (a: Attribute)
    ensures
        a.key@ == key@,
        a.value@ == value@,
{
    Attribute { key: key.to_owned(), value }
}

fn response2(first: Attribute, second: Attribute) -> (r: Response)
    ensures
        r@ == seq![(first.key@, first.value@), (second.key@, second.value@)],
{
    let mut attributes: Vec<Attribute> = Vec::new();
    attributes.push(first);
    attributes.push(second);
    let r = Response { attributes };
    assert(r@ =~= seq![(first.key@, first.value@), (second.key@, second.value@)]);
    r
}

/// The attributes of a deployment set up by `creator`.
pub open spec fn instantiate_attributes(creator: Seq<char>) -> Seq<(Seq<char>, Seq<char>)> {
    seq![("owner"@, creator), ("action"@, "instantiate"@)]
}

/// The attributes of a secret filed under `key_id`.
pub open spec fn store_attributes(key_id: u64) -> Seq<(Seq<char>, Seq<char>)> {
    seq![("action"@, "store_key"@), ("key_id"@, decimal(key_id as nat))]
}

/// The attributes of a retrieved secret `text`.
pub open spec fn retrieve_attributes(text: Seq<char>) -> Seq<(Seq<char>, Seq<char>)> {
    seq![("action"@, "retrieve_key"@), ("key"@, text)]
}

/// Sets the configuration, with `sender` as creator.
pub fn instantiate(vault: &mut KeyVault, sender: String, msg: InstantiateMsg) -> (r: Response)
    ensures
        final(vault)@ == (VaultView {
            cipher_key: old(vault)@.cipher_key,
            config: Some(ConfigView { creator: sender@, broadcast: msg.broadcast@ }),
            records: old(vault)@.records,
        }),
        r@ == instantiate_attributes(sender@),
{
    let state = State { creator: sender, broadcast: msg.broadcast };
    save_config(vault, &state);
    response2(attribute("owner", state.creator), attribute("action", "instantiate".to_owned()))
}

/// What `execute` on `msg` does: the vault's step, and the attributes of its
/// outcome on success.
pub open spec fn execute_step(
    pre: VaultView,
    post: VaultView,
    height: u64,
    sender: Seq<char>,
    msg: ExecuteMsg,
    r: Result<Response, VaultError>,
) -> bool {
    match msg {
        ExecuteMsg::StoreKey { key, recipient } => {
            &&& store_key_step(
                pre,
                post,
                height,
                sender,
                key@,
                recipient@,
                match r {
                    Ok(_) => Ok(height),
                    Err(e) => Err(e),
                },
            )
            &&& r matches Ok(resp) ==> resp@ == store_attributes(height)
        },
        ExecuteMsg::RetrieveKey { key } => {
            &&& retrieve_key_step(
                pre,
                post,
                key,
                match r {
                    Ok(resp) => Ok(resp@[1].1),
                    Err(e) => Err(e),
                },
            )
            &&& r matches Ok(resp) ==> resp@ == retrieve_attributes(resp@[1].1)
        },
    }
}

/// Runs a store or a retrieval on behalf of `sender`, at counter `height`.
pub fn execute(vault: &mut KeyVault, height: u64, sender: String, msg: ExecuteMsg) -> (r: Result<
    Response,
    VaultError,
>)
    ensures
        execute_step(old(vault)@, final(vault)@, height, sender@, msg, r),
{
    match msg {
        ExecuteMsg::StoreKey { key, recipient } => {
            match store_key(vault, height, sender, key, recipient) {
                Ok(key_id) => Ok(
                    response2(
                        attribute("action", "store_key".to_owned()),
                        attribute("key_id", decimal_text(key_id)),
                    ),
                ),
                Err(e) => Err(e),
            }
        },
        ExecuteMsg::RetrieveKey { key } => {
            match retrieve_key(vault, key) {
                Ok(text) => Ok(
                    response2(
                        attribute("action", "retrieve_key".to_owned()),
                        attribute("key", text),
                    ),
                ),
                Err(e) => Err(e),
            }
        },
    }
}

/// What a query of `key_id` shows: the record joined with the broadcast
/// message, or `NotFound` when either is missing.
pub open spec fn inspected(v: VaultView, key_id: u64) -> Result<(RecordView, Seq<char>), VaultError> {
    match details(v, key_id) {
        Err(e) => Err(e),
        Ok(rec) => match configured(v) {
            Err(e) => Err(e),
            Ok(c) => Ok((rec, c.broadcast)),
        },
    }
}

impl View for KeyDetails {
    type V = (RecordView, Seq<char>);

    open spec fn view(&self) -> (RecordView, Seq<char>) {
        (
            RecordView {
                key_id: self.key_id,
                creator: self.creator@,
                timestamp: self.timestamp,
                recipient: self.recipient@,
                retrieved: self.retrieved,
                encrypted_data: self.encrypted_data@,
            },
            self.broadcast@,
        )
    }
}

/// The view of a query result.
pub open spec fn details_view(r: Result<KeyDetails, VaultError>) -> Result<
    (RecordView, Seq<char>),
    VaultError,
> {
    match r {
        Ok(d) => Ok(d@),
        Err(e) => Err(e),
    }
}

/// Shows a record's details, without decrypting it or changing it.
pub fn query(vault: &KeyVault, msg: QueryMsg) -> (r: Result<KeyDetails, VaultError>)
    ensures
        match msg {
            QueryMsg::GetKeyDetails { key } => details_view(r) == inspected(vault@, key),
        },
{
    match msg {
        QueryMsg::GetKeyDetails { key } => {
            let rec = match get_key_details(vault, key) {
                Ok(rec) => rec,
                Err(e) => return Err(e),
            };
            let state = match load_config(vault) {
                Ok(s) => s,
                Err(e) => return Err(e),
            };
            Ok(
                KeyDetails {
                    key_id: rec.key_id,
                    creator: rec.creator,
                    recipient: rec.recipient,
                    retrieved: rec.retrieved,
                    timestamp: rec.timestamp,
                    encrypted_data: rec.encrypted_data,
                    broadcast: state.broadcast,
                },
            )
        },
    }
}

} // verus!
