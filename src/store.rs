use vstd::prelude::*;
use std::collections::HashMap;
use crate::codec::{decode_history, encode_history, history_of_text, pairs_of_history};
use crate::json::json_of_pairs;
use crate::credential::{
    credential_record, key_accepted, record_of_key, records_view, verify, CredentialRecord,
    CredentialV,
};
use crate::model::{
    default_engine, engine_name, engine_of_name, history_view, ChatGPTEngine, ChatMessage,
    DialogueState, DialogueV, Error, MessageV,
};

verus! {

broadcast use vstd::std_specs::hash::group_hash_axioms;

/// What the store keeps for one chat: its history as text and the name of
/// its model version. A chat with a record is in conversation.
#[derive(Clone, Debug)]
pub struct StoredRow {
    pub history: String,
    pub version: String,
}

/// A stored record as a mathematical value.
pub struct RowV {
    pub history: Seq<char>,
    pub version: Seq<char>,
}

impl View for StoredRow {
    type V = RowV;

    open spec fn view(&self) -> RowV {
        RowV { history: self.history@, version: self.version@ }
    }
}

/// The record a conversation is stored as.
pub open spec fn row_of(history: Seq<MessageV>, version: ChatGPTEngine) -> RowV {
    RowV { history: json_of_pairs(pairs_of_history(history)), version: engine_name(version) }
}

/// The dialogue state a stored record stands for. An unknown version name
/// reads as the default version; an unreadable history is an error.
pub open spec fn state_of_row(row: RowV) -> Result<DialogueV, Error> {
    match history_of_text(row.history) {
        Some(h) => Ok(DialogueV::Conversation { history: h, version: engine_of_name(row.version) }),
        None => Err(Error::HistoryCorrupted),
    }
}

/// What reading a chat's state gives: nothing where it has no record.
pub open spec fn get_spec(rows: Map<i64, RowV>, chat_id: i64) -> Result<Option<DialogueV>, Error> {
    if rows.contains_key(chat_id) {
        match state_of_row(rows[chat_id]) {
            Ok(d) => Ok(Some(d)),
            Err(e) => Err(e),
        }
    } else {
        Ok(None)
    }
}

/// The records after storing `d` for a chat, and the outcome. Storing the
/// initial state changes nothing. Storing a submitted key creates a record
/// with an empty history and the default version where the allow-list
/// accepts the key, and otherwise changes nothing and reports the key as
/// rejected. Storing a conversation replaces the chat's record, if it has one.
pub open spec fn put_spec(
    rows: Map<i64, RowV>,
    creds: Seq<CredentialV>,
    chat_id: i64,
    d: DialogueV,
) -> (Map<i64, RowV>, Result<(), Error>) {
    match d {
        DialogueV::ApiKeyRequest => (rows, Ok(())),
        DialogueV::Registration { api_key } => if key_accepted(creds, api_key) {
            (rows.insert(chat_id, row_of(Seq::empty(), default_engine())), Ok(()))
        } else {
            (rows, Err(Error::KeyRejected))
        },
        DialogueV::Conversation { history, version } => if rows.contains_key(chat_id) {
            (rows.insert(chat_id, row_of(history, version)), Ok(()))
        } else {
            (rows, Ok(()))
        },
    }
}

/// The dialogue state a stored record stands for.
pub fn state_from_row(history: &str, version: &str) -> (r: Result<DialogueState, Error>)
    ensures
        match state_of_row(RowV { history: history@, version: version@ }) {
            Ok(d) => r is Ok && r->Ok_0@ == d,
            Err(e) => r == Err::<DialogueState, Error>(e),
        },
{
    match decode_history(history) {
        Ok(h) => {
            let version = ChatGPTEngine::from_name(version);
            Ok(DialogueState::Conversation { history: h, version })
        },
        Err(e) => Err(e),
    }
}

/// The record a conversation is stored as.
pub fn row_from_conversation(history: &Vec<ChatMessage>, version: ChatGPTEngine) -> (r: StoredRow)
    ensures
        r@ == row_of(history_view(history@), version),
        state_of_row(r@) == Ok::<DialogueV, Error>(
            DialogueV::Conversation { history: history_view(history@), version },
        ),
{
    proof {
        crate::model::lemma_engine_name_round_trip(version);
    }
    let h = encode_history(history);
    StoredRow { history: h, version: version.as_str().to_owned() }
}

/// The record of a chat whose key has just been accepted: an empty
/// history and the default version.
pub fn fresh_row() -> (r: StoredRow)
    ensures
        r@ == row_of(Seq::empty(), default_engine()),
        state_of_row(r@) == Ok::<DialogueV, Error>(
            DialogueV::Conversation { history: Seq::empty(), version: default_engine() },
        ),
{
    let empty: Vec<ChatMessage> = Vec::new();
    assert(history_view(empty@) =~= Seq::<MessageV>::empty());
    row_from_conversation(&empty, ChatGPTEngine::Gpt35Turbo)
}

/// The write that storing a dialogue state comes to.
pub enum Write {
    /// Nothing is written.
    Nothing,
    /// The submitted key is rejected; nothing is written.
    Reject,
    /// The chat's record becomes this row, whether or not it had one.
    Put(StoredRow),
    /// The chat's record, where it has one, becomes this row.
    Replace(StoredRow),
}

/// A write as a mathematical value.
pub enum WriteV {
    Nothing,
    Reject,
    Put(RowV),
    Replace(RowV),
}

impl View for Write {
    type V = WriteV;

    open spec fn view(&self) -> WriteV {
        match self {
            Write::Nothing => WriteV::Nothing,
            Write::Reject => WriteV::Reject,
            Write::Put(r) => WriteV::Put(r@),
            Write::Replace(r) => WriteV::Replace(r@),
        }
    }
}

/// The records after carrying out a write for a chat, and its outcome.
pub open spec fn apply_write(rows: Map<i64, RowV>, chat_id: i64, w: WriteV) -> (
    Map<i64, RowV>,
    Result<(), Error>,
) {
    match w {
        WriteV::Nothing => (rows, Ok(())),
        WriteV::Reject => (rows, Err(Error::KeyRejected)),
        WriteV::Put(r) => (rows.insert(chat_id, r), Ok(())),
        WriteV::Replace(r) => if rows.contains_key(chat_id) {
            (rows.insert(chat_id, r), Ok(()))
        } else {
            (rows, Ok(()))
        },
    }
}

/// Decides the write that stores `dialogue`, given the allow-list. Carried
/// out on any records, it has the effect and outcome of storing `dialogue`.
pub fn write_for(credentials: &Vec<CredentialRecord>, dialogue: DialogueState) -> (r: Write)
    ensures
        forall|rows: Map<i64, RowV>, chat_id: i64|
            #[trigger] apply_write(rows, chat_id, r@) == put_spec(
                rows,
                records_view(credentials@),
                chat_id,
                dialogue@,
            ),
        dialogue@ is ApiKeyRequest ==> r@ is Nothing,
        dialogue@ matches DialogueV::Registration { api_key } ==> if key_accepted(
            records_view(credentials@),
            api_key,
        ) {
            r@ is Put
        } else {
            r@ is Reject
        },
        dialogue@ is Conversation ==> r@ is Replace,
        r@ matches WriteV::Put(row) ==> state_of_row(row) == Ok::<DialogueV, Error>(
            DialogueV::Conversation { history: Seq::empty(), version: default_engine() },
        ),
        r@ matches WriteV::Replace(row) ==> state_of_row(row) == Ok::<DialogueV, Error>(dialogue@),
{
    match dialogue {
        DialogueState::ApiKeyRequest => Write::Nothing,
        DialogueState::Registration { api_key } => {
            if verify(credentials, api_key.as_str()) {
                Write::Put(fresh_row())
            } else {
                Write::Reject
            }
        },
        DialogueState::Conversation { history, version } => {
            Write::Replace(row_from_conversation(&history, version))
        },
    }
}

/// Sessions of every chat, and the allow-list of keys that open one.
/// Writes are last-write-wins for each chat: nothing orders two writers of
/// the same chat.
pub struct SessionStore {
    rows: HashMap<i64, StoredRow>,
    credentials: Vec<CredentialRecord>,
}

impl SessionStore {
    /// The stored records, by chat.
    pub closed spec fn rows(&self) -> Map<i64, RowV> {
        self.rows@.map_values(|r: StoredRow| r@)
    }

    /// The allow-list.
    pub closed spec fn creds(&self) -> Seq<CredentialV> {
        records_view(self.credentials@)
    }

    /// An empty store with an empty allow-list.
    pub fn new() -> (r: SessionStore)
        ensures
            r.rows() == Map::<i64, RowV>::empty(),
            r.creds() == Seq::<CredentialV>::empty(),
    {
        let r = SessionStore { rows: HashMap::new(), credentials: Vec::new() };
        assert(r.rows() =~= Map::<i64, RowV>::empty());
        assert(r.creds() =~= Seq::<CredentialV>::empty());
        r
    }

    /// Adds `api_key` to the allow-list, by its hash and prefix.
    pub fn add_api_key(&mut self, api_key: &str)
        ensures
            final(self).creds() == old(self).creds().push(record_of_key(api_key@)),
            final(self).rows() == old(self).rows(),
    {
        let rec = credential_record(api_key);
        self.credentials.push(rec);
        assert(final(self).creds() =~= old(self).creds().push(record_of_key(api_key@)));
    }

    /// Reads a chat's state: `None` where it has no record.
    pub fn get_dialogue(&self, chat_id: i64) -> (r: Result<Option<DialogueState>, Error>)
        ensures
            match get_spec(self.rows(), chat_id) {
                Ok(Some(d)) => r is Ok && r->Ok_0 is Some && r->Ok_0->Some_0@ == d,
                Ok(None) => r is Ok && r->Ok_0 is None,
                Err(e) => r == Err::<Option<DialogueState>, Error>(e),
            },
    {
        match self.rows.get(&chat_id) {
            Some(row) => {
                assert(self.rows@.contains_key(chat_id));
                assert(self.rows()[chat_id] == row@);
                match state_from_row(row.history.as_str(), row.version.as_str()) {
                    Ok(d) => Ok(Some(d)),
                    Err(e) => Err(e),
                }
            },
            None => {
                assert(!self.rows().contains_key(chat_id));
                Ok(None)
            },
        }
    }

    /// Stores `dialogue` for a chat; a submitted key is checked against the
    /// allow-list as part of the write.
    pub fn update_dialogue(&mut self, chat_id: i64, dialogue: DialogueState) -> (r: Result<(), Error>)
        ensures
            final(self).rows() == put_spec(old(self).rows(), old(self).creds(), chat_id, dialogue@).0,
            r == put_spec(old(self).rows(), old(self).creds(), chat_id, dialogue@).1,
            final(self).creds() == old(self).creds(),
            dialogue@ is Registration && r is Ok ==> get_spec(final(self).rows(), chat_id) == Ok::<
                Option<DialogueV>,
                Error,
            >(Some(DialogueV::Conversation { history: Seq::empty(), version: default_engine() })),
            dialogue@ is Conversation && old(self).rows().contains_key(chat_id) ==> get_spec(
                final(self).rows(),
                chat_id,
            ) == Ok::<Option<DialogueV>, Error>(Some(dialogue@)),
    {
        let w = write_for(&self.credentials, dialogue);
        assert(apply_write(self.rows(), chat_id, w@) == put_spec(
            self.rows(),
            self.creds(),
            chat_id,
            dialogue@,
        ));
        match w {
            Write::Nothing => Ok(()),
            Write::Reject => Err(Error::KeyRejected),
            Write::Put(row) => {
                let ghost rv = row@;
                self.rows.insert(chat_id, row);
                assert(final(self).rows() =~= old(self).rows().insert(chat_id, rv));
                Ok(())
            },
            Write::Replace(row) => {
                if self.rows.contains_key(&chat_id) {
                    let ghost rv = row@;
                    self.rows.insert(chat_id, row);
                    assert(final(self).rows() =~= old(self).rows().insert(chat_id, rv));
                }
                Ok(())
            },
        }
    }

    /// Removes a chat's record; removing an absent one succeeds and changes nothing.
    pub fn remove_dialogue(&mut self, chat_id: i64) -> (r: Result<(), Error>)
        ensures
            final(self).rows() == old(self).rows().remove(chat_id),
            final(self).creds() == old(self).creds(),
            r == Ok::<(), Error>(()),
    {
        self.rows.remove(&chat_id);
        assert(final(self).rows() =~= old(self).rows().remove(chat_id));
        Ok(())
    }
}

/// Storing a submitted key that the allow-list does not accept creates no
/// record: a chat without one still reads as having none.
pub proof fn lemma_rejected_key_stores_nothing(
    rows: Map<i64, RowV>,
    creds: Seq<CredentialV>,
    chat_id: i64,
    key: Seq<char>,
)
    requires
        !key_accepted(creds, key),
    ensures
        put_spec(rows, creds, chat_id, DialogueV::Registration { api_key: key }).0 == rows,
        put_spec(rows, creds, chat_id, DialogueV::Registration { api_key: key }).1
            == Err::<(), Error>(Error::KeyRejected),
        !rows.contains_key(chat_id) ==> get_spec(
            put_spec(rows, creds, chat_id, DialogueV::Registration { api_key: key }).0,
            chat_id,
        ) == Ok::<Option<DialogueV>, Error>(None),
{
}

/// Removing a chat twice is the same as removing it once, and removing an
/// absent chat changes nothing.
pub proof fn lemma_remove_idempotent(rows: Map<i64, RowV>, chat_id: i64)
    ensures
        rows.remove(chat_id).remove(chat_id) == rows.remove(chat_id),
        !rows.contains_key(chat_id) ==> rows.remove(chat_id) == rows,
        get_spec(rows.remove(chat_id), chat_id) == Ok::<Option<DialogueV>, Error>(None),
{
    assert(rows.remove(chat_id).remove(chat_id) =~= rows.remove(chat_id));
    if !rows.contains_key(chat_id) {
        assert(rows.remove(chat_id) =~= rows);
    }
}

} // verus!
