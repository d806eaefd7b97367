use vstd::prelude::*;
use crate::rt::{INVALID_HANDLE, Resource, WasmResource};
use crate::abi::{
    LiftError, le_u16, le_u32, list_buffer, spec_load_u8, field_addr, lemma_lift_seq_error_persists, lift_option_string,
    lift_option_tag, lift_string, lifted, lifted_option, load_u16, load_u32, spec_lift_option_string,
    spec_lift_option_tag, spec_lift_seq, spec_lift_string, spec_load_u16, spec_load_u32,
};

verus! {

/// Encrypted record data.
#[derive(Clone, Debug)]
pub struct EncryptedData {
    pub alg: String,
    pub ciphertext: String,
    pub iv: String,
    pub recipients: Vec<String>,
    pub tag: String,
}

/// The data of a record: base64 text, or encrypted.
#[derive(Clone, Debug)]
pub enum Data {
    Base64(String),
    Encrypted(EncryptedData),
}

/// A record returned by a query.
#[derive(Clone, Debug)]
pub struct Message {
    pub record_id: String,
    pub data: Option<Data>,
}

/// The outcome of a request: a status code and an optional detail.
#[derive(Clone, Debug)]
pub struct Status {
    pub code: u16,
    pub detail: Option<String>,
}

/// The reply to a records query.
#[derive(Clone, Debug)]
pub struct RecordsQueryReply {
    pub entries: Vec<Message>,
    pub status: Status,
}

/// The reply to a records write.
#[derive(Clone, Debug)]
pub struct RecordsWriteReply {
    pub record_id: String,
    pub status: Status,
}

/// What encrypted data holds, as text.
pub struct EncryptedDataModel {
    pub alg: Seq<char>,
    pub ciphertext: Seq<char>,
    pub iv: Seq<char>,
    pub recipients: Seq<Seq<char>>,
    pub tag: Seq<char>,
}

/// What record data holds, as text.
pub enum DataModel {
    Base64(Seq<char>),
    Encrypted(EncryptedDataModel),
}

/// What a message holds, as text.
pub struct MessageModel {
    pub record_id: Seq<char>,
    pub data: Option<DataModel>,
}

/// What a status holds.
pub struct StatusModel {
    pub code: u16,
    pub detail: Option<Seq<char>>,
}

/// What a query reply holds.
pub struct RecordsQueryReplyModel {
    pub entries: Seq<MessageModel>,
    pub status: StatusModel,
}

/// What a write reply holds.
pub struct RecordsWriteReplyModel {
    pub record_id: Seq<char>,
    pub status: StatusModel,
}

/// The text of each string in a sequence.
pub open spec fn strings_view(v: Seq<String>) -> Seq<Seq<char>> {
    v.map_values(|s: String| s@)
}

/// The text of an optional string.
pub open spec fn option_string_view(o: Option<String>) -> Option<Seq<char>> {
    match o {
        Some(s) => Some(s@),
        None => None,
    }
}

impl View for EncryptedData {
    type V = EncryptedDataModel;

    open spec fn view(&self) -> EncryptedDataModel {
        EncryptedDataModel {
            alg: self.alg@,
            ciphertext: self.ciphertext@,
            iv: self.iv@,
            recipients: strings_view(self.recipients@),
            tag: self.tag@,
        }
    }
}

impl View for Data {
    type V = DataModel;

    open spec fn view(&self) -> DataModel {
        match self {
            Data::Base64(s) => DataModel::Base64(s@),
            Data::Encrypted(e) => DataModel::Encrypted(e@),
        }
    }
}

/// The model of optional record data.
pub open spec fn option_data_view(o: Option<Data>) -> Option<DataModel> {
    match o {
        Some(d) => Some(d@),
        None => None,
    }
}

impl View for Message {
    type V = MessageModel;

    open spec fn view(&self) -> MessageModel {
        MessageModel { record_id: self.record_id@, data: option_data_view(self.data) }
    }
}

/// The models of a sequence of messages.
pub open spec fn messages_view(v: Seq<Message>) -> Seq<MessageModel> {
    v.map_values(|m: Message| m@)
}

impl View for Status {
    type V = StatusModel;

    open spec fn view(&self) -> StatusModel {
        StatusModel { code: self.code, detail: option_string_view(self.detail) }
    }
}

impl View for RecordsQueryReply {
    type V = RecordsQueryReplyModel;

    open spec fn view(&self) -> RecordsQueryReplyModel {
        RecordsQueryReplyModel { entries: messages_view(self.entries@), status: self.status@ }
    }
}

impl View for RecordsWriteReply {
    type V = RecordsWriteReplyModel;

    open spec fn view(&self) -> RecordsWriteReplyModel {
        RecordsWriteReplyModel { record_id: self.record_id@, status: self.status@ }
    }
}

/// Lifts the string whose pointer and length lie at each address.
pub open spec fn string_elem(mem: Seq<u8>) -> spec_fn(int) -> Result<Seq<char>, LiftError> {
    |a: int| spec_lift_string(mem, a)
}

/// A `list<string>`: pointer at `a`, length at `a + 4`, then the strings'
/// pointers and lengths, eight bytes apart.
pub open spec fn spec_lift_string_list(mem: Seq<u8>, a: int) -> Result<Seq<Seq<char>>, LiftError> {
    match spec_load_u32(mem, a) {
        Ok(ptr) => match spec_load_u32(mem, a + 4) {
            Ok(len) => spec_lift_seq(string_elem(mem), ptr as int, 8, len as nat),
            Err(e) => Err(e),
        },
        Err(e) => Err(e),
    }
}

/// The encrypted data of the message at `m`: algorithm at 16, ciphertext at
/// 24, initialisation vector at 32, recipients at 40, tag at 48.
pub open spec fn spec_lift_encrypted_data(mem: Seq<u8>, m: int) -> Result<EncryptedDataModel, LiftError> {
    match spec_lift_string(mem, m + 16) {
        Err(e) => Err(e),
        Ok(alg) => match spec_lift_string(mem, m + 24) {
            Err(e) => Err(e),
            Ok(ciphertext) => match spec_lift_string(mem, m + 32) {
                Err(e) => Err(e),
                Ok(iv) => match spec_lift_string_list(mem, m + 40) {
                    Err(e) => Err(e),
                    Ok(recipients) => match spec_lift_string(mem, m + 48) {
                        Err(e) => Err(e),
                        Ok(tag) => Ok(EncryptedDataModel { alg, ciphertext, iv, recipients, tag }),
                    },
                },
            },
        },
    }
}

/// The data of the message at `m`: its case tag at 12, then base64 text at
/// 16 or encrypted data.
pub open spec fn spec_lift_data(mem: Seq<u8>, m: int) -> Result<DataModel, LiftError> {
    match crate::abi::spec_load_u8(mem, m + 12) {
        Err(e) => Err(e),
        Ok(tag) => if tag == 0 {
            match spec_lift_string(mem, m + 16) {
                Ok(s) => Ok(DataModel::Base64(s)),
                Err(e) => Err(e),
            }
        } else if tag == 1 {
            match spec_lift_encrypted_data(mem, m) {
                Ok(d) => Ok(DataModel::Encrypted(d)),
                Err(e) => Err(e),
            }
        } else {
            Err(LiftError::InvalidDiscriminant)
        },
    }
}

/// The message at `m`: its record id, then its optional data tagged at 8.
pub open spec fn spec_lift_message(mem: Seq<u8>, m: int) -> Result<MessageModel, LiftError> {
    match spec_lift_string(mem, m) {
        Err(e) => Err(e),
        Ok(record_id) => match spec_lift_option_tag(mem, m + 8) {
            Err(e) => Err(e),
            Ok(false) => Ok(MessageModel { record_id, data: None }),
            Ok(true) => match spec_lift_data(mem, m) {
                Err(e) => Err(e),
                Ok(d) => Ok(MessageModel { record_id, data: Some(d) }),
            },
        },
    }
}

/// Lifts the message that starts at each address.
pub open spec fn message_elem(mem: Seq<u8>) -> spec_fn(int) -> Result<MessageModel, LiftError> {
    |a: int| spec_lift_message(mem, a)
}

/// The status at `a`: the code, then the optional detail tagged at `a + 4`.
pub open spec fn spec_lift_status(mem: Seq<u8>, a: int) -> Result<StatusModel, LiftError> {
    match spec_load_u16(mem, a) {
        Err(e) => Err(e),
        Ok(code) => match spec_lift_option_string(mem, a + 4) {
            Err(e) => Err(e),
            Ok(detail) => Ok(StatusModel { code, detail }),
        },
    }
}

/// The optional query reply in the return area at `b`: the option tag, the
/// entries' pointer and count at 4 and 8 (messages are 56 bytes apart), the
/// status at 12.
pub open spec fn spec_lift_records_query_reply(mem: Seq<u8>, b: int) -> Result<Option<RecordsQueryReplyModel>, LiftError> {
    match spec_lift_option_tag(mem, b) {
        Err(e) => Err(e),
        Ok(false) => Ok(None),
        Ok(true) => match spec_load_u32(mem, b + 4) {
            Err(e) => Err(e),
            Ok(ptr) => match spec_load_u32(mem, b + 8) {
                Err(e) => Err(e),
                Ok(len) => match spec_lift_seq(message_elem(mem), ptr as int, 56, len as nat) {
                    Err(e) => Err(e),
                    Ok(entries) => match spec_lift_status(mem, b + 12) {
                        Err(e) => Err(e),
                        Ok(status) => Ok(Some(RecordsQueryReplyModel { entries, status })),
                    },
                },
            },
        },
    }
}

/// The optional write reply in the return area at `b`: the option tag, the
/// record id at 4, the status at 12.
pub open spec fn spec_lift_records_write_reply(mem: Seq<u8>, b: int) -> Result<Option<RecordsWriteReplyModel>, LiftError> {
    match spec_lift_option_tag(mem, b) {
        Err(e) => Err(e),
        Ok(false) => Ok(None),
        Ok(true) => match spec_lift_string(mem, b + 4) {
            Err(e) => Err(e),
            Ok(record_id) => match spec_lift_status(mem, b + 12) {
                Err(e) => Err(e),
                Ok(status) => Ok(Some(RecordsWriteReplyModel { record_id, status })),
            },
        },
    }
}

/// Lifts the string whose pointer and length lie at `m + k`.
fn lift_string_field(mem: &[u8], m: usize, k: usize) -> (r: Result<String, LiftError>)
    ensures
        lifted(r) == spec_lift_string(mem@, m + k),
{
    assert(mem@.len() == mem.len());
    match field_addr(m, 0, k) {
        None => Err(LiftError::OutOfBounds),
        Some(a) => lift_string(mem, a, 0),
    }
}

/// Lifts `n` strings whose pointers and lengths start at `ptr`.
fn lift_strings(mem: &[u8], ptr: u32, n: u32) -> (r: Result<Vec<String>, LiftError>)
    ensures
        match r {
            Ok(v) => spec_lift_seq(string_elem(mem@), ptr as int, 8, n as nat) == Ok::<Seq<Seq<char>>, LiftError>(strings_view(v@)),
            Err(e) => spec_lift_seq(string_elem(mem@), ptr as int, 8, n as nat) == Err::<Seq<Seq<char>>, LiftError>(e),
        },
{
    let ghost elem = string_elem(mem@);
    let mut out: Vec<String> = Vec::new();
    let mut i: u32 = 0;
    assert(strings_view(out@) =~= Seq::<Seq<char>>::empty());
    while i < n
        invariant
            i <= n,
            elem == string_elem(mem@),
            spec_lift_seq(elem, ptr as int, 8, i as nat) == Ok::<Seq<Seq<char>>, LiftError>(strings_view(out@)),
        decreases n - i,
    {
        let lifted_elem = match (i as usize).checked_mul(8) {
            Some(off) => lift_string_field(mem, ptr as usize, off),
            None => Err(LiftError::OutOfBounds),
        };
        assert(lifted(lifted_elem) == elem(ptr + 8 * i)) by {
            assert(mem@.len() == mem.len());
        }
        match lifted_elem {
            Ok(s) => {
                proof {
                    assert(strings_view(out@.push(s)) =~= strings_view(out@).push(s@));
                }
                out.push(s);
            },
            Err(e) => {
                proof {
                    assert(spec_lift_seq(elem, ptr as int, 8, (i + 1) as nat) == Err::<Seq<Seq<char>>, LiftError>(e));
                    lemma_lift_seq_error_persists(elem, ptr as int, 8, (i + 1) as nat, n as nat);
                }
                return Err(e);
            },
        }
        i = i + 1;
    }
    Ok(out)
}

/// Lifts a `list<string>` whose pointer and length lie at `a`.
pub fn lift_string_list(mem: &[u8], a: usize) -> (r: Result<Vec<String>, LiftError>)
    ensures
        match r {
            Ok(v) => spec_lift_string_list(mem@, a as int) == Ok::<Seq<Seq<char>>, LiftError>(strings_view(v@)),
            Err(e) => spec_lift_string_list(mem@, a as int) == Err::<Seq<Seq<char>>, LiftError>(e),
        },
{
    let ptr = load_u32(mem, a, 0)?;
    assert(mem@.len() == mem.len());
    let len = match field_addr(a, 0, 4) {
        None => return Err(LiftError::OutOfBounds),
        Some(b) => load_u32(mem, b, 0)?,
    };
    lift_strings(mem, ptr, len)
}

/// Lifts the encrypted data of the message at `m`.
fn lift_encrypted_data(mem: &[u8], m: usize) -> (r: Result<EncryptedData, LiftError>)
    ensures
        lifted(r) == spec_lift_encrypted_data(mem@, m as int),
{
    assert(mem@.len() == mem.len());
    let alg = lift_string_field(mem, m, 16)?;
    let ciphertext = lift_string_field(mem, m, 24)?;
    let iv = lift_string_field(mem, m, 32)?;
    let recipients = match field_addr(m, 0, 40) {
        None => return Err(LiftError::OutOfBounds),
        Some(a) => lift_string_list(mem, a)?,
    };
    let tag = lift_string_field(mem, m, 48)?;
    Ok(EncryptedData { alg, ciphertext, iv, recipients, tag })
}

/// Lifts the data of the message at `m`.
fn lift_data(mem: &[u8], m: usize) -> (r: Result<Data, LiftError>)
    ensures
        lifted(r) == spec_lift_data(mem@, m as int),
{
    assert(mem@.len() == mem.len());
    let tag = match field_addr(m, 0, 12) {
        None => return Err(LiftError::OutOfBounds),
        Some(a) => crate::abi::load_u8(mem, a, 0)?,
    };
    if tag == 0 {
        Ok(Data::Base64(lift_string_field(mem, m, 16)?))
    } else if tag == 1 {
        Ok(Data::Encrypted(lift_encrypted_data(mem, m)?))
    } else {
        Err(LiftError::InvalidDiscriminant)
    }
}

/// Lifts the message that starts at `m`.
pub fn lift_message(mem: &[u8], m: usize) -> (r: Result<Message, LiftError>)
    ensures
        lifted(r) == spec_lift_message(mem@, m as int),
{
    assert(mem@.len() == mem.len());
    let record_id = lift_string_field(mem, m, 0)?;
    let has_data = match field_addr(m, 0, 8) {
        None => return Err(LiftError::OutOfBounds),
        Some(a) => lift_option_tag(mem, a, 0)?,
    };
    if has_data {
        let d = lift_data(mem, m)?;
        Ok(Message { record_id, data: Some(d) })
    } else {
        Ok(Message { record_id, data: None })
    }
}

/// Lifts `n` messages laid out 56 bytes apart from `ptr`.
fn lift_messages(mem: &[u8], ptr: u32, n: u32) -> (r: Result<Vec<Message>, LiftError>)
    ensures
        match r {
            Ok(v) => spec_lift_seq(message_elem(mem@), ptr as int, 56, n as nat) == Ok::<Seq<MessageModel>, LiftError>(messages_view(v@)),
            Err(e) => spec_lift_seq(message_elem(mem@), ptr as int, 56, n as nat) == Err::<Seq<MessageModel>, LiftError>(e),
        },
{
    let ghost elem = message_elem(mem@);
    let mut out: Vec<Message> = Vec::new();
    let mut i: u32 = 0;
    assert(messages_view(out@) =~= Seq::<MessageModel>::empty());
    while i < n
        invariant
            i <= n,
            elem == message_elem(mem@),
            spec_lift_seq(elem, ptr as int, 56, i as nat) == Ok::<Seq<MessageModel>, LiftError>(messages_view(out@)),
        decreases n - i,
    {
        let lifted_elem = match (i as usize).checked_mul(56) {
            Some(off) => match field_addr(ptr as usize, off, 0) {
                Some(a) => lift_message(mem, a),
                None => Err(LiftError::OutOfBounds),
            },
            None => Err(LiftError::OutOfBounds),
        };
        assert(lifted(lifted_elem) == elem(ptr + 56 * i)) by {
            assert(mem@.len() == mem.len());
        }
        match lifted_elem {
            Ok(msg) => {
                proof {
                    assert(messages_view(out@.push(msg)) =~= messages_view(out@).push(msg@));
                }
                out.push(msg);
            },
            Err(e) => {
                proof {
                    assert(spec_lift_seq(elem, ptr as int, 56, (i + 1) as nat) == Err::<Seq<MessageModel>, LiftError>(e));
                    lemma_lift_seq_error_persists(elem, ptr as int, 56, (i + 1) as nat, n as nat);
                }
                return Err(e);
            },
        }
        i = i + 1;
    }
    Ok(out)
}

/// Lifts the status at `a`.
pub fn lift_status(mem: &[u8], a: usize) -> (r: Result<Status, LiftError>)
    ensures
        lifted(r) == spec_lift_status(mem@, a as int),
{
    assert(mem@.len() == mem.len());
    let code = load_u16(mem, a, 0)?;
    let detail = match field_addr(a, 0, 4) {
        None => return Err(LiftError::OutOfBounds),
        Some(b) => lift_option_string(mem, b, 0)?,
    };
    Ok(Status { code, detail })
}

/// Lifts the optional query reply that the host wrote into the return area
/// at `b`, the result of polling a records query.
pub fn lift_records_query_reply(mem: &[u8], b: usize) -> (r: Result<Option<RecordsQueryReply>, LiftError>)
    ensures
        lifted_option(r) == spec_lift_records_query_reply(mem@, b as int),
{
    assert(mem@.len() == mem.len());
    if !lift_option_tag(mem, b, 0)? {
        return Ok(None);
    }
    let ptr = match field_addr(b, 0, 4) {
        None => return Err(LiftError::OutOfBounds),
        Some(a) => load_u32(mem, a, 0)?,
    };
    let len = match field_addr(b, 0, 8) {
        None => return Err(LiftError::OutOfBounds),
        Some(a) => load_u32(mem, a, 0)?,
    };
    let entries = lift_messages(mem, ptr, len)?;
    let status = match field_addr(b, 0, 12) {
        None => return Err(LiftError::OutOfBounds),
        Some(a) => lift_status(mem, a)?,
    };
    Ok(Some(RecordsQueryReply { entries, status }))
}

/// Lifts the optional write reply that the host wrote into the return area
/// at `b`, the result of polling a records write.
pub fn lift_records_write_reply(mem: &[u8], b: usize) -> (r: Result<Option<RecordsWriteReply>, LiftError>)
    ensures
        lifted_option(r) == spec_lift_records_write_reply(mem@, b as int),
{
    assert(mem@.len() == mem.len());
    if !lift_option_tag(mem, b, 0)? {
        return Ok(None);
    }
    let record_id = lift_string_field(mem, b, 4)?;
    let status = match field_addr(b, 0, 12) {
        None => return Err(LiftError::OutOfBounds),
        Some(a) => lift_status(mem, a)?,
    };
    Ok(Some(RecordsWriteReply { record_id, status }))
}


/// A lifted message: its record id is the string at the message's start;
/// its data is present when the byte at 8 is 1, and is then base64 text
/// (case byte 12 is 0) from the string at 16, or encrypted data (case 1)
/// whose algorithm, ciphertext, initialisation vector, recipients and tag
/// are the strings and the string list at 16, 24, 32, 40 and 48.
pub proof fn message_layout(mem: Seq<u8>, m: int, msg: MessageModel)
    requires
        spec_lift_message(mem, m) == Ok::<MessageModel, LiftError>(msg),
    ensures
        spec_lift_string(mem, m) == Ok::<Seq<char>, LiftError>(msg.record_id),
        mem[m + 8] == 0 <==> msg.data is None,
        msg.data matches Some(DataModel::Base64(text)) ==> {
            &&& mem[m + 12] == 0
            &&& spec_lift_string(mem, m + 16) == Ok::<Seq<char>, LiftError>(text)
        },
        msg.data matches Some(DataModel::Encrypted(e)) ==> {
            &&& mem[m + 12] == 1
            &&& spec_lift_string(mem, m + 16) == Ok::<Seq<char>, LiftError>(e.alg)
            &&& spec_lift_string(mem, m + 24) == Ok::<Seq<char>, LiftError>(e.ciphertext)
            &&& spec_lift_string(mem, m + 32) == Ok::<Seq<char>, LiftError>(e.iv)
            &&& spec_lift_string_list(mem, m + 40) == Ok::<Seq<Seq<char>>, LiftError>(e.recipients)
            &&& spec_lift_string(mem, m + 48) == Ok::<Seq<char>, LiftError>(e.tag)
        },
{
}

/// A lifted status: the code is the little-endian `u16` at its start and
/// the detail is the optional string tagged four bytes later.
pub proof fn status_layout(mem: Seq<u8>, a: int, st: StatusModel)
    requires
        spec_lift_status(mem, a) == Ok::<StatusModel, LiftError>(st),
    ensures
        st.code == le_u16(mem, a) as u16,
        spec_lift_option_string(mem, a + 4) == Ok::<Option<Seq<char>>, LiftError>(st.detail),
{
}

/// A lifted query reply: present when the byte at 0 is 1; its entries are
/// the messages, 56 bytes apart, that the words at 4 and 8 point to and
/// count, and its status is at 12. A lifted write reply, likewise present,
/// has its record id at 4 and its status at 12.
pub proof fn reply_layout(
    mem: Seq<u8>,
    b: int,
    query: RecordsQueryReplyModel,
    write: RecordsWriteReplyModel,
)
    ensures
        spec_lift_records_query_reply(mem, b) == Ok::<Option<RecordsQueryReplyModel>, LiftError>(Some(query)) ==> {
            &&& mem[b] == 1
            &&& spec_lift_seq(message_elem(mem), le_u32(mem, b + 4), 56, le_u32(mem, b + 8) as nat)
                == Ok::<Seq<MessageModel>, LiftError>(query.entries)
            &&& spec_lift_status(mem, b + 12) == Ok::<StatusModel, LiftError>(query.status)
        },
        spec_lift_records_write_reply(mem, b) == Ok::<Option<RecordsWriteReplyModel>, LiftError>(Some(write)) ==> {
            &&& mem[b] == 1
            &&& spec_lift_string(mem, b + 4) == Ok::<Seq<char>, LiftError>(write.record_id)
            &&& spec_lift_status(mem, b + 12) == Ok::<StatusModel, LiftError>(write.status)
        },
{
}

/// The buffer a lifted list leaves to free: its start and its size in
/// bytes, `len` elements of `elem_size` each; an empty list holds none.
pub open spec fn spec_list_buffer(ptr: u32, len: u32, elem_size: u32) -> Seq<(u32, u64)> {
    if len * elem_size == 0 {
        Seq::empty()
    } else {
        seq![(ptr, (len * elem_size) as u64)]
    }
}

/// The buffers that lifting the message at `m` leaves to free: the list of
/// recipients of encrypted data, eight bytes per entry.
pub open spec fn spec_message_buffers(mem: Seq<u8>, m: int) -> Result<Seq<(u32, u64)>, LiftError> {
    match spec_load_u8(mem, m + 8) {
        Err(e) => Err(e),
        Ok(has_data) => if has_data != 1 {
            Ok(Seq::empty())
        } else {
            match spec_load_u8(mem, m + 12) {
                Err(e) => Err(e),
                Ok(case) => if case != 1 {
                    Ok(Seq::empty())
                } else {
                    match spec_load_u32(mem, m + 40) {
                        Err(e) => Err(e),
                        Ok(ptr) => match spec_load_u32(mem, m + 44) {
                            Err(e) => Err(e),
                            Ok(len) => Ok(spec_list_buffer(ptr, len, 8)),
                        },
                    }
                },
            }
        },
    }
}

/// The buffers that lifting `n` messages from `ptr` leaves to free, message
/// by message.
pub open spec fn spec_messages_buffers(mem: Seq<u8>, ptr: int, n: nat) -> Result<Seq<(u32, u64)>, LiftError>
    decreases n,
{
    if n == 0 {
        Ok(Seq::empty())
    } else {
        match spec_messages_buffers(mem, ptr, (n - 1) as nat) {
            Err(e) => Err(e),
            Ok(s) => match spec_message_buffers(mem, ptr + 56 * (n - 1)) {
                Err(e) => Err(e),
                Ok(t) => Ok(s + t),
            },
        }
    }
}

/// The buffers that lifting the query reply at `b` leaves to free, in the
/// order they are released: each message's recipients, then the list of
/// messages itself, 56 bytes per message. Strings are owned by the values
/// lifted from them and need no separate release.
pub open spec fn spec_records_query_reply_buffers(mem: Seq<u8>, b: int) -> Result<Seq<(u32, u64)>, LiftError> {
    match spec_lift_option_tag(mem, b) {
        Err(e) => Err(e),
        Ok(false) => Ok(Seq::empty()),
        Ok(true) => match spec_load_u32(mem, b + 4) {
            Err(e) => Err(e),
            Ok(ptr) => match spec_load_u32(mem, b + 8) {
                Err(e) => Err(e),
                Ok(len) => match spec_messages_buffers(mem, ptr as int, len as nat) {
                    Err(e) => Err(e),
                    Ok(s) => Ok(s + spec_list_buffer(ptr, len, 56)),
                },
            },
        },
    }
}

/// Once the buffers of a prefix of the messages fail to be read, those of
/// every longer run fail the same way.
proof fn lemma_messages_buffers_error_persists(mem: Seq<u8>, ptr: int, k: nat, n: nat)
    requires
        k <= n,
        spec_messages_buffers(mem, ptr, k) is Err,
    ensures
        spec_messages_buffers(mem, ptr, n) == spec_messages_buffers(mem, ptr, k),
    decreases n - k,
{
    if k < n {
        lemma_messages_buffers_error_persists(mem, ptr, k, (n - 1) as nat);
    }
}

/// The buffer of a list, as a sequence of none or one.
fn list_buffers(ptr: u32, len: u32, elem_size: u32) -> (r: Vec<(u32, u64)>)
    ensures
        r@ == spec_list_buffer(ptr, len, elem_size),
{
    let mut v: Vec<(u32, u64)> = Vec::new();
    if let Some(buf) = list_buffer(ptr, len, elem_size) {
        v.push(buf);
    }
    assert(v@ =~= spec_list_buffer(ptr, len, elem_size));
    v
}

/// Finds the buffers that lifting the message at `m` leaves to free.
fn message_buffers(mem: &[u8], m: usize) -> (r: Result<Vec<(u32, u64)>, LiftError>)
    ensures
        match r {
            Ok(v) => spec_message_buffers(mem@, m as int) == Ok::<Seq<(u32, u64)>, LiftError>(v@),
            Err(e) => spec_message_buffers(mem@, m as int) == Err::<Seq<(u32, u64)>, LiftError>(e),
        },
{
    assert(mem@.len() == mem.len());
    let has_data = match field_addr(m, 0, 8) {
        None => return Err(LiftError::OutOfBounds),
        Some(a) => crate::abi::load_u8(mem, a, 0)?,
    };
    if has_data != 1 {
        let v: Vec<(u32, u64)> = Vec::new();
        assert(v@ =~= Seq::<(u32, u64)>::empty());
        return Ok(v);
    }
    let case = match field_addr(m, 0, 12) {
        None => return Err(LiftError::OutOfBounds),
        Some(a) => crate::abi::load_u8(mem, a, 0)?,
    };
    if case != 1 {
        let v: Vec<(u32, u64)> = Vec::new();
        assert(v@ =~= Seq::<(u32, u64)>::empty());
        return Ok(v);
    }
    let ptr = match field_addr(m, 0, 40) {
        None => return Err(LiftError::OutOfBounds),
        Some(a) => load_u32(mem, a, 0)?,
    };
    let len = match field_addr(m, 0, 44) {
        None => return Err(LiftError::OutOfBounds),
        Some(a) => load_u32(mem, a, 0)?,
    };
    Ok(list_buffers(ptr, len, 8))
}

/// Finds the buffers that lifting `n` messages from `ptr` leaves to free.
fn messages_buffers(mem: &[u8], ptr: u32, n: u32) -> (r: Result<Vec<(u32, u64)>, LiftError>)
    ensures
        match r {
            Ok(v) => spec_messages_buffers(mem@, ptr as int, n as nat) == Ok::<Seq<(u32, u64)>, LiftError>(v@),
            Err(e) => spec_messages_buffers(mem@, ptr as int, n as nat) == Err::<Seq<(u32, u64)>, LiftError>(e),
        },
{
    let mut out: Vec<(u32, u64)> = Vec::new();
    let mut i: u32 = 0;
    assert(out@ =~= Seq::<(u32, u64)>::empty());
    while i < n
        invariant
            i <= n,
            spec_messages_buffers(mem@, ptr as int, i as nat) == Ok::<Seq<(u32, u64)>, LiftError>(out@),
        decreases n - i,
    {
        let found = match (i as usize).checked_mul(56) {
            Some(off) => match field_addr(ptr as usize, off, 0) {
                Some(a) => message_buffers(mem, a),
                None => Err(LiftError::OutOfBounds),
            },
            None => Err(LiftError::OutOfBounds),
        };
        assert(match found {
            Ok(v) => spec_message_buffers(mem@, ptr + 56 * i) == Ok::<Seq<(u32, u64)>, LiftError>(v@),
            Err(e) => spec_message_buffers(mem@, ptr + 56 * i) == Err::<Seq<(u32, u64)>, LiftError>(e),
        }) by {
            assert(mem@.len() == mem.len());
        }
        match found {
            Ok(mut v) => {
                out.append(&mut v);
            },
            Err(e) => {
                proof {
                    assert(spec_messages_buffers(mem@, ptr as int, (i + 1) as nat) == Err::<Seq<(u32, u64)>, LiftError>(e));
                    lemma_messages_buffers_error_persists(mem@, ptr as int, (i + 1) as nat, n as nat);
                }
                return Err(e);
            },
        }
        i = i + 1;
    }
    Ok(out)
}

/// Finds the buffers that lifting the query reply in the return area at `b`
/// leaves to free, in the order they are released.
pub fn records_query_reply_buffers(mem: &[u8], b: usize) -> (r: Result<Vec<(u32, u64)>, LiftError>)
    ensures
        match r {
            Ok(v) => spec_records_query_reply_buffers(mem@, b as int) == Ok::<Seq<(u32, u64)>, LiftError>(v@),
            Err(e) => spec_records_query_reply_buffers(mem@, b as int) == Err::<Seq<(u32, u64)>, LiftError>(e),
        },
{
    assert(mem@.len() == mem.len());
    if !lift_option_tag(mem, b, 0)? {
        let v: Vec<(u32, u64)> = Vec::new();
        assert(v@ =~= Seq::<(u32, u64)>::empty());
        return Ok(v);
    }
    let ptr = match field_addr(b, 0, 4) {
        None => return Err(LiftError::OutOfBounds),
        Some(a) => load_u32(mem, a, 0)?,
    };
    let len = match field_addr(b, 0, 8) {
        None => return Err(LiftError::OutOfBounds),
        Some(a) => load_u32(mem, a, 0)?,
    };
    let mut bufs = messages_buffers(mem, ptr, len)?;
    let mut list = list_buffers(ptr, len, 56);
    bufs.append(&mut list);
    Ok(bufs)
}

/// What a test expects of the status of a reply.
#[derive(Clone, Copy, Debug, PartialEq, Eq, Structural)]
pub enum ExpectedStatus {
    /// The request must succeed with code 200.
    Success,
    /// The request must not succeed: any code but 200.
    Failure,
}

/// The status code of a successful request.
pub const STATUS_OK: u16 = 200;

/// Whether a reply with status `code` meets the expectation.
pub fn status_meets(expected: ExpectedStatus, code: u16) -> (r: bool)
    ensures
        r == match expected {
            ExpectedStatus::Success => code == STATUS_OK,
            ExpectedStatus::Failure => code != STATUS_OK,
        },
{
    match expected {
        ExpectedStatus::Success => code == STATUS_OK,
        ExpectedStatus::Failure => code != STATUS_OK,
    }
}

/// A running records query.
#[derive(Debug)]
pub struct RecordsQuery {
    handle: Resource,
}

impl View for RecordsQuery {
    type V = u32;

    closed spec fn view(&self) -> u32 {
        self.handle@
    }
}

impl RecordsQuery {
    /// Takes ownership of a handle that the host handed over.
    pub fn from_handle(handle: u32) -> (r: Self)
        requires
            handle != INVALID_HANDLE,
        ensures
            r@ == handle,
    {
        RecordsQuery { handle: Resource::from_handle(handle) }
    }

    /// Takes the handle out, leaving this value without one.
    pub fn take_handle(&mut self) -> (r: u32)
        ensures
            r == old(self)@,
            final(self)@ == INVALID_HANDLE,
    {
        self.handle.take_handle()
    }

    /// The handle this value holds.
    pub fn handle(&self) -> (r: u32)
        ensures
            r == self@,
    {
        self.handle.handle()
    }

    /// The handle to release with the host when this value goes away: its
    /// own while it holds one, none once it has been taken.
    pub fn drop_handle(&self) -> (r: Option<u32>)
        ensures
            r == (if self@ != INVALID_HANDLE { Some(self@) } else { None::<u32> }),
    {
        self.handle.drop_handle()
    }
}

impl WasmResource for RecordsQuery {
    fn from_owned_handle(handle: u32) -> (r: Self) {
        RecordsQuery::from_handle(handle)
    }

    fn borrowed_handle(&self) -> (r: u32) {
        self.handle.handle()
    }
}

/// Builds a records query.
#[derive(Debug)]
pub struct RecordsQueryBuilder {
    handle: Resource,
}

impl View for RecordsQueryBuilder {
    type V = u32;

    closed spec fn view(&self) -> u32 {
        self.handle@
    }
}

impl RecordsQueryBuilder {
    /// Takes ownership of a handle that the host handed over.
    pub fn from_handle(handle: u32) -> (r: Self)
        requires
            handle != INVALID_HANDLE,
        ensures
            r@ == handle,
    {
        RecordsQueryBuilder { handle: Resource::from_handle(handle) }
    }

    /// Takes the handle out, leaving this value without one.
    pub fn take_handle(&mut self) -> (r: u32)
        ensures
            r == old(self)@,
            final(self)@ == INVALID_HANDLE,
    {
        self.handle.take_handle()
    }

    /// The handle this value holds.
    pub fn handle(&self) -> (r: u32)
        ensures
            r == self@,
    {
        self.handle.handle()
    }

    /// The handle to release with the host when this value goes away: its
    /// own while it holds one, none once it has been taken.
    pub fn drop_handle(&self) -> (r: Option<u32>)
        ensures
            r == (if self@ != INVALID_HANDLE { Some(self@) } else { None::<u32> }),
    {
        self.handle.drop_handle()
    }
}

impl WasmResource for RecordsQueryBuilder {
    fn from_owned_handle(handle: u32) -> (r: Self) {
        RecordsQueryBuilder::from_handle(handle)
    }

    fn borrowed_handle(&self) -> (r: u32) {
        self.handle.handle()
    }
}

/// A running records write.
#[derive(Debug)]
pub struct RecordsWrite {
    handle: Resource,
}

impl View for RecordsWrite {
    type V = u32;

    closed spec fn view(&self) -> u32 {
        self.handle@
    }
}

impl RecordsWrite {
    /// Takes ownership of a handle that the host handed over.
    pub fn from_handle(handle: u32) -> (r: Self)
        requires
            handle != INVALID_HANDLE,
        ensures
            r@ == handle,
    {
        RecordsWrite { handle: Resource::from_handle(handle) }
    }

    /// Takes the handle out, leaving this value without one.
    pub fn take_handle(&mut self) -> (r: u32)
        ensures
            r == old(self)@,
            final(self)@ == INVALID_HANDLE,
    {
        self.handle.take_handle()
    }

    /// The handle this value holds.
    pub fn handle(&self) -> (r: u32)
        ensures
            r == self@,
    {
        self.handle.handle()
    }

    /// The handle to release with the host when this value goes away: its
    /// own while it holds one, none once it has been taken.
    pub fn drop_handle(&self) -> (r: Option<u32>)
        ensures
            r == (if self@ != INVALID_HANDLE { Some(self@) } else { None::<u32> }),
    {
        self.handle.drop_handle()
    }
}

impl WasmResource for RecordsWrite {
    fn from_owned_handle(handle: u32) -> (r: Self) {
        RecordsWrite::from_handle(handle)
    }

    fn borrowed_handle(&self) -> (r: u32) {
        self.handle.handle()
    }
}

/// Builds a records write.
#[derive(Debug)]
pub struct RecordsWriteBuilder {
    handle: Resource,
}

impl View for RecordsWriteBuilder {
    type V = u32;

    closed spec fn view(&self) -> u32 {
        self.handle@
    }
}

impl RecordsWriteBuilder {
    /// Takes ownership of a handle that the host handed over.
    pub fn from_handle(handle: u32) -> (r: Self)
        requires
            handle != INVALID_HANDLE,
        ensures
            r@ == handle,
    {
        RecordsWriteBuilder { handle: Resource::from_handle(handle) }
    }

    /// Takes the handle out, leaving this value without one.
    pub fn take_handle(&mut self) -> (r: u32)
        ensures
            r == old(self)@,
            final(self)@ == INVALID_HANDLE,
    {
        self.handle.take_handle()
    }

    /// The handle this value holds.
    pub fn handle(&self) -> (r: u32)
        ensures
            r == self@,
    {
        self.handle.handle()
    }

    /// The handle to release with the host when this value goes away: its
    /// own while it holds one, none once it has been taken.
    pub fn drop_handle(&self) -> (r: Option<u32>)
        ensures
            r == (if self@ != INVALID_HANDLE { Some(self@) } else { None::<u32> }),
    {
        self.handle.drop_handle()
    }
}

impl WasmResource for RecordsWriteBuilder {
    fn from_owned_handle(handle: u32) -> (r: Self) {
        RecordsWriteBuilder::from_handle(handle)
    }

    fn borrowed_handle(&self) -> (r: u32) {
        self.handle.handle()
    }
}

/// A decentralized web node.
#[derive(Debug)]
pub struct Dwn {
    handle: Resource,
}

impl View for Dwn {
    type V = u32;

    closed spec fn view(&self) -> u32 {
        self.handle@
    }
}

impl Dwn {
    /// Takes ownership of a handle that the host handed over.
    pub fn from_handle(handle: u32) -> (r: Self)
        requires
            handle != INVALID_HANDLE,
        ensures
            r@ == handle,
    {
        Dwn { handle: Resource::from_handle(handle) }
    }

    /// Takes the handle out, leaving this value without one.
    pub fn take_handle(&mut self) -> (r: u32)
        ensures
            r == old(self)@,
            final(self)@ == INVALID_HANDLE,
    {
        self.handle.take_handle()
    }

    /// The handle this value holds.
    pub fn handle(&self) -> (r: u32)
        ensures
            r == self@,
    {
        self.handle.handle()
    }

    /// The handle to release with the host when this value goes away: its
    /// own while it holds one, none once it has been taken.
    pub fn drop_handle(&self) -> (r: Option<u32>)
        ensures
            r == (if self@ != INVALID_HANDLE { Some(self@) } else { None::<u32> }),
    {
        self.handle.drop_handle()
    }
}

impl WasmResource for Dwn {
    fn from_owned_handle(handle: u32) -> (r: Self) {
        Dwn::from_handle(handle)
    }

    fn borrowed_handle(&self) -> (r: u32) {
        self.handle.handle()
    }
}

} // verus!
