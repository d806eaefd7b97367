use wired_script::abi::LiftError;
use wired_script::dwn::{
    Data, ExpectedStatus, STATUS_OK, records_query_reply_buffers, lift_message, lift_records_query_reply,
    lift_records_write_reply, lift_status, lift_string_list, status_meets,
};

/// A guest memory that strings and records are laid out in.
struct Mem {
    bytes: Vec<u8>,
}

impl Mem {
    fn new(size: usize) -> Mem {
        Mem { bytes: vec![0u8; size] }
    }

    fn u32_at(&mut self, at: usize, v: u32) {
        self.bytes[at..at + 4].copy_from_slice(&v.to_le_bytes());
    }

    fn u16_at(&mut self, at: usize, v: u16) {
        self.bytes[at..at + 2].copy_from_slice(&v.to_le_bytes());
    }

    /// Writes `text` at `data` and its pointer and length at `at`.
    fn string_at(&mut self, at: usize, data: usize, text: &str) {
        self.bytes[data..data + text.len()].copy_from_slice(text.as_bytes());
        self.u32_at(at, data as u32);
        self.u32_at(at + 4, text.len() as u32);
    }
}

#[test]
fn status_has_code_and_optional_detail() {
    let mut m = Mem::new(64);
    m.u16_at(0, 404);
    m.bytes[4] = 1;
    m.string_at(8, 40, "missing");
    let s = lift_status(&m.bytes, 0).unwrap();
    assert_eq!(s.code, 404);
    assert_eq!(s.detail.as_deref(), Some("missing"));
    m.bytes[4] = 0;
    assert_eq!(lift_status(&m.bytes, 0).unwrap().detail, None);
    m.bytes[4] = 2;
    assert!(matches!(lift_status(&m.bytes, 0), Err(LiftError::InvalidDiscriminant)));
}

#[test]
fn string_lists_are_pointers_and_lengths() {
    let mut m = Mem::new(96);
    m.u32_at(0, 16);
    m.u32_at(4, 2);
    m.string_at(16, 64, "alice");
    m.string_at(24, 72, "bob");
    assert_eq!(lift_string_list(&m.bytes, 0).unwrap(), vec!["alice".to_string(), "bob".to_string()]);
    m.u32_at(4, 0);
    assert!(lift_string_list(&m.bytes, 0).unwrap().is_empty());
    m.u32_at(4, 20);
    assert!(matches!(lift_string_list(&m.bytes, 0), Err(LiftError::OutOfBounds)));
}

#[test]
fn messages_carry_base64_or_encrypted_data() {
    let mut m = Mem::new(256);
    m.string_at(0, 100, "rec-1");
    m.bytes[8] = 1;
    m.bytes[12] = 0;
    m.string_at(16, 110, "aGVsbG8=");
    let msg = lift_message(&m.bytes, 0).unwrap();
    assert_eq!(msg.record_id, "rec-1");
    match msg.data {
        Some(Data::Base64(s)) => assert_eq!(s, "aGVsbG8="),
        _ => panic!("expected base64 data"),
    }

    m.bytes[12] = 1;
    m.string_at(16, 120, "A256GCM");
    m.string_at(24, 130, "c1ph3r");
    m.string_at(32, 140, "iv0");
    m.u32_at(40, 200);
    m.u32_at(44, 1);
    m.string_at(200, 150, "did:x");
    m.string_at(48, 160, "tag!");
    match lift_message(&m.bytes, 0).unwrap().data {
        Some(Data::Encrypted(e)) => {
            assert_eq!(e.alg, "A256GCM");
            assert_eq!(e.ciphertext, "c1ph3r");
            assert_eq!(e.iv, "iv0");
            assert_eq!(e.recipients, vec!["did:x".to_string()]);
            assert_eq!(e.tag, "tag!");
        },
        _ => panic!("expected encrypted data"),
    }

    m.bytes[12] = 3;
    assert!(matches!(lift_message(&m.bytes, 0), Err(LiftError::InvalidDiscriminant)));
    m.bytes[8] = 0;
    assert!(lift_message(&m.bytes, 0).unwrap().data.is_none());
}

#[test]
fn query_reply_lists_its_entries() {
    let mut m = Mem::new(400);
    // Return area at 0: tag, entries at 4/8, status at 12.
    m.bytes[0] = 1;
    m.u32_at(4, 100);
    m.u32_at(8, 2);
    m.u16_at(12, 200);
    m.bytes[16] = 0;
    // Two messages, 56 bytes apart, without data.
    m.string_at(100, 300, "first");
    m.string_at(156, 310, "second");
    let reply = lift_records_query_reply(&m.bytes, 0).unwrap().unwrap();
    assert_eq!(reply.status.code, 200);
    assert_eq!(reply.entries.len(), 2);
    assert_eq!(reply.entries[0].record_id, "first");
    assert_eq!(reply.entries[1].record_id, "second");

    m.bytes[0] = 0;
    assert!(lift_records_query_reply(&m.bytes, 0).unwrap().is_none());
    m.bytes[0] = 5;
    assert!(matches!(lift_records_query_reply(&m.bytes, 0), Err(LiftError::InvalidDiscriminant)));
    m.bytes[0] = 1;
    m.bytes[164] = 9;
    assert!(matches!(lift_records_query_reply(&m.bytes, 0), Err(LiftError::InvalidDiscriminant)));
}

#[test]
fn write_reply_has_record_id_and_status() {
    let mut m = Mem::new(128);
    m.bytes[0] = 1;
    m.string_at(4, 64, "written");
    m.u16_at(12, 201);
    m.bytes[16] = 1;
    m.string_at(20, 80, "created");
    let reply = lift_records_write_reply(&m.bytes, 0).unwrap().unwrap();
    assert_eq!(reply.record_id, "written");
    assert_eq!(reply.status.code, 201);
    assert_eq!(reply.status.detail.as_deref(), Some("created"));
    m.u32_at(8, 200);
    assert!(matches!(lift_records_write_reply(&m.bytes, 0), Err(LiftError::OutOfBounds)));
    m.bytes[0] = 0;
    assert!(lift_records_write_reply(&m.bytes, 0).unwrap().is_none());
}

#[test]
fn status_expectations() {
    assert!(status_meets(ExpectedStatus::Success, STATUS_OK));
    assert!(!status_meets(ExpectedStatus::Success, 404));
    assert!(status_meets(ExpectedStatus::Failure, 404));
    assert!(!status_meets(ExpectedStatus::Failure, 200));
}

#[test]
fn query_reply_buffers_are_recipients_then_the_message_list() {
    let mut m = Mem::new(400);
    m.bytes[0] = 1;
    m.u32_at(4, 100);
    m.u32_at(8, 2);
    // First message: encrypted data with three recipients at 320.
    m.bytes[108] = 1;
    m.bytes[112] = 1;
    m.u32_at(140, 320);
    m.u32_at(144, 3);
    // Second message: no data.
    m.bytes[164] = 0;
    assert_eq!(records_query_reply_buffers(&m.bytes, 0), Ok(vec![(320, 24), (100, 112)]));
    m.u32_at(144, 0);
    assert_eq!(records_query_reply_buffers(&m.bytes, 0), Ok(vec![(100, 112)]));
    m.u32_at(8, 0);
    assert_eq!(records_query_reply_buffers(&m.bytes, 0), Ok(vec![]));
    m.bytes[0] = 0;
    assert_eq!(records_query_reply_buffers(&m.bytes, 0), Ok(vec![]));
    m.bytes[0] = 1;
    m.u32_at(8, 9);
    assert_eq!(records_query_reply_buffers(&m.bytes, 0), Err(LiftError::OutOfBounds));
}
