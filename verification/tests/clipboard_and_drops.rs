use winflow::file_drop::drop_messages;
use winflow::clipboard::local_clipboard_message;
use winflow::digest::{hash_text, sha256_hex, to_hex_lower};
use winflow::file_drop::{decode_drop_chunk, drop_chunk_message, DROP_CHUNK_SIZE};
use winflow::config::Config;
use winflow::protocol::Message;

const ABC_SHA256: &str = "ba7816bf8f01cfea414140de5dae2223b00361a396177a9cb410ff61f20015ad";
const EMPTY_SHA256: &str = "e3b0c44298fc1c149afbf4c8996fb92427ae41e4649b934ca495991b7852b855";

fn cfg() -> Config {
    Config::with_defaults("PC".to_string())
}

#[test]
fn hex_is_lowercase_two_digits_per_byte() {
    assert_eq!(to_hex_lower(&[0x0a, 0x14, 0x1e, 0xff, 0x00]), "0a141eff00");
    assert_eq!(to_hex_lower(&[]), "");
}

#[test]
fn text_hash_is_sha256_hex() {
    assert_eq!(hash_text("abc"), ABC_SHA256);
    assert_eq!(hash_text(""), EMPTY_SHA256);
    assert_eq!(sha256_hex(b"abc"), ABC_SHA256);
    assert_eq!(hash_text("héllo").len(), 64);
}

#[test]
fn new_clipboard_text_is_sent_once() {
    let mut last = String::new();
    let remote = String::new();
    let first = local_clipboard_message(&cfg(), &mut last, "abc".to_string(), &remote);
    assert_eq!(first, Some(Message::ClipboardText { text: "abc".to_string(), hash: ABC_SHA256.to_string() }));
    assert_eq!(last, ABC_SHA256);
    assert_eq!(local_clipboard_message(&cfg(), &mut last, "abc".to_string(), &remote), None);
    assert_eq!(last, ABC_SHA256);
}

#[test]
fn remote_clipboard_text_is_not_echoed() {
    let mut last = String::new();
    let remote = ABC_SHA256.to_string();
    assert_eq!(local_clipboard_message(&cfg(), &mut last, "abc".to_string(), &remote), None);
    assert_eq!(last, "");
}

#[test]
fn drop_chunks_are_standard_base64() {
    assert_eq!(
        drop_chunk_message("id1".to_string(), b"hello"),
        Message::DropChunk { id: "id1".to_string(), data_b64: "aGVsbG8=".to_string() }
    );
    assert_eq!(drop_chunk_message("x".to_string(), &[0xFF, 0xEC, 0x20, 0x55, 0]),
        Message::DropChunk { id: "x".to_string(), data_b64: "/+wgVQA=".to_string() });
}

#[test]
fn drop_chunks_decode_back() {
    let data: Vec<u8> = (0..=255u8).collect();
    if let Message::DropChunk { data_b64, .. } = drop_chunk_message("id".to_string(), &data) {
        assert_eq!(decode_drop_chunk(&data_b64), Some(data));
    } else {
        panic!("not a chunk");
    }
    assert_eq!(decode_drop_chunk("aGVsbG8="), Some(b"hello".to_vec()));
}

#[test]
fn malformed_drop_chunks_are_refused() {
    assert_eq!(decode_drop_chunk("aGVsbG8"), None);
    assert_eq!(decode_drop_chunk("!!!!"), None);
}

#[test]
fn drop_chunk_size_is_half_a_mebibyte() {
    assert_eq!(DROP_CHUNK_SIZE, 512 * 1024);
}

#[test]
fn file_is_sent_in_pieces_that_rebuild_it() {
    let data: Vec<u8> = (0..1_100_000u32).map(|i| (i % 251) as u8).collect();
    let msgs = drop_messages(&cfg(), "big.bin".to_string(), &data);
    assert_eq!(msgs.len(), 5);
    let id = match &msgs[0] {
        Message::DropStart { id, name, size, sha256 } => {
            assert_eq!(name, "big.bin");
            assert_eq!(*size, 1_100_000);
            assert_eq!(sha256, &sha256_hex(&data));
            assert_eq!(id.len(), 36);
            id.clone()
        }
        m => panic!("unexpected {m:?}"),
    };
    let mut rebuilt = Vec::new();
    for m in &msgs[1..4] {
        match m {
            Message::DropChunk { id: i, data_b64 } => {
                assert_eq!(i, &id);
                let piece = decode_drop_chunk(data_b64).unwrap();
                assert!(!piece.is_empty() && piece.len() <= DROP_CHUNK_SIZE);
                rebuilt.extend(piece);
            }
            m => panic!("unexpected {m:?}"),
        }
    }
    assert_eq!(rebuilt, data);
    assert_eq!(msgs[4], Message::DropEnd { id });
}

#[test]
fn empty_file_has_no_pieces() {
    let msgs = drop_messages(&cfg(), "e".to_string(), &[]);
    assert_eq!(msgs.len(), 2);
    assert!(matches!(&msgs[0], Message::DropStart { size: 0, sha256, .. } if sha256 == EMPTY_SHA256));
    assert!(matches!(&msgs[1], Message::DropEnd { .. }));
}

#[test]
fn disabled_clipboard_sharing_sends_nothing() {
    let mut off = cfg();
    off.clipboard_enabled = false;
    let mut last = String::new();
    assert_eq!(local_clipboard_message(&off, &mut last, "abc".to_string(), &String::new()), None);
    assert_eq!(last, "");
    assert!(local_clipboard_message(&cfg(), &mut last, "abc".to_string(), &String::new()).is_some());
}

#[test]
fn disabled_file_drops_send_nothing() {
    let mut off = cfg();
    off.drops_enabled = false;
    assert!(drop_messages(&off, "a.txt".to_string(), b"hello").is_empty());
    assert_eq!(drop_messages(&cfg(), "a.txt".to_string(), b"hello").len(), 3);
}

#[test]
fn receiver_rebuilds_file_with_announced_hash() {
    let data: Vec<u8> = (0..600_000u32).map(|i| (i % 7) as u8).collect();
    let msgs = drop_messages(&cfg(), "r.bin".to_string(), &data);
    let (id, announced) = match &msgs[0] {
        Message::DropStart { id, sha256, .. } => (id.clone(), sha256.clone()),
        m => panic!("unexpected {m:?}"),
    };
    let mut received = Vec::new();
    for m in &msgs {
        if let Message::DropChunk { id: i, data_b64 } = m {
            if *i == id {
                received.extend(decode_drop_chunk(data_b64).unwrap());
            }
        }
    }
    assert_eq!(received, data);
    assert_eq!(sha256_hex(&received), announced);
}
