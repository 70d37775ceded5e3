use jsonwebtoken::{Algorithm, EncodingKey, Header};
use paintboard::board::{Canvas, Cell, Model};
use paintboard::consts::Config;
use paintboard::pixel::Pixel;
use paintboard::state::{AppState, BootError};
use paintboard::time::Timestamp;
use paintboard::ws::read::{handle_read, Incoming, ReadOutcome};
use paintboard::ws::WsState;
use ring::signature::{Ed25519KeyPair, KeyPair};
use tokio::sync::broadcast::channel;

fn base64(bytes: &[u8]) -> String {
    let table = b"ABCDEFGHIJKLMNOPQRSTUVWXYZabcdefghijklmnopqrstuvwxyz0123456789+/";
    let mut text = String::new();
    for chunk in bytes.chunks(3) {
        let b = [chunk[0], *chunk.get(1).unwrap_or(&0), *chunk.get(2).unwrap_or(&0)];
        let n = (b[0] as u32) << 16 | (b[1] as u32) << 8 | b[2] as u32;
        text.push(table[(n >> 18) as usize & 63] as char);
        text.push(table[(n >> 12) as usize & 63] as char);
        text.push(if chunk.len() > 1 { table[(n >> 6) as usize & 63] as char } else { '=' });
        text.push(if chunk.len() > 2 { table[n as usize & 63] as char } else { '=' });
    }
    text
}

fn public_pem(raw: &[u8]) -> Vec<u8> {
    let mut der = vec![0x30, 0x2a, 0x30, 0x05, 0x06, 0x03, 0x2b, 0x65, 0x70, 0x03, 0x21, 0x00];
    der.extend_from_slice(raw);
    format!("-----BEGIN PUBLIC KEY-----\n{}\n-----END PUBLIC KEY-----\n", base64(&der)).into_bytes()
}

fn key_pair() -> (EncodingKey, Vec<u8>) {
    let rng = ring::rand::SystemRandom::new();
    let document = Ed25519KeyPair::generate_pkcs8(&rng).unwrap();
    let pair = Ed25519KeyPair::from_pkcs8(document.as_ref()).unwrap();
    (EncodingKey::from_ed_der(document.as_ref()), public_pem(pair.public_key().as_ref()))
}

fn small() -> Config {
    let mut config = Config::default();
    config.width = 4;
    config.height = 3;
    config
}

fn row(x: i32, y: i32, color: &str, uid: i32, secs: i64) -> Model {
    Model { x, y, color: color.to_string(), uid, time: Timestamp { secs, nanos: 0 } }
}

#[test]
fn base64_of_known_bytes() {
    assert_eq!(base64(b""), "");
    assert_eq!(base64(b"f"), "Zg==");
    assert_eq!(base64(b"fo"), "Zm8=");
    assert_eq!(base64(b"foo"), "Zm9v");
    assert_eq!(base64(b"foobar"), "Zm9vYmFy");
}

#[test]
fn server_starts_from_the_stored_rows() {
    let (_signing, pem) = key_pair();
    let (sender, _receiver) = channel::<Pixel>(4);
    let fill = Cell::blank((240, 240, 240));
    let rows = vec![row(1, 2, "#ff0000", 9, 50), row(9, 9, "#00ff00", 9, 51), row(0, 0, "#0000FF", 8, 52)];
    let (state, stored) = AppState::boot(&pem, sender, small(), fill, &rows).unwrap();
    assert!(state.check());
    assert!(stored.check());
    assert_eq!(state.config, small());
    assert_eq!(state.board.width(), 4);
    assert_eq!(state.board.height(), 3);
    assert_eq!(stored.width(), 4);
    assert_eq!(stored.height(), 3);
    assert_eq!(stored.rgb(), state.board.rgb());
    assert_eq!(state.actions.len(), 0);
    assert_eq!(state.user_paint.last_accept(9), None);
    for x in 0..4 {
        for y in 0..3 {
            let expected = match (x, y) {
                (1, 2) => Cell { color: (255, 0, 0), uid: 9, time: Timestamp { secs: 50, nanos: 0 } },
                (0, 0) => Cell { color: (0, 0, 255), uid: 8, time: Timestamp { secs: 52, nanos: 0 } },
                _ => fill,
            };
            assert_eq!(state.board.get(x, y), expected);
            assert_eq!(stored.get(x, y), expected);
        }
    }
}

#[test]
fn server_checks_tokens_against_the_key_it_started_with() {
    let (signing, pem) = key_pair();
    let (other_signing, _other_pem) = key_pair();
    let (sender, _receiver) = channel::<Pixel>(4);
    let (mut state, _stored) =
        AppState::boot(&pem, sender, small(), Cell::blank((0, 0, 0)), &Vec::new()).unwrap();
    let mut claims = serde_json::Map::new();
    claims.insert("exp".to_string(), serde_json::Value::from(4_102_444_800u64));
    claims.insert("uid".to_string(), serde_json::Value::from(42));
    let claims = serde_json::Value::Object(claims);
    let header = Header::new(Algorithm::EdDSA);

    let mut frame = vec![0xff];
    frame.extend_from_slice(jsonwebtoken::encode(&header, &claims, &signing).unwrap().as_bytes());
    let mut ws = WsState::new();
    let out = handle_read(&mut state, &mut ws, Incoming::Data(frame));
    assert_eq!(out, ReadOutcome { exit: false, reply: Some(vec![0xfc]), delta: None });
    assert_eq!(ws.uid, Some(42));

    let mut frame = vec![0xff];
    frame.extend_from_slice(jsonwebtoken::encode(&header, &claims, &other_signing).unwrap().as_bytes());
    let mut ws = WsState::new();
    let out = handle_read(&mut state, &mut ws, Incoming::Data(frame));
    assert_eq!(out, ReadOutcome { exit: false, reply: Some(vec![0xfd]), delta: None });
    assert_eq!(ws.uid, None);
}

#[test]
fn server_does_not_start_without_a_key() {
    let texts: Vec<Vec<u8>> = vec![
        Vec::new(),
        b"not a key".to_vec(),
        b"-----BEGIN PUBLIC KEY-----\nAAAA\n-----END PUBLIC KEY-----\n".to_vec(),
        vec![0xff, 0xfe],
    ];
    for pem in texts {
        let (sender, _receiver) = channel::<Pixel>(4);
        let started = AppState::boot(&pem, sender, small(), Cell::blank((0, 0, 0)), &Vec::new());
        assert_eq!(started.err(), Some(BootError::Key));
    }
}

#[test]
fn server_does_not_start_with_settings_that_cannot_be_used() {
    let (_signing, pem) = key_pair();
    let mut config = small();
    config.chunk_size = 0;
    let (sender, _receiver) = channel::<Pixel>(4);
    let started = AppState::boot(&pem, sender, config, Cell::blank((0, 0, 0)), &Vec::new());
    assert_eq!(started.err(), Some(BootError::Settings));
    let (sender, _receiver) = channel::<Pixel>(4);
    let started = AppState::boot(b"no key", sender, config, Cell::blank((0, 0, 0)), &Vec::new());
    assert_eq!(started.err(), Some(BootError::Settings));
}

#[test]
fn check_tells_when_the_settings_no_longer_fit_the_canvas() {
    let (_signing, pem) = key_pair();
    let (sender, _receiver) = channel::<Pixel>(4);
    let (mut state, stored) =
        AppState::boot(&pem, sender, small(), Cell::blank((0, 0, 0)), &Vec::new()).unwrap();
    assert!(state.check());
    state.config.width = 5;
    assert!(!state.check());
    state.config.width = 4;
    state.config.chunk_size = 0;
    assert!(!state.check());
    state.config.chunk_size = 1;
    assert!(state.check());
    state.board = Canvas::new(3, 4, Cell::blank((0, 0, 0)));
    assert!(!state.check());
    state.board = stored;
    assert!(state.check());
    assert!(Canvas::new(0, 0, Cell::blank((0, 0, 0))).check());
    assert!(Canvas::new(65535, 1, Cell::blank((0, 0, 0))).check());
}
