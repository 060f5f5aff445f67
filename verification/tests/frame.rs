use embassy_nina::error::Error;
use embassy_nina::frame::{
    decode_reply, decode_reply16, decode_reply_params, encode_command, encode_mixed_command, RxStep,
};
use embassy_nina::proto::{Param, CMD_GET_IPADDR, CMD_GET_MAC_ADDR, DUMMY, END_CMD, ERR_CMD, START_CMD};

/// Clock bytes of `stream` into the decoder as it asks for them (`0xFF`
/// once the stream runs out); returns the outcome and the bytes clocked.
fn run<T>(stream: &[u8], dec: impl Fn(&[u8]) -> RxStep<T, ()>) -> (Result<T, Error<()>>, usize) {
    let mut rx: Vec<u8> = Vec::new();
    loop {
        match dec(&rx) {
            RxStep::Read(n) => {
                assert!(n >= 1);
                for _ in 0..n {
                    let b = if rx.len() < stream.len() { stream[rx.len()] } else { 0xFF };
                    rx.push(b);
                }
            }
            RxStep::Done(r) => return (r, rx.len()),
        }
    }
}

#[test]
fn command_frame_is_padded_to_four_bytes() {
    let p1: &[u8] = &[DUMMY];
    let f = encode_command(CMD_GET_MAC_ADDR, &[p1]);
    assert_eq!(f, vec![START_CMD, 0x22, 1, 1, 0xFF, END_CMD, 0xFF, 0xFF]);
    let f0 = encode_command(0x37, &[]);
    assert_eq!(f0, vec![START_CMD, 0x37, 0, END_CMD]);
}

#[test]
fn command_frame_clears_reply_flag() {
    let f = encode_command(0xA2, &[]);
    assert_eq!(f[1], 0x22);
}

#[test]
fn mixed_frame_uses_16_bit_lengths() {
    let s: &[u8] = &[3];
    let d: &[u8] = b"hi";
    let f = encode_mixed_command::<()>(0x44, &[Param::Long(s), Param::Long(d)]).ok().unwrap();
    assert_eq!(f, vec![START_CMD, 0x44, 2, 0, 1, 3, 0, 2, b'h', b'i', END_CMD, DUMMY]);
    let f2 = encode_mixed_command::<()>(0x10, &[Param::Short(d)]).ok().unwrap();
    assert_eq!(f2, vec![START_CMD, 0x10, 1, 2, b'h', b'i', END_CMD, DUMMY]);
}

#[test]
fn mixed_frame_limit_is_256_bytes() {
    let s: &[u8] = &[3];
    let fits = vec![7u8; 247];
    let f = encode_mixed_command::<()>(0x44, &[Param::Long(s), Param::Long(&fits)]).ok().unwrap();
    assert_eq!(f.len(), 256);
    let over = vec![7u8; 248];
    let r = encode_mixed_command::<()>(0x44, &[Param::Long(s), Param::Long(&over)]);
    assert!(matches!(r, Err(Error::BufferTooSmall)));
}

#[test]
fn one_param_reply_after_idle_bytes() {
    let stream = [0xFF, 0x00, 0xFF, START_CMD, 0x22 | 0x80, 1, 2, 0xAB, 0xCD, END_CMD, 0x55];
    let (r, used) = run(&stream, |rx| decode_reply::<()>(0x22, 8, rx));
    assert_eq!(r.ok().unwrap(), vec![0xAB, 0xCD]);
    assert_eq!(used, 10);
}

#[test]
fn one_param_reply_errors() {
    let (r, used) = run(&[0xFF, ERR_CMD, START_CMD], |rx| decode_reply::<()>(0x22, 8, rx));
    assert!(matches!(r, Err(Error::Nina)));
    assert_eq!(used, 2);

    let (r, used) = run(&[], |rx| decode_reply::<()>(0x22, 8, rx));
    assert!(matches!(r, Err(Error::Timeout)));
    assert_eq!(used, 1000);

    let (r, _) = run(&[START_CMD, 0x99, 1, 1, 0, END_CMD], |rx| decode_reply::<()>(0x22, 8, rx));
    assert!(matches!(r, Err(Error::Framing)));

    let (r, _) = run(&[START_CMD, 0xA2, 2, 1, 0, END_CMD], |rx| decode_reply::<()>(0x22, 8, rx));
    assert!(matches!(r, Err(Error::Framing)));

    let (r, used) = run(&[START_CMD, 0xA2, 1, 9, 0, 0], |rx| decode_reply::<()>(0x22, 8, rx));
    assert!(matches!(r, Err(Error::BufferTooSmall)));
    assert_eq!(used, 4);

    let (r, _) = run(&[START_CMD, 0xA2, 1, 1, 7, 0x00], |rx| decode_reply::<()>(0x22, 8, rx));
    assert!(matches!(r, Err(Error::Framing)));
}

#[test]
fn start_at_last_polled_byte_is_accepted() {
    let mut stream = vec![0x00u8; 999];
    stream.extend_from_slice(&[START_CMD, 0xA2, 1, 0, END_CMD]);
    let (r, used) = run(&stream, |rx| decode_reply::<()>(0x22, 8, rx));
    assert_eq!(r.ok().unwrap(), Vec::<u8>::new());
    assert_eq!(used, 1004);

    let mut late = vec![0x00u8; 1000];
    late.extend_from_slice(&[START_CMD, 0xA2, 1, 0, END_CMD]);
    let (r, used) = run(&late, |rx| decode_reply::<()>(0x22, 8, rx));
    assert!(matches!(r, Err(Error::Timeout)));
    assert_eq!(used, 1000);
}

#[test]
fn reply16_reads_big_endian_length() {
    let mut stream = vec![0xFF, START_CMD, 0x45 | 0x80, 1, 0x01, 0x02];
    let payload: Vec<u8> = (0..258u32).map(|i| i as u8).collect();
    stream.extend_from_slice(&payload);
    stream.push(END_CMD);
    let (r, used) = run(&stream, |rx| decode_reply16::<()>(0x45, 1024, rx));
    assert_eq!(r.ok().unwrap(), payload);
    assert_eq!(used, stream.len());

    let (r, used) = run(&stream, |rx| decode_reply16::<()>(0x45, 257, rx));
    assert!(matches!(r, Err(Error::BufferTooSmall)));
    assert_eq!(used, 6);
}

#[test]
fn params_reply_packs_parameters() {
    let stream = [
        START_CMD, CMD_GET_IPADDR | 0x80, 3, 4, 192, 168, 1, 20, 4, 255, 255, 255, 0, 4, 192, 168, 1, 1,
        END_CMD,
    ];
    let (r, used) = run(&stream, |rx| decode_reply_params::<()>(CMD_GET_IPADDR, 32, rx));
    let (n, packed) = r.ok().unwrap();
    assert_eq!(n, 3);
    assert_eq!(packed, stream[3..18].to_vec());
    assert_eq!(used, stream.len());

    let (r, _) = run(&stream, |rx| decode_reply_params::<()>(CMD_GET_IPADDR, 14, rx));
    assert!(matches!(r, Err(Error::BufferTooSmall)));

    let empty = [START_CMD, 0xAD, 0, END_CMD];
    let (r, _) = run(&empty, |rx| decode_reply_params::<()>(0x2D, 4, rx));
    let (n, packed) = r.ok().unwrap();
    assert_eq!(n, 0);
    assert!(packed.is_empty());
}

#[test]
fn decoding_ignores_bytes_after_the_frame() {
    let frame = [START_CMD, 0xA2, 1, 1, 0x42, END_CMD];
    let mut longer = frame.to_vec();
    longer.extend_from_slice(&[1, 2, 3, START_CMD]);
    let a = match decode_reply::<()>(0x22, 8, &frame) {
        RxStep::Done(Ok(p)) => p,
        _ => panic!("incomplete"),
    };
    let b = match decode_reply::<()>(0x22, 8, &longer) {
        RxStep::Done(Ok(p)) => p,
        _ => panic!("incomplete"),
    };
    assert_eq!(a, b);
}

#[test]
fn decoder_asks_for_header_then_payload() {
    assert!(matches!(decode_reply::<()>(0x22, 8, &[]), RxStep::Read(1)));
    assert!(matches!(decode_reply::<()>(0x22, 8, &[START_CMD]), RxStep::Read(3)));
    assert!(matches!(decode_reply::<()>(0x22, 8, &[START_CMD, 0xA2, 1, 6]), RxStep::Read(7)));
    assert!(matches!(decode_reply16::<()>(0x45, 8, &[START_CMD]), RxStep::Read(2)));
    assert!(matches!(decode_reply16::<()>(0x45, 8, &[START_CMD, 0xC5, 1]), RxStep::Read(2)));
}
