use sane::codec::{read_array, read_string, write_string};
use sane::session::{read_status, Stream};
use sane::status::Status;
use sane::types::{ADVANCED, INEXACT, RELOAD_PARAMS, SOFT_DETECT, SOFT_SELECT};
use sane::wire::{read_bool, read_i32, read_u32, read_u8};
use sane::{
    Capabilities, ControlOptionSetInfo, DataFault, Error, Field, Pointer, WriteToStream,
};

fn hex(text: &str) -> Vec<u8> {
    let digits: Vec<u8> = text.bytes().filter(|b| !b.is_ascii_whitespace()).collect();
    digits
        .chunks(2)
        .map(|pair| u8::from_str_radix(std::str::from_utf8(pair).unwrap(), 16).unwrap())
        .collect()
}

#[test]
fn words_are_big_endian() {
    let bytes = hex("01000003 fffffffe");
    assert_eq!(read_u32(&bytes, 0), Ok((0x01000003, 4)));
    assert_eq!(read_i32(&bytes, 4), Ok((-2, 8)));
    assert_eq!(read_u8(&bytes, 3), Ok((3, 4)));
    let mut out: Vec<u8> = Vec::new();
    (-2i32).write_to(&mut out);
    7u8.write_to(&mut out);
    assert_eq!(out, hex("fffffffe 07"));
}

#[test]
fn short_word_is_io_error() {
    assert_eq!(read_i32(&hex("000000"), 0), Err(Error::IOError));
    assert_eq!(read_u8(&hex(""), 0), Err(Error::IOError));
}

#[test]
fn bool_is_true_only_for_one() {
    assert_eq!(read_bool(&hex("00000001"), 0), Ok((true, 4)));
    assert_eq!(read_bool(&hex("00000002"), 0), Ok((false, 4)));
    assert_eq!(read_bool(&hex("00000000"), 0), Ok((false, 4)));
}

#[test]
fn string_round_trip() {
    for text in ["", "Color", "Grüße", "net:192.168.1.2:hpaio"] {
        let mut out: Vec<u8> = Vec::new();
        assert_eq!(write_string(&mut out, text), Ok(()));
        let (value, pos) = read_string(&out, 0).unwrap();
        assert_eq!(value, Some(text.to_string()));
        assert_eq!(pos, out.len());
    }
}

#[test]
fn string_encoding_counts_the_nul() {
    let mut out: Vec<u8> = Vec::new();
    write_string(&mut out, "Grüße").unwrap();
    assert_eq!(out, hex("00000008 4772c3bcc39f65 00"));
}

#[test]
fn string_with_zero_or_negative_length_is_absent() {
    assert_eq!(read_string(&hex("00000000 41424300"), 0), Ok((None, 4)));
    assert_eq!(read_string(&hex("ffffffff 41424300"), 0), Ok((None, 4)));
}

#[test]
fn string_stops_at_first_nul() {
    let bytes = hex("0000000a 616200 63636363636363");
    assert_eq!(read_string(&bytes, 0), Ok((Some("ab".to_string()), 7)));
}

#[test]
fn string_without_nul_takes_its_length() {
    let bytes = hex("00000002 6162 6364");
    assert_eq!(read_string(&bytes, 0), Ok((Some("ab".to_string()), 6)));
}

#[test]
fn string_invalid_utf8_is_refused() {
    assert_eq!(read_string(&hex("00000002 ff00"), 0), Err(Error::FromUtf8Error));
}

#[test]
fn string_cut_short_is_io_error() {
    assert_eq!(read_string(&hex("00000005 4142"), 0), Err(Error::IOError));
}

#[test]
fn absent_option_round_trip() {
    let mut out: Vec<u8> = Vec::new();
    None::<i32>.write_to(&mut out);
    assert_eq!(out, hex("00000001 00000000"));
    out.extend_from_slice(&hex("00000001 00000000"));
    let (slots, _) = read_array::<i32>(&out, 4).unwrap();
    assert_eq!(slots, Vec::<Option<i32>>::new());
}

#[test]
fn present_option_writes_only_its_tag() {
    let mut out: Vec<u8> = Vec::new();
    Some(25i32).write_to(&mut out);
    assert_eq!(out, hex("00000000"));
}

#[test]
fn array_of_words_under_pointer_convention() {
    let bytes = hex("00000003 00000000 0000004b 00000000 00000096 00000001");
    let (slots, pos) = read_array::<i32>(&bytes, 0).unwrap();
    assert_eq!(slots, vec![Some(75), Some(150)]);
    assert_eq!(pos, bytes.len());
}

#[test]
fn array_keeps_absent_slots_before_terminator() {
    let bytes = hex("00000003 00000000 ffffffff 00000000");
    let (slots, _) = read_array::<String>(&bytes, 0).unwrap();
    assert_eq!(slots, vec![None, None]);
}

#[test]
fn array_without_terminator_is_refused() {
    let bytes = hex("00000001 00000002 6100");
    assert_eq!(
        read_array::<String>(&bytes, 0),
        Err(Error::BadNetworkDataError(DataFault::MissingTerminator))
    );
    let words = hex("00000002 00000000 00000001 00000000 00000002");
    assert_eq!(
        read_array::<i32>(&words, 0),
        Err(Error::BadNetworkDataError(DataFault::MissingTerminator))
    );
}

#[test]
fn array_with_count_zero_or_less_is_empty() {
    assert_eq!(read_array::<i32>(&hex("00000000"), 0), Ok((Vec::new(), 4)));
    assert_eq!(read_array::<i32>(&hex("ffffffff"), 0), Ok((Vec::new(), 4)));
}

#[test]
fn array_only_terminator_is_empty() {
    assert_eq!(read_array::<String>(&hex("00000001 00000000"), 0), Ok((Vec::new(), 8)));
}

#[test]
fn status_codes_map_one_to_one() {
    let all = [
        Status::Success,
        Status::Unsupported,
        Status::Canceled,
        Status::DeviceBusy,
        Status::Invalid,
        Status::EndOfFile,
        Status::Jammed,
        Status::NoDocuments,
        Status::CoverOpen,
        Status::IOError,
        Status::OutOfMemory,
        Status::AccessDenied,
    ];
    for (i, status) in all.iter().enumerate() {
        assert_eq!(Status::from_code(i as i32), Some(*status));
        assert_eq!(status.code(), i as i32);
    }
    assert_eq!(Status::from_code(12), None);
    assert_eq!(Status::from_code(-1), None);
}

#[test]
fn unknown_status_is_refused() {
    assert_eq!(
        read_status(&hex("0000000c"), 0),
        Err(Error::InvalidSaneFieldValue(Field::Status, 12))
    );
    assert_eq!(read_status(&hex("0000000b"), 0), Ok((Status::AccessDenied, 4)));
}

#[test]
fn capability_bits_are_truncated() {
    let caps = Capabilities::from_bits_truncate(0xff);
    assert_eq!(caps.bits(), 0x7f);
    assert!(caps.contains(SOFT_SELECT | SOFT_DETECT | ADVANCED));
    let some = Capabilities::from_bits_truncate(0x85);
    assert_eq!(some.bits(), 0x05);
    assert!(!some.contains(ADVANCED));
    assert_eq!(Capabilities::default().bits(), 0);
}

#[test]
fn set_info_bits_are_truncated() {
    let info = ControlOptionSetInfo::from_bits_truncate(0xf5);
    assert_eq!(info.bits(), 0x05);
    assert!(info.contains(INEXACT | RELOAD_PARAMS));
    assert_eq!(ControlOptionSetInfo::default().bits(), 0);
}

#[test]
fn pointer_map_or() {
    let x = Pointer::Value("foo");
    assert_eq!(x.map_or(42, |v| v.len()), 3);
    let y: Pointer<&str> = Pointer::Null;
    assert_eq!(y.map_or(42, |v| v.len()), 42);
}

#[test]
fn stream_keeps_what_was_pushed() {
    let mut stream = Stream::new();
    stream.push_bytes_to_read(&[1, 2]);
    stream.push_bytes_to_read(&[3]);
    assert_eq!(stream.incoming, vec![1, 2, 3]);
    assert_eq!(stream.pos, 0);
    assert_eq!(stream.pop_bytes_written(), Vec::<u8>::new());
}
