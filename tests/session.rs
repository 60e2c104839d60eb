use sane::session::{read_control_reply, write_control_request};
use sane::types::{RELOAD_OPTIONS, SOFT_SELECT};
use sane::{
    close_device, control_option, get_option_descriptors, init, open_device, request_device_list,
    Capabilities, ControlAction, ControlOptionSetInfo, DataFault, Device, Error, Field,
    NoConstraint, NumericalConstraint, OpenResult, OptionDescriptor, OptionUnit, OptionValue,
    Range, Status, Stream, StringListConstraint,
};

fn hex(text: &str) -> Vec<u8> {
    let digits: Vec<u8> = text.bytes().filter(|b| !b.is_ascii_whitespace()).collect();
    digits
        .chunks(2)
        .map(|pair| u8::from_str_radix(std::str::from_utf8(pair).unwrap(), 16).unwrap())
        .collect()
}

fn stream_with(reply: &str) -> Stream {
    let mut stream = Stream::new();
    stream.push_bytes_to_read(&hex(reply));
    stream
}

fn integer_option(size: i32) -> OptionDescriptor {
    OptionDescriptor::Integer {
        name: "resolution".into(),
        title: "Resolution".into(),
        description: "dpi".into(),
        unit: OptionUnit::DPI,
        size,
        capabilities: Capabilities::default(),
        constraint: None,
    }
}

#[test]
fn init_sends_version_and_user() {
    let mut stream = stream_with("00000000 01000003");
    assert_eq!(init(&mut stream, "Foobar"), Ok(0x01000003));
    assert_eq!(stream.pop_bytes_written(), hex("00000000 01000003 00000007 466f6f62617200"));
    assert_eq!(stream.pos, 8);
}

#[test]
fn init_refused_by_server() {
    let mut stream = stream_with("0000000b 01000003");
    assert_eq!(init(&mut stream, "Foobar"), Err(Error::SanedError(Status::AccessDenied)));
    assert_eq!(stream.pos, 4);
}

#[test]
fn device_list_drops_terminator() {
    let mut stream = stream_with(
        "00000000 00000002 00000000 \
         00000006 6e65743a6100 00000003 485000 00000002 5800 00000008 666c617462656400 \
         00000001",
    );
    let devices = request_device_list(&mut stream).unwrap();
    assert_eq!(
        devices,
        vec![Device {
            name: "net:a".into(),
            vendor: "HP".into(),
            model: "X".into(),
            kind: "flatbed".into(),
        }]
    );
    assert_eq!(stream.pop_bytes_written(), hex("00000001"));
    assert_eq!(stream.pos, stream.incoming.len());
}

#[test]
fn device_list_status_failure_reads_nothing_more() {
    let mut stream = stream_with("00000003 00000002");
    assert_eq!(request_device_list(&mut stream), Err(Error::SanedError(Status::DeviceBusy)));
    assert_eq!(stream.pos, 4);
    assert_eq!(stream.pop_bytes_written(), hex("00000001"));
}

#[test]
fn short_reply_keeps_position() {
    let mut stream = stream_with("00000000 00000002");
    assert_eq!(request_device_list(&mut stream), Err(Error::IOError));
    assert_eq!(stream.pos, 0);
    stream.push_bytes_to_read(&hex("00000001 00000001"));
    assert_eq!(request_device_list(&mut stream), Ok(Vec::new()));
    assert_eq!(stream.pos, 16);
}

#[test]
fn device_without_name_is_refused() {
    let mut stream = stream_with("00000000 00000002 00000000 00000000");
    assert_eq!(request_device_list(&mut stream), Err(Error::NoneError));
}

fn device() -> Device {
    Device {
        name: "net:a".into(),
        vendor: "HP".into(),
        model: "X".into(),
        kind: "flatbed".into(),
    }
}

#[test]
fn open_gives_handle() {
    let mut stream = stream_with("00000000 0000002a 00000000");
    assert_eq!(open_device(&device(), &mut stream), Ok(OpenResult::Handle(42)));
    assert_eq!(stream.pop_bytes_written(), hex("00000002 00000006 6e65743a6100"));
}

#[test]
fn open_asks_for_authentication() {
    let mut stream = stream_with("00000000 0000002a 00000004 72657300");
    assert_eq!(
        open_device(&device(), &mut stream),
        Ok(OpenResult::AuthRequired("res".into()))
    );
}

#[test]
fn close_sends_handle() {
    let mut stream = stream_with("00000000");
    assert_eq!(close_device(42, &mut stream), Ok(()));
    assert_eq!(stream.pop_bytes_written(), hex("00000003 0000002a"));
    let mut empty = Stream::new();
    assert_eq!(close_device(1, &mut empty), Err(Error::IOError));
}

#[test]
fn descriptors_are_read() {
    let mut stream = stream_with(
        "00000003 \
         00000000 \
         0000000b 7265736f6c7574696f6e00 00000004 52657300 00000004 64706900 \
         00000001 00000004 00000004 00000085 \
         00000002 00000003 00000000 0000004b 00000000 00000096 00000001 \
         00000000 \
         00000000 00000004 47656f00 00000000 \
         00000005 00000000 00000000 00000000 00000000 \
         00000001",
    );
    let options = get_option_descriptors(7, &mut stream).unwrap();
    assert_eq!(
        options,
        vec![
            Some(OptionDescriptor::Integer {
                name: "resolution".into(),
                title: "Res".into(),
                description: "dpi".into(),
                unit: OptionUnit::DPI,
                size: 4,
                capabilities: Capabilities::from_bits_truncate(5),
                constraint: Some(NumericalConstraint::IntegerList(vec![75, 150])),
            }),
            Some(OptionDescriptor::Group {
                title: "Geo".into(),
                _no_constrainst: NoConstraint,
            }),
        ]
    );
    assert_eq!(options[0].as_ref().unwrap().size(), 4);
    assert_eq!(options[1].as_ref().unwrap().size(), 0);
    assert_eq!(stream.pop_bytes_written(), hex("00000004 00000007"));
    assert_eq!(stream.pos, stream.incoming.len());
}

const HEADER: &str = "00000002 6100 00000002 6200 00000002 6300";

fn descriptor(rest: &str) -> Result<(OptionDescriptor, usize), Error> {
    let bytes = hex(&format!("{} {}", HEADER, rest));
    OptionDescriptor::try_from_stream(&bytes, 0)
}

#[test]
fn string_descriptor_with_list() {
    let (d, _) = descriptor(
        "00000003 00000000 00000020 00000001 \
         00000003 00000003 00000006 436f6c6f7200 00000005 4772617900 00000000",
    )
    .unwrap();
    assert_eq!(
        d,
        OptionDescriptor::String {
            name: "a".into(),
            title: "b".into(),
            description: "c".into(),
            unit: OptionUnit::Unitless,
            max_length: 32,
            capabilities: Capabilities::from_bits_truncate(SOFT_SELECT),
            constraint: Some(StringListConstraint(vec!["Color".into(), "Gray".into()])),
        }
    );
    assert_eq!(d.size(), 32);
}

#[test]
fn fixed_descriptor_with_range() {
    let (d, _) = descriptor(
        "00000002 00000003 00000004 00000000 \
         00000001 00000000 00000000 00000010 00000001",
    )
    .unwrap();
    assert_eq!(
        d,
        OptionDescriptor::Fixed {
            name: "a".into(),
            title: "b".into(),
            description: "c".into(),
            unit: OptionUnit::Millimeter,
            size: 4,
            capabilities: Capabilities::default(),
            constraint: Some(NumericalConstraint::Range(Some(Range { min: 0, max: 16, quant: 1 }))),
        }
    );
}

#[test]
fn boolean_descriptor_size_is_four() {
    let (d, _) = descriptor("00000000 00000000 00000063 00000000 00000000").unwrap();
    assert_eq!(d.size(), 4);
    let (b, _) = descriptor("00000004 00000000 00000063 00000000 00000000").unwrap();
    assert_eq!(b.size(), 0);
}

#[test]
fn boolean_descriptor_with_constraint_is_refused() {
    assert_eq!(
        descriptor("00000000 00000000 00000004 00000000 00000001"),
        Err(Error::InvalidSaneFieldValue(Field::NoConstraint, 1))
    );
    assert_eq!(
        descriptor("00000004 00000000 00000000 00000000 00000003"),
        Err(Error::InvalidSaneFieldValue(Field::NoConstraint, 3))
    );
    assert_eq!(
        descriptor("00000005 00000000 00000000 00000000 00000002"),
        Err(Error::InvalidSaneFieldValue(Field::NoConstraint, 2))
    );
}

#[test]
fn invalid_tags_are_refused() {
    assert_eq!(descriptor("00000009"), Err(Error::InvalidSaneFieldValue(Field::ValueType, 9)));
    assert_eq!(
        descriptor("00000001 00000007"),
        Err(Error::InvalidSaneFieldValue(Field::Unit, 7))
    );
    assert_eq!(
        descriptor("00000001 00000000 00000004 00000000 00000004"),
        Err(Error::InvalidSaneFieldValue(Field::NumericConstraint, 4))
    );
    assert_eq!(
        descriptor("00000003 00000000 00000004 00000000 00000001"),
        Err(Error::InvalidSaneFieldValue(Field::StringConstraint, 1))
    );
}

#[test]
fn descriptor_missing_name_is_refused() {
    let bytes = hex(
        "00000000 00000002 6200 00000002 6300 00000001 00000000 00000004 00000000 00000000",
    );
    assert_eq!(OptionDescriptor::try_from_stream(&bytes, 0), Err(Error::NoneError));
}

#[test]
fn control_set_sends_value() {
    let mut out: Vec<u8> = Vec::new();
    write_control_request(&mut out, 3, 2, ControlAction::SetValue, &integer_option(4), &Some(25i32));
    assert_eq!(
        out,
        hex("00000005 00000003 00000002 00000001 00000001 00000004 00000000 00000019")
    );
}

#[test]
fn control_size_mismatch_is_refused() {
    let bytes = hex("00000000 00000000 00000001 00000008 00000001 00000019 00000000");
    assert_eq!(
        read_control_reply(&integer_option(4), &bytes, 0),
        Err(Error::BadNetworkDataError(DataFault::SizeMismatch))
    );
    let (r, _) = read_control_reply(&integer_option(8), &bytes, 0).unwrap();
    assert_eq!(r.value, Some(OptionValue::Integer(25)));
}

#[test]
fn control_null_value() {
    let bytes = hex("00000000 00000007 00000001 00000004 00000000 00000000");
    let (r, pos) = read_control_reply(&integer_option(4), &bytes, 0).unwrap();
    assert_eq!(r.value, None);
    assert_eq!(r.info, ControlOptionSetInfo::from_bits_truncate(7));
    assert!(r.info.contains(RELOAD_OPTIONS));
    assert_eq!(pos, bytes.len());
}

#[test]
fn control_string_and_boolean_values() {
    let text = OptionDescriptor::String {
        name: "mode".into(),
        title: "Mode".into(),
        description: "".into(),
        unit: OptionUnit::Unitless,
        max_length: 8,
        capabilities: Capabilities::default(),
        constraint: None,
    };
    let bytes = hex("00000000 00000000 00000003 00000008 00000001 00000005 4772617900 00000000");
    let (r, _) = read_control_reply(&text, &bytes, 0).unwrap();
    assert_eq!(r.value, Some(OptionValue::String(Some("Gray".into()))));

    let flag = OptionDescriptor::Boolean {
        name: "preview".into(),
        title: "Preview".into(),
        description: "".into(),
        unit: OptionUnit::Unitless,
        capabilities: Capabilities::default(),
        _no_constrainst: NoConstraint,
    };
    let bytes = hex("00000000 00000000 00000000 00000004 00000001 00000002 00000000");
    let (r, _) = read_control_reply(&flag, &bytes, 0).unwrap();
    assert_eq!(r.value, Some(OptionValue::Boolean(false)));
}

#[test]
fn control_resource_is_unhandled() {
    let mut stream =
        stream_with("00000000 00000000 00000001 00000004 00000001 00000019 00000003 616200");
    assert_eq!(
        control_option::<i32>(&mut stream, 0, 0, ControlAction::Get, &integer_option(4), None),
        Err(Error::BadNetworkDataError(DataFault::UnhandledResource))
    );
}

#[test]
fn control_failed_status() {
    let mut stream = stream_with("00000004 00000000 00000001");
    assert_eq!(
        control_option::<i32>(&mut stream, 0, 0, ControlAction::Get, &integer_option(4), None),
        Err(Error::SanedError(Status::Invalid))
    );
    assert_eq!(stream.pos, 4);
}
