//! The request and reply of each operation, and the operations on a stream.
use vstd::prelude::*;

use crate::codec::{
    parse_array, parse_string, read_array, read_string, string_wire, too_long, write_string,
    WriteToStream,
};
use crate::device::{Device, DeviceView};
use crate::error::{DataFault, Error, Field};
use crate::status::{status_of_code, Status};
use crate::types::{
    keep_present, parse_value, present, value_type_code, view_size, view_type,
    ControlOptionResult, ControlOptionResultView, DescriptorView, OptionDescriptor,
};
use crate::wire::{
    agrees, agrees_deep, i32_bytes, parse_i32, parse_u32, read_i32, read_u32, word_bytes, write_i32,
    write_u32,
};

verus! {

/// The protocol version that this client speaks, 1.0.3: major, minor and
/// build in one word.
pub const SANE_VERSION: u32 = 0x01000003;

pub const CMD_INIT: i32 = 0;

pub const CMD_GET_DEVICES: i32 = 1;

pub const CMD_OPEN: i32 = 2;

pub const CMD_CLOSE: i32 = 3;

pub const CMD_GET_OPTION_DESCRIPTORS: i32 = 4;

pub const CMD_CONTROL_OPTION: i32 = 5;

/// One connection to a server, as bytes: what has been received, how far the
/// replies have been read, and what is to be sent.
pub struct Stream {
    pub incoming: Vec<u8>,
    pub pos: usize,
    pub outgoing: Vec<u8>,
}

impl Stream {
    pub fn new() -> (r: Stream)
        ensures
            r.incoming@ == Seq::<u8>::empty(),
            r.pos == 0,
            r.outgoing@ == Seq::<u8>::empty(),
    {
        Stream { incoming: Vec::new(), pos: 0, outgoing: Vec::new() }
    }

    /// Appends bytes received from the server.
    pub fn push_bytes_to_read(&mut self, bytes: &[u8])
        ensures
            final(self).incoming@ == old(self).incoming@ + bytes@,
            final(self).pos == old(self).pos,
            final(self).outgoing@ == old(self).outgoing@,
    {
        let mut i: usize = 0;
        while i < bytes.len()
            invariant
                i <= bytes@.len(),
                self.incoming@ == old(self).incoming@ + bytes@.subrange(0, i as int),
                self.pos == old(self).pos,
                self.outgoing@ == old(self).outgoing@,
            decreases bytes@.len() - i,
        {
            self.incoming.push(bytes[i]);
            i = i + 1;
            assert(self.incoming@ =~= old(self).incoming@ + bytes@.subrange(0, i as int));
        }
        assert(bytes@.subrange(0, i as int) =~= bytes@);
    }

    /// Takes the bytes that wait to be sent.
    pub fn pop_bytes_written(&mut self) -> (r: Vec<u8>)
        ensures
            r@ == old(self).outgoing@,
            final(self).outgoing@ == Seq::<u8>::empty(),
            final(self).incoming@ == old(self).incoming@,
            final(self).pos == old(self).pos,
    {
        let mut r: Vec<u8> = Vec::new();
        r.append(&mut self.outgoing);
        r
    }

    /// Moves the read position as the outcome of reading a reply asks: past
    /// the reply on success, past the status word alone on a status other
    /// than success, nowhere on any other failure.
    pub fn settle<A>(&mut self, r: Result<(A, usize), Error>) -> (out: Result<A, Error>)
        requires
            r matches Err(Error::SanedError(_)) ==> old(self).pos + 4 <= old(self).incoming@.len(),
        ensures
            final(self).outgoing@ == old(self).outgoing@,
            final(self).incoming@ == old(self).incoming@,
            match r {
                Ok((v, q)) => out == Ok::<A, Error>(v) && final(self).pos == q,
                Err(e) => out == Err::<A, Error>(e) && final(self).pos as int == pos_after_error(
                    old(self).pos,
                    e,
                ),
            },
    {
        match r {
            Ok((v, q)) => {
                self.pos = q;
                Ok(v)
            },
            Err(e) => {
                if let Error::SanedError(_) = e {
                    let received = self.incoming.len();
                    assert(self.pos + 4 <= received);
                    self.pos = self.pos + 4;
                }
                Err(e)
            },
        }
    }

    fn send(&mut self, bytes: Vec<u8>)
        ensures
            final(self).outgoing@ == old(self).outgoing@ + bytes@,
            final(self).incoming@ == old(self).incoming@,
            final(self).pos == old(self).pos,
    {
        let mut bytes = bytes;
        self.outgoing.append(&mut bytes);
    }
}

/// What a control request asks of an option.
#[derive(Debug, Clone, Copy, PartialEq, Eq, Structural)]
pub enum ControlAction {
    Get,
    SetValue,
    SetAutomatic,
}

pub open spec fn action_code(a: ControlAction) -> i32 {
    match a {
        ControlAction::Get => 0,
        ControlAction::SetValue => 1,
        ControlAction::SetAutomatic => 2,
    }
}

impl ControlAction {
    pub fn code(&self) -> (r: i32)
        ensures
            r == action_code(*self),
    {
        match self {
            ControlAction::Get => 0,
            ControlAction::SetValue => 1,
            ControlAction::SetAutomatic => 2,
        }
    }
}

/// The outcome of opening a device.
#[derive(Debug, Clone, PartialEq, Eq)]
pub enum OpenResult {
    /// The device is open under this handle.
    Handle(i32),
    /// The device asks for authentication on this resource.
    AuthRequired(String),
}

pub enum OpenResultView {
    Handle(i32),
    AuthRequired(Seq<char>),
}

impl DeepView for OpenResult {
    type V = OpenResultView;

    open spec fn deep_view(&self) -> OpenResultView {
        match self {
            OpenResult::Handle(h) => OpenResultView::Handle(*h),
            OpenResult::AuthRequired(r) => OpenResultView::AuthRequired(r@),
        }
    }
}

/// A status word, mapped to its status; an unknown code is an invalid field.
pub open spec fn parse_status(s: Seq<u8>, p: int) -> Result<(Status, int), Error> {
    match parse_i32(s, p) {
        Err(e) => Err(e),
        Ok((c, q)) => match status_of_code(c) {
            None => Err(Error::InvalidSaneFieldValue(Field::Status, c)),
            Some(st) => Ok((st, q)),
        },
    }
}

/// A status word that must be success; another status is that status's error.
pub open spec fn parse_success(s: Seq<u8>, p: int) -> Result<((), int), Error> {
    match parse_status(s, p) {
        Err(e) => Err(e),
        Ok((Status::Success, q)) => Ok(((), q)),
        Ok((st, _)) => Err(Error::SanedError(st)),
    }
}

/// Reads a status word and maps it to its status.
pub fn read_status(s: &Vec<u8>, p: usize) -> (r: Result<(Status, usize), Error>)
    ensures
        agrees(r, parse_status(s@, p as int)),
{
    let (c, q) = match read_i32(s, p) {
        Ok(x) => x,
        Err(e) => return Err(e),
    };
    match Status::from_code(c) {
        Some(st) => Ok((st, q)),
        None => Err(Error::InvalidSaneFieldValue(Field::Status, c)),
    }
}

/// Reads a status word and fails unless it is success.
pub fn check_success_status(s: &Vec<u8>, p: usize) -> (r: Result<((), usize), Error>)
    ensures
        agrees_deep(r, parse_success(s@, p as int)),
{
    match read_status(s, p) {
        Err(e) => Err(e),
        Ok((Status::Success, q)) => Ok(((), q)),
        Ok((st, _)) => Err(Error::SanedError(st)),
    }
}

/// Where the read position stands after a reply failed with `e` at `pos`: a
/// status other than success consumes its status word and nothing more; any
/// other failure, a short read among them, leaves the position where it was,
/// so that the reply can be read again once more bytes have arrived.
pub open spec fn pos_after_error(pos: usize, e: Error) -> int {
    if e is SanedError {
        pos + 4
    } else {
        pos as int
    }
}

/// An exchange on a stream: the request was queued, the received bytes are
/// kept, and the result is the reply read at the old position, which moves
/// past the reply when it was read whole, and past the status word alone when
/// that status was not success.
pub open spec fn exchanged<A: DeepView>(
    before: Stream,
    after: Stream,
    request: Seq<u8>,
    r: Result<A, Error>,
    reply: Result<(A::V, int), Error>,
) -> bool {
    &&& after.outgoing@ == before.outgoing@ + request
    &&& after.incoming@ == before.incoming@
    &&& match reply {
        Ok((v, q)) => r is Ok && r->Ok_0.deep_view() == v && after.pos as int == q,
        Err(e) => r == Err::<A, Error>(e) && after.pos as int == pos_after_error(before.pos, e),
    }
}

/// A request that could not be encoded leaves the stream as it was.
pub open spec fn refused<A>(before: Stream, after: Stream, r: Result<A, Error>) -> bool {
    &&& r == Err::<A, Error>(Error::BadNetworkDataError(DataFault::StringTooLong))
    &&& after.outgoing@ == before.outgoing@
    &&& after.incoming@ == before.incoming@
    &&& after.pos == before.pos
}

// ---- init ----

pub open spec fn init_request(user: Seq<char>) -> Seq<u8> {
    i32_bytes(CMD_INIT) + word_bytes(SANE_VERSION) + string_wire(user)
}

/// The reply to the handshake: a success status and the server's version.
pub open spec fn init_reply(s: Seq<u8>, p: int) -> Result<(u32, int), Error> {
    match parse_success(s, p) {
        Err(e) => Err(e),
        Ok((_, q)) => parse_u32(s, q),
    }
}

pub fn write_init_request(out: &mut Vec<u8>, user: &str) -> (r: Result<(), Error>)
    ensures
        r is Err <==> too_long(user@),
        r is Err ==> final(out)@ == old(out)@ && r == Err::<(), Error>(
            Error::BadNetworkDataError(DataFault::StringTooLong),
        ),
        r is Ok ==> final(out)@ == old(out)@ + init_request(user@),
{
    let mut req: Vec<u8> = Vec::new();
    write_i32(&mut req, CMD_INIT);
    write_u32(&mut req, SANE_VERSION);
    match write_string(&mut req, user) {
        Err(e) => Err(e),
        Ok(()) => {
            assert(req@ =~= init_request(user@));
            out.append(&mut req);
            Ok(())
        },
    }
}

pub fn read_init_reply(s: &Vec<u8>, p: usize) -> (r: Result<(u32, usize), Error>)
    ensures
        agrees_deep(r, init_reply(s@, p as int)),
{
    let (_, q) = match check_success_status(s, p) {
        Ok(x) => x,
        Err(e) => return Err(e),
    };
    read_u32(s, q)
}

/// Opens a session: sends the protocol version and the caller's name, and
/// returns the server's version.
pub fn init(stream: &mut Stream, user: &str) -> (r: Result<u32, Error>)
    ensures
        too_long(user@) ==> refused(*old(stream), *final(stream), r),
        !too_long(user@) ==> exchanged(
            *old(stream),
            *final(stream),
            init_request(user@),
            r,
            init_reply(old(stream).incoming@, old(stream).pos as int),
        ),
{
    let mut req: Vec<u8> = Vec::new();
    if let Err(e) = write_init_request(&mut req, user) {
        return Err(e);
    }
    stream.send(req);
    let reply = read_init_reply(&stream.incoming, stream.pos);
    stream.settle(reply)
}

// ---- device list ----

pub open spec fn device_list_request() -> Seq<u8> {
    i32_bytes(CMD_GET_DEVICES)
}

/// The reply to a device list request: a success status, then an array of
/// devices, of which the absent ones are dropped.
pub open spec fn device_list_reply(s: Seq<u8>, p: int) -> Result<(Seq<DeviceView>, int), Error> {
    match parse_success(s, p) {
        Err(e) => Err(e),
        Ok((_, q)) => match parse_array::<Device>(s, q) {
            Err(e) => Err(e),
            Ok((xs, k)) => Ok((present(xs), k)),
        },
    }
}

pub fn write_device_list_request(out: &mut Vec<u8>)
    ensures
        final(out)@ == old(out)@ + device_list_request(),
{
    write_i32(out, CMD_GET_DEVICES);
}

pub fn read_device_list_reply(s: &Vec<u8>, p: usize) -> (r: Result<(Vec<Device>, usize), Error>)
    ensures
        agrees_deep(r, device_list_reply(s@, p as int)),
{
    let (_, q) = match check_success_status(s, p) {
        Ok(x) => x,
        Err(e) => return Err(e),
    };
    match read_array::<Device>(s, q) {
        Err(e) => Err(e),
        Ok((xs, k)) => Ok((keep_present(xs), k)),
    }
}

/// Asks the server for its devices.
pub fn request_device_list(stream: &mut Stream) -> (r: Result<Vec<Device>, Error>)
    ensures
        exchanged(
            *old(stream),
            *final(stream),
            device_list_request(),
            r,
            device_list_reply(old(stream).incoming@, old(stream).pos as int),
        ),
{
    let mut req: Vec<u8> = Vec::new();
    write_device_list_request(&mut req);
    stream.send(req);
    let reply = read_device_list_reply(&stream.incoming, stream.pos);
    stream.settle(reply)
}

// ---- open ----

pub open spec fn open_request(name: Seq<char>) -> Seq<u8> {
    i32_bytes(CMD_OPEN) + string_wire(name)
}

/// The reply to an open request: a success status, a handle, and a resource
/// string under the length convention; a resource means that authentication
/// is asked for.
pub open spec fn open_reply(s: Seq<u8>, p: int) -> Result<(OpenResultView, int), Error> {
    match parse_success(s, p) {
        Err(e) => Err(e),
        Ok((_, q)) => match parse_i32(s, q) {
            Err(e) => Err(e),
            Ok((handle, k)) => match parse_string(s, k) {
                Err(e) => Err(e),
                Ok((None, j)) => Ok((OpenResultView::Handle(handle), j)),
                Ok((Some(resource), j)) => Ok((OpenResultView::AuthRequired(resource), j)),
            },
        },
    }
}

pub fn write_open_request(out: &mut Vec<u8>, name: &str) -> (r: Result<(), Error>)
    ensures
        r is Err <==> too_long(name@),
        r is Err ==> final(out)@ == old(out)@ && r == Err::<(), Error>(
            Error::BadNetworkDataError(DataFault::StringTooLong),
        ),
        r is Ok ==> final(out)@ == old(out)@ + open_request(name@),
{
    let mut req: Vec<u8> = Vec::new();
    write_i32(&mut req, CMD_OPEN);
    match write_string(&mut req, name) {
        Err(e) => Err(e),
        Ok(()) => {
            assert(req@ =~= open_request(name@));
            out.append(&mut req);
            Ok(())
        },
    }
}

pub fn read_open_reply(s: &Vec<u8>, p: usize) -> (r: Result<(OpenResult, usize), Error>)
    ensures
        agrees_deep(r, open_reply(s@, p as int)),
{
    let (_, q) = match check_success_status(s, p) {
        Ok(x) => x,
        Err(e) => return Err(e),
    };
    let (handle, k) = match read_i32(s, q) {
        Ok(x) => x,
        Err(e) => return Err(e),
    };
    match read_string(s, k) {
        Err(e) => Err(e),
        Ok((None, j)) => Ok((OpenResult::Handle(handle), j)),
        Ok((Some(resource), j)) => Ok((OpenResult::AuthRequired(resource), j)),
    }
}

/// Opens a device by its name.
pub fn open_device(device: &Device, stream: &mut Stream) -> (r: Result<OpenResult, Error>)
    ensures
        too_long(device.name@) ==> refused(*old(stream), *final(stream), r),
        !too_long(device.name@) ==> exchanged(
            *old(stream),
            *final(stream),
            open_request(device.name@),
            r,
            open_reply(old(stream).incoming@, old(stream).pos as int),
        ),
{
    let mut req: Vec<u8> = Vec::new();
    if let Err(e) = write_open_request(&mut req, device.name.as_str()) {
        return Err(e);
    }
    stream.send(req);
    let reply = read_open_reply(&stream.incoming, stream.pos);
    stream.settle(reply)
}

// ---- close ----

pub open spec fn close_request(handle: i32) -> Seq<u8> {
    i32_bytes(CMD_CLOSE) + i32_bytes(handle)
}

/// The reply to a close request: one word, whose value means nothing.
pub open spec fn close_reply(s: Seq<u8>, p: int) -> Result<((), int), Error> {
    match parse_i32(s, p) {
        Err(e) => Err(e),
        Ok((_, q)) => Ok(((), q)),
    }
}

pub fn write_close_request(out: &mut Vec<u8>, handle: i32)
    ensures
        final(out)@ == old(out)@ + close_request(handle),
{
    write_i32(out, CMD_CLOSE);
    write_i32(out, handle);
    assert(final(out)@ =~= old(out)@ + close_request(handle));
}

pub fn read_close_reply(s: &Vec<u8>, p: usize) -> (r: Result<((), usize), Error>)
    ensures
        agrees_deep(r, close_reply(s@, p as int)),
{
    match read_i32(s, p) {
        Err(e) => Err(e),
        Ok((_, q)) => Ok(((), q)),
    }
}

/// Closes the device of a handle.
pub fn close_device(handle: i32, stream: &mut Stream) -> (r: Result<(), Error>)
    ensures
        exchanged(
            *old(stream),
            *final(stream),
            close_request(handle),
            r,
            close_reply(old(stream).incoming@, old(stream).pos as int),
        ),
{
    let mut req: Vec<u8> = Vec::new();
    write_close_request(&mut req, handle);
    stream.send(req);
    let reply = read_close_reply(&stream.incoming, stream.pos);
    stream.settle(reply)
}

// ---- option descriptors ----

pub open spec fn option_descriptors_request(handle: i32) -> Seq<u8> {
    i32_bytes(CMD_GET_OPTION_DESCRIPTORS) + i32_bytes(handle)
}

/// The reply to a descriptor request: an array of descriptors, with no status.
pub open spec fn option_descriptors_reply(s: Seq<u8>, p: int) -> Result<
    (Seq<Option<DescriptorView>>, int),
    Error,
> {
    parse_array::<OptionDescriptor>(s, p)
}

pub fn write_option_descriptors_request(out: &mut Vec<u8>, handle: i32)
    ensures
        final(out)@ == old(out)@ + option_descriptors_request(handle),
{
    write_i32(out, CMD_GET_OPTION_DESCRIPTORS);
    write_i32(out, handle);
    assert(final(out)@ =~= old(out)@ + option_descriptors_request(handle));
}

pub fn read_option_descriptors_reply(s: &Vec<u8>, p: usize) -> (r: Result<
    (Vec<Option<OptionDescriptor>>, usize),
    Error,
>)
    ensures
        agrees_deep(r, option_descriptors_reply(s@, p as int)),
{
    read_array::<OptionDescriptor>(s, p)
}

/// Reads the descriptors of the options of an open device.
pub fn get_option_descriptors(handle: i32, stream: &mut Stream) -> (r: Result<
    Vec<Option<OptionDescriptor>>,
    Error,
>)
    ensures
        exchanged(
            *old(stream),
            *final(stream),
            option_descriptors_request(handle),
            r,
            option_descriptors_reply(old(stream).incoming@, old(stream).pos as int),
        ),
{
    let mut req: Vec<u8> = Vec::new();
    write_option_descriptors_request(&mut req, handle);
    stream.send(req);
    let reply = read_option_descriptors_reply(&stream.incoming, stream.pos);
    stream.settle(reply)
}

// ---- control ----

/// A value sent in a control request: its pointer-convention tag, then the
/// value itself when there is one.
pub open spec fn pointer_wire<V: WriteToStream>(value: Option<V>) -> Seq<u8> {
    value.wire() + match value {
        Some(v) => v.wire(),
        None => Seq::<u8>::empty(),
    }
}

/// A control request: the handle, the option's index, the action, the type
/// and size that the descriptor gives, and the value.
pub open spec fn control_request<V: WriteToStream>(
    handle: i32,
    option: u32,
    action: ControlAction,
    d: DescriptorView,
    value: Option<V>,
) -> Seq<u8> {
    i32_bytes(CMD_CONTROL_OPTION) + i32_bytes(handle) + word_bytes(option) + i32_bytes(
        action_code(action),
    ) + i32_bytes(value_type_code(view_type(d))) + i32_bytes(view_size(d)) + pointer_wire(value)
}

/// The reply to a control request: a success status, the value, and a
/// resource string that must be absent.
pub open spec fn control_reply(d: DescriptorView, s: Seq<u8>, p: int) -> Result<
    (ControlOptionResultView, int),
    Error,
> {
    match parse_success(s, p) {
        Err(e) => Err(e),
        Ok((_, q)) => match parse_value(d, s, q) {
            Err(e) => Err(e),
            Ok((v, k)) => match parse_string(s, k) {
                Err(e) => Err(e),
                Ok((None, j)) => Ok((v, j)),
                Ok((Some(_), _)) => Err(Error::BadNetworkDataError(DataFault::UnhandledResource)),
            },
        },
    }
}

pub fn write_control_request<V: WriteToStream>(
    out: &mut Vec<u8>,
    handle: i32,
    option: u32,
    action: ControlAction,
    kind: &OptionDescriptor,
    value: &Option<V>,
)
    ensures
        final(out)@ == old(out)@ + control_request(handle, option, action, kind.deep_view(), *value),
{
    let mut req: Vec<u8> = Vec::new();
    write_i32(&mut req, CMD_CONTROL_OPTION);
    write_i32(&mut req, handle);
    write_u32(&mut req, option);
    write_i32(&mut req, action.code());
    write_i32(&mut req, kind.value_type().code());
    write_i32(&mut req, kind.size());
    value.write_to(&mut req);
    match value {
        Some(v) => v.write_to(&mut req),
        None => {},
    }
    assert(req@ =~= control_request(handle, option, action, kind.deep_view(), *value));
    out.append(&mut req);
}

pub fn read_control_reply(kind: &OptionDescriptor, s: &Vec<u8>, p: usize) -> (r: Result<
    (ControlOptionResult, usize),
    Error,
>)
    ensures
        agrees_deep(r, control_reply(kind.deep_view(), s@, p as int)),
{
    let (_, q) = match check_success_status(s, p) {
        Ok(x) => x,
        Err(e) => return Err(e),
    };
    let (v, k) = match kind.read_value(s, q) {
        Ok(x) => x,
        Err(e) => return Err(e),
    };
    match read_string(s, k) {
        Err(e) => Err(e),
        Ok((None, j)) => Ok((v, j)),
        Ok((Some(_), _)) => Err(Error::BadNetworkDataError(DataFault::UnhandledResource)),
    }
}

/// Gets or sets the value of an option of an open device.
pub fn control_option<V: WriteToStream>(
    stream: &mut Stream,
    handle: i32,
    option: u32,
    action: ControlAction,
    kind: &OptionDescriptor,
    value: Option<V>,
) -> (r: Result<ControlOptionResult, Error>)
    ensures
        exchanged(
            *old(stream),
            *final(stream),
            control_request(handle, option, action, kind.deep_view(), value),
            r,
            control_reply(kind.deep_view(), old(stream).incoming@, old(stream).pos as int),
        ),
{
    let mut req: Vec<u8> = Vec::new();
    write_control_request(&mut req, handle, option, action, kind, &value);
    stream.send(req);
    let reply = read_control_reply(kind, &stream.incoming, stream.pos);
    stream.settle(reply)
}

} // verus!
