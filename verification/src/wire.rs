//! The requests that open a stream, and their bytes.
//!
//! A request is one command byte followed by the command's text fields. A field
//! is the length of its UTF-8 bytes, as two bytes with the high one first, and
//! then these bytes.

use vstd::prelude::*;
use vstd::utf8::*;
use crate::text::strict_text;
#[allow(unused_imports)]
use crate::text::utf8_refusal;

verus! {

/// What the peer is asked to do with a stream.
#[derive(Debug, Clone, Copy, PartialEq, Eq, Structural)]
pub enum Command {
    /// Connect to an address and relay the stream to it.
    Forward,
    /// Listen on an address, and open a stream back for each connection.
    ReverseForward,
    /// Listen on an address and speak SOCKS5 there.
    ReverseSocks5,
}

/// The byte that stands for a command.
pub open spec fn command_code(command: Command) -> u8 {
    match command {
        Command::Forward => 10,
        Command::ReverseForward => 20,
        Command::ReverseSocks5 => 21,
    }
}

/// The command that a byte stands for.
pub open spec fn command_of(code: u8) -> Option<Command> {
    if code == 10 {
        Some(Command::Forward)
    } else if code == 20 {
        Some(Command::ReverseForward)
    } else if code == 21 {
        Some(Command::ReverseSocks5)
    } else {
        None
    }
}

/// How many text fields follow a command.
pub open spec fn field_count(command: Command) -> nat {
    match command {
        Command::ReverseForward => 2,
        _ => 1,
    }
}

impl Command {
    /// The byte that stands for this command.
    pub fn code(self) -> (code: u8)
        ensures
            code == command_code(self),
    {
        match self {
            Command::Forward => 10,
            Command::ReverseForward => 20,
            Command::ReverseSocks5 => 21,
        }
    }

    /// The command that a byte stands for, if any.
    pub fn from_code(code: u8) -> (command: Option<Command>)
        ensures
            command == command_of(code),
    {
        match code {
            10 => Some(Command::Forward),
            20 => Some(Command::ReverseForward),
            21 => Some(Command::ReverseSocks5),
            _ => None,
        }
    }
}

/// A request with its text fields.
pub enum Request {
    /// Connect to `target`.
    Forward { target: String },
    /// Listen on `bind`; the opened streams ask for `forward`.
    ReverseForward { bind: String, forward: String },
    /// Listen on `bind` for SOCKS5.
    ReverseSocks5 { bind: String },
}

/// A request as its command and its fields in order.
#[verifier::ext_equal]
pub struct RequestView {
    pub command: Command,
    pub fields: Seq<Seq<char>>,
}

impl View for Request {
    type V = RequestView;

    open spec fn view(&self) -> RequestView {
        match self {
            Request::Forward { target } => RequestView {
                command: Command::Forward,
                fields: seq![target@],
            },
            Request::ReverseForward { bind, forward } => RequestView {
                command: Command::ReverseForward,
                fields: seq![bind@, forward@],
            },
            Request::ReverseSocks5 { bind } => RequestView {
                command: Command::ReverseSocks5,
                fields: seq![bind@],
            },
        }
    }
}

/// The low 16 bits of a length, high byte first.
pub open spec fn length_bytes(len: nat) -> Seq<u8> {
    seq![((len / 256) % 256) as u8, (len % 256) as u8]
}

/// The length that two bytes stand for.
pub open spec fn length_value(bytes: Seq<u8>) -> nat {
    (bytes[0] as nat) * 256 + bytes[1] as nat
}

/// The bytes of one field.
pub open spec fn field_bytes(text: Seq<char>) -> Seq<u8> {
    length_bytes(encode_utf8(text).len()) + encode_utf8(text)
}

/// The bytes of several fields.
pub open spec fn fields_bytes(fields: Seq<Seq<char>>) -> Seq<u8>
    decreases fields.len(),
{
    if fields.len() == 0 {
        Seq::empty()
    } else {
        field_bytes(fields[0]) + fields_bytes(fields.drop_first())
    }
}

/// The bytes of a request.
pub open spec fn request_bytes(request: RequestView) -> Seq<u8> {
    seq![command_code(request.command)] + fields_bytes(request.fields)
}

/// Whether the field's length can be told from its two length bytes.
pub open spec fn field_fits(text: Seq<char>) -> bool {
    encode_utf8(text).len() < 0x10000
}

/// A request with as many fields as its command has, each of a length that two
/// bytes can hold.
pub open spec fn request_fits(request: RequestView) -> bool {
    &&& request.fields.len() == field_count(request.command)
    &&& forall|i: int| 0 <= i < request.fields.len() ==> field_fits(#[trigger] request.fields[i])
}

fn push_field(out: &mut Vec<u8>, text: &String)
    ensures
        final(out)@ == old(out)@ + field_bytes(text@),
{
    let bytes = text.as_str().as_bytes();
    let len: usize = bytes.len();
    out.push(((len / 256) % 256) as u8);
    out.push((len % 256) as u8);
    out.extend_from_slice(bytes);
    assert(out@ =~= old(out)@ + field_bytes(text@));
}

impl Request {
    /// The bytes to send. The length of a field is sent modulo 65536, and all of its
    /// bytes follow.
    pub fn encode(&self) -> (bytes: Vec<u8>)
        ensures
            bytes@ == request_bytes(self@),
    {
        reveal_with_fuel(fields_bytes, 3);
        let mut out: Vec<u8> = Vec::new();
        match self {
            Request::Forward { target } => {
                out.push(Command::Forward.code());
                push_field(&mut out, target);
                assert(self@.fields.drop_first() =~= seq![]);
            },
            Request::ReverseForward { bind, forward } => {
                out.push(Command::ReverseForward.code());
                push_field(&mut out, bind);
                push_field(&mut out, forward);
                assert(self@.fields.drop_first() =~= seq![forward@]);
                assert(seq![forward@].drop_first() =~= seq![]);
            },
            Request::ReverseSocks5 { bind } => {
                out.push(Command::ReverseSocks5.code());
                push_field(&mut out, bind);
                assert(self@.fields.drop_first() =~= seq![]);
            },
        }
        assert(out@ =~= request_bytes(self@));
        out
    }
}

/// A request of which the command byte is known and the fields are being read.
pub struct RequestReader {
    pub command: Command,
    /// The fields read so far.
    pub fields: Vec<String>,
    /// The length of the field being read, once it is known.
    pub body: Option<u16>,
}

/// The state of a [`RequestReader`].
#[verifier::ext_equal]
pub struct ReaderView {
    pub command: Command,
    pub fields: Seq<Seq<char>>,
    pub body: Option<u16>,
}

impl View for RequestReader {
    type V = ReaderView;

    open spec fn view(&self) -> ReaderView {
        ReaderView {
            command: self.command,
            fields: Seq::new(self.fields@.len(), |i: int| self.fields@[i]@),
            body: self.body,
        }
    }
}

impl ReaderView {
    /// There is still a field to read.
    pub open spec fn wf(self) -> bool {
        self.fields.len() < field_count(self.command)
    }

    /// How many bytes the reader wants next.
    pub open spec fn needed(self) -> nat {
        match self.body {
            None => 2,
            Some(len) => len as nat,
        }
    }

    /// What the next bytes lead to.
    pub open spec fn fed(self, bytes: Seq<u8>) -> ReaderStepView {
        match self.body {
            None => ReaderStepView::More(
                ReaderView { body: Some(length_value(bytes) as u16), ..self },
            ),
            Some(_) => if !valid_utf8(bytes) {
                ReaderStepView::Invalid(utf8_refusal(bytes))
            } else {
                let fields = self.fields.push(decode_utf8(bytes));
                if fields.len() == field_count(self.command) {
                    ReaderStepView::Done(RequestView { command: self.command, fields })
                } else {
                    ReaderStepView::More(ReaderView { command: self.command, fields, body: None })
                }
            },
        }
    }
}

/// What became of a reader that was given the bytes it wanted.
pub enum ReaderStep {
    /// It wants more bytes.
    More(RequestReader),
    /// The request is complete.
    Done(Request),
    /// A field is not valid UTF-8.
    Invalid(core::str::Utf8Error),
}

/// The outcome of one step of a reader.
#[verifier::ext_equal]
pub enum ReaderStepView {
    More(ReaderView),
    Done(RequestView),
    Invalid(core::str::Utf8Error),
}

impl View for ReaderStep {
    type V = ReaderStepView;

    open spec fn view(&self) -> ReaderStepView {
        match self {
            ReaderStep::More(reader) => ReaderStepView::More(reader@),
            ReaderStep::Done(request) => ReaderStepView::Done(request@),
            ReaderStep::Invalid(e) => ReaderStepView::Invalid(*e),
        }
    }
}

/// The reader of a request whose command byte has just been read.
pub open spec fn fresh_reader(command: Command) -> ReaderView {
    ReaderView { command, fields: Seq::empty(), body: None }
}

impl RequestReader {
    /// Starts behind the command byte.
    pub fn new(command: Command) -> (reader: RequestReader)
        ensures
            reader@ == fresh_reader(command),
            reader@.wf(),
    {
        let reader = RequestReader { command, fields: Vec::new(), body: None };
        assert(reader@ =~= fresh_reader(command));
        reader
    }

    /// How many bytes to read next.
    pub fn needed(&self) -> (count: usize)
        ensures
            count == self@.needed(),
    {
        match self.body {
            None => 2,
            Some(len) => len as usize,
        }
    }

    /// Takes the bytes that were asked for.
    pub fn feed(self, bytes: &[u8]) -> (step: ReaderStep)
        requires
            self@.wf(),
            bytes@.len() == self@.needed(),
        ensures
            step@ == self@.fed(bytes@),
            step matches ReaderStep::More(reader) ==> reader@.wf(),
    {
        let command = self.command;
        match self.body {
            None => {
                let len: u16 = (bytes[0] as u16) * 256 + bytes[1] as u16;
                let step = ReaderStep::More(
                    RequestReader { command, fields: self.fields, body: Some(len) },
                );
                assert(step@ =~= self@.fed(bytes@));
                step
            },
            Some(_) => match strict_text(bytes) {
                Err(e) => ReaderStep::Invalid(e),
                Ok(text) => {
                    let ghost before = self@;
                    let ghost all = before.fields.push(text@);
                    let mut fields = self.fields;
                    match command {
                        Command::Forward => {
                            assert(all =~= seq![text@]);
                            ReaderStep::Done(Request::Forward { target: text })
                        },
                        Command::ReverseSocks5 => {
                            assert(all =~= seq![text@]);
                            ReaderStep::Done(Request::ReverseSocks5 { bind: text })
                        },
                        Command::ReverseForward => match fields.pop() {
                            None => {
                                fields.push(text);
                                let reader = RequestReader { command, fields, body: None };
                                assert(reader@.fields =~= all);
                                ReaderStep::More(reader)
                            },
                            Some(bind) => {
                                assert(all =~= seq![bind@, text@]);
                                ReaderStep::Done(Request::ReverseForward { bind, forward: text })
                            },
                        },
                    }
                },
            },
        }
    }
}

/// What a reader makes of a byte stream.
pub enum ReadOutcome {
    /// A request, and what follows it in the stream.
    Done(RequestView, Seq<u8>),
    /// The stream ended before the request did.
    Short,
    /// A field is not valid UTF-8.
    Invalid(core::str::Utf8Error),
}

/// What comes of handing a reader, from a stream, the bytes that it wants, until it
/// wants none.
pub open spec fn read_from(reader: ReaderView, stream: Seq<u8>) -> ReadOutcome
    decreases
            field_count(reader.command) - reader.fields.len(),
            if reader.body is None {
                1int
            } else {
                0int
            },
{
    if !reader.wf() || stream.len() < reader.needed() {
        ReadOutcome::Short
    } else {
        let rest = stream.skip(reader.needed() as int);
        match reader.fed(stream.take(reader.needed() as int)) {
            ReaderStepView::More(next) => read_from(next, rest),
            ReaderStepView::Done(request) => ReadOutcome::Done(request, rest),
            ReaderStepView::Invalid(e) => ReadOutcome::Invalid(e),
        }
    }
}

/// Every command has its own byte, and the byte is read as the command.
pub proof fn lemma_command_codes(command: Command, code: u8)
    ensures
        command_of(code) == Some(command) <==> code == command_code(command),
{
}

proof fn lemma_length_read_back(len: nat)
    requires
        len < 0x10000,
    ensures
        length_value(length_bytes(len)) == len,
{
    assert(len == (len / 256) * 256 + len % 256);
    assert(len / 256 < 256);
}

proof fn lemma_length_written_back(bytes: Seq<u8>)
    requires
        bytes.len() == 2,
    ensures
        length_value(bytes) < 0x10000,
        length_bytes(length_value(bytes)) == bytes,
{
    let value = length_value(bytes);
    assert(value / 256 == bytes[0] as nat);
    assert(value % 256 == bytes[1] as nat);
    assert(length_bytes(value) =~= bytes);
}

proof fn lemma_fields_read_back(
    command: Command,
    before: Seq<Seq<char>>,
    left: Seq<Seq<char>>,
    rest: Seq<u8>,
)
    requires
        left.len() > 0,
        before.len() + left.len() == field_count(command),
        forall|i: int| 0 <= i < left.len() ==> field_fits(#[trigger] left[i]),
    ensures
        read_from(
            ReaderView { command, fields: before, body: None },
            fields_bytes(left) + rest,
        ) == ReadOutcome::Done(RequestView { command, fields: before + left }, rest),
    decreases left.len(),
{
    reveal_with_fuel(read_from, 3);
    let text = left[0];
    assert(field_fits(text));
    let body = encode_utf8(text);
    let after = left.drop_first();
    let tail = fields_bytes(after) + rest;
    let stream = fields_bytes(left) + rest;
    let start = ReaderView { command, fields: before, body: None };
    lemma_length_read_back(body.len());
    assert(stream =~= length_bytes(body.len()) + body + tail);
    assert(stream.take(2) =~= length_bytes(body.len()));
    assert(stream.skip(2) =~= body + tail);
    let reading = ReaderView { command, fields: before, body: Some(body.len() as u16) };
    assert(start.fed(stream.take(2)) == ReaderStepView::More(reading));
    assert((body + tail).take(body.len() as int) =~= body);
    assert((body + tail).skip(body.len() as int) =~= tail);
    encode_utf8_valid_utf8(text);
    encode_utf8_decode_utf8(text);
    let fields = before.push(text);
    if after.len() == 0 {
        assert(tail =~= rest);
        assert(fields =~= before + left);
        assert(reading.fed(body) == ReaderStepView::Done(RequestView { command, fields }));
    } else {
        let next = ReaderView { command, fields, body: None };
        assert(reading.fed(body) == ReaderStepView::More(next));
        assert forall|i: int| 0 <= i < after.len() implies field_fits(#[trigger] after[i]) by {
            assert(after[i] == left[i + 1]);
        }
        lemma_fields_read_back(command, fields, after, rest);
        assert(fields + after =~= before + left);
    }
}

/// A reader gives back the request that was written, and leaves what follows it in
/// the stream alone, whenever each field is short enough for its length bytes.
pub proof fn lemma_request_read_back(request: RequestView, rest: Seq<u8>)
    requires
        request_fits(request),
    ensures
        request_bytes(request).len() > 0,
        command_of(request_bytes(request)[0]) == Some(request.command),
        read_from(fresh_reader(request.command), request_bytes(request).skip(1) + rest)
            == ReadOutcome::Done(request, rest),
{
    let before = Seq::<Seq<char>>::empty();
    lemma_fields_read_back(request.command, before, request.fields, rest);
    assert(before + request.fields =~= request.fields);
    assert(request_bytes(request).skip(1) =~= fields_bytes(request.fields));
}

proof fn lemma_fields_written_back(reader: ReaderView, stream: Seq<u8>)
    requires
        reader.wf(),
        reader.body is None,
        read_from(reader, stream) is Done,
    ensures
        ({
            let request = read_from(reader, stream)->Done_0;
            let rest = read_from(reader, stream)->Done_1;
            let read = request.fields.skip(reader.fields.len() as int);
            &&& request.command == reader.command
            &&& request.fields.len() == field_count(reader.command)
            &&& request.fields.take(reader.fields.len() as int) == reader.fields
            &&& forall|i: int| 0 <= i < read.len() ==> field_fits(#[trigger] read[i])
            &&& stream == fields_bytes(read) + rest
        }),
    decreases field_count(reader.command) - reader.fields.len(),
{
    reveal_with_fuel(read_from, 3);
    reveal_with_fuel(fields_bytes, 2);
    let head = stream.take(2);
    lemma_length_written_back(head);
    let len = length_value(head);
    let reading = ReaderView { body: Some(len as u16), ..reader };
    let body = stream.skip(2).take(len as int);
    let tail = stream.skip(2).skip(len as int);
    assert(reader.fed(head) == ReaderStepView::More(reading));
    assert(valid_utf8(body));
    decode_utf8_encode_utf8(body);
    let text = decode_utf8(body);
    let fields = reader.fields.push(text);
    assert(stream =~= field_bytes(text) + tail);
    let request = read_from(reader, stream)->Done_0;
    let rest = read_from(reader, stream)->Done_1;
    let read = request.fields.skip(reader.fields.len() as int);
    if fields.len() == field_count(reader.command) {
        assert(request.fields =~= fields);
        assert(read =~= seq![text]);
        assert(read.drop_first() =~= seq![]);
        assert(fields_bytes(read) =~= field_bytes(text));
        assert(request.fields.take(reader.fields.len() as int) =~= reader.fields);
        assert(rest =~= tail);
    } else {
        let next = ReaderView { command: reader.command, fields, body: None };
        lemma_fields_written_back(next, tail);
        let later = request.fields.skip(fields.len() as int);
        assert(request.fields.take(fields.len() as int)[reader.fields.len() as int] == text);
        assert(read[0] == text);
        assert(read.drop_first() =~= later);
        assert(request.fields.take(reader.fields.len() as int) =~= request.fields.take(
            fields.len() as int,
        ).take(reader.fields.len() as int));
        assert(request.fields.take(reader.fields.len() as int) =~= reader.fields);
        assert forall|i: int| 0 <= i < read.len() implies field_fits(#[trigger] read[i]) by {
            if i > 0 {
                assert(read[i] == later[i - 1]);
            }
        }
        assert(stream =~= fields_bytes(read) + rest);
    }
}

/// What a reader makes of a stream is a request of which the stream holds the
/// bytes: nothing is read as a request that the encoder does not write.
pub proof fn lemma_request_written_back(command: Command, stream: Seq<u8>)
    ensures
        read_from(fresh_reader(command), stream) matches ReadOutcome::Done(request, rest) ==> {
            &&& request.command == command
            &&& request_fits(request)
            &&& seq![command_code(command)] + stream == request_bytes(request) + rest
        },
{
    let reader = fresh_reader(command);
    if let ReadOutcome::Done(request, rest) = read_from(reader, stream) {
        lemma_fields_written_back(reader, stream);
        assert(request.fields.skip(0) =~= request.fields);
        assert(seq![command_code(command)] + stream =~= request_bytes(request) + rest);
    }
}

/// Two requests with the same bytes are the same request.
pub proof fn lemma_request_bytes_injective(a: RequestView, b: RequestView)
    requires
        request_fits(a),
        request_fits(b),
        request_bytes(a) == request_bytes(b),
    ensures
        a == b,
{
    lemma_request_read_back(a, Seq::empty());
    lemma_request_read_back(b, Seq::empty());
}

/// The bytes that stand for the commands are 10, 20 and 21, and no other byte stands
/// for one.
pub proof fn lemma_command_bytes(code: u8)
    ensures
        command_code(Command::Forward) == 10,
        command_code(Command::ReverseForward) == 20,
        command_code(Command::ReverseSocks5) == 21,
        command_of(code) == Some(Command::Forward) <==> code == 10,
        command_of(code) == Some(Command::ReverseForward) <==> code == 20,
        command_of(code) == Some(Command::ReverseSocks5) <==> code == 21,
        command_of(code) is None <==> code != 10 && code != 20 && code != 21,
{
}

/// Whether a text stands at a place among bytes: its length in two bytes, high byte
/// first and modulo 65536, and then all of its UTF-8 bytes.
pub open spec fn stands_at(bytes: Seq<u8>, at: int, text: Seq<char>) -> bool {
    let len = encode_utf8(text).len();
    &&& 0 <= at
    &&& at + 2 + len <= bytes.len()
    &&& bytes[at] * 256 + bytes[at + 1] == len % 65536
    &&& bytes.subrange(at + 2, at + 2 + len) == encode_utf8(text)
}

proof fn lemma_field_stands(head: Seq<u8>, text: Seq<char>, tail: Seq<u8>)
    ensures
        field_bytes(text).len() == 2 + encode_utf8(text).len(),
        stands_at(head + field_bytes(text) + tail, head.len() as int, text),
{
    let bytes = head + field_bytes(text) + tail;
    let at = head.len() as int;
    let len = encode_utf8(text).len();
    assert(bytes[at] == length_bytes(len)[0]);
    assert(bytes[at + 1] == length_bytes(len)[1]);
    assert(bytes.subrange(at + 2, at + 2 + len) =~= encode_utf8(text));
    assert(((len / 256) % 256) * 256 + len % 256 == len % 65536) by (nonlinear_arith);
}

/// A request to forward is sent as the byte 10 and its target, and nothing else.
pub proof fn lemma_forward_request_bytes(target: String)
    ensures
        ({
            let bytes = request_bytes((Request::Forward { target })@);
            &&& bytes.len() == 3 + encode_utf8(target@).len()
            &&& bytes[0] == 10
            &&& stands_at(bytes, 1, target@)
        }),
{
    reveal_with_fuel(fields_bytes, 2);
    let fields = seq![target@];
    assert(fields.drop_first() =~= seq![]);
    let bytes = request_bytes((Request::Forward { target })@);
    lemma_field_stands(seq![10u8], target@, Seq::empty());
    assert(bytes =~= seq![10u8] + field_bytes(target@) + Seq::<u8>::empty());
}

/// A request to listen and forward is sent as the byte 20, the address to listen on and
/// then the address to forward to, and nothing else.
pub proof fn lemma_reverse_forward_request_bytes(bind: String, forward: String)
    ensures
        ({
            let bytes = request_bytes((Request::ReverseForward { bind, forward })@);
            let len = encode_utf8(bind@).len();
            &&& bytes.len() == 5 + len + encode_utf8(forward@).len()
            &&& bytes[0] == 20
            &&& stands_at(bytes, 1, bind@)
            &&& stands_at(bytes, 3int + len, forward@)
        }),
{
    reveal_with_fuel(fields_bytes, 3);
    let fields = seq![bind@, forward@];
    assert(fields.drop_first() =~= seq![forward@]);
    assert(seq![forward@].drop_first() =~= seq![]);
    let bytes = request_bytes((Request::ReverseForward { bind, forward })@);
    lemma_field_stands(seq![20u8], bind@, field_bytes(forward@));
    assert(bytes =~= seq![20u8] + field_bytes(bind@) + field_bytes(forward@));
    lemma_field_stands(seq![20u8] + field_bytes(bind@), forward@, Seq::empty());
    assert(bytes =~= seq![20u8] + field_bytes(bind@) + field_bytes(forward@) + Seq::<u8>::empty());
}

/// A request to listen for SOCKS5 is sent as the byte 21 and the address to listen on,
/// and nothing else.
pub proof fn lemma_reverse_socks5_request_bytes(bind: String)
    ensures
        ({
            let bytes = request_bytes((Request::ReverseSocks5 { bind })@);
            &&& bytes.len() == 3 + encode_utf8(bind@).len()
            &&& bytes[0] == 21
            &&& stands_at(bytes, 1, bind@)
        }),
{
    reveal_with_fuel(fields_bytes, 2);
    let fields = seq![bind@];
    assert(fields.drop_first() =~= seq![]);
    let bytes = request_bytes((Request::ReverseSocks5 { bind })@);
    lemma_field_stands(seq![21u8], bind@, Seq::empty());
    assert(bytes =~= seq![21u8] + field_bytes(bind@) + Seq::<u8>::empty());
}

/// A reader begins with no field, and wants two bytes, which are the length of what it
/// wants next, high byte first; what comes then is the next field if it is valid UTF-8,
/// and the decoder's error if it is not. A request to listen and forward has two fields,
/// and any other has one; the request is complete with its last field and not before.
pub proof fn lemma_reader_takes_fields(reader: ReaderView, bytes: Seq<u8>)
    ensures
        fresh_reader(reader.command).command == reader.command,
        fresh_reader(reader.command).fields.len() == 0,
        fresh_reader(reader.command).body is None,
        reader.wf() <==> reader.fields.len() < (if reader.command == Command::ReverseForward {
            2int
        } else {
            1int
        }),
        reader.body is None ==> reader.needed() == 2,
        reader.body matches Some(len) ==> reader.needed() == len,
        reader.body is None && bytes.len() == 2 ==> (reader.fed(bytes) matches ReaderStepView::More(
            next,
        ) && next.command == reader.command && next.fields == reader.fields
            && next.body is Some && next.body->0 == bytes[0] * 256 + bytes[1]),
        reader.body is Some && !valid_utf8(bytes) ==> reader.fed(bytes) == ReaderStepView::Invalid(
            utf8_refusal(bytes),
        ),
        reader.body is Some && valid_utf8(bytes) && reader.command == Command::ReverseForward
            && reader.fields.len() == 0 ==> (reader.fed(bytes) matches ReaderStepView::More(next)
            && next.command == reader.command && next.fields == seq![decode_utf8(bytes)]
            && next.body is None),
        reader.body is Some && valid_utf8(bytes) && reader.wf() && (reader.command
            != Command::ReverseForward || reader.fields.len() == 1) ==> (reader.fed(
            bytes,
        ) matches ReaderStepView::Done(request) && request.command == reader.command
            && request.fields == reader.fields.push(decode_utf8(bytes))),
{
    if reader.fields.len() == 0 {
        assert(reader.fields.push(decode_utf8(bytes)) =~= seq![decode_utf8(bytes)]);
    }
}

} // verus!
