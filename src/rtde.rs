//! The RTDE protocol engine.
//!
//! [`Session`] holds what a connection has negotiated and builds the request
//! frames; it reads the answers once the caller has received them. The
//! caller's transport writes the requests and reads frames with a
//! [`FrameReader`](crate::reader::FrameReader). While a request waits for its
//! answer, [`Session::receive`] sorts each frame that arrives: the awaited
//! kind ends the wait, log messages from the controller are kept, and any
//! other frame is dropped, for at most a fixed number of frames.

use vstd::prelude::*;

use crate::codec::{bool_of, decode_bool, u16_be, u64_be, u64_to_be, Header, PackageType};
use crate::data::DataType;
use crate::error::Error;
use crate::recipe::{
    csv_bytes, lemma_split_commas_nonempty, parse_types, recipe_bytes, recipe_text, types_of, views,
};
use crate::rolling_buffer::{keep_last, lemma_keep_last_append, RollingBuffer};
use crate::text::{join_text, lossy_text, lossy_utf8};
use crate::types::{append_bytes, message_wire, Level, Message, Payload, Protocol, Recipe};

verus! {

/// The TCP port of the RTDE interface.
pub const RTDE_PORT: u16 = 30004;

/// How many frames a request may read while it waits for its answer. At
/// 500 Hz the controller may flush about 960 data frames before an answer, so
/// this leaves room to spare.
pub const MAX_READ_ATTEMPTS: u32 = 2000;

/// How many controller log messages a session keeps.
pub const MESSAGE_HISTORY: usize = 10;

/// The bytes of a frame of `package_type` around `body`, sized to match.
pub open spec fn framed(package_type: PackageType, body: Seq<u8>) -> Seq<u8> {
    Header { package_size: (body.len() + 3) as u16, package_type }.wire() + body
}

/// Wraps `body` in a frame of `package_type`; a body too large for the `u16`
/// size field cannot be framed.
pub fn frame_bytes(package_type: PackageType, body: &[u8]) -> (r: Result<Vec<u8>, Error>)
    ensures
        r is Ok <==> body@.len() + 3 <= u16::MAX,
        r is Ok ==> r->Ok_0@ == framed(package_type, body@),
        r is Err ==> r->Err_0 is Serialization,
{
    if body.len() > 65532 {
        return Err(Error::Serialization("frame larger than 65535 bytes".to_owned()));
    }
    let header = Header { package_size: (body.len() + 3) as u16, package_type };
    let mut r = header.as_bytes();
    append_bytes(&mut r, body);
    Ok(r)
}

/// The text a session keeps of a frame that arrived while it waited for
/// `expect`: a log message that is not the awaited kind, in lossy UTF-8.
pub open spec fn buffered_text(expect: PackageType, frame: Payload) -> Option<Seq<char>> {
    if frame.header.package_type != expect && frame.header.package_type == PackageType::Message {
        Some(lossy_text(frame.payload@))
    } else {
        None
    }
}

/// The texts of the log messages among `frames` that a wait for `expect` keeps, in order.
pub open spec fn message_texts(expect: PackageType, frames: Seq<Payload>) -> Seq<Seq<char>>
    decreases frames.len(),
{
    if frames.len() == 0 {
        Seq::empty()
    } else {
        let rest = message_texts(expect, frames.drop_last());
        match buffered_text(expect, frames.last()) {
            Some(t) => rest.push(t),
            None => rest,
        }
    }
}

/// The kept texts after a frame arrives during a wait for `expect`.
pub open spec fn texts_after(
    texts: Seq<Seq<char>>,
    capacity: nat,
    expect: PackageType,
    frame: Payload,
) -> Seq<Seq<char>> {
    match buffered_text(expect, frame) {
        Some(t) => keep_last(texts.push(t), capacity),
        None => texts,
    }
}

/// The kept texts after each of `frames` arrives in turn.
pub open spec fn texts_after_all(
    texts: Seq<Seq<char>>,
    capacity: nat,
    expect: PackageType,
    frames: Seq<Payload>,
) -> Seq<Seq<char>>
    decreases frames.len(),
{
    if frames.len() == 0 {
        texts
    } else {
        texts_after(texts_after_all(texts, capacity, expect, frames.drop_last()), capacity, expect, frames.last())
    }
}

/// A request that waits for a frame of one kind, reading at most a fixed
/// number of frames.
#[derive(Debug, Clone, Copy)]
pub struct Exchange {
    expect: PackageType,
    max_reads: u32,
    reads: u32,
}

impl Exchange {
    /// The kind of frame awaited.
    pub closed spec fn spec_expect(&self) -> PackageType {
        self.expect
    }

    /// The most frames the wait may read.
    pub closed spec fn spec_max_reads(&self) -> nat {
        self.max_reads as nat
    }

    /// The frames read so far.
    pub closed spec fn spec_reads(&self) -> nat {
        self.reads as nat
    }

    /// A wait for a frame of `expect` that reads at most `max_reads` frames.
    pub fn new(expect: PackageType, max_reads: u32) -> (r: Self)
        ensures
            r.spec_expect() == expect,
            r.spec_max_reads() == max_reads,
            r.spec_reads() == 0,
    {
        Exchange { expect, max_reads, reads: 0 }
    }

    /// The kind of frame awaited.
    pub fn expect(&self) -> (r: PackageType)
        ensures
            r == self.spec_expect(),
    {
        self.expect
    }

    /// How many frames have been read since the request was sent.
    pub fn reads(&self) -> (r: u32)
        ensures
            r == self.spec_reads(),
    {
        self.reads
    }
}

/// The state of one RTDE connection: the negotiated protocol version, the
/// active output recipe and its rate, and the log messages the controller sent
/// while requests waited.
#[derive(Debug)]
pub struct Session {
    output: Vec<DataType>,
    rate_bits: Option<u64>,
    protocol: Protocol,
    messages: RollingBuffer<String>,
}

impl Session {
    /// The types of the active output recipe; empty while none is set up.
    pub closed spec fn output(&self) -> Seq<DataType> {
        self.output@
    }

    /// The bits of the rate, in Hz, of the active output recipe.
    pub closed spec fn rate(&self) -> Option<u64> {
        self.rate_bits
    }

    /// The protocol version the controller accepted last.
    pub closed spec fn protocol(&self) -> Protocol {
        self.protocol
    }

    /// The texts of the log messages kept, oldest first.
    pub closed spec fn texts(&self) -> Seq<Seq<char>> {
        self.messages@.map_values(|s: String| s@)
    }

    /// How many log messages are kept at most.
    pub closed spec fn history_capacity(&self) -> nat {
        self.messages.spec_capacity()
    }

    pub closed spec fn wf(&self) -> bool {
        self.messages.wf()
    }

    /// A session before any negotiation: protocol version 1, no output recipe,
    /// no messages.
    pub fn new() -> (r: Self)
        ensures
            r.wf(),
            r.output() == Seq::<DataType>::empty(),
            r.rate() == None::<u64>,
            r.protocol() == Protocol::V1,
            r.texts() == Seq::<Seq<char>>::empty(),
            r.history_capacity() == MESSAGE_HISTORY,
    {
        let r = Session {
            output: Vec::new(),
            rate_bits: None,
            protocol: Protocol::V1,
            messages: RollingBuffer::new(MESSAGE_HISTORY),
        };
        assert(r.texts() =~= Seq::<Seq<char>>::empty());
        r
    }

    /// Whether an output recipe is active.
    pub fn has_output(&self) -> (r: bool)
        ensures
            r == (self.output().len() > 0),
    {
        self.output.len() > 0
    }

    /// The types of the active output recipe.
    pub fn output_types(&self) -> (r: Vec<DataType>)
        ensures
            r@ == self.output(),
    {
        crate::types::copy_types(&self.output)
    }

    /// The bits of the rate of the active output recipe.
    pub fn rate_bits(&self) -> (r: Option<u64>)
        ensures
            r == self.rate(),
    {
        self.rate_bits
    }

    /// The protocol version the controller accepted last.
    pub fn protocol_version(&self) -> (r: Protocol)
        ensures
            r == self.protocol(),
    {
        self.protocol
    }

    /// The request for protocol `protocol`.
    pub fn protocol_request(protocol: Protocol) -> (r: Vec<u8>)
        ensures
            r@ == framed(PackageType::ProtocolVersion, u16_be(protocol.number())),
    {
        let body = protocol.as_bytes();
        let header = Header { package_size: 5, package_type: PackageType::ProtocolVersion };
        let mut r = header.as_bytes();
        append_bytes(&mut r, body.as_slice());
        r
    }

    /// Takes the controller's answer to a protocol request: 1 accepts, 0 refuses.
    pub fn accept_protocol(&mut self, protocol: Protocol, answer: &[u8]) -> (r: Result<(), Error>)
        requires
            old(self).wf(),
        ensures
            final(self).wf(),
            final(self).output() == old(self).output(),
            final(self).rate() == old(self).rate(),
            final(self).texts() == old(self).texts(),
            final(self).history_capacity() == old(self).history_capacity(),
            bool_of(answer@) == Some(true) ==> r is Ok && final(self).protocol() == protocol,
            bool_of(answer@) == Some(false) ==> r is Err && r->Err_0 is Static
                && final(self).protocol() == old(self).protocol(),
            bool_of(answer@) is None ==> r is Err && r->Err_0 is Deserialization
                && final(self).protocol() == old(self).protocol(),
    {
        if decode_bool(answer)? {
            self.protocol = protocol;
            Ok(())
        } else {
            Err(Error::Static("protocol change rejected"))
        }
    }

    /// The request for the controller's software version.
    pub fn version_request() -> (r: Vec<u8>)
        ensures
            r@ == framed(PackageType::URControlVersion, Seq::<u8>::empty()),
    {
        let r = Header::new(PackageType::URControlVersion, None).as_bytes();
        assert(r@ =~= framed(PackageType::URControlVersion, Seq::<u8>::empty()));
        r
    }

    /// The request to start the output stream; refused while no output recipe is active.
    pub fn start_request(&self) -> (r: Result<Vec<u8>, Error>)
        ensures
            self.output().len() == 0 <==> r is Err,
            r is Err ==> r->Err_0 is Static,
            r is Ok ==> r->Ok_0@ == framed(PackageType::Start, Seq::<u8>::empty()),
    {
        if self.output.len() == 0 {
            return Err(Error::Static("must set up at least one rtde output recipe"));
        }
        let r = Header::new(PackageType::Start, None).as_bytes();
        assert(r@ =~= framed(PackageType::Start, Seq::<u8>::empty()));
        Ok(r)
    }

    /// Takes the controller's answer to a start request.
    pub fn accept_start(answer: &[u8]) -> (r: Result<(), Error>)
        ensures
            bool_of(answer@) == Some(true) <==> r is Ok,
            bool_of(answer@) == Some(false) ==> r is Err && r->Err_0 is Static,
            bool_of(answer@) is None ==> r is Err && r->Err_0 is Deserialization,
    {
        if decode_bool(answer)? {
            Ok(())
        } else {
            Err(Error::Static("rtde play error"))
        }
    }

    /// The request to pause the output stream; it needs no output recipe.
    pub fn pause_request() -> (r: Vec<u8>)
        ensures
            r@ == framed(PackageType::Pause, Seq::<u8>::empty()),
    {
        let r = Header::new(PackageType::Pause, None).as_bytes();
        assert(r@ =~= framed(PackageType::Pause, Seq::<u8>::empty()));
        r
    }

    /// Takes the controller's answer to a pause request.
    pub fn accept_pause(answer: &[u8]) -> (r: Result<(), Error>)
        ensures
            bool_of(answer@) == Some(true) <==> r is Ok,
            bool_of(answer@) == Some(false) ==> r is Err && r->Err_0 is Static,
            bool_of(answer@) is None ==> r is Err && r->Err_0 is Deserialization,
    {
        if decode_bool(answer)? {
            Ok(())
        } else {
            Err(Error::Static("rtde pause error"))
        }
    }

    /// The request for an output recipe of the variables `names` at the rate
    /// whose `f64` bits are `rate_bits`.
    ///
    /// Refused while an output recipe is active: the controller keeps one at a time.
    pub fn setup_output_request(&self, names: &[&str], rate_bits: u64) -> (r: Result<
        Vec<u8>,
        Error,
    >)
        ensures
            self.output().len() > 0 ==> r is Err && r->Err_0 is Static,
            self.output().len() == 0 && 8 + recipe_text(views(names@)).len() + 3 <= u16::MAX
                ==> r is Ok && r->Ok_0@ == framed(
                PackageType::SetupOutputs,
                u64_be(rate_bits) + recipe_text(views(names@)),
            ),
            self.output().len() == 0 && 8 + recipe_text(views(names@)).len() + 3 > u16::MAX
                ==> r is Err && r->Err_0 is Serialization,
    {
        if self.output.len() > 0 {
            return Err(Error::Static("Cannot setup more than one output recipe"));
        }
        let rate = u64_to_be(rate_bits);
        let mut body: Vec<u8> = Vec::new();
        append_bytes(&mut body, &rate);
        let text = recipe_bytes(names);
        append_bytes(&mut body, text.as_slice());
        frame_bytes(PackageType::SetupOutputs, body.as_slice())
    }

    /// Takes the controller's answer to an output recipe request made at the
    /// rate whose bits are `rate_bits`.
    ///
    /// The answer's first byte is the recipe id and the rest the type names of
    /// the variables, in request order. On success the recipe becomes the
    /// active output recipe.
    pub fn accept_setup_output(&mut self, response: &Payload, rate_bits: u64) -> (r: Result<
        Recipe,
        Error,
    >)
        requires
            old(self).wf(),
        ensures
            final(self).wf(),
            final(self).protocol() == old(self).protocol(),
            final(self).texts() == old(self).texts(),
            final(self).history_capacity() == old(self).history_capacity(),
            response.header.package_type != PackageType::SetupOutputs ==> r is Err
                && r->Err_0 is UnexpectedResponse,
            response.header.package_type == PackageType::SetupOutputs && response.payload@.len()
                == 0 ==> r is Err && r->Err_0 is Deserialization,
            response.header.package_type == PackageType::SetupOutputs && response.payload@.len() > 0
                && types_of(response.payload@.drop_first()) is None ==> r is Err
                && r->Err_0 is Deserialization,
            response.header.package_type == PackageType::SetupOutputs && response.payload@.len() > 0
                && types_of(response.payload@.drop_first()) is Some ==> r is Ok && r->Ok_0.id
                == response.payload@[0] && r->Ok_0.var_types@ == types_of(
                response.payload@.drop_first(),
            ).unwrap() && final(self).output() == r->Ok_0.var_types@ && final(self).rate() == Some(
                rate_bits,
            ),
            r is Err ==> final(self).output() == old(self).output() && final(self).rate() == old(
                self,
            ).rate(),
    {
        if response.header.package_type != PackageType::SetupOutputs {
            return Err(Error::UnexpectedResponse(join_text("instead of setup outputs, found ", response.header.package_type.name())));
        }
        let (id, types) = read_recipe_answer(response.payload.as_slice())?;
        self.output = crate::types::copy_types(&types);
        self.rate_bits = Some(rate_bits);
        Ok(Recipe::new(id, types))
    }

    /// The request for an input recipe of the variables `names`.
    pub fn setup_input_request(names: &[&str]) -> (r: Result<Vec<u8>, Error>)
        ensures
            recipe_text(views(names@)).len() + 3 <= u16::MAX ==> r is Ok && r->Ok_0@ == framed(
                PackageType::SetupInputs,
                recipe_text(views(names@)),
            ),
            recipe_text(views(names@)).len() + 3 > u16::MAX ==> r is Err && r->Err_0 is Serialization,
    {
        let text = recipe_bytes(names);
        frame_bytes(PackageType::SetupInputs, text.as_slice())
    }

    /// Takes the controller's answer to an input recipe request for `names`.
    ///
    /// Id 0 means the controller refused the list. Any number of input recipes
    /// may be active; the session does not track them.
    pub fn accept_setup_input(response: &Payload, names: &[&str]) -> (r: Result<Recipe, Error>)
        ensures
            response.header.package_type != PackageType::SetupInputs ==> r is Err
                && r->Err_0 is UnexpectedResponse,
            response.header.package_type == PackageType::SetupInputs && response.payload@.len()
                == 0 ==> r is Err && r->Err_0 is Deserialization,
            response.header.package_type == PackageType::SetupInputs && response.payload@.len() > 0
                && response.payload@[0] == 0 ==> r is Err && r->Err_0 is UnexpectedResponse,
            response.header.package_type == PackageType::SetupInputs && response.payload@.len() > 0
                && response.payload@[0] != 0 && types_of(response.payload@.drop_first()) is None
                ==> r is Err && r->Err_0 is Deserialization,
            response.header.package_type == PackageType::SetupInputs && response.payload@.len() > 0
                && response.payload@[0] != 0 && types_of(response.payload@.drop_first()) is Some
                ==> r is Ok && r->Ok_0.id == response.payload@[0] && r->Ok_0.var_types@ == types_of(
                response.payload@.drop_first(),
            ).unwrap(),
    {
        if response.header.package_type != PackageType::SetupInputs {
            return Err(Error::UnexpectedResponse(join_text("instead of setup inputs, found ", response.header.package_type.name())));
        }
        if response.payload.len() > 0 && response.payload[0] == 0 {
            let list = lossy_utf8(csv_bytes(names).as_slice());
            return Err(Error::UnexpectedResponse(join_text("input recipe rejected: ", list.as_str())));
        }
        let (id, types) = read_recipe_answer(response.payload.as_slice())?;
        Ok(Recipe::new(id, types))
    }

    /// The frame that writes `payload`, the encoded values of input recipe
    /// `recipe_id`. The controller checks the recipe; the session does not.
    pub fn data_frame(payload: &[u8], recipe_id: u8) -> (r: Result<Vec<u8>, Error>)
        ensures
            payload@.len() + 4 <= u16::MAX ==> r is Ok && r->Ok_0@ == framed(
                PackageType::Data,
                seq![recipe_id] + payload@,
            ),
            payload@.len() + 4 > u16::MAX ==> r is Err && r->Err_0 is Serialization,
    {
        let mut body: Vec<u8> = vec![recipe_id];
        append_bytes(&mut body, payload);
        frame_bytes(PackageType::Data, body.as_slice())
    }

    /// The frame that sends a log message to the controller.
    pub fn message_frame(message: &str, source: &str, level: Level) -> (r: Result<Vec<u8>, Error>)
        ensures
            message_wire(message@, source@, level).len() + 3 <= u16::MAX ==> r is Ok && r->Ok_0@
                == framed(PackageType::Message, message_wire(message@, source@, level)),
            message_wire(message@, source@, level).len() + 3 > u16::MAX ==> r is Err
                && r->Err_0 is Serialization,
    {
        let m = Message::new(message, source, level);
        let body = m.as_bytes()?;
        frame_bytes(PackageType::Message, body.as_slice())
    }

    /// Sorts a frame that arrived while `ex` waits.
    ///
    /// The awaited kind ends the wait and is returned. A log message is kept,
    /// the oldest kept one making room when the history is full; any other
    /// frame is dropped. The wait fails once it has read its allowed number of
    /// frames without the awaited one.
    pub fn receive(&mut self, ex: &mut Exchange, frame: Payload) -> (r: Result<Option<Payload>, Error>)
        requires
            old(self).wf(),
        ensures
            final(self).wf(),
            final(self).output() == old(self).output(),
            final(self).rate() == old(self).rate(),
            final(self).protocol() == old(self).protocol(),
            final(self).history_capacity() == old(self).history_capacity(),
            final(ex).spec_expect() == old(ex).spec_expect(),
            final(ex).spec_max_reads() == old(ex).spec_max_reads(),
            old(ex).spec_reads() >= old(ex).spec_max_reads() ==> r == Err::<Option<Payload>, Error>(
                Error::MaxReads(old(ex).spec_expect()),
            ) && final(self).texts() == old(self).texts() && final(ex).spec_reads() == old(
                ex,
            ).spec_reads(),
            old(ex).spec_reads() < old(ex).spec_max_reads() ==> {
                &&& final(ex).spec_reads() == old(ex).spec_reads() + 1
                &&& final(self).texts() == texts_after(
                    old(self).texts(),
                    old(self).history_capacity(),
                    old(ex).spec_expect(),
                    frame,
                )
                &&& frame.header.package_type == old(ex).spec_expect() ==> r == Ok::<
                    Option<Payload>,
                    Error,
                >(Some(frame))
                &&& frame.header.package_type != old(ex).spec_expect() && final(ex).spec_reads()
                    < final(ex).spec_max_reads() ==> r == Ok::<Option<Payload>, Error>(None)
                &&& frame.header.package_type != old(ex).spec_expect() && final(ex).spec_reads()
                    >= final(ex).spec_max_reads() ==> r == Err::<Option<Payload>, Error>(
                    Error::MaxReads(old(ex).spec_expect()),
                )
            },
    {
        if ex.reads >= ex.max_reads {
            return Err(Error::MaxReads(ex.expect));
        }
        ex.reads = ex.reads + 1;
        if frame.header.package_type == ex.expect {
            return Ok(Some(frame));
        }
        if frame.header.package_type == PackageType::Message {
            let text = lossy_utf8(frame.payload.as_slice());
            let ghost old_messages = self.messages@;
            self.messages.add(text);
            proof {
                lemma_texts_add(old_messages, text, self.messages.spec_capacity());
            }
        }
        if ex.reads >= ex.max_reads {
            Err(Error::MaxReads(ex.expect))
        } else {
            Ok(None)
        }
    }

    /// A copy of the kept log messages, oldest first.
    pub fn messages(&self) -> (r: Vec<String>)
        ensures
            r@.map_values(|s: String| s@) == self.texts(),
    {
        let mut r: Vec<String> = Vec::new();
        let mut i: usize = 0;
        while i < self.messages.len()
            invariant
                i <= self.messages@.len(),
                r@.len() == i,
                forall|j: int| 0 <= j < i ==> (#[trigger] r@[j])@ == self.messages@[j]@,
            decreases self.messages@.len() - i,
        {
            let m = self.messages.get(i);
            r.push(m.clone());
            i = i + 1;
        }
        assert(r@.map_values(|s: String| s@) =~= self.texts());
        r
    }

    /// Ends the session, handing back the kept log messages, oldest first.
    pub fn close(self) -> (r: Vec<String>)
        ensures
            r@.map_values(|s: String| s@) == self.texts(),
    {
        self.messages.into_values()
    }
}

/// Reads the recipe id and the types of a recipe answer.
fn read_recipe_answer(payload: &[u8]) -> (r: Result<(u8, Vec<DataType>), Error>)
    ensures
        payload@.len() == 0 ==> r is Err && r->Err_0 is Deserialization,
        payload@.len() > 0 && types_of(payload@.drop_first()) is None ==> r is Err
            && r->Err_0 is Deserialization,
        payload@.len() > 0 && types_of(payload@.drop_first()) is Some ==> r is Ok && r->Ok_0.0
            == payload@[0] && r->Ok_0.1@ == types_of(payload@.drop_first()).unwrap(),
{
    if payload.len() == 0 {
        return Err(Error::Deserialization("recipe answer without an id".to_owned()));
    }
    let rest = vstd::slice::slice_subrange(payload, 1, payload.len());
    assert(rest@ =~= payload@.drop_first());
    let types = parse_types(rest)?;
    Ok((payload[0], types))
}

/// Adding a message to the kept history adds its text to the kept texts.
proof fn lemma_texts_add(old_messages: Seq<String>, s: String, capacity: nat)
    ensures
        keep_last(old_messages.push(s), capacity).map_values(|m: String| m@) == keep_last(
            old_messages.map_values(|m: String| m@).push(s@),
            capacity,
        ),
{
    assert(keep_last(old_messages.push(s), capacity).map_values(|m: String| m@) =~= keep_last(
        old_messages.map_values(|m: String| m@).push(s@),
        capacity,
    ));
}

/// A second output recipe request is refused: a successful answer to the
/// first names at least one type, and the session keeps those types as its
/// active output recipe, which refuses further output recipe requests.
pub proof fn lemma_output_recipe_singleton(body: Seq<u8>)
    requires
        types_of(body) is Some,
    ensures
        types_of(body).unwrap().len() >= 1,
{
    lemma_split_commas_nonempty(body);
}

/// While a request waits, the log messages among the frames that arrive are
/// kept in the order they arrived, after those kept before, up to the
/// history's capacity.
pub proof fn lemma_wait_keeps_messages_in_order(
    texts: Seq<Seq<char>>,
    capacity: nat,
    expect: PackageType,
    frames: Seq<Payload>,
)
    requires
        texts.len() <= capacity,
    ensures
        texts_after_all(texts, capacity, expect, frames) == keep_last(
            texts + message_texts(expect, frames),
            capacity,
        ),
    decreases frames.len(),
{
    if frames.len() == 0 {
        assert(texts + message_texts(expect, frames) =~= texts);
    } else {
        let rest = frames.drop_last();
        lemma_wait_keeps_messages_in_order(texts, capacity, expect, rest);
        let m = message_texts(expect, rest);
        match buffered_text(expect, frames.last()) {
            Some(t) => {
                lemma_keep_last_append(texts + m, seq![t], capacity);
                assert(keep_last(texts + m, capacity) + seq![t] =~= keep_last(texts + m, capacity).push(t));
                assert((texts + m) + seq![t] =~= texts + m.push(t));
            },
            None => {},
        }
    }
}

} // verus!
