//! The message envelope: the top-level discriminated union of request,
//! response and event, with the empty-payload normalizer applied to the
//! optional `arguments` and `body` fields. The envelope kind set is
//! protocol-fixed: an unrecognized `type` tag is a hard decode error.

use vstd::prelude::*;

use crate::error::{field_to_msg, spec_field_to_msg, DecodeError, ErrV, FieldErrV, FieldError};
use crate::events::{
    decode_event, encode_event, events_model, spec_decode_event, spec_encode_event, Events,
    EventsV,
};
use crate::fields::{
    push_int_field, push_lit_field, push_opt_val_field, push_str_field, read_opt_val_field,
    read_req_bool_field, read_string_field, read_u64_field, spec_read_req_bool, spec_read_string,
    spec_read_u64,
};
use crate::value::{
    normalize, obj_model, opt_model, push_opt, spec_get, spec_is_empty_obj, spec_normalize,
    str_eq, val_model, SpecVal, Value,
};

verus! {

broadcast use vstd::std_specs::vec::group_vec_axioms, vstd::seq::group_seq_axioms;

/// A request: a sender-assigned sequence number, a command name, and an
/// optional structured argument payload.
#[derive(Debug, PartialEq)]
pub struct Request {
    pub seq: u64,
    pub command: String,
    pub arguments: Option<Value>,
}

/// A response: its own sequence number, the sequence number of the request
/// it answers, a success flag, the command name, and an optional payload.
#[derive(Debug, PartialEq)]
pub struct Response {
    pub seq: u64,
    pub request_seq: u64,
    pub success: bool,
    pub command: String,
    pub body: Option<Value>,
}

/// The top-level message: exactly one of event, response or request.
#[derive(Debug, PartialEq)]
pub enum Message {
    Event(Box<Events>),
    Response(Response),
    Request(Request),
}

/// Mathematical model of a request.
#[verifier::ext_equal]
pub struct RequestV {
    pub seq: int,
    pub command: Seq<char>,
    pub arguments: Option<SpecVal>,
}

/// Mathematical model of a response.
#[verifier::ext_equal]
pub struct ResponseV {
    pub seq: int,
    pub request_seq: int,
    pub success: bool,
    pub command: Seq<char>,
    pub body: Option<SpecVal>,
}

/// Mathematical model of a message.
#[verifier::ext_equal]
pub enum MessageV {
    Event(EventsV),
    Response(ResponseV),
    Request(RequestV),
}

impl View for Request {
    type V = RequestV;

    open spec fn view(&self) -> RequestV {
        RequestV {
            seq: self.seq as int,
            command: self.command@,
            arguments: opt_model(self.arguments),
        }
    }
}

impl View for Response {
    type V = ResponseV;

    open spec fn view(&self) -> ResponseV {
        ResponseV {
            seq: self.seq as int,
            request_seq: self.request_seq as int,
            success: self.success,
            command: self.command@,
            body: opt_model(self.body),
        }
    }
}

impl View for Message {
    type V = MessageV;

    open spec fn view(&self) -> MessageV {
        match self {
            Message::Event(e) => MessageV::Event(events_model(**e)),
            Message::Response(r) => MessageV::Response(r@),
            Message::Request(r) => MessageV::Request(r@),
        }
    }
}

/// A well-formed request: the sequence number fits the wire integer range
/// and the arguments are already normalized (never a present empty record).
pub open spec fn request_wf(r: RequestV) -> bool {
    &&& 0 <= r.seq <= i64::MAX as int
    &&& match r.arguments {
        Option::Some(v) => !spec_is_empty_obj(v),
        Option::None => true,
    }
}

/// A well-formed response, by the same rules as a request.
pub open spec fn response_wf(r: ResponseV) -> bool {
    &&& 0 <= r.seq <= i64::MAX as int
    &&& 0 <= r.request_seq <= i64::MAX as int
    &&& match r.body {
        Option::Some(v) => !spec_is_empty_obj(v),
        Option::None => true,
    }
}

/// A well-formed message.
pub open spec fn message_wf(m: MessageV) -> bool {
    match m {
        MessageV::Event(_) => true,
        MessageV::Response(r) => response_wf(r),
        MessageV::Request(r) => request_wf(r),
    }
}

/// What decoding a request from envelope entries yields: `seq` and
/// `command` are required, and `arguments` is normalized, an absent field
/// and an empty record both becoming `None`.
pub open spec fn spec_decode_request(entries: Seq<(Seq<char>, SpecVal)>) -> Result<
    RequestV,
    ErrV,
> {
    match spec_read_u64(entries, "seq"@) {
        Result::Err(fe) => Result::Err(spec_field_to_msg(fe)),
        Result::Ok(seq) => match spec_read_string(entries, "command"@) {
            Result::Err(fe) => Result::Err(spec_field_to_msg(fe)),
            Result::Ok(command) => Result::Ok(
                RequestV {
                    seq,
                    command,
                    arguments: spec_normalize(spec_get(entries, "arguments"@)),
                },
            ),
        },
    }
}

/// What decoding a response from envelope entries yields, with `body`
/// normalized like a request's `arguments`.
pub open spec fn spec_decode_response(entries: Seq<(Seq<char>, SpecVal)>) -> Result<
    ResponseV,
    ErrV,
> {
    match spec_read_u64(entries, "seq"@) {
        Result::Err(fe) => Result::Err(spec_field_to_msg(fe)),
        Result::Ok(seq) => match spec_read_u64(entries, "request_seq"@) {
            Result::Err(fe) => Result::Err(spec_field_to_msg(fe)),
            Result::Ok(request_seq) => match spec_read_req_bool(entries, "success"@) {
                Result::Err(fe) => Result::Err(spec_field_to_msg(fe)),
                Result::Ok(success) => match spec_read_string(entries, "command"@) {
                    Result::Err(fe) => Result::Err(spec_field_to_msg(fe)),
                    Result::Ok(command) => Result::Ok(
                        ResponseV {
                            seq,
                            request_seq,
                            success,
                            command,
                            body: spec_normalize(spec_get(entries, "body"@)),
                        },
                    ),
                },
            },
        },
    }
}

/// What decoding a message yields: the `type` tag picks the envelope kind;
/// the event kind delegates to the event decoder on the same record; any
/// other tag is an unrecognized envelope kind, a hard error.
pub open spec fn spec_decode_message(v: SpecVal) -> Result<MessageV, ErrV> {
    match v {
        SpecVal::Obj(entries) => match spec_read_string(entries, "type"@) {
            Result::Err(fe) => Result::Err(spec_field_to_msg(fe)),
            Result::Ok(kind) => if kind == "request"@ {
                match spec_decode_request(entries) {
                    Result::Ok(r) => Result::Ok(MessageV::Request(r)),
                    Result::Err(e) => Result::Err(e),
                }
            } else if kind == "response"@ {
                match spec_decode_response(entries) {
                    Result::Ok(r) => Result::Ok(MessageV::Response(r)),
                    Result::Err(e) => Result::Err(e),
                }
            } else if kind == "event"@ {
                match spec_decode_event(v) {
                    Result::Ok(e) => Result::Ok(MessageV::Event(e)),
                    Result::Err(e) => Result::Err(e),
                }
            } else {
                Result::Err(ErrV::UnknownEnvelopeKind(kind))
            },
        },
        _ => Result::Err(ErrV::NotARecord),
    }
}

/// The structural inverse of request decoding.
pub open spec fn spec_encode_request(r: RequestV) -> SpecVal {
    SpecVal::Obj(
        push_opt(
            Seq::<(Seq<char>, SpecVal)>::empty().push(("type"@, SpecVal::Str("request"@))).push(
                ("seq"@, SpecVal::Int(r.seq)),
            ).push(("command"@, SpecVal::Str(r.command))),
            "arguments"@,
            r.arguments,
        ),
    )
}

/// The structural inverse of response decoding.
pub open spec fn spec_encode_response(r: ResponseV) -> SpecVal {
    SpecVal::Obj(
        push_opt(
            Seq::<(Seq<char>, SpecVal)>::empty().push(("type"@, SpecVal::Str("response"@))).push(
                ("seq"@, SpecVal::Int(r.seq)),
            ).push(("request_seq"@, SpecVal::Int(r.request_seq))).push(
                ("success"@, SpecVal::Bool(r.success)),
            ).push(("command"@, SpecVal::Str(r.command))),
            "body"@,
            r.body,
        ),
    )
}

/// The structural inverse of message decoding: the event arm carries the
/// event encoding's entries after the `type` tag.
pub open spec fn spec_encode_message(m: MessageV) -> SpecVal {
    match m {
        MessageV::Request(r) => spec_encode_request(r),
        MessageV::Response(r) => spec_encode_response(r),
        MessageV::Event(e) => SpecVal::Obj(
            Seq::<(Seq<char>, SpecVal)>::empty().push(("type"@, SpecVal::Str("event"@)))
                + spec_encode_event(e)->Obj_0,
        ),
    }
}

/// Appends a required boolean field under its wire key.
fn push_bool_entry(out: &mut Vec<(String, Value)>, key: &str, b: bool)
    ensures
        obj_model(final(out)@) == obj_model(old(out)@).push((key@, SpecVal::Bool(b))),
{
    broadcast use crate::value::lemma_obj_model_push;

    out.push((key.to_owned(), Value::Bool(b)));
}

/// Decodes a request's fields from envelope entries.
fn dec_request(entries: &Vec<(String, Value)>) -> (r: Result<Request, DecodeError>)
    ensures
        match r {
            Result::Ok(rq) => spec_decode_request(obj_model(entries@)) == Result::<
                RequestV,
                ErrV,
            >::Ok(rq@) && request_wf(rq@),
            Result::Err(err) => spec_decode_request(obj_model(entries@)) == Result::<
                RequestV,
                ErrV,
            >::Err(err@),
        },
{
    let seq = match read_u64_field(entries, "seq") {
        Result::Ok(n) => n,
        Result::Err(fe) => return Result::Err(field_to_msg(fe)),
    };
    let command = match read_string_field(entries, "command") {
        Result::Ok(s) => s,
        Result::Err(fe) => return Result::Err(field_to_msg(fe)),
    };
    let arguments = normalize(read_opt_val_field(entries, "arguments"));
    Result::Ok(Request { seq, command, arguments })
}

/// Decodes a response's fields from envelope entries.
fn dec_response(entries: &Vec<(String, Value)>) -> (r: Result<Response, DecodeError>)
    ensures
        match r {
            Result::Ok(rs) => spec_decode_response(obj_model(entries@)) == Result::<
                ResponseV,
                ErrV,
            >::Ok(rs@) && response_wf(rs@),
            Result::Err(err) => spec_decode_response(obj_model(entries@)) == Result::<
                ResponseV,
                ErrV,
            >::Err(err@),
        },
{
    let seq = match read_u64_field(entries, "seq") {
        Result::Ok(n) => n,
        Result::Err(fe) => return Result::Err(field_to_msg(fe)),
    };
    let request_seq = match read_u64_field(entries, "request_seq") {
        Result::Ok(n) => n,
        Result::Err(fe) => return Result::Err(field_to_msg(fe)),
    };
    let success = match read_req_bool_field(entries, "success") {
        Result::Ok(b) => b,
        Result::Err(fe) => return Result::Err(field_to_msg(fe)),
    };
    let command = match read_string_field(entries, "command") {
        Result::Ok(s) => s,
        Result::Err(fe) => return Result::Err(field_to_msg(fe)),
    };
    let body = normalize(read_opt_val_field(entries, "body"));
    Result::Ok(Response { seq, request_seq, success, command, body })
}

/// Decodes a message from a structured value. The three envelope kinds are
/// protocol-fixed: any other `type` tag is an `UnknownEnvelopeKind` error,
/// while unknown event tags inside the event arm never fail.
pub fn decode_message(v: &Value) -> (r: Result<Message, DecodeError>)
    ensures
        match r {
            Result::Ok(m) => spec_decode_message(v@) == Result::<MessageV, ErrV>::Ok(m@)
                && message_wf(m@),
            Result::Err(err) => spec_decode_message(v@) == Result::<MessageV, ErrV>::Err(err@),
        },
{
    match v {
        Value::Obj(entries) => {
            proof {
                assert(val_model(*v)->Obj_0 =~= obj_model(entries@));
            }
            let kind = match read_string_field(entries, "type") {
                Result::Ok(s) => s,
                Result::Err(fe) => return Result::Err(field_to_msg(fe)),
            };
            if str_eq(kind.as_str(), "request") {
                match dec_request(entries) {
                    Result::Ok(rq) => Result::Ok(Message::Request(rq)),
                    Result::Err(err) => Result::Err(err),
                }
            } else if str_eq(kind.as_str(), "response") {
                match dec_response(entries) {
                    Result::Ok(rs) => Result::Ok(Message::Response(rs)),
                    Result::Err(err) => Result::Err(err),
                }
            } else if str_eq(kind.as_str(), "event") {
                match decode_event(v) {
                    Result::Ok(e) => Result::Ok(Message::Event(Box::new(e))),
                    Result::Err(err) => Result::Err(err),
                }
            } else {
                Result::Err(DecodeError::UnknownEnvelopeKind(kind))
            }
        },
        _ => Result::Err(DecodeError::NotARecord),
    }
}

/// Encodes a message as a structured value, the structural inverse of
/// `decode_message`; a well-formed message always encodes.
pub fn encode_message(m: &Message) -> (r: Value)
    requires
        message_wf(m@),
    ensures
        r@ == spec_encode_message(m@),
{
    broadcast use crate::value::lemma_val_model_obj, crate::value::lemma_obj_model_concat;

    match m {
        Message::Request(rq) => {
            let mut out: Vec<(String, Value)> = Vec::new();
            proof {
                assert(obj_model(out@) =~= Seq::<(Seq<char>, SpecVal)>::empty());
            }
            push_lit_field(&mut out, "type", "request");
            push_int_field(&mut out, "seq", rq.seq as i64);
            push_str_field(&mut out, "command", &rq.command);
            push_opt_val_field(&mut out, "arguments", &rq.arguments);
            Value::Obj(out)
        },
        Message::Response(rs) => {
            let mut out: Vec<(String, Value)> = Vec::new();
            proof {
                assert(obj_model(out@) =~= Seq::<(Seq<char>, SpecVal)>::empty());
            }
            push_lit_field(&mut out, "type", "response");
            push_int_field(&mut out, "seq", rs.seq as i64);
            push_int_field(&mut out, "request_seq", rs.request_seq as i64);
            push_bool_entry(&mut out, "success", rs.success);
            push_str_field(&mut out, "command", &rs.command);
            push_opt_val_field(&mut out, "body", &rs.body);
            Value::Obj(out)
        },
        Message::Event(e) => {
            let ev = encode_event(e);
            let mut out: Vec<(String, Value)> = Vec::new();
            proof {
                assert(obj_model(out@) =~= Seq::<(Seq<char>, SpecVal)>::empty());
            }
            push_lit_field(&mut out, "type", "event");
            match ev {
                Value::Obj(mut entries) => {
                    proof {
                        assert(spec_encode_event(events_model(**e))->Obj_0 =~= obj_model(
                            entries@,
                        ));
                    }
                    out.append(&mut entries);
                    Value::Obj(out)
                },
                _ => {
                    proof {
                        assert(false);
                    }
                    Value::Null
                },
            }
        },
    }
}

/// The messages whose wire round trip is proved here: all of them, except
/// an event carrying a capability record (see
/// `crate::events::event_round_trip_supported`).
pub open spec fn message_round_trip_supported(m: MessageV) -> bool {
    match m {
        MessageV::Event(e) => crate::events::event_round_trip_supported(e),
        MessageV::Response(_) => true,
        MessageV::Request(_) => true,
    }
}

/// Decoding the encoding of a well-formed message yields the message back:
/// the envelope encoding is the structural inverse of envelope decoding.
pub proof fn lemma_message_round_trip(m: MessageV)
    requires
        message_wf(m),
        message_round_trip_supported(m),
    ensures
        spec_decode_message(spec_encode_message(m)) == Result::<MessageV, ErrV>::Ok(m),
{
    broadcast use
        crate::value::lemma_get_push_opt,
        crate::value::lemma_get_push_other,
        crate::value::lemma_get_push_same,
        crate::value::lemma_get_concat;

    reveal_strlit("type");
    reveal_strlit("seq");
    reveal_strlit("command");
    reveal_strlit("arguments");
    reveal_strlit("request_seq");
    reveal_strlit("success");
    reveal_strlit("body");
    reveal_strlit("event");
    reveal_strlit("request");
    reveal_strlit("response");
    assert("type"@.len() == 4);
    assert("seq"@.len() == 3);
    assert("command"@.len() == 7);
    assert("arguments"@.len() == 9);
    assert("request_seq"@.len() == 11);
    assert("success"@.len() == 7);
    assert("body"@.len() == 4);
    assert("event"@.len() == 5);
    assert("request"@.len() == 7);
    assert("response"@.len() == 8);
    assert("type"@[0] == 't');
    assert("body"@[0] == 'b');
    assert("command"@[0] == 'c');
    assert("success"@[0] == 's');
    assert("request"@[0] == 'r');
    assert("event"@[0] == 'e');
    match m {
        MessageV::Request(_) => {},
        MessageV::Response(_) => {},
        MessageV::Event(e) => {
            let prefix = Seq::<(Seq<char>, SpecVal)>::empty().push(
                ("type"@, SpecVal::Str("event"@)),
            );
            assert(prefix.drop_last() =~= Seq::<(Seq<char>, SpecVal)>::empty());
            assert(spec_get(prefix, "body"@) is None);
            assert(spec_get(prefix, "event"@) is None);
            crate::events::lemma_event_round_trip(prefix, e);
        },
    }
}

} // verus!
