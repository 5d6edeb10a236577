//! The event layer: a tagged union over the known event kinds, decoded by
//! tag with a lossless catch-all for unrecognized tags, so that unknown
//! future event kinds never fail to decode.

use vstd::prelude::*;

use crate::capabilities::{
    decode_capabilities, encode_capabilities, spec_caps_entries, spec_decode_caps, Capabilities,
    CapabilitiesV,
};
use crate::error::{spec_field_to_msg, DecodeError, ErrV, FieldErrV, FieldError};
use crate::fields::{
    push_int_field, push_lit_field, push_obj_field, push_opt_int_field, push_opt_str_field,
    push_opt_val_field, push_str_field, push_val_field, read_int_field, read_opt_int_field,
    read_opt_string_field, read_opt_val_field, read_string_field, read_val_field,
    spec_read_int, spec_read_opt_int, spec_read_opt_string, spec_read_string, spec_read_val,
};
use crate::value::{
    get_field, obj_model, opt_model, push_opt, spec_get, str_eq, val_model, SpecVal, Value,
};

verus! {

broadcast use vstd::std_specs::vec::group_vec_axioms, vstd::seq::group_seq_axioms;

/// Payload of the `stopped` event.
#[derive(Debug, PartialEq)]
pub struct StoppedEvent {
    pub reason: String,
    pub thread_id: Option<i64>,
}

/// Payload of the `continued` event.
#[derive(Debug, PartialEq)]
pub struct ContinuedEvent {
    pub thread_id: i64,
}

/// Payload of the `exited` event.
#[derive(Debug, PartialEq)]
pub struct ExitedEvent {
    pub exit_code: i64,
}

/// Payload of the `thread` event.
#[derive(Debug, PartialEq)]
pub struct ThreadEvent {
    pub reason: String,
    pub thread_id: i64,
}

/// Payload of the `output` event.
#[derive(Debug, PartialEq)]
pub struct OutputEvent {
    pub category: Option<String>,
    pub output: String,
}

/// Payload of the `breakpoint` event.
#[derive(Debug, PartialEq)]
pub struct BreakpointEvent {
    pub reason: String,
    pub breakpoint: Value,
}

/// Payload of the `module` event.
#[derive(Debug, PartialEq)]
pub struct ModuleEvent {
    pub reason: String,
    pub module: Value,
}

/// Payload of the `loadedSource` event.
#[derive(Debug, PartialEq)]
pub struct LoadedSourceEvent {
    pub reason: String,
    pub source: Value,
}

/// Payload of the `process` event.
#[derive(Debug, PartialEq)]
pub struct ProcessEvent {
    pub name: String,
}

/// Payload of the `progressStart` event.
#[derive(Debug, PartialEq)]
pub struct ProgressStartEvent {
    pub progress_id: String,
    pub title: String,
}

/// Payload of the `progressUpdate` event.
#[derive(Debug, PartialEq)]
pub struct ProgressUpdateEvent {
    pub progress_id: String,
}

/// Payload of the `progressEnd` event.
#[derive(Debug, PartialEq)]
pub struct ProgressEndEvent {
    pub progress_id: String,
}

/// Payload of the `invalidated` event.
#[derive(Debug, PartialEq)]
pub struct InvalidatedEvent {
    pub thread_id: Option<i64>,
}

/// Payload of the `memory` event.
#[derive(Debug, PartialEq)]
pub struct MemoryEvent {
    pub memory_reference: String,
    pub offset: i64,
    pub count: i64,
}

/// Payload of the `terminated` event.
#[derive(Debug, PartialEq)]
pub struct TerminatedEvent {
    pub restart: Option<Value>,
}

/// Payload of the `capabilities` event.
#[derive(Debug, PartialEq)]
pub struct CapabilitiesEvent {
    pub capabilities: Capabilities,
}

/// An event whose tag is not in the known catalog: the tag and the raw,
/// uninterpreted payload are preserved verbatim.
#[derive(Debug, PartialEq)]
pub struct OtherEvent {
    pub event: String,
    pub body: Value,
}

/// The event tagged union: the known kinds, plus the `Other` fallback
/// that keeps any unrecognized event representable.
#[derive(Debug, PartialEq)]
pub enum Events {
    Initialized(Option<Capabilities>),
    Stopped(StoppedEvent),
    Continued(ContinuedEvent),
    Exited(ExitedEvent),
    Terminated(Option<TerminatedEvent>),
    Thread(ThreadEvent),
    Output(OutputEvent),
    Breakpoint(BreakpointEvent),
    Module(ModuleEvent),
    LoadedSource(LoadedSourceEvent),
    Process(ProcessEvent),
    Capabilities(CapabilitiesEvent),
    ProgressStart(ProgressStartEvent),
    ProgressUpdate(ProgressUpdateEvent),
    ProgressEnd(ProgressEndEvent),
    Invalidated(InvalidatedEvent),
    Memory(MemoryEvent),
    Other(OtherEvent),
}

/// Mathematical model of an event.
#[verifier::ext_equal]
pub enum EventsV {
    Initialized(Option<CapabilitiesV>),
    Stopped {
        reason: Seq<char>,
        thread_id: Option<int>,
    },
    Continued {
        thread_id: int,
    },
    Exited {
        exit_code: int,
    },
    Terminated(Option<Option<SpecVal>>),
    Thread {
        reason: Seq<char>,
        thread_id: int,
    },
    Output {
        category: Option<Seq<char>>,
        output: Seq<char>,
    },
    Breakpoint {
        reason: Seq<char>,
        breakpoint: SpecVal,
    },
    Module {
        reason: Seq<char>,
        module: SpecVal,
    },
    LoadedSource {
        reason: Seq<char>,
        source: SpecVal,
    },
    Process {
        name: Seq<char>,
    },
    Capabilities { capabilities: CapabilitiesV },
    ProgressStart {
        progress_id: Seq<char>,
        title: Seq<char>,
    },
    ProgressUpdate {
        progress_id: Seq<char>,
    },
    ProgressEnd {
        progress_id: Seq<char>,
    },
    Invalidated {
        thread_id: Option<int>,
    },
    Memory {
        memory_reference: Seq<char>,
        offset: int,
        count: int,
    },
    Other { event: Seq<char>, body: SpecVal },
}

/// The model of an exec event.
pub open spec fn events_model(e: Events) -> EventsV {
    match e {
        Events::Initialized(op) => EventsV::Initialized(
            match op {
                Option::Some(c) => Option::Some(c@),
                Option::None => Option::None,
            },
        ),
        Events::Stopped(p) => EventsV::Stopped {
            reason: p.reason@,
            thread_id: (match p.thread_id { Option::Some(n) => Option::Some(n as int), Option::None => Option::None }),
        },
        Events::Continued(p) => EventsV::Continued {
            thread_id: p.thread_id as int,
        },
        Events::Exited(p) => EventsV::Exited {
            exit_code: p.exit_code as int,
        },
        Events::Terminated(op) => EventsV::Terminated(
            match op {
                Option::Some(t) => Option::Some(
                    match t.restart {
                        Option::Some(v) => Option::Some(v@),
                        Option::None => Option::None,
                    },
                ),
                Option::None => Option::None,
            },
        ),
        Events::Thread(p) => EventsV::Thread {
            reason: p.reason@,
            thread_id: p.thread_id as int,
        },
        Events::Output(p) => EventsV::Output {
            category: (match p.category { Option::Some(s) => Option::Some(s@), Option::None => Option::None }),
            output: p.output@,
        },
        Events::Breakpoint(p) => EventsV::Breakpoint {
            reason: p.reason@,
            breakpoint: p.breakpoint@,
        },
        Events::Module(p) => EventsV::Module {
            reason: p.reason@,
            module: p.module@,
        },
        Events::LoadedSource(p) => EventsV::LoadedSource {
            reason: p.reason@,
            source: p.source@,
        },
        Events::Process(p) => EventsV::Process {
            name: p.name@,
        },
        Events::Capabilities(p) => EventsV::Capabilities { capabilities: p.capabilities@ },
        Events::ProgressStart(p) => EventsV::ProgressStart {
            progress_id: p.progress_id@,
            title: p.title@,
        },
        Events::ProgressUpdate(p) => EventsV::ProgressUpdate {
            progress_id: p.progress_id@,
        },
        Events::ProgressEnd(p) => EventsV::ProgressEnd {
            progress_id: p.progress_id@,
        },
        Events::Invalidated(p) => EventsV::Invalidated {
            thread_id: (match p.thread_id { Option::Some(n) => Option::Some(n as int), Option::None => Option::None }),
        },
        Events::Memory(p) => EventsV::Memory {
            memory_reference: p.memory_reference@,
            offset: p.offset as int,
            count: p.count as int,
        },
        Events::Other(o) => EventsV::Other { event: o.event@, body: o.body@ },
    }
}

impl View for Events {
    type V = EventsV;

    open spec fn view(&self) -> EventsV {
        events_model(*self)
    }
}

/// True of the tags in the known event catalog.
pub open spec fn is_known_tag(tag: Seq<char>) -> bool {
    ||| tag == "initialized"@
    ||| tag == "stopped"@
    ||| tag == "continued"@
    ||| tag == "exited"@
    ||| tag == "terminated"@
    ||| tag == "thread"@
    ||| tag == "output"@
    ||| tag == "breakpoint"@
    ||| tag == "module"@
    ||| tag == "loadedSource"@
    ||| tag == "process"@
    ||| tag == "capabilities"@
    ||| tag == "progressStart"@
    ||| tag == "progressUpdate"@
    ||| tag == "progressEnd"@
    ||| tag == "invalidated"@
    ||| tag == "memory"@
}

/// An absent payload carried as the null value in the fallback variant.
pub open spec fn body_or_null(body: Option<SpecVal>) -> SpecVal {
    match body {
        Option::Some(v) => v,
        Option::None => SpecVal::Null,
    }
}

/// What decoding a `initialized` payload yields.
pub open spec fn spec_dec_initialized(tag: Seq<char>, body: Option<SpecVal>) -> Result<
    EventsV,
    ErrV,
> {
    match body {
        Option::None => Result::Ok(EventsV::Initialized(Option::None)),
        Option::Some(SpecVal::Null) => Result::Ok(EventsV::Initialized(Option::None)),
        Option::Some(SpecVal::Obj(e)) => match spec_decode_caps(e) {
            Result::Ok(c) => Result::Ok(EventsV::Initialized(Option::Some(c))),
            Result::Err(fe) => Result::Err(ErrV::EventPayload(tag, fe)),
        },
        Option::Some(_) => Result::Err(ErrV::EventPayload(tag, FieldErrV::Wrong("body"@))),
    }
}

/// What decoding a `stopped` payload yields.
pub open spec fn spec_dec_stopped(tag: Seq<char>, body: Option<SpecVal>) -> Result<
    EventsV,
    ErrV,
> {
    match body {
        Option::None => Result::Err(ErrV::EventPayload(tag, FieldErrV::Missing("body"@))),
        Option::Some(SpecVal::Obj(e)) => match spec_read_string(e, "reason"@) {
            Result::Err(fe) => Result::Err(ErrV::EventPayload(tag, fe)),
            Result::Ok(reason) => match spec_read_opt_int(e, "threadId"@) {
            Result::Err(fe) => Result::Err(ErrV::EventPayload(tag, fe)),
            Result::Ok(thread_id) => Result::Ok(EventsV::Stopped { reason, thread_id }),
        },
        },
        Option::Some(_) => Result::Err(ErrV::EventPayload(tag, FieldErrV::Wrong("body"@))),
    }
}

/// What decoding a `continued` payload yields.
pub open spec fn spec_dec_continued(tag: Seq<char>, body: Option<SpecVal>) -> Result<
    EventsV,
    ErrV,
> {
    match body {
        Option::None => Result::Err(ErrV::EventPayload(tag, FieldErrV::Missing("body"@))),
        Option::Some(SpecVal::Obj(e)) => match spec_read_int(e, "threadId"@) {
            Result::Err(fe) => Result::Err(ErrV::EventPayload(tag, fe)),
            Result::Ok(thread_id) => Result::Ok(EventsV::Continued { thread_id }),
        },
        Option::Some(_) => Result::Err(ErrV::EventPayload(tag, FieldErrV::Wrong("body"@))),
    }
}

/// What decoding a `exited` payload yields.
pub open spec fn spec_dec_exited(tag: Seq<char>, body: Option<SpecVal>) -> Result<
    EventsV,
    ErrV,
> {
    match body {
        Option::None => Result::Err(ErrV::EventPayload(tag, FieldErrV::Missing("body"@))),
        Option::Some(SpecVal::Obj(e)) => match spec_read_int(e, "exitCode"@) {
            Result::Err(fe) => Result::Err(ErrV::EventPayload(tag, fe)),
            Result::Ok(exit_code) => Result::Ok(EventsV::Exited { exit_code }),
        },
        Option::Some(_) => Result::Err(ErrV::EventPayload(tag, FieldErrV::Wrong("body"@))),
    }
}

/// What decoding a `terminated` payload yields.
pub open spec fn spec_dec_terminated(tag: Seq<char>, body: Option<SpecVal>) -> Result<
    EventsV,
    ErrV,
> {
    match body {
        Option::None => Result::Ok(EventsV::Terminated(Option::None)),
        Option::Some(SpecVal::Null) => Result::Ok(EventsV::Terminated(Option::None)),
        Option::Some(SpecVal::Obj(e)) => Result::Ok(
            EventsV::Terminated(Option::Some(spec_get(e, "restart"@))),
        ),
        Option::Some(_) => Result::Err(ErrV::EventPayload(tag, FieldErrV::Wrong("body"@))),
    }
}

/// What decoding a `thread` payload yields.
pub open spec fn spec_dec_thread(tag: Seq<char>, body: Option<SpecVal>) -> Result<
    EventsV,
    ErrV,
> {
    match body {
        Option::None => Result::Err(ErrV::EventPayload(tag, FieldErrV::Missing("body"@))),
        Option::Some(SpecVal::Obj(e)) => match spec_read_string(e, "reason"@) {
            Result::Err(fe) => Result::Err(ErrV::EventPayload(tag, fe)),
            Result::Ok(reason) => match spec_read_int(e, "threadId"@) {
            Result::Err(fe) => Result::Err(ErrV::EventPayload(tag, fe)),
            Result::Ok(thread_id) => Result::Ok(EventsV::Thread { reason, thread_id }),
        },
        },
        Option::Some(_) => Result::Err(ErrV::EventPayload(tag, FieldErrV::Wrong("body"@))),
    }
}

/// What decoding a `output` payload yields.
pub open spec fn spec_dec_output(tag: Seq<char>, body: Option<SpecVal>) -> Result<
    EventsV,
    ErrV,
> {
    match body {
        Option::None => Result::Err(ErrV::EventPayload(tag, FieldErrV::Missing("body"@))),
        Option::Some(SpecVal::Obj(e)) => match spec_read_opt_string(e, "category"@) {
            Result::Err(fe) => Result::Err(ErrV::EventPayload(tag, fe)),
            Result::Ok(category) => match spec_read_string(e, "output"@) {
            Result::Err(fe) => Result::Err(ErrV::EventPayload(tag, fe)),
            Result::Ok(output) => Result::Ok(EventsV::Output { category, output }),
        },
        },
        Option::Some(_) => Result::Err(ErrV::EventPayload(tag, FieldErrV::Wrong("body"@))),
    }
}

/// What decoding a `breakpoint` payload yields.
pub open spec fn spec_dec_breakpoint(tag: Seq<char>, body: Option<SpecVal>) -> Result<
    EventsV,
    ErrV,
> {
    match body {
        Option::None => Result::Err(ErrV::EventPayload(tag, FieldErrV::Missing("body"@))),
        Option::Some(SpecVal::Obj(e)) => match spec_read_string(e, "reason"@) {
            Result::Err(fe) => Result::Err(ErrV::EventPayload(tag, fe)),
            Result::Ok(reason) => match spec_read_val(e, "breakpoint"@) {
            Result::Err(fe) => Result::Err(ErrV::EventPayload(tag, fe)),
            Result::Ok(breakpoint) => Result::Ok(EventsV::Breakpoint { reason, breakpoint }),
        },
        },
        Option::Some(_) => Result::Err(ErrV::EventPayload(tag, FieldErrV::Wrong("body"@))),
    }
}

/// What decoding a `module` payload yields.
pub open spec fn spec_dec_module(tag: Seq<char>, body: Option<SpecVal>) -> Result<
    EventsV,
    ErrV,
> {
    match body {
        Option::None => Result::Err(ErrV::EventPayload(tag, FieldErrV::Missing("body"@))),
        Option::Some(SpecVal::Obj(e)) => match spec_read_string(e, "reason"@) {
            Result::Err(fe) => Result::Err(ErrV::EventPayload(tag, fe)),
            Result::Ok(reason) => match spec_read_val(e, "module"@) {
            Result::Err(fe) => Result::Err(ErrV::EventPayload(tag, fe)),
            Result::Ok(module) => Result::Ok(EventsV::Module { reason, module }),
        },
        },
        Option::Some(_) => Result::Err(ErrV::EventPayload(tag, FieldErrV::Wrong("body"@))),
    }
}

/// What decoding a `loadedSource` payload yields.
pub open spec fn spec_dec_loadedsource(tag: Seq<char>, body: Option<SpecVal>) -> Result<
    EventsV,
    ErrV,
> {
    match body {
        Option::None => Result::Err(ErrV::EventPayload(tag, FieldErrV::Missing("body"@))),
        Option::Some(SpecVal::Obj(e)) => match spec_read_string(e, "reason"@) {
            Result::Err(fe) => Result::Err(ErrV::EventPayload(tag, fe)),
            Result::Ok(reason) => match spec_read_val(e, "source"@) {
            Result::Err(fe) => Result::Err(ErrV::EventPayload(tag, fe)),
            Result::Ok(source) => Result::Ok(EventsV::LoadedSource { reason, source }),
        },
        },
        Option::Some(_) => Result::Err(ErrV::EventPayload(tag, FieldErrV::Wrong("body"@))),
    }
}

/// What decoding a `process` payload yields.
pub open spec fn spec_dec_process(tag: Seq<char>, body: Option<SpecVal>) -> Result<
    EventsV,
    ErrV,
> {
    match body {
        Option::None => Result::Err(ErrV::EventPayload(tag, FieldErrV::Missing("body"@))),
        Option::Some(SpecVal::Obj(e)) => match spec_read_string(e, "name"@) {
            Result::Err(fe) => Result::Err(ErrV::EventPayload(tag, fe)),
            Result::Ok(name) => Result::Ok(EventsV::Process { name }),
        },
        Option::Some(_) => Result::Err(ErrV::EventPayload(tag, FieldErrV::Wrong("body"@))),
    }
}

/// What decoding a `capabilities` payload yields.
pub open spec fn spec_dec_capabilities(tag: Seq<char>, body: Option<SpecVal>) -> Result<
    EventsV,
    ErrV,
> {
    match body {
        Option::None => Result::Err(ErrV::EventPayload(tag, FieldErrV::Missing("body"@))),
        Option::Some(SpecVal::Obj(e)) => match spec_get(e, "capabilities"@) {
            Option::None => Result::Err(
                ErrV::EventPayload(tag, FieldErrV::Missing("capabilities"@)),
            ),
            Option::Some(SpecVal::Obj(ce)) => match spec_decode_caps(ce) {
                Result::Ok(c) => Result::Ok(EventsV::Capabilities { capabilities: c }),
                Result::Err(fe) => Result::Err(ErrV::EventPayload(tag, fe)),
            },
            Option::Some(_) => Result::Err(
                ErrV::EventPayload(tag, FieldErrV::Wrong("capabilities"@)),
            ),
        },
        Option::Some(_) => Result::Err(ErrV::EventPayload(tag, FieldErrV::Wrong("body"@))),
    }
}

/// What decoding a `progressStart` payload yields.
pub open spec fn spec_dec_progressstart(tag: Seq<char>, body: Option<SpecVal>) -> Result<
    EventsV,
    ErrV,
> {
    match body {
        Option::None => Result::Err(ErrV::EventPayload(tag, FieldErrV::Missing("body"@))),
        Option::Some(SpecVal::Obj(e)) => match spec_read_string(e, "progressId"@) {
            Result::Err(fe) => Result::Err(ErrV::EventPayload(tag, fe)),
            Result::Ok(progress_id) => match spec_read_string(e, "title"@) {
            Result::Err(fe) => Result::Err(ErrV::EventPayload(tag, fe)),
            Result::Ok(title) => Result::Ok(EventsV::ProgressStart { progress_id, title }),
        },
        },
        Option::Some(_) => Result::Err(ErrV::EventPayload(tag, FieldErrV::Wrong("body"@))),
    }
}

/// What decoding a `progressUpdate` payload yields.
pub open spec fn spec_dec_progressupdate(tag: Seq<char>, body: Option<SpecVal>) -> Result<
    EventsV,
    ErrV,
> {
    match body {
        Option::None => Result::Err(ErrV::EventPayload(tag, FieldErrV::Missing("body"@))),
        Option::Some(SpecVal::Obj(e)) => match spec_read_string(e, "progressId"@) {
            Result::Err(fe) => Result::Err(ErrV::EventPayload(tag, fe)),
            Result::Ok(progress_id) => Result::Ok(EventsV::ProgressUpdate { progress_id }),
        },
        Option::Some(_) => Result::Err(ErrV::EventPayload(tag, FieldErrV::Wrong("body"@))),
    }
}

/// What decoding a `progressEnd` payload yields.
pub open spec fn spec_dec_progressend(tag: Seq<char>, body: Option<SpecVal>) -> Result<
    EventsV,
    ErrV,
> {
    match body {
        Option::None => Result::Err(ErrV::EventPayload(tag, FieldErrV::Missing("body"@))),
        Option::Some(SpecVal::Obj(e)) => match spec_read_string(e, "progressId"@) {
            Result::Err(fe) => Result::Err(ErrV::EventPayload(tag, fe)),
            Result::Ok(progress_id) => Result::Ok(EventsV::ProgressEnd { progress_id }),
        },
        Option::Some(_) => Result::Err(ErrV::EventPayload(tag, FieldErrV::Wrong("body"@))),
    }
}

/// What decoding a `invalidated` payload yields.
pub open spec fn spec_dec_invalidated(tag: Seq<char>, body: Option<SpecVal>) -> Result<
    EventsV,
    ErrV,
> {
    match body {
        Option::None => Result::Err(ErrV::EventPayload(tag, FieldErrV::Missing("body"@))),
        Option::Some(SpecVal::Obj(e)) => match spec_read_opt_int(e, "threadId"@) {
            Result::Err(fe) => Result::Err(ErrV::EventPayload(tag, fe)),
            Result::Ok(thread_id) => Result::Ok(EventsV::Invalidated { thread_id }),
        },
        Option::Some(_) => Result::Err(ErrV::EventPayload(tag, FieldErrV::Wrong("body"@))),
    }
}

/// What decoding a `memory` payload yields.
pub open spec fn spec_dec_memory(tag: Seq<char>, body: Option<SpecVal>) -> Result<
    EventsV,
    ErrV,
> {
    match body {
        Option::None => Result::Err(ErrV::EventPayload(tag, FieldErrV::Missing("body"@))),
        Option::Some(SpecVal::Obj(e)) => match spec_read_string(e, "memoryReference"@) {
            Result::Err(fe) => Result::Err(ErrV::EventPayload(tag, fe)),
            Result::Ok(memory_reference) => match spec_read_int(e, "offset"@) {
            Result::Err(fe) => Result::Err(ErrV::EventPayload(tag, fe)),
            Result::Ok(offset) => match spec_read_int(e, "count"@) {
            Result::Err(fe) => Result::Err(ErrV::EventPayload(tag, fe)),
            Result::Ok(count) => Result::Ok(EventsV::Memory { memory_reference, offset, count }),
        },
        },
        },
        Option::Some(_) => Result::Err(ErrV::EventPayload(tag, FieldErrV::Wrong("body"@))),
    }
}

/// Dispatches a tagged event payload: a known tag decodes its typed
/// payload; any other tag falls back to the lossless `Other` variant.
pub open spec fn spec_decode_tagged(tag: Seq<char>, body: Option<SpecVal>) -> Result<
    EventsV,
    ErrV,
> {
    if tag == "initialized"@ {
        spec_dec_initialized(tag, body)
    } else if tag == "stopped"@ {
        spec_dec_stopped(tag, body)
    } else if tag == "continued"@ {
        spec_dec_continued(tag, body)
    } else if tag == "exited"@ {
        spec_dec_exited(tag, body)
    } else if tag == "terminated"@ {
        spec_dec_terminated(tag, body)
    } else if tag == "thread"@ {
        spec_dec_thread(tag, body)
    } else if tag == "output"@ {
        spec_dec_output(tag, body)
    } else if tag == "breakpoint"@ {
        spec_dec_breakpoint(tag, body)
    } else if tag == "module"@ {
        spec_dec_module(tag, body)
    } else if tag == "loadedSource"@ {
        spec_dec_loadedsource(tag, body)
    } else if tag == "process"@ {
        spec_dec_process(tag, body)
    } else if tag == "capabilities"@ {
        spec_dec_capabilities(tag, body)
    } else if tag == "progressStart"@ {
        spec_dec_progressstart(tag, body)
    } else if tag == "progressUpdate"@ {
        spec_dec_progressupdate(tag, body)
    } else if tag == "progressEnd"@ {
        spec_dec_progressend(tag, body)
    } else if tag == "invalidated"@ {
        spec_dec_invalidated(tag, body)
    } else if tag == "memory"@ {
        spec_dec_memory(tag, body)
    } else {
        Result::Ok(EventsV::Other { event: tag, body: body_or_null(body) })
    }
}

/// What decoding an event from a structured value yields.
pub open spec fn spec_decode_event(v: SpecVal) -> Result<EventsV, ErrV> {
    match v {
        SpecVal::Obj(entries) => match spec_read_string(entries, "event"@) {
            Result::Err(fe) => Result::Err(spec_field_to_msg(fe)),
            Result::Ok(tag) => spec_decode_tagged(tag, spec_get(entries, "body"@)),
        },
        _ => Result::Err(ErrV::NotARecord),
    }
}

/// An unrecognized tag never fails to decode: whatever the payload, the
/// result is the fallback variant carrying the tag and payload verbatim.
pub proof fn lemma_unknown_tag_total(tag: Seq<char>, body: Option<SpecVal>)
    requires
        !is_known_tag(tag),
    ensures
        spec_decode_tagged(tag, body) == Result::<EventsV, ErrV>::Ok(
            EventsV::Other { event: tag, body: body_or_null(body) },
        ),
{
}

/// Decodes a `initialized` payload.
fn dec_initialized(tag: String, body: &Option<Value>) -> (r: Result<Events, DecodeError>)
    ensures
        match r {
            Result::Ok(ev) => spec_dec_initialized(tag@, opt_model(*body)) == Result::<
                EventsV,
                ErrV,
            >::Ok(ev@),
            Result::Err(err) => spec_dec_initialized(tag@, opt_model(*body)) == Result::<
                EventsV,
                ErrV,
            >::Err(err@),
        },
{
    match body {
        Option::None => Result::Ok(Events::Initialized(Option::None)),
        Option::Some(bv) => match bv {
            Value::Null => Result::Ok(Events::Initialized(Option::None)),
            Value::Obj(be) => {
                proof {
                    assert(val_model(*bv)->Obj_0 =~= obj_model(be@));
                }
                match decode_capabilities(be) {
                    Result::Ok(c) => Result::Ok(Events::Initialized(Option::Some(c))),
                    Result::Err(fe) => Result::Err(DecodeError::EventPayload(tag, fe)),
                }
            },
            _ => Result::Err(
                DecodeError::EventPayload(tag, FieldError::Wrong("body".to_owned())),
            ),
        },
    }
}

/// Decodes a `stopped` payload.
fn dec_stopped(tag: String, body: &Option<Value>) -> (r: Result<Events, DecodeError>)
    ensures
        match r {
            Result::Ok(ev) => spec_dec_stopped(tag@, opt_model(*body)) == Result::<
                EventsV,
                ErrV,
            >::Ok(ev@),
            Result::Err(err) => spec_dec_stopped(tag@, opt_model(*body)) == Result::<
                EventsV,
                ErrV,
            >::Err(err@),
        },
{
    match body {
        Option::None => Result::Err(
            DecodeError::EventPayload(tag, FieldError::Missing("body".to_owned())),
        ),
        Option::Some(bv) => match bv {
            Value::Obj(be) => {
                proof {
                    assert(val_model(*bv)->Obj_0 =~= obj_model(be@));
                }
                let reason = match read_string_field(be, "reason") {
                    Result::Ok(v) => v,
                    Result::Err(fe) => return Result::Err(DecodeError::EventPayload(tag, fe)),
                };
                let thread_id = match read_opt_int_field(be, "threadId") {
                    Result::Ok(v) => v,
                    Result::Err(fe) => return Result::Err(DecodeError::EventPayload(tag, fe)),
                };
                Result::Ok(Events::Stopped(StoppedEvent { reason, thread_id }))
            },
            _ => Result::Err(
                DecodeError::EventPayload(tag, FieldError::Wrong("body".to_owned())),
            ),
        },
    }
}

/// Decodes a `continued` payload.
fn dec_continued(tag: String, body: &Option<Value>) -> (r: Result<Events, DecodeError>)
    ensures
        match r {
            Result::Ok(ev) => spec_dec_continued(tag@, opt_model(*body)) == Result::<
                EventsV,
                ErrV,
            >::Ok(ev@),
            Result::Err(err) => spec_dec_continued(tag@, opt_model(*body)) == Result::<
                EventsV,
                ErrV,
            >::Err(err@),
        },
{
    match body {
        Option::None => Result::Err(
            DecodeError::EventPayload(tag, FieldError::Missing("body".to_owned())),
        ),
        Option::Some(bv) => match bv {
            Value::Obj(be) => {
                proof {
                    assert(val_model(*bv)->Obj_0 =~= obj_model(be@));
                }
                let thread_id = match read_int_field(be, "threadId") {
                    Result::Ok(v) => v,
                    Result::Err(fe) => return Result::Err(DecodeError::EventPayload(tag, fe)),
                };
                Result::Ok(Events::Continued(ContinuedEvent { thread_id }))
            },
            _ => Result::Err(
                DecodeError::EventPayload(tag, FieldError::Wrong("body".to_owned())),
            ),
        },
    }
}

/// Decodes a `exited` payload.
fn dec_exited(tag: String, body: &Option<Value>) -> (r: Result<Events, DecodeError>)
    ensures
        match r {
            Result::Ok(ev) => spec_dec_exited(tag@, opt_model(*body)) == Result::<
                EventsV,
                ErrV,
            >::Ok(ev@),
            Result::Err(err) => spec_dec_exited(tag@, opt_model(*body)) == Result::<
                EventsV,
                ErrV,
            >::Err(err@),
        },
{
    match body {
        Option::None => Result::Err(
            DecodeError::EventPayload(tag, FieldError::Missing("body".to_owned())),
        ),
        Option::Some(bv) => match bv {
            Value::Obj(be) => {
                proof {
                    assert(val_model(*bv)->Obj_0 =~= obj_model(be@));
                }
                let exit_code = match read_int_field(be, "exitCode") {
                    Result::Ok(v) => v,
                    Result::Err(fe) => return Result::Err(DecodeError::EventPayload(tag, fe)),
                };
                Result::Ok(Events::Exited(ExitedEvent { exit_code }))
            },
            _ => Result::Err(
                DecodeError::EventPayload(tag, FieldError::Wrong("body".to_owned())),
            ),
        },
    }
}

/// Decodes a `terminated` payload.
fn dec_terminated(tag: String, body: &Option<Value>) -> (r: Result<Events, DecodeError>)
    ensures
        match r {
            Result::Ok(ev) => spec_dec_terminated(tag@, opt_model(*body)) == Result::<
                EventsV,
                ErrV,
            >::Ok(ev@),
            Result::Err(err) => spec_dec_terminated(tag@, opt_model(*body)) == Result::<
                EventsV,
                ErrV,
            >::Err(err@),
        },
{
    match body {
        Option::None => Result::Ok(Events::Terminated(Option::None)),
        Option::Some(bv) => match bv {
            Value::Null => Result::Ok(Events::Terminated(Option::None)),
            Value::Obj(be) => {
                proof {
                    assert(val_model(*bv)->Obj_0 =~= obj_model(be@));
                }
                let restart = read_opt_val_field(be, "restart");
                Result::Ok(Events::Terminated(Option::Some(TerminatedEvent { restart })))
            },
            _ => Result::Err(
                DecodeError::EventPayload(tag, FieldError::Wrong("body".to_owned())),
            ),
        },
    }
}

/// Decodes a `thread` payload.
fn dec_thread(tag: String, body: &Option<Value>) -> (r: Result<Events, DecodeError>)
    ensures
        match r {
            Result::Ok(ev) => spec_dec_thread(tag@, opt_model(*body)) == Result::<
                EventsV,
                ErrV,
            >::Ok(ev@),
            Result::Err(err) => spec_dec_thread(tag@, opt_model(*body)) == Result::<
                EventsV,
                ErrV,
            >::Err(err@),
        },
{
    match body {
        Option::None => Result::Err(
            DecodeError::EventPayload(tag, FieldError::Missing("body".to_owned())),
        ),
        Option::Some(bv) => match bv {
            Value::Obj(be) => {
                proof {
                    assert(val_model(*bv)->Obj_0 =~= obj_model(be@));
                }
                let reason = match read_string_field(be, "reason") {
                    Result::Ok(v) => v,
                    Result::Err(fe) => return Result::Err(DecodeError::EventPayload(tag, fe)),
                };
                let thread_id = match read_int_field(be, "threadId") {
                    Result::Ok(v) => v,
                    Result::Err(fe) => return Result::Err(DecodeError::EventPayload(tag, fe)),
                };
                Result::Ok(Events::Thread(ThreadEvent { reason, thread_id }))
            },
            _ => Result::Err(
                DecodeError::EventPayload(tag, FieldError::Wrong("body".to_owned())),
            ),
        },
    }
}

/// Decodes a `output` payload.
fn dec_output(tag: String, body: &Option<Value>) -> (r: Result<Events, DecodeError>)
    ensures
        match r {
            Result::Ok(ev) => spec_dec_output(tag@, opt_model(*body)) == Result::<
                EventsV,
                ErrV,
            >::Ok(ev@),
            Result::Err(err) => spec_dec_output(tag@, opt_model(*body)) == Result::<
                EventsV,
                ErrV,
            >::Err(err@),
        },
{
    match body {
        Option::None => Result::Err(
            DecodeError::EventPayload(tag, FieldError::Missing("body".to_owned())),
        ),
        Option::Some(bv) => match bv {
            Value::Obj(be) => {
                proof {
                    assert(val_model(*bv)->Obj_0 =~= obj_model(be@));
                }
                let category = match read_opt_string_field(be, "category") {
                    Result::Ok(v) => v,
                    Result::Err(fe) => return Result::Err(DecodeError::EventPayload(tag, fe)),
                };
                let output = match read_string_field(be, "output") {
                    Result::Ok(v) => v,
                    Result::Err(fe) => return Result::Err(DecodeError::EventPayload(tag, fe)),
                };
                Result::Ok(Events::Output(OutputEvent { category, output }))
            },
            _ => Result::Err(
                DecodeError::EventPayload(tag, FieldError::Wrong("body".to_owned())),
            ),
        },
    }
}

/// Decodes a `breakpoint` payload.
fn dec_breakpoint(tag: String, body: &Option<Value>) -> (r: Result<Events, DecodeError>)
    ensures
        match r {
            Result::Ok(ev) => spec_dec_breakpoint(tag@, opt_model(*body)) == Result::<
                EventsV,
                ErrV,
            >::Ok(ev@),
            Result::Err(err) => spec_dec_breakpoint(tag@, opt_model(*body)) == Result::<
                EventsV,
                ErrV,
            >::Err(err@),
        },
{
    match body {
        Option::None => Result::Err(
            DecodeError::EventPayload(tag, FieldError::Missing("body".to_owned())),
        ),
        Option::Some(bv) => match bv {
            Value::Obj(be) => {
                proof {
                    assert(val_model(*bv)->Obj_0 =~= obj_model(be@));
                }
                let reason = match read_string_field(be, "reason") {
                    Result::Ok(v) => v,
                    Result::Err(fe) => return Result::Err(DecodeError::EventPayload(tag, fe)),
                };
                let breakpoint = match read_val_field(be, "breakpoint") {
                    Result::Ok(v) => v,
                    Result::Err(fe) => return Result::Err(DecodeError::EventPayload(tag, fe)),
                };
                Result::Ok(Events::Breakpoint(BreakpointEvent { reason, breakpoint }))
            },
            _ => Result::Err(
                DecodeError::EventPayload(tag, FieldError::Wrong("body".to_owned())),
            ),
        },
    }
}

/// Decodes a `module` payload.
fn dec_module(tag: String, body: &Option<Value>) -> (r: Result<Events, DecodeError>)
    ensures
        match r {
            Result::Ok(ev) => spec_dec_module(tag@, opt_model(*body)) == Result::<
                EventsV,
                ErrV,
            >::Ok(ev@),
            Result::Err(err) => spec_dec_module(tag@, opt_model(*body)) == Result::<
                EventsV,
                ErrV,
            >::Err(err@),
        },
{
    match body {
        Option::None => Result::Err(
            DecodeError::EventPayload(tag, FieldError::Missing("body".to_owned())),
        ),
        Option::Some(bv) => match bv {
            Value::Obj(be) => {
                proof {
                    assert(val_model(*bv)->Obj_0 =~= obj_model(be@));
                }
                let reason = match read_string_field(be, "reason") {
                    Result::Ok(v) => v,
                    Result::Err(fe) => return Result::Err(DecodeError::EventPayload(tag, fe)),
                };
                let module = match read_val_field(be, "module") {
                    Result::Ok(v) => v,
                    Result::Err(fe) => return Result::Err(DecodeError::EventPayload(tag, fe)),
                };
                Result::Ok(Events::Module(ModuleEvent { reason, module }))
            },
            _ => Result::Err(
                DecodeError::EventPayload(tag, FieldError::Wrong("body".to_owned())),
            ),
        },
    }
}

/// Decodes a `loadedSource` payload.
fn dec_loadedsource(tag: String, body: &Option<Value>) -> (r: Result<Events, DecodeError>)
    ensures
        match r {
            Result::Ok(ev) => spec_dec_loadedsource(tag@, opt_model(*body)) == Result::<
                EventsV,
                ErrV,
            >::Ok(ev@),
            Result::Err(err) => spec_dec_loadedsource(tag@, opt_model(*body)) == Result::<
                EventsV,
                ErrV,
            >::Err(err@),
        },
{
    match body {
        Option::None => Result::Err(
            DecodeError::EventPayload(tag, FieldError::Missing("body".to_owned())),
        ),
        Option::Some(bv) => match bv {
            Value::Obj(be) => {
                proof {
                    assert(val_model(*bv)->Obj_0 =~= obj_model(be@));
                }
                let reason = match read_string_field(be, "reason") {
                    Result::Ok(v) => v,
                    Result::Err(fe) => return Result::Err(DecodeError::EventPayload(tag, fe)),
                };
                let source = match read_val_field(be, "source") {
                    Result::Ok(v) => v,
                    Result::Err(fe) => return Result::Err(DecodeError::EventPayload(tag, fe)),
                };
                Result::Ok(Events::LoadedSource(LoadedSourceEvent { reason, source }))
            },
            _ => Result::Err(
                DecodeError::EventPayload(tag, FieldError::Wrong("body".to_owned())),
            ),
        },
    }
}

/// Decodes a `process` payload.
fn dec_process(tag: String, body: &Option<Value>) -> (r: Result<Events, DecodeError>)
    ensures
        match r {
            Result::Ok(ev) => spec_dec_process(tag@, opt_model(*body)) == Result::<
                EventsV,
                ErrV,
            >::Ok(ev@),
            Result::Err(err) => spec_dec_process(tag@, opt_model(*body)) == Result::<
                EventsV,
                ErrV,
            >::Err(err@),
        },
{
    match body {
        Option::None => Result::Err(
            DecodeError::EventPayload(tag, FieldError::Missing("body".to_owned())),
        ),
        Option::Some(bv) => match bv {
            Value::Obj(be) => {
                proof {
                    assert(val_model(*bv)->Obj_0 =~= obj_model(be@));
                }
                let name = match read_string_field(be, "name") {
                    Result::Ok(v) => v,
                    Result::Err(fe) => return Result::Err(DecodeError::EventPayload(tag, fe)),
                };
                Result::Ok(Events::Process(ProcessEvent { name }))
            },
            _ => Result::Err(
                DecodeError::EventPayload(tag, FieldError::Wrong("body".to_owned())),
            ),
        },
    }
}

/// Decodes a `capabilities` payload.
fn dec_capabilities(tag: String, body: &Option<Value>) -> (r: Result<Events, DecodeError>)
    ensures
        match r {
            Result::Ok(ev) => spec_dec_capabilities(tag@, opt_model(*body)) == Result::<
                EventsV,
                ErrV,
            >::Ok(ev@),
            Result::Err(err) => spec_dec_capabilities(tag@, opt_model(*body)) == Result::<
                EventsV,
                ErrV,
            >::Err(err@),
        },
{
    match body {
        Option::None => Result::Err(
            DecodeError::EventPayload(tag, FieldError::Missing("body".to_owned())),
        ),
        Option::Some(bv) => match bv {
            Value::Obj(be) => {
                proof {
                    assert(val_model(*bv)->Obj_0 =~= obj_model(be@));
                }
                match get_field(be, "capabilities") {
                    Option::None => Result::Err(
                        DecodeError::EventPayload(
                            tag,
                            FieldError::Missing("capabilities".to_owned()),
                        ),
                    ),
                    Option::Some(cv) => match cv {
                        Value::Obj(ce) => {
                            proof {
                                assert(val_model(*cv)->Obj_0 =~= obj_model(ce@));
                            }
                            match decode_capabilities(ce) {
                                Result::Ok(c) => Result::Ok(
                                    Events::Capabilities(CapabilitiesEvent { capabilities: c }),
                                ),
                                Result::Err(fe) => Result::Err(
                                    DecodeError::EventPayload(tag, fe),
                                ),
                            }
                        },
                        _ => Result::Err(
                            DecodeError::EventPayload(
                                tag,
                                FieldError::Wrong("capabilities".to_owned()),
                            ),
                        ),
                    },
                }
            },
            _ => Result::Err(
                DecodeError::EventPayload(tag, FieldError::Wrong("body".to_owned())),
            ),
        },
    }
}

/// Decodes a `progressStart` payload.
fn dec_progressstart(tag: String, body: &Option<Value>) -> (r: Result<Events, DecodeError>)
    ensures
        match r {
            Result::Ok(ev) => spec_dec_progressstart(tag@, opt_model(*body)) == Result::<
                EventsV,
                ErrV,
            >::Ok(ev@),
            Result::Err(err) => spec_dec_progressstart(tag@, opt_model(*body)) == Result::<
                EventsV,
                ErrV,
            >::Err(err@),
        },
{
    match body {
        Option::None => Result::Err(
            DecodeError::EventPayload(tag, FieldError::Missing("body".to_owned())),
        ),
        Option::Some(bv) => match bv {
            Value::Obj(be) => {
                proof {
                    assert(val_model(*bv)->Obj_0 =~= obj_model(be@));
                }
                let progress_id = match read_string_field(be, "progressId") {
                    Result::Ok(v) => v,
                    Result::Err(fe) => return Result::Err(DecodeError::EventPayload(tag, fe)),
                };
                let title = match read_string_field(be, "title") {
                    Result::Ok(v) => v,
                    Result::Err(fe) => return Result::Err(DecodeError::EventPayload(tag, fe)),
                };
                Result::Ok(Events::ProgressStart(ProgressStartEvent { progress_id, title }))
            },
            _ => Result::Err(
                DecodeError::EventPayload(tag, FieldError::Wrong("body".to_owned())),
            ),
        },
    }
}

/// Decodes a `progressUpdate` payload.
fn dec_progressupdate(tag: String, body: &Option<Value>) -> (r: Result<Events, DecodeError>)
    ensures
        match r {
            Result::Ok(ev) => spec_dec_progressupdate(tag@, opt_model(*body)) == Result::<
                EventsV,
                ErrV,
            >::Ok(ev@),
            Result::Err(err) => spec_dec_progressupdate(tag@, opt_model(*body)) == Result::<
                EventsV,
                ErrV,
            >::Err(err@),
        },
{
    match body {
        Option::None => Result::Err(
            DecodeError::EventPayload(tag, FieldError::Missing("body".to_owned())),
        ),
        Option::Some(bv) => match bv {
            Value::Obj(be) => {
                proof {
                    assert(val_model(*bv)->Obj_0 =~= obj_model(be@));
                }
                let progress_id = match read_string_field(be, "progressId") {
                    Result::Ok(v) => v,
                    Result::Err(fe) => return Result::Err(DecodeError::EventPayload(tag, fe)),
                };
                Result::Ok(Events::ProgressUpdate(ProgressUpdateEvent { progress_id }))
            },
            _ => Result::Err(
                DecodeError::EventPayload(tag, FieldError::Wrong("body".to_owned())),
            ),
        },
    }
}

/// Decodes a `progressEnd` payload.
fn dec_progressend(tag: String, body: &Option<Value>) -> (r: Result<Events, DecodeError>)
    ensures
        match r {
            Result::Ok(ev) => spec_dec_progressend(tag@, opt_model(*body)) == Result::<
                EventsV,
                ErrV,
            >::Ok(ev@),
            Result::Err(err) => spec_dec_progressend(tag@, opt_model(*body)) == Result::<
                EventsV,
                ErrV,
            >::Err(err@),
        },
{
    match body {
        Option::None => Result::Err(
            DecodeError::EventPayload(tag, FieldError::Missing("body".to_owned())),
        ),
        Option::Some(bv) => match bv {
            Value::Obj(be) => {
                proof {
                    assert(val_model(*bv)->Obj_0 =~= obj_model(be@));
                }
                let progress_id = match read_string_field(be, "progressId") {
                    Result::Ok(v) => v,
                    Result::Err(fe) => return Result::Err(DecodeError::EventPayload(tag, fe)),
                };
                Result::Ok(Events::ProgressEnd(ProgressEndEvent { progress_id }))
            },
            _ => Result::Err(
                DecodeError::EventPayload(tag, FieldError::Wrong("body".to_owned())),
            ),
        },
    }
}

/// Decodes a `invalidated` payload.
fn dec_invalidated(tag: String, body: &Option<Value>) -> (r: Result<Events, DecodeError>)
    ensures
        match r {
            Result::Ok(ev) => spec_dec_invalidated(tag@, opt_model(*body)) == Result::<
                EventsV,
                ErrV,
            >::Ok(ev@),
            Result::Err(err) => spec_dec_invalidated(tag@, opt_model(*body)) == Result::<
                EventsV,
                ErrV,
            >::Err(err@),
        },
{
    match body {
        Option::None => Result::Err(
            DecodeError::EventPayload(tag, FieldError::Missing("body".to_owned())),
        ),
        Option::Some(bv) => match bv {
            Value::Obj(be) => {
                proof {
                    assert(val_model(*bv)->Obj_0 =~= obj_model(be@));
                }
                let thread_id = match read_opt_int_field(be, "threadId") {
                    Result::Ok(v) => v,
                    Result::Err(fe) => return Result::Err(DecodeError::EventPayload(tag, fe)),
                };
                Result::Ok(Events::Invalidated(InvalidatedEvent { thread_id }))
            },
            _ => Result::Err(
                DecodeError::EventPayload(tag, FieldError::Wrong("body".to_owned())),
            ),
        },
    }
}

/// Decodes a `memory` payload.
fn dec_memory(tag: String, body: &Option<Value>) -> (r: Result<Events, DecodeError>)
    ensures
        match r {
            Result::Ok(ev) => spec_dec_memory(tag@, opt_model(*body)) == Result::<
                EventsV,
                ErrV,
            >::Ok(ev@),
            Result::Err(err) => spec_dec_memory(tag@, opt_model(*body)) == Result::<
                EventsV,
                ErrV,
            >::Err(err@),
        },
{
    match body {
        Option::None => Result::Err(
            DecodeError::EventPayload(tag, FieldError::Missing("body".to_owned())),
        ),
        Option::Some(bv) => match bv {
            Value::Obj(be) => {
                proof {
                    assert(val_model(*bv)->Obj_0 =~= obj_model(be@));
                }
                let memory_reference = match read_string_field(be, "memoryReference") {
                    Result::Ok(v) => v,
                    Result::Err(fe) => return Result::Err(DecodeError::EventPayload(tag, fe)),
                };
                let offset = match read_int_field(be, "offset") {
                    Result::Ok(v) => v,
                    Result::Err(fe) => return Result::Err(DecodeError::EventPayload(tag, fe)),
                };
                let count = match read_int_field(be, "count") {
                    Result::Ok(v) => v,
                    Result::Err(fe) => return Result::Err(DecodeError::EventPayload(tag, fe)),
                };
                Result::Ok(Events::Memory(MemoryEvent { memory_reference, offset, count }))
            },
            _ => Result::Err(
                DecodeError::EventPayload(tag, FieldError::Wrong("body".to_owned())),
            ),
        },
    }
}

/// Decodes an event from a structured value: a known `event` tag decodes
/// its typed payload, and payload mismatches are errors naming the tag; any
/// unrecognized tag decodes to the `Other` fallback and never fails.
pub fn decode_event(v: &Value) -> (r: Result<Events, DecodeError>)
    ensures
        match r {
            Result::Ok(ev) => spec_decode_event(v@) == Result::<EventsV, ErrV>::Ok(ev@),
            Result::Err(err) => spec_decode_event(v@) == Result::<EventsV, ErrV>::Err(err@),
        },
{
    match v {
        Value::Obj(entries) => {
            proof {
                assert(val_model(*v)->Obj_0 =~= obj_model(entries@));
            }
            let tag = match read_string_field(entries, "event") {
                Result::Ok(s) => s,
                Result::Err(fe) => return Result::Err(crate::error::field_to_msg(fe)),
            };
            let body = read_opt_val_field(entries, "body");
            if str_eq(tag.as_str(), "initialized") {
                dec_initialized(tag, &body)
            } else if str_eq(tag.as_str(), "stopped") {
                dec_stopped(tag, &body)
            } else if str_eq(tag.as_str(), "continued") {
                dec_continued(tag, &body)
            } else if str_eq(tag.as_str(), "exited") {
                dec_exited(tag, &body)
            } else if str_eq(tag.as_str(), "terminated") {
                dec_terminated(tag, &body)
            } else if str_eq(tag.as_str(), "thread") {
                dec_thread(tag, &body)
            } else if str_eq(tag.as_str(), "output") {
                dec_output(tag, &body)
            } else if str_eq(tag.as_str(), "breakpoint") {
                dec_breakpoint(tag, &body)
            } else if str_eq(tag.as_str(), "module") {
                dec_module(tag, &body)
            } else if str_eq(tag.as_str(), "loadedSource") {
                dec_loadedsource(tag, &body)
            } else if str_eq(tag.as_str(), "process") {
                dec_process(tag, &body)
            } else if str_eq(tag.as_str(), "capabilities") {
                dec_capabilities(tag, &body)
            } else if str_eq(tag.as_str(), "progressStart") {
                dec_progressstart(tag, &body)
            } else if str_eq(tag.as_str(), "progressUpdate") {
                dec_progressupdate(tag, &body)
            } else if str_eq(tag.as_str(), "progressEnd") {
                dec_progressend(tag, &body)
            } else if str_eq(tag.as_str(), "invalidated") {
                dec_invalidated(tag, &body)
            } else if str_eq(tag.as_str(), "memory") {
                dec_memory(tag, &body)
            } else {
                let b = match body {
                    Option::Some(x) => x,
                    Option::None => Value::Null,
                };
                Result::Ok(Events::Other(OtherEvent { event: tag, body: b }))
            }
        },
        _ => Result::Err(DecodeError::NotARecord),
    }
}

/// The wire entries of a `stopped` payload.
pub open spec fn stopped_body(reason: Seq<char>, thread_id: Option<int>) -> Seq<(Seq<char>, SpecVal)> {
    let e = Seq::<(Seq<char>, SpecVal)>::empty();
    let e = e.push(("reason"@, SpecVal::Str(reason)));
    let e = push_opt(
        e,
        "threadId"@,
        match thread_id {
            Option::Some(n) => Option::Some(SpecVal::Int(n)),
            Option::None => Option::None,
        },
    );
    e
}

/// The wire entries of a `continued` payload.
pub open spec fn continued_body(thread_id: int) -> Seq<(Seq<char>, SpecVal)> {
    let e = Seq::<(Seq<char>, SpecVal)>::empty();
    let e = e.push(("threadId"@, SpecVal::Int(thread_id)));
    e
}

/// The wire entries of a `exited` payload.
pub open spec fn exited_body(exit_code: int) -> Seq<(Seq<char>, SpecVal)> {
    let e = Seq::<(Seq<char>, SpecVal)>::empty();
    let e = e.push(("exitCode"@, SpecVal::Int(exit_code)));
    e
}

/// The wire entries of a `thread` payload.
pub open spec fn thread_body(reason: Seq<char>, thread_id: int) -> Seq<(Seq<char>, SpecVal)> {
    let e = Seq::<(Seq<char>, SpecVal)>::empty();
    let e = e.push(("reason"@, SpecVal::Str(reason)));
    let e = e.push(("threadId"@, SpecVal::Int(thread_id)));
    e
}

/// The wire entries of a `output` payload.
pub open spec fn output_body(category: Option<Seq<char>>, output: Seq<char>) -> Seq<(Seq<char>, SpecVal)> {
    let e = Seq::<(Seq<char>, SpecVal)>::empty();
    let e = push_opt(
        e,
        "category"@,
        match category {
            Option::Some(s) => Option::Some(SpecVal::Str(s)),
            Option::None => Option::None,
        },
    );
    let e = e.push(("output"@, SpecVal::Str(output)));
    e
}

/// The wire entries of a `breakpoint` payload.
pub open spec fn breakpoint_body(reason: Seq<char>, breakpoint: SpecVal) -> Seq<(Seq<char>, SpecVal)> {
    let e = Seq::<(Seq<char>, SpecVal)>::empty();
    let e = e.push(("reason"@, SpecVal::Str(reason)));
    let e = e.push(("breakpoint"@, breakpoint));
    e
}

/// The wire entries of a `module` payload.
pub open spec fn module_body(reason: Seq<char>, module: SpecVal) -> Seq<(Seq<char>, SpecVal)> {
    let e = Seq::<(Seq<char>, SpecVal)>::empty();
    let e = e.push(("reason"@, SpecVal::Str(reason)));
    let e = e.push(("module"@, module));
    e
}

/// The wire entries of a `loadedSource` payload.
pub open spec fn loadedsource_body(reason: Seq<char>, source: SpecVal) -> Seq<(Seq<char>, SpecVal)> {
    let e = Seq::<(Seq<char>, SpecVal)>::empty();
    let e = e.push(("reason"@, SpecVal::Str(reason)));
    let e = e.push(("source"@, source));
    e
}

/// The wire entries of a `process` payload.
pub open spec fn process_body(name: Seq<char>) -> Seq<(Seq<char>, SpecVal)> {
    let e = Seq::<(Seq<char>, SpecVal)>::empty();
    let e = e.push(("name"@, SpecVal::Str(name)));
    e
}

/// The wire entries of a `progressStart` payload.
pub open spec fn progressstart_body(progress_id: Seq<char>, title: Seq<char>) -> Seq<(Seq<char>, SpecVal)> {
    let e = Seq::<(Seq<char>, SpecVal)>::empty();
    let e = e.push(("progressId"@, SpecVal::Str(progress_id)));
    let e = e.push(("title"@, SpecVal::Str(title)));
    e
}

/// The wire entries of a `progressUpdate` payload.
pub open spec fn progressupdate_body(progress_id: Seq<char>) -> Seq<(Seq<char>, SpecVal)> {
    let e = Seq::<(Seq<char>, SpecVal)>::empty();
    let e = e.push(("progressId"@, SpecVal::Str(progress_id)));
    e
}

/// The wire entries of a `progressEnd` payload.
pub open spec fn progressend_body(progress_id: Seq<char>) -> Seq<(Seq<char>, SpecVal)> {
    let e = Seq::<(Seq<char>, SpecVal)>::empty();
    let e = e.push(("progressId"@, SpecVal::Str(progress_id)));
    e
}

/// The wire entries of a `invalidated` payload.
pub open spec fn invalidated_body(thread_id: Option<int>) -> Seq<(Seq<char>, SpecVal)> {
    let e = Seq::<(Seq<char>, SpecVal)>::empty();
    let e = push_opt(
        e,
        "threadId"@,
        match thread_id {
            Option::Some(n) => Option::Some(SpecVal::Int(n)),
            Option::None => Option::None,
        },
    );
    e
}

/// The wire entries of a `memory` payload.
pub open spec fn memory_body(memory_reference: Seq<char>, offset: int, count: int) -> Seq<(Seq<char>, SpecVal)> {
    let e = Seq::<(Seq<char>, SpecVal)>::empty();
    let e = e.push(("memoryReference"@, SpecVal::Str(memory_reference)));
    let e = e.push(("offset"@, SpecVal::Int(offset)));
    let e = e.push(("count"@, SpecVal::Int(count)));
    e
}

/// The structural inverse of event decoding: the tag under `event`, the
/// payload under `body`; optional payloads that are absent omit `body`.
pub open spec fn spec_encode_event(e: EventsV) -> SpecVal {
    match e {
        EventsV::Initialized(op) => match op {
            Option::Some(c) => SpecVal::Obj(
                Seq::<(Seq<char>, SpecVal)>::empty().push(("event"@, SpecVal::Str("initialized"@))).push(
                    ("body"@, SpecVal::Obj(spec_caps_entries(c))),
                ),
            ),
            Option::None => SpecVal::Obj(Seq::<(Seq<char>, SpecVal)>::empty().push(("event"@, SpecVal::Str("initialized"@)))),
        },
        EventsV::Stopped { reason, thread_id } => SpecVal::Obj(
            Seq::<(Seq<char>, SpecVal)>::empty().push(("event"@, SpecVal::Str("stopped"@))).push(
                ("body"@, SpecVal::Obj(stopped_body(reason, thread_id))),
            ),
        ),
        EventsV::Continued { thread_id } => SpecVal::Obj(
            Seq::<(Seq<char>, SpecVal)>::empty().push(("event"@, SpecVal::Str("continued"@))).push(
                ("body"@, SpecVal::Obj(continued_body(thread_id))),
            ),
        ),
        EventsV::Exited { exit_code } => SpecVal::Obj(
            Seq::<(Seq<char>, SpecVal)>::empty().push(("event"@, SpecVal::Str("exited"@))).push(
                ("body"@, SpecVal::Obj(exited_body(exit_code))),
            ),
        ),
        EventsV::Terminated(op) => match op {
            Option::Some(restart) => SpecVal::Obj(
                Seq::<(Seq<char>, SpecVal)>::empty().push(("event"@, SpecVal::Str("terminated"@))).push(
                    (
                        "body"@,
                        SpecVal::Obj(
                            push_opt(Seq::<(Seq<char>, SpecVal)>::empty(), "restart"@, restart),
                        ),
                    ),
                ),
            ),
            Option::None => SpecVal::Obj(Seq::<(Seq<char>, SpecVal)>::empty().push(("event"@, SpecVal::Str("terminated"@)))),
        },
        EventsV::Thread { reason, thread_id } => SpecVal::Obj(
            Seq::<(Seq<char>, SpecVal)>::empty().push(("event"@, SpecVal::Str("thread"@))).push(
                ("body"@, SpecVal::Obj(thread_body(reason, thread_id))),
            ),
        ),
        EventsV::Output { category, output } => SpecVal::Obj(
            Seq::<(Seq<char>, SpecVal)>::empty().push(("event"@, SpecVal::Str("output"@))).push(
                ("body"@, SpecVal::Obj(output_body(category, output))),
            ),
        ),
        EventsV::Breakpoint { reason, breakpoint } => SpecVal::Obj(
            Seq::<(Seq<char>, SpecVal)>::empty().push(("event"@, SpecVal::Str("breakpoint"@))).push(
                ("body"@, SpecVal::Obj(breakpoint_body(reason, breakpoint))),
            ),
        ),
        EventsV::Module { reason, module } => SpecVal::Obj(
            Seq::<(Seq<char>, SpecVal)>::empty().push(("event"@, SpecVal::Str("module"@))).push(
                ("body"@, SpecVal::Obj(module_body(reason, module))),
            ),
        ),
        EventsV::LoadedSource { reason, source } => SpecVal::Obj(
            Seq::<(Seq<char>, SpecVal)>::empty().push(("event"@, SpecVal::Str("loadedSource"@))).push(
                ("body"@, SpecVal::Obj(loadedsource_body(reason, source))),
            ),
        ),
        EventsV::Process { name } => SpecVal::Obj(
            Seq::<(Seq<char>, SpecVal)>::empty().push(("event"@, SpecVal::Str("process"@))).push(
                ("body"@, SpecVal::Obj(process_body(name))),
            ),
        ),
        EventsV::Capabilities { capabilities } => SpecVal::Obj(
            Seq::<(Seq<char>, SpecVal)>::empty().push(("event"@, SpecVal::Str("capabilities"@))).push(
                (
                    "body"@,
                    SpecVal::Obj(
                        Seq::<(Seq<char>, SpecVal)>::empty().push(
                            ("capabilities"@, SpecVal::Obj(spec_caps_entries(capabilities))),
                        ),
                    ),
                ),
            ),
        ),
        EventsV::ProgressStart { progress_id, title } => SpecVal::Obj(
            Seq::<(Seq<char>, SpecVal)>::empty().push(("event"@, SpecVal::Str("progressStart"@))).push(
                ("body"@, SpecVal::Obj(progressstart_body(progress_id, title))),
            ),
        ),
        EventsV::ProgressUpdate { progress_id } => SpecVal::Obj(
            Seq::<(Seq<char>, SpecVal)>::empty().push(("event"@, SpecVal::Str("progressUpdate"@))).push(
                ("body"@, SpecVal::Obj(progressupdate_body(progress_id))),
            ),
        ),
        EventsV::ProgressEnd { progress_id } => SpecVal::Obj(
            Seq::<(Seq<char>, SpecVal)>::empty().push(("event"@, SpecVal::Str("progressEnd"@))).push(
                ("body"@, SpecVal::Obj(progressend_body(progress_id))),
            ),
        ),
        EventsV::Invalidated { thread_id } => SpecVal::Obj(
            Seq::<(Seq<char>, SpecVal)>::empty().push(("event"@, SpecVal::Str("invalidated"@))).push(
                ("body"@, SpecVal::Obj(invalidated_body(thread_id))),
            ),
        ),
        EventsV::Memory { memory_reference, offset, count } => SpecVal::Obj(
            Seq::<(Seq<char>, SpecVal)>::empty().push(("event"@, SpecVal::Str("memory"@))).push(
                ("body"@, SpecVal::Obj(memory_body(memory_reference, offset, count))),
            ),
        ),
        EventsV::Other { event, body } => SpecVal::Obj(
            Seq::<(Seq<char>, SpecVal)>::empty().push(("event"@, SpecVal::Str(event))).push(
                ("body"@, body),
            ),
        ),
    }
}

/// Encodes a `stopped` payload's entries.
fn enc_stopped(p: &StoppedEvent) -> (r: Vec<(String, Value)>)
    ensures
        obj_model(r@) == stopped_body(p.reason@, (match p.thread_id { Option::Some(n) => Option::Some(n as int), Option::None => Option::None })),
{
    let mut out: Vec<(String, Value)> = Vec::new();
    proof {
        assert(obj_model(out@) =~= Seq::<(Seq<char>, SpecVal)>::empty());
    }
    push_str_field(&mut out, "reason", &p.reason);
    push_opt_int_field(&mut out, "threadId", p.thread_id);
    out
}

/// Encodes a `continued` payload's entries.
fn enc_continued(p: &ContinuedEvent) -> (r: Vec<(String, Value)>)
    ensures
        obj_model(r@) == continued_body(p.thread_id as int),
{
    let mut out: Vec<(String, Value)> = Vec::new();
    proof {
        assert(obj_model(out@) =~= Seq::<(Seq<char>, SpecVal)>::empty());
    }
    push_int_field(&mut out, "threadId", p.thread_id);
    out
}

/// Encodes a `exited` payload's entries.
fn enc_exited(p: &ExitedEvent) -> (r: Vec<(String, Value)>)
    ensures
        obj_model(r@) == exited_body(p.exit_code as int),
{
    let mut out: Vec<(String, Value)> = Vec::new();
    proof {
        assert(obj_model(out@) =~= Seq::<(Seq<char>, SpecVal)>::empty());
    }
    push_int_field(&mut out, "exitCode", p.exit_code);
    out
}

/// Encodes a `thread` payload's entries.
fn enc_thread(p: &ThreadEvent) -> (r: Vec<(String, Value)>)
    ensures
        obj_model(r@) == thread_body(p.reason@, p.thread_id as int),
{
    let mut out: Vec<(String, Value)> = Vec::new();
    proof {
        assert(obj_model(out@) =~= Seq::<(Seq<char>, SpecVal)>::empty());
    }
    push_str_field(&mut out, "reason", &p.reason);
    push_int_field(&mut out, "threadId", p.thread_id);
    out
}

/// Encodes a `output` payload's entries.
fn enc_output(p: &OutputEvent) -> (r: Vec<(String, Value)>)
    ensures
        obj_model(r@) == output_body((match p.category { Option::Some(s) => Option::Some(s@), Option::None => Option::None }), p.output@),
{
    let mut out: Vec<(String, Value)> = Vec::new();
    proof {
        assert(obj_model(out@) =~= Seq::<(Seq<char>, SpecVal)>::empty());
    }
    push_opt_str_field(&mut out, "category", &p.category);
    push_str_field(&mut out, "output", &p.output);
    out
}

/// Encodes a `breakpoint` payload's entries.
fn enc_breakpoint(p: &BreakpointEvent) -> (r: Vec<(String, Value)>)
    ensures
        obj_model(r@) == breakpoint_body(p.reason@, p.breakpoint@),
{
    let mut out: Vec<(String, Value)> = Vec::new();
    proof {
        assert(obj_model(out@) =~= Seq::<(Seq<char>, SpecVal)>::empty());
    }
    push_str_field(&mut out, "reason", &p.reason);
    push_val_field(&mut out, "breakpoint", &p.breakpoint);
    out
}

/// Encodes a `module` payload's entries.
fn enc_module(p: &ModuleEvent) -> (r: Vec<(String, Value)>)
    ensures
        obj_model(r@) == module_body(p.reason@, p.module@),
{
    let mut out: Vec<(String, Value)> = Vec::new();
    proof {
        assert(obj_model(out@) =~= Seq::<(Seq<char>, SpecVal)>::empty());
    }
    push_str_field(&mut out, "reason", &p.reason);
    push_val_field(&mut out, "module", &p.module);
    out
}

/// Encodes a `loadedSource` payload's entries.
fn enc_loadedsource(p: &LoadedSourceEvent) -> (r: Vec<(String, Value)>)
    ensures
        obj_model(r@) == loadedsource_body(p.reason@, p.source@),
{
    let mut out: Vec<(String, Value)> = Vec::new();
    proof {
        assert(obj_model(out@) =~= Seq::<(Seq<char>, SpecVal)>::empty());
    }
    push_str_field(&mut out, "reason", &p.reason);
    push_val_field(&mut out, "source", &p.source);
    out
}

/// Encodes a `process` payload's entries.
fn enc_process(p: &ProcessEvent) -> (r: Vec<(String, Value)>)
    ensures
        obj_model(r@) == process_body(p.name@),
{
    let mut out: Vec<(String, Value)> = Vec::new();
    proof {
        assert(obj_model(out@) =~= Seq::<(Seq<char>, SpecVal)>::empty());
    }
    push_str_field(&mut out, "name", &p.name);
    out
}

/// Encodes a `progressStart` payload's entries.
fn enc_progressstart(p: &ProgressStartEvent) -> (r: Vec<(String, Value)>)
    ensures
        obj_model(r@) == progressstart_body(p.progress_id@, p.title@),
{
    let mut out: Vec<(String, Value)> = Vec::new();
    proof {
        assert(obj_model(out@) =~= Seq::<(Seq<char>, SpecVal)>::empty());
    }
    push_str_field(&mut out, "progressId", &p.progress_id);
    push_str_field(&mut out, "title", &p.title);
    out
}

/// Encodes a `progressUpdate` payload's entries.
fn enc_progressupdate(p: &ProgressUpdateEvent) -> (r: Vec<(String, Value)>)
    ensures
        obj_model(r@) == progressupdate_body(p.progress_id@),
{
    let mut out: Vec<(String, Value)> = Vec::new();
    proof {
        assert(obj_model(out@) =~= Seq::<(Seq<char>, SpecVal)>::empty());
    }
    push_str_field(&mut out, "progressId", &p.progress_id);
    out
}

/// Encodes a `progressEnd` payload's entries.
fn enc_progressend(p: &ProgressEndEvent) -> (r: Vec<(String, Value)>)
    ensures
        obj_model(r@) == progressend_body(p.progress_id@),
{
    let mut out: Vec<(String, Value)> = Vec::new();
    proof {
        assert(obj_model(out@) =~= Seq::<(Seq<char>, SpecVal)>::empty());
    }
    push_str_field(&mut out, "progressId", &p.progress_id);
    out
}

/// Encodes a `invalidated` payload's entries.
fn enc_invalidated(p: &InvalidatedEvent) -> (r: Vec<(String, Value)>)
    ensures
        obj_model(r@) == invalidated_body((match p.thread_id { Option::Some(n) => Option::Some(n as int), Option::None => Option::None })),
{
    let mut out: Vec<(String, Value)> = Vec::new();
    proof {
        assert(obj_model(out@) =~= Seq::<(Seq<char>, SpecVal)>::empty());
    }
    push_opt_int_field(&mut out, "threadId", p.thread_id);
    out
}

/// Encodes a `memory` payload's entries.
fn enc_memory(p: &MemoryEvent) -> (r: Vec<(String, Value)>)
    ensures
        obj_model(r@) == memory_body(p.memory_reference@, p.offset as int, p.count as int),
{
    let mut out: Vec<(String, Value)> = Vec::new();
    proof {
        assert(obj_model(out@) =~= Seq::<(Seq<char>, SpecVal)>::empty());
    }
    push_str_field(&mut out, "memoryReference", &p.memory_reference);
    push_int_field(&mut out, "offset", p.offset);
    push_int_field(&mut out, "count", p.count);
    out
}

/// Encodes an event as a structured value, the structural inverse of
/// `decode_event`.
pub fn encode_event(e: &Events) -> (r: Value)
    ensures
        r@ == spec_encode_event(e@),
{
    broadcast use crate::value::lemma_val_model_obj;

    match e {
        Events::Initialized(op) => {
            let mut out: Vec<(String, Value)> = Vec::new();
            proof {
                assert(obj_model(out@) =~= Seq::<(Seq<char>, SpecVal)>::empty());
            }
            push_lit_field(&mut out, "event", "initialized");
            match op {
                Option::Some(c) => {
                    let b = encode_capabilities(c);
                    push_obj_field(&mut out, "body", b);
                },
                Option::None => (),
            }
            Value::Obj(out)
        },
        Events::Stopped(p) => {
            let mut out: Vec<(String, Value)> = Vec::new();
            proof {
                assert(obj_model(out@) =~= Seq::<(Seq<char>, SpecVal)>::empty());
            }
            push_lit_field(&mut out, "event", "stopped");
            let b = enc_stopped(p);
            push_obj_field(&mut out, "body", b);
            Value::Obj(out)
        },
        Events::Continued(p) => {
            let mut out: Vec<(String, Value)> = Vec::new();
            proof {
                assert(obj_model(out@) =~= Seq::<(Seq<char>, SpecVal)>::empty());
            }
            push_lit_field(&mut out, "event", "continued");
            let b = enc_continued(p);
            push_obj_field(&mut out, "body", b);
            Value::Obj(out)
        },
        Events::Exited(p) => {
            let mut out: Vec<(String, Value)> = Vec::new();
            proof {
                assert(obj_model(out@) =~= Seq::<(Seq<char>, SpecVal)>::empty());
            }
            push_lit_field(&mut out, "event", "exited");
            let b = enc_exited(p);
            push_obj_field(&mut out, "body", b);
            Value::Obj(out)
        },
        Events::Terminated(op) => {
            let mut out: Vec<(String, Value)> = Vec::new();
            proof {
                assert(obj_model(out@) =~= Seq::<(Seq<char>, SpecVal)>::empty());
            }
            push_lit_field(&mut out, "event", "terminated");
            match op {
                Option::Some(t) => {
                    let mut b: Vec<(String, Value)> = Vec::new();
                    proof {
                        assert(obj_model(b@) =~= Seq::<(Seq<char>, SpecVal)>::empty());
                    }
                    push_opt_val_field(&mut b, "restart", &t.restart);
                    push_obj_field(&mut out, "body", b);
                },
                Option::None => (),
            }
            Value::Obj(out)
        },
        Events::Thread(p) => {
            let mut out: Vec<(String, Value)> = Vec::new();
            proof {
                assert(obj_model(out@) =~= Seq::<(Seq<char>, SpecVal)>::empty());
            }
            push_lit_field(&mut out, "event", "thread");
            let b = enc_thread(p);
            push_obj_field(&mut out, "body", b);
            Value::Obj(out)
        },
        Events::Output(p) => {
            let mut out: Vec<(String, Value)> = Vec::new();
            proof {
                assert(obj_model(out@) =~= Seq::<(Seq<char>, SpecVal)>::empty());
            }
            push_lit_field(&mut out, "event", "output");
            let b = enc_output(p);
            push_obj_field(&mut out, "body", b);
            Value::Obj(out)
        },
        Events::Breakpoint(p) => {
            let mut out: Vec<(String, Value)> = Vec::new();
            proof {
                assert(obj_model(out@) =~= Seq::<(Seq<char>, SpecVal)>::empty());
            }
            push_lit_field(&mut out, "event", "breakpoint");
            let b = enc_breakpoint(p);
            push_obj_field(&mut out, "body", b);
            Value::Obj(out)
        },
        Events::Module(p) => {
            let mut out: Vec<(String, Value)> = Vec::new();
            proof {
                assert(obj_model(out@) =~= Seq::<(Seq<char>, SpecVal)>::empty());
            }
            push_lit_field(&mut out, "event", "module");
            let b = enc_module(p);
            push_obj_field(&mut out, "body", b);
            Value::Obj(out)
        },
        Events::LoadedSource(p) => {
            let mut out: Vec<(String, Value)> = Vec::new();
            proof {
                assert(obj_model(out@) =~= Seq::<(Seq<char>, SpecVal)>::empty());
            }
            push_lit_field(&mut out, "event", "loadedSource");
            let b = enc_loadedsource(p);
            push_obj_field(&mut out, "body", b);
            Value::Obj(out)
        },
        Events::Process(p) => {
            let mut out: Vec<(String, Value)> = Vec::new();
            proof {
                assert(obj_model(out@) =~= Seq::<(Seq<char>, SpecVal)>::empty());
            }
            push_lit_field(&mut out, "event", "process");
            let b = enc_process(p);
            push_obj_field(&mut out, "body", b);
            Value::Obj(out)
        },
        Events::Capabilities(p) => {
            let mut out: Vec<(String, Value)> = Vec::new();
            proof {
                assert(obj_model(out@) =~= Seq::<(Seq<char>, SpecVal)>::empty());
            }
            push_lit_field(&mut out, "event", "capabilities");
            let ce = encode_capabilities(&p.capabilities);
            let mut b: Vec<(String, Value)> = Vec::new();
            proof {
                assert(obj_model(b@) =~= Seq::<(Seq<char>, SpecVal)>::empty());
            }
            push_obj_field(&mut b, "capabilities", ce);
            push_obj_field(&mut out, "body", b);
            Value::Obj(out)
        },
        Events::ProgressStart(p) => {
            let mut out: Vec<(String, Value)> = Vec::new();
            proof {
                assert(obj_model(out@) =~= Seq::<(Seq<char>, SpecVal)>::empty());
            }
            push_lit_field(&mut out, "event", "progressStart");
            let b = enc_progressstart(p);
            push_obj_field(&mut out, "body", b);
            Value::Obj(out)
        },
        Events::ProgressUpdate(p) => {
            let mut out: Vec<(String, Value)> = Vec::new();
            proof {
                assert(obj_model(out@) =~= Seq::<(Seq<char>, SpecVal)>::empty());
            }
            push_lit_field(&mut out, "event", "progressUpdate");
            let b = enc_progressupdate(p);
            push_obj_field(&mut out, "body", b);
            Value::Obj(out)
        },
        Events::ProgressEnd(p) => {
            let mut out: Vec<(String, Value)> = Vec::new();
            proof {
                assert(obj_model(out@) =~= Seq::<(Seq<char>, SpecVal)>::empty());
            }
            push_lit_field(&mut out, "event", "progressEnd");
            let b = enc_progressend(p);
            push_obj_field(&mut out, "body", b);
            Value::Obj(out)
        },
        Events::Invalidated(p) => {
            let mut out: Vec<(String, Value)> = Vec::new();
            proof {
                assert(obj_model(out@) =~= Seq::<(Seq<char>, SpecVal)>::empty());
            }
            push_lit_field(&mut out, "event", "invalidated");
            let b = enc_invalidated(p);
            push_obj_field(&mut out, "body", b);
            Value::Obj(out)
        },
        Events::Memory(p) => {
            let mut out: Vec<(String, Value)> = Vec::new();
            proof {
                assert(obj_model(out@) =~= Seq::<(Seq<char>, SpecVal)>::empty());
            }
            push_lit_field(&mut out, "event", "memory");
            let b = enc_memory(p);
            push_obj_field(&mut out, "body", b);
            Value::Obj(out)
        },
        Events::Other(o) => {
            let mut out: Vec<(String, Value)> = Vec::new();
            proof {
                assert(obj_model(out@) =~= Seq::<(Seq<char>, SpecVal)>::empty());
            }
            push_str_field(&mut out, "event", &o.event);
            push_val_field(&mut out, "body", &o.body);
            Value::Obj(out)
        },
    }
}

/// The canonical short display name of an event: the kind's name for the
/// known kinds, and the preserved original tag for the fallback.
pub open spec fn spec_display_name(e: EventsV) -> Seq<char> {
    match e {
        EventsV::Initialized(_) => "Initialized"@,
        EventsV::Stopped { .. } => "Stopped"@,
        EventsV::Continued { .. } => "Continued"@,
        EventsV::Exited { .. } => "Exited"@,
        EventsV::Terminated(_) => "Terminated"@,
        EventsV::Thread { .. } => "Thread"@,
        EventsV::Output { .. } => "Output"@,
        EventsV::Breakpoint { .. } => "Breakpoint"@,
        EventsV::Module { .. } => "Module"@,
        EventsV::LoadedSource { .. } => "LoadedSource"@,
        EventsV::Process { .. } => "Process"@,
        EventsV::Capabilities { .. } => "Capabilities"@,
        EventsV::ProgressStart { .. } => "ProgressStart"@,
        EventsV::ProgressUpdate { .. } => "ProgressUpdate"@,
        EventsV::ProgressEnd { .. } => "ProgressEnd"@,
        EventsV::Invalidated { .. } => "Invalidated"@,
        EventsV::Memory { .. } => "Memory"@,
        EventsV::Other { event, .. } => event,
    }
}

impl Events {
    /// The canonical short display name, for diagnostics.
    pub fn display_name(&self) -> (r: String)
        ensures
            r@ == spec_display_name(self@),
    {
        match self {
            Events::Initialized(_) => "Initialized".to_owned(),
            Events::Stopped(_) => "Stopped".to_owned(),
            Events::Continued(_) => "Continued".to_owned(),
            Events::Exited(_) => "Exited".to_owned(),
            Events::Terminated(_) => "Terminated".to_owned(),
            Events::Thread(_) => "Thread".to_owned(),
            Events::Output(_) => "Output".to_owned(),
            Events::Breakpoint(_) => "Breakpoint".to_owned(),
            Events::Module(_) => "Module".to_owned(),
            Events::LoadedSource(_) => "LoadedSource".to_owned(),
            Events::Process(_) => "Process".to_owned(),
            Events::Capabilities(_) => "Capabilities".to_owned(),
            Events::ProgressStart(_) => "ProgressStart".to_owned(),
            Events::ProgressUpdate(_) => "ProgressUpdate".to_owned(),
            Events::ProgressEnd(_) => "ProgressEnd".to_owned(),
            Events::Invalidated(_) => "Invalidated".to_owned(),
            Events::Memory(_) => "Memory".to_owned(),
            Events::Other(o) => o.event.as_str().to_owned(),
        }
    }
}


/// Decoding the encoding of a `initialized` event yields it back.
proof fn lemma_rt_initialized_absent(prefix: Seq<(Seq<char>, SpecVal)>)
    requires
        spec_get(prefix, "body"@) is None,
    ensures
        spec_decode_event(
            SpecVal::Obj(prefix + spec_encode_event(EventsV::Initialized(Option::None))->Obj_0),
        ) == Result::<EventsV, ErrV>::Ok(EventsV::Initialized(Option::None)),
{
    broadcast use
        crate::value::lemma_get_push_opt,
        crate::value::lemma_get_push_other,
        crate::value::lemma_get_push_same,
        crate::value::lemma_get_concat;

    reveal_strlit("body");
    reveal_strlit("event");
    reveal_strlit("initialized");
    assert("body"@.len() == 4);
    assert("event"@.len() == 5);
    assert("initialized"@.len() == 11);
}

/// Decoding the encoding of a `stopped` event yields it back.
proof fn lemma_rt_stopped(prefix: Seq<(Seq<char>, SpecVal)>, reason: Seq<char>, thread_id: Option<int>)
    requires
        spec_get(prefix, "body"@) is None,
    ensures
        spec_decode_event(
            SpecVal::Obj(prefix + spec_encode_event(EventsV::Stopped { reason, thread_id })->Obj_0),
        ) == Result::<EventsV, ErrV>::Ok(EventsV::Stopped { reason, thread_id }),
{
    broadcast use
        crate::value::lemma_get_push_opt,
        crate::value::lemma_get_push_other,
        crate::value::lemma_get_push_same,
        crate::value::lemma_get_concat;

    reveal_strlit("body");
    reveal_strlit("event");
    reveal_strlit("initialized");
    reveal_strlit("reason");
    reveal_strlit("stopped");
    reveal_strlit("threadId");
    assert("body"@.len() == 4);
    assert("event"@.len() == 5);
    assert("initialized"@.len() == 11);
    assert("reason"@.len() == 6);
    assert("stopped"@.len() == 7);
    assert("threadId"@.len() == 8);
    let be = stopped_body(reason, thread_id);
    assert(spec_get(be, "reason"@) == Option::Some(SpecVal::Str(reason)));
    assert(spec_get(be, "threadId"@) == (match thread_id {
        Option::Some(n) => Option::Some(SpecVal::Int(n)),
        Option::None => Option::None,
    }));
}

/// Decoding the encoding of a `continued` event yields it back.
proof fn lemma_rt_continued(prefix: Seq<(Seq<char>, SpecVal)>, thread_id: int)
    requires
        spec_get(prefix, "body"@) is None,
    ensures
        spec_decode_event(
            SpecVal::Obj(prefix + spec_encode_event(EventsV::Continued { thread_id })->Obj_0),
        ) == Result::<EventsV, ErrV>::Ok(EventsV::Continued { thread_id }),
{
    broadcast use
        crate::value::lemma_get_push_opt,
        crate::value::lemma_get_push_other,
        crate::value::lemma_get_push_same,
        crate::value::lemma_get_concat;

    reveal_strlit("body");
    reveal_strlit("continued");
    reveal_strlit("event");
    reveal_strlit("initialized");
    reveal_strlit("stopped");
    reveal_strlit("threadId");
    assert("body"@.len() == 4);
    assert("continued"@.len() == 9);
    assert("event"@.len() == 5);
    assert("initialized"@.len() == 11);
    assert("stopped"@.len() == 7);
    assert("threadId"@.len() == 8);
    let be = continued_body(thread_id);
    assert(spec_get(be, "threadId"@) == Option::Some(SpecVal::Int(thread_id)));
}

/// Decoding the encoding of a `exited` event yields it back.
proof fn lemma_rt_exited(prefix: Seq<(Seq<char>, SpecVal)>, exit_code: int)
    requires
        spec_get(prefix, "body"@) is None,
    ensures
        spec_decode_event(
            SpecVal::Obj(prefix + spec_encode_event(EventsV::Exited { exit_code })->Obj_0),
        ) == Result::<EventsV, ErrV>::Ok(EventsV::Exited { exit_code }),
{
    broadcast use
        crate::value::lemma_get_push_opt,
        crate::value::lemma_get_push_other,
        crate::value::lemma_get_push_same,
        crate::value::lemma_get_concat;

    reveal_strlit("body");
    reveal_strlit("continued");
    reveal_strlit("event");
    reveal_strlit("exitCode");
    reveal_strlit("exited");
    reveal_strlit("initialized");
    reveal_strlit("stopped");
    assert("body"@.len() == 4);
    assert("continued"@.len() == 9);
    assert("event"@.len() == 5);
    assert("exitCode"@.len() == 8);
    assert("exited"@.len() == 6);
    assert("initialized"@.len() == 11);
    assert("stopped"@.len() == 7);
    let be = exited_body(exit_code);
    assert(spec_get(be, "exitCode"@) == Option::Some(SpecVal::Int(exit_code)));
}

/// Decoding the encoding of a `terminated` event yields it back.
proof fn lemma_rt_terminated(prefix: Seq<(Seq<char>, SpecVal)>, restart: Option<Option<SpecVal>>)
    requires
        spec_get(prefix, "body"@) is None,
    ensures
        spec_decode_event(
            SpecVal::Obj(prefix + spec_encode_event(EventsV::Terminated(restart))->Obj_0),
        ) == Result::<EventsV, ErrV>::Ok(EventsV::Terminated(restart)),
{
    broadcast use
        crate::value::lemma_get_push_opt,
        crate::value::lemma_get_push_other,
        crate::value::lemma_get_push_same,
        crate::value::lemma_get_concat;

    reveal_strlit("body");
    reveal_strlit("continued");
    reveal_strlit("event");
    reveal_strlit("exited");
    reveal_strlit("initialized");
    reveal_strlit("restart");
    reveal_strlit("stopped");
    reveal_strlit("terminated");
    assert("body"@.len() == 4);
    assert("continued"@.len() == 9);
    assert("event"@.len() == 5);
    assert("exited"@.len() == 6);
    assert("initialized"@.len() == 11);
    assert("restart"@.len() == 7);
    assert("stopped"@.len() == 7);
    assert("terminated"@.len() == 10);
    assert("restart"@[0] == 'r');
    assert("stopped"@[0] == 's');
}

/// Decoding the encoding of a `thread` event yields it back.
proof fn lemma_rt_thread(prefix: Seq<(Seq<char>, SpecVal)>, reason: Seq<char>, thread_id: int)
    requires
        spec_get(prefix, "body"@) is None,
    ensures
        spec_decode_event(
            SpecVal::Obj(prefix + spec_encode_event(EventsV::Thread { reason, thread_id })->Obj_0),
        ) == Result::<EventsV, ErrV>::Ok(EventsV::Thread { reason, thread_id }),
{
    broadcast use
        crate::value::lemma_get_push_opt,
        crate::value::lemma_get_push_other,
        crate::value::lemma_get_push_same,
        crate::value::lemma_get_concat;

    reveal_strlit("body");
    reveal_strlit("continued");
    reveal_strlit("event");
    reveal_strlit("exited");
    reveal_strlit("initialized");
    reveal_strlit("reason");
    reveal_strlit("stopped");
    reveal_strlit("terminated");
    reveal_strlit("thread");
    reveal_strlit("threadId");
    assert("body"@.len() == 4);
    assert("continued"@.len() == 9);
    assert("event"@.len() == 5);
    assert("exited"@.len() == 6);
    assert("initialized"@.len() == 11);
    assert("reason"@.len() == 6);
    assert("stopped"@.len() == 7);
    assert("terminated"@.len() == 10);
    assert("thread"@.len() == 6);
    assert("threadId"@.len() == 8);
    assert("exited"@[0] == 'e');
    assert("reason"@[0] == 'r');
    assert("thread"@[0] == 't');
    let be = thread_body(reason, thread_id);
    assert(spec_get(be, "reason"@) == Option::Some(SpecVal::Str(reason)));
    assert(spec_get(be, "threadId"@) == Option::Some(SpecVal::Int(thread_id)));
}

/// Decoding the encoding of a `output` event yields it back.
proof fn lemma_rt_output(prefix: Seq<(Seq<char>, SpecVal)>, category: Option<Seq<char>>, output: Seq<char>)
    requires
        spec_get(prefix, "body"@) is None,
    ensures
        spec_decode_event(
            SpecVal::Obj(prefix + spec_encode_event(EventsV::Output { category, output })->Obj_0),
        ) == Result::<EventsV, ErrV>::Ok(EventsV::Output { category, output }),
{
    broadcast use
        crate::value::lemma_get_push_opt,
        crate::value::lemma_get_push_other,
        crate::value::lemma_get_push_same,
        crate::value::lemma_get_concat;

    reveal_strlit("body");
    reveal_strlit("category");
    reveal_strlit("continued");
    reveal_strlit("event");
    reveal_strlit("exited");
    reveal_strlit("initialized");
    reveal_strlit("output");
    reveal_strlit("stopped");
    reveal_strlit("terminated");
    reveal_strlit("thread");
    assert("body"@.len() == 4);
    assert("category"@.len() == 8);
    assert("continued"@.len() == 9);
    assert("event"@.len() == 5);
    assert("exited"@.len() == 6);
    assert("initialized"@.len() == 11);
    assert("output"@.len() == 6);
    assert("stopped"@.len() == 7);
    assert("terminated"@.len() == 10);
    assert("thread"@.len() == 6);
    assert("exited"@[0] == 'e');
    assert("output"@[0] == 'o');
    assert("thread"@[0] == 't');
    let be = output_body(category, output);
    assert(spec_get(be, "category"@) == (match category {
        Option::Some(x) => Option::Some(SpecVal::Str(x)),
        Option::None => Option::None,
    }));
    assert(spec_get(be, "output"@) == Option::Some(SpecVal::Str(output)));
}

/// Decoding the encoding of a `breakpoint` event yields it back.
proof fn lemma_rt_breakpoint(prefix: Seq<(Seq<char>, SpecVal)>, reason: Seq<char>, breakpoint: SpecVal)
    requires
        spec_get(prefix, "body"@) is None,
    ensures
        spec_decode_event(
            SpecVal::Obj(prefix + spec_encode_event(EventsV::Breakpoint { reason, breakpoint })->Obj_0),
        ) == Result::<EventsV, ErrV>::Ok(EventsV::Breakpoint { reason, breakpoint }),
{
    broadcast use
        crate::value::lemma_get_push_opt,
        crate::value::lemma_get_push_other,
        crate::value::lemma_get_push_same,
        crate::value::lemma_get_concat;

    reveal_strlit("body");
    reveal_strlit("breakpoint");
    reveal_strlit("continued");
    reveal_strlit("event");
    reveal_strlit("exited");
    reveal_strlit("initialized");
    reveal_strlit("output");
    reveal_strlit("reason");
    reveal_strlit("stopped");
    reveal_strlit("terminated");
    reveal_strlit("thread");
    assert("body"@.len() == 4);
    assert("breakpoint"@.len() == 10);
    assert("continued"@.len() == 9);
    assert("event"@.len() == 5);
    assert("exited"@.len() == 6);
    assert("initialized"@.len() == 11);
    assert("output"@.len() == 6);
    assert("reason"@.len() == 6);
    assert("stopped"@.len() == 7);
    assert("terminated"@.len() == 10);
    assert("thread"@.len() == 6);
    assert("breakpoint"@[0] == 'b');
    assert("terminated"@[0] == 't');
    assert("exited"@[0] == 'e');
    assert("output"@[0] == 'o');
    assert("reason"@[0] == 'r');
    assert("thread"@[0] == 't');
    let be = breakpoint_body(reason, breakpoint);
    assert(spec_get(be, "reason"@) == Option::Some(SpecVal::Str(reason)));
    assert(spec_get(be, "breakpoint"@) == Option::Some(breakpoint));
}

/// Decoding the encoding of a `module` event yields it back.
proof fn lemma_rt_module(prefix: Seq<(Seq<char>, SpecVal)>, reason: Seq<char>, module: SpecVal)
    requires
        spec_get(prefix, "body"@) is None,
    ensures
        spec_decode_event(
            SpecVal::Obj(prefix + spec_encode_event(EventsV::Module { reason, module })->Obj_0),
        ) == Result::<EventsV, ErrV>::Ok(EventsV::Module { reason, module }),
{
    broadcast use
        crate::value::lemma_get_push_opt,
        crate::value::lemma_get_push_other,
        crate::value::lemma_get_push_same,
        crate::value::lemma_get_concat;

    reveal_strlit("body");
    reveal_strlit("breakpoint");
    reveal_strlit("continued");
    reveal_strlit("event");
    reveal_strlit("exited");
    reveal_strlit("initialized");
    reveal_strlit("module");
    reveal_strlit("output");
    reveal_strlit("reason");
    reveal_strlit("stopped");
    reveal_strlit("terminated");
    reveal_strlit("thread");
    assert("body"@.len() == 4);
    assert("breakpoint"@.len() == 10);
    assert("continued"@.len() == 9);
    assert("event"@.len() == 5);
    assert("exited"@.len() == 6);
    assert("initialized"@.len() == 11);
    assert("module"@.len() == 6);
    assert("output"@.len() == 6);
    assert("reason"@.len() == 6);
    assert("stopped"@.len() == 7);
    assert("terminated"@.len() == 10);
    assert("thread"@.len() == 6);
    assert("breakpoint"@[0] == 'b');
    assert("terminated"@[0] == 't');
    assert("exited"@[0] == 'e');
    assert("module"@[0] == 'm');
    assert("output"@[0] == 'o');
    assert("reason"@[0] == 'r');
    assert("thread"@[0] == 't');
    let be = module_body(reason, module);
    assert(spec_get(be, "reason"@) == Option::Some(SpecVal::Str(reason)));
    assert(spec_get(be, "module"@) == Option::Some(module));
}

/// Decoding the encoding of a `loadedSource` event yields it back.
proof fn lemma_rt_loadedsource(prefix: Seq<(Seq<char>, SpecVal)>, reason: Seq<char>, source: SpecVal)
    requires
        spec_get(prefix, "body"@) is None,
    ensures
        spec_decode_event(
            SpecVal::Obj(prefix + spec_encode_event(EventsV::LoadedSource { reason, source })->Obj_0),
        ) == Result::<EventsV, ErrV>::Ok(EventsV::LoadedSource { reason, source }),
{
    broadcast use
        crate::value::lemma_get_push_opt,
        crate::value::lemma_get_push_other,
        crate::value::lemma_get_push_same,
        crate::value::lemma_get_concat;

    reveal_strlit("body");
    reveal_strlit("breakpoint");
    reveal_strlit("continued");
    reveal_strlit("event");
    reveal_strlit("exited");
    reveal_strlit("initialized");
    reveal_strlit("loadedSource");
    reveal_strlit("module");
    reveal_strlit("output");
    reveal_strlit("reason");
    reveal_strlit("source");
    reveal_strlit("stopped");
    reveal_strlit("terminated");
    reveal_strlit("thread");
    assert("body"@.len() == 4);
    assert("breakpoint"@.len() == 10);
    assert("continued"@.len() == 9);
    assert("event"@.len() == 5);
    assert("exited"@.len() == 6);
    assert("initialized"@.len() == 11);
    assert("loadedSource"@.len() == 12);
    assert("module"@.len() == 6);
    assert("output"@.len() == 6);
    assert("reason"@.len() == 6);
    assert("source"@.len() == 6);
    assert("stopped"@.len() == 7);
    assert("terminated"@.len() == 10);
    assert("thread"@.len() == 6);
    assert("breakpoint"@[0] == 'b');
    assert("terminated"@[0] == 't');
    assert("exited"@[0] == 'e');
    assert("module"@[0] == 'm');
    assert("output"@[0] == 'o');
    assert("reason"@[0] == 'r');
    assert("source"@[0] == 's');
    assert("thread"@[0] == 't');
    let be = loadedsource_body(reason, source);
    assert(spec_get(be, "reason"@) == Option::Some(SpecVal::Str(reason)));
    assert(spec_get(be, "source"@) == Option::Some(source));
}

/// Decoding the encoding of a `process` event yields it back.
proof fn lemma_rt_process(prefix: Seq<(Seq<char>, SpecVal)>, name: Seq<char>)
    requires
        spec_get(prefix, "body"@) is None,
    ensures
        spec_decode_event(
            SpecVal::Obj(prefix + spec_encode_event(EventsV::Process { name })->Obj_0),
        ) == Result::<EventsV, ErrV>::Ok(EventsV::Process { name }),
{
    broadcast use
        crate::value::lemma_get_push_opt,
        crate::value::lemma_get_push_other,
        crate::value::lemma_get_push_same,
        crate::value::lemma_get_concat;

    reveal_strlit("body");
    reveal_strlit("breakpoint");
    reveal_strlit("continued");
    reveal_strlit("event");
    reveal_strlit("exited");
    reveal_strlit("initialized");
    reveal_strlit("loadedSource");
    reveal_strlit("module");
    reveal_strlit("name");
    reveal_strlit("output");
    reveal_strlit("process");
    reveal_strlit("stopped");
    reveal_strlit("terminated");
    reveal_strlit("thread");
    assert("body"@.len() == 4);
    assert("breakpoint"@.len() == 10);
    assert("continued"@.len() == 9);
    assert("event"@.len() == 5);
    assert("exited"@.len() == 6);
    assert("initialized"@.len() == 11);
    assert("loadedSource"@.len() == 12);
    assert("module"@.len() == 6);
    assert("name"@.len() == 4);
    assert("output"@.len() == 6);
    assert("process"@.len() == 7);
    assert("stopped"@.len() == 7);
    assert("terminated"@.len() == 10);
    assert("thread"@.len() == 6);
    assert("body"@[0] == 'b');
    assert("name"@[0] == 'n');
    assert("breakpoint"@[0] == 'b');
    assert("terminated"@[0] == 't');
    assert("exited"@[0] == 'e');
    assert("module"@[0] == 'm');
    assert("output"@[0] == 'o');
    assert("thread"@[0] == 't');
    assert("process"@[0] == 'p');
    assert("stopped"@[0] == 's');
    let be = process_body(name);
    assert(spec_get(be, "name"@) == Option::Some(SpecVal::Str(name)));
}

/// Decoding the encoding of a `progressStart` event yields it back.
proof fn lemma_rt_progressstart(prefix: Seq<(Seq<char>, SpecVal)>, progress_id: Seq<char>, title: Seq<char>)
    requires
        spec_get(prefix, "body"@) is None,
    ensures
        spec_decode_event(
            SpecVal::Obj(prefix + spec_encode_event(EventsV::ProgressStart { progress_id, title })->Obj_0),
        ) == Result::<EventsV, ErrV>::Ok(EventsV::ProgressStart { progress_id, title }),
{
    broadcast use
        crate::value::lemma_get_push_opt,
        crate::value::lemma_get_push_other,
        crate::value::lemma_get_push_same,
        crate::value::lemma_get_concat;

    reveal_strlit("body");
    reveal_strlit("breakpoint");
    reveal_strlit("capabilities");
    reveal_strlit("continued");
    reveal_strlit("event");
    reveal_strlit("exited");
    reveal_strlit("initialized");
    reveal_strlit("loadedSource");
    reveal_strlit("module");
    reveal_strlit("output");
    reveal_strlit("process");
    reveal_strlit("progressId");
    reveal_strlit("progressStart");
    reveal_strlit("stopped");
    reveal_strlit("terminated");
    reveal_strlit("thread");
    reveal_strlit("title");
    assert("body"@.len() == 4);
    assert("breakpoint"@.len() == 10);
    assert("capabilities"@.len() == 12);
    assert("continued"@.len() == 9);
    assert("event"@.len() == 5);
    assert("exited"@.len() == 6);
    assert("initialized"@.len() == 11);
    assert("loadedSource"@.len() == 12);
    assert("module"@.len() == 6);
    assert("output"@.len() == 6);
    assert("process"@.len() == 7);
    assert("progressId"@.len() == 10);
    assert("progressStart"@.len() == 13);
    assert("stopped"@.len() == 7);
    assert("terminated"@.len() == 10);
    assert("thread"@.len() == 6);
    assert("title"@.len() == 5);
    assert("breakpoint"@[0] == 'b');
    assert("progressId"@[0] == 'p');
    assert("terminated"@[0] == 't');
    assert("capabilities"@[0] == 'c');
    assert("loadedSource"@[0] == 'l');
    assert("event"@[0] == 'e');
    assert("title"@[0] == 't');
    assert("exited"@[0] == 'e');
    assert("module"@[0] == 'm');
    assert("output"@[0] == 'o');
    assert("thread"@[0] == 't');
    assert("process"@[0] == 'p');
    assert("stopped"@[0] == 's');
    let be = progressstart_body(progress_id, title);
    assert(spec_get(be, "progressId"@) == Option::Some(SpecVal::Str(progress_id)));
    assert(spec_get(be, "title"@) == Option::Some(SpecVal::Str(title)));
}

/// Decoding the encoding of a `progressUpdate` event yields it back.
proof fn lemma_rt_progressupdate(prefix: Seq<(Seq<char>, SpecVal)>, progress_id: Seq<char>)
    requires
        spec_get(prefix, "body"@) is None,
    ensures
        spec_decode_event(
            SpecVal::Obj(prefix + spec_encode_event(EventsV::ProgressUpdate { progress_id })->Obj_0),
        ) == Result::<EventsV, ErrV>::Ok(EventsV::ProgressUpdate { progress_id }),
{
    broadcast use
        crate::value::lemma_get_push_opt,
        crate::value::lemma_get_push_other,
        crate::value::lemma_get_push_same,
        crate::value::lemma_get_concat;

    reveal_strlit("body");
    reveal_strlit("breakpoint");
    reveal_strlit("capabilities");
    reveal_strlit("continued");
    reveal_strlit("event");
    reveal_strlit("exited");
    reveal_strlit("initialized");
    reveal_strlit("loadedSource");
    reveal_strlit("module");
    reveal_strlit("output");
    reveal_strlit("process");
    reveal_strlit("progressId");
    reveal_strlit("progressStart");
    reveal_strlit("progressUpdate");
    reveal_strlit("stopped");
    reveal_strlit("terminated");
    reveal_strlit("thread");
    assert("body"@.len() == 4);
    assert("breakpoint"@.len() == 10);
    assert("capabilities"@.len() == 12);
    assert("continued"@.len() == 9);
    assert("event"@.len() == 5);
    assert("exited"@.len() == 6);
    assert("initialized"@.len() == 11);
    assert("loadedSource"@.len() == 12);
    assert("module"@.len() == 6);
    assert("output"@.len() == 6);
    assert("process"@.len() == 7);
    assert("progressId"@.len() == 10);
    assert("progressStart"@.len() == 13);
    assert("progressUpdate"@.len() == 14);
    assert("stopped"@.len() == 7);
    assert("terminated"@.len() == 10);
    assert("thread"@.len() == 6);
    assert("breakpoint"@[0] == 'b');
    assert("progressId"@[0] == 'p');
    assert("terminated"@[0] == 't');
    assert("capabilities"@[0] == 'c');
    assert("loadedSource"@[0] == 'l');
    assert("exited"@[0] == 'e');
    assert("module"@[0] == 'm');
    assert("output"@[0] == 'o');
    assert("thread"@[0] == 't');
    assert("process"@[0] == 'p');
    assert("stopped"@[0] == 's');
    let be = progressupdate_body(progress_id);
    assert(spec_get(be, "progressId"@) == Option::Some(SpecVal::Str(progress_id)));
}

/// Decoding the encoding of a `progressEnd` event yields it back.
proof fn lemma_rt_progressend(prefix: Seq<(Seq<char>, SpecVal)>, progress_id: Seq<char>)
    requires
        spec_get(prefix, "body"@) is None,
    ensures
        spec_decode_event(
            SpecVal::Obj(prefix + spec_encode_event(EventsV::ProgressEnd { progress_id })->Obj_0),
        ) == Result::<EventsV, ErrV>::Ok(EventsV::ProgressEnd { progress_id }),
{
    broadcast use
        crate::value::lemma_get_push_opt,
        crate::value::lemma_get_push_other,
        crate::value::lemma_get_push_same,
        crate::value::lemma_get_concat;

    reveal_strlit("body");
    reveal_strlit("breakpoint");
    reveal_strlit("capabilities");
    reveal_strlit("continued");
    reveal_strlit("event");
    reveal_strlit("exited");
    reveal_strlit("initialized");
    reveal_strlit("loadedSource");
    reveal_strlit("module");
    reveal_strlit("output");
    reveal_strlit("process");
    reveal_strlit("progressEnd");
    reveal_strlit("progressId");
    reveal_strlit("progressStart");
    reveal_strlit("progressUpdate");
    reveal_strlit("stopped");
    reveal_strlit("terminated");
    reveal_strlit("thread");
    assert("body"@.len() == 4);
    assert("breakpoint"@.len() == 10);
    assert("capabilities"@.len() == 12);
    assert("continued"@.len() == 9);
    assert("event"@.len() == 5);
    assert("exited"@.len() == 6);
    assert("initialized"@.len() == 11);
    assert("loadedSource"@.len() == 12);
    assert("module"@.len() == 6);
    assert("output"@.len() == 6);
    assert("process"@.len() == 7);
    assert("progressEnd"@.len() == 11);
    assert("progressId"@.len() == 10);
    assert("progressStart"@.len() == 13);
    assert("progressUpdate"@.len() == 14);
    assert("stopped"@.len() == 7);
    assert("terminated"@.len() == 10);
    assert("thread"@.len() == 6);
    assert("breakpoint"@[0] == 'b');
    assert("progressId"@[0] == 'p');
    assert("terminated"@[0] == 't');
    assert("capabilities"@[0] == 'c');
    assert("loadedSource"@[0] == 'l');
    assert("exited"@[0] == 'e');
    assert("module"@[0] == 'm');
    assert("output"@[0] == 'o');
    assert("thread"@[0] == 't');
    assert("initialized"@[0] == 'i');
    assert("progressEnd"@[0] == 'p');
    assert("process"@[0] == 'p');
    assert("stopped"@[0] == 's');
    let be = progressend_body(progress_id);
    assert(spec_get(be, "progressId"@) == Option::Some(SpecVal::Str(progress_id)));
}

/// Decoding the encoding of a `invalidated` event yields it back.
proof fn lemma_rt_invalidated(prefix: Seq<(Seq<char>, SpecVal)>, thread_id: Option<int>)
    requires
        spec_get(prefix, "body"@) is None,
    ensures
        spec_decode_event(
            SpecVal::Obj(prefix + spec_encode_event(EventsV::Invalidated { thread_id })->Obj_0),
        ) == Result::<EventsV, ErrV>::Ok(EventsV::Invalidated { thread_id }),
{
    broadcast use
        crate::value::lemma_get_push_opt,
        crate::value::lemma_get_push_other,
        crate::value::lemma_get_push_same,
        crate::value::lemma_get_concat;

    reveal_strlit("body");
    reveal_strlit("breakpoint");
    reveal_strlit("capabilities");
    reveal_strlit("continued");
    reveal_strlit("event");
    reveal_strlit("exited");
    reveal_strlit("initialized");
    reveal_strlit("invalidated");
    reveal_strlit("loadedSource");
    reveal_strlit("module");
    reveal_strlit("output");
    reveal_strlit("process");
    reveal_strlit("progressEnd");
    reveal_strlit("progressStart");
    reveal_strlit("progressUpdate");
    reveal_strlit("stopped");
    reveal_strlit("terminated");
    reveal_strlit("thread");
    reveal_strlit("threadId");
    assert("body"@.len() == 4);
    assert("breakpoint"@.len() == 10);
    assert("capabilities"@.len() == 12);
    assert("continued"@.len() == 9);
    assert("event"@.len() == 5);
    assert("exited"@.len() == 6);
    assert("initialized"@.len() == 11);
    assert("invalidated"@.len() == 11);
    assert("loadedSource"@.len() == 12);
    assert("module"@.len() == 6);
    assert("output"@.len() == 6);
    assert("process"@.len() == 7);
    assert("progressEnd"@.len() == 11);
    assert("progressStart"@.len() == 13);
    assert("progressUpdate"@.len() == 14);
    assert("stopped"@.len() == 7);
    assert("terminated"@.len() == 10);
    assert("thread"@.len() == 6);
    assert("threadId"@.len() == 8);
    assert("breakpoint"@[0] == 'b');
    assert("terminated"@[0] == 't');
    assert("capabilities"@[0] == 'c');
    assert("loadedSource"@[0] == 'l');
    assert("exited"@[0] == 'e');
    assert("module"@[0] == 'm');
    assert("output"@[0] == 'o');
    assert("thread"@[0] == 't');
    assert("initialized"@[2] == 'i');
    assert("invalidated"@[2] == 'v');
    assert("initialized"@[0] == 'i');
    assert("progressEnd"@[0] == 'p');
    assert("invalidated"@[0] == 'i');
    assert("process"@[0] == 'p');
    assert("stopped"@[0] == 's');
    let be = invalidated_body(thread_id);
    assert(spec_get(be, "threadId"@) == (match thread_id {
        Option::Some(n) => Option::Some(SpecVal::Int(n)),
        Option::None => Option::None,
    }));
}

/// Decoding the encoding of a `memory` event yields it back.
proof fn lemma_rt_memory(prefix: Seq<(Seq<char>, SpecVal)>, memory_reference: Seq<char>, offset: int, count: int)
    requires
        spec_get(prefix, "body"@) is None,
    ensures
        spec_decode_event(
            SpecVal::Obj(prefix + spec_encode_event(EventsV::Memory { memory_reference, offset, count })->Obj_0),
        ) == Result::<EventsV, ErrV>::Ok(EventsV::Memory { memory_reference, offset, count }),
{
    broadcast use
        crate::value::lemma_get_push_opt,
        crate::value::lemma_get_push_other,
        crate::value::lemma_get_push_same,
        crate::value::lemma_get_concat;

    reveal_strlit("body");
    reveal_strlit("breakpoint");
    reveal_strlit("capabilities");
    reveal_strlit("continued");
    reveal_strlit("count");
    reveal_strlit("event");
    reveal_strlit("exited");
    reveal_strlit("initialized");
    reveal_strlit("invalidated");
    reveal_strlit("loadedSource");
    reveal_strlit("memory");
    reveal_strlit("memoryReference");
    reveal_strlit("module");
    reveal_strlit("offset");
    reveal_strlit("output");
    reveal_strlit("process");
    reveal_strlit("progressEnd");
    reveal_strlit("progressStart");
    reveal_strlit("progressUpdate");
    reveal_strlit("stopped");
    reveal_strlit("terminated");
    reveal_strlit("thread");
    assert("body"@.len() == 4);
    assert("breakpoint"@.len() == 10);
    assert("capabilities"@.len() == 12);
    assert("continued"@.len() == 9);
    assert("count"@.len() == 5);
    assert("event"@.len() == 5);
    assert("exited"@.len() == 6);
    assert("initialized"@.len() == 11);
    assert("invalidated"@.len() == 11);
    assert("loadedSource"@.len() == 12);
    assert("memory"@.len() == 6);
    assert("memoryReference"@.len() == 15);
    assert("module"@.len() == 6);
    assert("offset"@.len() == 6);
    assert("output"@.len() == 6);
    assert("process"@.len() == 7);
    assert("progressEnd"@.len() == 11);
    assert("progressStart"@.len() == 13);
    assert("progressUpdate"@.len() == 14);
    assert("stopped"@.len() == 7);
    assert("terminated"@.len() == 10);
    assert("thread"@.len() == 6);
    assert("breakpoint"@[0] == 'b');
    assert("terminated"@[0] == 't');
    assert("capabilities"@[0] == 'c');
    assert("loadedSource"@[0] == 'l');
    assert("count"@[0] == 'c');
    assert("event"@[0] == 'e');
    assert("exited"@[0] == 'e');
    assert("memory"@[0] == 'm');
    assert("module"@[0] == 'm');
    assert("offset"@[0] == 'o');
    assert("output"@[0] == 'o');
    assert("thread"@[0] == 't');
    assert("initialized"@[2] == 'i');
    assert("invalidated"@[2] == 'v');
    assert("initialized"@[0] == 'i');
    assert("progressEnd"@[0] == 'p');
    assert("invalidated"@[0] == 'i');
    assert("memory"@[1] == 'e');
    assert("module"@[1] == 'o');
    assert("offset"@[1] == 'f');
    assert("output"@[1] == 'u');
    assert("process"@[0] == 'p');
    assert("stopped"@[0] == 's');
    let be = memory_body(memory_reference, offset, count);
    assert(spec_get(be, "memoryReference"@) == Option::Some(SpecVal::Str(memory_reference)));
    assert(spec_get(be, "offset"@) == Option::Some(SpecVal::Int(offset)));
    assert(spec_get(be, "count"@) == Option::Some(SpecVal::Int(count)));
}

/// The events whose wire round trip is proved here: every kind that does
/// not carry a capability record, an `initialized` event with no payload,
/// and a fallback event whose tag is genuinely unknown.
pub open spec fn event_round_trip_supported(e: EventsV) -> bool {
    match e {
        EventsV::Initialized(op) => op is None,
        EventsV::Capabilities { .. } => false,
        EventsV::Other { event, .. } => !is_known_tag(event),
        _ => true,
    }
}

/// Decoding the encoding of an event yields the event back, for every
/// supported event, in any envelope whose other entries carry no `body`
/// key. Capability-carrying payloads are outside this statement.
pub proof fn lemma_event_round_trip(prefix: Seq<(Seq<char>, SpecVal)>, e: EventsV)
    requires
        spec_get(prefix, "body"@) is None,
        event_round_trip_supported(e),
    ensures
        spec_decode_event(SpecVal::Obj(prefix + spec_encode_event(e)->Obj_0))
            == Result::<EventsV, ErrV>::Ok(e),
{
    match e {
        EventsV::Initialized(_) => lemma_rt_initialized_absent(prefix),
        EventsV::Terminated(restart) => lemma_rt_terminated(prefix, restart),
        EventsV::Stopped { reason, thread_id } => lemma_rt_stopped(prefix, reason, thread_id),
        EventsV::Continued { thread_id } => lemma_rt_continued(prefix, thread_id),
        EventsV::Exited { exit_code } => lemma_rt_exited(prefix, exit_code),
        EventsV::Thread { reason, thread_id } => lemma_rt_thread(prefix, reason, thread_id),
        EventsV::Output { category, output } => lemma_rt_output(prefix, category, output),
        EventsV::Breakpoint { reason, breakpoint } => lemma_rt_breakpoint(prefix, reason, breakpoint),
        EventsV::Module { reason, module } => lemma_rt_module(prefix, reason, module),
        EventsV::LoadedSource { reason, source } => lemma_rt_loadedsource(prefix, reason, source),
        EventsV::Process { name } => lemma_rt_process(prefix, name),
        EventsV::ProgressStart { progress_id, title } => lemma_rt_progressstart(prefix, progress_id, title),
        EventsV::ProgressUpdate { progress_id } => lemma_rt_progressupdate(prefix, progress_id),
        EventsV::ProgressEnd { progress_id } => lemma_rt_progressend(prefix, progress_id),
        EventsV::Invalidated { thread_id } => lemma_rt_invalidated(prefix, thread_id),
        EventsV::Memory { memory_reference, offset, count } => lemma_rt_memory(prefix, memory_reference, offset, count),
        EventsV::Capabilities { .. } => (),
        EventsV::Other { event, body } => {
            broadcast use
                crate::value::lemma_get_push_opt,
                crate::value::lemma_get_push_other,
                crate::value::lemma_get_push_same,
                crate::value::lemma_get_concat;

    reveal_strlit("body");
    reveal_strlit("event");
    assert("body"@.len() == 4);
    assert("event"@.len() == 5);
        },
    }
}

} // verus!
