//! The zone status decoder: one forward pass over a response document's
//! events yields a zone's power state, mute state, volume level and selected
//! input. The decoder tracks which scalar leaf it is inside, plus one flag
//! for the value wrapper nested under the volume region, because the numeric
//! level sits one level deeper than the other three scalars.

use vstd::prelude::*;

use crate::events::{events_view, tokenize, xml_events, xml_ok, DecodeError, Event, RawEvent};
use crate::text::{int_text_value, parse_i32, str_eq, valid_i32_text};

verus! {

/// A zone's basic status. Fields not present in the decoded document keep
/// their defaults: absence of an element is not an error.
#[derive(PartialEq, Debug, Clone)]
pub struct BasicInfo {
    pub power: bool,
    pub volume: i32,
    pub mute: bool,
    pub input: String,
}

/// The mathematical model of a zone's basic status.
pub struct BasicInfoModel {
    pub power: bool,
    pub volume: int,
    pub mute: bool,
    pub input: Seq<char>,
}

impl View for BasicInfo {
    type V = BasicInfoModel;

    open spec fn view(&self) -> BasicInfoModel {
        BasicInfoModel {
            power: self.power,
            volume: self.volume as int,
            mute: self.mute,
            input: self.input@,
        }
    }
}

/// Which scalar leaf the decoder is currently inside, if any.
#[derive(Clone, Copy, PartialEq, Eq, Structural, Debug)]
pub enum ScalarTarget {
    Power,
    Volume,
    Mute,
    Input,
}

/// The decoder's transient state: the current scalar target, the flag for
/// the value wrapper under the volume region, and the status built so far.
pub struct ZoneDecodeState {
    pub target: Option<ScalarTarget>,
    pub in_value: bool,
    pub info: BasicInfoModel,
}

pub open spec fn initial_zone_state() -> ZoneDecodeState {
    ZoneDecodeState {
        target: None,
        in_value: false,
        info: BasicInfoModel { power: false, volume: 0, mute: false, input: Seq::empty() },
    }
}

/// One transition of the zone status decoder. Entering a recognized leaf
/// selects it as the scalar target and leaving it clears the target; the
/// value wrapper under the volume region has its own flag, and volume text
/// counts only while that flag is set. Boolean text is an exact match on the
/// device's `On` token: any other text reads as the inactive state. The
/// selected input is stored verbatim.
pub open spec fn zone_step(st: ZoneDecodeState, e: Event) -> Result<ZoneDecodeState, DecodeError> {
    match e {
        Event::Open(n) => Ok(
            if n == "Power"@ {
                ZoneDecodeState { target: Some(ScalarTarget::Power), ..st }
            } else if n == "Volume"@ {
                ZoneDecodeState { target: Some(ScalarTarget::Volume), ..st }
            } else if n == "Mute"@ {
                ZoneDecodeState { target: Some(ScalarTarget::Mute), ..st }
            } else if n == "Input_Sel"@ {
                ZoneDecodeState { target: Some(ScalarTarget::Input), ..st }
            } else if n == "Val"@ {
                ZoneDecodeState { in_value: true, ..st }
            } else {
                st
            },
        ),
        Event::Close(n) => Ok(
            if n == "Power"@ || n == "Volume"@ || n == "Mute"@ || n == "Input_Sel"@ {
                ZoneDecodeState { target: None, ..st }
            } else if n == "Val"@ {
                ZoneDecodeState { in_value: false, ..st }
            } else {
                st
            },
        ),
        Event::Text(s) => match st.target {
            Some(ScalarTarget::Power) => Ok(
                ZoneDecodeState { info: BasicInfoModel { power: s == "On"@, ..st.info }, ..st },
            ),
            Some(ScalarTarget::Mute) => Ok(
                ZoneDecodeState { info: BasicInfoModel { mute: s == "On"@, ..st.info }, ..st },
            ),
            Some(ScalarTarget::Input) => Ok(
                ZoneDecodeState { info: BasicInfoModel { input: s, ..st.info }, ..st },
            ),
            Some(ScalarTarget::Volume) => if st.in_value {
                if valid_i32_text(s) {
                    Ok(
                        ZoneDecodeState {
                            info: BasicInfoModel { volume: int_text_value(s), ..st.info },
                            ..st
                        },
                    )
                } else {
                    Err(DecodeError::Value)
                }
            } else {
                Ok(st)
            },
            None => Ok(st),
        },
        Event::Other => Ok(st),
    }
}

/// The decoder's state after a whole event stream.
pub open spec fn zone_run(events: Seq<Event>) -> Result<ZoneDecodeState, DecodeError>
    decreases events.len(),
{
    if events.len() == 0 {
        Ok(initial_zone_state())
    } else {
        match zone_run(events.drop_last()) {
            Ok(st) => zone_step(st, events.last()),
            Err(e) => Err(e),
        }
    }
}

/// What decoding a zone-status event stream yields.
pub open spec fn zone_status_of(events: Seq<Event>) -> Result<BasicInfoModel, DecodeError> {
    match zone_run(events) {
        Ok(st) => Ok(st.info),
        Err(e) => Err(e),
    }
}

/// Once a prefix of the stream fails, the whole stream fails the same way.
proof fn lemma_zone_run_err(events: Seq<Event>, i: int, e: DecodeError)
    requires
        0 <= i <= events.len(),
        zone_run(events.take(i)) == Err::<ZoneDecodeState, DecodeError>(e),
    ensures
        zone_run(events) == Err::<ZoneDecodeState, DecodeError>(e),
    decreases events.len() - i,
{
    if i < events.len() {
        assert(events.take(i + 1).drop_last() =~= events.take(i));
        lemma_zone_run_err(events, i + 1, e);
    } else {
        assert(events.take(i) =~= events);
    }
}

/// Decodes a zone-status event stream, exactly as `zone_status_of` says.
pub fn decode_basic_info(events: &Vec<RawEvent>) -> (r: Result<BasicInfo, DecodeError>)
    ensures
        match r {
            Ok(info) => zone_status_of(events_view(events@)) == Ok::<BasicInfoModel, DecodeError>(
                info@,
            ),
            Err(e) => zone_status_of(events_view(events@)) == Err::<BasicInfoModel, DecodeError>(e),
        },
{
    let ghost evs = events_view(events@);
    let mut info = BasicInfo { power: false, volume: 0, mute: false, input: String::new() };
    let mut target: Option<ScalarTarget> = None;
    let mut in_value: bool = false;
    let mut i: usize = 0;
    proof {
        assert(evs.take(0) =~= Seq::<Event>::empty());
    }
    while i < events.len()
        invariant
            i <= events.len(),
            evs == events_view(events@),
            evs.len() == events@.len(),
            zone_run(evs.take(i as int)) == Ok::<ZoneDecodeState, DecodeError>(
                ZoneDecodeState { target, in_value, info: info@ },
            ),
        decreases events.len() - i,
    {
        proof {
            assert(evs.take(i + 1).drop_last() =~= evs.take(i as int));
            assert(evs.take(i + 1).last() == events@[i as int]@);
        }
        match &events[i] {
            RawEvent::Open(n) => {
                if str_eq(n.as_str(), "Power") {
                    target = Some(ScalarTarget::Power);
                } else if str_eq(n.as_str(), "Volume") {
                    target = Some(ScalarTarget::Volume);
                } else if str_eq(n.as_str(), "Mute") {
                    target = Some(ScalarTarget::Mute);
                } else if str_eq(n.as_str(), "Input_Sel") {
                    target = Some(ScalarTarget::Input);
                } else if str_eq(n.as_str(), "Val") {
                    in_value = true;
                }
            },
            RawEvent::Close(n) => {
                if str_eq(n.as_str(), "Power") || str_eq(n.as_str(), "Volume") || str_eq(
                    n.as_str(),
                    "Mute",
                ) || str_eq(n.as_str(), "Input_Sel") {
                    target = None;
                } else if str_eq(n.as_str(), "Val") {
                    in_value = false;
                }
            },
            RawEvent::Text(s) => {
                match target {
                    Some(ScalarTarget::Power) => {
                        info.power = str_eq(s.as_str(), "On");
                    },
                    Some(ScalarTarget::Mute) => {
                        info.mute = str_eq(s.as_str(), "On");
                    },
                    Some(ScalarTarget::Input) => {
                        info.input = s.clone();
                    },
                    Some(ScalarTarget::Volume) => {
                        if in_value {
                            match parse_i32(s.as_str()) {
                                Some(v) => {
                                    info.volume = v;
                                },
                                None => {
                                    proof {
                                        lemma_zone_run_err(evs, i + 1, DecodeError::Value);
                                    }
                                    return Err(DecodeError::Value);
                                },
                            }
                        }
                    },
                    None => {},
                }
            },
            RawEvent::Other => {},
        }
        i = i + 1;
    }
    proof {
        assert(evs.take(events@.len() as int) =~= evs);
    }
    Ok(info)
}

/// What decoding a whole zone-status document yields: the structure error
/// exactly on the documents the tokenizer rejects, and the event-stream
/// decode on all others. A function of the document text alone.
pub open spec fn decoded_zone_status(doc: Seq<char>) -> Result<BasicInfoModel, DecodeError> {
    if xml_ok(doc) {
        zone_status_of(xml_events(doc))
    } else {
        Err(DecodeError::Structure)
    }
}

/// Decodes a zone-status response document: exactly `decoded_zone_status`
/// on the document's text, on both arms.
pub fn parse_basic_info(document: String) -> (r: Result<BasicInfo, DecodeError>)
    ensures
        match r {
            Ok(info) => decoded_zone_status(document@) == Ok::<BasicInfoModel, DecodeError>(info@),
            Err(e) => decoded_zone_status(document@) == Err::<BasicInfoModel, DecodeError>(e),
        },
{
    match tokenize(document.as_str()) {
        Ok(events) => decode_basic_info(&events),
        Err(e) => Err(e),
    }
}

} // verus!
