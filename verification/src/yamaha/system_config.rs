//! The system configuration decoder: one forward pass over a response
//! document's events yields the device's model name, its input catalogue in
//! document order, the zones it exposes, and its feature-availability flags.
//!
//! The decoder tracks three mutually independent regions — the input
//! catalogue, the model-name leaf, and the feature-existence region — plus,
//! inside the catalogue, the input under construction, and inside the
//! feature region, the feature leaf whose text is awaited. The catalogue is
//! open-ended: whatever leaf names the device reports become inputs, each
//! run through the name normalizer when its element closes. Feature leaves
//! are resolved against a fixed name-to-effect table; unrecognized names are
//! ignored.

use vstd::prelude::*;

use crate::commands::{zone_tag, ZoneId};
use crate::events::{events_view, tokenize, xml_events, xml_ok, DecodeError, Event, RawEvent};
use crate::normalize::{normalize, normalized};
use crate::text::{str_eq, trim_text, trimmed};

verus! {

/// The feature-availability flags a device reports. Each is independent,
/// defaults to `false`, and turns `true` only on an explicit `1` in the
/// feature-existence region of the configuration document.
#[derive(PartialEq, Debug, Copy, Clone)]
pub struct SystemConfigAvailableFeatures {
    pub tuner: bool,
    pub hd_radio: bool,
    pub rhapsody: bool,
    pub sirius_ir: bool,
    pub pandora: bool,
    pub server: bool,
    pub net_radio: bool,
    pub usb: bool,
    pub ipod: bool,
    pub air_play: bool,
}

pub open spec fn no_features() -> SystemConfigAvailableFeatures {
    SystemConfigAvailableFeatures {
        tuner: false,
        hd_radio: false,
        rhapsody: false,
        sirius_ir: false,
        pandora: false,
        server: false,
        net_radio: false,
        usb: false,
        ipod: false,
        air_play: false,
    }
}

/// One input the device reports in its catalogue.
#[derive(PartialEq, Debug, Clone)]
pub struct Input {
    /// The internal name, normalized; used for input selection.
    pub name: String,
    /// A user-set display name; `None` when the device reports an empty or
    /// whitespace-only label.
    pub display_name: Option<String>,
}

/// A device's system configuration, as one decode call reconstructs it.
#[derive(PartialEq, Debug, Clone)]
pub struct SystemConfig {
    pub model_name: Option<String>,
    /// The input catalogue, in document order.
    pub inputs: Vec<Input>,
    pub available_zones: Vec<String>,
    pub available_features: SystemConfigAvailableFeatures,
}

/// The mathematical model of one catalogue input.
pub struct InputModel {
    pub name: Seq<char>,
    pub display_name: Option<Seq<char>>,
}

pub open spec fn opt_string_view(o: Option<String>) -> Option<Seq<char>> {
    match o {
        Some(s) => Some(s@),
        None => None,
    }
}

impl View for Input {
    type V = InputModel;

    open spec fn view(&self) -> InputModel {
        InputModel { name: self.name@, display_name: opt_string_view(self.display_name) }
    }
}

pub open spec fn opt_input_view(o: Option<Input>) -> Option<InputModel> {
    match o {
        Some(x) => Some(x@),
        None => None,
    }
}

pub open spec fn inputs_view(s: Seq<Input>) -> Seq<InputModel> {
    s.map_values(|x: Input| x@)
}

pub open spec fn strings_view(s: Seq<String>) -> Seq<Seq<char>> {
    s.map_values(|x: String| x@)
}

/// The mathematical model of a system configuration.
pub struct SystemConfigModel {
    pub model_name: Option<Seq<char>>,
    pub inputs: Seq<InputModel>,
    pub available_zones: Seq<Seq<char>>,
    pub available_features: SystemConfigAvailableFeatures,
}

impl View for SystemConfig {
    type V = SystemConfigModel;

    open spec fn view(&self) -> SystemConfigModel {
        SystemConfigModel {
            model_name: opt_string_view(self.model_name),
            inputs: inputs_view(self.inputs@),
            available_zones: strings_view(self.available_zones@),
            available_features: self.available_features,
        }
    }
}

/// One feature flag of `SystemConfigAvailableFeatures`.
#[derive(Clone, Copy, PartialEq, Eq, Structural, Debug)]
pub enum Feature {
    Tuner,
    HdRadio,
    Rhapsody,
    SiriusIr,
    Pandora,
    Server,
    NetRadio,
    Usb,
    Ipod,
    AirPlay,
}

/// What an explicit `1` under a recognized feature leaf does: mark a zone
/// present, or set one feature flag.
#[derive(Clone, Copy, PartialEq, Eq, Structural, Debug)]
pub enum FeatureEffect {
    Zone(ZoneId),
    Flag(Feature),
}

/// The fixed feature-name-to-effect table. Names outside the table have no
/// effect: the device's vocabulary may grow without breaking the decoder.
pub open spec fn feature_effect_table(name: Seq<char>) -> Option<FeatureEffect> {
    if name == "Main_Zone"@ {
        Some(FeatureEffect::Zone(ZoneId::MainZone))
    } else if name == "Zone_2"@ {
        Some(FeatureEffect::Zone(ZoneId::Zone2))
    } else if name == "Zone_3"@ {
        Some(FeatureEffect::Zone(ZoneId::Zone3))
    } else if name == "Zone_4"@ {
        Some(FeatureEffect::Zone(ZoneId::Zone4))
    } else if name == "Tuner"@ {
        Some(FeatureEffect::Flag(Feature::Tuner))
    } else if name == "HD_Radio"@ {
        Some(FeatureEffect::Flag(Feature::HdRadio))
    } else if name == "Rhapsody"@ {
        Some(FeatureEffect::Flag(Feature::Rhapsody))
    } else if name == "SIRIUS_IR"@ {
        Some(FeatureEffect::Flag(Feature::SiriusIr))
    } else if name == "Pandora"@ {
        Some(FeatureEffect::Flag(Feature::Pandora))
    } else if name == "SERVER"@ {
        Some(FeatureEffect::Flag(Feature::Server))
    } else if name == "NET_RADIO"@ {
        Some(FeatureEffect::Flag(Feature::NetRadio))
    } else if name == "USB"@ {
        Some(FeatureEffect::Flag(Feature::Usb))
    } else if name == "iPod_USB"@ {
        Some(FeatureEffect::Flag(Feature::Ipod))
    } else if name == "AirPlay"@ {
        Some(FeatureEffect::Flag(Feature::AirPlay))
    } else {
        None
    }
}

/// The flags with one feature set.
pub open spec fn set_flag(
    f: SystemConfigAvailableFeatures,
    which: Feature,
) -> SystemConfigAvailableFeatures {
    match which {
        Feature::Tuner => SystemConfigAvailableFeatures { tuner: true, ..f },
        Feature::HdRadio => SystemConfigAvailableFeatures { hd_radio: true, ..f },
        Feature::Rhapsody => SystemConfigAvailableFeatures { rhapsody: true, ..f },
        Feature::SiriusIr => SystemConfigAvailableFeatures { sirius_ir: true, ..f },
        Feature::Pandora => SystemConfigAvailableFeatures { pandora: true, ..f },
        Feature::Server => SystemConfigAvailableFeatures { server: true, ..f },
        Feature::NetRadio => SystemConfigAvailableFeatures { net_radio: true, ..f },
        Feature::Usb => SystemConfigAvailableFeatures { usb: true, ..f },
        Feature::Ipod => SystemConfigAvailableFeatures { ipod: true, ..f },
        Feature::AirPlay => SystemConfigAvailableFeatures { air_play: true, ..f },
    }
}

/// Looks a feature leaf name up in the fixed table.
pub fn feature_effect(name: &str) -> (r: Option<FeatureEffect>)
    ensures
        r == feature_effect_table(name@),
{
    if str_eq(name, "Main_Zone") {
        Some(FeatureEffect::Zone(ZoneId::MainZone))
    } else if str_eq(name, "Zone_2") {
        Some(FeatureEffect::Zone(ZoneId::Zone2))
    } else if str_eq(name, "Zone_3") {
        Some(FeatureEffect::Zone(ZoneId::Zone3))
    } else if str_eq(name, "Zone_4") {
        Some(FeatureEffect::Zone(ZoneId::Zone4))
    } else if str_eq(name, "Tuner") {
        Some(FeatureEffect::Flag(Feature::Tuner))
    } else if str_eq(name, "HD_Radio") {
        Some(FeatureEffect::Flag(Feature::HdRadio))
    } else if str_eq(name, "Rhapsody") {
        Some(FeatureEffect::Flag(Feature::Rhapsody))
    } else if str_eq(name, "SIRIUS_IR") {
        Some(FeatureEffect::Flag(Feature::SiriusIr))
    } else if str_eq(name, "Pandora") {
        Some(FeatureEffect::Flag(Feature::Pandora))
    } else if str_eq(name, "SERVER") {
        Some(FeatureEffect::Flag(Feature::Server))
    } else if str_eq(name, "NET_RADIO") {
        Some(FeatureEffect::Flag(Feature::NetRadio))
    } else if str_eq(name, "USB") {
        Some(FeatureEffect::Flag(Feature::Usb))
    } else if str_eq(name, "iPod_USB") {
        Some(FeatureEffect::Flag(Feature::Ipod))
    } else if str_eq(name, "AirPlay") {
        Some(FeatureEffect::Flag(Feature::AirPlay))
    } else {
        None
    }
}

fn apply_flag(features: &mut SystemConfigAvailableFeatures, which: Feature)
    ensures
        *final(features) == set_flag(*old(features), which),
{
    match which {
        Feature::Tuner => features.tuner = true,
        Feature::HdRadio => features.hd_radio = true,
        Feature::Rhapsody => features.rhapsody = true,
        Feature::SiriusIr => features.sirius_ir = true,
        Feature::Pandora => features.pandora = true,
        Feature::Server => features.server = true,
        Feature::NetRadio => features.net_radio = true,
        Feature::Usb => features.usb = true,
        Feature::Ipod => features.ipod = true,
        Feature::AirPlay => features.air_play = true,
    }
}

/// The decoder's transient state: the three region flags, the two
/// accumulators, and the configuration built so far.
pub struct ConfigDecodeState {
    pub in_inputs: bool,
    pub in_model_name: bool,
    pub in_features: bool,
    pub current_input: Option<InputModel>,
    pub current_feature: Option<Seq<char>>,
    pub config: SystemConfigModel,
}

pub open spec fn initial_config_state() -> ConfigDecodeState {
    ConfigDecodeState {
        in_inputs: false,
        in_model_name: false,
        in_features: false,
        current_input: None,
        current_feature: None,
        config: SystemConfigModel {
            model_name: None,
            inputs: Seq::empty(),
            available_zones: Seq::empty(),
            available_features: no_features(),
        },
    }
}

/// One transition of the system configuration decoder.
///
/// A region marker opening or closing sets or clears its flag, whatever else
/// is pending. Any other element opening inside the catalogue starts an
/// input named after it; inside the feature region it becomes the awaited
/// feature leaf. Text goes, in priority order, to the model name (trimmed),
/// to the pending input's display name (trimmed; empty means none), or — if
/// it is exactly `1` — through the feature table. Any other element closing
/// inside the catalogue finalizes the pending input through the normalizer,
/// in document order; with no input pending the document is malformed.
pub open spec fn config_step(st: ConfigDecodeState, e: Event) -> Result<
    ConfigDecodeState,
    DecodeError,
> {
    match e {
        Event::Open(n) => Ok(
            if n == "Input"@ {
                ConfigDecodeState { in_inputs: true, ..st }
            } else if n == "Model_Name"@ {
                ConfigDecodeState { in_model_name: true, ..st }
            } else if n == "Feature_Existence"@ {
                ConfigDecodeState { in_features: true, ..st }
            } else if st.in_inputs {
                ConfigDecodeState {
                    current_input: Some(InputModel { name: n, display_name: None }),
                    ..st
                }
            } else if st.in_features {
                ConfigDecodeState { current_feature: Some(n), ..st }
            } else {
                st
            },
        ),
        Event::Close(n) => if n == "Input"@ {
            Ok(ConfigDecodeState { in_inputs: false, ..st })
        } else if n == "Model_Name"@ {
            Ok(ConfigDecodeState { in_model_name: false, ..st })
        } else if n == "Feature_Existence"@ {
            Ok(ConfigDecodeState { in_features: false, ..st })
        } else if st.in_inputs {
            match st.current_input {
                Some(inp) => Ok(
                    ConfigDecodeState {
                        current_input: None,
                        config: SystemConfigModel {
                            inputs: st.config.inputs.push(
                                InputModel {
                                    name: normalized(inp.name),
                                    display_name: inp.display_name,
                                },
                            ),
                            ..st.config
                        },
                        ..st
                    },
                ),
                None => Err(DecodeError::Structure),
            }
        } else if st.in_features {
            Ok(ConfigDecodeState { current_feature: None, ..st })
        } else {
            Ok(st)
        },
        Event::Text(s) => Ok(
            if st.in_model_name {
                ConfigDecodeState {
                    config: SystemConfigModel { model_name: Some(trimmed(s)), ..st.config },
                    ..st
                }
            } else if st.in_inputs && st.current_input is Some {
                let inp = st.current_input->Some_0;
                let t = trimmed(s);
                ConfigDecodeState {
                    current_input: Some(
                        InputModel {
                            name: inp.name,
                            display_name: if t.len() == 0 {
                                None
                            } else {
                                Some(t)
                            },
                        },
                    ),
                    ..st
                }
            } else if st.in_features && s == "1"@ {
                match st.current_feature {
                    Some(fname) => match feature_effect_table(fname) {
                        Some(FeatureEffect::Zone(z)) => ConfigDecodeState {
                            config: SystemConfigModel {
                                available_zones: st.config.available_zones.push(zone_tag(z)),
                                ..st.config
                            },
                            ..st
                        },
                        Some(FeatureEffect::Flag(f)) => ConfigDecodeState {
                            config: SystemConfigModel {
                                available_features: set_flag(st.config.available_features, f),
                                ..st.config
                            },
                            ..st
                        },
                        None => st,
                    },
                    None => st,
                }
            } else {
                st
            },
        ),
        Event::Other => Ok(st),
    }
}

/// The decoder's state after a whole event stream.
pub open spec fn config_run(events: Seq<Event>) -> Result<ConfigDecodeState, DecodeError>
    decreases events.len(),
{
    if events.len() == 0 {
        Ok(initial_config_state())
    } else {
        match config_run(events.drop_last()) {
            Ok(st) => config_step(st, events.last()),
            Err(e) => Err(e),
        }
    }
}

/// What decoding a system-configuration event stream yields.
pub open spec fn system_config_of(events: Seq<Event>) -> Result<SystemConfigModel, DecodeError> {
    match config_run(events) {
        Ok(st) => Ok(st.config),
        Err(e) => Err(e),
    }
}

/// Once a prefix of the stream fails, the whole stream fails the same way.
proof fn lemma_config_run_err(events: Seq<Event>, i: int, e: DecodeError)
    requires
        0 <= i <= events.len(),
        config_run(events.take(i)) == Err::<ConfigDecodeState, DecodeError>(e),
    ensures
        config_run(events) == Err::<ConfigDecodeState, DecodeError>(e),
    decreases events.len() - i,
{
    if i < events.len() {
        assert(events.take(i + 1).drop_last() =~= events.take(i));
        lemma_config_run_err(events, i + 1, e);
    } else {
        assert(events.take(i) =~= events);
    }
}

/// Decodes a system-configuration event stream, exactly as
/// `system_config_of` says.
#[verifier::rlimit(100)]
pub fn decode_system_config(events: &Vec<RawEvent>) -> (r: Result<SystemConfig, DecodeError>)
    ensures
        match r {
            Ok(config) => system_config_of(events_view(events@)) == Ok::<
                SystemConfigModel,
                DecodeError,
            >(config@),
            Err(e) => system_config_of(events_view(events@)) == Err::<
                SystemConfigModel,
                DecodeError,
            >(e),
        },
{
    let ghost evs = events_view(events@);
    let mut in_inputs: bool = false;
    let mut in_model_name: bool = false;
    let mut in_features: bool = false;
    let mut current_input: Option<Input> = None;
    let mut current_feature: Option<String> = None;
    let mut model_name: Option<String> = None;
    let mut inputs: Vec<Input> = Vec::new();
    let mut available_zones: Vec<String> = Vec::new();
    let mut available_features = SystemConfigAvailableFeatures {
        tuner: false,
        hd_radio: false,
        rhapsody: false,
        sirius_ir: false,
        pandora: false,
        server: false,
        net_radio: false,
        usb: false,
        ipod: false,
        air_play: false,
    };
    let mut i: usize = 0;
    proof {
        assert(evs.take(0) =~= Seq::<Event>::empty());
        assert(inputs_view(inputs@) =~= Seq::<InputModel>::empty());
        assert(strings_view(available_zones@) =~= Seq::<Seq<char>>::empty());
    }
    while i < events.len()
        invariant
            i <= events.len(),
            evs == events_view(events@),
            evs.len() == events@.len(),
            config_run(evs.take(i as int)) == Ok::<ConfigDecodeState, DecodeError>(
                (ConfigDecodeState {
                    in_inputs,
                    in_model_name,
                    in_features,
                    current_input: opt_input_view(current_input),
                    current_feature: opt_string_view(current_feature),
                    config: SystemConfigModel {
                        model_name: opt_string_view(model_name),
                        inputs: inputs_view(inputs@),
                        available_zones: strings_view(available_zones@),
                        available_features,
                    },
                }),
            ),
        decreases events.len() - i,
    {
        proof {
            assert(evs.take(i + 1).drop_last() =~= evs.take(i as int));
            assert(evs.take(i + 1).last() == events@[i as int]@);
        }
        match &events[i] {
            RawEvent::Open(n) => {
                if str_eq(n.as_str(), "Input") {
                    in_inputs = true;
                } else if str_eq(n.as_str(), "Model_Name") {
                    in_model_name = true;
                } else if str_eq(n.as_str(), "Feature_Existence") {
                    in_features = true;
                } else if in_inputs {
                    current_input = Some(Input { name: n.clone(), display_name: None });
                } else if in_features {
                    current_feature = Some(n.clone());
                }
            },
            RawEvent::Close(n) => {
                if str_eq(n.as_str(), "Input") {
                    in_inputs = false;
                } else if str_eq(n.as_str(), "Model_Name") {
                    in_model_name = false;
                } else if str_eq(n.as_str(), "Feature_Existence") {
                    in_features = false;
                } else if in_inputs {
                    let cur = current_input;
                    match cur {
                        Some(inp) => {
                            let ghost prev = inputs@;
                            let name = normalize(inp.name);
                            inputs.push(Input { name, display_name: inp.display_name });
                            current_input = None;
                            proof {
                                assert(inputs_view(inputs@) =~= inputs_view(prev).push(
                                    inputs@.last()@,
                                ));
                            }
                        },
                        None => {
                            proof {
                                lemma_config_run_err(evs, i + 1, DecodeError::Structure);
                            }
                            return Err(DecodeError::Structure);
                        },
                    }
                } else if in_features {
                    current_feature = None;
                }
            },
            RawEvent::Text(s) => {
                if in_model_name {
                    model_name = Some(trim_text(s.as_str()));
                } else if in_inputs && current_input.is_some() {
                    let cur = current_input;
                    match cur {
                        Some(inp) => {
                            let t = trim_text(s.as_str());
                            let display = if t.as_str().is_empty() {
                                None
                            } else {
                                Some(t)
                            };
                            current_input = Some(Input { name: inp.name, display_name: display });
                        },
                        None => {
                            current_input = None;
                        },
                    }
                } else if in_features && str_eq(s.as_str(), "1") {
                    match &current_feature {
                        Some(fname) => {
                            match feature_effect(fname.as_str()) {
                                Some(FeatureEffect::Zone(z)) => {
                                    let ghost prev = available_zones@;
                                    available_zones.push(String::from_str(z.tag()));
                                    proof {
                                        assert(strings_view(available_zones@) =~= strings_view(
                                            prev,
                                        ).push(zone_tag(z)));
                                    }
                                },
                                Some(FeatureEffect::Flag(f)) => {
                                    apply_flag(&mut available_features, f);
                                },
                                None => {},
                            }
                        },
                        None => {},
                    }
                }
            },
            RawEvent::Other => {},
        }
        i = i + 1;
    }
    proof {
        assert(evs.take(events@.len() as int) =~= evs);
    }
    Ok(
        SystemConfig {
            model_name,
            inputs,
            available_zones,
            available_features,
        },
    )
}

/// What decoding a whole system-configuration document yields: the
/// structure error exactly on the documents the tokenizer rejects, and the
/// event-stream decode on all others. A function of the document text alone.
pub open spec fn decoded_system_config(doc: Seq<char>) -> Result<SystemConfigModel, DecodeError> {
    if xml_ok(doc) {
        system_config_of(xml_events(doc))
    } else {
        Err(DecodeError::Structure)
    }
}

/// Decodes a system-configuration response document: exactly
/// `decoded_system_config` on the document's text, on both arms.
pub fn parse_system_config(document: String) -> (r: Result<SystemConfig, DecodeError>)
    ensures
        match r {
            Ok(config) => decoded_system_config(document@) == Ok::<
                SystemConfigModel,
                DecodeError,
            >(config@),
            Err(e) => decoded_system_config(document@) == Err::<SystemConfigModel, DecodeError>(e),
        },
{
    match tokenize(document.as_str()) {
        Ok(events) => decode_system_config(&events),
        Err(e) => Err(e),
    }
}

} // verus!
