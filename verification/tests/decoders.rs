use yamaha_avr::events::{DecodeError, RawEvent};
use yamaha_avr::yamaha::basic_info::{decode_basic_info, parse_basic_info, BasicInfo};
use yamaha_avr::yamaha::system_config::{
    parse_system_config, Input, SystemConfig, SystemConfigAvailableFeatures,
};

fn mk_input(name: &'static str, display_name: Option<&'static str>) -> Input {
    Input { name: String::from(name), display_name: display_name.map(String::from) }
}

#[test]
fn parse_basic_info_should_parse_xml() {
    let input = String::from("<YAMAHA_AV rsp=\"GET\" RC=\"0\"><Main_Zone><Basic_Status><Power_Control><Power>On</Power><Sleep>Off</Sleep></Power_Control><Volume><Lvl><Val>-300</Val><Exp>1</Exp><Unit>dB</Unit></Lvl><Mute>Off</Mute></Volume><Input><Input_Sel>HDMI1</Input_Sel><Input_Sel_Item_Info><Param>HDMI1</Param><RW>RW</RW><Title>  Chrome </Title><Icon><On>/YamahaRemoteControl/Icons/icon004.png</On><Off></Off></Icon><Src_Name></Src_Name><Src_Number>1</Src_Number></Input_Sel_Item_Info></Input><Surround><Program_Sel><Current><Straight>Off</Straight><Enhancer>Off</Enhancer><Sound_Program>5ch Stereo</Sound_Program></Current></Program_Sel><_3D_Cinema_DSP>Off</_3D_Cinema_DSP></Surround><Sound_Video><Tone><Bass><Val>0</Val><Exp>1</Exp><Unit>dB</Unit></Bass><Treble><Val>0</Val><Exp>1</Exp><Unit>dB</Unit></Treble></Tone><Direct><Mode>Off</Mode></Direct><HDMI><Standby_Through_Info>On</Standby_Through_Info><Output><OUT_1>On</OUT_1></Output></HDMI><Adaptive_DRC>Off</Adaptive_DRC></Sound_Video></Basic_Status></Main_Zone></YAMAHA_AV>");
    assert_eq!(
        parse_basic_info(input).unwrap(),
        BasicInfo { power: true, volume: -300, mute: false, input: "HDMI1".to_owned() }
    );
}

#[test]
fn parse_system_config_should_parse_xml() {
    let input = String::from("<YAMAHA_AV rsp=\"GET\" RC=\"0\"><System><Config><Model_Name>RX-V473</Model_Name><System_ID>05852093</System_ID><Version>1.14/1.04</Version><Feature_Existence><Main_Zone>1</Main_Zone><Zone_2>0</Zone_2><Zone_3>0</Zone_3><Zone_4>0</Zone_4><Tuner>1</Tuner><HD_Radio>0</HD_Radio><Rhapsody>0</Rhapsody><SIRIUS_IR>0</SIRIUS_IR><Pandora>0</Pandora><SERVER>1</SERVER><NET_RADIO>1</NET_RADIO><USB>1</USB><iPod_USB>1</iPod_USB><AirPlay>1</AirPlay></Feature_Existence><Name><Input><HDMI_1>  Chrome </HDMI_1><HDMI_2>Raspberry</HDMI_2><HDMI_3>   PC    </HDMI_3><HDMI_4>  Game   </HDMI_4><AV_1>         </AV_1><AV_2>   PC    </AV_2><AV_3>   TV    </AV_3><AV_4>         </AV_4><AV_5>   Wii   </AV_5><AV_6>Turntable</AV_6><V_AUX>  V-AUX  </V_AUX><USB>   USB   </USB></Input></Name></Config></System></YAMAHA_AV>");
    assert_eq!(
        parse_system_config(input).unwrap(),
        SystemConfig {
            inputs: vec![
                mk_input("HDMI1", Some("Chrome")),
                mk_input("HDMI2", Some("Raspberry")),
                mk_input("HDMI3", Some("PC")),
                mk_input("HDMI4", Some("Game")),
                mk_input("AV1", None),
                mk_input("AV2", Some("PC")),
                mk_input("AV3", Some("TV")),
                mk_input("AV4", None),
                mk_input("AV5", Some("Wii")),
                mk_input("AV6", Some("Turntable")),
                mk_input("V-AUX", Some("V-AUX")),
                mk_input("USB", Some("USB")),
            ],
            model_name: Some(String::from("RX-V473")),
            available_zones: vec![String::from("Main_Zone")],
            available_features: SystemConfigAvailableFeatures {
                tuner: true,
                hd_radio: false,
                rhapsody: false,
                sirius_ir: false,
                pandora: false,
                server: true,
                net_radio: true,
                usb: true,
                ipod: true,
                air_play: true,
            },
        }
    );
}

#[test]
fn zone_status_reads_the_four_scalars() {
    let doc = String::from("<YAMAHA_AV rsp=\"GET\" RC=\"0\"><Main_Zone><Basic_Status><Power_Control><Power>On</Power></Power_Control><Volume><Lvl><Val>-300</Val><Exp>1</Exp><Unit>dB</Unit></Lvl><Mute>Off</Mute></Volume><Input><Input_Sel>HDMI1</Input_Sel></Input></Basic_Status></Main_Zone></YAMAHA_AV>");
    let info = parse_basic_info(doc).unwrap();
    assert!(info.power);
    assert!(!info.mute);
    assert_eq!(info.volume, -300);
    assert_eq!(info.input, "HDMI1");
}

#[test]
fn zone_status_defaults_when_elements_are_absent() {
    let doc = String::from("<YAMAHA_AV rsp=\"GET\" RC=\"0\"></YAMAHA_AV>");
    let info = parse_basic_info(doc).unwrap();
    assert_eq!(
        info,
        BasicInfo { power: false, volume: 0, mute: false, input: String::new() }
    );
}

#[test]
fn element_closed_without_being_opened_is_a_structure_error() {
    let r = parse_basic_info(String::from("<Basic_Status><Power></Power></Volume></Basic_Status>"));
    assert!(matches!(r, Err(DecodeError::Structure)));
    let r = parse_system_config(String::from("</Config>"));
    assert!(matches!(r, Err(DecodeError::Structure)));
}

#[test]
fn empty_document_is_a_structure_error() {
    assert!(matches!(parse_basic_info(String::new()), Err(DecodeError::Structure)));
}

#[test]
fn volume_text_that_is_no_integer_is_a_value_error() {
    let doc = String::from("<YAMAHA_AV><Main_Zone><Volume><Lvl><Val>loud</Val></Lvl></Volume></Main_Zone></YAMAHA_AV>");
    assert!(matches!(parse_basic_info(doc), Err(DecodeError::Value)));
}

#[test]
fn volume_text_outside_the_integer_range_is_a_value_error() {
    let doc = String::from("<YAMAHA_AV><Volume><Lvl><Val>2147483648</Val></Lvl></Volume></YAMAHA_AV>");
    assert!(matches!(parse_basic_info(doc), Err(DecodeError::Value)));
    let doc = String::from("<YAMAHA_AV><Volume><Lvl><Val>-2147483649</Val></Lvl></Volume></YAMAHA_AV>");
    assert!(matches!(parse_basic_info(doc), Err(DecodeError::Value)));
}

#[test]
fn volume_text_accepts_the_integer_extremes_and_a_plus_sign() {
    let doc = String::from("<YAMAHA_AV><Volume><Lvl><Val>-2147483648</Val></Lvl></Volume></YAMAHA_AV>");
    assert_eq!(parse_basic_info(doc).unwrap().volume, i32::MIN);
    let doc = String::from("<YAMAHA_AV><Volume><Lvl><Val>2147483647</Val></Lvl></Volume></YAMAHA_AV>");
    assert_eq!(parse_basic_info(doc).unwrap().volume, i32::MAX);
    let doc = String::from("<YAMAHA_AV><Volume><Lvl><Val>+300</Val></Lvl></Volume></YAMAHA_AV>");
    assert_eq!(parse_basic_info(doc).unwrap().volume, 300);
    let doc = String::from("<YAMAHA_AV><Volume><Lvl><Val>0042</Val></Lvl></Volume></YAMAHA_AV>");
    assert_eq!(parse_basic_info(doc).unwrap().volume, 42);
}

#[test]
fn stray_numeric_text_outside_the_value_wrapper_is_ignored() {
    let doc = String::from("<YAMAHA_AV><Volume><Lvl><Val>-25</Val><Exp>1</Exp><Unit>dB</Unit></Lvl></Volume></YAMAHA_AV>");
    let info = parse_basic_info(doc).unwrap();
    assert_eq!(info.volume, -25);
}

#[test]
fn decode_basic_info_from_an_event_stream() {
    let events = vec![
        RawEvent::Open("Basic_Status".to_owned()),
        RawEvent::Open("Power".to_owned()),
        RawEvent::Text("On".to_owned()),
        RawEvent::Close("Power".to_owned()),
        RawEvent::Open("Volume".to_owned()),
        RawEvent::Open("Val".to_owned()),
        RawEvent::Text("42".to_owned()),
        RawEvent::Close("Val".to_owned()),
        RawEvent::Close("Volume".to_owned()),
        RawEvent::Other,
        RawEvent::Open("Input_Sel".to_owned()),
        RawEvent::Text("AV1".to_owned()),
        RawEvent::Close("Input_Sel".to_owned()),
        RawEvent::Close("Basic_Status".to_owned()),
    ];
    let info = decode_basic_info(&events).unwrap();
    assert_eq!(
        info,
        BasicInfo { power: true, volume: 42, mute: false, input: "AV1".to_owned() }
    );
}

#[test]
fn unexpected_boolean_text_reads_as_the_inactive_state() {
    let doc = String::from("<YAMAHA_AV><Power>on</Power><Mute>Muted</Mute></YAMAHA_AV>");
    let info = parse_basic_info(doc).unwrap();
    assert!(!info.power);
    assert!(!info.mute);
}

#[test]
fn input_catalogue_trims_labels_and_blank_labels_mean_none() {
    let doc = String::from("<YAMAHA_AV><Name><Input><HDMI_1>  Chrome </HDMI_1><AV_4>         </AV_4></Input></Name></YAMAHA_AV>");
    let config = parse_system_config(doc).unwrap();
    assert_eq!(
        config.inputs,
        vec![mk_input("HDMI1", Some("Chrome")), mk_input("AV4", None)]
    );
}

#[test]
fn feature_existence_marks_zones_and_flags() {
    let doc = String::from("<YAMAHA_AV><Feature_Existence><Main_Zone>1</Main_Zone><Zone_2>1</Zone_2><Zone_3>0</Zone_3><Tuner>0</Tuner><USB>1</USB><Unknown_Feature>1</Unknown_Feature></Feature_Existence></YAMAHA_AV>");
    let config = parse_system_config(doc).unwrap();
    assert_eq!(
        config.available_zones,
        vec![String::from("Main_Zone"), String::from("Zone_2")]
    );
    assert!(config.available_features.usb);
    assert!(!config.available_features.tuner);
    assert!(!config.available_features.air_play);
}

#[test]
fn feature_text_other_than_one_has_no_effect() {
    let doc = String::from("<YAMAHA_AV><Feature_Existence><Tuner>2</Tuner><USB> 1</USB></Feature_Existence></YAMAHA_AV>");
    let config = parse_system_config(doc).unwrap();
    assert!(!config.available_features.tuner);
    assert!(!config.available_features.usb);
    assert!(config.available_zones.is_empty());
}

#[test]
fn model_name_is_trimmed() {
    let doc = String::from("<YAMAHA_AV><Config><Model_Name>  RX-V473  </Model_Name></Config></YAMAHA_AV>");
    let config = parse_system_config(doc).unwrap();
    assert_eq!(config.model_name, Some(String::from("RX-V473")));
}

#[test]
fn parse_functions_are_deterministic() {
    let good = "<YAMAHA_AV><Main_Zone><Power>On</Power></Main_Zone></YAMAHA_AV>";
    assert_eq!(
        parse_basic_info(String::from(good)),
        parse_basic_info(String::from(good))
    );
    let config = "<YAMAHA_AV><Config><Model_Name>RX-V473</Model_Name></Config></YAMAHA_AV>";
    assert_eq!(
        parse_system_config(String::from(config)),
        parse_system_config(String::from(config))
    );
    let malformed = "<System></Config></System>";
    assert_eq!(
        parse_system_config(String::from(malformed)),
        parse_system_config(String::from(malformed))
    );
}

#[test]
fn nested_element_inside_catalogue_is_a_structure_error() {
    let doc = String::from("<YAMAHA_AV><Name><Input><A><B>x</B></A></Input></Name></YAMAHA_AV>");
    assert!(matches!(parse_system_config(doc), Err(DecodeError::Structure)));
}
