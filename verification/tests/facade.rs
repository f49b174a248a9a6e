use yamaha_avr::events::DecodeError;
use yamaha_avr::{connect, discover};

#[test]
fn connect_keeps_the_device_address() {
    let avr = connect(String::from("192.168.2.102"));
    assert_eq!(avr.ip(), "192.168.2.102");
}

#[test]
fn discover_probes_nothing() {
    assert!(discover().is_empty());
}

#[test]
fn facade_builds_the_main_zone_commands() {
    let mut avr = connect(String::from("192.168.2.102"));
    assert_eq!(
        avr.set_power(true),
        "<YAMAHA_AV cmd=\"PUT\"><Main_Zone><Power_Control><Power>On</Power></Power_Control></Main_Zone></YAMAHA_AV>"
    );
    assert_eq!(
        avr.set_mute(false),
        "<YAMAHA_AV cmd=\"PUT\"><Main_Zone><Volume><Mute>Off</Mute></Volume></Main_Zone></YAMAHA_AV>"
    );
    assert_eq!(
        avr.set_volume(-275),
        "<YAMAHA_AV cmd=\"PUT\"><Main_Zone><Volume><Lvl><Val>-275</Val><Exp>1</Exp><Unit>dB</Unit></Lvl></Volume></Main_Zone></YAMAHA_AV>"
    );
}

#[test]
fn facade_selects_inputs_in_the_named_zone() {
    let mut avr = connect(String::from("192.168.2.102"));
    assert_eq!(
        avr.select_input(String::from("HDMI1"), None),
        "<YAMAHA_AV cmd=\"PUT\"><Main_Zone><Input><Input_Sel>HDMI1</Input_Sel></Input></Main_Zone></YAMAHA_AV>"
    );
    assert_eq!(
        avr.select_input(String::from("AV1"), Some("Zone_2")),
        "<YAMAHA_AV cmd=\"PUT\"><Zone_2><Input><Input_Sel>AV1</Input_Sel></Input></Zone_2></YAMAHA_AV>"
    );
}

#[test]
fn facade_decodes_zone_status_responses() {
    let doc = "<YAMAHA_AV rsp=\"GET\" RC=\"0\"><Main_Zone><Basic_Status><Power_Control><Power>On</Power></Power_Control><Volume><Lvl><Val>-300</Val><Exp>1</Exp><Unit>dB</Unit></Lvl><Mute>Off</Mute></Volume><Input><Input_Sel>HDMI1</Input_Sel></Input></Basic_Status></Main_Zone></YAMAHA_AV>";
    let mut avr = connect(String::from("192.168.2.102"));
    assert_eq!(avr.get_power(String::from(doc)).unwrap(), true);
    assert_eq!(avr.get_mute(String::from(doc)).unwrap(), false);
    assert_eq!(avr.get_volume(String::from(doc)).unwrap(), -300);
    let info = avr.get_basic_info(String::from(doc)).unwrap();
    assert_eq!(info.input, "HDMI1");
}

#[test]
fn facade_decodes_system_configuration_responses() {
    let doc = "<YAMAHA_AV rsp=\"GET\" RC=\"0\"><System><Config><Model_Name>RX-V473</Model_Name><Feature_Existence><Main_Zone>1</Main_Zone><Zone_2>0</Zone_2><USB>1</USB></Feature_Existence><Name><Input><HDMI_1>Chrome</HDMI_1><V_AUX>  </V_AUX></Input></Name></Config></System></YAMAHA_AV>";
    let mut avr = connect(String::from("192.168.2.102"));
    let config = avr.get_system_config(String::from(doc)).unwrap();
    assert_eq!(config.model_name, Some(String::from("RX-V473")));
    let inputs = avr.get_inputs(String::from(doc)).unwrap();
    assert_eq!(inputs.len(), 2);
    assert_eq!(inputs[0].name, "HDMI1");
    assert_eq!(inputs[0].display_name, Some(String::from("Chrome")));
    assert_eq!(inputs[1].name, "V-AUX");
    assert_eq!(inputs[1].display_name, None);
    let zones = avr.get_zones(String::from(doc)).unwrap();
    assert_eq!(zones, vec![String::from("Main_Zone")]);
}

#[test]
fn facade_surfaces_decode_errors() {
    let mut avr = connect(String::from("192.168.2.102"));
    assert!(matches!(
        avr.get_power(String::from("</Main_Zone>")),
        Err(DecodeError::Structure)
    ));
    assert!(matches!(
        avr.get_system_config(String::from("<a><b></a></b>")),
        Err(DecodeError::Structure)
    ));
    let bad_volume =
        "<YAMAHA_AV><Volume><Lvl><Val>12dB</Val></Lvl></Volume></YAMAHA_AV>";
    assert!(matches!(
        avr.get_volume(String::from(bad_volume)),
        Err(DecodeError::Value)
    ));
}
