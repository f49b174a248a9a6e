//! The device facade: one handle per receiver, pairing each operation with
//! its side of the protocol.
//!
//! The facade performs no I/O. A state-changing method returns the command
//! document for a transport to post to the device; a query method takes the
//! raw response document the transport received and decodes it. Opening the
//! connection, posting the command bytes and returning the response bytes
//! are the transport collaborator's contract, outside this crate.

use vstd::prelude::*;

pub mod basic_info;
pub mod system_config;

use crate::commands::{
    build_document, build_set_mute, build_set_power, build_set_volume, escape_xml,
    select_input_command, set_mute_command, set_power_command, set_volume_command, xml_escaped,
    ZoneId,
};
use crate::events::DecodeError;
use basic_info::{decoded_zone_status, parse_basic_info, BasicInfo, BasicInfoModel};
use system_config::{
    decoded_system_config, inputs_view, parse_system_config, strings_view, Input, SystemConfig,
    SystemConfigModel,
};

verus! {

/// The zone path a selection command addresses: the caller's zone, escaped
/// for XML, or the main zone when none is named.
pub open spec fn zone_path_of(zone: Option<&str>) -> Seq<char> {
    match zone {
        Some(z) => xml_escaped(z@),
        None => "Main_Zone"@,
    }
}

/// A handle on one receiver, holding the device address a transport needs.
pub struct YamahaAvr {
    ip: String,
}

impl View for YamahaAvr {
    type V = Seq<char>;

    closed spec fn view(&self) -> Seq<char> {
        self.ip@
    }
}

impl YamahaAvr {
    pub fn new(ip: String) -> (r: YamahaAvr)
        ensures
            r@ == ip@,
    {
        YamahaAvr { ip }
    }

    /// The device address a transport posts the command documents to.
    pub fn ip(&self) -> (r: &str)
        ensures
            r@ == self@,
    {
        self.ip.as_str()
    }

    /// The command that turns the main zone on or sends it to standby.
    pub fn set_power(&mut self, value: bool) -> (cmd: String)
        ensures
            *final(self) == *old(self),
            cmd@ == set_power_command(value, ZoneId::MainZone),
    {
        build_set_power(value, ZoneId::MainZone)
    }

    /// The command that mutes or unmutes the main zone.
    pub fn set_mute(&mut self, value: bool) -> (cmd: String)
        ensures
            *final(self) == *old(self),
            cmd@ == set_mute_command(value, ZoneId::MainZone),
    {
        build_set_mute(value, ZoneId::MainZone)
    }

    /// The command that sets the main zone's volume level, in device units.
    pub fn set_volume(&mut self, value: i32) -> (cmd: String)
        ensures
            *final(self) == *old(self),
            cmd@ == set_volume_command(value as int, ZoneId::MainZone),
    {
        build_set_volume(value, ZoneId::MainZone)
    }

    /// The command that selects an input in the given zone, or in the main
    /// zone when none is given. Both the input identifier and the zone are
    /// caller-supplied text and are escaped for XML.
    pub fn select_input(&mut self, input: String, zone: Option<&str>) -> (cmd: String)
        ensures
            *final(self) == *old(self),
            cmd@ == select_input_command(input@, zone_path_of(zone)),
    {
        let path: String = match zone {
            Some(z) => escape_xml(z),
            None => String::from_str("Main_Zone"),
        };
        let escaped = escape_xml(input.as_str());
        let mut body = String::from_str("<Input><Input_Sel>");
        body.append(escaped.as_str());
        body.append("</Input_Sel></Input>");
        let cmd = build_document("PUT", path.as_str(), body.as_str());
        proof {
            assert(body@ =~= "<Input><Input_Sel>"@ + xml_escaped(input@)
                + "</Input_Sel></Input>"@);
        }
        cmd
    }

    /// Decodes a zone-status response into the zone's basic status: exactly
    /// `decoded_zone_status` on the response text, on both arms.
    pub fn get_basic_info(&mut self, response: String) -> (r: Result<BasicInfo, DecodeError>)
        ensures
            *final(self) == *old(self),
            match r {
                Ok(info) => decoded_zone_status(response@) == Ok::<BasicInfoModel, DecodeError>(
                    info@,
                ),
                Err(e) => decoded_zone_status(response@) == Err::<BasicInfoModel, DecodeError>(e),
            },
    {
        parse_basic_info(response)
    }

    /// Decodes a zone-status response and reads the power state; an error
    /// is exactly the decode's.
    pub fn get_power(&mut self, response: String) -> (r: Result<bool, DecodeError>)
        ensures
            *final(self) == *old(self),
            match r {
                Ok(p) => decoded_zone_status(response@) matches Ok(m) && m.power == p,
                Err(e) => decoded_zone_status(response@) == Err::<BasicInfoModel, DecodeError>(e),
            },
    {
        match parse_basic_info(response) {
            Ok(info) => Ok(info.power),
            Err(e) => Err(e),
        }
    }

    /// Decodes a zone-status response and reads the mute state; an error is
    /// exactly the decode's.
    pub fn get_mute(&mut self, response: String) -> (r: Result<bool, DecodeError>)
        ensures
            *final(self) == *old(self),
            match r {
                Ok(m) => decoded_zone_status(response@) matches Ok(info) && info.mute == m,
                Err(e) => decoded_zone_status(response@) == Err::<BasicInfoModel, DecodeError>(e),
            },
    {
        match parse_basic_info(response) {
            Ok(info) => Ok(info.mute),
            Err(e) => Err(e),
        }
    }

    /// Decodes a zone-status response and reads the volume level; an error
    /// is exactly the decode's.
    pub fn get_volume(&mut self, response: String) -> (r: Result<i32, DecodeError>)
        ensures
            *final(self) == *old(self),
            match r {
                Ok(v) => decoded_zone_status(response@) matches Ok(m) && m.volume == v as int,
                Err(e) => decoded_zone_status(response@) == Err::<BasicInfoModel, DecodeError>(e),
            },
    {
        match parse_basic_info(response) {
            Ok(info) => Ok(info.volume),
            Err(e) => Err(e),
        }
    }

    /// Decodes a system-configuration response: exactly
    /// `decoded_system_config` on the response text, on both arms.
    pub fn get_system_config(&mut self, response: String) -> (r: Result<SystemConfig, DecodeError>)
        ensures
            *final(self) == *old(self),
            match r {
                Ok(config) => decoded_system_config(response@) == Ok::<
                    SystemConfigModel,
                    DecodeError,
                >(config@),
                Err(e) => decoded_system_config(response@) == Err::<SystemConfigModel, DecodeError>(
                    e,
                ),
            },
    {
        parse_system_config(response)
    }

    /// Decodes a system-configuration response and reads the input
    /// catalogue, in document order; an error is exactly the decode's.
    pub fn get_inputs(&mut self, response: String) -> (r: Result<Vec<Input>, DecodeError>)
        ensures
            *final(self) == *old(self),
            match r {
                Ok(v) => decoded_system_config(response@) matches Ok(m) && inputs_view(v@)
                    == m.inputs,
                Err(e) => decoded_system_config(response@) == Err::<SystemConfigModel, DecodeError>(
                    e,
                ),
            },
    {
        match parse_system_config(response) {
            Ok(config) => Ok(config.inputs),
            Err(e) => Err(e),
        }
    }

    /// Decodes a system-configuration response and reads the zones the
    /// device reports present, in document order; an error is exactly the
    /// decode's.
    pub fn get_zones(&mut self, response: String) -> (r: Result<Vec<String>, DecodeError>)
        ensures
            *final(self) == *old(self),
            match r {
                Ok(v) => decoded_system_config(response@) matches Ok(m) && strings_view(v@)
                    == m.available_zones,
                Err(e) => decoded_system_config(response@) == Err::<SystemConfigModel, DecodeError>(
                    e,
                ),
            },
    {
        match parse_system_config(response) {
            Ok(config) => Ok(config.available_zones),
            Err(e) => Err(e),
        }
    }
}

} // verus!
