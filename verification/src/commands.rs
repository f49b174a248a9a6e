//! The command builder: pure functions mapping an intent (set power, set
//! mute, set volume, select input, query configuration, query zone status)
//! and the addressed zone to the command document sent to the device.
//!
//! A command document is a single-root XML document whose root carries the
//! command direction attribute (`PUT` for state changes, `GET` for queries)
//! and whose inner element path names the target zone or sub-system.

use vstd::prelude::*;

use crate::text::{decimal_of, i32_to_decimal};

verus! {

/// The zones a device can expose. Commands default to the main zone when the
/// caller names none.
#[derive(Clone, Copy, PartialEq, Eq, Structural, Debug)]
pub enum ZoneId {
    MainZone,
    Zone2,
    Zone3,
    Zone4,
}

/// The element name under which the device addresses a zone.
pub open spec fn zone_tag(z: ZoneId) -> Seq<char> {
    match z {
        ZoneId::MainZone => "Main_Zone"@,
        ZoneId::Zone2 => "Zone_2"@,
        ZoneId::Zone3 => "Zone_3"@,
        ZoneId::Zone4 => "Zone_4"@,
    }
}

impl ZoneId {
    pub fn tag(&self) -> (r: &'static str)
        ensures
            r@ == zone_tag(*self),
    {
        match self {
            ZoneId::MainZone => "Main_Zone",
            ZoneId::Zone2 => "Zone_2",
            ZoneId::Zone3 => "Zone_3",
            ZoneId::Zone4 => "Zone_4",
        }
    }
}

impl Default for ZoneId {
    fn default() -> (r: Self)
        ensures
            r == ZoneId::MainZone,
    {
        ZoneId::MainZone
    }
}

/// How one character reads once escaped for XML text content.
pub open spec fn escape_char(c: char) -> Seq<char> {
    if c == '&' {
        "&amp;"@
    } else if c == '<' {
        "&lt;"@
    } else if c == '>' {
        "&gt;"@
    } else if c == '"' {
        "&quot;"@
    } else if c == '\'' {
        "&apos;"@
    } else {
        seq![c]
    }
}

/// A text with every XML special character escaped.
pub open spec fn xml_escaped(s: Seq<char>) -> Seq<char>
    decreases s.len(),
{
    if s.len() == 0 {
        Seq::empty()
    } else {
        xml_escaped(s.drop_last()) + escape_char(s.last())
    }
}

/// Escapes caller-supplied text for inclusion in a command document.
pub fn escape_xml(s: &str) -> (r: String)
    ensures
        r@ == xml_escaped(s@),
{
    let n = s.unicode_len();
    let mut out = String::new();
    let mut i: usize = 0;
    while i < n
        invariant
            n == s@.len(),
            i <= n,
            out@ == xml_escaped(s@.take(i as int)),
        decreases n - i,
    {
        let c = s.get_char(i);
        if c == '&' {
            out.append("&amp;");
        } else if c == '<' {
            out.append("&lt;");
        } else if c == '>' {
            out.append("&gt;");
        } else if c == '"' {
            out.append("&quot;");
        } else if c == '\'' {
            out.append("&apos;");
        } else {
            out.append(s.substring_char(i, i + 1));
            proof {
                assert(s@.subrange(i as int, i + 1) =~= seq![s@[i as int]]);
            }
        }
        proof {
            assert(s@.take(i + 1).drop_last() =~= s@.take(i as int));
            assert(out@ =~= xml_escaped(s@.take(i + 1)));
        }
        i = i + 1;
    }
    proof {
        assert(s@.take(n as int) =~= s@);
    }
    out
}

/// The one shape every command document has: a root element carrying the
/// direction attribute, one path element naming the addressed zone or
/// sub-system, and a body between the path tags.
pub open spec fn command_document(dir: Seq<char>, path: Seq<char>, body: Seq<char>) -> Seq<char> {
    "<YAMAHA_AV cmd=\""@ + dir + "\"><"@ + path + ">"@ + body + "</"@ + path + "></YAMAHA_AV>"@
}

pub open spec fn starts_with(s: Seq<char>, p: Seq<char>) -> bool {
    p.len() <= s.len() && s.take(p.len() as int) == p
}

pub open spec fn ends_with(s: Seq<char>, p: Seq<char>) -> bool {
    p.len() <= s.len() && s.skip(s.len() - p.len()) == p
}

/// Law: every command document opens with the root tag carrying its
/// direction attribute and then the addressed path element, and closes the
/// path element and the root, in that order, at its end — whatever the body.
pub proof fn lemma_command_document_shape(dir: Seq<char>, path: Seq<char>, body: Seq<char>)
    ensures
        starts_with(command_document(dir, path, body), "<YAMAHA_AV cmd=\""@ + dir + "\"><"@ + path + ">"@),
        ends_with(command_document(dir, path, body), "</"@ + path + "></YAMAHA_AV>"@),
{
    let doc = command_document(dir, path, body);
    let pre = "<YAMAHA_AV cmd=\""@ + dir + "\"><"@ + path + ">"@;
    let suf = "</"@ + path + "></YAMAHA_AV>"@;
    assert(doc.take(pre.len() as int) =~= pre);
    assert(doc.skip(doc.len() - suf.len()) =~= suf);
}

/// Builds `command_document` from its three parts.
pub fn build_document(dir: &str, path: &str, body: &str) -> (r: String)
    ensures
        r@ == command_document(dir@, path@, body@),
{
    let mut out = String::from_str("<YAMAHA_AV cmd=\"");
    out.append(dir);
    out.append("\"><");
    out.append(path);
    out.append(">");
    out.append(body);
    out.append("</");
    out.append(path);
    out.append("></YAMAHA_AV>");
    proof {
        assert(out@ =~= command_document(dir@, path@, body@));
    }
    out
}

/// The token the device expects for a power state.
pub open spec fn power_text(on: bool) -> Seq<char> {
    if on {
        "On"@
    } else {
        "Standby"@
    }
}

/// The token the device expects for a mute state.
pub open spec fn mute_text(on: bool) -> Seq<char> {
    if on {
        "On"@
    } else {
        "Off"@
    }
}

pub open spec fn set_power_command(on: bool, zone: ZoneId) -> Seq<char> {
    command_document(
        "PUT"@,
        zone_tag(zone),
        "<Power_Control><Power>"@ + power_text(on) + "</Power></Power_Control>"@,
    )
}

pub open spec fn set_mute_command(on: bool, zone: ZoneId) -> Seq<char> {
    command_document("PUT"@, zone_tag(zone), "<Volume><Mute>"@ + mute_text(on) + "</Mute></Volume>"@)
}

pub open spec fn set_volume_command(level: int, zone: ZoneId) -> Seq<char> {
    command_document(
        "PUT"@,
        zone_tag(zone),
        "<Volume><Lvl><Val>"@ + decimal_of(level) + "</Val><Exp>1</Exp><Unit>dB</Unit></Lvl></Volume>"@,
    )
}

pub open spec fn select_input_command(input: Seq<char>, zone: Seq<char>) -> Seq<char> {
    command_document(
        "PUT"@,
        zone,
        "<Input><Input_Sel>"@ + xml_escaped(input) + "</Input_Sel></Input>"@,
    )
}

pub open spec fn get_system_configuration_command() -> Seq<char> {
    command_document("GET"@, "System"@, "<Config>GetParam</Config>"@)
}

pub open spec fn get_zone_status_command(zone: ZoneId) -> Seq<char> {
    command_document("GET"@, zone_tag(zone), "<Basic_Status>GetParam</Basic_Status>"@)
}

/// The command that turns a zone on or sends it to standby.
pub fn build_set_power(on: bool, zone: ZoneId) -> (r: String)
    ensures
        r@ == set_power_command(on, zone),
        starts_with(r@, "<YAMAHA_AV cmd=\""@ + "PUT"@ + "\"><"@ + zone_tag(zone) + ">"@),
        ends_with(r@, "</"@ + zone_tag(zone) + "></YAMAHA_AV>"@),
{
    let mut body = String::from_str("<Power_Control><Power>");
    body.append(if on {
        "On"
    } else {
        "Standby"
    });
    body.append("</Power></Power_Control>");
    let r = build_document("PUT", zone.tag(), body.as_str());
    proof {
        assert(body@ =~= "<Power_Control><Power>"@ + power_text(on) + "</Power></Power_Control>"@);
        lemma_command_document_shape("PUT"@, zone_tag(zone), body@);
    }
    r
}

/// The command that mutes or unmutes a zone.
pub fn build_set_mute(on: bool, zone: ZoneId) -> (r: String)
    ensures
        r@ == set_mute_command(on, zone),
        starts_with(r@, "<YAMAHA_AV cmd=\""@ + "PUT"@ + "\"><"@ + zone_tag(zone) + ">"@),
        ends_with(r@, "</"@ + zone_tag(zone) + "></YAMAHA_AV>"@),
{
    let mut body = String::from_str("<Volume><Mute>");
    body.append(if on {
        "On"
    } else {
        "Off"
    });
    body.append("</Mute></Volume>");
    let r = build_document("PUT", zone.tag(), body.as_str());
    proof {
        assert(body@ =~= "<Volume><Mute>"@ + mute_text(on) + "</Mute></Volume>"@);
        lemma_command_document_shape("PUT"@, zone_tag(zone), body@);
    }
    r
}

/// The command that sets a zone's volume level, in device units.
pub fn build_set_volume(level: i32, zone: ZoneId) -> (r: String)
    ensures
        r@ == set_volume_command(level as int, zone),
        starts_with(r@, "<YAMAHA_AV cmd=\""@ + "PUT"@ + "\"><"@ + zone_tag(zone) + ">"@),
        ends_with(r@, "</"@ + zone_tag(zone) + "></YAMAHA_AV>"@),
{
    let mut body = String::from_str("<Volume><Lvl><Val>");
    let text = i32_to_decimal(level);
    body.append(text.as_str());
    body.append("</Val><Exp>1</Exp><Unit>dB</Unit></Lvl></Volume>");
    let r = build_document("PUT", zone.tag(), body.as_str());
    proof {
        assert(body@ =~= "<Volume><Lvl><Val>"@ + decimal_of(level as int)
            + "</Val><Exp>1</Exp><Unit>dB</Unit></Lvl></Volume>"@);
        lemma_command_document_shape("PUT"@, zone_tag(zone), body@);
    }
    r
}

/// The command that selects an input in a zone. The caller-supplied input
/// identifier is escaped for XML before it enters the document.
pub fn build_select_input(input: &str, zone: ZoneId) -> (r: String)
    ensures
        r@ == select_input_command(input@, zone_tag(zone)),
        starts_with(r@, "<YAMAHA_AV cmd=\""@ + "PUT"@ + "\"><"@ + zone_tag(zone) + ">"@),
        ends_with(r@, "</"@ + zone_tag(zone) + "></YAMAHA_AV>"@),
{
    let mut body = String::from_str("<Input><Input_Sel>");
    let escaped = escape_xml(input);
    body.append(escaped.as_str());
    body.append("</Input_Sel></Input>");
    let r = build_document("PUT", zone.tag(), body.as_str());
    proof {
        assert(body@ =~= "<Input><Input_Sel>"@ + xml_escaped(input@) + "</Input_Sel></Input>"@);
        lemma_command_document_shape("PUT"@, zone_tag(zone), body@);
    }
    r
}

/// The query for the device's system configuration document.
pub fn build_get_system_configuration() -> (r: String)
    ensures
        r@ == get_system_configuration_command(),
        starts_with(r@, "<YAMAHA_AV cmd=\""@ + "GET"@ + "\"><"@ + "System"@ + ">"@),
        ends_with(r@, "</"@ + "System"@ + "></YAMAHA_AV>"@),
{
    let r = build_document("GET", "System", "<Config>GetParam</Config>");
    proof {
        lemma_command_document_shape("GET"@, "System"@, "<Config>GetParam</Config>"@);
    }
    r
}

/// The query for a zone's basic status document.
pub fn build_get_zone_status(zone: ZoneId) -> (r: String)
    ensures
        r@ == get_zone_status_command(zone),
        starts_with(r@, "<YAMAHA_AV cmd=\""@ + "GET"@ + "\"><"@ + zone_tag(zone) + ">"@),
        ends_with(r@, "</"@ + zone_tag(zone) + "></YAMAHA_AV>"@),
{
    let r = build_document("GET", zone.tag(), "<Basic_Status>GetParam</Basic_Status>");
    proof {
        lemma_command_document_shape("GET"@, zone_tag(zone), "<Basic_Status>GetParam</Basic_Status>"@);
    }
    r
}

} // verus!
