//! The ensemble/service model: one multiplex `Config` holding an ordered
//! sequence of `Service`s, its hard-coded default, the hexadecimal display
//! helpers, and the rule for falling back to the default when the persisted
//! settings file is missing or unreadable.

use vstd::prelude::*;
use crate::numfmt::{hex_seq, hex_upper, is_upper_hex_char, lemma_hex_shape};

verus! {

/// One broadcast service within the ensemble.
pub struct Service {
    /// Stable unique identifier; every derived document key is prefixed
    /// from it. Uniqueness within the owning config is the caller's duty.
    pub unique_id: String,
    /// 32-bit service identifier.
    pub sid: u32,
    /// 8-bit error-control-country code.
    pub ecc: u8,
    pub label: String,
    pub shortlabel: String,
    /// Port the daemon reads this service's input stream from.
    pub input_port: u16,
    /// Bitrate in kbit/s.
    pub bitrate: u32,
    /// Protection level code understood by the daemon.
    pub protection: u8,
}

/// The mathematical value of a `Service`: its strings as character
/// sequences, its numbers as themselves.
pub ghost struct ServiceView {
    pub unique_id: Seq<char>,
    pub sid: u32,
    pub ecc: u8,
    pub label: Seq<char>,
    pub shortlabel: Seq<char>,
    pub input_port: u16,
    pub bitrate: u32,
    pub protection: u8,
}

impl View for Service {
    type V = ServiceView;

    open spec fn view(&self) -> ServiceView {
        ServiceView {
            unique_id: self.unique_id@,
            sid: self.sid,
            ecc: self.ecc,
            label: self.label@,
            shortlabel: self.shortlabel@,
            input_port: self.input_port,
            bitrate: self.bitrate,
            protection: self.protection,
        }
    }
}

impl Service {
    /// The service identifier as at least 4 uppercase hex digits,
    /// zero-padded.
    pub fn sid_hex(&self) -> (r: String)
        ensures
            r@ == hex_seq(self.sid as int, 4),
    {
        hex_upper(self.sid, 4)
    }

    /// The error-control-country code as exactly 2 uppercase hex digits,
    /// zero-padded.
    pub fn ecc_hex(&self) -> (r: String)
        ensures
            r@ == hex_seq(self.ecc as int, 2),
    {
        hex_upper(self.ecc as u32, 2)
    }
}

/// The whole multiplex description.
pub struct Config {
    pub instance_name: String,
    /// Filesystem path the generated daemon document is written to.
    pub dabmux_config_location: String,
    /// Time-stamp insertion flag and its offset.
    pub tist: bool,
    pub tist_offset: i32,
    /// 16-bit ensemble identifier.
    pub ensemble_id: u16,
    /// 8-bit ensemble error-control-country code.
    pub ensemble_ecc: u8,
    pub ensemble_label: String,
    pub ensemble_shortlabel: String,
    /// Listening port of the streaming output.
    pub output_edi_port: u16,
    /// Listening port of the messaging output.
    pub output_zmq_port: u16,
    /// Ordered: the position of a service decides its sub-channel index.
    pub services: Vec<Service>,
}

/// The mathematical value of a `Config`.
pub ghost struct ConfigView {
    pub instance_name: Seq<char>,
    pub dabmux_config_location: Seq<char>,
    pub tist: bool,
    pub tist_offset: i32,
    pub ensemble_id: u16,
    pub ensemble_ecc: u8,
    pub ensemble_label: Seq<char>,
    pub ensemble_shortlabel: Seq<char>,
    pub output_edi_port: u16,
    pub output_zmq_port: u16,
    pub services: Seq<ServiceView>,
}

impl View for Config {
    type V = ConfigView;

    open spec fn view(&self) -> ConfigView {
        ConfigView {
            instance_name: self.instance_name@,
            dabmux_config_location: self.dabmux_config_location@,
            tist: self.tist,
            tist_offset: self.tist_offset,
            ensemble_id: self.ensemble_id,
            ensemble_ecc: self.ensemble_ecc,
            ensemble_label: self.ensemble_label@,
            ensemble_shortlabel: self.ensemble_shortlabel@,
            output_edi_port: self.output_edi_port,
            output_zmq_port: self.output_zmq_port,
            services: self.services@.map_values(|s: Service| s@),
        }
    }
}

impl Config {
    /// The ensemble identifier as at least 4 uppercase hex digits,
    /// zero-padded.
    pub fn ensemble_id_hex(&self) -> (r: String)
        ensures
            r@ == hex_seq(self.ensemble_id as int, 4),
    {
        hex_upper(self.ensemble_id as u32, 4)
    }

    /// The ensemble error-control-country code as exactly 2 uppercase hex
    /// digits, zero-padded.
    pub fn ensemble_ecc_hex(&self) -> (r: String)
        ensures
            r@ == hex_seq(self.ensemble_ecc as int, 2),
    {
        hex_upper(self.ensemble_ecc as u32, 2)
    }
}

/// Law: for every 16-bit value, the service-identifier and
/// ensemble-identifier display helpers render exactly 4 uppercase
/// hexadecimal digits, zero-padded.
pub proof fn lemma_id_hex_shape(v: int)
    requires
        0 <= v <= 0xFFFF,
    ensures
        hex_seq(v, 4).len() == 4,
        forall|i: int| 0 <= i < 4 ==> is_upper_hex_char(#[trigger] hex_seq(v, 4)[i]),
{
    assert(crate::numfmt::pow16(4) == 0x10000) by {
        reveal_with_fuel(crate::numfmt::pow16, 5);
    }
    lemma_hex_shape(v, 4);
}

/// Law: for every 8-bit value, the error-control-country-code display
/// helpers render exactly 2 uppercase hexadecimal digits, zero-padded.
pub proof fn lemma_ecc_hex_shape(v: int)
    requires
        0 <= v <= 0xFF,
    ensures
        hex_seq(v, 2).len() == 2,
        forall|i: int| 0 <= i < 2 ==> is_upper_hex_char(#[trigger] hex_seq(v, 2)[i]),
{
    assert(crate::numfmt::pow16(2) == 0x100) by {
        reveal_with_fuel(crate::numfmt::pow16, 3);
    }
    lemma_hex_shape(v, 2);
}

/// The placeholder service of the hard-coded default configuration.
pub open spec fn default_service() -> ServiceView {
    ServiceView {
        unique_id: "nothing"@,
        sid: 0x4DAA,
        ecc: 0xE1,
        label: "nothing"@,
        shortlabel: "no"@,
        input_port: 9001,
        bitrate: 128,
        protection: 2,
    }
}

/// The hard-coded default configuration used when no persisted settings
/// can be read.
pub open spec fn default_config() -> ConfigView {
    ConfigView {
        instance_name: "CHANGEME"@,
        dabmux_config_location: "/etc/odr-dabmux.json"@,
        tist: true,
        tist_offset: 0,
        ensemble_id: 0x4FFF,
        ensemble_ecc: 0xE1,
        ensemble_label: "OpenDigitalRadio"@,
        ensemble_shortlabel: "ODR"@,
        output_edi_port: 8951,
        output_zmq_port: 8851,
        services: seq![default_service()],
    }
}

impl Default for Config {
    /// The literal default ensemble: id `0x4FFF`, ecc `0xE1`, label
    /// "OpenDigitalRadio", one placeholder service.
    fn default() -> (r: Config)
        ensures
            r@ == default_config(),
    {
        let services = vec![
            Service {
                unique_id: "nothing".to_owned(),
                sid: 0x4DAA,
                ecc: 0xE1,
                label: "nothing".to_owned(),
                shortlabel: "no".to_owned(),
                input_port: 9001,
                bitrate: 128,
                protection: 2,
            },
        ];
        let r = Config {
            instance_name: "CHANGEME".to_owned(),
            dabmux_config_location: "/etc/odr-dabmux.json".to_owned(),
            tist: true,
            tist_offset: 0,
            ensemble_id: 0x4FFF,
            ensemble_ecc: 0xE1,
            ensemble_label: "OpenDigitalRadio".to_owned(),
            ensemble_shortlabel: "ODR".to_owned(),
            output_edi_port: 8951,
            output_zmq_port: 8851,
            services,
        };
        proof {
            assert(r@.services =~= default_config().services);
            assert(r@ =~= default_config());
        }
        r
    }
}

/// The settings-loading rule: a parsed configuration is taken as it is;
/// a missing file, or a file whose contents could not be parsed, yields
/// the hard-coded default instead. The caller reads and parses the file
/// and hands the outcome in; `parsed` is only meaningful when the file
/// exists.
pub fn load_outcome(file_exists: bool, parsed: Option<Config>) -> (r: Config)
    ensures
        file_exists && parsed is Some ==> r@ == parsed->Some_0@,
        !(file_exists && parsed is Some) ==> r@ == default_config(),
{
    match parsed {
        Some(c) if file_exists => c,
        _ => Config::default(),
    }
}

} // verus!
