//! Band configuration records.

use vstd::prelude::*;

use crate::error::Error;
use crate::wire::{field_spec, opt_field_spec, SpecWire, WireDecode, WireValue};

verus! {

/// Whether a band transmits or receives.
#[derive(Debug, Copy, Clone, PartialEq, Eq, Hash, Structural)]
pub enum BandType {
    Transmit,
    Receive,
}

impl DeepView for BandType {
    type V = BandType;

    open spec fn deep_view(&self) -> BandType {
        *self
    }
}

/// The band type named by its upper-case wire text, if any.
pub open spec fn band_type_of_name(s: Seq<char>) -> Option<BandType> {
    if s == "TRANSMIT"@ {
        Some(BandType::Transmit)
    } else if s == "RECEIVE"@ {
        Some(BandType::Receive)
    } else {
        None
    }
}

impl WireDecode for BandType {
    open spec fn decode_spec(v: SpecWire) -> Option<BandType> {
        match v {
            SpecWire::Text(s) => band_type_of_name(s),
            _ => None,
        }
    }

    fn decode_wire(v: &WireValue) -> (r: Result<Self, Error>) {
        match v {
            WireValue::Text(s) => {
                if crate::wire::str_eq(s.as_str(), "TRANSMIT") {
                    Ok(BandType::Transmit)
                } else if crate::wire::str_eq(s.as_str(), "RECEIVE") {
                    Ok(BandType::Receive)
                } else {
                    Err(Error::PaginatedInner)
                }
            },
            _ => Err(Error::PaginatedInner),
        }
    }
}

/// The hardware a band's input/output runs through. Names the server does
/// not know stay as free text.
#[derive(Debug, Clone, PartialEq, Eq)]
pub enum IoHardware {
    Modem,
    Fep,
    Cortex,
    Recorder,
    Other(String),
}

/// The mathematical shape of an `IoHardware`.
pub enum IoHardwareV {
    Modem,
    Fep,
    Cortex,
    Recorder,
    Other(Seq<char>),
}

impl DeepView for IoHardware {
    type V = IoHardwareV;

    open spec fn deep_view(&self) -> IoHardwareV {
        match self {
            IoHardware::Modem => IoHardwareV::Modem,
            IoHardware::Fep => IoHardwareV::Fep,
            IoHardware::Cortex => IoHardwareV::Cortex,
            IoHardware::Recorder => IoHardwareV::Recorder,
            IoHardware::Other(s) => IoHardwareV::Other(s@),
        }
    }
}

/// The hardware named by its upper-case wire text; unknown names fall
/// back to free text.
pub open spec fn io_hardware_of_name(s: Seq<char>) -> IoHardwareV {
    if s == "MODEM"@ {
        IoHardwareV::Modem
    } else if s == "FEP"@ {
        IoHardwareV::Fep
    } else if s == "CORTEX"@ {
        IoHardwareV::Cortex
    } else if s == "RECORDER"@ {
        IoHardwareV::Recorder
    } else {
        IoHardwareV::Other(s)
    }
}

impl WireDecode for IoHardware {
    open spec fn decode_spec(v: SpecWire) -> Option<IoHardwareV> {
        match v {
            SpecWire::Text(s) => Some(io_hardware_of_name(s)),
            _ => None,
        }
    }

    fn decode_wire(v: &WireValue) -> (r: Result<Self, Error>) {
        match v {
            WireValue::Text(s) => {
                if crate::wire::str_eq(s.as_str(), "MODEM") {
                    Ok(IoHardware::Modem)
                } else if crate::wire::str_eq(s.as_str(), "FEP") {
                    Ok(IoHardware::Fep)
                } else if crate::wire::str_eq(s.as_str(), "CORTEX") {
                    Ok(IoHardware::Cortex)
                } else if crate::wire::str_eq(s.as_str(), "RECORDER") {
                    Ok(IoHardware::Recorder)
                } else {
                    Ok(IoHardware::Other(s.clone()))
                }
            },
            _ => Err(Error::PaginatedInner),
        }
    }
}

/// How a band's input/output stream is framed.
#[derive(Debug, Clone, PartialEq)]
pub struct IoConfiguration {
    start_hex_pattern: Option<String>,
    end_hex_pattern: Option<String>,
    strip_pattern: bool,
    io_hardware: Option<IoHardware>,
}

/// The mathematical shape of an `IoConfiguration`.
pub struct IoConfigurationV {
    pub start_hex_pattern: Option<Seq<char>>,
    pub end_hex_pattern: Option<Seq<char>>,
    pub strip_pattern: bool,
    pub io_hardware: Option<IoHardwareV>,
}

impl DeepView for IoConfiguration {
    type V = IoConfigurationV;

    closed spec fn deep_view(&self) -> IoConfigurationV {
        IoConfigurationV {
            start_hex_pattern: self.start_hex_pattern.deep_view(),
            end_hex_pattern: self.end_hex_pattern.deep_view(),
            strip_pattern: self.strip_pattern,
            io_hardware: self.io_hardware.deep_view(),
        }
    }
}

/// The meaning of decoding an input/output configuration.
pub open spec fn io_configuration_decode_spec(v: SpecWire) -> Option<IoConfigurationV> {
    match (
        opt_field_spec::<String>(v, "startHexPattern"@),
        opt_field_spec::<String>(v, "endHexPattern"@),
        field_spec::<bool>(v, "stripPattern"@),
        opt_field_spec::<IoHardware>(v, "ioHardware"@),
    ) {
        (Some(start_hex_pattern), Some(end_hex_pattern), Some(strip_pattern), Some(io_hardware)) =>
            Some(
            IoConfigurationV { start_hex_pattern, end_hex_pattern, strip_pattern, io_hardware },
        ),
        _ => None,
    }
}

impl WireDecode for IoConfiguration {
    open spec fn decode_spec(v: SpecWire) -> Option<IoConfigurationV> {
        io_configuration_decode_spec(v)
    }

    fn decode_wire(v: &WireValue) -> (r: Result<Self, Error>) {
        let start_hex_pattern = match crate::wire::decode_opt_field::<String>(
            v,
            "startHexPattern",
        ) {
            Ok(x) => x,
            Err(e) => { return Err(e) },
        };
        let end_hex_pattern = match crate::wire::decode_opt_field::<String>(v, "endHexPattern") {
            Ok(x) => x,
            Err(e) => { return Err(e) },
        };
        let strip_pattern = match crate::wire::decode_field::<bool>(v, "stripPattern") {
            Ok(x) => x,
            Err(e) => { return Err(e) },
        };
        let io_hardware = match crate::wire::decode_opt_field::<IoHardware>(v, "ioHardware") {
            Ok(x) => x,
            Err(e) => { return Err(e) },
        };
        Ok(IoConfiguration { start_hex_pattern, end_hex_pattern, strip_pattern, io_hardware })
    }
}

} // verus!
