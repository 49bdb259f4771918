//! The information elements of the IANA registry that are known by name.

use vstd::prelude::*;
use std::collections::HashMap;
use crate::formatter::{formatter_view, FieldFormatter, FieldParser, FormatterView};

verus! {

/// The largest field id that [`iana_field`] knows.
pub const IANA_MAX_FIELD_ID: u16 = 214;

/// The name of the IANA information element `id` and how its values are read;
/// nothing for an id that the table does not hold.
pub open spec fn spec_iana_field(id: u16) -> Option<(&'static str, FieldParser)> {
    match id {
        1 => Some(("octetDeltaCount", FieldParser::BeInt)),
        2 => Some(("packetDeltaCount", FieldParser::BeInt)),
        4 => Some(("protocolIdentifier", FieldParser::BeInt)),
        5 => Some(("classOfServiceIPv4", FieldParser::BeInt)),
        6 => Some(("tcpControlBits", FieldParser::BeInt)),
        7 => Some(("sourceTransportPort", FieldParser::BeInt)),
        8 => Some(("sourceIPv4Address", FieldParser::Ipv4Addr)),
        9 => Some(("sourceIPv4Mask", FieldParser::BeInt)),
        10 => Some(("ingressInterface", FieldParser::BeInt)),
        11 => Some(("destinationTransportPort", FieldParser::BeInt)),
        12 => Some(("destinationIPv4Address", FieldParser::Ipv4Addr)),
        13 => Some(("destinationIPv4Mask", FieldParser::BeInt)),
        14 => Some(("egressInterface", FieldParser::BeInt)),
        15 => Some(("ipNextHopIPv4Address", FieldParser::Ipv4Addr)),
        16 => Some(("bgpSourceAsNumber", FieldParser::BeInt)),
        17 => Some(("bgpDestinationAsNumber", FieldParser::BeInt)),
        18 => Some(("bgpNextHopIPv4Address", FieldParser::BeInt)),
        19 => Some(("postMCastPacketDeltaCount", FieldParser::BeInt)),
        20 => Some(("postMCastOctetDeltaCount", FieldParser::BeInt)),
        21 => Some(("flowEndSysUpTime", FieldParser::BeInt)),
        22 => Some(("flowStartSysUpTime", FieldParser::BeInt)),
        23 => Some(("postOctetDeltaCount", FieldParser::BeInt)),
        24 => Some(("postPacketDeltaCount", FieldParser::BeInt)),
        25 => Some(("minimumPacketLength", FieldParser::BeInt)),
        26 => Some(("maximumPacketLength", FieldParser::BeInt)),
        27 => Some(("sourceIPv6Address", FieldParser::Ipv6Addr)),
        28 => Some(("destinationIPv6Address", FieldParser::Ipv6Addr)),
        29 => Some(("sourceIPv6Mask", FieldParser::BeInt)),
        30 => Some(("destinationIPv6Mask", FieldParser::BeInt)),
        31 => Some(("flowLabelIPv6", FieldParser::BeInt)),
        32 => Some(("icmpTypeCodeIPv4", FieldParser::BeInt)),
        33 => Some(("igmpType", FieldParser::BeInt)),
        36 => Some(("flowActiveTimeOut", FieldParser::BeInt)),
        37 => Some(("flowInactiveTimeout", FieldParser::BeInt)),
        40 => Some(("exportedOctetTotalCount", FieldParser::BeInt)),
        41 => Some(("exportedMessageTotalCount", FieldParser::BeInt)),
        42 => Some(("exportedFlowTotalCount", FieldParser::BeInt)),
        44 => Some(("sourceIPv4Prefix", FieldParser::BeInt)),
        45 => Some(("destinationIPv4Prefix", FieldParser::BeInt)),
        46 => Some(("mplsTopLabelType", FieldParser::BeInt)),
        47 => Some(("mplsTopLabelIPv4Address", FieldParser::Ipv4Addr)),
        52 => Some(("minimumTtl", FieldParser::BeInt)),
        53 => Some(("maximumTtl", FieldParser::BeInt)),
        54 => Some(("identificationIPv4", FieldParser::BeInt)),
        55 => Some(("postClassOfServiceIPv4", FieldParser::BeInt)),
        56 => Some(("sourceMacAddress", FieldParser::BeInt)),
        57 => Some(("postDestinationMacAddr", FieldParser::BeInt)),
        58 => Some(("vlanId", FieldParser::BeInt)),
        59 => Some(("postVlanId", FieldParser::BeInt)),
        60 => Some(("ipVersion", FieldParser::BeInt)),
        62 => Some(("ipNextHopIPv6Address", FieldParser::Ipv6Addr)),
        63 => Some(("bgpNextHopIPv6Address", FieldParser::Ipv6Addr)),
        64 => Some(("ipv6ExtensionHeaders", FieldParser::BeInt)),
        70 => Some(("mplsTopLabelStackEntry", FieldParser::MplsStack)),
        71 => Some(("mplsLabelStackEntry2", FieldParser::MplsStack)),
        72 => Some(("mplsLabelStackEntry3", FieldParser::MplsStack)),
        73 => Some(("mplsLabelStackEntry4", FieldParser::MplsStack)),
        74 => Some(("mplsLabelStackEntry5", FieldParser::MplsStack)),
        75 => Some(("mplsLabelStackEntry6", FieldParser::MplsStack)),
        76 => Some(("mplsLabelStackEntry7", FieldParser::MplsStack)),
        77 => Some(("mplsLabelStackEntry8", FieldParser::MplsStack)),
        78 => Some(("mplsLabelStackEntry9", FieldParser::MplsStack)),
        79 => Some(("mplsLabelStackEntry10", FieldParser::MplsStack)),
        80 => Some(("destinationMacAddress", FieldParser::BeInt)),
        81 => Some(("postSourceMacAddress", FieldParser::BeInt)),
        82 => Some(("interfaceName", FieldParser::BeInt)),
        83 => Some(("interfaceDescription", FieldParser::BeInt)),
        84 => Some(("samplerName", FieldParser::BeInt)),
        85 => Some(("octetTotalCount", FieldParser::BeInt)),
        86 => Some(("packetTotalCount", FieldParser::BeInt)),
        88 => Some(("fragmentOffsetIPv4", FieldParser::BeInt)),
        128 => Some(("bgpNextAdjacentAsNumber", FieldParser::BeInt)),
        129 => Some(("bgpPrevAdjacentAsNumber", FieldParser::BeInt)),
        130 => Some(("exporterIPv4Address", FieldParser::Ipv4Addr)),
        131 => Some(("exporterIPv6Address", FieldParser::Ipv6Addr)),
        132 => Some(("droppedOctetDeltaCount", FieldParser::BeInt)),
        133 => Some(("droppedPacketDeltaCount", FieldParser::BeInt)),
        134 => Some(("droppedOctetTotalCount", FieldParser::BeInt)),
        135 => Some(("droppedPacketTotalCount", FieldParser::BeInt)),
        136 => Some(("flowEndReason", FieldParser::BeInt)),
        137 => Some(("classOfServiceIPv6", FieldParser::BeInt)),
        138 => Some(("postClassOfServiceIPv6", FieldParser::BeInt)),
        139 => Some(("icmpTypeCodeIPv6", FieldParser::BeInt)),
        140 => Some(("mplsTopLabelIPv6Address", FieldParser::Ipv6Addr)),
        141 => Some(("lineCardId", FieldParser::BeInt)),
        142 => Some(("portId", FieldParser::BeInt)),
        143 => Some(("meteringProcessId", FieldParser::BeInt)),
        144 => Some(("exportingProcessId", FieldParser::BeInt)),
        145 => Some(("templateId", FieldParser::BeInt)),
        146 => Some(("wlanChannelId", FieldParser::BeInt)),
        147 => Some(("wlanSsid", FieldParser::BeInt)),
        148 => Some(("flowId", FieldParser::BeInt)),
        149 => Some(("sourceId", FieldParser::BeInt)),
        150 => Some(("flowStartSeconds", FieldParser::BeInt)),
        151 => Some(("flowEndSeconds", FieldParser::BeInt)),
        152 => Some(("flowStartMilliSeconds", FieldParser::BeInt)),
        153 => Some(("flowEndMilliSeconds", FieldParser::BeInt)),
        154 => Some(("flowStartMicroSeconds", FieldParser::BeInt)),
        155 => Some(("flowEndMicroSeconds", FieldParser::BeInt)),
        156 => Some(("flowStartNanoSeconds", FieldParser::BeInt)),
        157 => Some(("flowEndNanoSeconds", FieldParser::BeInt)),
        158 => Some(("flowStartDeltaMicroSeconds", FieldParser::BeInt)),
        159 => Some(("flowEndDeltaMicroSeconds", FieldParser::BeInt)),
        160 => Some(("systemInitTimeMilliSeconds", FieldParser::BeInt)),
        161 => Some(("flowDurationMilliSeconds", FieldParser::BeInt)),
        162 => Some(("flowDurationMicroSeconds", FieldParser::BeInt)),
        163 => Some(("observedFlowTotalCount", FieldParser::BeInt)),
        164 => Some(("ignoredPacketTotalCount", FieldParser::BeInt)),
        165 => Some(("ignoredOctetTotalCount", FieldParser::BeInt)),
        166 => Some(("notSentFlowTotalCount", FieldParser::BeInt)),
        167 => Some(("notSentPacketTotalCount", FieldParser::BeInt)),
        168 => Some(("notSentOctetTotalCount", FieldParser::BeInt)),
        169 => Some(("destinationIPv6Prefix", FieldParser::BeInt)),
        170 => Some(("sourceIPv6Prefix", FieldParser::BeInt)),
        171 => Some(("postOctetTotalCount", FieldParser::BeInt)),
        172 => Some(("postPacketTotalCount", FieldParser::BeInt)),
        173 => Some(("flowKeyIndicator", FieldParser::BeInt)),
        174 => Some(("postMCastPacketTotalCount", FieldParser::BeInt)),
        175 => Some(("postMCastOctetTotalCount", FieldParser::BeInt)),
        176 => Some(("icmpTypeIPv4", FieldParser::BeInt)),
        177 => Some(("icmpCodeIPv4", FieldParser::BeInt)),
        178 => Some(("icmpTypeIPv6", FieldParser::BeInt)),
        179 => Some(("icmpCodeIPv6", FieldParser::BeInt)),
        180 => Some(("udpSourcePort", FieldParser::BeInt)),
        181 => Some(("udpDestinationPort", FieldParser::BeInt)),
        182 => Some(("tcpSourcePort", FieldParser::BeInt)),
        183 => Some(("tcpDestinationPort", FieldParser::BeInt)),
        184 => Some(("tcpSequenceNumber", FieldParser::BeInt)),
        185 => Some(("tcpAcknowledgementNumber", FieldParser::BeInt)),
        186 => Some(("tcpWindowSize", FieldParser::BeInt)),
        187 => Some(("tcpUrgentPointer", FieldParser::BeInt)),
        188 => Some(("tcpHeaderLength", FieldParser::BeInt)),
        189 => Some(("ipHeaderLength", FieldParser::BeInt)),
        190 => Some(("totalLengthIPv4", FieldParser::BeInt)),
        191 => Some(("payloadLengthIPv6", FieldParser::BeInt)),
        192 => Some(("ipTimeToLive", FieldParser::BeInt)),
        193 => Some(("nextHeaderIPv6", FieldParser::BeInt)),
        194 => Some(("ipClassOfService", FieldParser::BeInt)),
        195 => Some(("ipDiffServCodePoint", FieldParser::BeInt)),
        196 => Some(("ipPrecedence", FieldParser::BeInt)),
        197 => Some(("fragmentFlagsIPv4", FieldParser::BeInt)),
        198 => Some(("octetDeltaSumOfSquares", FieldParser::BeInt)),
        199 => Some(("octetTotalSumOfSquares", FieldParser::BeInt)),
        200 => Some(("mplsTopLabelTtl", FieldParser::BeInt)),
        201 => Some(("mplsLabelStackLength", FieldParser::BeInt)),
        202 => Some(("mplsLabelStackDepth", FieldParser::BeInt)),
        203 => Some(("mplsTopLabelExp", FieldParser::BeInt)),
        204 => Some(("ipPayloadLength", FieldParser::BeInt)),
        205 => Some(("udpMessageLength", FieldParser::BeInt)),
        206 => Some(("isMulticast", FieldParser::BeInt)),
        207 => Some(("internetHeaderLengthIPv4", FieldParser::BeInt)),
        208 => Some(("ipv4Options", FieldParser::BeInt)),
        209 => Some(("tcpOptions", FieldParser::BeInt)),
        210 => Some(("paddingOctets", FieldParser::BeInt)),
        213 => Some(("headerLengthIPv4", FieldParser::BeInt)),
        214 => Some(("mplsPayloadLength", FieldParser::BeInt)),
        _ => None,
    }
}

/// The name of the IANA information element `id` and how its values are read;
/// nothing for an id that the table does not hold.
pub fn iana_field(id: u16) -> (r: Option<(&'static str, FieldParser)>)
    ensures
        r == spec_iana_field(id),
        id > IANA_MAX_FIELD_ID ==> r is None,
{
    match id {
        1 => Some(("octetDeltaCount", FieldParser::BeInt)),
        2 => Some(("packetDeltaCount", FieldParser::BeInt)),
        4 => Some(("protocolIdentifier", FieldParser::BeInt)),
        5 => Some(("classOfServiceIPv4", FieldParser::BeInt)),
        6 => Some(("tcpControlBits", FieldParser::BeInt)),
        7 => Some(("sourceTransportPort", FieldParser::BeInt)),
        8 => Some(("sourceIPv4Address", FieldParser::Ipv4Addr)),
        9 => Some(("sourceIPv4Mask", FieldParser::BeInt)),
        10 => Some(("ingressInterface", FieldParser::BeInt)),
        11 => Some(("destinationTransportPort", FieldParser::BeInt)),
        12 => Some(("destinationIPv4Address", FieldParser::Ipv4Addr)),
        13 => Some(("destinationIPv4Mask", FieldParser::BeInt)),
        14 => Some(("egressInterface", FieldParser::BeInt)),
        15 => Some(("ipNextHopIPv4Address", FieldParser::Ipv4Addr)),
        16 => Some(("bgpSourceAsNumber", FieldParser::BeInt)),
        17 => Some(("bgpDestinationAsNumber", FieldParser::BeInt)),
        18 => Some(("bgpNextHopIPv4Address", FieldParser::BeInt)),
        19 => Some(("postMCastPacketDeltaCount", FieldParser::BeInt)),
        20 => Some(("postMCastOctetDeltaCount", FieldParser::BeInt)),
        21 => Some(("flowEndSysUpTime", FieldParser::BeInt)),
        22 => Some(("flowStartSysUpTime", FieldParser::BeInt)),
        23 => Some(("postOctetDeltaCount", FieldParser::BeInt)),
        24 => Some(("postPacketDeltaCount", FieldParser::BeInt)),
        25 => Some(("minimumPacketLength", FieldParser::BeInt)),
        26 => Some(("maximumPacketLength", FieldParser::BeInt)),
        27 => Some(("sourceIPv6Address", FieldParser::Ipv6Addr)),
        28 => Some(("destinationIPv6Address", FieldParser::Ipv6Addr)),
        29 => Some(("sourceIPv6Mask", FieldParser::BeInt)),
        30 => Some(("destinationIPv6Mask", FieldParser::BeInt)),
        31 => Some(("flowLabelIPv6", FieldParser::BeInt)),
        32 => Some(("icmpTypeCodeIPv4", FieldParser::BeInt)),
        33 => Some(("igmpType", FieldParser::BeInt)),
        36 => Some(("flowActiveTimeOut", FieldParser::BeInt)),
        37 => Some(("flowInactiveTimeout", FieldParser::BeInt)),
        40 => Some(("exportedOctetTotalCount", FieldParser::BeInt)),
        41 => Some(("exportedMessageTotalCount", FieldParser::BeInt)),
        42 => Some(("exportedFlowTotalCount", FieldParser::BeInt)),
        44 => Some(("sourceIPv4Prefix", FieldParser::BeInt)),
        45 => Some(("destinationIPv4Prefix", FieldParser::BeInt)),
        46 => Some(("mplsTopLabelType", FieldParser::BeInt)),
        47 => Some(("mplsTopLabelIPv4Address", FieldParser::Ipv4Addr)),
        52 => Some(("minimumTtl", FieldParser::BeInt)),
        53 => Some(("maximumTtl", FieldParser::BeInt)),
        54 => Some(("identificationIPv4", FieldParser::BeInt)),
        55 => Some(("postClassOfServiceIPv4", FieldParser::BeInt)),
        56 => Some(("sourceMacAddress", FieldParser::BeInt)),
        57 => Some(("postDestinationMacAddr", FieldParser::BeInt)),
        58 => Some(("vlanId", FieldParser::BeInt)),
        59 => Some(("postVlanId", FieldParser::BeInt)),
        60 => Some(("ipVersion", FieldParser::BeInt)),
        62 => Some(("ipNextHopIPv6Address", FieldParser::Ipv6Addr)),
        63 => Some(("bgpNextHopIPv6Address", FieldParser::Ipv6Addr)),
        64 => Some(("ipv6ExtensionHeaders", FieldParser::BeInt)),
        70 => Some(("mplsTopLabelStackEntry", FieldParser::MplsStack)),
        71 => Some(("mplsLabelStackEntry2", FieldParser::MplsStack)),
        72 => Some(("mplsLabelStackEntry3", FieldParser::MplsStack)),
        73 => Some(("mplsLabelStackEntry4", FieldParser::MplsStack)),
        74 => Some(("mplsLabelStackEntry5", FieldParser::MplsStack)),
        75 => Some(("mplsLabelStackEntry6", FieldParser::MplsStack)),
        76 => Some(("mplsLabelStackEntry7", FieldParser::MplsStack)),
        77 => Some(("mplsLabelStackEntry8", FieldParser::MplsStack)),
        78 => Some(("mplsLabelStackEntry9", FieldParser::MplsStack)),
        79 => Some(("mplsLabelStackEntry10", FieldParser::MplsStack)),
        80 => Some(("destinationMacAddress", FieldParser::BeInt)),
        81 => Some(("postSourceMacAddress", FieldParser::BeInt)),
        82 => Some(("interfaceName", FieldParser::BeInt)),
        83 => Some(("interfaceDescription", FieldParser::BeInt)),
        84 => Some(("samplerName", FieldParser::BeInt)),
        85 => Some(("octetTotalCount", FieldParser::BeInt)),
        86 => Some(("packetTotalCount", FieldParser::BeInt)),
        88 => Some(("fragmentOffsetIPv4", FieldParser::BeInt)),
        128 => Some(("bgpNextAdjacentAsNumber", FieldParser::BeInt)),
        129 => Some(("bgpPrevAdjacentAsNumber", FieldParser::BeInt)),
        130 => Some(("exporterIPv4Address", FieldParser::Ipv4Addr)),
        131 => Some(("exporterIPv6Address", FieldParser::Ipv6Addr)),
        132 => Some(("droppedOctetDeltaCount", FieldParser::BeInt)),
        133 => Some(("droppedPacketDeltaCount", FieldParser::BeInt)),
        134 => Some(("droppedOctetTotalCount", FieldParser::BeInt)),
        135 => Some(("droppedPacketTotalCount", FieldParser::BeInt)),
        136 => Some(("flowEndReason", FieldParser::BeInt)),
        137 => Some(("classOfServiceIPv6", FieldParser::BeInt)),
        138 => Some(("postClassOfServiceIPv6", FieldParser::BeInt)),
        139 => Some(("icmpTypeCodeIPv6", FieldParser::BeInt)),
        140 => Some(("mplsTopLabelIPv6Address", FieldParser::Ipv6Addr)),
        141 => Some(("lineCardId", FieldParser::BeInt)),
        142 => Some(("portId", FieldParser::BeInt)),
        143 => Some(("meteringProcessId", FieldParser::BeInt)),
        144 => Some(("exportingProcessId", FieldParser::BeInt)),
        145 => Some(("templateId", FieldParser::BeInt)),
        146 => Some(("wlanChannelId", FieldParser::BeInt)),
        147 => Some(("wlanSsid", FieldParser::BeInt)),
        148 => Some(("flowId", FieldParser::BeInt)),
        149 => Some(("sourceId", FieldParser::BeInt)),
        150 => Some(("flowStartSeconds", FieldParser::BeInt)),
        151 => Some(("flowEndSeconds", FieldParser::BeInt)),
        152 => Some(("flowStartMilliSeconds", FieldParser::BeInt)),
        153 => Some(("flowEndMilliSeconds", FieldParser::BeInt)),
        154 => Some(("flowStartMicroSeconds", FieldParser::BeInt)),
        155 => Some(("flowEndMicroSeconds", FieldParser::BeInt)),
        156 => Some(("flowStartNanoSeconds", FieldParser::BeInt)),
        157 => Some(("flowEndNanoSeconds", FieldParser::BeInt)),
        158 => Some(("flowStartDeltaMicroSeconds", FieldParser::BeInt)),
        159 => Some(("flowEndDeltaMicroSeconds", FieldParser::BeInt)),
        160 => Some(("systemInitTimeMilliSeconds", FieldParser::BeInt)),
        161 => Some(("flowDurationMilliSeconds", FieldParser::BeInt)),
        162 => Some(("flowDurationMicroSeconds", FieldParser::BeInt)),
        163 => Some(("observedFlowTotalCount", FieldParser::BeInt)),
        164 => Some(("ignoredPacketTotalCount", FieldParser::BeInt)),
        165 => Some(("ignoredOctetTotalCount", FieldParser::BeInt)),
        166 => Some(("notSentFlowTotalCount", FieldParser::BeInt)),
        167 => Some(("notSentPacketTotalCount", FieldParser::BeInt)),
        168 => Some(("notSentOctetTotalCount", FieldParser::BeInt)),
        169 => Some(("destinationIPv6Prefix", FieldParser::BeInt)),
        170 => Some(("sourceIPv6Prefix", FieldParser::BeInt)),
        171 => Some(("postOctetTotalCount", FieldParser::BeInt)),
        172 => Some(("postPacketTotalCount", FieldParser::BeInt)),
        173 => Some(("flowKeyIndicator", FieldParser::BeInt)),
        174 => Some(("postMCastPacketTotalCount", FieldParser::BeInt)),
        175 => Some(("postMCastOctetTotalCount", FieldParser::BeInt)),
        176 => Some(("icmpTypeIPv4", FieldParser::BeInt)),
        177 => Some(("icmpCodeIPv4", FieldParser::BeInt)),
        178 => Some(("icmpTypeIPv6", FieldParser::BeInt)),
        179 => Some(("icmpCodeIPv6", FieldParser::BeInt)),
        180 => Some(("udpSourcePort", FieldParser::BeInt)),
        181 => Some(("udpDestinationPort", FieldParser::BeInt)),
        182 => Some(("tcpSourcePort", FieldParser::BeInt)),
        183 => Some(("tcpDestinationPort", FieldParser::BeInt)),
        184 => Some(("tcpSequenceNumber", FieldParser::BeInt)),
        185 => Some(("tcpAcknowledgementNumber", FieldParser::BeInt)),
        186 => Some(("tcpWindowSize", FieldParser::BeInt)),
        187 => Some(("tcpUrgentPointer", FieldParser::BeInt)),
        188 => Some(("tcpHeaderLength", FieldParser::BeInt)),
        189 => Some(("ipHeaderLength", FieldParser::BeInt)),
        190 => Some(("totalLengthIPv4", FieldParser::BeInt)),
        191 => Some(("payloadLengthIPv6", FieldParser::BeInt)),
        192 => Some(("ipTimeToLive", FieldParser::BeInt)),
        193 => Some(("nextHeaderIPv6", FieldParser::BeInt)),
        194 => Some(("ipClassOfService", FieldParser::BeInt)),
        195 => Some(("ipDiffServCodePoint", FieldParser::BeInt)),
        196 => Some(("ipPrecedence", FieldParser::BeInt)),
        197 => Some(("fragmentFlagsIPv4", FieldParser::BeInt)),
        198 => Some(("octetDeltaSumOfSquares", FieldParser::BeInt)),
        199 => Some(("octetTotalSumOfSquares", FieldParser::BeInt)),
        200 => Some(("mplsTopLabelTtl", FieldParser::BeInt)),
        201 => Some(("mplsLabelStackLength", FieldParser::BeInt)),
        202 => Some(("mplsLabelStackDepth", FieldParser::BeInt)),
        203 => Some(("mplsTopLabelExp", FieldParser::BeInt)),
        204 => Some(("ipPayloadLength", FieldParser::BeInt)),
        205 => Some(("udpMessageLength", FieldParser::BeInt)),
        206 => Some(("isMulticast", FieldParser::BeInt)),
        207 => Some(("internetHeaderLengthIPv4", FieldParser::BeInt)),
        208 => Some(("ipv4Options", FieldParser::BeInt)),
        209 => Some(("tcpOptions", FieldParser::BeInt)),
        210 => Some(("paddingOctets", FieldParser::BeInt)),
        213 => Some(("headerLengthIPv4", FieldParser::BeInt)),
        214 => Some(("mplsPayloadLength", FieldParser::BeInt)),
        _ => None,
    }
}


/// The fields of the IANA registry that are known by name: what
/// [`spec_iana_field`] holds, as a map from field id to name and parser.
pub open spec fn spec_default_parsers() -> FormatterView {
    Map::new(
        |id: u16| spec_iana_field(id) is Some,
        |id: u16| (spec_iana_field(id).unwrap().0@, spec_iana_field(id).unwrap().1),
    )
}

/// The fields of the IANA registry that are known by name, as the registry holds
/// them for enterprise 0.
pub fn get_default_parsers() -> (r: FieldFormatter)
    ensures
        formatter_view(r) == spec_default_parsers(),
{
    broadcast use vstd::std_specs::hash::group_hash_axioms;

    let mut fields: FieldFormatter = HashMap::new();
    let mut id: u16 = 0;
    while id <= IANA_MAX_FIELD_ID
        invariant
            id <= IANA_MAX_FIELD_ID + 1,
            forall|k: u16| fields@.contains_key(k) <==> k < id && spec_iana_field(k) is Some,
            forall|k: u16| fields@.contains_key(k) ==> fields@[k] == spec_iana_field(k).unwrap(),
        decreases IANA_MAX_FIELD_ID + 1 - id,
    {
        if let Some(entry) = iana_field(id) {
            fields.insert(id, entry);
        }
        id = id + 1;
    }
    assert(formatter_view(fields) =~= spec_default_parsers()) by {
        assert forall|k: u16| spec_iana_field(k) is Some implies k <= IANA_MAX_FIELD_ID by {}
    }
    fields
}

} // verus!
