//! The setup packet: the eight bytes that open every USB control transfer,
//! and the one request that this device family answers with its calibration.
//!
//! | byte | bits, most significant first | field |
//! |---|---|---|
//! | 0 | 0 to 4 | recipient |
//! | 0 | 5 and 6 | type |
//! | 0 | 7 | data phase transfer direction |
//! | 1 | | request code |
//! | 2, 3 | | value, low byte first |
//! | 4, 5 | | index, low byte first |
//! | 6, 7 | | length, low byte first |
//!
//! Bit 0 is the most significant bit of its byte, so the recipient takes the
//! upper five bits of byte 0 and the direction its lowest bit.

use crate::calib::CALIBRATION_SIZE;
use vstd::prelude::*;

verus! {

/// The control selector of the calibration data in the vendor extension unit.
pub const LEAP_XU_CALIBRATION_DATA_SELECTOR: u16 = 25;

/// What packing or unpacking a setup packet can fail with.
#[derive(Clone, Copy, Debug, PartialEq, Eq, Structural)]
pub enum PackingError {
    /// A field cannot be represented in its bits. Every value of every field
    /// of a `SetupPacket` fits, so `pack` never returns this.
    EncodingError,
    /// The bytes hold a code that stands for no value: a reserved recipient.
    DecodeError,
}

/// USB Setup Packet `bmRequestType` Recipient. Bits 0-4. Values from 4 to 31 are reserved.
#[derive(Clone, Copy, Debug, PartialEq, Eq, Structural)]
pub enum BmRequestTypeRecipient {
    /// 0b00000
    Device,
    /// 0b00001
    Interface,
    /// 0b00010
    Endpoint,
    /// 0b00011
    Other,
}

/// USB Setup Packet `bmRequestType` Type. Bits 5-6.
#[derive(Clone, Copy, Debug, PartialEq, Eq, Structural)]
pub enum BmRequestTypeType {
    /// 0b00
    Standard,
    /// 0b01
    Class,
    /// 0b10
    Vendor,
    /// 0b11
    Other,
}

/// USB Setup Packet `bmRequestType` Data Phase Transfer Direction. Bit 7.
#[derive(Clone, Copy, Debug, PartialEq, Eq, Structural)]
pub enum BmRequestTypeDataPhaseTransferDirection {
    /// 0b0
    HostToDevice,
    /// 0b1
    DeviceToHost,
}

/// The request codes of the USB Video Class. They go in the b_request field
/// of the Setup Packet for USB control requests. UVC A.8.
#[derive(Clone, Copy, Debug, PartialEq, Eq, Structural)]
pub enum UVCRequestCode {
    /// 0x00
    RcUndefined,
    /// 0x01
    SetCur,
    /// 0x11
    SetCurAll,
    /// 0x81
    GetCur,
    /// 0x82
    GetMin,
    /// 0x83
    GetMax,
    /// 0x84
    GetRes,
    /// 0x85
    GetLen,
    /// 0x86
    GetInfo,
    /// 0x87
    GetDef,
    /// 0x91
    GetCurAll,
    /// 0x92
    GetMinAll,
    /// 0x93
    GetMaxAll,
    /// 0x94
    GetResAll,
    /// 0x97
    GetDefAll,
}

/// Control requests to USB devices each begin with an 8-byte Setup Packet.
#[derive(Clone, Copy, Debug, PartialEq, Eq, Structural)]
pub struct SetupPacket {
    /// bmRequestType - Recipient (bits 0-4).
    pub bm_request_type_recipient: BmRequestTypeRecipient,
    /// bmRequestType - Type (bits 5-6).
    pub bm_request_type_type: BmRequestTypeType,
    /// bmRequestType - Data Phase Transfer Direction (bit 7).
    pub bm_request_type_direction: BmRequestTypeDataPhaseTransferDirection,
    /// The request code identifying what the request is. Standard requests
    /// are common to all USB devices, class requests are common to classes of
    /// drivers. Vendor requests are vendor-specific.
    pub b_request: u8,
    /// A value parameter associated with the request.
    pub w_value: u16,
    /// An index or offset parameter associated with the request.
    pub w_index: u16,
    /// If there is a data phase to the request, this is the number of bytes to transfer.
    pub w_length: u16,
}

impl BmRequestTypeRecipient {
    /// The number that stands for this recipient.
    pub open spec fn code(self) -> u8 {
        match self {
            BmRequestTypeRecipient::Device => 0,
            BmRequestTypeRecipient::Interface => 1,
            BmRequestTypeRecipient::Endpoint => 2,
            BmRequestTypeRecipient::Other => 3,
        }
    }

    /// The recipient that a number stands for, if it stands for one.
    pub open spec fn of_code(code: u8) -> Option<BmRequestTypeRecipient> {
        if code == 0 {
            Some(BmRequestTypeRecipient::Device)
        } else if code == 1 {
            Some(BmRequestTypeRecipient::Interface)
        } else if code == 2 {
            Some(BmRequestTypeRecipient::Endpoint)
        } else if code == 3 {
            Some(BmRequestTypeRecipient::Other)
        } else {
            None
        }
    }

    /// Convert to a primitive value.
    pub fn to_primitive(&self) -> (code: u8)
        ensures
            code == self.code(),
    {
        match self {
            BmRequestTypeRecipient::Device => 0,
            BmRequestTypeRecipient::Interface => 1,
            BmRequestTypeRecipient::Endpoint => 2,
            BmRequestTypeRecipient::Other => 3,
        }
    }

    /// Convert from a primitive, might fail.
    pub fn from_primitive(val: u8) -> (recipient: Option<BmRequestTypeRecipient>)
        ensures
            recipient == Self::of_code(val),
    {
        match val {
            0 => Some(BmRequestTypeRecipient::Device),
            1 => Some(BmRequestTypeRecipient::Interface),
            2 => Some(BmRequestTypeRecipient::Endpoint),
            3 => Some(BmRequestTypeRecipient::Other),
            _ => None,
        }
    }
}

impl BmRequestTypeType {
    /// The number that stands for this type.
    pub open spec fn code(self) -> u8 {
        match self {
            BmRequestTypeType::Standard => 0,
            BmRequestTypeType::Class => 1,
            BmRequestTypeType::Vendor => 2,
            BmRequestTypeType::Other => 3,
        }
    }

    /// The type that a number stands for, if it stands for one.
    pub open spec fn of_code(code: u8) -> Option<BmRequestTypeType> {
        if code == 0 {
            Some(BmRequestTypeType::Standard)
        } else if code == 1 {
            Some(BmRequestTypeType::Class)
        } else if code == 2 {
            Some(BmRequestTypeType::Vendor)
        } else if code == 3 {
            Some(BmRequestTypeType::Other)
        } else {
            None
        }
    }

    /// Convert to a primitive value.
    pub fn to_primitive(&self) -> (code: u8)
        ensures
            code == self.code(),
    {
        match self {
            BmRequestTypeType::Standard => 0,
            BmRequestTypeType::Class => 1,
            BmRequestTypeType::Vendor => 2,
            BmRequestTypeType::Other => 3,
        }
    }

    /// Convert from a primitive, might fail.
    pub fn from_primitive(val: u8) -> (request_type: Option<BmRequestTypeType>)
        ensures
            request_type == Self::of_code(val),
    {
        match val {
            0 => Some(BmRequestTypeType::Standard),
            1 => Some(BmRequestTypeType::Class),
            2 => Some(BmRequestTypeType::Vendor),
            3 => Some(BmRequestTypeType::Other),
            _ => None,
        }
    }
}

impl BmRequestTypeDataPhaseTransferDirection {
    /// The number that stands for this direction.
    pub open spec fn code(self) -> u8 {
        match self {
            BmRequestTypeDataPhaseTransferDirection::HostToDevice => 0,
            BmRequestTypeDataPhaseTransferDirection::DeviceToHost => 1,
        }
    }

    /// The direction that a number stands for, if it stands for one.
    pub open spec fn of_code(code: u8) -> Option<BmRequestTypeDataPhaseTransferDirection> {
        if code == 0 {
            Some(BmRequestTypeDataPhaseTransferDirection::HostToDevice)
        } else if code == 1 {
            Some(BmRequestTypeDataPhaseTransferDirection::DeviceToHost)
        } else {
            None
        }
    }

    /// Convert to a primitive value.
    pub fn to_primitive(&self) -> (code: u8)
        ensures
            code == self.code(),
    {
        match self {
            BmRequestTypeDataPhaseTransferDirection::HostToDevice => 0,
            BmRequestTypeDataPhaseTransferDirection::DeviceToHost => 1,
        }
    }

    /// Convert from a primitive, might fail.
    pub fn from_primitive(val: u8) -> (direction: Option<BmRequestTypeDataPhaseTransferDirection>)
        ensures
            direction == Self::of_code(val),
    {
        match val {
            0 => Some(BmRequestTypeDataPhaseTransferDirection::HostToDevice),
            1 => Some(BmRequestTypeDataPhaseTransferDirection::DeviceToHost),
            _ => None,
        }
    }
}

impl UVCRequestCode {
    /// The request code that goes on the wire.
    pub open spec fn code(self) -> u8 {
        match self {
            UVCRequestCode::RcUndefined => 0x00,
            UVCRequestCode::SetCur => 0x01,
            UVCRequestCode::SetCurAll => 0x11,
            UVCRequestCode::GetCur => 0x81,
            UVCRequestCode::GetMin => 0x82,
            UVCRequestCode::GetMax => 0x83,
            UVCRequestCode::GetRes => 0x84,
            UVCRequestCode::GetLen => 0x85,
            UVCRequestCode::GetInfo => 0x86,
            UVCRequestCode::GetDef => 0x87,
            UVCRequestCode::GetCurAll => 0x91,
            UVCRequestCode::GetMinAll => 0x92,
            UVCRequestCode::GetMaxAll => 0x93,
            UVCRequestCode::GetResAll => 0x94,
            UVCRequestCode::GetDefAll => 0x97,
        }
    }

    /// The request that a code on the wire stands for, if it stands for one.
    pub open spec fn of_code(code: u8) -> Option<UVCRequestCode> {
        if code == 0x00 {
            Some(UVCRequestCode::RcUndefined)
        } else if code == 0x01 {
            Some(UVCRequestCode::SetCur)
        } else if code == 0x11 {
            Some(UVCRequestCode::SetCurAll)
        } else if code == 0x81 {
            Some(UVCRequestCode::GetCur)
        } else if code == 0x82 {
            Some(UVCRequestCode::GetMin)
        } else if code == 0x83 {
            Some(UVCRequestCode::GetMax)
        } else if code == 0x84 {
            Some(UVCRequestCode::GetRes)
        } else if code == 0x85 {
            Some(UVCRequestCode::GetLen)
        } else if code == 0x86 {
            Some(UVCRequestCode::GetInfo)
        } else if code == 0x87 {
            Some(UVCRequestCode::GetDef)
        } else if code == 0x91 {
            Some(UVCRequestCode::GetCurAll)
        } else if code == 0x92 {
            Some(UVCRequestCode::GetMinAll)
        } else if code == 0x93 {
            Some(UVCRequestCode::GetMaxAll)
        } else if code == 0x94 {
            Some(UVCRequestCode::GetResAll)
        } else if code == 0x97 {
            Some(UVCRequestCode::GetDefAll)
        } else {
            None
        }
    }

    /// Convert to a primitive value.
    pub fn to_primitive(&self) -> (code: u8)
        ensures
            code == self.code(),
    {
        match self {
            UVCRequestCode::RcUndefined => 0x00,
            UVCRequestCode::SetCur => 0x01,
            UVCRequestCode::SetCurAll => 0x11,
            UVCRequestCode::GetCur => 0x81,
            UVCRequestCode::GetMin => 0x82,
            UVCRequestCode::GetMax => 0x83,
            UVCRequestCode::GetRes => 0x84,
            UVCRequestCode::GetLen => 0x85,
            UVCRequestCode::GetInfo => 0x86,
            UVCRequestCode::GetDef => 0x87,
            UVCRequestCode::GetCurAll => 0x91,
            UVCRequestCode::GetMinAll => 0x92,
            UVCRequestCode::GetMaxAll => 0x93,
            UVCRequestCode::GetResAll => 0x94,
            UVCRequestCode::GetDefAll => 0x97,
        }
    }

    /// Convert from a primitive, might fail.
    pub fn from_primitive(val: u8) -> (request: Option<UVCRequestCode>)
        ensures
            request == Self::of_code(val),
    {
        match val {
            0x00 => Some(UVCRequestCode::RcUndefined),
            0x01 => Some(UVCRequestCode::SetCur),
            0x11 => Some(UVCRequestCode::SetCurAll),
            0x81 => Some(UVCRequestCode::GetCur),
            0x82 => Some(UVCRequestCode::GetMin),
            0x83 => Some(UVCRequestCode::GetMax),
            0x84 => Some(UVCRequestCode::GetRes),
            0x85 => Some(UVCRequestCode::GetLen),
            0x86 => Some(UVCRequestCode::GetInfo),
            0x87 => Some(UVCRequestCode::GetDef),
            0x91 => Some(UVCRequestCode::GetCurAll),
            0x92 => Some(UVCRequestCode::GetMinAll),
            0x93 => Some(UVCRequestCode::GetMaxAll),
            0x94 => Some(UVCRequestCode::GetResAll),
            0x97 => Some(UVCRequestCode::GetDefAll),
            _ => None,
        }
    }
}

impl SetupPacket {
    /// Byte 0 of the packet: the recipient in its upper five bits, the type
    /// in the two bits below them, the direction in the lowest bit.
    pub open spec fn request_type_byte(self) -> u8 {
        (8 * self.bm_request_type_recipient.code() + 2 * self.bm_request_type_type.code()
            + self.bm_request_type_direction.code()) as u8
    }

    /// The eight bytes of the packet.
    pub open spec fn packed(self) -> Seq<u8> {
        seq![
            self.request_type_byte(),
            self.b_request,
            (self.w_value % 0x100) as u8,
            (self.w_value / 0x100) as u8,
            (self.w_index % 0x100) as u8,
            (self.w_index / 0x100) as u8,
            (self.w_length % 0x100) as u8,
            (self.w_length / 0x100) as u8,
        ]
    }

    /// The packet that eight bytes stand for; none where the upper five bits
    /// of byte 0 hold a reserved recipient, 4 to 31.
    pub open spec fn unpacked(bytes: Seq<u8>) -> Result<SetupPacket, PackingError> {
        match (
            BmRequestTypeRecipient::of_code(bytes[0] / 8),
            BmRequestTypeType::of_code(bytes[0] / 2 % 4),
            BmRequestTypeDataPhaseTransferDirection::of_code(bytes[0] % 2),
        ) {
            (Some(recipient), Some(request_type), Some(direction)) => Ok(
                SetupPacket {
                    bm_request_type_recipient: recipient,
                    bm_request_type_type: request_type,
                    bm_request_type_direction: direction,
                    b_request: bytes[1],
                    w_value: (bytes[2] + 0x100 * bytes[3]) as u16,
                    w_index: (bytes[4] + 0x100 * bytes[5]) as u16,
                    w_length: (bytes[6] + 0x100 * bytes[7]) as u16,
                },
            ),
            _ => Err(PackingError::DecodeError),
        }
    }

    /// Packs the structure into a byte array. Every packet packs: the result
    /// is never an error.
    pub fn pack(&self) -> (result: Result<[u8; 8], PackingError>)
        ensures
            result matches Ok(bytes) && bytes@ == self.packed(),
            self.packed().len() == 8,
    {
        let recipient: u8 = self.bm_request_type_recipient.to_primitive();
        let request_type: u8 = self.bm_request_type_type.to_primitive();
        let direction: u8 = self.bm_request_type_direction.to_primitive();
        let value: u16 = self.w_value;
        let index: u16 = self.w_index;
        let length: u16 = self.w_length;
        assert((recipient << 3 | request_type << 1 | direction) == 8 * recipient + 2 * request_type
            + direction) by (bit_vector)
            requires
                recipient < 4,
                request_type < 4,
                direction < 2,
        ;
        assert forall|word: u16| word & 0xff == word % 0x100 && word >> 8 == word / 0x100 by {
            assert(word & 0xff == word % 0x100 && word >> 8 == word / 0x100) by (bit_vector);
        }
        let bytes: [u8; 8] = [
            recipient << 3 | request_type << 1 | direction,
            self.b_request,
            (value & 0xff) as u8,
            (value >> 8) as u8,
            (index & 0xff) as u8,
            (index >> 8) as u8,
            (length & 0xff) as u8,
            (length >> 8) as u8,
        ];
        assert(bytes@ =~= self.packed());
        Ok(bytes)
    }

    /// Unpacks the structure from a byte array. Fails with `DecodeError` on
    /// a reserved recipient, and on nothing else.
    pub fn unpack(src: &[u8; 8]) -> (result: Result<SetupPacket, PackingError>)
        ensures
            result == Self::unpacked(src@),
    {
        let head: u8 = src[0];
        assert(head >> 3 == head / 8 && (head >> 1) & 3 == head / 2 % 4 && head & 1 == head % 2)
            by (bit_vector);
        let recipient = match BmRequestTypeRecipient::from_primitive(head >> 3) {
            Some(recipient) => recipient,
            None => {
                return Err(PackingError::DecodeError);
            },
        };
        let request_type = match BmRequestTypeType::from_primitive((head >> 1) & 3) {
            Some(request_type) => request_type,
            None => {
                return Err(PackingError::DecodeError);
            },
        };
        let direction = match BmRequestTypeDataPhaseTransferDirection::from_primitive(head & 1) {
            Some(direction) => direction,
            None => {
                return Err(PackingError::DecodeError);
            },
        };
        Ok(
            SetupPacket {
                bm_request_type_recipient: recipient,
                bm_request_type_type: request_type,
                bm_request_type_direction: direction,
                b_request: src[1],
                w_value: read_u16_le(src[2], src[3]),
                w_index: read_u16_le(src[4], src[5]),
                w_length: read_u16_le(src[6], src[7]),
            },
        )
    }
}

/// The 16-bit value of two bytes, low byte first.
fn read_u16_le(low: u8, high: u8) -> (value: u16)
    ensures
        value == low + 0x100 * high,
{
    let low: u16 = low as u16;
    let high: u16 = high as u16;
    assert((low | high << 8) == low + 0x100 * high) by (bit_vector)
        requires
            low < 0x100,
            high < 0x100,
    ;
    low | high << 8
}

/// The request for the calibration record of the extension unit at
/// `node_or_unit_address`.
pub open spec fn calibration_request(node_or_unit_address: u16) -> SetupPacket {
    SetupPacket {
        bm_request_type_recipient: BmRequestTypeRecipient::Device,
        bm_request_type_type: BmRequestTypeType::Vendor,
        bm_request_type_direction: BmRequestTypeDataPhaseTransferDirection::DeviceToHost,
        b_request: UVCRequestCode::GetCur.code(),
        w_value: LEAP_XU_CALIBRATION_DATA_SELECTOR,
        w_index: node_or_unit_address,
        w_length: CALIBRATION_SIZE as u16,
    }
}

/// Builds the request that asks the device for its calibration record: a
/// vendor `GetCur` to the device, answered by the device, for the calibration
/// selector, addressed to the unit that the caller names, for as many bytes as
/// a record takes.
pub fn build_calibration_request_packet(node_or_unit_address: u16) -> (packet: SetupPacket)
    ensures
        packet == calibration_request(node_or_unit_address),
        packet.packed() == seq![
            0x05u8,
            0x81u8,
            0x19u8,
            0x00u8,
            (node_or_unit_address % 0x100) as u8,
            (node_or_unit_address / 0x100) as u8,
            0x9cu8,
            0x00u8,
        ],
{
    let packet = SetupPacket {
        bm_request_type_recipient: BmRequestTypeRecipient::Device,
        bm_request_type_type: BmRequestTypeType::Vendor,
        bm_request_type_direction: BmRequestTypeDataPhaseTransferDirection::DeviceToHost,
        b_request: UVCRequestCode::GetCur.to_primitive(),
        w_value: LEAP_XU_CALIBRATION_DATA_SELECTOR,
        w_index: node_or_unit_address,
        w_length: CALIBRATION_SIZE as u16,
    };
    assert(packet.packed() =~= seq![
        0x05u8,
        0x81u8,
        0x19u8,
        0x00u8,
        (node_or_unit_address % 0x100) as u8,
        (node_or_unit_address / 0x100) as u8,
        0x9cu8,
        0x00u8,
    ]);
    packet
}

/// Fixed size: every packet packs to eight bytes.
pub proof fn lemma_packed_len(packet: SetupPacket)
    ensures
        packet.packed().len() == 8,
{
}

/// Round trip: unpacking the bytes of a packet gives the packet, whatever its
/// fields hold.
pub proof fn lemma_unpack_of_pack(packet: SetupPacket)
    ensures
        SetupPacket::unpacked(packet.packed()) == Ok::<SetupPacket, PackingError>(packet),
{
}

/// The bytes that unpack to a packet are the bytes of that packet: no two
/// byte patterns stand for one packet.
pub proof fn lemma_pack_of_unpack(bytes: Seq<u8>, packet: SetupPacket)
    requires
        bytes.len() == 8,
        SetupPacket::unpacked(bytes) == Ok::<SetupPacket, PackingError>(packet),
    ensures
        packet.packed() == bytes,
{
    assert(packet.packed() =~= bytes);
}

/// Unpacking fails on the reserved recipients and on them alone.
pub proof fn lemma_unpack_fails_on_reserved(bytes: Seq<u8>)
    ensures
        SetupPacket::unpacked(bytes) is Err <==> bytes[0] >= 32,
        SetupPacket::unpacked(bytes) is Err ==> SetupPacket::unpacked(bytes) == Err::<
            SetupPacket,
            PackingError,
        >(PackingError::DecodeError),
{
}

} // verus!
