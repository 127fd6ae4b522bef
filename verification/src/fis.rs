//! SATA frame information structures: the records exchanged between host and
//! device, and their exact byte layout on the wire.

use vstd::prelude::*;
use vstd::bytes::{
    spec_u16_from_le_bytes, spec_u16_to_le_bytes, spec_u32_from_le_bytes, spec_u32_to_le_bytes,
    spec_u64_from_le_bytes, spec_u64_to_le_bytes, u16_from_le_bytes, u16_to_le_bytes,
    u32_from_le_bytes, u32_to_le_bytes, u64_from_le_bytes, u64_to_le_bytes,
};
use vstd::slice::slice_subrange;

verus! {

/// The kinds of frame, by the first byte of the frame.
#[derive(Debug, Clone, Copy, PartialEq, Eq, Structural)]
pub enum FisType {
    /// Register FIS, host to device
    RegH2D,
    /// Register FIS, device to host
    RegD2H,
    /// DMA activate FIS, device to host
    DmaAct,
    /// DMA setup FIS, both directions
    DmaSetup,
    /// Data FIS, both directions
    Data,
    /// BIST activate FIS, both directions
    Bist,
    /// PIO setup FIS, device to host
    PioSetup,
    /// Set device bits FIS, device to host
    DevBits,
}

impl FisType {
    /// The first byte of a frame of this kind.
    pub open spec fn spec_code(self) -> u8 {
        match self {
            FisType::RegH2D => 0x27,
            FisType::RegD2H => 0x34,
            FisType::DmaAct => 0x39,
            FisType::DmaSetup => 0x41,
            FisType::Data => 0x46,
            FisType::Bist => 0x58,
            FisType::PioSetup => 0x5F,
            FisType::DevBits => 0xA1,
        }
    }

    /// The kind of frame that starts with `code`, if any.
    pub open spec fn spec_from_code(code: u8) -> Option<FisType> {
        if code == 0x27 {
            Some(FisType::RegH2D)
        } else if code == 0x34 {
            Some(FisType::RegD2H)
        } else if code == 0x39 {
            Some(FisType::DmaAct)
        } else if code == 0x41 {
            Some(FisType::DmaSetup)
        } else if code == 0x46 {
            Some(FisType::Data)
        } else if code == 0x58 {
            Some(FisType::Bist)
        } else if code == 0x5F {
            Some(FisType::PioSetup)
        } else if code == 0xA1 {
            Some(FisType::DevBits)
        } else {
            None
        }
    }

    /// The first byte of a frame of this kind.
    pub fn code(self) -> (c: u8)
        ensures
            c == self.spec_code(),
    {
        match self {
            FisType::RegH2D => 0x27,
            FisType::RegD2H => 0x34,
            FisType::DmaAct => 0x39,
            FisType::DmaSetup => 0x41,
            FisType::Data => 0x46,
            FisType::Bist => 0x58,
            FisType::PioSetup => 0x5F,
            FisType::DevBits => 0xA1,
        }
    }

    /// The kind of frame that starts with `code`, if any.
    pub fn from_code(code: u8) -> (kind: Option<FisType>)
        ensures
            kind == Self::spec_from_code(code),
    {
        if code == 0x27 {
            Some(FisType::RegH2D)
        } else if code == 0x34 {
            Some(FisType::RegD2H)
        } else if code == 0x39 {
            Some(FisType::DmaAct)
        } else if code == 0x41 {
            Some(FisType::DmaSetup)
        } else if code == 0x46 {
            Some(FisType::Data)
        } else if code == 0x58 {
            Some(FisType::Bist)
        } else if code == 0x5F {
            Some(FisType::PioSetup)
        } else if code == 0xA1 {
            Some(FisType::DevBits)
        } else {
            None
        }
    }
}

/// Every kind of frame is found again from its first byte.
pub proof fn fis_type_round_trip(kind: FisType)
    ensures
        FisType::spec_from_code(kind.spec_code()) == Some(kind),
{
}

/// The little-endian images of 16, 32 and 64-bit values have 2, 4 and 8
/// bytes, and each value is found again from its image and each image from
/// its value.
pub proof fn lemma_le_lengths()
    ensures
        forall|x: u16|
            #![trigger spec_u16_to_le_bytes(x)]
            spec_u16_to_le_bytes(x).len() == 2 && spec_u16_from_le_bytes(spec_u16_to_le_bytes(x))
                == x,
        forall|x: u32|
            #![trigger spec_u32_to_le_bytes(x)]
            spec_u32_to_le_bytes(x).len() == 4 && spec_u32_from_le_bytes(spec_u32_to_le_bytes(x))
                == x,
        forall|x: u64|
            #![trigger spec_u64_to_le_bytes(x)]
            spec_u64_to_le_bytes(x).len() == 8 && spec_u64_from_le_bytes(spec_u64_to_le_bytes(x))
                == x,
        forall|s: Seq<u8>|
            s.len() == 2 ==> #[trigger] spec_u16_to_le_bytes(spec_u16_from_le_bytes(s)) == s,
        forall|s: Seq<u8>|
            s.len() == 4 ==> #[trigger] spec_u32_to_le_bytes(spec_u32_from_le_bytes(s)) == s,
        forall|s: Seq<u8>|
            s.len() == 8 ==> #[trigger] spec_u64_to_le_bytes(spec_u64_from_le_bytes(s)) == s,
{
    vstd::bytes::lemma_auto_spec_u16_to_from_le_bytes();
    vstd::bytes::lemma_auto_spec_u32_to_from_le_bytes();
    vstd::bytes::lemma_auto_spec_u64_to_from_le_bytes();
    assert forall|x: u16| #![trigger spec_u16_to_le_bytes(x)] spec_u16_to_le_bytes(x).len() == 2
        && spec_u16_from_le_bytes(spec_u16_to_le_bytes(x)) == x by {
        assert(spec_u16_to_le_bytes(x).len() == 2);
    }
    assert forall|x: u32| #![trigger spec_u32_to_le_bytes(x)] spec_u32_to_le_bytes(x).len() == 4
        && spec_u32_from_le_bytes(spec_u32_to_le_bytes(x)) == x by {
        assert(spec_u32_to_le_bytes(x).len() == 4);
    }
}

/// Register FIS, host to device: carries a command or a control update with
/// the task file registers.
#[derive(Debug, Clone, Copy)]
pub struct FisRegH2D {
    /// FIS_TYPE_REG_H2D
    pub fis_type: u8,
    /// Port multiplier [7:4], reserved [3:1], command [0]
    pub pmport_c: u8,
    /// Command register
    pub command: u8,
    /// Feature register, 7:0
    pub featurel: u8,
    /// LBA low register, 7:0
    pub lba0: u8,
    /// LBA mid register, 15:8
    pub lba1: u8,
    /// LBA high register, 23:16
    pub lba2: u8,
    /// Device register
    pub device: u8,
    /// LBA register, 31:24
    pub lba3: u8,
    /// LBA register, 39:32
    pub lba4: u8,
    /// LBA register, 47:40
    pub lba5: u8,
    /// Feature register, 15:8
    pub featureh: u8,
    /// Count register, 7:0
    pub countl: u8,
    /// Count register, 15:8
    pub counth: u8,
    /// Isochronous command completion
    pub icc: u8,
    /// Control register
    pub control: u8,
    /// Reserved
    pub rsv1: [u8; 4],
}

impl FisRegH2D {
    /// Length of the frame in bytes.
    pub const SIZE: usize = 20;

    /// The frame in memory: every field in declaration order, multi-byte
    /// fields least significant byte first, nothing between them.
    pub open spec fn spec_to_bytes(self) -> Seq<u8> {
        seq![self.fis_type, self.pmport_c, self.command, self.featurel, self.lba0, self.lba1, self.lba2, self.device, self.lba3, self.lba4, self.lba5, self.featureh, self.countl, self.counth, self.icc, self.control, self.rsv1[0], self.rsv1[1], self.rsv1[2], self.rsv1[3]]
    }

    /// Writes the frame out.
    pub fn to_bytes(&self) -> (bytes: Vec<u8>)
        ensures
            bytes@ == self.spec_to_bytes(),
            bytes@.len() == Self::SIZE,
    {
        let mut bytes: Vec<u8> = Vec::new();
        bytes.push(self.fis_type);
        bytes.push(self.pmport_c);
        bytes.push(self.command);
        bytes.push(self.featurel);
        bytes.push(self.lba0);
        bytes.push(self.lba1);
        bytes.push(self.lba2);
        bytes.push(self.device);
        bytes.push(self.lba3);
        bytes.push(self.lba4);
        bytes.push(self.lba5);
        bytes.push(self.featureh);
        bytes.push(self.countl);
        bytes.push(self.counth);
        bytes.push(self.icc);
        bytes.push(self.control);
        bytes.push(self.rsv1[0]);
        bytes.push(self.rsv1[1]);
        bytes.push(self.rsv1[2]);
        bytes.push(self.rsv1[3]);
        assert(bytes@ =~= self.spec_to_bytes());
        bytes
    }

    /// Reads a frame: there is one exactly when `bytes` has the frame's
    /// length, and it is the frame that writes out as `bytes`.
    pub fn from_bytes(bytes: &[u8]) -> (frame: Option<FisRegH2D>)
        ensures
            frame is Some <==> bytes@.len() == Self::SIZE,
            frame matches Some(f) ==> f.spec_to_bytes() == bytes@,
    {
        if bytes.len() != Self::SIZE {
            return None;
        }
        let f = FisRegH2D {
            fis_type: bytes[0],
            pmport_c: bytes[1],
            command: bytes[2],
            featurel: bytes[3],
            lba0: bytes[4],
            lba1: bytes[5],
            lba2: bytes[6],
            device: bytes[7],
            lba3: bytes[8],
            lba4: bytes[9],
            lba5: bytes[10],
            featureh: bytes[11],
            countl: bytes[12],
            counth: bytes[13],
            icc: bytes[14],
            control: bytes[15],
            rsv1: [bytes[16], bytes[17], bytes[18], bytes[19]],
        };
        assert(f.spec_to_bytes() =~= bytes@);
        Some(f)
    }

    /// Two frames that write out alike are the same frame.
    pub proof fn lemma_bytes_determine_fields(self, other: FisRegH2D)
        requires
            self.spec_to_bytes() == other.spec_to_bytes(),
        ensures
            self == other,
    {
        let a = self.spec_to_bytes();
        let b = other.spec_to_bytes();
        assert(a[0] == self.fis_type && b[0] == other.fis_type);
        assert(a[1] == self.pmport_c && b[1] == other.pmport_c);
        assert(a[2] == self.command && b[2] == other.command);
        assert(a[3] == self.featurel && b[3] == other.featurel);
        assert(a[4] == self.lba0 && b[4] == other.lba0);
        assert(a[5] == self.lba1 && b[5] == other.lba1);
        assert(a[6] == self.lba2 && b[6] == other.lba2);
        assert(a[7] == self.device && b[7] == other.device);
        assert(a[8] == self.lba3 && b[8] == other.lba3);
        assert(a[9] == self.lba4 && b[9] == other.lba4);
        assert(a[10] == self.lba5 && b[10] == other.lba5);
        assert(a[11] == self.featureh && b[11] == other.featureh);
        assert(a[12] == self.countl && b[12] == other.countl);
        assert(a[13] == self.counth && b[13] == other.counth);
        assert(a[14] == self.icc && b[14] == other.icc);
        assert(a[15] == self.control && b[15] == other.control);
        assert(a[16] == self.rsv1[0] && b[16] == other.rsv1[0]);
        assert(a[17] == self.rsv1[1] && b[17] == other.rsv1[1]);
        assert(a[18] == self.rsv1[2] && b[18] == other.rsv1[2]);
        assert(a[19] == self.rsv1[3] && b[19] == other.rsv1[3]);
        assert(self.rsv1 =~= other.rsv1);
    }
}

/// Register FIS, device to host: tells the host that a task file register
/// has changed.
#[derive(Debug, Clone, Copy)]
pub struct FisRegD2H {
    /// FIS_TYPE_REG_D2H
    pub fis_type: u8,
    /// Port multiplier [7:4], reserved [3:2], interrupt [1], reserved [0]
    pub pmport_i: u8,
    /// Status register
    pub status: u8,
    /// Error register
    pub error: u8,
    /// LBA low register, 7:0
    pub lba0: u8,
    /// LBA mid register, 15:8
    pub lba1: u8,
    /// LBA high register, 23:16
    pub lba2: u8,
    /// Device register
    pub device: u8,
    /// LBA register, 31:24
    pub lba3: u8,
    /// LBA register, 39:32
    pub lba4: u8,
    /// LBA register, 47:40
    pub lba5: u8,
    /// Reserved
    pub rsv2: u8,
    /// Count register, 7:0
    pub countl: u8,
    /// Count register, 15:8
    pub counth: u8,
    /// Reserved
    pub rsv3: [u8; 2],
    /// Reserved
    pub rsv4: [u8; 4],
}

impl FisRegD2H {
    /// Length of the frame in bytes.
    pub const SIZE: usize = 20;

    /// The frame in memory: every field in declaration order, multi-byte
    /// fields least significant byte first, nothing between them.
    pub open spec fn spec_to_bytes(self) -> Seq<u8> {
        seq![self.fis_type, self.pmport_i, self.status, self.error, self.lba0, self.lba1, self.lba2, self.device, self.lba3, self.lba4, self.lba5, self.rsv2, self.countl, self.counth, self.rsv3[0], self.rsv3[1], self.rsv4[0], self.rsv4[1], self.rsv4[2], self.rsv4[3]]
    }

    /// Writes the frame out.
    pub fn to_bytes(&self) -> (bytes: Vec<u8>)
        ensures
            bytes@ == self.spec_to_bytes(),
            bytes@.len() == Self::SIZE,
    {
        let mut bytes: Vec<u8> = Vec::new();
        bytes.push(self.fis_type);
        bytes.push(self.pmport_i);
        bytes.push(self.status);
        bytes.push(self.error);
        bytes.push(self.lba0);
        bytes.push(self.lba1);
        bytes.push(self.lba2);
        bytes.push(self.device);
        bytes.push(self.lba3);
        bytes.push(self.lba4);
        bytes.push(self.lba5);
        bytes.push(self.rsv2);
        bytes.push(self.countl);
        bytes.push(self.counth);
        bytes.push(self.rsv3[0]);
        bytes.push(self.rsv3[1]);
        bytes.push(self.rsv4[0]);
        bytes.push(self.rsv4[1]);
        bytes.push(self.rsv4[2]);
        bytes.push(self.rsv4[3]);
        assert(bytes@ =~= self.spec_to_bytes());
        bytes
    }

    /// Reads a frame: there is one exactly when `bytes` has the frame's
    /// length, and it is the frame that writes out as `bytes`.
    pub fn from_bytes(bytes: &[u8]) -> (frame: Option<FisRegD2H>)
        ensures
            frame is Some <==> bytes@.len() == Self::SIZE,
            frame matches Some(f) ==> f.spec_to_bytes() == bytes@,
    {
        if bytes.len() != Self::SIZE {
            return None;
        }
        let f = FisRegD2H {
            fis_type: bytes[0],
            pmport_i: bytes[1],
            status: bytes[2],
            error: bytes[3],
            lba0: bytes[4],
            lba1: bytes[5],
            lba2: bytes[6],
            device: bytes[7],
            lba3: bytes[8],
            lba4: bytes[9],
            lba5: bytes[10],
            rsv2: bytes[11],
            countl: bytes[12],
            counth: bytes[13],
            rsv3: [bytes[14], bytes[15]],
            rsv4: [bytes[16], bytes[17], bytes[18], bytes[19]],
        };
        assert(f.spec_to_bytes() =~= bytes@);
        Some(f)
    }

    /// Two frames that write out alike are the same frame.
    pub proof fn lemma_bytes_determine_fields(self, other: FisRegD2H)
        requires
            self.spec_to_bytes() == other.spec_to_bytes(),
        ensures
            self == other,
    {
        let a = self.spec_to_bytes();
        let b = other.spec_to_bytes();
        assert(a[0] == self.fis_type && b[0] == other.fis_type);
        assert(a[1] == self.pmport_i && b[1] == other.pmport_i);
        assert(a[2] == self.status && b[2] == other.status);
        assert(a[3] == self.error && b[3] == other.error);
        assert(a[4] == self.lba0 && b[4] == other.lba0);
        assert(a[5] == self.lba1 && b[5] == other.lba1);
        assert(a[6] == self.lba2 && b[6] == other.lba2);
        assert(a[7] == self.device && b[7] == other.device);
        assert(a[8] == self.lba3 && b[8] == other.lba3);
        assert(a[9] == self.lba4 && b[9] == other.lba4);
        assert(a[10] == self.lba5 && b[10] == other.lba5);
        assert(a[11] == self.rsv2 && b[11] == other.rsv2);
        assert(a[12] == self.countl && b[12] == other.countl);
        assert(a[13] == self.counth && b[13] == other.counth);
        assert(a[14] == self.rsv3[0] && b[14] == other.rsv3[0]);
        assert(a[15] == self.rsv3[1] && b[15] == other.rsv3[1]);
        assert(self.rsv3 =~= other.rsv3);
        assert(a[16] == self.rsv4[0] && b[16] == other.rsv4[0]);
        assert(a[17] == self.rsv4[1] && b[17] == other.rsv4[1]);
        assert(a[18] == self.rsv4[2] && b[18] == other.rsv4[2]);
        assert(a[19] == self.rsv4[3] && b[19] == other.rsv4[3]);
        assert(self.rsv4 =~= other.rsv4);
    }
}

/// Data FIS: carries payload in either direction. The record holds the
/// header and the first payload word.
#[derive(Debug, Clone, Copy)]
pub struct FisData {
    /// FIS_TYPE_DATA
    pub fis_type: u8,
    /// Port multiplier [7:4], reserved [3:0]
    pub pmport: u8,
    /// Reserved
    pub rsv1: [u8; 2],
    /// Payload, first word
    pub data: [u32; 1],
}

impl FisData {
    /// Length of the frame in bytes.
    pub const SIZE: usize = 8;

    /// The frame in memory: every field in declaration order, multi-byte
    /// fields least significant byte first, nothing between them.
    pub open spec fn spec_to_bytes(self) -> Seq<u8> {
        seq![self.fis_type, self.pmport, self.rsv1[0], self.rsv1[1]]
            + spec_u32_to_le_bytes(self.data[0])
    }

    /// Writes the frame out.
    pub fn to_bytes(&self) -> (bytes: Vec<u8>)
        ensures
            bytes@ == self.spec_to_bytes(),
            bytes@.len() == Self::SIZE,
    {
        proof {
            lemma_le_lengths();
        }
        let mut bytes: Vec<u8> = Vec::new();
        bytes.push(self.fis_type);
        bytes.push(self.pmport);
        bytes.push(self.rsv1[0]);
        bytes.push(self.rsv1[1]);
        let mut word0: Vec<u8> = u32_to_le_bytes(self.data[0]);
        bytes.append(&mut word0);
        assert(bytes@ =~= self.spec_to_bytes());
        bytes
    }

    /// Reads a frame: there is one exactly when `bytes` has the frame's
    /// length, and it is the frame that writes out as `bytes`.
    pub fn from_bytes(bytes: &[u8]) -> (frame: Option<FisData>)
        ensures
            frame is Some <==> bytes@.len() == Self::SIZE,
            frame matches Some(f) ==> f.spec_to_bytes() == bytes@,
    {
        if bytes.len() != Self::SIZE {
            return None;
        }
        proof {
            lemma_le_lengths();
        }
        let f = FisData {
            fis_type: bytes[0],
            pmport: bytes[1],
            rsv1: [bytes[2], bytes[3]],
            data: [u32_from_le_bytes(slice_subrange(bytes, 4, 8))],
        };
        assert(spec_u32_to_le_bytes(f.data[0]) == bytes@.subrange(4, 8));
        assert(f.spec_to_bytes() =~= bytes@);
        Some(f)
    }

    /// Two frames that write out alike are the same frame.
    pub proof fn lemma_bytes_determine_fields(self, other: FisData)
        requires
            self.spec_to_bytes() == other.spec_to_bytes(),
        ensures
            self == other,
    {
        lemma_le_lengths();
        let a = self.spec_to_bytes();
        let b = other.spec_to_bytes();
        assert(a[0] == self.fis_type && b[0] == other.fis_type);
        assert(a[1] == self.pmport && b[1] == other.pmport);
        assert(a[2] == self.rsv1[0] && b[2] == other.rsv1[0]);
        assert(a[3] == self.rsv1[1] && b[3] == other.rsv1[1]);
        assert(self.rsv1 =~= other.rsv1);
        assert(a.subrange(4, 8) =~= spec_u32_to_le_bytes(self.data[0]));
        assert(b.subrange(4, 8) =~= spec_u32_to_le_bytes(other.data[0]));
        assert(self.data[0] == other.data[0]);
        assert(self.data =~= other.data);
    }
}

/// PIO setup FIS, device to host: announces a PIO data transfer.
#[derive(Debug, Clone, Copy)]
pub struct FisPioSetup {
    /// FIS_TYPE_PIO_SETUP
    pub fis_type: u8,
    /// Port multiplier [7:4], reserved [3], data transfer direction [2], interrupt [1], reserved [0]
    pub pmport_flags: u8,
    /// Status register
    pub status: u8,
    /// Error register
    pub error: u8,
    /// LBA low register, 7:0
    pub lba0: u8,
    /// LBA mid register, 15:8
    pub lba1: u8,
    /// LBA high register, 23:16
    pub lba2: u8,
    /// Device register
    pub device: u8,
    /// LBA register, 31:24
    pub lba3: u8,
    /// LBA register, 39:32
    pub lba4: u8,
    /// LBA register, 47:40
    pub lba5: u8,
    /// Reserved
    pub rsv2: u8,
    /// Count register, 7:0
    pub countl: u8,
    /// Count register, 15:8
    pub counth: u8,
    /// Reserved
    pub rsv3: u8,
    /// New value of status register
    pub e_status: u8,
    /// Transfer count
    pub tc: u16,
    /// Reserved
    pub rsv4: [u8; 2],
}

impl FisPioSetup {
    /// Length of the frame in bytes.
    pub const SIZE: usize = 20;

    /// The frame in memory: every field in declaration order, multi-byte
    /// fields least significant byte first, nothing between them.
    pub open spec fn spec_to_bytes(self) -> Seq<u8> {
        seq![self.fis_type, self.pmport_flags, self.status, self.error, self.lba0, self.lba1, self.lba2, self.device, self.lba3, self.lba4, self.lba5, self.rsv2, self.countl, self.counth, self.rsv3, self.e_status]
            + spec_u16_to_le_bytes(self.tc)
            + seq![self.rsv4[0], self.rsv4[1]]
    }

    /// Writes the frame out.
    pub fn to_bytes(&self) -> (bytes: Vec<u8>)
        ensures
            bytes@ == self.spec_to_bytes(),
            bytes@.len() == Self::SIZE,
    {
        proof {
            lemma_le_lengths();
        }
        let mut bytes: Vec<u8> = Vec::new();
        bytes.push(self.fis_type);
        bytes.push(self.pmport_flags);
        bytes.push(self.status);
        bytes.push(self.error);
        bytes.push(self.lba0);
        bytes.push(self.lba1);
        bytes.push(self.lba2);
        bytes.push(self.device);
        bytes.push(self.lba3);
        bytes.push(self.lba4);
        bytes.push(self.lba5);
        bytes.push(self.rsv2);
        bytes.push(self.countl);
        bytes.push(self.counth);
        bytes.push(self.rsv3);
        bytes.push(self.e_status);
        let mut word0: Vec<u8> = u16_to_le_bytes(self.tc);
        bytes.append(&mut word0);
        bytes.push(self.rsv4[0]);
        bytes.push(self.rsv4[1]);
        assert(bytes@ =~= self.spec_to_bytes());
        bytes
    }

    /// Reads a frame: there is one exactly when `bytes` has the frame's
    /// length, and it is the frame that writes out as `bytes`.
    pub fn from_bytes(bytes: &[u8]) -> (frame: Option<FisPioSetup>)
        ensures
            frame is Some <==> bytes@.len() == Self::SIZE,
            frame matches Some(f) ==> f.spec_to_bytes() == bytes@,
    {
        if bytes.len() != Self::SIZE {
            return None;
        }
        proof {
            lemma_le_lengths();
        }
        let f = FisPioSetup {
            fis_type: bytes[0],
            pmport_flags: bytes[1],
            status: bytes[2],
            error: bytes[3],
            lba0: bytes[4],
            lba1: bytes[5],
            lba2: bytes[6],
            device: bytes[7],
            lba3: bytes[8],
            lba4: bytes[9],
            lba5: bytes[10],
            rsv2: bytes[11],
            countl: bytes[12],
            counth: bytes[13],
            rsv3: bytes[14],
            e_status: bytes[15],
            tc: u16_from_le_bytes(slice_subrange(bytes, 16, 18)),
            rsv4: [bytes[18], bytes[19]],
        };
        assert(spec_u16_to_le_bytes(f.tc) == bytes@.subrange(16, 18));
        assert(f.spec_to_bytes() =~= bytes@);
        Some(f)
    }

    /// Two frames that write out alike are the same frame.
    pub proof fn lemma_bytes_determine_fields(self, other: FisPioSetup)
        requires
            self.spec_to_bytes() == other.spec_to_bytes(),
        ensures
            self == other,
    {
        lemma_le_lengths();
        let a = self.spec_to_bytes();
        let b = other.spec_to_bytes();
        assert(a[0] == self.fis_type && b[0] == other.fis_type);
        assert(a[1] == self.pmport_flags && b[1] == other.pmport_flags);
        assert(a[2] == self.status && b[2] == other.status);
        assert(a[3] == self.error && b[3] == other.error);
        assert(a[4] == self.lba0 && b[4] == other.lba0);
        assert(a[5] == self.lba1 && b[5] == other.lba1);
        assert(a[6] == self.lba2 && b[6] == other.lba2);
        assert(a[7] == self.device && b[7] == other.device);
        assert(a[8] == self.lba3 && b[8] == other.lba3);
        assert(a[9] == self.lba4 && b[9] == other.lba4);
        assert(a[10] == self.lba5 && b[10] == other.lba5);
        assert(a[11] == self.rsv2 && b[11] == other.rsv2);
        assert(a[12] == self.countl && b[12] == other.countl);
        assert(a[13] == self.counth && b[13] == other.counth);
        assert(a[14] == self.rsv3 && b[14] == other.rsv3);
        assert(a[15] == self.e_status && b[15] == other.e_status);
        assert(a.subrange(16, 18) =~= spec_u16_to_le_bytes(self.tc));
        assert(b.subrange(16, 18) =~= spec_u16_to_le_bytes(other.tc));
        assert(self.tc == other.tc);
        assert(a[18] == self.rsv4[0] && b[18] == other.rsv4[0]);
        assert(a[19] == self.rsv4[1] && b[19] == other.rsv4[1]);
        assert(self.rsv4 =~= other.rsv4);
    }
}

/// DMA setup FIS: announces a first-party DMA transfer.
#[derive(Debug, Clone, Copy)]
pub struct FisDmaSetup {
    /// FIS_TYPE_DMA_SETUP
    pub fis_type: u8,
    /// Port multiplier [7:4], reserved [3], data transfer direction [2], interrupt [1], auto-activate [0]
    pub pmport_flags: u8,
    /// Reserved
    pub rsved: [u8; 2],
    /// DMA buffer identifier
    pub dma_buffer_id: u64,
    /// Reserved
    pub rsvd: u32,
    /// Byte offset into the buffer; the low two bits are zero
    pub dma_buf_offset: u32,
    /// Number of bytes to transfer; bit 0 is zero
    pub transfer_count: u32,
    /// Reserved
    pub resvd: u32,
}

impl FisDmaSetup {
    /// Length of the frame in bytes.
    pub const SIZE: usize = 28;

    /// The frame in memory: every field in declaration order, multi-byte
    /// fields least significant byte first, nothing between them.
    pub open spec fn spec_to_bytes(self) -> Seq<u8> {
        seq![self.fis_type, self.pmport_flags, self.rsved[0], self.rsved[1]]
            + spec_u64_to_le_bytes(self.dma_buffer_id)
            + spec_u32_to_le_bytes(self.rsvd)
            + spec_u32_to_le_bytes(self.dma_buf_offset)
            + spec_u32_to_le_bytes(self.transfer_count)
            + spec_u32_to_le_bytes(self.resvd)
    }

    /// Writes the frame out.
    pub fn to_bytes(&self) -> (bytes: Vec<u8>)
        ensures
            bytes@ == self.spec_to_bytes(),
            bytes@.len() == Self::SIZE,
    {
        proof {
            lemma_le_lengths();
        }
        let mut bytes: Vec<u8> = Vec::new();
        bytes.push(self.fis_type);
        bytes.push(self.pmport_flags);
        bytes.push(self.rsved[0]);
        bytes.push(self.rsved[1]);
        let mut word0: Vec<u8> = u64_to_le_bytes(self.dma_buffer_id);
        bytes.append(&mut word0);
        let mut word1: Vec<u8> = u32_to_le_bytes(self.rsvd);
        bytes.append(&mut word1);
        let mut word2: Vec<u8> = u32_to_le_bytes(self.dma_buf_offset);
        bytes.append(&mut word2);
        let mut word3: Vec<u8> = u32_to_le_bytes(self.transfer_count);
        bytes.append(&mut word3);
        let mut word4: Vec<u8> = u32_to_le_bytes(self.resvd);
        bytes.append(&mut word4);
        assert(bytes@ =~= self.spec_to_bytes());
        bytes
    }

    /// Reads a frame: there is one exactly when `bytes` has the frame's
    /// length, and it is the frame that writes out as `bytes`.
    pub fn from_bytes(bytes: &[u8]) -> (frame: Option<FisDmaSetup>)
        ensures
            frame is Some <==> bytes@.len() == Self::SIZE,
            frame matches Some(f) ==> f.spec_to_bytes() == bytes@,
    {
        if bytes.len() != Self::SIZE {
            return None;
        }
        proof {
            lemma_le_lengths();
        }
        let f = FisDmaSetup {
            fis_type: bytes[0],
            pmport_flags: bytes[1],
            rsved: [bytes[2], bytes[3]],
            dma_buffer_id: u64_from_le_bytes(slice_subrange(bytes, 4, 12)),
            rsvd: u32_from_le_bytes(slice_subrange(bytes, 12, 16)),
            dma_buf_offset: u32_from_le_bytes(slice_subrange(bytes, 16, 20)),
            transfer_count: u32_from_le_bytes(slice_subrange(bytes, 20, 24)),
            resvd: u32_from_le_bytes(slice_subrange(bytes, 24, 28)),
        };
        assert(spec_u64_to_le_bytes(f.dma_buffer_id) == bytes@.subrange(4, 12));
        assert(spec_u32_to_le_bytes(f.rsvd) == bytes@.subrange(12, 16));
        assert(spec_u32_to_le_bytes(f.dma_buf_offset) == bytes@.subrange(16, 20));
        assert(spec_u32_to_le_bytes(f.transfer_count) == bytes@.subrange(20, 24));
        assert(spec_u32_to_le_bytes(f.resvd) == bytes@.subrange(24, 28));
        assert(f.spec_to_bytes() =~= bytes@);
        Some(f)
    }

    /// Two frames that write out alike are the same frame.
    pub proof fn lemma_bytes_determine_fields(self, other: FisDmaSetup)
        requires
            self.spec_to_bytes() == other.spec_to_bytes(),
        ensures
            self == other,
    {
        lemma_le_lengths();
        let a = self.spec_to_bytes();
        let b = other.spec_to_bytes();
        assert(a[0] == self.fis_type && b[0] == other.fis_type);
        assert(a[1] == self.pmport_flags && b[1] == other.pmport_flags);
        assert(a[2] == self.rsved[0] && b[2] == other.rsved[0]);
        assert(a[3] == self.rsved[1] && b[3] == other.rsved[1]);
        assert(self.rsved =~= other.rsved);
        assert(a.subrange(4, 12) =~= spec_u64_to_le_bytes(self.dma_buffer_id));
        assert(b.subrange(4, 12) =~= spec_u64_to_le_bytes(other.dma_buffer_id));
        assert(self.dma_buffer_id == other.dma_buffer_id);
        assert(a.subrange(12, 16) =~= spec_u32_to_le_bytes(self.rsvd));
        assert(b.subrange(12, 16) =~= spec_u32_to_le_bytes(other.rsvd));
        assert(self.rsvd == other.rsvd);
        assert(a.subrange(16, 20) =~= spec_u32_to_le_bytes(self.dma_buf_offset));
        assert(b.subrange(16, 20) =~= spec_u32_to_le_bytes(other.dma_buf_offset));
        assert(self.dma_buf_offset == other.dma_buf_offset);
        assert(a.subrange(20, 24) =~= spec_u32_to_le_bytes(self.transfer_count));
        assert(b.subrange(20, 24) =~= spec_u32_to_le_bytes(other.transfer_count));
        assert(self.transfer_count == other.transfer_count);
        assert(a.subrange(24, 28) =~= spec_u32_to_le_bytes(self.resvd));
        assert(b.subrange(24, 28) =~= spec_u32_to_le_bytes(other.resvd));
        assert(self.resvd == other.resvd);
    }
}

/// Copies `N` bytes out of `bytes`, from position `at` on.
pub fn read_array<const N: usize>(bytes: &[u8], at: usize) -> (out: [u8; N])
    requires
        at + N <= bytes@.len(),
    ensures
        out@ == bytes@.subrange(at as int, at + N),
{
    let len: usize = bytes.len();
    let mut out: [u8; N] = [0u8; N];
    let mut i: usize = 0;
    while i < N
        invariant
            i <= N,
            at + N <= len,
            len == bytes@.len(),
            forall|j: int| 0 <= j < i ==> out@[j] == bytes@[at + j],
        decreases N - i,
    {
        out[i] = bytes[at + i];
        i += 1;
    }
    assert(out@ =~= bytes@.subrange(at as int, at + N));
    out
}

} // verus!
