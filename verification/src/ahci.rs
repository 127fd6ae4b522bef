//! AHCI host bus adapter: register images, port classification and the
//! command engine's start and stop steps.
//!
//! The types here are images of the registers: plain values that were read
//! from the adapter's memory window, or that are about to be written to it.

use vstd::prelude::*;
use vstd::bytes::{
    spec_u16_to_le_bytes, spec_u32_to_le_bytes, u16_from_le_bytes, u16_to_le_bytes,
    u32_from_le_bytes, u32_to_le_bytes,
};
use vstd::slice::slice_subrange;
use crate::fis::{lemma_le_lengths, read_array, FisDmaSetup, FisPioSetup, FisRegD2H};

verus! {

/// Interface power management value of a link that is active.
pub const HBA_PORT_IPM_ACTIVE: u8 = 1;

/// Device detection value of a link with a device present and established.
pub const HBA_PORT_DET_PRESENT: u8 = 3;

/// Command register: start processing the command list.
pub const HBA_PXCMD_ST: u32 = 0x0001;

/// Command register: FIS receive enable.
pub const HBA_PXCMD_FRE: u32 = 0x0010;

/// Command register: FIS receive running.
pub const HBA_PXCMD_FR: u32 = 0x4000;

/// Command register: command list running.
pub const HBA_PXCMD_CR: u32 = 0x8000;

/// Number of port slots in the adapter's register block.
pub const HBA_PORT_COUNT: usize = 32;

/// The signature a device leaves in a port's signature register.
#[derive(Debug, Clone, Copy, PartialEq, Eq, Structural)]
pub enum DeviceSignature {
    Ata,
    Atapi,
    Semb,
    Pm,
    Invalid,
}

impl DeviceSignature {
    /// The register value of a signature.
    pub open spec fn spec_value(self) -> u32 {
        match self {
            DeviceSignature::Ata => 0x00000101,
            DeviceSignature::Atapi => 0xEB140101,
            DeviceSignature::Semb => 0xC33C0101,
            DeviceSignature::Pm => 0x96690101,
            DeviceSignature::Invalid => 0x00000000,
        }
    }

    /// The signature that a register value stands for; every value that is
    /// none of the four device signatures is invalid.
    pub open spec fn spec_from_register(sig: u32) -> DeviceSignature {
        if sig == 0x00000101 {
            DeviceSignature::Ata
        } else if sig == 0xEB140101 {
            DeviceSignature::Atapi
        } else if sig == 0xC33C0101 {
            DeviceSignature::Semb
        } else if sig == 0x96690101 {
            DeviceSignature::Pm
        } else {
            DeviceSignature::Invalid
        }
    }

    /// The register value of this signature.
    pub fn value(self) -> (v: u32)
        ensures
            v == self.spec_value(),
    {
        match self {
            DeviceSignature::Ata => 0x00000101,
            DeviceSignature::Atapi => 0xEB140101,
            DeviceSignature::Semb => 0xC33C0101,
            DeviceSignature::Pm => 0x96690101,
            DeviceSignature::Invalid => 0x00000000,
        }
    }

    /// Reads a signature register.
    pub fn from_register(sig: u32) -> (d: DeviceSignature)
        ensures
            d == Self::spec_from_register(sig),
    {
        if sig == 0x00000101 {
            DeviceSignature::Ata
        } else if sig == 0xEB140101 {
            DeviceSignature::Atapi
        } else if sig == 0xC33C0101 {
            DeviceSignature::Semb
        } else if sig == 0x96690101 {
            DeviceSignature::Pm
        } else {
            DeviceSignature::Invalid
        }
    }
}

/// What is attached to a port. `Null` is a port with nothing usable on it.
#[derive(Debug, Clone, Copy, PartialEq, Eq, Structural)]
pub enum PortSignature {
    Null,
    Sata,
    Semb,
    Pm,
    Satapi,
}

impl PortSignature {
    /// The number of a port kind.
    pub open spec fn spec_value(self) -> u32 {
        match self {
            PortSignature::Null => 0,
            PortSignature::Sata => 1,
            PortSignature::Semb => 2,
            PortSignature::Pm => 3,
            PortSignature::Satapi => 4,
        }
    }

    /// The port kind with a given number; numbers without a kind are `Null`.
    pub open spec fn spec_from_value(value: u32) -> PortSignature {
        if value == 1 {
            PortSignature::Sata
        } else if value == 2 {
            PortSignature::Semb
        } else if value == 3 {
            PortSignature::Pm
        } else if value == 4 {
            PortSignature::Satapi
        } else {
            PortSignature::Null
        }
    }

    /// The port kind that a device signature announces.
    pub open spec fn spec_of_device(device: DeviceSignature) -> PortSignature {
        match device {
            DeviceSignature::Ata => PortSignature::Sata,
            DeviceSignature::Atapi => PortSignature::Satapi,
            DeviceSignature::Semb => PortSignature::Semb,
            DeviceSignature::Pm => PortSignature::Pm,
            DeviceSignature::Invalid => PortSignature::Null,
        }
    }

    /// The number of this port kind.
    pub fn value(self) -> (v: u32)
        ensures
            v == self.spec_value(),
    {
        match self {
            PortSignature::Null => 0,
            PortSignature::Sata => 1,
            PortSignature::Semb => 2,
            PortSignature::Pm => 3,
            PortSignature::Satapi => 4,
        }
    }

    /// The port kind that a device signature announces.
    pub fn of_device(device: DeviceSignature) -> (p: PortSignature)
        ensures
            p == Self::spec_of_device(device),
    {
        match device {
            DeviceSignature::Ata => PortSignature::Sata,
            DeviceSignature::Atapi => PortSignature::Satapi,
            DeviceSignature::Semb => PortSignature::Semb,
            DeviceSignature::Pm => PortSignature::Pm,
            DeviceSignature::Invalid => PortSignature::Null,
        }
    }
}

impl From<u32> for PortSignature {
    fn from(value: u32) -> (p: PortSignature) {
        match value {
            0 => PortSignature::Null,
            1 => PortSignature::Sata,
            2 => PortSignature::Semb,
            3 => PortSignature::Pm,
            4 => PortSignature::Satapi,
            _ => PortSignature::Null,
        }
    }
}

impl vstd::std_specs::convert::FromSpecImpl<u32> for PortSignature {
    open spec fn obeys_from_spec() -> bool {
        true
    }

    open spec fn from_spec(value: u32) -> PortSignature {
        PortSignature::spec_from_value(value)
    }
}

/// Registers of one port, in the order of the register block.
#[derive(Debug, Clone, Copy)]
pub struct HbaPort {
    /// 0x00, command list base address, 1K-byte aligned
    pub clb: u32,
    /// 0x04, command list base address upper 32 bits
    pub clbu: u32,
    /// 0x08, FIS base address, 256-byte aligned
    pub fb: u32,
    /// 0x0C, FIS base address upper 32 bits
    pub fbu: u32,
    /// 0x10, interrupt status
    pub is: u32,
    /// 0x14, interrupt enable
    pub ie: u32,
    /// 0x18, command and status
    pub cmd: u32,
    /// 0x1C, reserved
    pub rsv0: u32,
    /// 0x20, task file data
    pub tfd: u32,
    /// 0x24, signature
    pub sig: u32,
    /// 0x28, SATA status (SCR0:SStatus)
    pub ssts: u32,
    /// 0x2C, SATA control (SCR2:SControl)
    pub sctl: u32,
    /// 0x30, SATA error (SCR1:SError)
    pub serr: u32,
    /// 0x34, SATA active (SCR3:SActive)
    pub sact: u32,
    /// 0x38, command issue
    pub ci: u32,
    /// 0x3C, SATA notification (SCR4:SNotification)
    pub sntf: u32,
    /// 0x40, FIS-based switch control
    pub fbs: u32,
    /// 0x44 ~ 0x6F, reserved
    pub rsv1: [u32; 11],
    /// 0x70 ~ 0x7F, vendor specific
    pub vendor: [u32; 4],
}

impl HbaPort {
    /// Number of 32-bit registers of a port.
    pub const WORDS: usize = 32;

    /// The port's registers as they stand in the register block, lowest
    /// address first.
    pub open spec fn spec_to_words(self) -> Seq<u32> {
        seq![
            self.clb,
            self.clbu,
            self.fb,
            self.fbu,
            self.is,
            self.ie,
            self.cmd,
            self.rsv0,
            self.tfd,
            self.sig,
            self.ssts,
            self.sctl,
            self.serr,
            self.sact,
            self.ci,
            self.sntf,
            self.fbs,
            self.rsv1[0],
            self.rsv1[1],
            self.rsv1[2],
            self.rsv1[3],
            self.rsv1[4],
            self.rsv1[5],
            self.rsv1[6],
            self.rsv1[7],
            self.rsv1[8],
            self.rsv1[9],
            self.rsv1[10],
            self.vendor[0],
            self.vendor[1],
            self.vendor[2],
            self.vendor[3],
        ]
    }

    /// A port with every register zero.
    pub fn zeroed() -> (port: HbaPort)
        ensures
            port.spec_to_words() == Seq::new(32, |i: int| 0u32),
    {
        let port = HbaPort {
            clb: 0,
            clbu: 0,
            fb: 0,
            fbu: 0,
            is: 0,
            ie: 0,
            cmd: 0,
            rsv0: 0,
            tfd: 0,
            sig: 0,
            ssts: 0,
            sctl: 0,
            serr: 0,
            sact: 0,
            ci: 0,
            sntf: 0,
            fbs: 0,
            rsv1: [0u32; 11],
            vendor: [0u32; 4],
        };
        assert(port.spec_to_words() =~= Seq::new(32, |i: int| 0u32));
        port
    }

    /// Writes the registers out, lowest address first.
    pub fn to_words(&self) -> (words: Vec<u32>)
        ensures
            words@ == self.spec_to_words(),
    {
        let mut words: Vec<u32> = Vec::new();
        words.push(self.clb);
        words.push(self.clbu);
        words.push(self.fb);
        words.push(self.fbu);
        words.push(self.is);
        words.push(self.ie);
        words.push(self.cmd);
        words.push(self.rsv0);
        words.push(self.tfd);
        words.push(self.sig);
        words.push(self.ssts);
        words.push(self.sctl);
        words.push(self.serr);
        words.push(self.sact);
        words.push(self.ci);
        words.push(self.sntf);
        words.push(self.fbs);
        words.push(self.rsv1[0]);
        words.push(self.rsv1[1]);
        words.push(self.rsv1[2]);
        words.push(self.rsv1[3]);
        words.push(self.rsv1[4]);
        words.push(self.rsv1[5]);
        words.push(self.rsv1[6]);
        words.push(self.rsv1[7]);
        words.push(self.rsv1[8]);
        words.push(self.rsv1[9]);
        words.push(self.rsv1[10]);
        words.push(self.vendor[0]);
        words.push(self.vendor[1]);
        words.push(self.vendor[2]);
        words.push(self.vendor[3]);
        assert(words@ =~= self.spec_to_words());
        words
    }

    /// Reads a port from its registers: there is one exactly when `words`
    /// holds all 32 registers, and it is the port that writes out as `words`.
    pub fn from_words(words: &[u32]) -> (port: Option<HbaPort>)
        ensures
            port is Some <==> words@.len() == Self::WORDS,
            port matches Some(p) ==> p.spec_to_words() == words@,
    {
        if words.len() != Self::WORDS {
            return None;
        }
        Some(Self::read_words(words))
    }

    /// Reads a port from all of its 32 registers.
    fn read_words(words: &[u32]) -> (p: HbaPort)
        requires
            words@.len() == Self::WORDS,
        ensures
            p.spec_to_words() == words@,
    {
        let p = HbaPort {
            clb: words[0],
            clbu: words[1],
            fb: words[2],
            fbu: words[3],
            is: words[4],
            ie: words[5],
            cmd: words[6],
            rsv0: words[7],
            tfd: words[8],
            sig: words[9],
            ssts: words[10],
            sctl: words[11],
            serr: words[12],
            sact: words[13],
            ci: words[14],
            sntf: words[15],
            fbs: words[16],
            rsv1: [words[17], words[18], words[19], words[20], words[21], words[22], words[23], words[24], words[25], words[26], words[27]],
            vendor: [words[28], words[29], words[30], words[31]],
        };
        assert(p.spec_to_words() =~= words@);
        p
    }

    /// Two ports whose registers write out alike are the same port.
    pub proof fn lemma_words_determine_fields(self, other: HbaPort)
        requires
            self.spec_to_words() == other.spec_to_words(),
        ensures
            self == other,
    {
        let a = self.spec_to_words();
        let b = other.spec_to_words();
        assert(a[0] == self.clb && b[0] == other.clb);
        assert(a[1] == self.clbu && b[1] == other.clbu);
        assert(a[2] == self.fb && b[2] == other.fb);
        assert(a[3] == self.fbu && b[3] == other.fbu);
        assert(a[4] == self.is && b[4] == other.is);
        assert(a[5] == self.ie && b[5] == other.ie);
        assert(a[6] == self.cmd && b[6] == other.cmd);
        assert(a[7] == self.rsv0 && b[7] == other.rsv0);
        assert(a[8] == self.tfd && b[8] == other.tfd);
        assert(a[9] == self.sig && b[9] == other.sig);
        assert(a[10] == self.ssts && b[10] == other.ssts);
        assert(a[11] == self.sctl && b[11] == other.sctl);
        assert(a[12] == self.serr && b[12] == other.serr);
        assert(a[13] == self.sact && b[13] == other.sact);
        assert(a[14] == self.ci && b[14] == other.ci);
        assert(a[15] == self.sntf && b[15] == other.sntf);
        assert(a[16] == self.fbs && b[16] == other.fbs);
        assert(a[17] == self.rsv1[0] && b[17] == other.rsv1[0]);
        assert(a[18] == self.rsv1[1] && b[18] == other.rsv1[1]);
        assert(a[19] == self.rsv1[2] && b[19] == other.rsv1[2]);
        assert(a[20] == self.rsv1[3] && b[20] == other.rsv1[3]);
        assert(a[21] == self.rsv1[4] && b[21] == other.rsv1[4]);
        assert(a[22] == self.rsv1[5] && b[22] == other.rsv1[5]);
        assert(a[23] == self.rsv1[6] && b[23] == other.rsv1[6]);
        assert(a[24] == self.rsv1[7] && b[24] == other.rsv1[7]);
        assert(a[25] == self.rsv1[8] && b[25] == other.rsv1[8]);
        assert(a[26] == self.rsv1[9] && b[26] == other.rsv1[9]);
        assert(a[27] == self.rsv1[10] && b[27] == other.rsv1[10]);
        assert(self.rsv1 =~= other.rsv1);
        assert(a[28] == self.vendor[0] && b[28] == other.vendor[0]);
        assert(a[29] == self.vendor[1] && b[29] == other.vendor[1]);
        assert(a[30] == self.vendor[2] && b[30] == other.vendor[2]);
        assert(a[31] == self.vendor[3] && b[31] == other.vendor[3]);
        assert(self.vendor =~= other.vendor);
    }
}


/// Registers of the adapter, in the order of the register block.
#[derive(Debug)]
pub struct HbaMem {
    /// 0x00, host capability
    pub cap: u32,
    /// 0x04, global host control
    pub ghc: u32,
    /// 0x08, interrupt status
    pub is: u32,
    /// 0x0C, ports implemented
    pub pi: u32,
    /// 0x10, version
    pub vs: u32,
    /// 0x14, command completion coalescing control
    pub ccc_ctl: u32,
    /// 0x18, command completion coalescing ports
    pub ccc_pts: u32,
    /// 0x1C, enclosure management location
    pub em_loc: u32,
    /// 0x20, enclosure management control
    pub em_ctl: u32,
    /// 0x24, host capabilities extended
    pub cap2: u32,
    /// 0x28, BIOS/OS handoff control and status
    pub bohc: u32,
    /// 0x2C - 0x9F, reserved
    pub rsv: [u8; 116],
    /// 0xA0 - 0xFF, vendor specific registers
    pub vendor: [u8; 96],
    /// 0x100 - 0x10FF, port control registers
    pub ports: [HbaPort; 32],
}

impl HbaMem {
    /// Number of 32-bit words of the register block.
    pub const WORDS: usize = 1088;

    /// Whether `self` is the register block that reads as `words`, lowest
    /// address first: eleven host registers, the reserved and the vendor
    /// specific bytes, and from byte 0x100 on the registers of the 32 ports.
    pub open spec fn matches_words(self, words: Seq<u32>) -> bool {
        &&& words.len() == Self::WORDS
        &&& self.cap == words[0]
        &&& self.ghc == words[1]
        &&& self.is == words[2]
        &&& self.pi == words[3]
        &&& self.vs == words[4]
        &&& self.ccc_ctl == words[5]
        &&& self.ccc_pts == words[6]
        &&& self.em_loc == words[7]
        &&& self.em_ctl == words[8]
        &&& self.cap2 == words[9]
        &&& self.bohc == words[10]
        &&& forall|k: int|
            0 <= k < 29 ==> #[trigger] self.rsv@.subrange(4 * k, 4 * k + 4)
                == spec_u32_to_le_bytes(words[11 + k])
        &&& forall|k: int|
            0 <= k < 24 ==> #[trigger] self.vendor@.subrange(4 * k, 4 * k + 4)
                == spec_u32_to_le_bytes(words[40 + k])
        &&& forall|i: int|
            0 <= i < 32 ==> #[trigger] self.ports[i].spec_to_words() == words.subrange(
                64 + 32 * i,
                96 + 32 * i,
            )
    }

    /// Reads a register block: there is one exactly when `words` holds the
    /// whole block, and it is the block that reads as `words`.
    pub fn from_words(words: &[u32]) -> (abar: Option<HbaMem>)
        ensures
            abar is Some <==> words@.len() == Self::WORDS,
            abar matches Some(m) ==> m.matches_words(words@),
    {
        if words.len() != Self::WORDS {
            return None;
        }
        proof {
            lemma_le_lengths();
        }
        let mut rsv: [u8; 116] = [0u8; 116];
        let mut k: usize = 0;
        while k < 29
            invariant
                k <= 29,
                words@.len() == Self::WORDS,
                forall|j: int|
                    0 <= j < k ==> #[trigger] rsv@.subrange(4 * j, 4 * j + 4)
                        == spec_u32_to_le_bytes(words@[11 + j]),
            decreases 29 - k,
        {
            proof {
                lemma_le_lengths();
            }
            let ghost before = rsv@;
            let bytes: Vec<u8> = u32_to_le_bytes(words[11 + k]);
            rsv[4 * k] = bytes[0];
            rsv[4 * k + 1] = bytes[1];
            rsv[4 * k + 2] = bytes[2];
            rsv[4 * k + 3] = bytes[3];
            assert(rsv@.subrange(4 * k as int, 4 * k + 4) =~= bytes@);
            assert forall|j: int| 0 <= j < k implies #[trigger] rsv@.subrange(4 * j, 4 * j + 4)
                == spec_u32_to_le_bytes(words@[11 + j]) by {
                assert(rsv@.subrange(4 * j, 4 * j + 4) =~= before.subrange(4 * j, 4 * j + 4));
            }
            k += 1;
        }
        let mut vendor: [u8; 96] = [0u8; 96];
        let mut k: usize = 0;
        while k < 24
            invariant
                k <= 24,
                words@.len() == Self::WORDS,
                forall|j: int|
                    0 <= j < k ==> #[trigger] vendor@.subrange(4 * j, 4 * j + 4)
                        == spec_u32_to_le_bytes(words@[40 + j]),
            decreases 24 - k,
        {
            proof {
                lemma_le_lengths();
            }
            let ghost before = vendor@;
            let bytes: Vec<u8> = u32_to_le_bytes(words[40 + k]);
            vendor[4 * k] = bytes[0];
            vendor[4 * k + 1] = bytes[1];
            vendor[4 * k + 2] = bytes[2];
            vendor[4 * k + 3] = bytes[3];
            assert(vendor@.subrange(4 * k as int, 4 * k + 4) =~= bytes@);
            assert forall|j: int|
                0 <= j < k implies #[trigger] vendor@.subrange(4 * j, 4 * j + 4)
                == spec_u32_to_le_bytes(words@[40 + j]) by {
                assert(vendor@.subrange(4 * j, 4 * j + 4) =~= before.subrange(4 * j, 4 * j + 4));
            }
            k += 1;
        }
        let mut ports: [HbaPort; 32] = [HbaPort::zeroed(); 32];
        let mut i: usize = 0;
        while i < 32
            invariant
                i <= 32,
                words@.len() == Self::WORDS,
                forall|j: int|
                    0 <= j < i ==> #[trigger] ports[j].spec_to_words() == words@.subrange(
                        64 + 32 * j,
                        96 + 32 * j,
                    ),
            decreases 32 - i,
        {
            let port: HbaPort = HbaPort::read_words(
                slice_subrange(words, 64 + 32 * i, 96 + 32 * i),
            );
            ports[i] = port;
            i += 1;
        }
        Some(
            HbaMem {
                cap: words[0],
                ghc: words[1],
                is: words[2],
                pi: words[3],
                vs: words[4],
                ccc_ctl: words[5],
                ccc_pts: words[6],
                em_loc: words[7],
                em_ctl: words[8],
                cap2: words[9],
                bohc: words[10],
                rsv,
                vendor,
                ports,
            },
        )
    }

    /// A register block with every register zero.
    pub fn zeroed() -> (abar: HbaMem)
        ensures
            abar.cap == 0,
            abar.ghc == 0,
            abar.is == 0,
            abar.pi == 0,
            abar.vs == 0,
            abar.ccc_ctl == 0,
            abar.ccc_pts == 0,
            abar.em_loc == 0,
            abar.em_ctl == 0,
            abar.cap2 == 0,
            abar.bohc == 0,
            abar.rsv@ == Seq::new(116, |i: int| 0u8),
            abar.vendor@ == Seq::new(96, |i: int| 0u8),
            forall|i: int|
                0 <= i < 32 ==> abar.ports[i].spec_to_words() == Seq::new(32, |k: int| 0u32),
    {
        let abar = HbaMem {
            cap: 0,
            ghc: 0,
            is: 0,
            pi: 0,
            vs: 0,
            ccc_ctl: 0,
            ccc_pts: 0,
            em_loc: 0,
            em_ctl: 0,
            cap2: 0,
            bohc: 0,
            rsv: [0u8; 116],
            vendor: [0u8; 96],
            ports: [HbaPort::zeroed(); 32],
        };
        assert(abar.rsv@ =~= Seq::new(116, |i: int| 0u8));
        assert(abar.vendor@ =~= Seq::new(96, |i: int| 0u8));
        abar
    }
}

/// The area into which a port receives frames from its device.
#[derive(Debug)]
pub struct HbaFis {
    /// 0x00, DMA setup FIS
    pub dsfis: FisDmaSetup,
    pub pad0: [u8; 4],
    /// 0x20, PIO setup FIS
    pub psfis: FisPioSetup,
    pub pad1: [u8; 12],
    /// 0x40, register FIS, device to host
    pub rfis: FisRegD2H,
    pub pad2: [u8; 4],
    /// 0x58, set device bits FIS
    pub sdbfis: [u8; 8],
    /// 0x60, unknown FIS
    pub ufis: [u8; 64],
    /// 0xA0, reserved
    pub rsv: [u8; 96],
}

impl HbaFis {
    /// Length of the area in bytes.
    pub const SIZE: usize = 256;

    /// The area in memory: the DMA setup frame at 0x00, the PIO setup frame
    /// at 0x20, the register frame at 0x40, the set device bits frame at
    /// 0x58, the unknown frame at 0x60 and the reserved bytes from 0xA0 on,
    /// with the padding between them.
    pub open spec fn spec_to_bytes(self) -> Seq<u8> {
        self.dsfis.spec_to_bytes() + self.pad0@ + self.psfis.spec_to_bytes() + self.pad1@
            + self.rfis.spec_to_bytes() + self.pad2@ + self.sdbfis@ + self.ufis@ + self.rsv@
    }

    /// Writes the area out.
    pub fn to_bytes(&self) -> (bytes: Vec<u8>)
        ensures
            bytes@ == self.spec_to_bytes(),
            bytes@.len() == Self::SIZE,
    {
        let mut bytes: Vec<u8> = self.dsfis.to_bytes();
        bytes.extend_from_slice(self.pad0.as_slice());
        let mut psfis: Vec<u8> = self.psfis.to_bytes();
        bytes.append(&mut psfis);
        bytes.extend_from_slice(self.pad1.as_slice());
        let mut rfis: Vec<u8> = self.rfis.to_bytes();
        bytes.append(&mut rfis);
        bytes.extend_from_slice(self.pad2.as_slice());
        bytes.extend_from_slice(self.sdbfis.as_slice());
        bytes.extend_from_slice(self.ufis.as_slice());
        bytes.extend_from_slice(self.rsv.as_slice());
        assert(bytes@ =~= self.spec_to_bytes());
        bytes
    }

    /// Reads an area: there is one exactly when `bytes` has the area's
    /// length, and it is the area that writes out as `bytes`.
    pub fn from_bytes(bytes: &[u8]) -> (area: Option<HbaFis>)
        ensures
            area is Some <==> bytes@.len() == Self::SIZE,
            area matches Some(f) ==> f.spec_to_bytes() == bytes@,
    {
        if bytes.len() != Self::SIZE {
            return None;
        }
        let dsfis: Option<FisDmaSetup> = FisDmaSetup::from_bytes(slice_subrange(bytes, 0, 28));
        let psfis: Option<FisPioSetup> = FisPioSetup::from_bytes(slice_subrange(bytes, 32, 52));
        let rfis: Option<FisRegD2H> = FisRegD2H::from_bytes(slice_subrange(bytes, 64, 84));
        let f = HbaFis {
            dsfis: dsfis.unwrap(),
            pad0: read_array::<4>(bytes, 28),
            psfis: psfis.unwrap(),
            pad1: read_array::<12>(bytes, 52),
            rfis: rfis.unwrap(),
            pad2: read_array::<4>(bytes, 84),
            sdbfis: read_array::<8>(bytes, 88),
            ufis: read_array::<64>(bytes, 96),
            rsv: read_array::<96>(bytes, 160),
        };
        assert(f.spec_to_bytes() =~= bytes@);
        Some(f)
    }

    /// Two areas that write out alike are the same area.
    pub proof fn lemma_bytes_determine_fields(self, other: HbaFis)
        requires
            self.spec_to_bytes() == other.spec_to_bytes(),
        ensures
            self == other,
    {
        let a = self.spec_to_bytes();
        let b = other.spec_to_bytes();
        lemma_le_lengths();
        assert(self.dsfis.spec_to_bytes().len() == 28 && other.dsfis.spec_to_bytes().len() == 28);
        assert(self.psfis.spec_to_bytes().len() == 20 && other.psfis.spec_to_bytes().len() == 20);
        assert(self.rfis.spec_to_bytes().len() == 20 && other.rfis.spec_to_bytes().len() == 20);
        assert(a.subrange(0, 28) =~= self.dsfis.spec_to_bytes());
        assert(b.subrange(0, 28) =~= other.dsfis.spec_to_bytes());
        self.dsfis.lemma_bytes_determine_fields(other.dsfis);
        assert(a.subrange(28, 32) =~= self.pad0@);
        assert(b.subrange(28, 32) =~= other.pad0@);
        assert(self.pad0 =~= other.pad0);
        assert(a.subrange(32, 52) =~= self.psfis.spec_to_bytes());
        assert(b.subrange(32, 52) =~= other.psfis.spec_to_bytes());
        self.psfis.lemma_bytes_determine_fields(other.psfis);
        assert(a.subrange(52, 64) =~= self.pad1@);
        assert(b.subrange(52, 64) =~= other.pad1@);
        assert(self.pad1 =~= other.pad1);
        assert(a.subrange(64, 84) =~= self.rfis.spec_to_bytes());
        assert(b.subrange(64, 84) =~= other.rfis.spec_to_bytes());
        self.rfis.lemma_bytes_determine_fields(other.rfis);
        assert(a.subrange(84, 88) =~= self.pad2@);
        assert(b.subrange(84, 88) =~= other.pad2@);
        assert(self.pad2 =~= other.pad2);
        assert(a.subrange(88, 96) =~= self.sdbfis@);
        assert(b.subrange(88, 96) =~= other.sdbfis@);
        assert(self.sdbfis =~= other.sdbfis);
        assert(a.subrange(96, 160) =~= self.ufis@);
        assert(b.subrange(96, 160) =~= other.ufis@);
        assert(self.ufis =~= other.ufis);
        assert(a.subrange(160, 256) =~= self.rsv@);
        assert(b.subrange(160, 256) =~= other.rsv@);
        assert(self.rsv =~= other.rsv);
    }
}

/// One slot of a port's command list.
#[derive(Debug, Clone, Copy)]
pub struct HbaCmdHeader {
    /// Command FIS length and flags
    pub flags: u16,
    /// Physical region descriptor table length in entries
    pub prdtl: u16,
    /// Physical region descriptor byte count transferred
    pub prdbc: u32,
    /// Command table descriptor base address
    pub ctba: u32,
    /// Command table descriptor base address, upper 32 bits
    pub ctbau: u32,
    /// Reserved
    pub rsv1: [u32; 4],
}

impl HbaCmdHeader {
    /// Length of the record in bytes.
    pub const SIZE: usize = 32;

    /// The record in memory: every field in declaration order, multi-byte
    /// fields least significant byte first, nothing between them.
    pub open spec fn spec_to_bytes(self) -> Seq<u8> {
        spec_u16_to_le_bytes(self.flags)
            + spec_u16_to_le_bytes(self.prdtl)
            + spec_u32_to_le_bytes(self.prdbc)
            + spec_u32_to_le_bytes(self.ctba)
            + spec_u32_to_le_bytes(self.ctbau)
            + spec_u32_to_le_bytes(self.rsv1[0])
            + spec_u32_to_le_bytes(self.rsv1[1])
            + spec_u32_to_le_bytes(self.rsv1[2])
            + spec_u32_to_le_bytes(self.rsv1[3])
    }

    /// Writes the record out.
    pub fn to_bytes(&self) -> (bytes: Vec<u8>)
        ensures
            bytes@ == self.spec_to_bytes(),
            bytes@.len() == Self::SIZE,
    {
        proof {
            lemma_le_lengths();
        }
        let mut bytes: Vec<u8> = Vec::new();
        let mut word0: Vec<u8> = u16_to_le_bytes(self.flags);
        bytes.append(&mut word0);
        let mut word1: Vec<u8> = u16_to_le_bytes(self.prdtl);
        bytes.append(&mut word1);
        let mut word2: Vec<u8> = u32_to_le_bytes(self.prdbc);
        bytes.append(&mut word2);
        let mut word3: Vec<u8> = u32_to_le_bytes(self.ctba);
        bytes.append(&mut word3);
        let mut word4: Vec<u8> = u32_to_le_bytes(self.ctbau);
        bytes.append(&mut word4);
        let mut word5: Vec<u8> = u32_to_le_bytes(self.rsv1[0]);
        bytes.append(&mut word5);
        let mut word6: Vec<u8> = u32_to_le_bytes(self.rsv1[1]);
        bytes.append(&mut word6);
        let mut word7: Vec<u8> = u32_to_le_bytes(self.rsv1[2]);
        bytes.append(&mut word7);
        let mut word8: Vec<u8> = u32_to_le_bytes(self.rsv1[3]);
        bytes.append(&mut word8);
        assert(bytes@ =~= self.spec_to_bytes());
        bytes
    }

    /// Reads a record: there is one exactly when `bytes` has the record's
    /// length, and it is the record that writes out as `bytes`.
    pub fn from_bytes(bytes: &[u8]) -> (record: Option<HbaCmdHeader>)
        ensures
            record is Some <==> bytes@.len() == Self::SIZE,
            record matches Some(f) ==> f.spec_to_bytes() == bytes@,
    {
        if bytes.len() != Self::SIZE {
            return None;
        }
        proof {
            lemma_le_lengths();
        }
        let f = HbaCmdHeader {
            flags: u16_from_le_bytes(slice_subrange(bytes, 0, 2)),
            prdtl: u16_from_le_bytes(slice_subrange(bytes, 2, 4)),
            prdbc: u32_from_le_bytes(slice_subrange(bytes, 4, 8)),
            ctba: u32_from_le_bytes(slice_subrange(bytes, 8, 12)),
            ctbau: u32_from_le_bytes(slice_subrange(bytes, 12, 16)),
            rsv1: [u32_from_le_bytes(slice_subrange(bytes, 16, 20)), u32_from_le_bytes(slice_subrange(bytes, 20, 24)), u32_from_le_bytes(slice_subrange(bytes, 24, 28)), u32_from_le_bytes(slice_subrange(bytes, 28, 32))],
        };
        assert(spec_u16_to_le_bytes(f.flags) == bytes@.subrange(0, 2));
        assert(spec_u16_to_le_bytes(f.prdtl) == bytes@.subrange(2, 4));
        assert(spec_u32_to_le_bytes(f.prdbc) == bytes@.subrange(4, 8));
        assert(spec_u32_to_le_bytes(f.ctba) == bytes@.subrange(8, 12));
        assert(spec_u32_to_le_bytes(f.ctbau) == bytes@.subrange(12, 16));
        assert(spec_u32_to_le_bytes(f.rsv1[0]) == bytes@.subrange(16, 20));
        assert(spec_u32_to_le_bytes(f.rsv1[1]) == bytes@.subrange(20, 24));
        assert(spec_u32_to_le_bytes(f.rsv1[2]) == bytes@.subrange(24, 28));
        assert(spec_u32_to_le_bytes(f.rsv1[3]) == bytes@.subrange(28, 32));
        assert(f.spec_to_bytes() =~= bytes@);
        Some(f)
    }

    /// Two records that write out alike are the same record.
    pub proof fn lemma_bytes_determine_fields(self, other: HbaCmdHeader)
        requires
            self.spec_to_bytes() == other.spec_to_bytes(),
        ensures
            self == other,
    {
        lemma_le_lengths();
        let a = self.spec_to_bytes();
        let b = other.spec_to_bytes();
        assert(a.subrange(0, 2) =~= spec_u16_to_le_bytes(self.flags));
        assert(b.subrange(0, 2) =~= spec_u16_to_le_bytes(other.flags));
        assert(self.flags == other.flags);
        assert(a.subrange(2, 4) =~= spec_u16_to_le_bytes(self.prdtl));
        assert(b.subrange(2, 4) =~= spec_u16_to_le_bytes(other.prdtl));
        assert(self.prdtl == other.prdtl);
        assert(a.subrange(4, 8) =~= spec_u32_to_le_bytes(self.prdbc));
        assert(b.subrange(4, 8) =~= spec_u32_to_le_bytes(other.prdbc));
        assert(self.prdbc == other.prdbc);
        assert(a.subrange(8, 12) =~= spec_u32_to_le_bytes(self.ctba));
        assert(b.subrange(8, 12) =~= spec_u32_to_le_bytes(other.ctba));
        assert(self.ctba == other.ctba);
        assert(a.subrange(12, 16) =~= spec_u32_to_le_bytes(self.ctbau));
        assert(b.subrange(12, 16) =~= spec_u32_to_le_bytes(other.ctbau));
        assert(self.ctbau == other.ctbau);
        assert(a.subrange(16, 20) =~= spec_u32_to_le_bytes(self.rsv1[0]));
        assert(b.subrange(16, 20) =~= spec_u32_to_le_bytes(other.rsv1[0]));
        assert(self.rsv1[0] == other.rsv1[0]);
        assert(a.subrange(20, 24) =~= spec_u32_to_le_bytes(self.rsv1[1]));
        assert(b.subrange(20, 24) =~= spec_u32_to_le_bytes(other.rsv1[1]));
        assert(self.rsv1[1] == other.rsv1[1]);
        assert(a.subrange(24, 28) =~= spec_u32_to_le_bytes(self.rsv1[2]));
        assert(b.subrange(24, 28) =~= spec_u32_to_le_bytes(other.rsv1[2]));
        assert(self.rsv1[2] == other.rsv1[2]);
        assert(a.subrange(28, 32) =~= spec_u32_to_le_bytes(self.rsv1[3]));
        assert(b.subrange(28, 32) =~= spec_u32_to_le_bytes(other.rsv1[3]));
        assert(self.rsv1[3] == other.rsv1[3]);
        assert(self.rsv1 =~= other.rsv1);
    }
}

/// One entry of a physical region descriptor table: a buffer and its
/// length.
#[derive(Debug, Clone, Copy)]
pub struct HbaPrdtEntry {
    /// Data base address
    pub dba: u32,
    /// Data base address, upper 32 bits
    pub dbau: u32,
    /// Reserved
    pub rsv0: u32,
    /// Byte count and flags
    pub dbc_and_flags: u32,
}

impl HbaPrdtEntry {
    /// Length of the record in bytes.
    pub const SIZE: usize = 16;

    /// The record in memory: every field in declaration order, multi-byte
    /// fields least significant byte first, nothing between them.
    pub open spec fn spec_to_bytes(self) -> Seq<u8> {
        spec_u32_to_le_bytes(self.dba)
            + spec_u32_to_le_bytes(self.dbau)
            + spec_u32_to_le_bytes(self.rsv0)
            + spec_u32_to_le_bytes(self.dbc_and_flags)
    }

    /// Writes the record out.
    pub fn to_bytes(&self) -> (bytes: Vec<u8>)
        ensures
            bytes@ == self.spec_to_bytes(),
            bytes@.len() == Self::SIZE,
    {
        proof {
            lemma_le_lengths();
        }
        let mut bytes: Vec<u8> = Vec::new();
        let mut word0: Vec<u8> = u32_to_le_bytes(self.dba);
        bytes.append(&mut word0);
        let mut word1: Vec<u8> = u32_to_le_bytes(self.dbau);
        bytes.append(&mut word1);
        let mut word2: Vec<u8> = u32_to_le_bytes(self.rsv0);
        bytes.append(&mut word2);
        let mut word3: Vec<u8> = u32_to_le_bytes(self.dbc_and_flags);
        bytes.append(&mut word3);
        assert(bytes@ =~= self.spec_to_bytes());
        bytes
    }

    /// Reads a record: there is one exactly when `bytes` has the record's
    /// length, and it is the record that writes out as `bytes`.
    pub fn from_bytes(bytes: &[u8]) -> (record: Option<HbaPrdtEntry>)
        ensures
            record is Some <==> bytes@.len() == Self::SIZE,
            record matches Some(f) ==> f.spec_to_bytes() == bytes@,
    {
        if bytes.len() != Self::SIZE {
            return None;
        }
        proof {
            lemma_le_lengths();
        }
        let f = HbaPrdtEntry {
            dba: u32_from_le_bytes(slice_subrange(bytes, 0, 4)),
            dbau: u32_from_le_bytes(slice_subrange(bytes, 4, 8)),
            rsv0: u32_from_le_bytes(slice_subrange(bytes, 8, 12)),
            dbc_and_flags: u32_from_le_bytes(slice_subrange(bytes, 12, 16)),
        };
        assert(spec_u32_to_le_bytes(f.dba) == bytes@.subrange(0, 4));
        assert(spec_u32_to_le_bytes(f.dbau) == bytes@.subrange(4, 8));
        assert(spec_u32_to_le_bytes(f.rsv0) == bytes@.subrange(8, 12));
        assert(spec_u32_to_le_bytes(f.dbc_and_flags) == bytes@.subrange(12, 16));
        assert(f.spec_to_bytes() =~= bytes@);
        Some(f)
    }

    /// Two records that write out alike are the same record.
    pub proof fn lemma_bytes_determine_fields(self, other: HbaPrdtEntry)
        requires
            self.spec_to_bytes() == other.spec_to_bytes(),
        ensures
            self == other,
    {
        lemma_le_lengths();
        let a = self.spec_to_bytes();
        let b = other.spec_to_bytes();
        assert(a.subrange(0, 4) =~= spec_u32_to_le_bytes(self.dba));
        assert(b.subrange(0, 4) =~= spec_u32_to_le_bytes(other.dba));
        assert(self.dba == other.dba);
        assert(a.subrange(4, 8) =~= spec_u32_to_le_bytes(self.dbau));
        assert(b.subrange(4, 8) =~= spec_u32_to_le_bytes(other.dbau));
        assert(self.dbau == other.dbau);
        assert(a.subrange(8, 12) =~= spec_u32_to_le_bytes(self.rsv0));
        assert(b.subrange(8, 12) =~= spec_u32_to_le_bytes(other.rsv0));
        assert(self.rsv0 == other.rsv0);
        assert(a.subrange(12, 16) =~= spec_u32_to_le_bytes(self.dbc_and_flags));
        assert(b.subrange(12, 16) =~= spec_u32_to_le_bytes(other.dbc_and_flags));
        assert(self.dbc_and_flags == other.dbc_and_flags);
    }
}

/// A command table: the command frame, an ATAPI command, and the physical
/// region descriptors. The record holds the first descriptor.
#[derive(Debug)]
pub struct HbaCmdTbl {
    /// 0x00, command FIS
    pub cfis: [u8; 64],
    /// 0x40, ATAPI command, 12 or 16 bytes
    pub acmd: [u8; 16],
    /// 0x50, reserved
    pub rsv: [u8; 48],
    /// 0x80, physical region descriptor table entries
    pub prdt_entry: [HbaPrdtEntry; 1],
}

impl HbaCmdTbl {
    /// Length of the record in bytes.
    pub const SIZE: usize = 144;

    /// The record in memory: the command frame at 0x00, the ATAPI command at
    /// 0x40, the reserved bytes at 0x50 and the first descriptor at 0x80.
    pub open spec fn spec_to_bytes(self) -> Seq<u8> {
        self.cfis@ + self.acmd@ + self.rsv@ + self.prdt_entry[0].spec_to_bytes()
    }

    /// Writes the record out.
    pub fn to_bytes(&self) -> (bytes: Vec<u8>)
        ensures
            bytes@ == self.spec_to_bytes(),
            bytes@.len() == Self::SIZE,
    {
        let mut bytes: Vec<u8> = Vec::new();
        bytes.extend_from_slice(self.cfis.as_slice());
        bytes.extend_from_slice(self.acmd.as_slice());
        bytes.extend_from_slice(self.rsv.as_slice());
        let mut entry: Vec<u8> = self.prdt_entry[0].to_bytes();
        bytes.append(&mut entry);
        assert(bytes@ =~= self.spec_to_bytes());
        bytes
    }

    /// Reads a record: there is one exactly when `bytes` has the record's
    /// length, and it is the record that writes out as `bytes`.
    pub fn from_bytes(bytes: &[u8]) -> (record: Option<HbaCmdTbl>)
        ensures
            record is Some <==> bytes@.len() == Self::SIZE,
            record matches Some(f) ==> f.spec_to_bytes() == bytes@,
    {
        if bytes.len() != Self::SIZE {
            return None;
        }
        let entry: Option<HbaPrdtEntry> = HbaPrdtEntry::from_bytes(
            slice_subrange(bytes, 128, 144),
        );
        let f = HbaCmdTbl {
            cfis: read_array::<64>(bytes, 0),
            acmd: read_array::<16>(bytes, 64),
            rsv: read_array::<48>(bytes, 80),
            prdt_entry: [entry.unwrap()],
        };
        assert(f.spec_to_bytes() =~= bytes@);
        Some(f)
    }

    /// Two records that write out alike are the same record.
    pub proof fn lemma_bytes_determine_fields(self, other: HbaCmdTbl)
        requires
            self.spec_to_bytes() == other.spec_to_bytes(),
        ensures
            self == other,
    {
        let a = self.spec_to_bytes();
        let b = other.spec_to_bytes();
        lemma_le_lengths();
        assert(self.prdt_entry[0].spec_to_bytes().len() == 16);
        assert(other.prdt_entry[0].spec_to_bytes().len() == 16);
        assert(a.subrange(0, 64) =~= self.cfis@);
        assert(b.subrange(0, 64) =~= other.cfis@);
        assert(self.cfis =~= other.cfis);
        assert(a.subrange(64, 80) =~= self.acmd@);
        assert(b.subrange(64, 80) =~= other.acmd@);
        assert(self.acmd =~= other.acmd);
        assert(a.subrange(80, 128) =~= self.rsv@);
        assert(b.subrange(80, 128) =~= other.rsv@);
        assert(self.rsv =~= other.rsv);
        assert(a.subrange(128, 144) =~= self.prdt_entry[0].spec_to_bytes());
        assert(b.subrange(128, 144) =~= other.prdt_entry[0].spec_to_bytes());
        self.prdt_entry[0].lemma_bytes_determine_fields(other.prdt_entry[0]);
        assert(self.prdt_entry =~= other.prdt_entry);
    }
}

/// Device detection field of a SATA status value: bits 3:0.
pub open spec fn device_detect(ssts: u32) -> u8 {
    (ssts & 0x0F) as u8
}

/// Interface power management field of a SATA status value: bits 11:8.
pub open spec fn power_state(ssts: u32) -> u8 {
    ((ssts >> 8) & 0x0F) as u8
}

/// Whether a SATA status value reports a device on an active link.
pub open spec fn link_active(ssts: u32) -> bool {
    device_detect(ssts) == HBA_PORT_DET_PRESENT && power_state(ssts) == HBA_PORT_IPM_ACTIVE
}

/// What is attached to a port with the given SATA status and signature. The
/// signature counts only on an active link.
pub open spec fn classify(ssts: u32, sig: u32) -> PortSignature {
    if link_active(ssts) {
        PortSignature::spec_of_device(DeviceSignature::spec_from_register(sig))
    } else {
        PortSignature::Null
    }
}

/// Whether port `i` is implemented according to the ports-implemented mask.
pub open spec fn implemented(pi: u32, i: u32) -> bool {
    (pi >> i) & 1 != 0
}

/// One implemented port and what is attached to it.
#[derive(Debug, Clone, Copy, PartialEq, Eq, Structural)]
pub struct PortReport {
    pub index: u32,
    pub kind: PortSignature,
}

/// The reports for the implemented ports among the first `n`, in port order.
pub open spec fn reports_below(abar: HbaMem, n: nat) -> Seq<PortReport>
    decreases n,
{
    if n == 0 {
        Seq::empty()
    } else {
        let i = (n - 1) as nat;
        let before = reports_below(abar, i);
        if implemented(abar.pi, i as u32) {
            before.push(
                PortReport { index: i as u32, kind: classify(abar.ports[i as int].ssts, abar.ports[i as int].sig) },
            )
        } else {
            before
        }
    }
}

/// Classifies what is attached to a port: nothing unless a device is present
/// on an active link, and then what the signature announces.
pub fn check_type(port: &HbaPort) -> (kind: PortSignature)
    ensures
        kind == classify(port.ssts, port.sig),
{
    let ssts: u32 = port.ssts;
    assert(ssts & 0x0F <= 0x0F) by (bit_vector);
    assert((ssts >> 8) & 0x0F <= 0x0F) by (bit_vector);
    let ipm: u8 = ((ssts >> 8) & 0x0F) as u8;
    let det: u8 = (ssts & 0x0F) as u8;
    if det != HBA_PORT_DET_PRESENT {
        return PortSignature::Null;
    }
    if ipm != HBA_PORT_IPM_ACTIVE {
        return PortSignature::Null;
    }
    PortSignature::of_device(DeviceSignature::from_register(port.sig))
}

/// Walks the ports-implemented mask and classifies every implemented port,
/// lowest port first.
pub fn probe_port(abar: &HbaMem) -> (found: Vec<PortReport>)
    ensures
        found@ == reports_below(*abar, 32),
{
    let pi: u32 = abar.pi;
    let mut found: Vec<PortReport> = Vec::new();
    let mut i: u32 = 0;
    while i < 32
        invariant
            i <= 32,
            pi == abar.pi,
            found@ == reports_below(*abar, i as nat),
        decreases 32 - i,
    {
        if (pi >> i) & 1 != 0 {
            let kind: PortSignature = check_type(&abar.ports[i as usize]);
            found.push(PortReport { index: i, kind });
        }
        i += 1;
    }
    found
}

/// One attempt to start a port's command engine. While the command list is
/// still running nothing is changed and the attempt is to be repeated on a
/// fresh image of the port; otherwise FIS receive and start are set.
pub fn start_cmd(port: &mut HbaPort) -> (started: bool)
    ensures
        started <==> old(port).cmd & HBA_PXCMD_CR == 0,
        started ==> *final(port) == (HbaPort {
            cmd: old(port).cmd | HBA_PXCMD_FRE | HBA_PXCMD_ST,
            ..*old(port)
        }),
        !started ==> *final(port) == *old(port),
{
    if port.cmd & HBA_PXCMD_CR != 0 {
        return false;
    }
    port.cmd |= HBA_PXCMD_FRE;
    port.cmd |= HBA_PXCMD_ST;
    true
}

/// Stops a port's command engine: clears the start bit and nothing else.
pub fn stop_cmd(port: &mut HbaPort)
    ensures
        *final(port) == (HbaPort { cmd: old(port).cmd & !HBA_PXCMD_ST, ..*old(port) }),
{
    port.cmd &= !HBA_PXCMD_ST;
}

/// The reports name exactly the implemented ports, each once and in rising
/// order, and each with what is attached to that port.
pub proof fn reports_name_the_implemented_ports(abar: HbaMem, n: nat)
    requires
        n <= 32,
    ensures
        forall|k: int|
            0 <= k < reports_below(abar, n).len() ==> {
                let r = #[trigger] reports_below(abar, n)[k];
                &&& r.index < n
                &&& implemented(abar.pi, r.index)
                &&& r.kind == classify(
                    abar.ports[r.index as int].ssts,
                    abar.ports[r.index as int].sig,
                )
            },
        forall|i: u32|
            i < n && implemented(abar.pi, i) ==> exists|k: int|
                0 <= k < reports_below(abar, n).len() && #[trigger] reports_below(
                    abar,
                    n,
                )[k].index == i,
        forall|j: int, k: int|
            0 <= j < k < reports_below(abar, n).len() ==> reports_below(abar, n)[j].index
                < reports_below(abar, n)[k].index,
    decreases n,
{
    if n > 0 {
        let m = (n - 1) as nat;
        reports_name_the_implemented_ports(abar, m);
        let before = reports_below(abar, m);
        let now = reports_below(abar, n);
        assert forall|i: u32| i < n && implemented(abar.pi, i) implies exists|k: int|
            0 <= k < now.len() && #[trigger] now[k].index == i by {
            if i < m {
                let k = choose|k: int| 0 <= k < before.len() && #[trigger] before[k].index == i;
                assert(now[k].index == i);
            } else {
                assert(now[now.len() - 1].index == i);
            }
        }
    }
}

/// A port whose link is not active is classified as empty whatever its
/// signature register holds.
pub proof fn inactive_link_is_empty(ssts: u32, sig: u32)
    requires
        device_detect(ssts) != HBA_PORT_DET_PRESENT || power_state(ssts) != HBA_PORT_IPM_ACTIVE,
    ensures
        classify(ssts, sig) == PortSignature::Null,
{
}

/// On an active link the four device signatures are told apart, and every
/// other signature leaves the port empty.
pub proof fn active_link_follows_signature(ssts: u32, sig: u32)
    requires
        link_active(ssts),
    ensures
        sig == 0x00000101 ==> classify(ssts, sig) == PortSignature::Sata,
        sig == 0xEB140101 ==> classify(ssts, sig) == PortSignature::Satapi,
        sig == 0xC33C0101 ==> classify(ssts, sig) == PortSignature::Semb,
        sig == 0x96690101 ==> classify(ssts, sig) == PortSignature::Pm,
        sig != 0x00000101 && sig != 0xEB140101 && sig != 0xC33C0101 && sig != 0x96690101
            ==> classify(ssts, sig) == PortSignature::Null,
{
}

/// A started engine has start and FIS receive set; a stopped one has start
/// clear, and stopping changes no other bit.
pub proof fn start_and_stop_bits(cmd: u32)
    ensures
        (cmd | HBA_PXCMD_FRE | HBA_PXCMD_ST) & HBA_PXCMD_ST != 0,
        (cmd | HBA_PXCMD_FRE | HBA_PXCMD_ST) & HBA_PXCMD_FRE != 0,
        (cmd & !HBA_PXCMD_ST) & HBA_PXCMD_ST == 0,
        (cmd & !HBA_PXCMD_ST) | (cmd & HBA_PXCMD_ST) == cmd,
{
    assert((cmd | 0x0010u32 | 0x0001u32) & 0x0001u32 != 0) by (bit_vector);
    assert((cmd | 0x0010u32 | 0x0001u32) & 0x0010u32 != 0) by (bit_vector);
    assert((cmd & !0x0001u32) & 0x0001u32 == 0) by (bit_vector);
    assert((cmd & !0x0001u32) | (cmd & 0x0001u32) == cmd) by (bit_vector);
}

} // verus!
