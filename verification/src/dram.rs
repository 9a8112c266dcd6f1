//! Register-addressed DRAM LED controller.
//!
//! Construction is a session: for each configured bus address the device is
//! selected, probed for presence, and three identification registers are
//! read back and checked against deterministic expected values; a mismatch
//! fails the whole construction and nothing more is written.  After every
//! address passes, two enable registers are written per address and a
//! 64-byte configuration block is read, whose third byte is the per-device
//! LED count.  [`DramInit`] carries that session as a step machine: it
//! hands out batches of bus transactions and consumes the bytes the reads
//! returned, so that every decision stands here while an I/O shell only
//! moves bytes.

use vstd::prelude::*;
use crate::bus::{
    BusCmd, register_read_cmds, register_write_cmds, register_write_block3_cmds,
    spec_register_read, spec_register_write, spec_register_write_block3,
};

verus! {

/// First identification register probed during construction.
pub const PROBE_REG_FIRST: u8 = 0xAD;

/// Each identification register must read back its own address minus this
/// base.
pub const PROBE_EXPECT_BASE: u8 = 0xA0;

/// First of the two per-address enable registers.
pub const ENABLE_REG_A: u16 = 0x8020;

/// Second of the two per-address enable registers.
pub const ENABLE_REG_B: u16 = 0x80A0;

/// Value written to both enable registers.
pub const ENABLE_VALUE: u8 = 1;

/// Base register of the 64-byte configuration block.
pub const CONFIG_BASE: u16 = 0x1C00;

/// Length of the configuration block in bytes.
pub const CONFIG_LEN: u16 = 64;

/// Offset of the LED count within the configuration block.
pub const CONFIG_LED_COUNT_OFFSET: usize = 2;

/// Base register of the per-LED colour blocks.
pub const LED_COLOUR_BASE: u16 = 0x8100;

/// Transactions that probe one address: select it, confirm presence with a
/// bare byte read, then read the three identification registers.
pub open spec fn spec_probe_batch(addr: u16) -> Seq<BusCmd> {
    seq![
        BusCmd::SetSlave(addr),
        BusCmd::ReceiveByte,
        BusCmd::ReadByteData(PROBE_REG_FIRST),
        BusCmd::ReadByteData((PROBE_REG_FIRST + 1) as u8),
        BusCmd::ReadByteData((PROBE_REG_FIRST + 2) as u8),
    ]
}

/// Whether the probe replies identify the device: one presence byte, then
/// each identification register equal to its address minus the fixed base.
pub open spec fn spec_probe_ok(replies: Seq<u8>) -> bool {
    &&& replies.len() == 4
    &&& replies[1] == PROBE_REG_FIRST - PROBE_EXPECT_BASE
    &&& replies[2] == PROBE_REG_FIRST + 1 - PROBE_EXPECT_BASE
    &&& replies[3] == PROBE_REG_FIRST + 2 - PROBE_EXPECT_BASE
}

/// Transactions that write the two enable registers of the selected
/// address.
pub open spec fn spec_enable_batch() -> Seq<BusCmd> {
    spec_register_write(ENABLE_REG_A, ENABLE_VALUE) + spec_register_write(
        ENABLE_REG_B,
        ENABLE_VALUE,
    )
}

/// Build the probe transactions for one address.
pub fn probe_batch(addr: u16) -> (cmds: Vec<BusCmd>)
    ensures
        cmds@ == spec_probe_batch(addr),
{
    let mut cmds: Vec<BusCmd> = Vec::new();
    cmds.push(BusCmd::SetSlave(addr));
    cmds.push(BusCmd::ReceiveByte);
    cmds.push(BusCmd::ReadByteData(PROBE_REG_FIRST));
    cmds.push(BusCmd::ReadByteData(PROBE_REG_FIRST + 1));
    cmds.push(BusCmd::ReadByteData(PROBE_REG_FIRST + 2));
    proof {
        assert(cmds@ =~= spec_probe_batch(addr));
    }
    cmds
}

/// Build the enable transactions for the selected address.
pub fn enable_batch() -> (cmds: Vec<BusCmd>)
    ensures
        cmds@ == spec_enable_batch(),
{
    let mut cmds = register_write_cmds(ENABLE_REG_A, ENABLE_VALUE);
    let mut second = register_write_cmds(ENABLE_REG_B, ENABLE_VALUE);
    cmds.append(&mut second);
    cmds
}

/// Read transactions for the first `n` bytes of the configuration block,
/// one register per byte at sequential addresses.
pub open spec fn spec_config_reads(n: int) -> Seq<BusCmd>
    decreases n,
{
    if n <= 0 {
        Seq::empty()
    } else {
        spec_config_reads(n - 1) + spec_register_read((CONFIG_BASE + n - 1) as u16)
    }
}

/// Build the read transactions for the whole configuration block.
pub fn config_batch() -> (cmds: Vec<BusCmd>)
    ensures
        cmds@ == spec_config_reads(CONFIG_LEN as int),
{
    let mut cmds: Vec<BusCmd> = Vec::new();
    let mut i: u16 = 0;
    while i < CONFIG_LEN
        invariant
            i <= CONFIG_LEN,
            cmds@ == spec_config_reads(i as int),
        decreases CONFIG_LEN - i,
    {
        let mut part = register_read_cmds(CONFIG_BASE + i);
        cmds.append(&mut part);
        i = i + 1;
    }
    cmds
}

/// Where a construction session stands.
#[derive(Clone, Copy, Debug, PartialEq, Eq, Structural)]
pub enum InitStage {
    /// About to probe the next configured address.
    Probe,
    /// The probe of the current address matched; about to enable it.
    Enable,
    /// Every address passed; about to read the configuration block.
    Config,
    /// Construction complete.
    Ready,
    /// An identification byte mismatched; nothing more will be issued.
    Failed,
}

/// The construction session of the DRAM LED controller.
pub struct DramInit {
    /// The configured bus addresses, one per physical module.
    pub addresses: Vec<u16>,
    /// Index of the address the session currently works on.
    pub next_addr: usize,
    /// Where the session stands.
    pub stage: InitStage,
    /// LED count extracted from the configuration block, once `Ready`.
    pub led_count: u8,
}

impl DramInit {
    /// The session only ever works on a configured address.
    pub open spec fn wf(self) -> bool {
        match self.stage {
            InitStage::Probe => self.next_addr < self.addresses@.len(),
            InitStage::Enable => self.next_addr < self.addresses@.len(),
            _ => true,
        }
    }

    /// The batch of transactions the session issues next.
    pub open spec fn spec_next_batch(self) -> Seq<BusCmd> {
        match self.stage {
            InitStage::Probe => spec_probe_batch(self.addresses@[self.next_addr as int]),
            InitStage::Enable => spec_enable_batch(),
            InitStage::Config => spec_config_reads(CONFIG_LEN as int),
            _ => Seq::empty(),
        }
    }

    /// Begin a construction session over the configured addresses.
    pub fn new(addresses: Vec<u16>) -> (m: DramInit)
        ensures
            m.wf(),
            m.addresses == addresses,
            m.next_addr == 0,
            m.stage == if addresses@.len() == 0 {
                InitStage::Config
            } else {
                InitStage::Probe
            },
    {
        let stage = if addresses.len() == 0 {
            InitStage::Config
        } else {
            InitStage::Probe
        };
        DramInit { addresses, next_addr: 0, stage, led_count: 0 }
    }

    /// Whether the session has ended, in success or failure.
    pub fn done(&self) -> (b: bool)
        ensures
            b == (self.stage is Ready || self.stage is Failed),
    {
        match self.stage {
            InitStage::Ready => true,
            InitStage::Failed => true,
            _ => false,
        }
    }

    /// Whether the session failed device identification.
    pub fn failed(&self) -> (b: bool)
        ensures
            b == (self.stage is Failed),
    {
        match self.stage {
            InitStage::Failed => true,
            _ => false,
        }
    }

    /// The next batch of transactions to perform.  The I/O shell runs them
    /// in order and hands back the bytes the reads returned.
    pub fn next_batch(&self) -> (cmds: Vec<BusCmd>)
        requires
            self.wf(),
            !(self.stage is Ready),
            !(self.stage is Failed),
        ensures
            cmds@ == self.spec_next_batch(),
    {
        match self.stage {
            InitStage::Probe => probe_batch(self.addresses[self.next_addr]),
            InitStage::Enable => enable_batch(),
            _ => config_batch(),
        }
    }

    /// Consume the reply bytes of the last batch and advance the session.
    ///
    /// A probe either identifies the device — each identification register
    /// equal to its address minus the fixed base — and leads on to the
    /// enable writes, or fails the whole construction.  After the last
    /// address is enabled the configuration block is read, and its third
    /// byte becomes the LED count.
    pub fn on_replies(&mut self, replies: &Vec<u8>)
        requires
            old(self).wf(),
            !(old(self).stage is Ready),
            !(old(self).stage is Failed),
        ensures
            final(self).wf(),
            final(self).addresses == old(self).addresses,
            old(self).stage is Probe ==> {
                &&& final(self).next_addr == old(self).next_addr
                &&& final(self).stage == if spec_probe_ok(replies@) {
                    InitStage::Enable
                } else {
                    InitStage::Failed
                }
            },
            old(self).stage is Enable ==> {
                &&& final(self).next_addr == old(self).next_addr + 1
                &&& final(self).stage == if old(self).next_addr + 1
                    < old(self).addresses@.len() {
                    InitStage::Probe
                } else {
                    InitStage::Config
                }
            },
            old(self).stage is Config ==> final(self).stage == if replies@.len()
                == CONFIG_LEN {
                InitStage::Ready
            } else {
                InitStage::Failed
            },
            final(self).stage is Ready ==> final(self).led_count == replies@[
                CONFIG_LED_COUNT_OFFSET as int
            ],
    {
        match self.stage {
            InitStage::Probe => {
                let ok = replies.len() == 4 && replies[1] == PROBE_REG_FIRST - PROBE_EXPECT_BASE
                    && replies[2] == PROBE_REG_FIRST + 1 - PROBE_EXPECT_BASE && replies[3]
                    == PROBE_REG_FIRST + 2 - PROBE_EXPECT_BASE;
                if ok {
                    self.stage = InitStage::Enable;
                } else {
                    self.stage = InitStage::Failed;
                }
            },
            InitStage::Enable => {
                let configured = self.addresses.len();
                proof {
                    assert(self.next_addr < configured);
                }
                self.next_addr = self.next_addr + 1;
                if self.next_addr < self.addresses.len() {
                    self.stage = InitStage::Probe;
                } else {
                    self.stage = InitStage::Config;
                }
            },
            _ => {
                if replies.len() == CONFIG_LEN as usize {
                    self.led_count = replies[CONFIG_LED_COUNT_OFFSET];
                    self.stage = InitStage::Ready;
                } else {
                    self.stage = InitStage::Failed;
                }
            },
        }
    }

    /// Turn a completed session into the driver value.
    pub fn finish(self) -> (d: I2cDram)
        requires
            self.stage is Ready,
        ensures
            d.addresses == self.addresses,
            d.led_count == self.led_count,
    {
        I2cDram { addresses: self.addresses, led_count: self.led_count }
    }
}

/// The DRAM LED controller: its configured addresses and discovered LED
/// count.  All its transactions come out as command plans.
pub struct I2cDram {
    /// The configured bus addresses, one per physical module.
    pub addresses: Vec<u16>,
    /// Number of LEDs per module, from the configuration block.
    pub led_count: u8,
}

/// The block written for LED `i`: three bytes at the LED's own register,
/// in the controller's (red, blue, green) channel order — the last two
/// channels deliberately swapped relative to the incoming triple.
pub open spec fn spec_led_write(i: int, r: u8, g: u8, b: u8) -> Seq<BusCmd> {
    spec_register_write_block3((LED_COLOUR_BASE + 3 * i) as u16, r, b, g)
}

/// The blocks written for the first `n` LEDs, in LED order.
pub open spec fn spec_led_writes(n: int, r: u8, g: u8, b: u8) -> Seq<BusCmd>
    decreases n,
{
    if n <= 0 {
        Seq::empty()
    } else {
        spec_led_writes(n - 1, r, g, b) + spec_led_write(n - 1, r, g, b)
    }
}

/// Everything issued for one address on a colour change: re-select it,
/// re-issue the two enable writes, then write every LED's block.
pub open spec fn spec_colour_for_addr(addr: u16, n: int, r: u8, g: u8, b: u8) -> Seq<BusCmd> {
    seq![BusCmd::SetSlave(addr)] + spec_enable_batch() + spec_led_writes(n, r, g, b)
}

/// Everything issued for the first `k` addresses on a colour change.
pub open spec fn spec_colour_cmds(addrs: Seq<u16>, k: int, n: int, r: u8, g: u8, b: u8) -> Seq<
    BusCmd,
>
    decreases k,
{
    if k <= 0 {
        Seq::empty()
    } else {
        spec_colour_cmds(addrs, k - 1, n, r, g, b) + spec_colour_for_addr(
            addrs[k - 1],
            n,
            r,
            g,
            b,
        )
    }
}

impl I2cDram {
    /// A driver value from its configured addresses and LED count.
    pub fn new(addresses: Vec<u16>, led_count: u8) -> (d: I2cDram)
        ensures
            d.addresses == addresses,
            d.led_count == led_count,
    {
        I2cDram { addresses, led_count }
    }

    /// The transaction plan that sets every LED of every module to the
    /// given colour: per address, a re-select, the idempotent enable
    /// re-arm, and one three-byte block per LED in (red, blue, green)
    /// order.
    pub fn set_led_colour(&self, r: u8, g: u8, b: u8) -> (cmds: Vec<BusCmd>)
        ensures
            cmds@ == spec_colour_cmds(
                self.addresses@,
                self.addresses@.len() as int,
                self.led_count as int,
                r,
                g,
                b,
            ),
    {
        let mut cmds: Vec<BusCmd> = Vec::new();
        let mut a: usize = 0;
        while a < self.addresses.len()
            invariant
                a <= self.addresses@.len(),
                cmds@ == spec_colour_cmds(self.addresses@, a as int, self.led_count as int, r, g, b),
            decreases self.addresses@.len() - a,
        {
            cmds.push(BusCmd::SetSlave(self.addresses[a]));
            let mut enable = enable_batch();
            cmds.append(&mut enable);
            proof {
                assert(cmds@ =~= spec_colour_cmds(
                    self.addresses@,
                    a as int,
                    self.led_count as int,
                    r,
                    g,
                    b,
                ) + seq![BusCmd::SetSlave(self.addresses@[a as int])] + spec_enable_batch()
                    + spec_led_writes(0, r, g, b));
            }
            let mut i: u8 = 0;
            while i < self.led_count
                invariant
                    a < self.addresses@.len(),
                    i <= self.led_count,
                    cmds@ == spec_colour_cmds(self.addresses@, a as int, self.led_count as int, r, g, b)
                        + seq![BusCmd::SetSlave(self.addresses@[a as int])] + spec_enable_batch()
                        + spec_led_writes(i as int, r, g, b),
                decreases self.led_count - i,
            {
                let reg: u16 = LED_COLOUR_BASE + 3 * (i as u16);
                let mut block = register_write_block3_cmds(reg, r, b, g);
                cmds.append(&mut block);
                i = i + 1;
                proof {
                    assert(cmds@ =~= spec_colour_cmds(
                        self.addresses@,
                        a as int,
                        self.led_count as int,
                        r,
                        g,
                        b,
                    ) + seq![BusCmd::SetSlave(self.addresses@[a as int])] + spec_enable_batch()
                        + spec_led_writes(i as int, r, g, b));
                }
            }
            a = a + 1;
            proof {
                assert(cmds@ =~= spec_colour_cmds(
                    self.addresses@,
                    a as int,
                    self.led_count as int,
                    r,
                    g,
                    b,
                ));
            }
        }
        cmds
    }
}

} // verus!
