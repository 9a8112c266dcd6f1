//! Byte-oriented bus transactions for the register-addressed LED controller.
//!
//! The controller exposes 16-bit registers on top of an addressed byte bus.
//! A register access first transmits the register address, byte-swapped,
//! in a preliminary word write under sub-command [`CMD_SELECT`]; the value
//! then moves in a follow-up byte read, byte write or block write under a
//! fixed sub-command of its own.  This module builds those transaction
//! sequences as plain data; an I/O shell performs them in order.

use vstd::prelude::*;

verus! {

/// Sub-command that selects a 16-bit register for the next transfer.
pub const CMD_SELECT: u8 = 0x00;

/// Sub-command that writes one byte to the selected register.
pub const CMD_WRITE_BYTE: u8 = 0x01;

/// Sub-command that block-writes bytes starting at the selected register.
pub const CMD_WRITE_BLOCK: u8 = 0x03;

/// Sub-command under which a selected register is read back.
pub const CMD_READ_BYTE: u8 = 0x81;

/// One transaction on the addressed byte bus.  Read transactions hand one
/// byte back; the I/O shell collects those bytes in transaction order.
#[derive(Clone, Copy, Debug, PartialEq, Eq, Structural)]
pub enum BusCmd {
    /// Select the slave address for the following transactions.
    SetSlave(u16),
    /// Receive a bare byte: the presence probe.  Replies one byte.
    ReceiveByte,
    /// Read one byte under a sub-command.  Replies one byte.
    ReadByteData(u8),
    /// Write a 16-bit word under a sub-command.
    WriteWordData(u8, u16),
    /// Write one byte under a sub-command.
    WriteByteData(u8, u8),
    /// Block-write three bytes under a sub-command.
    WriteBlockData3(u8, u8, u8, u8),
}

/// The byte-swapped form in which a register address goes on the wire:
/// low byte first, high byte second, packed into one word.
pub open spec fn spec_select_word(reg: u16) -> u16 {
    (((reg << 8) & 0xFF00) | ((reg >> 8) & 0x00FF)) as u16
}

/// Byte-swap a register address for the preliminary select write.
pub fn select_word(reg: u16) -> (w: u16)
    ensures
        w == spec_select_word(reg),
        w == (reg % 256) * 256 + reg / 256,
{
    proof {
        lemma_select_word_swaps_bytes(reg);
    }
    ((reg << 8) & 0xFF00) | ((reg >> 8) & 0x00FF)
}

/// The select word is exactly the two bytes of the register address in
/// swapped order.
pub proof fn lemma_select_word_swaps_bytes(reg: u16)
    ensures
        spec_select_word(reg) == (reg % 256) * 256 + reg / 256,
{
    assert((((reg << 8) & 0xFF00) | ((reg >> 8) & 0x00FF)) as u16
        == ((reg % 256) * 256 + reg / 256) as u16) by (bit_vector);
    assert((reg % 256) * 256 + reg / 256 <= 0xFFFF);
}

/// Transactions that read one byte from a 16-bit register: select the
/// register, then read under [`CMD_READ_BYTE`].
pub open spec fn spec_register_read(reg: u16) -> Seq<BusCmd> {
    seq![
        BusCmd::WriteWordData(CMD_SELECT, spec_select_word(reg)),
        BusCmd::ReadByteData(CMD_READ_BYTE),
    ]
}

/// Build the read transactions for one 16-bit register.
pub fn register_read_cmds(reg: u16) -> (cmds: Vec<BusCmd>)
    ensures
        cmds@ == spec_register_read(reg),
{
    let w = select_word(reg);
    let mut cmds: Vec<BusCmd> = Vec::new();
    cmds.push(BusCmd::WriteWordData(CMD_SELECT, w));
    cmds.push(BusCmd::ReadByteData(CMD_READ_BYTE));
    proof {
        assert(cmds@ =~= spec_register_read(reg));
    }
    cmds
}

/// Transactions that write one byte to a 16-bit register: select the
/// register, then write the value under [`CMD_WRITE_BYTE`].
pub open spec fn spec_register_write(reg: u16, val: u8) -> Seq<BusCmd> {
    seq![
        BusCmd::WriteWordData(CMD_SELECT, spec_select_word(reg)),
        BusCmd::WriteByteData(CMD_WRITE_BYTE, val),
    ]
}

/// Build the write transactions for one 16-bit register.
pub fn register_write_cmds(reg: u16, val: u8) -> (cmds: Vec<BusCmd>)
    ensures
        cmds@ == spec_register_write(reg, val),
{
    let w = select_word(reg);
    let mut cmds: Vec<BusCmd> = Vec::new();
    cmds.push(BusCmd::WriteWordData(CMD_SELECT, w));
    cmds.push(BusCmd::WriteByteData(CMD_WRITE_BYTE, val));
    proof {
        assert(cmds@ =~= spec_register_write(reg, val));
    }
    cmds
}

/// Transactions that block-write three bytes starting at a 16-bit
/// register: select the register, then send the block under
/// [`CMD_WRITE_BLOCK`].
pub open spec fn spec_register_write_block3(reg: u16, d0: u8, d1: u8, d2: u8) -> Seq<BusCmd> {
    seq![
        BusCmd::WriteWordData(CMD_SELECT, spec_select_word(reg)),
        BusCmd::WriteBlockData3(CMD_WRITE_BLOCK, d0, d1, d2),
    ]
}

/// Build the block-write transactions for three bytes at a register.
pub fn register_write_block3_cmds(reg: u16, d0: u8, d1: u8, d2: u8) -> (cmds: Vec<BusCmd>)
    ensures
        cmds@ == spec_register_write_block3(reg, d0, d1, d2),
{
    let w = select_word(reg);
    let mut cmds: Vec<BusCmd> = Vec::new();
    cmds.push(BusCmd::WriteWordData(CMD_SELECT, w));
    cmds.push(BusCmd::WriteBlockData3(CMD_WRITE_BLOCK, d0, d1, d2));
    proof {
        assert(cmds@ =~= spec_register_write_block3(reg, d0, d1, d2));
    }
    cmds
}

} // verus!
