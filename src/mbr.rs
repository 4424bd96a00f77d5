use vstd::prelude::*;

verus! {

/// One 16-byte partition entry of a master boot record.
#[derive(Clone, Copy, Debug)]
pub struct MbrPartition {
    pub data: [u8; 16],
}

impl MbrPartition {
    /// Keeps the 16 bytes of an entry.
    pub fn parse(data: &[u8; 16]) -> (r: MbrPartition)
        ensures
            r.data@ == data@,
    {
        MbrPartition { data: *data }
    }

    pub fn status(&self) -> (r: u8)
        ensures
            r == self.data@[0],
    {
        self.data[0x00]
    }

    pub fn begin_head(&self) -> (r: u8)
        ensures
            r == self.data@[1],
    {
        self.data[0x01]
    }

    pub fn partition_type(&self) -> (r: u8)
        ensures
            r == self.data@[4],
    {
        self.data[0x04]
    }

    pub fn end_head(&self) -> (r: u8)
        ensures
            r == self.data@[5],
    {
        self.data[0x05]
    }

    /// First sector, as a little-endian `u32` at offset 8.
    pub fn begin_lba(&self) -> (r: u32)
        ensures
            r == self.data@[8] + self.data@[9] * 0x100 + self.data@[10] * 0x1_0000 + self.data@[11]
                * 0x100_0000,
    {
        (self.data[8] as u32) + (self.data[9] as u32) * 0x100 + (self.data[10] as u32) * 0x1_0000
            + (self.data[11] as u32) * 0x100_0000
    }

    /// Number of sectors, as a little-endian `u32` at offset 12.
    pub fn total_lba(&self) -> (r: u32)
        ensures
            r == self.data@[12] + self.data@[13] * 0x100 + self.data@[14] * 0x1_0000
                + self.data@[15] * 0x100_0000,
    {
        (self.data[12] as u32) + (self.data[13] as u32) * 0x100 + (self.data[14] as u32) * 0x1_0000
            + (self.data[15] as u32) * 0x100_0000
    }

    /// The partition is marked bootable.
    pub fn is_active(&self) -> (r: bool)
        ensures
            r == (self.data@[0] == 0x80),
    {
        self.status() == 0x80
    }

    /// The low six bits of byte 2.
    pub fn begin_sector(&self) -> (r: u8)
        ensures
            r == self.data@[2] % 64,
    {
        self.data[0x02] % 64
    }

    /// Ten bits: the top two of byte 2 above the eight of byte 3.
    pub fn begin_cylinder(&self) -> (r: u16)
        ensures
            r == (self.data@[2] / 64) * 256 + self.data@[3],
    {
        ((self.data[0x02] / 64) as u16) * 256 + (self.data[0x03] as u16)
    }

    /// The low six bits of byte 6.
    pub fn end_sector(&self) -> (r: u8)
        ensures
            r == self.data@[6] % 64,
    {
        self.data[0x06] % 64
    }

    /// Ten bits: the top two of byte 6 above the eight of byte 7.
    pub fn end_cylinder(&self) -> (r: u16)
        ensures
            r == (self.data@[6] / 64) * 256 + self.data@[7],
    {
        ((self.data[0x06] / 64) as u16) * 256 + (self.data[0x07] as u16)
    }
}

} // verus!
