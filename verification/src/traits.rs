use vstd::prelude::*;

verus! {

/// The value of a little-endian word made of a low and a high byte.
pub open spec fn word_of(low: u8, high: u8) -> int {
    low + 256 * high
}

/// The low byte of a word, as stored first in little-endian order.
pub open spec fn low_byte(word: u16) -> u8 {
    (word % 256) as u8
}

/// The high byte of a word, as stored second in little-endian order.
pub open spec fn high_byte(word: u16) -> u8 {
    (word / 256) as u8
}

/// Something the CPU can read bytes and little-endian words from.
pub trait MemRead {
    /// The memory is in a state in which it can be read.
    spec fn readable(&self) -> bool;

    /// `value` is what a read of `address` can give.
    spec fn reads(&self, address: usize, value: u8) -> bool;

    fn read_byte(&self, address: usize) -> (value: u8)
        requires
            self.readable(),
        ensures
            self.reads(address, value),
    ;

    /// Reads the byte at `address` and the one after it, low byte first.
    fn read_word(&self, address: usize) -> (word: u16)
        requires
            self.readable(),
            address < usize::MAX,
        ensures
            exists|low: u8, high: u8|
                #![trigger self.reads(address, low), self.reads((address + 1) as usize, high)]
                self.reads(address, low) && self.reads((address + 1) as usize, high) && word
                    == word_of(low, high),
    {
        let low = self.read_byte(address);
        let high = self.read_byte(address + 1);
        low as u16 + (high as u16) * 256
    }
}

/// Something the CPU can write bytes and little-endian words to.
pub trait MemWrite: Sized {
    /// The memory is in a state in which it can be written.
    spec fn writable(&self) -> bool;

    /// `after` is a state the memory can be in once `value` was written at `address`.
    spec fn writes(self, address: usize, value: u8, after: Self) -> bool;

    fn write_byte(&mut self, address: usize, value: u8)
        requires
            old(self).writable(),
        ensures
            final(self).writable(),
            old(self).writes(address, value, *final(self)),
    ;

    /// Writes the low byte of `value` at `address` and the high byte after it.
    fn write_word(&mut self, address: usize, value: u16)
        requires
            old(self).writable(),
            address < usize::MAX,
        ensures
            final(self).writable(),
            exists|mid: Self|
                #![trigger old(self).writes(address, low_byte(value), mid)]
                old(self).writes(address, low_byte(value), mid) && mid.writes(
                    (address + 1) as usize,
                    high_byte(value),
                    *final(self),
                ),
    {
        let low = (value % 256) as u8;
        let high = (value / 256) as u8;
        self.write_byte(address, low);
        let ghost mid = *self;
        self.write_byte(address + 1, high);
        assert(old(self).writes(address, low_byte(value), mid));
    }
}

/// Switches that choose which ROMs and RAM banks the CPU sees.
pub trait MemManage: Sized {
    /// `after` is this memory once the lower ROM was switched on or off.
    spec fn lower_rom_switched(self, enable: bool, after: Self) -> bool;

    /// `after` is this memory once the upper ROM was switched on or off.
    spec fn upper_rom_switched(self, enable: bool, after: Self) -> bool;

    /// `after` is this memory once upper ROM `upper_rom_nr` was selected.
    spec fn upper_rom_selected(self, upper_rom_nr: u8, after: Self) -> bool;

    /// `after` is this memory once RAM reads were forced or released.
    spec fn ram_read_switched(self, force: bool, after: Self) -> bool;

    fn enable_lower_rom(&mut self, enable: bool)
        ensures
            old(self).lower_rom_switched(enable, *final(self)),
    ;

    fn enable_upper_rom(&mut self, enable: bool)
        ensures
            old(self).upper_rom_switched(enable, *final(self)),
    ;

    fn select_upper_rom(&mut self, upper_rom_nr: u8)
        ensures
            old(self).upper_rom_selected(upper_rom_nr, *final(self)),
    ;

    fn force_ram_read(&mut self, force: bool)
        ensures
            old(self).ram_read_switched(force, *final(self)),
    ;

    /// Selects an expansion RAM configuration; memories without expansion RAM ignore it.
    fn set_ram_config(&mut self, config: u8)
        default_ensures
            *final(self) == *old(self),
    {
    }
}

} // verus!
