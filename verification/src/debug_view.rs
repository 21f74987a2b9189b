use std::collections::HashMap;
use vstd::prelude::*;

use crate::rom::Rom;

verus! {

broadcast use vstd::std_specs::hash::group_hash_axioms;

/// A snapshot of a machine's memory for a debugger.
pub struct MemoryDebugView {
    /// The base 64K of RAM.
    pub ram: Vec<u8>,
    /// The expansion RAM beyond the base 64K (empty where there is none).
    pub ram_extension: Vec<u8>,
    pub lower_rom: Vec<u8>,
    pub lower_rom_enabled: bool,
    /// The image of each upper ROM, by its number.
    pub upper_roms: HashMap<u8, Vec<u8>>,
    pub selected_upper_rom: u8,
    pub upper_rom_enabled: bool,
    /// The 64K that the CPU sees, enabled ROMs over banked RAM.
    pub composite_rom_ram: Vec<u8>,
    /// The 64K of RAM that the CPU sees through the current bank mapping.
    pub composite_ram: Vec<u8>,
}

/// `base` with `src` copied over it from `start` on.
pub open spec fn overlaid(base: Seq<u8>, start: int, src: Seq<u8>) -> Seq<u8> {
    Seq::new(
        base.len(),
        |i: int|
            if start <= i < start + src.len() {
                src[i - start]
            } else {
                base[i]
            },
    )
}

/// The images of the upper ROMs, by number.
pub open spec fn rom_images(upper_roms: Map<u8, Rom>) -> Map<u8, Seq<u8>> {
    upper_roms.map_values(|rom: Rom| rom.bytes())
}

/// The view of a map from ROM numbers to images.
pub open spec fn images_view(images: Map<u8, Vec<u8>>) -> Map<u8, Seq<u8>> {
    images.map_values(|image: Vec<u8>| image@)
}

/// The image taken of a ROM number is there exactly when that ROM is, and
/// holds its bytes.
pub proof fn lemma_selected_image(images: Map<u8, Vec<u8>>, upper_roms: Map<u8, Rom>, selected: u8)
    requires
        images_view(images) == rom_images(upper_roms),
    ensures
        images.contains_key(selected) == upper_roms.contains_key(selected),
        upper_roms.contains_key(selected) ==> images[selected]@ == upper_roms[selected].bytes(),
{
    assert(images.contains_key(selected) == images_view(images).contains_key(selected));
    if upper_roms.contains_key(selected) {
        assert(images_view(images)[selected] == images[selected]@);
        assert(rom_images(upper_roms)[selected] == upper_roms[selected].bytes());
    }
}

/// Copies `src` into `dst` from `start` on.
pub fn overlay(dst: &mut Vec<u8>, start: usize, src: &[u8])
    requires
        start + src@.len() <= old(dst)@.len(),
    ensures
        final(dst)@ == overlaid(old(dst)@, start as int, src@),
{
    let dst_len = dst.len();
    let mut i: usize = 0;
    while i < src.len()
        invariant
            0 <= i <= src@.len(),
            dst_len == dst@.len(),
            start + src@.len() <= dst@.len(),
            dst@.len() == old(dst)@.len(),
            forall|j: int|
                0 <= j < dst@.len() ==> #[trigger] dst@[j] == if start <= j < start + i {
                    src@[j - start]
                } else {
                    old(dst)@[j]
                },
        decreases src@.len() - i,
    {
        dst.set(start + i, src[i]);
        i = i + 1;
    }
    assert(dst@ =~= overlaid(old(dst)@, start as int, src@));
}

/// The 64K that the CPU sees when RAM reads are not forced: the lower ROM over
/// the first 16K when it is enabled, and the selected upper ROM over the last
/// 16K when it is enabled and present, both over `base`.
pub open spec fn roms_over(
    base: Seq<u8>,
    lower_rom_enabled: bool,
    lower_rom: Seq<u8>,
    upper_rom_enabled: bool,
    upper_roms: Map<u8, Seq<u8>>,
    selected_upper_rom: u8,
) -> Seq<u8> {
    let with_lower = if lower_rom_enabled {
        overlaid(base, 0, lower_rom)
    } else {
        base
    };
    if upper_rom_enabled && upper_roms.contains_key(selected_upper_rom) {
        overlaid(with_lower, 0xC000, upper_roms[selected_upper_rom])
    } else {
        with_lower
    }
}

/// Lays the enabled ROMs over a copy of the 64K `base`.
pub fn compose_roms(
    base: &Vec<u8>,
    lower_rom_enabled: bool,
    lower_rom: &Vec<u8>,
    upper_rom_enabled: bool,
    upper_roms: &HashMap<u8, Vec<u8>>,
    selected_upper_rom: u8,
) -> (composite: Vec<u8>)
    requires
        base@.len() == 0x10000,
        lower_rom_enabled ==> lower_rom@.len() == 0x4000,
        upper_rom_enabled && upper_roms@.contains_key(selected_upper_rom)
            ==> upper_roms@[selected_upper_rom]@.len() == 0x4000,
    ensures
        composite@ == roms_over(
            base@,
            lower_rom_enabled,
            lower_rom@,
            upper_rom_enabled,
            images_view(upper_roms@),
            selected_upper_rom,
        ),
{
    let mut composite = base.clone();
    assert(composite@ =~= base@);
    if lower_rom_enabled {
        overlay(&mut composite, 0x0000, lower_rom.as_slice());
    }
    if upper_rom_enabled {
        match upper_roms.get(&selected_upper_rom) {
            Some(upper_rom) => {
                overlay(&mut composite, 0xC000, upper_rom.as_slice());
            },
            None => {},
        }
    }
    composite
}

/// The image of each upper ROM, keyed by ROM number.
pub fn upper_rom_images(upper_roms: &HashMap<u8, Rom>) -> (images: HashMap<u8, Vec<u8>>)
    ensures
        images_view(images@) == rom_images(upper_roms@),
{
    let mut images: HashMap<u8, Vec<u8>> = HashMap::new();
    let mut key: u16 = 0;
    while key < 256
        invariant
            key <= 256,
            forall|k: u8| #[trigger]
                images@.contains_key(k) <==> (k < key && upper_roms@.contains_key(k)),
            forall|k: u8| #[trigger]
                images@.contains_key(k) ==> images@[k]@ == upper_roms@[k].bytes(),
        decreases 256 - key,
    {
        let k = key as u8;
        match upper_roms.get(&k) {
            Some(rom) => {
                images.insert(k, rom.debug_view().data);
            },
            None => {},
        }
        key = key + 1;
    }
    assert(images_view(images@) =~= rom_images(upper_roms@));
    images
}

} // verus!
