//! The bus: the only interface between the processor and its peripherals.
use vstd::prelude::*;

verus! {

/// Number of addresses on the bus.
pub const ADDRESS_SPACE: usize = 65536;

/// A memory-mapped peripheral: byte reads and writes over the whole 16-bit
/// address range, neither of which can fail.
///
/// A device is described by its view and three functions over it. A read may
/// change the device (an input latch that empties when it is read), so it
/// has a result and a successor state; a write has a successor state only.
///
/// A device gives a few addresses a meaning of its own and says which. All
/// the others are plain: they are memory, and the device has to prove it.
pub trait Bus: View {
    /// Whether the device can be in `state`.
    spec fn valid(state: Self::V) -> bool;

    /// Whether the device gives `address` a meaning of its own.
    spec fn special(address: u16) -> bool;

    /// The byte that a device in `state` returns for a read of `address`.
    spec fn read_byte(state: Self::V, address: u16) -> u8;

    /// The state of the device after a read of `address` in `state`.
    spec fn read_next(state: Self::V, address: u16) -> Self::V;

    /// The state of the device after `data` is written to `address` in `state`.
    spec fn write_next(state: Self::V, address: u16, data: u8) -> Self::V;

    fn write(&mut self, address: u16, data: u8)
        ensures
            final(self)@ == Self::write_next(old(self)@, address, data),
    ;

    fn read(&mut self, address: u16) -> (data: u8)
        ensures
            data == Self::read_byte(old(self)@, address),
            final(self)@ == Self::read_next(old(self)@, address),
    ;

    /// A device is always in a valid state.
    proof fn lemma_valid(&self)
        ensures
            Self::valid(self@),
    ;

    /// Reads and writes lead from valid states to valid states.
    proof fn lemma_next_valid(state: Self::V, address: u16, data: u8)
        requires
            Self::valid(state),
        ensures
            Self::valid(Self::write_next(state, address, data)),
            Self::valid(Self::read_next(state, address)),
    ;

    /// A plain address reads as the byte last written to it: a write
    /// anywhere else does not change what it reads, and neither does a read
    /// of any address.
    proof fn lemma_store(state: Self::V, address: u16, data: u8, plain: u16)
        requires
            Self::valid(state),
            !Self::special(plain),
        ensures
            Self::read_byte(Self::write_next(state, address, data), plain) == if plain == address {
                data
            } else {
                Self::read_byte(state, plain)
            },
            Self::read_byte(Self::read_next(state, address), plain) == Self::read_byte(state, plain),
    ;
}

/// The state of a device after the bytes of `image` have been written to
/// it in order, byte `i` to address `i`. An image longer than the address
/// space wraps around and overwrites its own beginning.
pub open spec fn load_spec<B: Bus>(state: B::V, image: Seq<u8>) -> B::V
    decreases image.len(),
{
    if image.len() == 0 {
        state
    } else {
        B::write_next(
            load_spec::<B>(state, image.drop_last()),
            ((image.len() - 1) % 65536) as u16,
            image.last(),
        )
    }
}

/// Loads a flat program image: byte `i` of `rom` is written to address `i`.
/// The image has no header, length field or checksum. Bytes beyond the
/// address space wrap around to address 0.
pub fn load_rom<B: Bus>(bus: &mut B, rom: &[u8])
    ensures
        final(bus)@ == load_spec::<B>(old(bus)@, rom@),
{
    let mut i: usize = 0;
    while i < rom.len()
        invariant
            i <= rom.len(),
            bus@ == load_spec::<B>(old(bus)@, rom@.take(i as int)),
        decreases rom.len() - i,
    {
        assert(rom@.take(i + 1).drop_last() =~= rom@.take(i as int));
        bus.write((i % ADDRESS_SPACE) as u16, rom[i]);
        i += 1;
    }
    assert(rom@.take(i as int) =~= rom@);
}

/// Loading leads from valid states to valid states.
pub proof fn lemma_load_keeps_valid<B: Bus>(state: B::V, image: Seq<u8>)
    requires
        B::valid(state),
    ensures
        B::valid(load_spec::<B>(state, image)),
    decreases image.len(),
{
    if image.len() > 0 {
        lemma_load_keeps_valid::<B>(state, image.drop_last());
        B::lemma_next_valid(
            load_spec::<B>(state, image.drop_last()),
            ((image.len() - 1) % 65536) as u16,
            image.last(),
        );
    }
}

/// An image that fits the address space is read back where it was loaded:
/// behind the load, a plain address below the length of the image reads as
/// the byte of the image with that index, and a plain address at or above
/// it reads as before.
pub proof fn lemma_load_reads_back<B: Bus>(state: B::V, image: Seq<u8>, plain: u16)
    requires
        B::valid(state),
        image.len() <= 65536,
        !B::special(plain),
    ensures
        B::read_byte(load_spec::<B>(state, image), plain) == if plain < image.len() {
            image[plain as int]
        } else {
            B::read_byte(state, plain)
        },
    decreases image.len(),
{
    if image.len() > 0 {
        let front = image.drop_last();
        lemma_load_reads_back::<B>(state, front, plain);
        lemma_load_keeps_valid::<B>(state, front);
        B::lemma_store(load_spec::<B>(state, front), (image.len() - 1) as u16, image.last(), plain);
    }
}

} // verus!
