//! Loading a program image into memory.

use vstd::prelude::*;

verus! {

/// Why a program image was not loaded.
#[derive(Clone, Copy, Debug, PartialEq, Eq, Structural)]
pub enum LoadError {
    /// The image holds no byte.
    EmptyImage,
    /// The image holds more than the 3584 bytes between 0x200 and the end of memory.
    ImageTooLarge,
}

/// What loading `rom` does to `memory`: an empty image and an image of more
/// than 3584 bytes are refused; any other is copied to address 0x200 and
/// upwards, and memory outside the copy stays as it was.
pub open spec fn load_spec(memory: Seq<u8>, rom: Seq<u8>) -> Result<Seq<u8>, LoadError> {
    if rom.len() == 0 {
        Err(LoadError::EmptyImage)
    } else if rom.len() > 3584 {
        Err(LoadError::ImageTooLarge)
    } else {
        Ok(
            Seq::new(
                4096,
                |a: int|
                    if 512 <= a < 512 + rom.len() {
                        rom[a - 512]
                    } else {
                        memory[a]
                    },
            ),
        )
    }
}

/// Copies the program image `rom` into `memory` at address 0x200. A refused
/// image leaves `memory` untouched.
pub fn load_rom(memory: &mut [u8; 4096], rom: &[u8]) -> (res: Result<(), LoadError>)
    ensures
        match load_spec(old(memory)@, rom@) {
            Ok(loaded) => res is Ok && final(memory)@ == loaded,
            Err(e) => res == Err::<(), LoadError>(e) && final(memory)@ == old(memory)@,
        },
{
    if rom.len() == 0 {
        return Err(LoadError::EmptyImage);
    }
    if rom.len() > 4096 - 512 {
        return Err(LoadError::ImageTooLarge);
    }
    let ghost before = memory@;
    let mut k: usize = 0;
    while k < rom.len()
        invariant
            k <= rom.len() <= 3584,
            forall|a: int|
                0 <= a < 4096 ==> memory@[a] == (if 512 <= a < 512 + k {
                    rom@[a - 512]
                } else {
                    before[a]
                }),
        decreases rom.len() - k,
    {
        memory[512 + k] = rom[k];
        k += 1;
    }
    Ok(())
}

} // verus!
