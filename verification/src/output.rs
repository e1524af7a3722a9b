use vstd::prelude::*;

verus! {

/// What a tick shows to the outside: the framebuffer, whether it was drawn to
/// during the tick, and whether the buzzer sounds.
pub struct ProcessorState {
    /// The framebuffer, 32 rows of 64 pixels, each 0 (off) or 1 (on).
    pub vram: [[u8; 64]; 32],
    /// Whether the tick cleared the screen or drew a sprite.
    pub vram_changed: bool,
    /// Whether the sound timer is running.
    pub beep: bool,
}

} // verus!
