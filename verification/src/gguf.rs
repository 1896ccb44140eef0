//! The file-type codes written into the header of the output container,
//! mirroring the fixed numbering of the external format registry.
use vstd::prelude::*;

verus! {

/// The overall quantization/storage scheme of an output file. Each variant
/// stands for one fixed integer code of the external registry; `Guessed` is
/// the sentinel for "not specified in the model file".
#[derive(Debug, Clone, Copy, PartialEq, Eq)]
pub enum LlamaFileType {
    AllF32,
    MostlyF16,
    MostlyQ4_0,
    MostlyQ4_1,
    MostlyQ8_0,
    MostlyQ5_0,
    MostlyQ5_1,
    MostlyQ2K,
    MostlyQ3KS,
    MostlyQ3KM,
    MostlyQ3KL,
    MostlyQ4KS,
    MostlyQ4KM,
    MostlyQ5KS,
    MostlyQ5KM,
    MostlyQ6K,
    MostlyIQ2XXS,
    MostlyIQ2XS,
    MostlyQ2KS,
    MostlyIQ3XS,
    MostlyIQ3XXS,
    MostlyIQ1S,
    MostlyIQ4NL,
    MostlyIQ3S,
    MostlyIQ3M,
    MostlyIQ2S,
    MostlyIQ2M,
    MostlyIQ4XS,
    MostlyIQ1M,
    MostlyBF16,
    MostlyTQ1_0,
    MostlyTQ2_0,
    Guessed,
}

/// The integer code each file type stands for in the external registry.
pub open spec fn file_type_code(f: LlamaFileType) -> int {
    match f {
        LlamaFileType::AllF32 => 0,
        LlamaFileType::MostlyF16 => 1,
        LlamaFileType::MostlyQ4_0 => 2,
        LlamaFileType::MostlyQ4_1 => 3,
        LlamaFileType::MostlyQ8_0 => 7,
        LlamaFileType::MostlyQ5_0 => 8,
        LlamaFileType::MostlyQ5_1 => 9,
        LlamaFileType::MostlyQ2K => 10,
        LlamaFileType::MostlyQ3KS => 11,
        LlamaFileType::MostlyQ3KM => 12,
        LlamaFileType::MostlyQ3KL => 13,
        LlamaFileType::MostlyQ4KS => 14,
        LlamaFileType::MostlyQ4KM => 15,
        LlamaFileType::MostlyQ5KS => 16,
        LlamaFileType::MostlyQ5KM => 17,
        LlamaFileType::MostlyQ6K => 18,
        LlamaFileType::MostlyIQ2XXS => 19,
        LlamaFileType::MostlyIQ2XS => 20,
        LlamaFileType::MostlyQ2KS => 21,
        LlamaFileType::MostlyIQ3XS => 22,
        LlamaFileType::MostlyIQ3XXS => 23,
        LlamaFileType::MostlyIQ1S => 24,
        LlamaFileType::MostlyIQ4NL => 25,
        LlamaFileType::MostlyIQ3S => 26,
        LlamaFileType::MostlyIQ3M => 27,
        LlamaFileType::MostlyIQ2S => 28,
        LlamaFileType::MostlyIQ2M => 29,
        LlamaFileType::MostlyIQ4XS => 30,
        LlamaFileType::MostlyIQ1M => 31,
        LlamaFileType::MostlyBF16 => 32,
        LlamaFileType::MostlyTQ1_0 => 36,
        LlamaFileType::MostlyTQ2_0 => 37,
        LlamaFileType::Guessed => 1024,
    }
}

impl LlamaFileType {
    /// The registry code of this file type, as written into the header.
    pub fn to_int(&self) -> (r: i32)
        ensures
            r == file_type_code(*self),
    {
        match *self {
            LlamaFileType::AllF32 => 0,
            LlamaFileType::MostlyF16 => 1,
            LlamaFileType::MostlyQ4_0 => 2,
            LlamaFileType::MostlyQ4_1 => 3,
            LlamaFileType::MostlyQ8_0 => 7,
            LlamaFileType::MostlyQ5_0 => 8,
            LlamaFileType::MostlyQ5_1 => 9,
            LlamaFileType::MostlyQ2K => 10,
            LlamaFileType::MostlyQ3KS => 11,
            LlamaFileType::MostlyQ3KM => 12,
            LlamaFileType::MostlyQ3KL => 13,
            LlamaFileType::MostlyQ4KS => 14,
            LlamaFileType::MostlyQ4KM => 15,
            LlamaFileType::MostlyQ5KS => 16,
            LlamaFileType::MostlyQ5KM => 17,
            LlamaFileType::MostlyQ6K => 18,
            LlamaFileType::MostlyIQ2XXS => 19,
            LlamaFileType::MostlyIQ2XS => 20,
            LlamaFileType::MostlyQ2KS => 21,
            LlamaFileType::MostlyIQ3XS => 22,
            LlamaFileType::MostlyIQ3XXS => 23,
            LlamaFileType::MostlyIQ1S => 24,
            LlamaFileType::MostlyIQ4NL => 25,
            LlamaFileType::MostlyIQ3S => 26,
            LlamaFileType::MostlyIQ3M => 27,
            LlamaFileType::MostlyIQ2S => 28,
            LlamaFileType::MostlyIQ2M => 29,
            LlamaFileType::MostlyIQ4XS => 30,
            LlamaFileType::MostlyIQ1M => 31,
            LlamaFileType::MostlyBF16 => 32,
            LlamaFileType::MostlyTQ1_0 => 36,
            LlamaFileType::MostlyTQ2_0 => 37,
            LlamaFileType::Guessed => 1024,
        }
    }
}

} // verus!
