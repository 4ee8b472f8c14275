//! Building a core from a linked executable: the text section becomes the
//! program and the start of memory, the data section is placed at word 2048
//! of a memory of 3072 words.

use crate::object_file::{object_section, section_data};
use crate::rv32i_processor::{initial_state, CpuState, Rv32iProcessor};
use vstd::prelude::*;

verus! {

/// The number of memory words of a core built from an executable.
pub const MEMORY_WORDS: usize = 3072;

/// The number of words at the start of memory that form the program.
pub const PROGRAM_WORDS: usize = 2048;

/// The word at which the data section starts.
pub const DATA_BASE: usize = 2048;

/// Why an executable could not be turned into a core.
#[derive(Debug, PartialEq, Eq, Clone, Copy, Structural)]
pub enum ElfLoadError {
    /// The file, or the contents of one of its sections, could not be read.
    Malformed,
    /// The file has no text section or no data section.
    MissingSection,
    /// A section's length is not a whole number of words.
    UnalignedSection,
    /// The text section exceeds the program area, or the data section the
    /// memory above it.
    SectionTooLarge,
}

/// The little-endian word formed by bytes `4i` to `4i + 3` of `b`.
pub open spec fn le_word(b: Seq<u8>, i: int) -> u32 {
    (b[4 * i] + b[4 * i + 1] * 0x100 + b[4 * i + 2] * 0x1_0000 + b[4 * i + 3] * 0x100_0000) as u32
}

/// The bytes of `b` grouped into little-endian words.
pub open spec fn le_words(b: Seq<u8>) -> Seq<u32> {
    Seq::new(b.len() / 4, |i: int| le_word(b, i))
}

/// Memory holding `text` from word 0 and `data` from word `DATA_BASE`, zero
/// elsewhere.
pub open spec fn image_memory(text: Seq<u32>, data: Seq<u32>) -> Seq<u32> {
    Seq::new(
        MEMORY_WORDS as nat,
        |i: int|
            if i < text.len() {
                text[i]
            } else if DATA_BASE <= i < DATA_BASE + data.len() {
                data[i - DATA_BASE]
            } else {
                0u32
            },
    )
}

/// The starting state of a core built from the given section contents.
pub open spec fn image_state(text: Seq<u8>, data: Seq<u8>) -> CpuState {
    let memory = image_memory(le_words(text), le_words(data));
    initial_state(memory.subrange(0, PROGRAM_WORDS as int), memory)
}

/// What is wrong with the section contents `text` and `data`, if anything.
pub open spec fn sections_error(text: Seq<u8>, data: Seq<u8>) -> Option<ElfLoadError> {
    if text.len() % 4 != 0 || data.len() % 4 != 0 {
        Some(ElfLoadError::UnalignedSection)
    } else if text.len() / 4 > PROGRAM_WORDS || data.len() / 4 > MEMORY_WORDS - DATA_BASE {
        Some(ElfLoadError::SectionTooLarge)
    } else {
        None
    }
}

/// The outcome of a section lookup, as an error or the section's bytes.
pub open spec fn found_section(lookup: Option<Option<Seq<u8>>>) -> Result<Seq<u8>, ElfLoadError> {
    match lookup {
        None => Err(ElfLoadError::Malformed),
        Some(None) => Err(ElfLoadError::MissingSection),
        Some(Some(bytes)) => Ok(bytes),
    }
}

/// The little-endian word at word index `i` of `b`.
fn le_word_at(b: &[u8], i: usize) -> (w: u32)
    requires
        4 * i + 3 < b@.len(),
    ensures
        w == le_word(b@, i as int),
{
    let len = b.len();
    assert(4 * i < len);
    let k = 4 * i;
    (b[k] as u32) + (b[k + 1] as u32) * 0x100 + (b[k + 2] as u32) * 0x1_0000 + (b[k + 3] as u32)
        * 0x100_0000
}

/// The outcome of looking up section `name`, as the library's error or the
/// section's bytes.
fn read_section(file: &[u8], name: &str) -> (r: Result<Vec<u8>, ElfLoadError>)
    ensures
        match r {
            Ok(bytes) => found_section(object_section(file@, name@)) == Ok::<Seq<u8>, ElfLoadError>(
                bytes@,
            ),
            Err(e) => found_section(object_section(file@, name@)) == Err::<Seq<u8>, ElfLoadError>(
                e,
            ),
        },
{
    match section_data(file, name) {
        Ok(Some(bytes)) => Ok(bytes),
        Ok(None) => Err(ElfLoadError::MissingSection),
        Err(_) => Err(ElfLoadError::Malformed),
    }
}

impl Rv32iProcessor {
    /// A core whose program and memory come from the contents of a text
    /// section and a data section, each a whole number of little-endian
    /// words.
    pub fn from_sections(text: &[u8], data: &[u8]) -> (r: Result<Rv32iProcessor, ElfLoadError>)
        ensures
            match sections_error(text@, data@) {
                Some(e) => r == Err::<Rv32iProcessor, ElfLoadError>(e),
                None => r matches Ok(cpu) && cpu@ == image_state(text@, data@),
            },
    {
        if text.len() % 4 != 0 || data.len() % 4 != 0 {
            return Err(ElfLoadError::UnalignedSection);
        }
        let text_words = text.len() / 4;
        let data_words = data.len() / 4;
        if text_words > PROGRAM_WORDS || data_words > MEMORY_WORDS - DATA_BASE {
            return Err(ElfLoadError::SectionTooLarge);
        }
        let ghost text_seq = le_words(text@);
        let ghost data_seq = le_words(data@);
        let mut memory: Vec<u32> = Vec::new();
        let mut i: usize = 0;
        while i < MEMORY_WORDS
            invariant
                i <= MEMORY_WORDS,
                text_words == text_seq.len() <= PROGRAM_WORDS,
                data_words == data_seq.len() <= MEMORY_WORDS - DATA_BASE,
                text@.len() == 4 * text_words,
                data@.len() == 4 * data_words,
                text_seq == le_words(text@),
                data_seq == le_words(data@),
                memory@ =~= image_memory(text_seq, data_seq).subrange(0, i as int),
            decreases MEMORY_WORDS - i,
        {
            let word = if i < text_words {
                le_word_at(text, i)
            } else if DATA_BASE <= i && i < DATA_BASE + data_words {
                le_word_at(data, i - DATA_BASE)
            } else {
                0
            };
            memory.push(word);
            i += 1;
        }
        let mut program: Vec<u32> = Vec::new();
        let mut k: usize = 0;
        while k < PROGRAM_WORDS
            invariant
                k <= PROGRAM_WORDS,
                memory@.len() == MEMORY_WORDS,
                program@ =~= memory@.subrange(0, k as int),
            decreases PROGRAM_WORDS - k,
        {
            program.push(memory[k]);
            k += 1;
        }
        assert(memory@ =~= image_memory(text_seq, data_seq));
        Ok(Rv32iProcessor::new(program, memory))
    }

    /// A core built from the bytes of a linked executable: its `.text`
    /// section is the program, placed at word 0 of memory, and its `.data`
    /// section is placed at word 2048.
    pub fn new_from_elf(binary_data: &[u8]) -> (r: Result<Rv32iProcessor, ElfLoadError>)
        ensures
            match found_section(object_section(binary_data@, ".text"@)) {
                Err(e) => r == Err::<Rv32iProcessor, ElfLoadError>(e),
                Ok(text) => match found_section(object_section(binary_data@, ".data"@)) {
                    Err(e) => r == Err::<Rv32iProcessor, ElfLoadError>(e),
                    Ok(data) => match sections_error(text, data) {
                        Some(e) => r == Err::<Rv32iProcessor, ElfLoadError>(e),
                        None => r matches Ok(cpu) && cpu@ == image_state(text, data),
                    },
                },
            },
    {
        let text = read_section(binary_data, ".text")?;
        let data = read_section(binary_data, ".data")?;
        Rv32iProcessor::from_sections(&text, &data)
    }
}

} // verus!
