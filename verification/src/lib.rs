//! Argument validation and output-type resolution for a model-conversion
//! front end: the checks that turn loosely-typed command inputs (a model
//! directory, an output-type token, a split-size string, flag combinations)
//! into a consistent conversion configuration, rejecting bad combinations
//! before any real work starts.
use vstd::prelude::*;

pub mod config;
pub mod gguf;
pub mod model;
pub mod outtype;
pub mod strnum;

verus! {

use vstd::string::StringExecFns;
use vstd::string::StrSliceExecFns;
use crate::strnum::{
    trim_end, trimmed_end_index, lemma_trimmed_end_len_bounds, is_i64_literal, int_literal_val,
    parse_i64,
};

/// Token types of the SentencePiece vocabulary, mirroring the numbering of
/// the external tokenizer registry.
#[derive(Debug, Clone, Copy, PartialEq, Eq)]
pub enum SentencePieceTokenTypes {
    Normal,
    Unknown,
    Control,
    UserDefined,
    Unused,
    Byte,
}

/// The integer code each SentencePiece token type stands for in the external
/// registry.
pub open spec fn sentencepiece_token_type_code(t: SentencePieceTokenTypes) -> int {
    match t {
        SentencePieceTokenTypes::Normal => 1,
        SentencePieceTokenTypes::Unknown => 2,
        SentencePieceTokenTypes::Control => 3,
        SentencePieceTokenTypes::UserDefined => 4,
        SentencePieceTokenTypes::Unused => 5,
        SentencePieceTokenTypes::Byte => 6,
    }
}

impl SentencePieceTokenTypes {
    pub fn to_int(&self) -> (r: i32)
        ensures
            r == sentencepiece_token_type_code(*self),
    {
        match *self {
            SentencePieceTokenTypes::Normal => 1,
            SentencePieceTokenTypes::Unknown => 2,
            SentencePieceTokenTypes::Control => 3,
            SentencePieceTokenTypes::UserDefined => 4,
            SentencePieceTokenTypes::Unused => 5,
            SentencePieceTokenTypes::Byte => 6,
        }
    }
}

/// Why a model path was rejected: it names nothing at all, or it names
/// something that is not a directory. The two cases are distinct so callers
/// can report them apart.
#[derive(Debug, Clone, Copy, PartialEq, Eq)]
pub enum ModelDirError {
    NotFound,
    NotADirectory,
}

pub open spec fn model_dir_error_message(e: ModelDirError) -> Seq<char> {
    match e {
        ModelDirError::NotFound => "Model dir does not exist"@,
        ModelDirError::NotADirectory => "Model dir is not a directory"@,
    }
}

impl ModelDirError {
    /// The user-facing diagnostic for this rejection.
    pub fn message(&self) -> (r: String)
        ensures
            r@ == model_dir_error_message(*self),
    {
        match *self {
            ModelDirError::NotFound => "Model dir does not exist".to_owned(),
            ModelDirError::NotADirectory => "Model dir is not a directory".to_owned(),
        }
    }
}

/// Decides whether the model path may be used as the conversion source,
/// given the two filesystem facts about it: whether anything exists at the
/// path, and whether that thing is a directory. A missing path is reported
/// as `NotFound`; an existing path of the wrong kind as `NotADirectory`.
pub fn validate_model_dir(exists: bool, is_dir: bool) -> (r: Result<(), ModelDirError>)
    ensures
        r is Ok <==> (exists && is_dir),
        !exists ==> r == Err::<(), ModelDirError>(ModelDirError::NotFound),
        exists && !is_dir ==> r == Err::<(), ModelDirError>(ModelDirError::NotADirectory),
{
    if !exists {
        Err(ModelDirError::NotFound)
    } else if !is_dir {
        Err(ModelDirError::NotADirectory)
    } else {
        Ok(())
    }
}

/// Checks the mutual exclusion of tensor splitting and temp-file use: a
/// positive `split_max_tensors` together with `use_temp_file` is a conflict;
/// zero or negative `split_max_tensors` means splitting is disabled, so any
/// temp-file setting is accepted.
pub fn validate_is_split_and_use_temp_file(
    split_max_tensors: i32,
    use_temp_file: bool,
) -> (r: Result<(), String>)
    ensures
        r is Err <==> (split_max_tensors > 0 && use_temp_file),
        split_max_tensors <= 0 ==> r is Ok,
        split_max_tensors > 0 && use_temp_file ==> r is Err,
        r matches Err(m) ==> m@ == "Cannot use temp file when splitting"@,
{
    if split_max_tensors > 0 && use_temp_file {
        return Err("Cannot use temp file when splitting".to_owned());
    }
    Ok(())
}

/// A unit suffix of the split-size string: a decimal multiplier selected by
/// a trailing `K`, `M` or `G`.
#[derive(Debug)]
pub enum SizeSuffix {
    K,
    M,
    G,
}

pub open spec fn size_suffix_of_char(c: char) -> Option<SizeSuffix> {
    if c == 'K' {
        Some(SizeSuffix::K)
    } else if c == 'M' {
        Some(SizeSuffix::M)
    } else if c == 'G' {
        Some(SizeSuffix::G)
    } else {
        None
    }
}

pub open spec fn size_suffix_multiplier(s: SizeSuffix) -> int {
    match s {
        SizeSuffix::K => 1000,
        SizeSuffix::M => 1000000,
        SizeSuffix::G => 1000000000,
    }
}

impl SizeSuffix {
    pub fn multiplier(&self) -> (r: i64)
        ensures
            r == size_suffix_multiplier(*self),
    {
        match self {
            SizeSuffix::K => 1000,
            SizeSuffix::M => 1000 * 1000,
            SizeSuffix::G => 1000 * 1000 * 1000,
        }
    }

    pub fn from_char(c: char) -> (r: Option<Self>)
        ensures
            r == size_suffix_of_char(c),
    {
        match c {
            'K' => Some(SizeSuffix::K),
            'M' => Some(SizeSuffix::M),
            'G' => Some(SizeSuffix::G),
            _ => None,
        }
    }
}

/// The numeric portion of a split-size string: everything up to a trailing
/// unit suffix, after trailing whitespace is dropped.
pub open spec fn split_size_numeric_part(s: Seq<char>) -> Seq<char> {
    let t = trim_end(s);
    if t.len() > 0 && size_suffix_of_char(t.last()) is Some {
        t.drop_last()
    } else {
        t
    }
}

/// The multiplier a split-size string selects: that of its trailing unit
/// suffix, or 1 when it has none.
pub open spec fn split_size_multiplier(s: Seq<char>) -> int {
    let t = trim_end(s);
    if t.len() > 0 {
        match size_suffix_of_char(t.last()) {
            Some(sf) => size_suffix_multiplier(sf),
            None => 1,
        }
    } else {
        1
    }
}

pub open spec fn split_size_format_error(s: Seq<char>) -> Seq<char> {
    "Invalid value: "@ + s + " must be a number, optionally followed by K, M, or G"@
}

pub open spec fn split_size_negative_error(s: Seq<char>) -> Seq<char> {
    "Invalid value: "@ + s + " must be positive"@
}

/// What parsing a split-size string yields: the numeric portion times the
/// suffix multiplier (wrapped to `i64` as the unchecked product is), or the
/// diagnostic for an unparseable or negative value.
pub open spec fn split_size_result(s: Seq<char>) -> Result<i64, Seq<char>> {
    let num = split_size_numeric_part(s);
    if !is_i64_literal(num) {
        Err(split_size_format_error(s))
    } else if int_literal_val(num) < 0 {
        Err(split_size_negative_error(s))
    } else {
        Ok(vstd::wrapping::i64_specs::signed_crop(int_literal_val(num) * split_size_multiplier(s)))
    }
}

/// Parses a split-size string into a byte count. Trailing whitespace is
/// dropped; a trailing `K`, `M` or `G` selects a decimal multiplier; the
/// rest must be a base-10 integer, rejected when malformed or negative.
/// The multiplication is not checked against any maximum size.
pub fn split_max_size_str_to_n_bytes(split_str: &str) -> (r: Result<i64, String>)
    ensures
        r matches Ok(v) ==> split_size_result(split_str@) == Ok::<i64, Seq<char>>(v),
        r matches Err(m) ==> split_size_result(split_str@) == Err::<i64, Seq<char>>(m@),
        r is Ok <==> split_size_result(split_str@) is Ok,
        ({
            let num = split_size_numeric_part(split_str@);
            let prod = int_literal_val(num) * split_size_multiplier(split_str@);
            (is_i64_literal(num) && int_literal_val(num) >= 0 && prod <= i64::MAX) ==> r
                == Ok::<i64, String>(prod as i64)
        }),
{
    proof {
        lemma_trimmed_end_len_bounds(split_str@);
    }
    let end = trimmed_end_index(split_str);
    let ghost t = trim_end(split_str@);
    let mut multiplier: i64 = 1;
    let mut num_end: usize = end;
    if end > 0 {
        let c = split_str.get_char(end - 1);
        proof {
            assert(t.last() == split_str@[end - 1]);
        }
        match SizeSuffix::from_char(c) {
            Some(sf) => {
                multiplier = sf.multiplier();
                num_end = end - 1;
                proof {
                    assert(t.drop_last() =~= split_str@.subrange(0, num_end as int));
                }
            },
            None => {},
        }
    }
    let value_str = split_str.substring_char(0, num_end);
    proof {
        assert(value_str@ =~= split_size_numeric_part(split_str@));
    }
    match parse_i64(value_str) {
        None => Err(
            String::from_str("Invalid value: ").concat(split_str).concat(
                " must be a number, optionally followed by K, M, or G",
            ),
        ),
        Some(value) => {
            if value < 0 {
                Err(String::from_str("Invalid value: ").concat(split_str).concat(
                    " must be positive",
                ))
            } else {
                Ok(value.wrapping_mul(multiplier))
            }
        },
    }
}

} // verus!
