//! The user-facing output-precision selector: a closed set of tokens, each
//! with a canonical lowercase spelling and a fixed mapping to a file-type
//! code. Tokens are matched after normalizing dashes to underscores, so
//! `q8-0` and `q8_0` select the same variant.
use vstd::prelude::*;
use vstd::string::StrSliceExecFns;
use vstd::string::StringExecFns;
use std::str::FromStr;

use crate::gguf::LlamaFileType;

verus! {

/// Output numeric precision/quantization scheme selected on the command
/// line.
#[derive(Debug, Clone, Copy, PartialEq)]
pub enum Outtype {
    F32,
    F16,
    Bf16,
    Q8_0,
    Tq1_0,
    Tq2_0,
    Auto,
}

/// A token with every dash turned into an underscore; parsing goes by this
/// normalized form.
pub open spec fn normalize_token(s: Seq<char>) -> Seq<char> {
    s.map_values(|c: char| if c == '-' { '_' } else { c })
}

/// The canonical (underscore) spelling of each variant.
pub open spec fn token_of(o: Outtype) -> Seq<char> {
    match o {
        Outtype::F32 => "f32"@,
        Outtype::F16 => "f16"@,
        Outtype::Bf16 => "bf16"@,
        Outtype::Q8_0 => "q8_0"@,
        Outtype::Tq1_0 => "tq1_0"@,
        Outtype::Tq2_0 => "tq2_0"@,
        Outtype::Auto => "auto"@,
    }
}

/// Which variant a raw token selects: its normalized form must equal one of
/// the seven canonical spellings.
pub open spec fn outtype_of_token(s: Seq<char>) -> Option<Outtype> {
    let n = normalize_token(s);
    if n == "f32"@ {
        Some(Outtype::F32)
    } else if n == "f16"@ {
        Some(Outtype::F16)
    } else if n == "bf16"@ {
        Some(Outtype::Bf16)
    } else if n == "q8_0"@ {
        Some(Outtype::Q8_0)
    } else if n == "tq1_0"@ {
        Some(Outtype::Tq1_0)
    } else if n == "tq2_0"@ {
        Some(Outtype::Tq2_0)
    } else if n == "auto"@ {
        Some(Outtype::Auto)
    } else {
        None
    }
}

/// The file-type code each variant resolves to. Both ternary variants
/// currently share one code, and `Auto` resolves to the `Guessed` sentinel,
/// deferring the choice to data-driven inference.
pub open spec fn llama_file_type_of(o: Outtype) -> LlamaFileType {
    match o {
        Outtype::F32 => LlamaFileType::AllF32,
        Outtype::F16 => LlamaFileType::MostlyF16,
        Outtype::Bf16 => LlamaFileType::MostlyBF16,
        Outtype::Q8_0 => LlamaFileType::MostlyQ8_0,
        Outtype::Tq1_0 => LlamaFileType::MostlyTQ1_0,
        Outtype::Tq2_0 => LlamaFileType::MostlyTQ1_0,
        Outtype::Auto => LlamaFileType::Guessed,
    }
}

/// Compares a raw token against a canonical spelling, treating a dash in
/// the raw token as an underscore.
fn token_matches(s: &str, canon: &str) -> (b: bool)
    ensures
        b == (normalize_token(s@) == canon@),
{
    let n = s.unicode_len();
    let m = canon.unicode_len();
    if n != m {
        proof {
            assert(normalize_token(s@).len() == s@.len());
        }
        return false;
    }
    let mut i: usize = 0;
    while i < n
        invariant
            i <= n,
            n == s@.len(),
            n == canon@.len(),
            forall|j: int| 0 <= j < i ==> normalize_token(s@)[j] == canon@[j],
        decreases n - i,
    {
        let c = s.get_char(i);
        let nc = if c == '-' {
            '_'
        } else {
            c
        };
        let d = canon.get_char(i);
        if nc != d {
            proof {
                assert(normalize_token(s@)[i as int] != canon@[i as int]);
            }
            return false;
        }
        i = i + 1;
    }
    proof {
        assert(normalize_token(s@) =~= canon@);
    }
    true
}

impl Outtype {
    /// The canonical lowercase token of this variant, the exact inverse of
    /// parsing.
    pub fn to_str(&self) -> (r: &'static str)
        ensures
            r@ == token_of(*self),
    {
        match *self {
            Outtype::F32 => "f32",
            Outtype::F16 => "f16",
            Outtype::Bf16 => "bf16",
            Outtype::Q8_0 => "q8_0",
            Outtype::Tq1_0 => "tq1_0",
            Outtype::Tq2_0 => "tq2_0",
            Outtype::Auto => "auto",
        }
    }

    /// Resolves this variant to the file-type code written into the output
    /// header.
    pub fn to_llama_file_type(&self) -> (r: LlamaFileType)
        ensures
            r == llama_file_type_of(*self),
    {
        match *self {
            Outtype::F32 => LlamaFileType::AllF32,
            Outtype::F16 => LlamaFileType::MostlyF16,
            Outtype::Bf16 => LlamaFileType::MostlyBF16,
            Outtype::Q8_0 => LlamaFileType::MostlyQ8_0,
            Outtype::Tq1_0 => LlamaFileType::MostlyTQ1_0,
            Outtype::Tq2_0 => LlamaFileType::MostlyTQ1_0,
            Outtype::Auto => LlamaFileType::Guessed,
        }
    }

    /// Parses a raw token, normalizing dashes to underscores first, and
    /// rejects anything that matches none of the seven canonical spellings.
    pub fn from_str(s: &str) -> (r: Result<Outtype, String>)
        ensures
            r matches Ok(o) ==> outtype_of_token(s@) == Some(o),
            r is Err <==> outtype_of_token(s@) is None,
            r matches Err(m) ==> m@ == "Invalid value for Outtype: "@ + s@,
    {
        if token_matches(s, "f32") {
            Ok(Outtype::F32)
        } else if token_matches(s, "f16") {
            Ok(Outtype::F16)
        } else if token_matches(s, "bf16") {
            Ok(Outtype::Bf16)
        } else if token_matches(s, "q8_0") {
            Ok(Outtype::Q8_0)
        } else if token_matches(s, "tq1_0") {
            Ok(Outtype::Tq1_0)
        } else if token_matches(s, "tq2_0") {
            Ok(Outtype::Tq2_0)
        } else if token_matches(s, "auto") {
            Ok(Outtype::Auto)
        } else {
            Err("Invalid value for Outtype: ".to_owned().concat(s))
        }
    }

    /// All variants, in declaration order.
    pub fn value_variants() -> (r: Vec<Outtype>)
        ensures
            r@ == seq![
                Outtype::F32,
                Outtype::F16,
                Outtype::Bf16,
                Outtype::Q8_0,
                Outtype::Tq1_0,
                Outtype::Tq2_0,
                Outtype::Auto,
            ],
    {
        let mut v: Vec<Outtype> = Vec::new();
        v.push(Outtype::F32);
        v.push(Outtype::F16);
        v.push(Outtype::Bf16);
        v.push(Outtype::Q8_0);
        v.push(Outtype::Tq1_0);
        v.push(Outtype::Tq2_0);
        v.push(Outtype::Auto);
        proof {
            assert(v@ =~= seq![
                Outtype::F32,
                Outtype::F16,
                Outtype::Bf16,
                Outtype::Q8_0,
                Outtype::Tq1_0,
                Outtype::Tq2_0,
                Outtype::Auto,
            ]);
        }
        v
    }
}

impl FromStr for Outtype {
    type Err = String;

    fn from_str(s: &str) -> Result<Self, String> {
        Outtype::from_str(s)
    }
}

proof fn lemma_seq_neq_len<T>(a: Seq<T>, b: Seq<T>)
    requires
        a.len() != b.len(),
    ensures
        a != b,
{
}

proof fn lemma_seq_neq_at<T>(a: Seq<T>, b: Seq<T>, i: int)
    requires
        a[i] != b[i],
    ensures
        a != b,
{
}

/// Round trip: parsing the canonical token of a variant yields that variant
/// back, so `parse(canonical_string(parse(token)))` equals `parse(token)`
/// on every valid token.
pub proof fn lemma_token_roundtrip(o: Outtype)
    ensures
        outtype_of_token(token_of(o)) == Some(o),
{
    reveal_strlit("f32");
    reveal_strlit("f16");
    reveal_strlit("bf16");
    reveal_strlit("q8_0");
    reveal_strlit("tq1_0");
    reveal_strlit("tq2_0");
    reveal_strlit("auto");
    assert(normalize_token("f32"@) =~= "f32"@);
    assert(normalize_token("f16"@) =~= "f16"@);
    assert(normalize_token("bf16"@) =~= "bf16"@);
    assert(normalize_token("q8_0"@) =~= "q8_0"@);
    assert(normalize_token("tq1_0"@) =~= "tq1_0"@);
    assert(normalize_token("tq2_0"@) =~= "tq2_0"@);
    assert(normalize_token("auto"@) =~= "auto"@);
    lemma_seq_neq_at("f16"@, "f32"@, 1);
    lemma_seq_neq_len("bf16"@, "f32"@);
    lemma_seq_neq_len("bf16"@, "f16"@);
    lemma_seq_neq_len("q8_0"@, "f32"@);
    lemma_seq_neq_len("q8_0"@, "f16"@);
    lemma_seq_neq_at("q8_0"@, "bf16"@, 0);
    lemma_seq_neq_len("tq1_0"@, "f32"@);
    lemma_seq_neq_len("tq1_0"@, "f16"@);
    lemma_seq_neq_len("tq1_0"@, "bf16"@);
    lemma_seq_neq_len("tq1_0"@, "q8_0"@);
    lemma_seq_neq_len("tq2_0"@, "f32"@);
    lemma_seq_neq_len("tq2_0"@, "f16"@);
    lemma_seq_neq_len("tq2_0"@, "bf16"@);
    lemma_seq_neq_len("tq2_0"@, "q8_0"@);
    lemma_seq_neq_at("tq2_0"@, "tq1_0"@, 2);
    lemma_seq_neq_len("auto"@, "f32"@);
    lemma_seq_neq_len("auto"@, "f16"@);
    lemma_seq_neq_at("auto"@, "bf16"@, 0);
    lemma_seq_neq_at("auto"@, "q8_0"@, 0);
    lemma_seq_neq_len("auto"@, "tq1_0"@);
    lemma_seq_neq_len("auto"@, "tq2_0"@);
}

/// Parsing a token and parsing its canonical re-spelling agree on every
/// token that parses at all.
pub proof fn lemma_parse_canonical_roundtrip(s: Seq<char>, o: Outtype)
    requires
        outtype_of_token(s) == Some(o),
    ensures
        outtype_of_token(token_of(o)) == Some(o),
{
    lemma_token_roundtrip(o);
}

/// Dash form and underscore form parse alike: parsing goes by the
/// normalized token alone.
pub proof fn lemma_parse_ignores_dashes(s: Seq<char>)
    ensures
        outtype_of_token(normalize_token(s)) == outtype_of_token(s),
{
    assert(normalize_token(normalize_token(s)) =~= normalize_token(s));
}

/// Every variant resolves to exactly one file-type code, and `Auto`
/// resolves to the `Guessed` sentinel.
pub proof fn lemma_file_type_mapping_unique(o: Outtype, f1: LlamaFileType, f2: LlamaFileType)
    requires
        llama_file_type_of(o) == f1,
        llama_file_type_of(o) == f2,
    ensures
        f1 == f2,
        llama_file_type_of(Outtype::Auto) == LlamaFileType::Guessed,
{
}

} // verus!
