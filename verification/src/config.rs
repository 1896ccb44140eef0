//! Assembly of the validated conversion configuration: the validators run
//! in a fixed order — model directory, split/temp-file conflict, split size
//! — and the first failure aborts the assembly. On success the raw inputs
//! are normalized into one immutable bundle for the conversion pipeline.
use vstd::prelude::*;

use crate::gguf::LlamaFileType;
use crate::outtype::{Outtype, llama_file_type_of};
use crate::{
    ModelDirError, split_max_size_str_to_n_bytes, split_size_result,
    validate_is_split_and_use_temp_file, validate_model_dir,
};

verus! {

/// The raw, already-parsed command inputs fed to validation, before any
/// checking.
pub struct RawArgs {
    pub model: String,
    pub outfile: Option<String>,
    pub outtype: Outtype,
    pub bigendian: bool,
    pub use_temp_file: bool,
    pub no_lazy: bool,
    pub vocab_only: bool,
    pub split_max_tensors: i32,
    pub split_max_size: String,
    pub dry_run: bool,
    pub no_tensor_first_split: bool,
    pub verbose: bool,
}

/// The validated conversion configuration handed onward: source directory,
/// resolved output path and file type, split settings in bytes, and the
/// passthrough flags.
#[derive(Debug)]
pub struct ConversionConfig {
    pub dir_model: String,
    pub fname_out: String,
    pub ftype: LlamaFileType,
    pub bigendian: bool,
    pub use_temp_file: bool,
    pub no_lazy: bool,
    pub vocab_only: bool,
    pub split_max_tensors: i32,
    pub split_max_size: i64,
    pub dry_run: bool,
    pub no_tensor_first_split: bool,
    pub verbose: bool,
}

/// The first validation failure met during assembly, in validation order.
#[derive(Debug, PartialEq, Eq)]
pub enum ConfigError {
    ModelDir(ModelDirError),
    SplitConflict(String),
    SplitSize(String),
}

/// How a successful configuration relates to the raw inputs: paths and
/// flags are carried over, the output path defaults to the model directory,
/// the output type is resolved to its file-type code, and the split size is
/// the parsed byte count.
pub open spec fn config_matches(c: ConversionConfig, args: RawArgs, split_bytes: i64) -> bool {
    &&& c.dir_model == args.model
    &&& c.fname_out == (match args.outfile {
        Some(o) => o,
        None => args.model,
    })
    &&& c.ftype == llama_file_type_of(args.outtype)
    &&& c.bigendian == args.bigendian
    &&& c.use_temp_file == args.use_temp_file
    &&& c.no_lazy == args.no_lazy
    &&& c.vocab_only == args.vocab_only
    &&& c.split_max_tensors == args.split_max_tensors
    &&& c.split_max_size == split_bytes
    &&& c.dry_run == args.dry_run
    &&& c.no_tensor_first_split == args.no_tensor_first_split
    &&& c.verbose == args.verbose
}

/// Runs the validators in their fixed order on the raw inputs, stopping at
/// the first failure, and assembles the configuration on success. The two
/// filesystem facts about the model path — whether it exists, and whether
/// it is a directory — are passed in by the caller that performed the stat.
pub fn assemble_config(args: &RawArgs, model_exists: bool, model_is_dir: bool) -> (r: Result<
    ConversionConfig,
    ConfigError,
>)
    ensures
        !model_exists ==> r == Err::<ConversionConfig, ConfigError>(
            ConfigError::ModelDir(ModelDirError::NotFound),
        ),
        model_exists && !model_is_dir ==> r == Err::<ConversionConfig, ConfigError>(
            ConfigError::ModelDir(ModelDirError::NotADirectory),
        ),
        model_exists && model_is_dir && args.split_max_tensors > 0 && args.use_temp_file ==> (
        r matches Err(e) && e matches ConfigError::SplitConflict(m) && m@
            == "Cannot use temp file when splitting"@),
        model_exists && model_is_dir && !(args.split_max_tensors > 0 && args.use_temp_file) ==> {
            match split_size_result(args.split_max_size@) {
                Err(msg) => r matches Err(e) && e matches ConfigError::SplitSize(m) && m@ == msg,
                Ok(bytes) => r matches Ok(c) && config_matches(c, *args, bytes),
            }
        },
{
    match validate_model_dir(model_exists, model_is_dir) {
        Err(e) => {
            return Err(ConfigError::ModelDir(e));
        },
        Ok(()) => {},
    }
    match validate_is_split_and_use_temp_file(args.split_max_tensors, args.use_temp_file) {
        Err(m) => {
            return Err(ConfigError::SplitConflict(m));
        },
        Ok(()) => {},
    }
    let fname_out = match &args.outfile {
        Some(o) => o.clone(),
        None => args.model.clone(),
    };
    let split_max_size = match split_max_size_str_to_n_bytes(args.split_max_size.as_str()) {
        Ok(n) => n,
        Err(m) => {
            return Err(ConfigError::SplitSize(m));
        },
    };
    Ok(
        ConversionConfig {
            dir_model: args.model.clone(),
            fname_out,
            ftype: args.outtype.to_llama_file_type(),
            bigendian: args.bigendian,
            use_temp_file: args.use_temp_file,
            no_lazy: args.no_lazy,
            vocab_only: args.vocab_only,
            split_max_tensors: args.split_max_tensors,
            split_max_size,
            dry_run: args.dry_run,
            no_tensor_first_split: args.no_tensor_first_split,
            verbose: args.verbose,
        },
    )
}

} // verus!
