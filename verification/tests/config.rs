use hf_gguf_rs::config::{assemble_config, ConfigError, RawArgs};
use hf_gguf_rs::gguf::LlamaFileType;
use hf_gguf_rs::model::Model;
use hf_gguf_rs::outtype::Outtype;
use hf_gguf_rs::ModelDirError;
use hf_gguf_rs::SentencePieceTokenTypes;
use hf_gguf_rs::SizeSuffix;

fn sample_args() -> RawArgs {
    RawArgs {
        model: String::from("models/tiny"),
        outfile: None,
        outtype: Outtype::F16,
        bigendian: false,
        use_temp_file: false,
        no_lazy: false,
        vocab_only: false,
        split_max_tensors: 0,
        split_max_size: String::from("0"),
        dry_run: false,
        no_tensor_first_split: false,
        verbose: false,
    }
}

#[test]
fn test_assemble_config_defaults() {
    let args = sample_args();
    let config = assemble_config(&args, true, true).unwrap();
    assert_eq!(config.dir_model, String::from("models/tiny"));
    assert_eq!(config.fname_out, String::from("models/tiny"));
    assert_eq!(config.ftype, LlamaFileType::MostlyF16);
    assert_eq!(config.split_max_size, 0);
    assert!(!config.use_temp_file);
    assert_eq!(config.split_max_tensors, 0);
}

#[test]
fn test_assemble_config_explicit_outfile() {
    let mut args = sample_args();
    args.outfile = Some(String::from("out/model.gguf"));
    args.outtype = Outtype::Auto;
    args.split_max_size = String::from("2G");
    let config = assemble_config(&args, true, true).unwrap();
    assert_eq!(config.fname_out, String::from("out/model.gguf"));
    assert_eq!(config.ftype, LlamaFileType::Guessed);
    assert_eq!(config.split_max_size, 2000000000);
}

#[test]
fn test_assemble_config_missing_model_dir() {
    let args = sample_args();
    let result = assemble_config(&args, false, false);
    assert_eq!(result.unwrap_err(), ConfigError::ModelDir(ModelDirError::NotFound));
}

#[test]
fn test_assemble_config_model_path_not_a_directory() {
    let args = sample_args();
    let result = assemble_config(&args, true, false);
    assert_eq!(
        result.unwrap_err(),
        ConfigError::ModelDir(ModelDirError::NotADirectory)
    );
}

#[test]
fn test_assemble_config_split_conflict() {
    let mut args = sample_args();
    args.split_max_tensors = 4;
    args.use_temp_file = true;
    let result = assemble_config(&args, true, true);
    assert_eq!(
        result.unwrap_err(),
        ConfigError::SplitConflict(String::from("Cannot use temp file when splitting"))
    );
}

#[test]
fn test_assemble_config_model_dir_checked_before_conflict() {
    let mut args = sample_args();
    args.split_max_tensors = 4;
    args.use_temp_file = true;
    let result = assemble_config(&args, false, false);
    assert_eq!(result.unwrap_err(), ConfigError::ModelDir(ModelDirError::NotFound));
}

#[test]
fn test_assemble_config_bad_split_size() {
    let mut args = sample_args();
    args.split_max_size = String::from("1Z");
    let result = assemble_config(&args, true, true);
    assert_eq!(
        result.unwrap_err(),
        ConfigError::SplitSize(String::from(
            "Invalid value: 1Z must be a number, optionally followed by K, M, or G"
        ))
    );
}

#[test]
fn test_model_new() {
    let model = Model::new(
        String::from("models/tiny"),
        LlamaFileType::MostlyQ8_0,
        String::from("out.gguf"),
    );
    assert_eq!(model.dir_model, String::from("models/tiny"));
    assert_eq!(model.ftype, LlamaFileType::MostlyQ8_0);
    assert_eq!(model.fname_out, String::from("out.gguf"));
}

#[test]
fn test_get_registered_models() {
    let models = Model::get_registered_models();
    assert_eq!(models.len(), 1);
}

#[test]
fn test_llama_file_type_to_int() {
    assert_eq!(LlamaFileType::AllF32.to_int(), 0);
    assert_eq!(LlamaFileType::MostlyF16.to_int(), 1);
    assert_eq!(LlamaFileType::MostlyQ8_0.to_int(), 7);
    assert_eq!(LlamaFileType::MostlyBF16.to_int(), 32);
    assert_eq!(LlamaFileType::MostlyTQ1_0.to_int(), 36);
    assert_eq!(LlamaFileType::MostlyTQ2_0.to_int(), 37);
    assert_eq!(LlamaFileType::Guessed.to_int(), 1024);
}

#[test]
fn test_sentencepiece_token_types_to_int() {
    assert_eq!(SentencePieceTokenTypes::Normal.to_int(), 1);
    assert_eq!(SentencePieceTokenTypes::Unknown.to_int(), 2);
    assert_eq!(SentencePieceTokenTypes::Control.to_int(), 3);
    assert_eq!(SentencePieceTokenTypes::UserDefined.to_int(), 4);
    assert_eq!(SentencePieceTokenTypes::Unused.to_int(), 5);
    assert_eq!(SentencePieceTokenTypes::Byte.to_int(), 6);
}

#[test]
fn test_size_suffix_from_char() {
    assert!(matches!(SizeSuffix::from_char('K'), Some(SizeSuffix::K)));
    assert!(matches!(SizeSuffix::from_char('M'), Some(SizeSuffix::M)));
    assert!(matches!(SizeSuffix::from_char('G'), Some(SizeSuffix::G)));
    assert!(SizeSuffix::from_char('k').is_none());
    assert!(SizeSuffix::from_char('T').is_none());
}

#[test]
fn test_size_suffix_multiplier() {
    assert_eq!(SizeSuffix::K.multiplier(), 1000);
    assert_eq!(SizeSuffix::M.multiplier(), 1000000);
    assert_eq!(SizeSuffix::G.multiplier(), 1000000000);
}
