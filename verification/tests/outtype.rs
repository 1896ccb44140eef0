use hf_gguf_rs::gguf::LlamaFileType;
use hf_gguf_rs::outtype::Outtype;

#[test]
fn test_to_str() {
    assert_eq!(Outtype::F32.to_str(), "f32");
    assert_eq!(Outtype::F16.to_str(), "f16");
    assert_eq!(Outtype::Bf16.to_str(), "bf16");
    assert_eq!(Outtype::Q8_0.to_str(), "q8_0");
    assert_eq!(Outtype::Tq1_0.to_str(), "tq1_0");
    assert_eq!(Outtype::Tq2_0.to_str(), "tq2_0");
    assert_eq!(Outtype::Auto.to_str(), "auto");
}

#[test]
fn test_to_llama_file_type() {
    assert_eq!(Outtype::F32.to_llama_file_type(), LlamaFileType::AllF32);
    assert_eq!(Outtype::F16.to_llama_file_type(), LlamaFileType::MostlyF16);
    assert_eq!(
        Outtype::Bf16.to_llama_file_type(),
        LlamaFileType::MostlyBF16
    );
    assert_eq!(
        Outtype::Q8_0.to_llama_file_type(),
        LlamaFileType::MostlyQ8_0
    );
    assert_eq!(
        Outtype::Tq1_0.to_llama_file_type(),
        LlamaFileType::MostlyTQ1_0
    );
    assert_eq!(
        Outtype::Tq2_0.to_llama_file_type(),
        LlamaFileType::MostlyTQ1_0
    );
    assert_eq!(Outtype::Auto.to_llama_file_type(), LlamaFileType::Guessed);
}

#[test]
fn test_from_str_valid() {
    assert_eq!("f32".parse::<Outtype>().unwrap(), Outtype::F32);
    assert_eq!("f16".parse::<Outtype>().unwrap(), Outtype::F16);
    assert_eq!("bf16".parse::<Outtype>().unwrap(), Outtype::Bf16);
    assert_eq!("q8_0".parse::<Outtype>().unwrap(), Outtype::Q8_0);
    assert_eq!("tq1_0".parse::<Outtype>().unwrap(), Outtype::Tq1_0);
    assert_eq!("tq2_0".parse::<Outtype>().unwrap(), Outtype::Tq2_0);
    assert_eq!("auto".parse::<Outtype>().unwrap(), Outtype::Auto);
}

#[test]
fn test_from_str_invalid() {
    assert!("invalid".parse::<Outtype>().is_err());
    assert!("q8-1".parse::<Outtype>().is_err());
    assert!("".parse::<Outtype>().is_err());
}

#[test]
fn test_value_variants() {
    let variants = Outtype::value_variants();
    assert!(variants.contains(&Outtype::F32));
    assert!(variants.contains(&Outtype::F16));
    assert!(variants.contains(&Outtype::Bf16));
    assert!(variants.contains(&Outtype::Q8_0));
    assert!(variants.contains(&Outtype::Tq1_0));
    assert!(variants.contains(&Outtype::Tq2_0));
    assert!(variants.contains(&Outtype::Auto));
}

#[test]
fn test_display() {
    assert_eq!(Outtype::F32.to_str(), "f32");
    assert_eq!(Outtype::F16.to_str(), "f16");
    assert_eq!(Outtype::Bf16.to_str(), "bf16");
    assert_eq!(Outtype::Q8_0.to_str(), "q8_0");
    assert_eq!(Outtype::Tq1_0.to_str(), "tq1_0");
    assert_eq!(Outtype::Tq2_0.to_str(), "tq2_0");
    assert_eq!(Outtype::Auto.to_str(), "auto");
}

#[test]
fn test_from_str_dash_and_underscore_agree() {
    assert_eq!(
        "q8-0".parse::<Outtype>().unwrap(),
        "q8_0".parse::<Outtype>().unwrap()
    );
    assert_eq!(
        "tq1-0".parse::<Outtype>().unwrap(),
        "tq1_0".parse::<Outtype>().unwrap()
    );
    assert_eq!(
        "tq2-0".parse::<Outtype>().unwrap(),
        "tq2_0".parse::<Outtype>().unwrap()
    );
}

#[test]
fn test_from_str_error_message() {
    let err = "q8-1".parse::<Outtype>().unwrap_err();
    assert_eq!(err, String::from("Invalid value for Outtype: q8-1"));
}

#[test]
fn test_roundtrip_parse_canonical() {
    for token in ["f32", "f16", "bf16", "q8_0", "tq1_0", "tq2_0", "auto"] {
        let parsed = token.parse::<Outtype>().unwrap();
        let reparsed = parsed.to_str().parse::<Outtype>().unwrap();
        assert_eq!(parsed, reparsed);
    }
}
