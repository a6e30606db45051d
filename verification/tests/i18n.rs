use deepwiki_rs::i18n::TargetLanguage;

#[test]
fn language_default_is_english() {
    assert_eq!(TargetLanguage::default(), TargetLanguage::English);
}

#[test]
fn language_codes_round_trip() {
    let all = [
        TargetLanguage::Chinese,
        TargetLanguage::English,
        TargetLanguage::Japanese,
        TargetLanguage::Korean,
        TargetLanguage::German,
        TargetLanguage::French,
        TargetLanguage::Russian,
        TargetLanguage::Vietnamese,
    ];
    let codes = ["zh", "en", "ja", "ko", "de", "fr", "ru", "vi"];
    for (lang, code) in all.iter().zip(codes.iter()) {
        assert_eq!(lang.to_string(), *code);
        assert_eq!(code.parse::<TargetLanguage>(), Ok(*lang));
        assert_eq!(TargetLanguage::parse(&lang.to_string()), Ok(*lang));
    }
}

#[test]
fn language_parse_names_and_case() {
    assert_eq!(TargetLanguage::parse("Chinese"), Ok(TargetLanguage::Chinese));
    assert_eq!(TargetLanguage::parse("中文"), Ok(TargetLanguage::Chinese));
    assert_eq!(TargetLanguage::parse("JAPANESE"), Ok(TargetLanguage::Japanese));
    assert_eq!(TargetLanguage::parse("日文"), Ok(TargetLanguage::Japanese));
    assert_eq!(TargetLanguage::parse("한국어"), Ok(TargetLanguage::Korean));
    assert_eq!(TargetLanguage::parse("Deutsch"), Ok(TargetLanguage::German));
    assert_eq!(TargetLanguage::parse("FRANÇAIS"), Ok(TargetLanguage::French));
    assert_eq!(TargetLanguage::parse("Русский"), Ok(TargetLanguage::Russian));
    assert_eq!(TargetLanguage::parse("VN"), Ok(TargetLanguage::Vietnamese));
    assert_eq!(TargetLanguage::parse("vietnam"), Ok(TargetLanguage::Vietnamese));
}

#[test]
fn language_parse_unknown() {
    assert_eq!(
        TargetLanguage::parse("Klingon"),
        Err("Unknown target language: Klingon".to_string())
    );
    assert_eq!(
        TargetLanguage::from_lowercase("xx", "XX"),
        Err("Unknown target language: XX".to_string())
    );
    assert_eq!(
        TargetLanguage::from_lowercase("english", "ENGLISH"),
        Ok(TargetLanguage::English)
    );
}

#[test]
fn language_display_names_and_labels() {
    assert_eq!(TargetLanguage::Chinese.display_name(), "中文");
    assert_eq!(TargetLanguage::Vietnamese.display_name(), "Tiếng Việt");
    assert_eq!(TargetLanguage::Russian.english_label(), "Russian");
    assert_eq!(
        TargetLanguage::English.prompt_instruction(),
        "Please write the documentation in English, ensuring accurate, professional, and easy-to-understand language."
    );
    assert!(TargetLanguage::French.prompt_instruction().starts_with("Veuillez rédiger"));
}

#[test]
fn language_directory_names() {
    assert_eq!(
        TargetLanguage::English.get_directory_name("deep_exploration"),
        "4.Deep-Exploration"
    );
    assert_eq!(
        TargetLanguage::Chinese.get_directory_name("deep_exploration"),
        "4、深入探索"
    );
    assert_eq!(TargetLanguage::German.get_directory_name("other"), "other");
}

#[test]
fn language_doc_filenames() {
    assert_eq!(TargetLanguage::English.get_doc_filename("overview"), "1.Overview.md");
    assert_eq!(
        TargetLanguage::French.get_doc_filename("architecture"),
        "2-Aperçu-de-l'Architecture.md"
    );
    assert_eq!(
        TargetLanguage::Korean.get_doc_filename("database"),
        "6-데이터베이스-개요.md"
    );
    assert_eq!(TargetLanguage::Japanese.get_doc_filename("notes"), "notes.md");
    assert_eq!(TargetLanguage::English.get_doc_filename(""), ".md");
}

#[test]
fn language_agent_types_and_messages() {
    let lang = TargetLanguage::English;
    assert_eq!(lang.msg_agent_type("workflow"), "Workflow Research Report");
    assert_eq!(lang.msg_agent_type("custom"), "custom");
    assert_eq!(
        lang.msg_mermaid_error(),
        "⚠️ Error occurred during mermaid diagram repair: {}"
    );
    assert_eq!(TargetLanguage::Chinese.msg_cannot_read_file(), "Cannot read file: {}");
    assert_eq!(
        TargetLanguage::Korean.msg_ai_analyzing(),
        "   🤖 Performing AI analysis [{}/{}]: {}"
    );
}

#[test]
fn language_round_trips_through_code_label_and_capitals() {
    let all = [
        TargetLanguage::Chinese,
        TargetLanguage::English,
        TargetLanguage::Japanese,
        TargetLanguage::Korean,
        TargetLanguage::German,
        TargetLanguage::French,
        TargetLanguage::Russian,
        TargetLanguage::Vietnamese,
    ];
    for lang in all {
        assert_eq!(lang.to_string().parse::<TargetLanguage>(), Ok(lang));
        assert_eq!(lang.english_label().parse::<TargetLanguage>(), Ok(lang));
        assert_eq!(lang.to_string().to_uppercase().parse::<TargetLanguage>(), Ok(lang));
    }
    assert_eq!(
        "xx".parse::<TargetLanguage>(),
        Err("Unknown target language: xx".to_string())
    );
}
