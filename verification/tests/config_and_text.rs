use friend_rs::config::{Config, ConfigError, ENGLISH_PROMPT, PORTUGUESE_PROMPT};
use friend_rs::ollama::{ChatMessage, OllamaClient};
use friend_rs::stt::transcript_from_segments;
use friend_rs::text::{is_blank, to_ascii_lowercase, trim, trim_end_slashes};
use friend_rs::tts::TtsEngine;

#[test]
fn portuguese_mode_by_name_and_short_name() {
    for arg in ["portuguese", "pt", "PT", "Portuguese", "PORTUGUESE"] {
        let cfg = Config::from_arg(arg).unwrap();
        assert_eq!(cfg.name, "Ricardo João");
        assert_eq!(cfg.mode_name, "portuguese");
        assert_eq!(cfg.ollama_base_url, "http://localhost:11434");
        assert_eq!(cfg.ollama_model, "qwen2.5:0.5b");
        assert_eq!(cfg.system_prompt, PORTUGUESE_PROMPT);
        assert!(cfg.system_prompt.starts_with("És o Ricardo João."));
        assert_eq!(cfg.whisper_model_path, "./models/ggml-base.bin");
        assert_eq!(cfg.whisper_language, Some("pt".to_string()));
        assert_eq!(cfg.whisper_threads, 4);
        assert_eq!(cfg.piper_executable, "piper");
        assert_eq!(cfg.piper_voice_path, "./voices/pt_PT-tugao-medium.onnx");
        assert_eq!(cfg.piper_output_path, "./tmp/tts.wav");
        assert_eq!(cfg.min_record_millis, 800);
        assert_eq!(cfg.max_record_millis, 20000);
        assert_eq!(cfg.silence_millis, 900);
        assert_eq!(cfg.rms_threshold_per_mille, 15);
    }
}

#[test]
fn english_mode_by_name_and_short_name() {
    for arg in ["english", "en", "EN", "English", "eNgLiSh"] {
        let cfg = Config::from_arg(arg).unwrap();
        assert_eq!(cfg.name, "Tyler");
        assert_eq!(cfg.mode_name, "english");
        assert_eq!(cfg.ollama_base_url, "http://localhost:11434");
        assert_eq!(cfg.ollama_model, "qwen2.5:0.5b");
        assert_eq!(cfg.system_prompt, ENGLISH_PROMPT);
        assert!(cfg.system_prompt.starts_with("You are Tyler."));
        assert!(cfg.system_prompt.ends_with("no emojis unless the user uses them first"));
        assert_eq!(cfg.whisper_model_path, "./models/ggml-base.en.bin");
        assert_eq!(cfg.whisper_language, Some("en".to_string()));
        assert_eq!(cfg.piper_voice_path, "./voices/en_US-lessac-medium.onnx");
        assert_eq!(cfg.piper_output_path, "./tmp/tts.wav");
        assert_eq!(cfg.min_record_millis, 800);
        assert_eq!(cfg.max_record_millis, 20000);
        assert_eq!(cfg.silence_millis, 900);
        assert_eq!(cfg.rms_threshold_per_mille, 15);
    }
}

#[test]
fn unknown_mode_is_refused_with_its_lower_cased_name() {
    match Config::from_arg("French") {
        Err(ConfigError::InvalidMode(m)) => assert_eq!(m, "french"),
        Ok(_) => panic!("an unknown mode was accepted"),
    }
    let err = Config::from_arg("Klingon").unwrap_err();
    assert_eq!(
        err.message(),
        "invalid mode 'klingon'. use: cargo run --release -- [portuguese|english]"
    );
    assert!(Config::from_arg("").is_err());
    assert!(Config::from_arg(" pt").is_err());
    assert!(Config::from_arg("ptx").is_err());
}

#[test]
fn trim_drops_leading_and_trailing_whitespace_only() {
    assert_eq!(trim("  hello there \n"), "hello there");
    assert_eq!(trim("\u{a0}olá\u{2003}"), "olá");
    assert_eq!(trim("a  b"), "a  b");
    assert_eq!(trim("   "), "");
    assert_eq!(trim(""), "");
    assert_eq!(trim("x"), "x");
}

#[test]
fn blank_means_nothing_but_whitespace() {
    assert!(is_blank(""));
    assert!(is_blank(" \t\r\n"));
    assert!(is_blank("\u{3000}"));
    assert!(!is_blank(" a "));
    assert!(!is_blank("."));
}

#[test]
fn trailing_slashes_are_stripped() {
    assert_eq!(trim_end_slashes("http://localhost:11434///"), "http://localhost:11434");
    assert_eq!(trim_end_slashes("http://h/x"), "http://h/x");
    assert_eq!(trim_end_slashes("///"), "");
    assert_eq!(trim_end_slashes(""), "");
}

#[test]
fn chat_url_and_request() {
    let client = OllamaClient::new("http://localhost:11434/".to_string(), "qwen2.5:0.5b".to_string());
    assert_eq!(client.chat_url(), "http://localhost:11434/api/chat");
    let plain = OllamaClient::new("http://localhost:11434".to_string(), "m".to_string());
    assert_eq!(plain.chat_url(), "http://localhost:11434/api/chat");
    let messages = vec![
        ChatMessage::new("system".to_string(), "sys".to_string()),
        ChatMessage::new("user".to_string(), "hi".to_string()),
    ];
    let req = client.chat_request(&messages);
    assert_eq!(req.model, "qwen2.5:0.5b");
    assert!(!req.stream);
    assert_eq!(req.messages.len(), 2);
    assert_eq!(req.messages[1].role, "user");
    assert_eq!(req.messages[1].content, "hi");
}

#[test]
fn transcript_joins_segments_and_trims() {
    let segments = vec![" Hello".to_string(), " there,".to_string(), " friend. ".to_string()];
    assert_eq!(transcript_from_segments(&segments), "Hello there, friend.");
    assert_eq!(transcript_from_segments(&Vec::new()), "");
    assert_eq!(transcript_from_segments(&vec!["  ".to_string(), "\n".to_string()]), "");
}

#[test]
fn speech_engine_arguments() {
    let tts = TtsEngine::new(
        "piper".to_string(),
        "./voices/en_US-lessac-medium.onnx".to_string(),
        "./tmp/tts.wav".to_string(),
    );
    assert_eq!(tts.executable(), "piper");
    assert_eq!(tts.voice_path(), "./voices/en_US-lessac-medium.onnx");
    assert_eq!(tts.output_path(), "./tmp/tts.wav");
    assert_eq!(
        tts.synthesis_args(),
        vec!["--model", "./voices/en_US-lessac-medium.onnx", "--output_file", "./tmp/tts.wav"]
    );
    assert!(TtsEngine::should_speak("hi"));
    assert!(!TtsEngine::should_speak("  \n"));
    assert!(!TtsEngine::should_speak(""));
}

#[test]
fn trimming_twice_changes_nothing() {
    for s in ["  a b  ", "\u{2028}x\u{2029}", "", "   ", "no-space"] {
        let once = trim(s);
        assert_eq!(trim(&once), once);
        assert!(!once.starts_with(char::is_whitespace));
        assert!(!once.ends_with(char::is_whitespace));
    }
}

#[test]
fn whitespace_agrees_with_std_on_every_code_point_up_to_u_3000() {
    for u in 0u32..=0x3100 {
        if let Some(c) = char::from_u32(u) {
            let s = format!("{c}x{c}");
            assert_eq!(trim(&s), s.trim(), "code point {u:#x}");
            assert_eq!(is_blank(&c.to_string()), c.is_whitespace(), "code point {u:#x}");
        }
    }
    assert_eq!(trim("\u{180e}a\u{200b}"), "\u{180e}a\u{200b}");
}

#[test]
fn ascii_lowercase_touches_only_ascii_letters() {
    assert_eq!(to_ascii_lowercase("PoRTuGUESE"), "portuguese");
    assert_eq!(to_ascii_lowercase("ÉS O RICARDO @[Z]"), "És o ricardo @[z]");
    assert_eq!(to_ascii_lowercase(""), "");
    for s in ["ABCXYZ", "ÀÁ", "a-Z_0", "TYLER"] {
        assert_eq!(to_ascii_lowercase(s), s.to_ascii_lowercase());
    }
}
