use tokenization::{
    EncodingInput, PromptTable, RawEncoding, SimpleToken, TokenizationError, TruncationDirection,
    decode_ids, default_truncation_params, encode_input, finalize_encoding, into_tokens,
    prepare_pre_prompt, tokenize_input, validate_ids_not_empty,
};
use tokenizers::models::wordlevel::WordLevel;
use tokenizers::pre_tokenizers::whitespace::WhitespaceSplit;
use tokenizers::{AddedToken, Tokenizer};

/// A small real tokenizer: word-level vocabulary, whitespace splitting, and
/// one added special token `<s>` (id 3).
fn word_tokenizer() -> Tokenizer {
    let model = WordLevel::builder()
        .vocab(
            [
                ("[UNK]".to_string(), 0u32),
                ("hello".to_string(), 1u32),
                ("world".to_string(), 2u32),
            ]
            .into_iter()
            .collect(),
        )
        .unk_token("[UNK]".to_string())
        .build()
        .unwrap();
    let mut tokenizer = Tokenizer::new(model);
    tokenizer.with_pre_tokenizer(Some(WhitespaceSplit));
    tokenizer.add_special_tokens([AddedToken::from("<s>", true)]);
    tokenizer
}

fn no_prompt() -> (Option<String>, Option<String>) {
    (None, None)
}

#[test]
fn empty_single_rejected() {
    let input = EncodingInput::Single(String::new());
    assert_eq!(input.validate_not_empty(), Err(TokenizationError::EmptyInput));
}

#[test]
fn empty_dual_rejected() {
    let input = EncodingInput::Dual(String::new(), String::new());
    assert_eq!(input.validate_not_empty(), Err(TokenizationError::EmptyInput));
}

#[test]
fn empty_ids_rejected() {
    let input = EncodingInput::Ids(Vec::new());
    assert_eq!(input.validate_not_empty(), Err(TokenizationError::EmptyInput));
    assert_eq!(validate_ids_not_empty(&Vec::new()), Err(TokenizationError::EmptyInput));
}

#[test]
fn half_empty_dual_accepted() {
    let input = EncodingInput::Dual(String::new(), "b".to_string());
    assert_eq!(input.validate_not_empty(), Ok(()));
}

#[test]
fn count_chars_counts_characters() {
    assert_eq!(EncodingInput::Single("héllo".to_string()).count_chars(), 5);
    assert_eq!(EncodingInput::Dual("ab".to_string(), "语言".to_string()).count_chars(), 4);
    assert_eq!(EncodingInput::Ids(vec![7, 8, 9]).count_chars(), 3);
}

#[test]
fn apply_limit_truncates_at_char_boundary() {
    let mut input = EncodingInput::Single("语言处理".to_string());
    input.apply_limit(2);
    match input {
        EncodingInput::Single(s) => assert_eq!(s, "语言"),
        _ => panic!("variant changed"),
    }
    let mut pair = EncodingInput::Dual("abcd".to_string(), "语言处理".to_string());
    pair.apply_limit(4);
    match pair {
        EncodingInput::Dual(a, b) => {
            assert_eq!(a, "ab");
            assert_eq!(b, "语言");
        },
        _ => panic!("variant changed"),
    }
    let mut ids = EncodingInput::Ids(vec![1, 2, 3]);
    ids.apply_limit(1);
    match ids {
        EncodingInput::Ids(v) => assert_eq!(v, vec![1, 2, 3]),
        _ => panic!("variant changed"),
    }
}

#[test]
fn from_string_and_pair() {
    match EncodingInput::from("hi".to_string()) {
        EncodingInput::Single(s) => assert_eq!(s, "hi"),
        _ => panic!("wrong variant"),
    }
    match EncodingInput::from(("a".to_string(), "b".to_string())) {
        EncodingInput::Dual(a, b) => {
            assert_eq!(a, "a");
            assert_eq!(b, "b");
        },
        _ => panic!("wrong variant"),
    }
}

#[test]
fn prompt_table_insert_and_lookup() {
    let mut table = PromptTable::new();
    table.insert("query".to_string(), "Q: ".to_string());
    table.insert("doc".to_string(), "D: ".to_string());
    table.insert("query".to_string(), "ignored".to_string());
    assert_eq!(table.lookup(&"query".to_string()), Some("Q: ".to_string()));
    assert_eq!(table.lookup(&"doc".to_string()), Some("D: ".to_string()));
    assert_eq!(table.lookup(&"other".to_string()), None);
    let names = table.names();
    assert_eq!(names, vec!["query".to_string(), "doc".to_string()]);
}

#[test]
fn prompt_resolution_uses_table() {
    let mut table = PromptTable::new();
    table.insert("query".to_string(), "Represent this: ".to_string());
    let resolved = prepare_pre_prompt(None, Some("query".to_string()), Some(&table));
    assert_eq!(resolved, Ok(Some("Represent this: ".to_string())));
}

#[test]
fn prompt_name_ignores_default() {
    let mut table = PromptTable::new();
    table.insert("query".to_string(), "Q: ".to_string());
    let resolved = prepare_pre_prompt(
        Some("default ".to_string()),
        Some("query".to_string()),
        Some(&table),
    );
    assert_eq!(resolved, Ok(Some("Q: ".to_string())));
    let fallback = prepare_pre_prompt(Some("default ".to_string()), None, Some(&table));
    assert_eq!(fallback, Ok(Some("default ".to_string())));
}

#[test]
fn unknown_prompt_without_table() {
    let resolved = prepare_pre_prompt(None, Some("query".to_string()), None);
    assert_eq!(
        resolved,
        Err(TokenizationError::UnknownPrompt { name: "query".to_string(), available: None })
    );
}

#[test]
fn unknown_prompt_missing_name() {
    let mut table = PromptTable::new();
    table.insert("doc".to_string(), "D: ".to_string());
    let resolved = prepare_pre_prompt(None, Some("query".to_string()), Some(&table));
    assert_eq!(
        resolved,
        Err(TokenizationError::UnknownPrompt {
            name: "query".to_string(),
            available: Some(vec!["doc".to_string()]),
        })
    );
}

#[test]
fn default_truncation_params_policy() {
    let params = default_truncation_params(true, TruncationDirection::Left, 8).unwrap();
    assert_eq!(params.direction, TruncationDirection::Left);
    assert_eq!(params.max_length, 8);
    assert_eq!(params.stride, 0);
    assert_eq!(default_truncation_params(false, TruncationDirection::Right, 8), None);
}

#[test]
fn char_limit_exceeded_reports_exact_counts() {
    let mut tokenizer = word_tokenizer();
    let (default_prompt, prompt_name) = no_prompt();
    let result = encode_input(
        EncodingInput::Single("a".repeat(251)),
        false,
        TruncationDirection::Right,
        1,
        0,
        default_prompt,
        prompt_name,
        None,
        &mut tokenizer,
    );
    assert_eq!(
        result.unwrap_err(),
        TokenizationError::CharacterLimitExceeded { limit: 250, count: 251 }
    );
}

#[test]
fn truncated_input_is_valid_text() {
    let mut tokenizer = word_tokenizer();
    let (default_prompt, prompt_name) = no_prompt();
    let params = default_truncation_params(true, TruncationDirection::Right, 1);
    let (text, _encoding) = tokenize_input(
        EncodingInput::Single("é".repeat(300)),
        true,
        1,
        params,
        default_prompt,
        prompt_name,
        None,
        &mut tokenizer,
    )
    .unwrap();
    assert_eq!(text, Some("é".repeat(250)));
}

#[test]
fn position_ids_count_up_from_offset() {
    let mut tokenizer = word_tokenizer();
    let (default_prompt, prompt_name) = no_prompt();
    let encoding = encode_input(
        EncodingInput::Single("hello world".to_string()),
        false,
        TruncationDirection::Right,
        8,
        5,
        default_prompt,
        prompt_name,
        None,
        &mut tokenizer,
    )
    .unwrap();
    assert_eq!(encoding.input_ids, vec![1, 2]);
    assert_eq!(encoding.token_type_ids, vec![0, 0]);
    assert_eq!(encoding.position_ids, vec![5, 6]);
    assert_eq!(encoding.input_ids.len(), encoding.position_ids.len());
}

#[test]
fn token_limit_exceeded_reports_counts() {
    let mut tokenizer = word_tokenizer();
    let (default_prompt, prompt_name) = no_prompt();
    let result = encode_input(
        EncodingInput::Single("a b c d e f g h i j k l".to_string()),
        false,
        TruncationDirection::Right,
        8,
        0,
        default_prompt,
        prompt_name,
        None,
        &mut tokenizer,
    );
    assert_eq!(result.unwrap_err(), TokenizationError::TokenLimitExceeded { limit: 8, count: 12 });
}

#[test]
fn finalize_rejects_oversized_encoding() {
    let n = 12;
    let encoding = RawEncoding {
        ids: (0..n as u32).collect(),
        type_ids: vec![0; n],
        tokens: vec![String::new(); n],
        offsets: vec![(0, 0); n],
        special_tokens_mask: vec![0; n],
    };
    let result = finalize_encoding(&encoding, 8, 0);
    assert_eq!(result.unwrap_err(), TokenizationError::TokenLimitExceeded { limit: 8, count: 12 });
}

#[test]
fn prompt_prefix_is_what_gets_tokenized() {
    let mut tokenizer = word_tokenizer();
    let mut table = PromptTable::new();
    table.insert("query".to_string(), "Represent this: ".to_string());
    let (text, _encoding) = tokenize_input(
        EncodingInput::Single("hello".to_string()),
        true,
        8,
        None,
        None,
        Some("query".to_string()),
        Some(&table),
        &mut tokenizer,
    )
    .unwrap();
    assert_eq!(text, Some("Represent this: hello".to_string()));
}

#[test]
fn prompt_with_dual_input_rejected() {
    let mut tokenizer = word_tokenizer();
    let mut table = PromptTable::new();
    table.insert("query".to_string(), "Q: ".to_string());
    let result = tokenize_input(
        EncodingInput::Dual("a".to_string(), "b".to_string()),
        true,
        8,
        None,
        None,
        Some("query".to_string()),
        Some(&table),
        &mut tokenizer,
    );
    assert_eq!(result.unwrap_err(), TokenizationError::PromptWithDualInput);
}

#[test]
fn ids_input_decodes_and_reencodes() {
    let mut tokenizer = word_tokenizer();
    let (default_prompt, prompt_name) = no_prompt();
    let (text, encoding) = tokenize_input(
        EncodingInput::Ids(vec![1, 2]),
        false,
        8,
        None,
        default_prompt,
        prompt_name,
        None,
        &mut tokenizer,
    )
    .unwrap();
    assert_eq!(text, Some("hello world".to_string()));
    assert_eq!(encoding.ids, vec![1, 2]);
}

#[test]
fn decode_skips_special_tokens() {
    let mut tokenizer = word_tokenizer();
    let with_special = decode_ids(vec![3, 1, 2], false, &mut tokenizer).unwrap();
    assert_eq!(with_special, "<s> hello world");
    let without_special = decode_ids(vec![3, 1, 2], true, &mut tokenizer).unwrap();
    assert_eq!(without_special, "hello world");
    assert!(!without_special.contains("<s>"));
}

#[test]
fn empty_prompt_with_dual_input_proceeds() {
    let mut tokenizer = word_tokenizer();
    let mut table = PromptTable::new();
    table.insert("query".to_string(), String::new());
    let (text, encoding) = tokenize_input(
        EncodingInput::Dual("hello".to_string(), "world".to_string()),
        false,
        8,
        None,
        None,
        Some("query".to_string()),
        Some(&table),
        &mut tokenizer,
    )
    .unwrap();
    assert_eq!(text, None);
    assert_eq!(encoding.ids, vec![1, 2]);
}

#[test]
fn truncation_below_added_tokens_is_refused() {
    // A post-processor that adds two special tokens cannot honour a token
    // ceiling of one: the encode path must surface an error, never panic.
    let mut tokenizer = word_tokenizer();
    let processor = tokenizers::processors::template::TemplateProcessing::builder()
        .try_single("[CLS] $A [SEP]")
        .unwrap()
        .special_tokens(vec![("[CLS]", 4), ("[SEP]", 5)])
        .build()
        .unwrap();
    tokenizer.with_post_processor(Some(processor));
    let (default_prompt, prompt_name) = no_prompt();
    let result = encode_input(
        EncodingInput::Single("hello world".to_string()),
        true,
        TruncationDirection::Right,
        1,
        0,
        default_prompt,
        prompt_name,
        None,
        &mut tokenizer,
    );
    match result {
        Err(TokenizationError::TokenizerFailure(_)) => {}
        other => panic!("expected a tokenizer failure, got {other:?}"),
    }
}

#[test]
fn tokenizer_failure_is_surfaced() {
    // A word-level model whose unknown-token entry is missing from the
    // vocabulary cannot encode anything: the failure must come back as
    // TokenizerFailure, not as a validation error.
    let model = WordLevel::builder().build().unwrap();
    let mut tokenizer = Tokenizer::new(model);
    tokenizer.with_pre_tokenizer(Some(WhitespaceSplit));
    let result = tokenize_input(
        EncodingInput::Single("hello".to_string()),
        false,
        8,
        None,
        None,
        None,
        None,
        &mut tokenizer,
    );
    match result {
        Err(TokenizationError::TokenizerFailure(_)) => {}
        other => panic!("expected a tokenizer failure, got {other:?}"),
    }
}

#[test]
fn queue_capacity_is_four_per_worker() {
    assert_eq!(tokenization::queue_capacity(3), 12);
}

#[test]
fn offset_projection_slices_input_bytes() {
    let input = "这是一个";
    let encoding = RawEncoding {
        ids: vec![9, 7],
        type_ids: vec![0, 0],
        tokens: vec!["<s>".to_string(), "ignored".to_string()],
        offsets: vec![(0, 0), (0, 3)],
        special_tokens_mask: vec![1, 0],
    };
    let tokens = into_tokens(encoding, input);
    assert_eq!(
        tokens[0],
        SimpleToken { id: 9, text: "<s>".to_string(), special: true, start: None, stop: None }
    );
    assert_eq!(
        tokens[1],
        SimpleToken { id: 7, text: "这".to_string(), special: false, start: Some(0), stop: Some(3) }
    );
}

#[test]
fn offset_projection_decodes_leniently() {
    let input = "这";
    let encoding = RawEncoding {
        ids: vec![5],
        type_ids: vec![0],
        tokens: vec![String::new()],
        offsets: vec![(0, 1)],
        special_tokens_mask: vec![0],
    };
    let tokens = into_tokens(encoding, input);
    assert_eq!(tokens[0].text, "\u{FFFD}");
    assert_eq!(tokens[0].start, Some(0));
    assert_eq!(tokens[0].stop, Some(1));
}

#[test]
fn tokenizer() {
    let string = "这是一个文本向量化的测试句子";
    let encoded = RawEncoding {
        ids: vec![0, 6, 100013, 189061, 2110, 3272, 41904, 49125, 27683, 1344, 2],
        type_ids: vec![0; 11],
        tokens: vec![
            "<s>".to_string(),
            "这".to_string(),
            "这是一个".to_string(),
            "文本".to_string(),
            "向".to_string(),
            "量".to_string(),
            "化的".to_string(),
            "测试".to_string(),
            "句".to_string(),
            "子".to_string(),
            "</s>".to_string(),
        ],
        offsets: vec![
            (0, 0),
            (0, 3),
            (0, 12),
            (12, 18),
            (18, 21),
            (21, 24),
            (24, 30),
            (30, 36),
            (36, 39),
            (39, 42),
            (0, 0),
        ],
        special_tokens_mask: vec![1, 0, 0, 0, 0, 0, 0, 0, 0, 0, 1],
    };

    let tokens = into_tokens(encoded, string);
    assert_eq!(
        tokens,
        vec![
            SimpleToken {
                id: 0,
                text: "<s>".to_string(),
                special: true,
                start: None,
                stop: None
            },
            SimpleToken {
                id: 6,
                text: "这".to_string(),
                special: false,
                start: Some(0),
                stop: Some(3)
            },
            SimpleToken {
                id: 100013,
                text: "这是一个".to_string(),
                special: false,
                start: Some(0),
                stop: Some(12)
            },
            SimpleToken {
                id: 189061,
                text: "文本".to_string(),
                special: false,
                start: Some(12),
                stop: Some(18)
            },
            SimpleToken {
                id: 2110,
                text: "向".to_string(),
                special: false,
                start: Some(18),
                stop: Some(21)
            },
            SimpleToken {
                id: 3272,
                text: "量".to_string(),
                special: false,
                start: Some(21),
                stop: Some(24)
            },
            SimpleToken {
                id: 41904,
                text: "化的".to_string(),
                special: false,
                start: Some(24),
                stop: Some(30)
            },
            SimpleToken {
                id: 49125,
                text: "测试".to_string(),
                special: false,
                start: Some(30),
                stop: Some(36)
            },
            SimpleToken {
                id: 27683,
                text: "句".to_string(),
                special: false,
                start: Some(36),
                stop: Some(39)
            },
            SimpleToken {
                id: 1344,
                text: "子".to_string(),
                special: false,
                start: Some(39),
                stop: Some(42)
            },
            SimpleToken {
                id: 2,
                text: "</s>".to_string(),
                special: true,
                start: None,
                stop: None
            }
        ]
    );
}
