use semantic_index::embed::{
    arrays_found, checked_truncation, first_output, pooled_length, token_arrays, NomicTaskPrefix,
    TextTokenizer, TokenArrays, BAD_TRUNCATION, NO_OUTPUT, UNEVEN_ARRAYS, WRONG_SHAPE,
};
use semantic_index::error::IndexError;
use tokenizers::Tokenizer;

const WITH_UNKNOWN: &str = r#"{
  "version": "1.0",
  "truncation": null,
  "padding": null,
  "added_tokens": [],
  "normalizer": null,
  "pre_tokenizer": {"type": "Whitespace"},
  "post_processor": null,
  "decoder": null,
  "model": {
    "type": "WordLevel",
    "vocab": {"hello": 0, "world": 1, "[UNK]": 2, "search_documenthello": 5, "search_queryhello": 6},
    "unk_token": "[UNK]"
  }
}"#;

const WITHOUT_UNKNOWN: &str = r#"{
  "version": "1.0",
  "truncation": null,
  "padding": null,
  "added_tokens": [],
  "normalizer": null,
  "pre_tokenizer": {"type": "Whitespace"},
  "post_processor": null,
  "decoder": null,
  "model": {
    "type": "WordLevel",
    "vocab": {"hello": 0, "world": 1},
    "unk_token": "[UNK]"
  }
}"#;

/// Asks the tokenizer inside for the tokens of a text, with no special
/// tokens added, and makes the model's input of its answer.
fn tokenize(text: &str, tokenizer: &TextTokenizer) -> Result<TokenArrays, IndexError> {
    let encoded = match tokenizer.tokenizer().encode(text, false) {
        Ok(encoding) => Ok((
            encoding.get_ids().to_vec(),
            encoding.get_type_ids().to_vec(),
            encoding.get_attention_mask().to_vec(),
        )),
        Err(err) => Err(err.to_string()),
    };
    arrays_found(encoded)
}

fn model_input(
    document: &str,
    tokenizer: &TextTokenizer,
    task: NomicTaskPrefix,
) -> Result<TokenArrays, IndexError> {
    tokenize(&task.append_task(document), tokenizer)
}

fn word_level(json: &str) -> TextTokenizer {
    TextTokenizer::new(Tokenizer::from_bytes(json.as_bytes()).unwrap()).unwrap()
}

fn truncating(max_length: usize, stride: usize) -> Tokenizer {
    let truncation = format!(
        r#""truncation": {{"direction": "Right", "max_length": {}, "strategy": "LongestFirst", "stride": {}}}"#,
        max_length, stride
    );
    let json = WITH_UNKNOWN.replace(r#""truncation": null"#, &truncation);
    Tokenizer::from_bytes(json.as_bytes()).unwrap()
}

#[test]
fn arrays_of_one_length_are_widened() {
    let arrays = token_arrays(&vec![7, 0, u32::MAX], &vec![0, 0, 1], &vec![1, 1, 0]).unwrap();
    assert_eq!(
        arrays,
        TokenArrays {
            input_ids: vec![7, 0, 4_294_967_295],
            type_ids: vec![0, 0, 1],
            attention_mask: vec![1, 1, 0],
        }
    );
    assert_eq!(arrays.len(), 3);
    assert_eq!(arrays.batch_shape(), (1, 3));
}

#[test]
fn no_token_gives_three_empty_arrays() {
    let arrays = token_arrays(&vec![], &vec![], &vec![]).unwrap();
    assert_eq!(
        arrays,
        TokenArrays { input_ids: vec![], type_ids: vec![], attention_mask: vec![] }
    );
    assert_eq!(arrays.len(), 0);
    assert_eq!(arrays.batch_shape(), (1, 0));
    assert_eq!(
        token_arrays(&vec![], &vec![1], &vec![]),
        Err(IndexError::EmbeddingError(UNEVEN_ARRAYS.to_string()))
    );
}

#[test]
fn arrays_of_different_lengths_are_an_embedding_error() {
    assert_eq!(
        token_arrays(&vec![1, 2], &vec![0], &vec![1, 1]),
        Err(IndexError::EmbeddingError(UNEVEN_ARRAYS.to_string()))
    );
    assert_eq!(
        token_arrays(&vec![1, 2], &vec![0, 0], &vec![1, 1, 1]),
        Err(IndexError::EmbeddingError(UNEVEN_ARRAYS.to_string()))
    );
}

#[test]
fn a_text_becomes_three_arrays() {
    let arrays = tokenize("hello world", &word_level(WITH_UNKNOWN)).unwrap();
    assert_eq!(arrays.input_ids, vec![0, 1]);
    assert_eq!(arrays.type_ids, vec![0, 0]);
    assert_eq!(arrays.attention_mask, vec![1, 1]);
    assert_eq!(arrays.batch_shape(), (1, 2));
}

#[test]
fn an_unknown_word_gets_the_unknown_token() {
    let arrays = tokenize("hello there world", &word_level(WITH_UNKNOWN)).unwrap();
    assert_eq!(arrays.input_ids, vec![0, 2, 1]);
}

#[test]
fn a_text_without_a_token_gives_three_empty_arrays() {
    assert_eq!(
        tokenize("   ", &word_level(WITH_UNKNOWN)),
        Ok(TokenArrays { input_ids: vec![], type_ids: vec![], attention_mask: vec![] })
    );
    // and pooling refuses the output of the model for it
    assert_eq!(
        pooled_length(&vec![1, 0, 768], 0),
        Err(IndexError::EmbeddingError(WRONG_SHAPE.to_string()))
    );
}

#[test]
fn a_failure_of_the_tokenizer_is_an_embedding_error() {
    match tokenize("hello stranger", &word_level(WITHOUT_UNKNOWN)) {
        Err(IndexError::EmbeddingError(cause)) => assert!(!cause.is_empty()),
        other => panic!("expected an embedding error, got {:?}", other),
    }
}

#[test]
fn the_label_is_tokenized_with_the_document() {
    let tokenizer = word_level(WITH_UNKNOWN);
    let as_document = model_input("hello", &tokenizer, NomicTaskPrefix::SearchDocument).unwrap();
    assert_eq!(as_document.input_ids, vec![5]);
    let plain = tokenize("search_documenthello", &tokenizer).unwrap();
    assert_eq!(as_document, plain);
}

#[test]
fn document_and_query_inputs_are_allowed_to_differ() {
    let tokenizer = word_level(WITH_UNKNOWN);
    let as_document = model_input("hello", &tokenizer, NomicTaskPrefix::SearchDocument).unwrap();
    let as_query = model_input("hello", &tokenizer, NomicTaskPrefix::SearchQuery).unwrap();
    assert_eq!(as_query.input_ids, vec![6]);
    assert_ne!(as_document, as_query);
}

#[test]
fn one_vector_for_each_token_pools_to_the_last_dimension() {
    assert_eq!(pooled_length(&vec![1, 12, 768], 12), Ok(768));
    assert_eq!(pooled_length(&vec![1, 1, 1], 1), Ok(1));
}

#[test]
fn any_other_output_shape_is_an_embedding_error() {
    let wrong = Err(IndexError::EmbeddingError(WRONG_SHAPE.to_string()));
    assert_eq!(pooled_length(&vec![1, 12], 12), wrong);
    assert_eq!(pooled_length(&vec![1, 12, 768, 1], 12), wrong);
    assert_eq!(pooled_length(&vec![2, 12, 768], 12), wrong);
    assert_eq!(pooled_length(&vec![0, 12, 768], 12), wrong);
    assert_eq!(pooled_length(&vec![1, 11, 768], 12), wrong);
    assert_eq!(pooled_length(&vec![1, 0, 768], 0), wrong);
    assert_eq!(pooled_length(&vec![1, 12, 0], 12), wrong);
    assert_eq!(pooled_length(&vec![], 0), wrong);
}

#[test]
fn a_failure_of_the_tokenizer_comes_back_in_its_own_words() {
    assert_eq!(
        arrays_found(Err("WordLevel error: Missing [UNK] token".to_string())),
        Err(IndexError::EmbeddingError("WordLevel error: Missing [UNK] token".to_string()))
    );
    assert_eq!(arrays_found(Err(String::new())), Err(IndexError::EmbeddingError(String::new())));
}

#[test]
fn the_arrays_of_the_tokenizer_become_the_input() {
    assert_eq!(
        arrays_found(Ok((vec![5, 6], vec![0, 0], vec![1, 1]))),
        Ok(TokenArrays { input_ids: vec![5, 6], type_ids: vec![0, 0], attention_mask: vec![1, 1] })
    );
    assert_eq!(
        arrays_found(Ok((vec![], vec![], vec![]))),
        Ok(TokenArrays { input_ids: vec![], type_ids: vec![], attention_mask: vec![] })
    );
    assert_eq!(
        arrays_found(Ok((vec![1], vec![], vec![1]))),
        Err(IndexError::EmbeddingError(UNEVEN_ARRAYS.to_string()))
    );
}

#[test]
fn the_words_of_a_failing_tokenizer_reach_the_caller() {
    let tokenizer = word_level(WITHOUT_UNKNOWN);
    match tokenize("hello stranger", &tokenizer) {
        Err(IndexError::EmbeddingError(cause)) => assert!(cause.contains("[UNK]")),
        other => panic!("expected an embedding error, got {:?}", other),
    }
    match model_input("hello", &tokenizer, NomicTaskPrefix::SearchQuery) {
        Err(IndexError::EmbeddingError(cause)) => assert!(cause.contains("[UNK]")),
        other => panic!("expected an embedding error, got {:?}", other),
    }
}

#[test]
fn a_truncation_is_in_order_when_the_stride_is_below_the_maximum() {
    assert_eq!(checked_truncation(None), Ok(()));
    assert_eq!(checked_truncation(Some((512, 0))), Ok(()));
    assert_eq!(checked_truncation(Some((2, 1))), Ok(()));
    assert_eq!(checked_truncation(Some((0, 0))), Ok(()));
    assert_eq!(checked_truncation(Some((0, 7))), Ok(()));
    let bad = Err(IndexError::EmbeddingError(BAD_TRUNCATION.to_string()));
    assert_eq!(checked_truncation(Some((2, 2))), bad);
    assert_eq!(checked_truncation(Some((2, 3))), bad);
    assert_eq!(checked_truncation(Some((1, usize::MAX))), bad);
}

#[test]
fn a_tokenizer_whose_stride_is_not_below_its_maximum_is_refused() {
    for (max_length, stride) in [(2, 2), (3, 5), (1, 1)] {
        match TextTokenizer::new(truncating(max_length, stride)) {
            Err(e) => assert_eq!(e, IndexError::EmbeddingError(BAD_TRUNCATION.to_string())),
            Ok(_) => panic!("a tokenizer that cannot cut a text was taken in"),
        }
    }
}

#[test]
fn a_tokenizer_that_truncates_in_order_cuts_a_long_text() {
    let tokenizer = TextTokenizer::new(truncating(2, 1)).unwrap();
    let arrays = tokenize("hello world hello world hello", &tokenizer).unwrap();
    assert_eq!(arrays.input_ids, vec![0, 1]);
    assert_eq!(arrays.attention_mask, vec![1, 1]);
    let short = tokenize("world", &tokenizer).unwrap();
    assert_eq!(short.input_ids, vec![1]);
}

#[test]
fn a_maximum_length_of_zero_leaves_no_token() {
    let tokenizer = TextTokenizer::new(truncating(0, 4)).unwrap();
    assert_eq!(
        tokenize("hello world", &tokenizer),
        Ok(TokenArrays { input_ids: vec![], type_ids: vec![], attention_mask: vec![] })
    );
}

#[test]
fn the_first_output_of_the_model_is_pooled() {
    assert_eq!(first_output(1), Ok(0));
    assert_eq!(first_output(3), Ok(0));
    assert_eq!(first_output(0), Err(IndexError::EmbeddingError(NO_OUTPUT.to_string())));
}

#[test]
fn the_tokenizer_inside_is_the_one_that_was_taken_in() {
    let tokenizer = TextTokenizer::new(truncating(7, 3)).unwrap();
    let truncation = tokenizer.tokenizer().get_truncation().unwrap();
    assert_eq!((truncation.max_length, truncation.stride), (7, 3));
    assert!(word_level(WITH_UNKNOWN).tokenizer().get_truncation().is_none());
}
