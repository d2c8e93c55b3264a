//! Task prefixes and embeddings.

use crate::error::IndexError;
use tokenizers::Tokenizer;
use vstd::prelude::*;
use vstd::string::*;

verus! {

/// The task a text is embedded for. The model keeps queries and documents in
/// different corners of one space: a file is indexed as `SearchDocument`, a
/// query is embedded as `SearchQuery`.
#[derive(Debug, Clone, Copy, PartialEq, Eq)]
pub enum NomicTaskPrefix {
    SearchQuery,
    SearchDocument,
    Classification,
    Clustering,
}

impl NomicTaskPrefix {
    /// The label of the task as the model knows it.
    pub open spec fn label(self) -> Seq<char> {
        match self {
            NomicTaskPrefix::SearchQuery => "search_query"@,
            NomicTaskPrefix::SearchDocument => "search_document"@,
            NomicTaskPrefix::Classification => "classification"@,
            NomicTaskPrefix::Clustering => "clustering"@,
        }
    }

    pub fn to_str(&self) -> (label: String)
        ensures
            label@ == self.label(),
    {
        match self {
            NomicTaskPrefix::SearchQuery => "search_query".to_owned(),
            NomicTaskPrefix::SearchDocument => "search_document".to_owned(),
            NomicTaskPrefix::Classification => "classification".to_owned(),
            NomicTaskPrefix::Clustering => "clustering".to_owned(),
        }
    }

    /// The text handed to the tokenizer: the label, then the document. Nothing
    /// stands between the two, so `search_document` and `Hello` give
    /// `search_documentHello`.
    pub fn append_task(&self, document: &str) -> (text: String)
        ensures
            text@ == self.label() + document@,
    {
        self.to_str().concat(document)
    }
}

/// The two things a caller can ask for.
#[derive(Debug, Clone, Copy, PartialEq, Eq)]
pub enum Command {
    /// Store a file under its embedding.
    IndexFile,
    /// Find the file nearest to a query.
    Search,
}

impl Command {
    /// The task each command embeds its text for: a file that is indexed is
    /// a document, what is searched for is a query. The two must not be
    /// swapped: retrieval would get worse without any error.
    pub fn task(&self) -> (task: NomicTaskPrefix)
        ensures
            task == match *self {
                Command::IndexFile => NomicTaskPrefix::SearchDocument,
                Command::Search => NomicTaskPrefix::SearchQuery,
            },
    {
        match self {
            Command::IndexFile => NomicTaskPrefix::SearchDocument,
            Command::Search => NomicTaskPrefix::SearchQuery,
        }
    }
}

/// Two different tasks never hand the tokenizer the same text, whatever the
/// document is. So a document and a query made of the same words are free to
/// end up as different embeddings.
pub proof fn lemma_tasks_give_different_inputs(
    a: NomicTaskPrefix,
    b: NomicTaskPrefix,
    document: Seq<char>,
)
    requires
        a != b,
    ensures
        a.label() + document != b.label() + document,
{
    reveal_strlit("search_query");
    reveal_strlit("search_document");
    reveal_strlit("classification");
    reveal_strlit("clustering");
    let left = a.label() + document;
    let right = b.label() + document;
    // the labels part ways at their first, third or eighth character
    let at: int = match (a, b) {
        (NomicTaskPrefix::SearchQuery, NomicTaskPrefix::SearchDocument) => 7,
        (NomicTaskPrefix::SearchDocument, NomicTaskPrefix::SearchQuery) => 7,
        (NomicTaskPrefix::Classification, NomicTaskPrefix::Clustering) => 2,
        (NomicTaskPrefix::Clustering, NomicTaskPrefix::Classification) => 2,
        _ => 0,
    };
    assert(left[at] == a.label()[at]);
    assert(right[at] == b.label()[at]);
    assert(left[at] != right[at]);
}

/// An embedding: one IEEE-754 single-precision bit pattern per component, in
/// vector order. Any bit pattern is kept as it is, NaN and the infinities too.
#[derive(Debug, PartialEq, Eq)]
pub struct Embedding {
    bits: Vec<u32>,
}

impl View for Embedding {
    type V = Seq<u32>;

    closed spec fn view(&self) -> Seq<u32> {
        self.bits@
    }
}

impl Embedding {
    /// The embedding whose components have these bit patterns.
    pub fn from_bits(bits: Vec<u32>) -> (embedding: Embedding)
        ensures
            embedding@ == bits@,
    {
        Embedding { bits }
    }

    /// The bit patterns of the components, in vector order.
    pub fn as_bits(&self) -> (bits: &Vec<u32>)
        ensures
            bits@ == self@,
    {
        &self.bits
    }

    /// The number of components.
    pub fn len(&self) -> (n: usize)
        ensures
            n == self@.len(),
    {
        self.bits.len()
    }
}

/// `tokenizers::Tokenizer`, carried through as it is: nothing inside it is
/// seen here.
#[verifier::external_type_specification]
#[verifier::external_body]
pub struct ExTokenizer(tokenizers::Tokenizer);

/// What is said when the tokenizer's three arrays differ in length.
pub const UNEVEN_ARRAYS: &'static str = "the tokenizer gave arrays of different lengths";

/// What is said of a model output that is not one vector for each token.
pub const WRONG_SHAPE: &'static str = "the model did not give one vector for each token";

/// What is said of a model that gave no output at all.
pub const NO_OUTPUT: &'static str = "the model gave no output";

/// What is said of a tokenizer whose truncation cannot cut a text.
pub const BAD_TRUNCATION: &'static str =
    "the stride of the tokenizer's truncation is not below its maximum length";

/// Whether a truncation can cut every text. A text that is longer than the
/// maximum length is cut into windows of that length, each starting the
/// stride before the end of the one before it; for that the stride must be
/// below the maximum length. A maximum length of zero cuts a text to nothing
/// and needs no stride. `truncation` is the maximum length and the stride,
/// or `None` where the tokenizer does not truncate.
pub open spec fn truncation_in_order(truncation: Option<(usize, usize)>) -> bool {
    match truncation {
        None => true,
        Some((max_length, stride)) => max_length == 0 || stride < max_length,
    }
}

/// Refuses a truncation that cannot cut every text.
pub fn checked_truncation(truncation: Option<(usize, usize)>) -> (result: Result<(), IndexError>)
    ensures
        truncation_in_order(truncation) ==> result is Ok,
        !truncation_in_order(truncation) ==> (result matches Err(IndexError::EmbeddingError(m)) && m@
            == BAD_TRUNCATION@),
{
    match truncation {
        None => Ok(()),
        Some((max_length, stride)) => if max_length == 0 || stride < max_length {
            Ok(())
        } else {
            Err(IndexError::EmbeddingError(BAD_TRUNCATION.to_owned()))
        },
    }
}

/// The maximum length and the stride of the truncation that is set in a
/// tokenizer, `None` where none is: what `tokenizers::Tokenizer::get_truncation`
/// gives for it.
pub uninterp spec fn truncation_set(tokenizer: Tokenizer) -> Option<(usize, usize)>;

/// `tokenizers::Tokenizer::get_truncation`, and of the parameters it gives
/// the maximum length and the stride. The function hands out the field the
/// tokenizer keeps them in, so the contract claims only that the result is
/// that of this tokenizer.
#[verifier::external_body]
fn truncation_of(tokenizer: &Tokenizer) -> (truncation: Option<(usize, usize)>)
    ensures
        truncation == truncation_set(*tokenizer),
{
    tokenizer.get_truncation().map(|params| (params.max_length, params.stride))
}

/// A tokenizer whose truncation, if it has one, can cut every text. It is
/// made by `TextTokenizer::new` alone, which reads the truncation once; the
/// tokenizer inside is not changed afterwards. The caller asks the tokenizer
/// inside for the tokens of a text, and `arrays_found` makes the model's
/// input of what it answers.
pub struct TextTokenizer {
    tokenizer: Tokenizer,
    truncation: Option<(usize, usize)>,
}

impl TextTokenizer {
    /// The tokenizer inside.
    pub closed spec fn held_tokenizer(&self) -> Tokenizer {
        self.tokenizer
    }

    /// The maximum length and the stride of the truncation that was read
    /// when this was made.
    pub closed spec fn truncation(&self) -> Option<(usize, usize)> {
        self.truncation
    }

    /// The tokenizer inside, to ask for the tokens of a text.
    pub fn tokenizer(&self) -> (tokenizer: &Tokenizer)
        ensures
            *tokenizer == self.held_tokenizer(),
    {
        &self.tokenizer
    }

    /// Takes a tokenizer in, unless its truncation cannot cut every text:
    /// that is an embedding error.
    pub fn new(tokenizer: Tokenizer) -> (result: Result<TextTokenizer, IndexError>)
        ensures
            truncation_in_order(truncation_set(tokenizer)) ==> (result matches Ok(taken)
                && taken.held_tokenizer() == tokenizer && taken.truncation() == truncation_set(
                tokenizer,
            )),
            !truncation_in_order(truncation_set(tokenizer)) ==> (result matches Err(
                IndexError::EmbeddingError(m),
            ) && m@ == BAD_TRUNCATION@),
    {
        let truncation = truncation_of(&tokenizer);
        match checked_truncation(truncation) {
            Ok(()) => Ok(TextTokenizer { tokenizer, truncation }),
            Err(e) => Err(e),
        }
    }
}

/// What the model takes for one text: the token ids, the segment ids and the
/// attention mask, position by position. The model reads each as a batch of
/// one row.
#[derive(Debug, PartialEq, Eq)]
pub struct TokenArrays {
    pub input_ids: Vec<i64>,
    pub type_ids: Vec<i64>,
    pub attention_mask: Vec<i64>,
}

impl TokenArrays {
    /// The three arrays have one length. It is zero where the text had no
    /// token.
    pub open spec fn aligned(&self) -> bool {
        &&& self.type_ids@.len() == self.input_ids@.len()
        &&& self.attention_mask@.len() == self.input_ids@.len()
    }

    /// The number of tokens.
    pub fn len(&self) -> (n: usize)
        ensures
            n == self.input_ids@.len(),
    {
        self.input_ids.len()
    }

    /// The shape the model reads each array in: one row of `len` columns.
    pub fn batch_shape(&self) -> (shape: (usize, usize))
        ensures
            shape == (1usize, self.input_ids@.len() as usize),
    {
        (1, self.input_ids.len())
    }
}

/// Each word as the signed number of the same value.
pub open spec fn widened(words: Seq<u32>) -> Seq<i64> {
    Seq::new(words.len(), |i: int| words[i] as i64)
}

fn widen(words: &Vec<u32>) -> (wide: Vec<i64>)
    ensures
        wide@ == widened(words@),
{
    let mut wide: Vec<i64> = Vec::with_capacity(words.len());
    let mut i: usize = 0;
    while i < words.len()
        invariant
            i <= words.len(),
            wide@ == widened(words@.take(i as int)),
        decreases words.len() - i,
    {
        wide.push(words[i] as i64);
        assert(wide@ =~= widened(words@.take(i + 1)));
        i = i + 1;
    }
    assert(words@.take(i as int) =~= words@);
    wide
}

/// Whether `result` is the model's input for the three arrays a tokenizer
/// gave. Arrays of one length give each array widened, three empty arrays
/// where the text had no token; arrays of different lengths give an
/// embedding error.
pub open spec fn arrays_give(
    ids: Seq<u32>,
    type_ids: Seq<u32>,
    attention_mask: Seq<u32>,
    result: Result<TokenArrays, IndexError>,
) -> bool {
    if type_ids.len() == ids.len() && attention_mask.len() == ids.len() {
        &&& result matches Ok(arrays)
        &&& arrays.aligned()
        &&& arrays.input_ids@ == widened(ids)
        &&& arrays.type_ids@ == widened(type_ids)
        &&& arrays.attention_mask@ == widened(attention_mask)
    } else {
        &&& result matches Err(IndexError::EmbeddingError(m))
        &&& m@ == UNEVEN_ARRAYS@
    }
}

/// The model's input, from what the tokenizer gave for a text. The three
/// arrays must have one length; that they do not is an embedding error.
pub fn token_arrays(ids: &Vec<u32>, type_ids: &Vec<u32>, attention_mask: &Vec<u32>) -> (result: Result<
    TokenArrays,
    IndexError,
>)
    ensures
        arrays_give(ids@, type_ids@, attention_mask@, result),
{
    if type_ids.len() != ids.len() || attention_mask.len() != ids.len() {
        return Err(IndexError::EmbeddingError(UNEVEN_ARRAYS.to_owned()));
    }
    Ok(
        TokenArrays {
            input_ids: widen(ids),
            type_ids: widen(type_ids),
            attention_mask: widen(attention_mask),
        },
    )
}

/// What tokenizing returns, from everything the tokenizer answered: for its
/// three arrays what `token_arrays` makes of them, for its failure an
/// embedding error that carries the tokenizer's own words.
pub fn arrays_found(encoded: Result<(Vec<u32>, Vec<u32>, Vec<u32>), String>) -> (result: Result<
    TokenArrays,
    IndexError,
>)
    ensures
        match encoded {
            Ok((ids, type_ids, attention_mask)) => arrays_give(
                ids@,
                type_ids@,
                attention_mask@,
                result,
            ),
            Err(cause) => result == Err::<TokenArrays, IndexError>(IndexError::EmbeddingError(cause)),
        },
{
    match encoded {
        Ok((ids, type_ids, attention_mask)) => token_arrays(&ids, &type_ids, &attention_mask),
        Err(cause) => Err(IndexError::EmbeddingError(cause)),
    }
}

/// The output of the model that is pooled: the first. A model that gave no
/// output is an embedding error.
pub fn first_output(outputs: usize) -> (result: Result<usize, IndexError>)
    ensures
        outputs > 0 ==> result == Ok::<usize, IndexError>(0),
        outputs == 0 ==> (result matches Err(IndexError::EmbeddingError(m)) && m@ == NO_OUTPUT@),
{
    if outputs > 0 {
        Ok(0)
    } else {
        Err(IndexError::EmbeddingError(NO_OUTPUT.to_owned()))
    }
}

/// The length of the embedding that pooling will give, from the shape of the
/// model's output for `tokens` tokens. The output must be one batch of one
/// vector for each token, and the vectors must not be empty: its shape is
/// `[1, tokens, d]` with `d` above zero, and `d` is returned. Any other
/// shape is an embedding error.
pub fn pooled_length(shape: &Vec<usize>, tokens: usize) -> (result: Result<usize, IndexError>)
    ensures
        result is Ok <==> shape@.len() == 3 && shape@[0] == 1 && shape@[1] == tokens && tokens >= 1
            && shape@[2] >= 1,
        result matches Ok(d) ==> d == shape@[2],
        result matches Err(e) ==> (e matches IndexError::EmbeddingError(m) && m@ == WRONG_SHAPE@),
{
    if shape.len() == 3 && shape[0] == 1 && shape[1] == tokens && tokens >= 1 && shape[2] >= 1 {
        Ok(shape[2])
    } else {
        Err(IndexError::EmbeddingError(WRONG_SHAPE.to_owned()))
    }
}

} // verus!
