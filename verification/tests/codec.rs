use byteorder::{ByteOrder, LittleEndian};
use semantic_index::codec::{from_byte_array, to_byte_array};
use semantic_index::embed::Embedding;

fn embedding_of(values: &[f32]) -> Embedding {
    Embedding::from_bits(values.iter().map(|v| v.to_bits()).collect())
}

fn values_of(embedding: &Embedding) -> Vec<f32> {
    embedding.as_bits().iter().map(|b| f32::from_bits(*b)).collect()
}

#[test]
fn one_is_stored_least_significant_byte_first() {
    let bytes = to_byte_array(&embedding_of(&[1.0]));
    assert_eq!(bytes, vec![0x00, 0x00, 0x80, 0x3f]);
}

#[test]
fn components_follow_each_other_in_vector_order() {
    let bytes = to_byte_array(&Embedding::from_bits(vec![0x0102_0304, 0xa0b0_c0d0]));
    assert_eq!(bytes, vec![0x04, 0x03, 0x02, 0x01, 0xd0, 0xc0, 0xb0, 0xa0]);
}

#[test]
fn the_empty_vector_has_no_bytes() {
    assert_eq!(to_byte_array(&Embedding::from_bits(vec![])), Vec::<u8>::new());
    assert_eq!(from_byte_array(&[]), Some(Embedding::from_bits(vec![])));
}

#[test]
fn decoding_reads_little_endian_words() {
    let decoded = from_byte_array(&[0x00, 0x00, 0x80, 0x3f, 0x00, 0x00, 0x00, 0xc0]).unwrap();
    assert_eq!(values_of(&decoded), vec![1.0, -2.0]);
}

#[test]
fn a_buffer_that_ends_inside_a_component_spells_no_vector() {
    assert_eq!(from_byte_array(&[1, 2, 3]), None);
    assert_eq!(from_byte_array(&[1, 2, 3, 4, 5]), None);
}

#[test]
fn finite_vectors_come_back_bit_for_bit() {
    let values = [0.0f32, -0.0, 1.5, -3.25e-7, f32::MAX, f32::MIN_POSITIVE, 2.71828];
    let e = embedding_of(&values);
    let back = from_byte_array(&to_byte_array(&e)).unwrap();
    assert_eq!(back, e);
    assert_eq!(back.as_bits().len(), values.len());
}

#[test]
fn nan_and_infinities_pass_through() {
    let e = Embedding::from_bits(vec![0x7fc0_0001, 0xffc0_dead, 0x7f80_0000, 0xff80_0000]);
    let back = from_byte_array(&to_byte_array(&e)).unwrap();
    assert_eq!(back.as_bits(), e.as_bits());
}

#[test]
fn a_vector_of_full_dimension_round_trips() {
    let values: Vec<f32> = (0..768).map(|i| (i as f32) * 0.125 - 48.0).collect();
    let e = embedding_of(&values);
    let bytes = to_byte_array(&e);
    assert_eq!(bytes.len(), 768 * 4);
    assert_eq!(values_of(&from_byte_array(&bytes).unwrap()), values);
}

#[test]
fn encoding_agrees_with_the_float_writer() {
    let values = [3.5f32, -0.001, 1.0e10];
    let mut expected = Vec::new();
    for v in values {
        let mut buf = [0u8; 4];
        LittleEndian::write_f32(&mut buf, v);
        expected.extend_from_slice(&buf);
    }
    assert_eq!(to_byte_array(&embedding_of(&values)), expected);
}
