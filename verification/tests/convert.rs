use ppot_verifier::into_array_unchecked;

#[test]
fn a_slice_of_the_right_length_becomes_an_array() {
    let bytes: Vec<u8> = (0..64).collect();
    let array: [u8; 64] = into_array_unchecked(bytes.as_slice());
    assert_eq!(array.to_vec(), bytes);
    let small: [u16; 3] = into_array_unchecked(&[7u16, 8, 9]);
    assert_eq!(small, [7, 8, 9]);
    let none: [u8; 0] = into_array_unchecked(&[]);
    assert_eq!(none, [0u8; 0]);
}

#[test]
fn a_vector_of_three_bytes_becomes_an_array_of_three() {
    let value = vec![1u8, 2, 3];
    let array: [u8; 3] = into_array_unchecked(&value);
    assert_eq!(array, [1u8, 2, 3]);
}

#[test]
fn the_head_of_a_response_keeps_its_bytes_in_order() {
    let response: Vec<u8> = (0..200).rev().collect();
    let head: [u8; 64] = into_array_unchecked(&response[0..64]);
    for i in 0..64 {
        assert_eq!(head[i], response[i]);
    }
}
