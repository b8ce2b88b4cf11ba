use include_zstd::bytes::first_mismatch;
use include_zstd::codec::compress;
use include_zstd::decimal::append_decimal;
use include_zstd::embed::append_byte_list;
use include_zstd::embed::import_name;
use include_zstd::embed::render_expression;
use include_zstd::include_zstd_inner;
use include_zstd::FoundCrate;

fn numeral(n: usize) -> String {
    let mut out = String::new();
    append_decimal(&mut out, n);
    out
}

fn list(bytes: &[u8]) -> String {
    let mut out = String::new();
    append_byte_list(&mut out, bytes);
    out
}

#[test]
fn numerals_of_small_numbers() {
    assert_eq!(numeral(0), "0");
    assert_eq!(numeral(7), "7");
    assert_eq!(numeral(9), "9");
    assert_eq!(numeral(10), "10");
    assert_eq!(numeral(99), "99");
    assert_eq!(numeral(100), "100");
    assert_eq!(numeral(255), "255");
    assert_eq!(numeral(4538), "4538");
}

#[test]
fn numerals_of_large_numbers() {
    assert_eq!(numeral(1_000_000), "1000000");
    assert_eq!(numeral(1234567890), "1234567890");
    assert_eq!(numeral(usize::MAX), usize::MAX.to_string());
}

#[test]
fn numerals_agree_with_the_standard_library() {
    for n in 0..3000usize {
        assert_eq!(numeral(n), n.to_string());
    }
}

#[test]
fn numeral_is_appended_to_what_is_there() {
    let mut out = String::from("n = ");
    append_decimal(&mut out, 42);
    assert_eq!(out, "n = 42");
    append_decimal(&mut out, 0);
    assert_eq!(out, "n = 420");
}

#[test]
fn list_of_no_bytes_is_empty() {
    assert_eq!(list(&[]), "");
}

#[test]
fn list_of_one_byte_has_no_comma() {
    assert_eq!(list(&[0]), "0");
    assert_eq!(list(&[255]), "255");
}

#[test]
fn list_separates_bytes_by_commas() {
    assert_eq!(list(&[1, 20, 255]), "1,20,255");
    assert_eq!(list(&[0, 0, 0, 0]), "0,0,0,0");
    assert_eq!(list(&[40, 181, 47, 253]), "40,181,47,253");
}

#[test]
fn list_is_appended_to_what_is_there() {
    let mut out = String::from("[");
    append_byte_list(&mut out, &[3, 2, 1]);
    assert_eq!(out, "[3,2,1");
}

#[test]
fn expression_of_three_bytes() {
    assert_eq!(
        render_expression("include_zstd", &[1, 20, 255]),
        "unsafe { include_zstd::EmbeddedZstd::<3>::new_unchecked([1,20,255]) }"
    );
}

#[test]
fn expression_of_no_bytes() {
    assert_eq!(
        render_expression("include_zstd", &[]),
        "unsafe { include_zstd::EmbeddedZstd::<0>::new_unchecked([]) }"
    );
}

#[test]
fn expression_of_one_byte() {
    assert_eq!(
        render_expression("assets", &[9]),
        "unsafe { assets::EmbeddedZstd::<1>::new_unchecked([9]) }"
    );
}

#[test]
fn expression_states_the_length_of_the_stream() {
    let stream = vec![5u8; 4538];
    let text = render_expression("include_zstd", &stream);
    assert!(text.starts_with("unsafe { include_zstd::EmbeddedZstd::<4538>::new_unchecked([5,5,"));
    assert!(text.ends_with(",5,5]) }"));
    assert_eq!(text.matches(',').count(), 4537);
}

#[test]
fn expressions_of_different_streams_differ() {
    assert_ne!(render_expression("x", &[1, 23]), render_expression("x", &[12, 3]));
    assert_ne!(render_expression("x", &[1]), render_expression("x", &[1, 1]));
    assert_ne!(render_expression("x", &[0]), render_expression("x", &[]));
}

#[test]
fn import_name_of_the_library_itself() {
    assert_eq!(import_name(FoundCrate::Itself), "include_zstd");
}

#[test]
fn import_name_of_a_renamed_library() {
    assert_eq!(import_name(FoundCrate::Name(String::from("assets"))), "assets");
    assert_eq!(import_name(FoundCrate::Name(String::new())), "");
}

#[test]
fn embedding_of_nothing() {
    assert_eq!(
        include_zstd_inner(b"", 19, FoundCrate::Itself),
        Ok(String::from(
            "unsafe { include_zstd::EmbeddedZstd::<9>::new_unchecked([40,181,47,253,32,0,1,0,0]) }"
        ))
    );
}

#[test]
fn embedding_of_a_short_text() {
    assert_eq!(
        include_zstd_inner(b"hello hello hello hello", 19, FoundCrate::Name(String::from("z"))),
        Ok(String::from(
            "unsafe { z::EmbeddedZstd::<22>::new_unchecked([40,181,47,253,0,104,109,0,0,56,104,101,108,108,111,32,104,1,0,65,138,17]) }"
        ))
    );
}

#[test]
fn embedding_is_the_expression_of_the_frame() {
    let bytes = b"to be embedded, to be embedded, to be embedded";
    let frame = compress(bytes, 7).unwrap();
    assert_eq!(
        include_zstd_inner(bytes, 7, FoundCrate::Itself),
        Ok(render_expression("include_zstd", &frame))
    );
}

#[test]
fn embedding_twice_gives_the_same_expression() {
    let bytes = b"the same file, the same level";
    let first = include_zstd_inner(bytes, 19, FoundCrate::Itself);
    let second = include_zstd_inner(bytes, 19, FoundCrate::Itself);
    assert!(first.is_ok());
    assert_eq!(first, second);
}

#[test]
fn first_mismatch_of_equal_slices_is_their_length() {
    assert_eq!(first_mismatch(&[], &[]), 0);
    assert_eq!(first_mismatch(&[1, 2, 3], &[1, 2, 3]), 3);
}

#[test]
fn first_mismatch_is_the_first_different_position() {
    assert_eq!(first_mismatch(&[1, 2, 3], &[9, 2, 3]), 0);
    assert_eq!(first_mismatch(&[1, 2, 3], &[1, 2, 4]), 2);
    assert_eq!(first_mismatch(&[1, 2, 3], &[1, 9, 4]), 1);
}

#[test]
fn first_mismatch_stops_where_the_shorter_ends() {
    assert_eq!(first_mismatch(&[1, 2], &[1, 2, 3]), 2);
    assert_eq!(first_mismatch(&[1, 2, 3], &[1]), 1);
    assert_eq!(first_mismatch(&[], &[1]), 0);
}
