//! The build-time half: from the bytes of a file to the expression that
//! builds its asset.

use crate::codec::compress;
use crate::codec::zstd_frame;
use crate::decimal::append_decimal;
use crate::decimal::decimal;
use crate::decimal::is_digit;
use crate::decimal::lemma_decimal_digits;
use crate::decimal::lemma_decimal_injective;
use crate::error::EmbedError;
use vstd::prelude::*;
use vstd::string::StringExecFns;

verus! {

/// How the crate that asks for an embedding reaches this library.
#[derive(Debug, PartialEq, Eq)]
pub enum FoundCrate {
    /// The asking crate is this library.
    Itself,
    /// The asking crate depends on this library under this name.
    Name(String),
}

/// The name under which the emitted expression reaches this library.
pub open spec fn import_name_text(found: FoundCrate) -> Seq<char> {
    match found {
        FoundCrate::Itself => "include_zstd"@,
        FoundCrate::Name(name) => name@,
    }
}

/// The numerals of `stream`'s bytes, in order, with a comma between
/// neighbours.
pub open spec fn byte_list(stream: Seq<u8>) -> Seq<char>
    decreases stream.len(),
{
    if stream.len() == 0 {
        Seq::<char>::empty()
    } else if stream.len() == 1 {
        decimal(stream[0] as nat)
    } else {
        byte_list(stream.drop_last()) + seq![','] + decimal(stream.last() as nat)
    }
}

/// The expression that builds the asset holding `stream`, written for a
/// crate that reaches this library as `name`.
pub open spec fn expression_text(name: Seq<char>, stream: Seq<u8>) -> Seq<char> {
    "unsafe { "@ + name + "::EmbeddedZstd::<"@ + decimal(stream.len()) + ">::new_unchecked(["@
        + byte_list(stream) + "]) }"@
}

/// The name under which the emitted expression reaches this library.
pub fn import_name(found: FoundCrate) -> (name: String)
    ensures
        name@ == import_name_text(found),
{
    match found {
        FoundCrate::Itself => String::from_str("include_zstd"),
        FoundCrate::Name(name) => name,
    }
}

/// Writes the numerals of `stream`'s bytes at the end of `out`, with a comma
/// between neighbours.
pub fn append_byte_list(out: &mut String, stream: &[u8])
    ensures
        final(out)@ == old(out)@ + byte_list(stream@),
{
    let ghost before = out@;
    let mut i: usize = 0;
    while i < stream.len()
        invariant
            i <= stream.len(),
            out@ == before + byte_list(stream@.take(i as int)),
        decreases stream.len() - i,
    {
        if i > 0 {
            out.append(",");
        }
        append_decimal(out, stream[i] as usize);
        proof {
            let grown = stream@.take(i + 1);
            assert(grown.drop_last() == stream@.take(i as int));
            assert(grown.last() == stream@[i as int]);
            reveal_strlit(",");
            assert(","@ =~= seq![',']);
        }
        i += 1;
    }
    assert(stream@.take(i as int) == stream@);
}

/// Writes the expression that builds the asset holding `compressed`.
pub fn render_expression(crate_name: &str, compressed: &[u8]) -> (text: String)
    ensures
        text@ == expression_text(crate_name@, compressed@),
{
    let mut text = String::from_str("unsafe { ");
    text.append(crate_name);
    text.append("::EmbeddedZstd::<");
    append_decimal(&mut text, compressed.len());
    text.append(">::new_unchecked([");
    append_byte_list(&mut text, compressed);
    text.append("]) }");
    text
}

/// Writes the expression for what the compression gave: for a frame, the
/// expression that builds its asset; for a failure, that failure.
pub fn expression_result(compressed: Result<Vec<u8>, EmbedError>, found: FoundCrate) -> (result:
    Result<String, EmbedError>)
    ensures
        match compressed {
            Ok(frame) => result matches Ok(text) && text@ == expression_text(
                import_name_text(found),
                frame@,
            ),
            Err(e) => result == Err::<String, EmbedError>(e),
        },
{
    match compressed {
        Ok(frame) => {
            let name = import_name(found);
            Ok(render_expression(name.as_str(), frame.as_slice()))
        },
        Err(e) => Err(e),
    }
}

/// Compresses the bytes of a file at `level` and writes the expression that
/// builds the asset, for a crate that reaches this library as `found` says.
///
/// Whether the encoder succeeds is its own affair. An expression that comes
/// back holds the frame that the bytes and the level determine, and states
/// its length.
pub fn include_zstd_inner(bytes: &[u8], level: i32, found: FoundCrate) -> (result: Result<
    String,
    EmbedError,
>)
    ensures
        result matches Ok(text) ==> text@ == expression_text(
            import_name_text(found),
            zstd_frame(bytes@, level as int),
        ),
{
    expression_result(compress(bytes, level), found)
}

/// Whether `c` may stand in the list of a stream's bytes.
spec fn is_list_char(c: char) -> bool {
    is_digit(c) || c == ','
}

/// The length of the longest suffix of `text` whose characters all meet
/// `keep`.
spec fn run_suffix_len(text: Seq<char>, keep: spec_fn(char) -> bool) -> nat
    decreases text.len(),
{
    if text.len() == 0 || !keep(text.last()) {
        0
    } else {
        1 + run_suffix_len(text.drop_last(), keep)
    }
}

/// Where `tail` holds only characters that meet `keep` and `head` does not
/// end in one, the longest such suffix of `head + tail` is `tail`.
proof fn lemma_run_suffix(head: Seq<char>, tail: Seq<char>, keep: spec_fn(char) -> bool)
    requires
        forall|i: int| 0 <= i < tail.len() ==> keep(#[trigger] tail[i]),
        head.len() == 0 || !keep(head.last()),
    ensures
        run_suffix_len(head + tail, keep) == tail.len(),
    decreases tail.len(),
{
    let text = head + tail;
    if tail.len() == 0 {
        assert(text =~= head);
    } else {
        assert(text.last() == tail.last());
        assert(text.drop_last() =~= head + tail.drop_last());
        lemma_run_suffix(head, tail.drop_last(), keep);
    }
}

/// What stands before the last numeral in the list of a stream that is not
/// empty.
spec fn list_head(stream: Seq<u8>) -> Seq<char> {
    if stream.len() <= 1 {
        Seq::<char>::empty()
    } else {
        byte_list(stream.drop_last()) + seq![',']
    }
}

/// The list of a stream that is not empty ends in the numeral of its last
/// byte, and what stands before it does not end in a digit.
proof fn lemma_byte_list_parts(stream: Seq<u8>)
    requires
        stream.len() >= 1,
    ensures
        byte_list(stream) == list_head(stream) + decimal(stream.last() as nat),
        run_suffix_len(byte_list(stream), |c: char| is_digit(c)) == decimal(
            stream.last() as nat,
        ).len(),
        byte_list(stream).len() >= 1,
{
    let numeral = decimal(stream.last() as nat);
    lemma_decimal_digits(stream.last() as nat);
    if stream.len() == 1 {
        assert(list_head(stream) + numeral =~= numeral);
    }
    lemma_run_suffix(list_head(stream), numeral, |c: char| is_digit(c));
}

/// The list of a stream holds digits and commas only.
proof fn lemma_byte_list_chars(stream: Seq<u8>)
    ensures
        forall|i: int| 0 <= i < byte_list(stream).len() ==> is_list_char(#[trigger] byte_list(stream)[i]),
    decreases stream.len(),
{
    if stream.len() >= 1 {
        let numeral = decimal(stream.last() as nat);
        lemma_decimal_digits(stream.last() as nat);
        if stream.len() >= 2 {
            let before = byte_list(stream.drop_last());
            lemma_byte_list_chars(stream.drop_last());
            assert forall|i: int| 0 <= i < byte_list(stream).len() implies is_list_char(
                #[trigger] byte_list(stream)[i],
            ) by {
                if i < before.len() {
                    assert(byte_list(stream)[i] == before[i]);
                } else if i > before.len() {
                    assert(byte_list(stream)[i] == numeral[i - before.len() - 1]);
                }
            }
        } else {
            assert(stream.last() == stream[0]);
        }
    }
}

/// Two streams with the same list are the same stream.
pub proof fn lemma_byte_list_injective(first: Seq<u8>, second: Seq<u8>)
    requires
        byte_list(first) == byte_list(second),
    ensures
        first == second,
    decreases first.len(),
{
    if first.len() == 0 || second.len() == 0 {
        if first.len() >= 1 {
            lemma_byte_list_parts(first);
        }
        if second.len() >= 1 {
            lemma_byte_list_parts(second);
        }
        assert(first =~= second);
    } else {
        lemma_byte_list_parts(first);
        lemma_byte_list_parts(second);
        let text = byte_list(first);
        let first_numeral = decimal(first.last() as nat);
        let second_numeral = decimal(second.last() as nat);
        let cut = text.len() - first_numeral.len();
        assert(first_numeral =~= text.subrange(cut, text.len() as int));
        assert(second_numeral =~= text.subrange(cut, text.len() as int));
        lemma_decimal_injective(first.last() as nat, second.last() as nat);
        assert(list_head(first) =~= text.subrange(0, cut));
        assert(list_head(second) =~= text.subrange(0, cut));
        if first.len() >= 2 && second.len() >= 2 {
            let shorter = list_head(first).drop_last();
            assert(byte_list(first.drop_last()) =~= shorter);
            assert(byte_list(second.drop_last()) =~= shorter);
            lemma_byte_list_injective(first.drop_last(), second.drop_last());
            assert(first =~= first.drop_last().push(first.last()));
            assert(second =~= second.drop_last().push(second.last()));
        } else {
            assert(first.len() == 1 && second.len() == 1);
            assert(first =~= second);
        }
    }
}

/// The expression tells which stream it was written for: two expressions
/// that read the same hold the same bytes, whatever the names in them.
pub proof fn lemma_expression_injective(
    first_name: Seq<char>,
    first: Seq<u8>,
    second_name: Seq<char>,
    second: Seq<u8>,
)
    requires
        expression_text(first_name, first) == expression_text(second_name, second),
    ensures
        first == second,
{
    reveal_strlit(">::new_unchecked([");
    reveal_strlit("]) }");
    let close = "]) }"@;
    let first_open = "unsafe { "@ + first_name + "::EmbeddedZstd::<"@ + decimal(first.len())
        + ">::new_unchecked(["@;
    let second_open = "unsafe { "@ + second_name + "::EmbeddedZstd::<"@ + decimal(second.len())
        + ">::new_unchecked(["@;
    let text = expression_text(first_name, first);
    let inner = text.subrange(0, text.len() - close.len());
    assert(inner =~= first_open + byte_list(first));
    assert(inner =~= second_open + byte_list(second));
    lemma_byte_list_chars(first);
    lemma_byte_list_chars(second);
    assert(first_open.last() == '[');
    assert(second_open.last() == '[');
    lemma_run_suffix(first_open, byte_list(first), |c: char| is_list_char(c));
    lemma_run_suffix(second_open, byte_list(second), |c: char| is_list_char(c));
    let cut = inner.len() - byte_list(first).len();
    assert(byte_list(first) =~= inner.subrange(cut, inner.len() as int));
    assert(byte_list(second) =~= inner.subrange(cut, inner.len() as int));
    lemma_byte_list_injective(first, second);
}

/// Embedding the same bytes at the same level for the same crate twice
/// gives the same expression.
pub proof fn lemma_embedding_deterministic(
    bytes: Seq<u8>,
    level: int,
    found: FoundCrate,
    first: Seq<char>,
    second: Seq<char>,
)
    requires
        first == expression_text(import_name_text(found), zstd_frame(bytes, level)),
        second == expression_text(import_name_text(found), zstd_frame(bytes, level)),
    ensures
        first == second,
{
}

} // verus!
