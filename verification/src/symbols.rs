use vstd::prelude::*;
use vstd::slice::{slice_subrange, slice_to_vec};
use vstd::string::StringExecFns;
use vstd::utf8::{decode_utf8, decode_utf8_encode_utf8, encode_utf8, valid_utf8};

use crate::errors::BackendError;
use crate::model::{map_node_range, DocSymbol, NodeSpan, SymbolCategory, WeekMatch};

verus! {

/// The bytes of the source buffer that the match's date node covers.
pub open spec fn date_bytes(text: Seq<u8>, m: WeekMatch) -> Seq<u8> {
    text.subrange(m.date.start_byte as int, m.date.end_byte as int)
}

/// Whether the match's date span lies inside the source buffer and covers
/// whole characters of it. A span that fails this indicates a grammar/query
/// mismatch and aborts the request.
pub open spec fn date_span_decodes(text: Seq<u8>, m: WeekMatch) -> bool {
    &&& m.date.start_byte <= m.date.end_byte
    &&& m.date.end_byte <= text.len()
    &&& valid_utf8(date_bytes(text, m))
}

/// What the outline entry built from one match is: its name is the decoded
/// text of the date span, its category is fixed, and both of its ranges copy
/// the outer week node's (row, column) span field for field.
pub open spec fn symbol_for_match(text: Seq<u8>, m: WeekMatch, s: DocSymbol) -> bool {
    &&& s.name@ == decode_utf8(date_bytes(text, m))
    &&& s.kind == SymbolCategory::Variable
    &&& s.range.start.line == m.week.start_row
    &&& s.range.start.character == m.week.start_col
    &&& s.range.end.line == m.week.end_row
    &&& s.range.end.character == m.week.end_col
    &&& s.selection_range == s.range
}

/// Whether every match's date span decodes: the condition under which the
/// whole request succeeds.
pub open spec fn all_date_spans_decode(text: Seq<u8>, ms: Seq<WeekMatch>) -> bool {
    forall|i: int| 0 <= i < ms.len() ==> date_span_decodes(text, #[trigger] ms[i])
}

/// The whole contract of symbol assembly: success exactly when every date
/// span decodes, one outline entry per match in match order on success, and
/// a decode failure otherwise.
pub open spec fn assembly_post(
    text: Seq<u8>,
    ms: Seq<WeekMatch>,
    r: Result<Vec<DocSymbol>, BackendError>,
) -> bool {
    &&& r is Ok <==> all_date_spans_decode(text, ms)
    &&& r matches Ok(symbols) ==> symbols@.len() == ms.len() && (forall|i: int|
        0 <= i < ms.len() ==> symbol_for_match(text, #[trigger] ms[i], symbols@[i]))
    &&& r matches Err(e) ==> e is DecodeError
}

/// Relies on String::from_utf8: it accepts exactly the UTF-8-valid byte
/// sequences, and the accepted string's characters are the decoding of
/// those bytes.
#[verifier::external_body]
fn bytes_to_string(bytes: Vec<u8>) -> (r: Option<String>)
    ensures
        r is Some <==> valid_utf8(bytes@),
        r matches Some(s) ==> s@ == decode_utf8(bytes@),
{
    match String::from_utf8(bytes) {
        Ok(s) => Some(s),
        Err(_) => None,
    }
}

/// The exact text a node's byte span covers: the decoded characters of the
/// source bytes between the two offsets. Offsets outside the buffer, or not
/// on character boundaries, are a decode failure.
pub fn decode_span(text: &Vec<u8>, start_byte: usize, end_byte: usize) -> (r: Result<
    String,
    BackendError,
>)
    ensures
        r is Ok <==> start_byte <= end_byte <= text@.len()
            && valid_utf8(text@.subrange(start_byte as int, end_byte as int)),
        r matches Ok(s) ==> s@ == decode_utf8(text@.subrange(start_byte as int, end_byte as int)),
        r matches Err(e) ==> e is DecodeError,
{
    if start_byte > end_byte || end_byte > text.len() {
        return Err(BackendError::DecodeError(decode_error_message()));
    }
    let bytes = slice_to_vec(slice_subrange(text.as_slice(), start_byte, end_byte));
    match bytes_to_string(bytes) {
        Some(s) => Ok(s),
        None => Err(BackendError::DecodeError(decode_error_message())),
    }
}

/// The message carried by a decode failure.
fn decode_error_message() -> (m: String)
{
    String::from_str("capture byte span does not align to character boundaries of the document")
}

/// Consume the ordered match sequence and build the ordered outline,
/// preserving match order: entry `i` is built from match `i`. A document
/// whose pattern matches nowhere yields the present, empty outline. A date
/// span that does not decode aborts the whole request; no partial outline
/// is returned.
pub fn assemble_symbols(text: &Vec<u8>, matches: &Vec<WeekMatch>) -> (r: Result<
    Vec<DocSymbol>,
    BackendError,
>)
    ensures
        assembly_post(text@, matches@, r),
{
    let mut symbols: Vec<DocSymbol> = Vec::new();
    let mut idx: usize = 0;
    while idx < matches.len()
        invariant
            idx <= matches@.len(),
            symbols@.len() == idx,
            forall|i: int| 0 <= i < idx ==> date_span_decodes(text@, #[trigger] matches@[i]),
            forall|i: int| 0 <= i < idx ==> symbol_for_match(text@, #[trigger] matches@[i], symbols@[i]),
        decreases matches@.len() - idx,
    {
        let m = matches[idx];
        let name = match decode_span(text, m.date.start_byte, m.date.end_byte) {
            Ok(n) => n,
            Err(e) => {
                assert(!date_span_decodes(text@, matches@[idx as int]));
                return Err(e);
            },
        };
        let range = map_node_range(&m.week);
        symbols.push(DocSymbol { name, kind: SymbolCategory::Variable, range, selection_range: range });
        idx = idx + 1;
    }
    Ok(symbols)
}

/// One well-formed document with `N` matches yields an outline of exactly
/// `N` entries, entry `i` built from match `i`: count and order carry over.
pub proof fn lemma_outline_counts_and_orders_matches(
    text: Seq<u8>,
    ms: Seq<WeekMatch>,
    r: Result<Vec<DocSymbol>, BackendError>,
)
    requires
        assembly_post(text, ms, r),
        all_date_spans_decode(text, ms),
    ensures
        r is Ok,
        r matches Ok(symbols) ==> symbols@.len() == ms.len() && (forall|i: int|
            0 <= i < ms.len() ==> symbol_for_match(text, #[trigger] ms[i], symbols@[i])),
{
}

/// A document in which the pattern matches nowhere yields the present,
/// empty outline, never an error.
pub proof fn lemma_no_matches_yields_empty_outline(
    text: Seq<u8>,
    ms: Seq<WeekMatch>,
    r: Result<Vec<DocSymbol>, BackendError>,
)
    requires
        ms.len() == 0,
        assembly_post(text, ms, r),
    ensures
        r is Ok,
        r matches Ok(symbols) ==> symbols@.len() == 0,
{
}

/// An outline entry's rows equal the outer week node's zero-based start and
/// end rows exactly, and its selection range is the same range: the position
/// mapping introduces no off-by-one.
pub proof fn lemma_rows_are_exact(text: Seq<u8>, m: WeekMatch, s: DocSymbol)
    requires
        symbol_for_match(text, m, s),
    ensures
        s.range.start.line == m.week.start_row,
        s.range.end.line == m.week.end_row,
        s.selection_range == s.range,
{
}

/// Name extraction is a byte-for-byte round trip: re-encoding an outline
/// entry's name gives back exactly the source bytes between the date node's
/// offsets.
pub proof fn lemma_name_is_exact_source_text(text: Seq<u8>, m: WeekMatch, s: DocSymbol)
    requires
        date_span_decodes(text, m),
        symbol_for_match(text, m, s),
    ensures
        encode_utf8(s.name@) == date_bytes(text, m),
{
    decode_utf8_encode_utf8(date_bytes(text, m));
}

} // verus!
