use vstd::prelude::*;
use vstd::string::StringExecFns;

use crate::errors::BackendError;
use crate::model::{DocSymbol, NodeSpan, WeekMatch};
use crate::symbols::{all_date_spans_decode, assemble_symbols, symbol_for_match};

verus! {

// The grammar is opaque to the library: a value of it is carried through,
// and what the library reads of the engine's work arrives as plain
// coordinate spans.
#[verifier::external_type_specification]
#[verifier::external_body]
pub struct ExLanguage(tree_sitter::Language);

// A node's coordinates are plain values; the two coordinate types are
// declared with their fields visible.
#[verifier::external_type_specification]
pub struct ExPoint(tree_sitter::Point);

#[verifier::external_type_specification]
pub struct ExTsRange(tree_sitter::Range);

/// The engine's coordinate record for one node, reduced to the library's
/// span type: a field-for-field copy of the byte span and the zero-based
/// (row, column) span.
pub fn span_of(r: tree_sitter::Range) -> (s: NodeSpan)
    ensures
        s.start_byte == r.start_byte,
        s.end_byte == r.end_byte,
        s.start_row == r.start_point.row,
        s.start_col == r.start_point.column,
        s.end_row == r.end_point.row,
        s.end_col == r.end_point.column,
{
    NodeSpan {
        start_byte: r.start_byte,
        end_byte: r.end_byte,
        start_row: r.start_point.row,
        start_col: r.start_point.column,
        end_row: r.end_point.row,
        end_col: r.end_point.column,
    }
}

// The engine is deterministic: compiling a pattern, loading a grammar into a
// parser, parsing a buffer and matching a query read nothing but their
// arguments, so each outcome is a function of the grammar, the pattern text
// and the buffer. The outcomes are named here; the one engine wrapper below
// applies every name.
/// Whether the pattern text compiles as a structural query over the
/// grammar's node and capture names.
pub uninterp spec fn pattern_compiles(language: tree_sitter::Language, pattern: Seq<char>) -> bool;

/// Whether a parser accepts the grammar (it refuses one built against an
/// incompatible engine version).
pub uninterp spec fn grammar_loads(language: tree_sitter::Language) -> bool;

/// Whether parsing the buffer under the grammar yields a tree (it fails
/// only on parser misuse, not on malformed text).
pub uninterp spec fn parse_yields_tree(language: tree_sitter::Language, text: Seq<u8>) -> bool;

/// The matches the engine yields for the pattern against the parse of the
/// buffer, in the engine's order, each reduced to the coordinate spans of
/// its captures, in the order the match lists its captures.
pub uninterp spec fn engine_matches(
    language: tree_sitter::Language,
    pattern: Seq<char>,
    text: Seq<u8>,
) -> Seq<Seq<NodeSpan>>;

/// The capture-span tables of a raw match list, as plain sequences.
pub open spec fn span_table(raw: Seq<Vec<NodeSpan>>) -> Seq<Seq<NodeSpan>> {
    raw.map_values(|caps: Vec<NodeSpan>| caps@)
}

/// How one run of the engine over one document ends.
pub enum EngineOutcome {
    /// The pattern text does not compile against the grammar; carries the
    /// query compiler's message.
    PatternInvalid(String),
    /// The parser refused the grammar.
    GrammarRejected,
    /// Parsing produced no tree.
    NoTree,
    /// The matches, each as the spans of its captures.
    Matches(Vec<Vec<NodeSpan>>),
}

/// Relies on Query::new (tree-sitter's query compiler), Parser::new,
/// Parser::set_language, Parser::parse, QueryCursor::new,
/// QueryCursor::matches, Tree::root_node and Node::range: one engine run,
/// from the grammar, the pattern text and the buffer straight to the plain
/// capture spans of every match, in the engine's order. Each stage's
/// outcome depends on those arguments alone, and is named above; the
/// conversion closure only picks fields and calls the verified span copy.
///
/// Only the week pattern is admitted: in this engine version, formatting an
/// unknown-name query error whose name runs to the end of the pattern text
/// splits the suffix past its end and fails. Every name in the week pattern
/// is followed by a space or a parenthesis, and its captures are
/// declarations, not predicate references, so against any grammar no such
/// error can arise from it.
#[verifier::external_body]
fn run_pattern(language: tree_sitter::Language, pattern: &str, text: &Vec<u8>) -> (r: EngineOutcome)
    requires
        pattern@ == week_pattern(),
    ensures
        r is PatternInvalid <==> !pattern_compiles(language, pattern@),
        r is GrammarRejected <==> (pattern_compiles(language, pattern@) && !grammar_loads(language)),
        r is NoTree <==> (pattern_compiles(language, pattern@) && grammar_loads(language)
            && !parse_yields_tree(language, text@)),
        r is Matches <==> (pattern_compiles(language, pattern@) && grammar_loads(language)
            && parse_yields_tree(language, text@)),
        r matches EngineOutcome::Matches(raw)
            ==> span_table(raw@) == engine_matches(language, pattern@, text@),
{
    let query = match tree_sitter::Query::new(language, pattern) {
        Ok(q) => q,
        Err(e) => return EngineOutcome::PatternInvalid(format!("{:?}", e)),
    };
    let mut parser = tree_sitter::Parser::new();
    if parser.set_language(language).is_err() {
        return EngineOutcome::GrammarRejected;
    }
    let tree = match parser.parse(text.as_slice(), None) {
        Some(t) => t,
        None => return EngineOutcome::NoTree,
    };
    EngineOutcome::Matches(tree_sitter::QueryCursor::new().matches(
        &query, tree.root_node(), text.as_slice(),
    ).map(|m| m.captures.iter().map(|c| span_of(c.node.range())).collect()).collect())
}

/// The fixed structural pattern: a week node captured whole, with a date
/// node captured inside it. Its capture slots are a contract of this
/// pattern text: slot 0 is the outer week capture, slot 1 the inner date
/// capture.
pub open spec fn week_pattern() -> Seq<char> {
    "(week (date) @date) @full_week"@
}

/// The week pattern as source text.
pub fn week_query_source() -> (s: &'static str)
    ensures
        s@ == week_pattern(),
{
    "(week (date) @date) @full_week"
}

/// Whether every raw match carries the week pattern's two capture slots.
pub open spec fn raw_complete(raw: Seq<Seq<NodeSpan>>) -> bool {
    forall|i: int| 0 <= i < raw.len() ==> (#[trigger] raw[i]).len() >= 2
}

/// The week matches a complete raw match list stands for: slot 0 is the
/// outer week node, slot 1 the inner date node.
pub open spec fn week_matches_of(raw: Seq<Seq<NodeSpan>>) -> Seq<WeekMatch> {
    raw.map_values(|caps: Seq<NodeSpan>| (WeekMatch { week: caps[0], date: caps[1] }))
}

/// Read the week pattern's two capture slots out of each raw match: the
/// result is exactly `week_matches_of` the raw list. A match with fewer
/// slots contradicts the pattern's shape and aborts the request.
pub fn to_week_matches(raw: &Vec<Vec<NodeSpan>>) -> (r: Result<Vec<WeekMatch>, BackendError>)
    ensures
        r is Ok <==> raw_complete(span_table(raw@)),
        r matches Ok(ms) ==> ms@ == week_matches_of(span_table(raw@)),
        r matches Err(e) ==> e is InternalError,
{
    let mut ms: Vec<WeekMatch> = Vec::new();
    let mut idx: usize = 0;
    while idx < raw.len()
        invariant
            idx <= raw@.len(),
            ms@.len() == idx,
            forall|i: int| 0 <= i < idx ==> #[trigger] raw@[i]@.len() >= 2,
            forall|i: int| 0 <= i < idx ==> #[trigger] ms@[i] == (WeekMatch {
                week: raw@[i]@[0],
                date: raw@[i]@[1],
            }),
        decreases raw@.len() - idx,
    {
        let captures = &raw[idx];
        if captures.len() < 2 {
            proof {
                assert(span_table(raw@)[idx as int] == raw@[idx as int]@);
            }
            return Err(BackendError::InternalError(String::from_str(
                "a match of the week pattern lacks its two capture slots",
            )));
        }
        ms.push(WeekMatch { week: captures[0], date: captures[1] });
        idx = idx + 1;
    }
    proof {
        assert forall|i: int| 0 <= i < span_table(raw@).len() implies (#[trigger] span_table(
            raw@,
        )[i]).len() >= 2 by {
            assert(span_table(raw@)[i] == raw@[i]@);
        }
        assert forall|i: int| 0 <= i < ms@.len() implies ms@[i] == #[trigger] week_matches_of(
            span_table(raw@),
        )[i] by {
            assert(span_table(raw@)[i] == raw@[i]@);
        }
        assert(ms@ =~= week_matches_of(span_table(raw@)));
    }
    Ok(ms)
}

/// What a returned outline is evidence of: an ordered match sequence whose
/// date spans all decode, with one entry per match, in match order.
pub open spec fn outline_of(text: Seq<u8>, ms: Seq<WeekMatch>, symbols: Seq<DocSymbol>) -> bool {
    &&& all_date_spans_decode(text, ms)
    &&& symbols.len() == ms.len()
    &&& forall|i: int| 0 <= i < ms.len() ==> symbol_for_match(text, #[trigger] ms[i], symbols[i])
}

/// The whole contract of the document pipeline, over the named engine
/// outcomes for this grammar and buffer: the request succeeds exactly when
/// the pattern compiles, the grammar loads, a tree comes back, every match
/// carries its two slots and every date span decodes; a returned outline is
/// exactly the outline of the engine's match sequence, in its order; and
/// each error variant comes exactly from its own stage.
pub open spec fn document_outline_post(
    language: tree_sitter::Language,
    text: Seq<u8>,
    r: Result<Vec<DocSymbol>, BackendError>,
) -> bool {
    let compiles = pattern_compiles(language, week_pattern());
    let loads = grammar_loads(language);
    let parses = parse_yields_tree(language, text);
    let raw = engine_matches(language, week_pattern(), text);
    let ms = week_matches_of(raw);
    &&& r is Ok <==> compiles && loads && parses && raw_complete(raw)
        && all_date_spans_decode(text, ms)
    &&& r matches Ok(symbols) ==> outline_of(text, ms, symbols@)
    &&& r matches Err(e) ==> {
        ||| e is PatternError && !compiles
        ||| e is InternalError && compiles && (!loads || !parses || !raw_complete(raw))
        ||| e is DecodeError && compiles && loads && parses && raw_complete(raw)
            && !all_date_spans_decode(text, ms)
    }
}

/// The whole pipeline over one document's bytes: compile the fixed pattern,
/// parse, run the query, and assemble the outline. A returned outline
/// reports exactly the engine's match sequence for this grammar and buffer,
/// in its order; every failure is the typed error of the stage that failed.
pub fn document_symbols(language: tree_sitter::Language, text: &Vec<u8>) -> (r: Result<
    Vec<DocSymbol>,
    BackendError,
>)
    ensures
        document_outline_post(language, text@, r),
{
    let raw = match run_pattern(language, week_query_source(), text) {
        EngineOutcome::PatternInvalid(message) => return Err(BackendError::PatternError(message)),
        EngineOutcome::GrammarRejected => return Err(
            BackendError::InternalError(String::from_str("the parser did not accept the grammar")),
        ),
        EngineOutcome::NoTree => return Err(
            BackendError::InternalError(String::from_str(
                "the parser produced no tree for the document",
            )),
        ),
        EngineOutcome::Matches(raw) => raw,
    };
    let ms = match to_week_matches(&raw) {
        Ok(ms) => ms,
        Err(e) => return Err(e),
    };
    match assemble_symbols(text, &ms) {
        Ok(symbols) => Ok(symbols),
        Err(e) => Err(e),
    }
}

} // verus!
