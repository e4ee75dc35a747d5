use vstd::prelude::*;

verus! {

/// An editor-visible position: zero-based line, zero-based column counted in
/// code units of the source encoding.
#[derive(Debug, Clone, Copy, PartialEq, Eq, Structural)]
pub struct Position {
    pub line: usize,
    pub character: usize,
}

/// An editor-visible range, start and end position of the full span.
#[derive(Debug, Clone, Copy, PartialEq, Eq, Structural)]
pub struct SymbolRange {
    pub start: Position,
    pub end: Position,
}

/// The category a reported symbol falls under. Week blocks are reported in
/// the variable-like category.
#[derive(Debug, Clone, Copy, PartialEq, Eq, Structural)]
pub enum SymbolCategory {
    Variable,
}

/// The coordinates of one syntax-tree node: its byte span within the source
/// buffer and its (row, column) span, rows and columns zero-based, columns
/// counted in bytes.
#[derive(Debug, Clone, Copy, PartialEq, Eq, Structural)]
pub struct NodeSpan {
    pub start_byte: usize,
    pub end_byte: usize,
    pub start_row: usize,
    pub start_col: usize,
    pub end_row: usize,
    pub end_col: usize,
}

/// One satisfying instance of the fixed structural pattern: the outer week
/// node and the date node nested within it. Capture slot zero of the pattern
/// is always the outer node and slot one the inner node.
#[derive(Debug, Clone, Copy, PartialEq, Eq, Structural)]
pub struct WeekMatch {
    pub week: NodeSpan,
    pub date: NodeSpan,
}

/// One entry of the document outline: a named, located unit. The name is the
/// literal text of the date node; the two ranges both cover the full week
/// node; the children list is always empty (the outline is flat).
#[derive(Debug)]
pub struct DocSymbol {
    pub name: String,
    pub kind: SymbolCategory,
    pub range: SymbolRange,
    pub selection_range: SymbolRange,
}

/// Translate a syntax-tree point (row, column), both zero-based, into the
/// protocol position. The coordinate systems agree, so this is a
/// field-for-field copy; the function exists so that any change of internal
/// coordinate system must pass through an explicit conversion layer.
pub fn map_point(row: usize, column: usize) -> (p: Position)
    ensures
        p.line == row,
        p.character == column,
{
    Position { line: row, character: column }
}

/// The protocol range covering a node's full (row, column) span.
pub fn map_node_range(span: &NodeSpan) -> (r: SymbolRange)
    ensures
        r.start.line == span.start_row,
        r.start.character == span.start_col,
        r.end.line == span.end_row,
        r.end.character == span.end_col,
{
    SymbolRange { start: map_point(span.start_row, span.start_col), end: map_point(span.end_row, span.end_col) }
}

} // verus!
