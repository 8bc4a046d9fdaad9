//! Places in the source text.
use vstd::prelude::*;

verus! {

/// The name of the place that a text was read from.
#[derive(PartialEq, Debug)]
pub enum FileName {
    Real(String),
    QuoteExpansion(u64),
    Anon(u64),
    MacroExpansion(u64),
    ProcMacroSourceCode(u64),
    CliCrateAttr(u64),
    Custom(String),
    DocTest(String),
    InlineAsm(u64),
}

impl Clone for FileName {
    fn clone(&self) -> (r: Self)
        ensures
            r == *self,
    {
        match self {
            FileName::Real(s) => FileName::Real(s.clone()),
            FileName::QuoteExpansion(h) => FileName::QuoteExpansion(*h),
            FileName::Anon(h) => FileName::Anon(*h),
            FileName::MacroExpansion(h) => FileName::MacroExpansion(*h),
            FileName::ProcMacroSourceCode(h) => FileName::ProcMacroSourceCode(*h),
            FileName::CliCrateAttr(h) => FileName::CliCrateAttr(*h),
            FileName::Custom(s) => FileName::Custom(s.clone()),
            FileName::DocTest(s) => FileName::DocTest(s.clone()),
            FileName::InlineAsm(h) => FileName::InlineAsm(*h),
        }
    }
}

/// A range of byte positions in the session, and the expansion that produced it. Expansion 0 is
/// text that no macro produced.
#[derive(Clone, Copy, PartialEq, Eq, Structural, Debug)]
pub struct SpanData {
    pub lo: u32,
    pub hi: u32,
    pub ctxt: u32,
}

/// A position as the compiler's source map gives it.
#[derive(Clone, Copy, PartialEq, Eq, Structural, Debug)]
pub struct RLoc {
    /// Counted from 1.
    pub line: usize,
    /// In characters, counted from 0.
    pub col: usize,
    /// In columns of a display, counted from 0.
    pub col_display: usize,
}

/// A span of the compiler, together with what the source map of the session answers about it.
#[derive(PartialEq, Debug)]
pub struct RSpan {
    pub data: SpanData,
    pub filename: FileName,
    pub lo: RLoc,
    pub hi: RLoc,
    /// The text of the span; `None` where the source map cannot give it.
    pub snippet: Option<String>,
}

impl Clone for RSpan {
    fn clone(&self) -> (r: Self)
        ensures
            r == *self,
    {
        RSpan {
            data: self.data,
            filename: self.filename.clone(),
            lo: self.lo,
            hi: self.hi,
            snippet: self.snippet.clone(),
        }
    }
}

/// A position in a file.
#[derive(Clone, Copy, PartialEq, Eq, Structural, Debug)]
pub struct Loc {
    pub line: usize,
    pub col: usize,
}

/// A range of positions in a file.
#[derive(PartialEq, Debug)]
pub struct Span {
    pub lo: Loc,
    pub hi: Loc,
    pub filename: FileName,
    pub rust_span_data: Option<SpanData>,
}

impl Clone for Span {
    fn clone(&self) -> (r: Self)
        ensures
            r == *self,
    {
        Span {
            lo: self.lo,
            hi: self.hi,
            filename: self.filename.clone(),
            rust_span_data: self.rust_span_data,
        }
    }
}

impl RLoc {
    pub open spec fn spec_loc(self) -> Loc {
        Loc { line: self.line, col: self.col_display }
    }

    /// The position as it is shown to a user: the column is that of the display.
    pub fn loc(&self) -> (r: Loc)
        ensures
            r == self.spec_loc(),
    {
        Loc { line: self.line, col: self.col_display }
    }
}

impl RSpan {
    /// Whether no macro produced the text of the span.
    pub open spec fn spec_is_root(self) -> bool {
        self.data.ctxt == 0
    }

    pub fn is_root(&self) -> (r: bool)
        ensures
            r == self.spec_is_root(),
    {
        self.data.ctxt == 0
    }

    pub open spec fn spec_span(self) -> Span {
        Span {
            lo: self.lo.spec_loc(),
            hi: self.hi.spec_loc(),
            filename: self.filename,
            rust_span_data: Some(self.data),
        }
    }
}

} // verus!
