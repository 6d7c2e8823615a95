use vstd::prelude::*;
use std::sync::Arc;
use crate::span::source_file::SourceFile;
use crate::span::span_range::Span;

verus! {

#[derive(Debug, Clone, Copy, PartialEq, Eq, Structural, Hash)]
pub enum DiagnosticsLevel {
    Hint,
    Warning,
    Error,
}

/// Where a message points: a span of one source file.
#[derive(Debug)]
pub struct DiagnosticsOrigin {
    pub file: Arc<SourceFile>,
    pub span: Span,
}

/// A message nested under a diagnostic, to give it a second location.
#[derive(Debug)]
pub struct SubDiagnostics {
    pub level: DiagnosticsLevel,
    pub message: String,
    pub origin: Option<DiagnosticsOrigin>,
}

/// One diagnostic. Warnings and errors carry a non-zero code; hints carry zero.
#[derive(Debug)]
pub struct Diagnostics {
    pub code: u32,
    pub level: DiagnosticsLevel,
    pub message: String,
    pub origin: Option<DiagnosticsOrigin>,
    pub sub_diagnostics: Vec<SubDiagnostics>,
}

/// A sub-diagnostic as a plain value.
pub struct SubDiagnosticsView {
    pub level: DiagnosticsLevel,
    pub message: Seq<char>,
    pub origin: Option<DiagnosticsOrigin>,
}

/// A diagnostic as a plain value.
pub struct DiagnosticsView {
    pub code: u32,
    pub level: DiagnosticsLevel,
    pub message: Seq<char>,
    pub origin: Option<DiagnosticsOrigin>,
    pub sub_diagnostics: Seq<SubDiagnosticsView>,
}

impl View for SubDiagnostics {
    type V = SubDiagnosticsView;

    open spec fn view(&self) -> SubDiagnosticsView {
        SubDiagnosticsView { level: self.level, message: self.message@, origin: self.origin }
    }
}

impl View for Diagnostics {
    type V = DiagnosticsView;

    open spec fn view(&self) -> DiagnosticsView {
        DiagnosticsView {
            code: self.code,
            level: self.level,
            message: self.message@,
            origin: self.origin,
            sub_diagnostics: self.sub_diagnostics@.map_values(|sub: SubDiagnostics| sub@),
        }
    }
}

/// A log of diagnostics as plain values, oldest first.
pub open spec fn log_view(log: Seq<Diagnostics>) -> Seq<DiagnosticsView> {
    log.map_values(|d: Diagnostics| d@)
}

/// Appending one diagnostic to a log appends its value to the log's view.
pub proof fn lemma_log_view_push(log: Seq<Diagnostics>, d: Diagnostics)
    ensures
        log_view(log.push(d)) == log_view(log).push(d@),
{
    assert(log_view(log.push(d)) =~= log_view(log).push(d@));
}

} // verus!
