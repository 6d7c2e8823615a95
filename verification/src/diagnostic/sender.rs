use vstd::prelude::*;
use std::sync::Arc;
use crate::diagnostic::message::{
    lemma_log_view_push, log_view, Diagnostics, DiagnosticsLevel, DiagnosticsOrigin,
    DiagnosticsView, SubDiagnostics, SubDiagnosticsView,
};
use crate::sharing::share;
use crate::span::source_file::SourceFile;
use crate::span::span_range::Span;

verus! {

/// Builds the diagnostics of one source file and appends them to a log.
#[derive(Debug)]
pub struct DiagnosticsSender {
    pub file: Arc<SourceFile>,
}

/// A diagnostic of `level` that points at `span` of `file`.
pub open spec fn located(
    file: Arc<SourceFile>,
    code: u32,
    level: DiagnosticsLevel,
    span: Span,
    message: Seq<char>,
    sub_diagnostics: Seq<SubDiagnosticsView>,
) -> DiagnosticsView {
    DiagnosticsView {
        code,
        level,
        message,
        origin: Some(DiagnosticsOrigin { file, span }),
        sub_diagnostics,
    }
}

/// A diagnostic of `level` that points nowhere.
pub open spec fn unlocated(code: u32, level: DiagnosticsLevel, message: Seq<char>) -> DiagnosticsView {
    DiagnosticsView { code, level, message, origin: None, sub_diagnostics: Seq::empty() }
}

/// A sub-diagnostic of `level` that points at `span` of `file`.
pub open spec fn sub_located(
    file: Arc<SourceFile>,
    level: DiagnosticsLevel,
    span: Span,
    message: Seq<char>,
) -> SubDiagnosticsView {
    SubDiagnosticsView { level, message, origin: Some(DiagnosticsOrigin { file, span }) }
}

/// A sub-diagnostic of `level` that points nowhere.
pub open spec fn sub_unlocated(level: DiagnosticsLevel, message: Seq<char>) -> SubDiagnosticsView {
    SubDiagnosticsView { level, message, origin: None }
}

impl DiagnosticsSender {
    pub fn new(file: Arc<SourceFile>) -> (r: Self)
        ensures
            r.file == file,
    {
        Self { file }
    }

    pub fn file(&self) -> (r: &Arc<SourceFile>)
        ensures
            *r == self.file,
    {
        &self.file
    }

    /// Another sender for the same file.
    pub fn duplicate(&self) -> (r: Self)
        ensures
            r == *self,
    {
        Self { file: share(&self.file) }
    }

    fn send_located(
        &self,
        log: &mut Vec<Diagnostics>,
        code: u32,
        level: DiagnosticsLevel,
        span: Span,
        message: String,
        sub_diagnostics: Vec<SubDiagnostics>,
    )
        ensures
            log_view(final(log)@) == log_view(old(log)@).push(
                located(
                    self.file,
                    code,
                    level,
                    span,
                    message@,
                    sub_diagnostics@.map_values(|sub: SubDiagnostics| sub@),
                ),
            ),
    {
        let d = Diagnostics {
            code,
            level,
            message,
            origin: Some(DiagnosticsOrigin { file: share(&self.file), span }),
            sub_diagnostics,
        };
        proof {
            lemma_log_view_push(log@, d);
        }
        log.push(d);
    }

    fn send_unlocated(
        &self,
        log: &mut Vec<Diagnostics>,
        code: u32,
        level: DiagnosticsLevel,
        message: String,
    )
        ensures
            log_view(final(log)@) == log_view(old(log)@).push(unlocated(code, level, message@)),
    {
        let d = Diagnostics { code, level, message, origin: None, sub_diagnostics: Vec::new() };
        proof {
            lemma_log_view_push(log@, d);
            assert(d@.sub_diagnostics =~= Seq::empty());
        }
        log.push(d);
    }

    pub fn hint(&self, log: &mut Vec<Diagnostics>, span: Span, message: String)
        ensures
            log_view(final(log)@) == log_view(old(log)@).push(
                located(self.file, 0, DiagnosticsLevel::Hint, span, message@, Seq::empty()),
            ),
    {
        let subs: Vec<SubDiagnostics> = Vec::new();
        assert(subs@.map_values(|sub: SubDiagnostics| sub@) =~= Seq::empty());
        self.send_located(log, 0, DiagnosticsLevel::Hint, span, message, subs);
    }

    pub fn hint_sub(
        &self,
        log: &mut Vec<Diagnostics>,
        span: Span,
        message: String,
        sub_diagnostics: Vec<SubDiagnostics>,
    )
        ensures
            log_view(final(log)@) == log_view(old(log)@).push(
                located(
                    self.file,
                    0,
                    DiagnosticsLevel::Hint,
                    span,
                    message@,
                    sub_diagnostics@.map_values(|sub: SubDiagnostics| sub@),
                ),
            ),
    {
        self.send_located(log, 0, DiagnosticsLevel::Hint, span, message, sub_diagnostics);
    }

    pub fn hint_simple(&self, log: &mut Vec<Diagnostics>, message: String)
        ensures
            log_view(final(log)@) == log_view(old(log)@).push(
                unlocated(0, DiagnosticsLevel::Hint, message@),
            ),
    {
        self.send_unlocated(log, 0, DiagnosticsLevel::Hint, message);
    }

    pub fn warning(&self, log: &mut Vec<Diagnostics>, code: u32, span: Span, message: String)
        ensures
            log_view(final(log)@) == log_view(old(log)@).push(
                located(self.file, code, DiagnosticsLevel::Warning, span, message@, Seq::empty()),
            ),
    {
        let subs: Vec<SubDiagnostics> = Vec::new();
        assert(subs@.map_values(|sub: SubDiagnostics| sub@) =~= Seq::empty());
        self.send_located(log, code, DiagnosticsLevel::Warning, span, message, subs);
    }

    pub fn warning_sub(
        &self,
        log: &mut Vec<Diagnostics>,
        code: u32,
        span: Span,
        message: String,
        sub_diagnostics: Vec<SubDiagnostics>,
    )
        ensures
            log_view(final(log)@) == log_view(old(log)@).push(
                located(
                    self.file,
                    code,
                    DiagnosticsLevel::Warning,
                    span,
                    message@,
                    sub_diagnostics@.map_values(|sub: SubDiagnostics| sub@),
                ),
            ),
    {
        self.send_located(log, code, DiagnosticsLevel::Warning, span, message, sub_diagnostics);
    }

    pub fn warning_simple(&self, log: &mut Vec<Diagnostics>, code: u32, message: String)
        ensures
            log_view(final(log)@) == log_view(old(log)@).push(
                unlocated(code, DiagnosticsLevel::Warning, message@),
            ),
    {
        self.send_unlocated(log, code, DiagnosticsLevel::Warning, message);
    }

    pub fn error(&self, log: &mut Vec<Diagnostics>, code: u32, span: Span, message: String)
        ensures
            log_view(final(log)@) == log_view(old(log)@).push(
                located(self.file, code, DiagnosticsLevel::Error, span, message@, Seq::empty()),
            ),
    {
        let subs: Vec<SubDiagnostics> = Vec::new();
        assert(subs@.map_values(|sub: SubDiagnostics| sub@) =~= Seq::empty());
        self.send_located(log, code, DiagnosticsLevel::Error, span, message, subs);
    }

    pub fn error_sub(
        &self,
        log: &mut Vec<Diagnostics>,
        code: u32,
        span: Span,
        message: String,
        sub_diagnostics: Vec<SubDiagnostics>,
    )
        ensures
            log_view(final(log)@) == log_view(old(log)@).push(
                located(
                    self.file,
                    code,
                    DiagnosticsLevel::Error,
                    span,
                    message@,
                    sub_diagnostics@.map_values(|sub: SubDiagnostics| sub@),
                ),
            ),
    {
        self.send_located(log, code, DiagnosticsLevel::Error, span, message, sub_diagnostics);
    }

    pub fn error_simple(&self, log: &mut Vec<Diagnostics>, code: u32, message: String)
        ensures
            log_view(final(log)@) == log_view(old(log)@).push(
                unlocated(code, DiagnosticsLevel::Error, message@),
            ),
    {
        self.send_unlocated(log, code, DiagnosticsLevel::Error, message);
    }

    pub fn sub_hint(&self, span: Span, message: String) -> (r: SubDiagnostics)
        ensures
            r@ == sub_located(self.file, DiagnosticsLevel::Hint, span, message@),
    {
        SubDiagnostics {
            level: DiagnosticsLevel::Hint,
            message,
            origin: Some(DiagnosticsOrigin { file: share(&self.file), span }),
        }
    }

    pub fn sub_hint_simple(&self, message: String) -> (r: SubDiagnostics)
        ensures
            r@ == sub_unlocated(DiagnosticsLevel::Hint, message@),
    {
        SubDiagnostics { level: DiagnosticsLevel::Hint, message, origin: None }
    }

    pub fn sub_warning(&self, span: Span, message: String) -> (r: SubDiagnostics)
        ensures
            r@ == sub_located(self.file, DiagnosticsLevel::Warning, span, message@),
    {
        SubDiagnostics {
            level: DiagnosticsLevel::Warning,
            message,
            origin: Some(DiagnosticsOrigin { file: share(&self.file), span }),
        }
    }

    pub fn sub_warning_simple(&self, message: String) -> (r: SubDiagnostics)
        ensures
            r@ == sub_unlocated(DiagnosticsLevel::Warning, message@),
    {
        SubDiagnostics { level: DiagnosticsLevel::Warning, message, origin: None }
    }

    pub fn sub_error(&self, span: Span, message: String) -> (r: SubDiagnostics)
        ensures
            r@ == sub_located(self.file, DiagnosticsLevel::Error, span, message@),
    {
        SubDiagnostics {
            level: DiagnosticsLevel::Error,
            message,
            origin: Some(DiagnosticsOrigin { file: share(&self.file), span }),
        }
    }

    pub fn sub_error_simple(&self, message: String) -> (r: SubDiagnostics)
        ensures
            r@ == sub_unlocated(DiagnosticsLevel::Error, message@),
    {
        SubDiagnostics { level: DiagnosticsLevel::Error, message, origin: None }
    }
}

} // verus!
