//! Diagnostics that the lints report, and how a diagnostic is rendered.
use crate::fix::dispatch::SemanticDiagnosticKind;
use vstd::prelude::*;
use vstd::utf8::{encode_utf8, is_char_boundary};

verus! {

/// How serious a diagnostic is.
#[derive(Clone, Copy, Debug, PartialEq, Eq, Structural)]
pub enum Severity {
    Error,
    Warning,
}

/// A diagnostic of a lint: the node that it points at, its message and its
/// severity.
#[derive(Debug)]
pub struct PluginDiagnostic {
    pub stable_ptr: u64,
    pub message: String,
    pub severity: Severity,
}

/// The mathematical value of a diagnostic.
pub struct DiagView {
    pub stable_ptr: u64,
    pub message: Seq<char>,
    pub severity: Severity,
}

impl View for PluginDiagnostic {
    type V = DiagView;

    open spec fn view(&self) -> DiagView {
        DiagView { stable_ptr: self.stable_ptr, message: self.message@, severity: self.severity }
    }
}

/// The values of a sequence of diagnostics.
pub open spec fn diag_views(s: Seq<PluginDiagnostic>) -> Seq<DiagView> {
    s.map_values(|d: PluginDiagnostic| d@)
}

/// The diagnostic with the given parts.
pub open spec fn diag(stable_ptr: u64, message: Seq<char>, severity: Severity) -> DiagView {
    DiagView { stable_ptr, message, severity }
}

/// Builds a diagnostic.
pub fn new_diagnostic(stable_ptr: u64, message: &str, severity: Severity) -> (d: PluginDiagnostic)
    ensures
        d@ == diag(stable_ptr, message@, severity),
{
    PluginDiagnostic { stable_ptr, message: String::from_str(message), severity }
}

/// Appends a diagnostic to a list.
pub fn push_diagnostic(
    diagnostics: &mut Vec<PluginDiagnostic>,
    stable_ptr: u64,
    message: &str,
    severity: Severity,
)
    ensures
        diag_views(final(diagnostics)@) == diag_views(old(diagnostics)@).push(
            diag(stable_ptr, message@, severity),
        ),
{
    let d = new_diagnostic(stable_ptr, message, severity);
    diagnostics.push(d);
    assert(diag_views(diagnostics@) =~= diag_views(old(diagnostics)@).push(
        diag(stable_ptr, message@, severity),
    ));
}

/// How the renderer styles its output.
#[derive(Clone, Copy, Debug, PartialEq, Eq, Structural)]
pub enum RenderStyle {
    /// No terminal styling.
    Plain,
    /// The renderer's default terminal colours.
    Styled,
}

/// A span of a source text that the renderer can point at: it lies within the
/// text and starts and ends at character boundaries.
pub open spec fn renderable_span(source: Seq<char>, start: usize, end: usize) -> bool {
    &&& start <= end <= encode_utf8(source).len()
    &&& is_char_boundary(encode_utf8(source), start as int)
    &&& is_char_boundary(encode_utf8(source), end as int)
}

/// What `annotate_snippets` renders, without styling, for a message with the
/// title, one snippet of the whole source starting at line 1 with the origin,
/// folded, and one annotation over the byte range `start..end`, at the level
/// error or warning.
pub uninterp spec fn rendered_plain(
    title: Seq<char>,
    source: Seq<char>,
    origin: Seq<char>,
    start: usize,
    end: usize,
    is_error: bool,
) -> Seq<char>;

/// `s` without the terminal escape sequences that start at an escape
/// character and end at the next `m`; `inside` tells that one is open.
pub open spec fn strip_escapes_from(s: Seq<char>, inside: bool) -> Seq<char>
    decreases s.len(),
{
    if s.len() == 0 {
        s
    } else if inside {
        strip_escapes_from(s.drop_first(), s[0] != 'm')
    } else if s[0] == '\u{1b}' {
        strip_escapes_from(s.drop_first(), true)
    } else {
        seq![s[0]] + strip_escapes_from(s.drop_first(), false)
    }
}

/// `s` without its terminal escape sequences (`ESC [ .. m`).
pub open spec fn without_escapes(s: Seq<char>) -> Seq<char> {
    strip_escapes_from(s, false)
}

/// `s` holds no escape character.
pub open spec fn escape_free(s: Seq<char>) -> bool {
    forall|i: int| 0 <= i < s.len() ==> s[i] != '\u{1b}'
}

/// What a rendered text reads as: the text itself without styling, the text
/// without its escape sequences with styling.
pub open spec fn as_read(text: Seq<char>, style: RenderStyle) -> Seq<char> {
    match style {
        RenderStyle::Plain => text,
        RenderStyle::Styled => without_escapes(text),
    }
}

/// Calls `annotate_snippets::Renderer::render` (on `Renderer::plain()` or
/// `Renderer::styled()`) and turns the result into a string. The snippet is the
/// whole source, with line numbers from 1, the origin, folding, and one
/// annotation over `start..end`, at the level of the title.
///
/// Claimed: without styling, the text is `rendered_plain` of the arguments;
/// with styling, the same text with `ESC [ .. m` sequences (anstyle's SGR
/// codes) put around the styled runs, so that where title, source and origin
/// hold no escape character, removing those sequences gives `rendered_plain`.
/// Left unsaid: which codes, as the crate picks the colours by the build
/// target. The renderer panics on a range past the end of the source and
/// slices the source at the range's ends, hence the `requires`.
#[verifier::external_body]
fn render_snippet(
    title: &str,
    source: &str,
    origin: &str,
    start: usize,
    end: usize,
    is_error: bool,
    style: RenderStyle,
) -> (r: String)
    requires
        renderable_span(source@, start, end),
    ensures
        style == RenderStyle::Plain ==> r@ == rendered_plain(
            title@,
            source@,
            origin@,
            start,
            end,
            is_error,
        ),
        style == RenderStyle::Styled && escape_free(title@) && escape_free(source@)
            && escape_free(origin@) ==> without_escapes(r@) == rendered_plain(
            title@,
            source@,
            origin@,
            start,
            end,
            is_error,
        ),
{
    let level = if is_error {
        annotate_snippets::Level::Error
    } else {
        annotate_snippets::Level::Warning
    };
    let renderer = match style {
        RenderStyle::Plain => annotate_snippets::Renderer::plain(),
        RenderStyle::Styled => annotate_snippets::Renderer::styled(),
    };
    let snippet = annotate_snippets::Snippet::source(source).line_start(1).origin(origin).fold(
        true,
    ).annotation(level.span(start..end));
    let text = renderer.render(level.title(title).snippet(snippet)).to_string();
    text
}

/// A rendered diagnostic as it is printed: the rendered text and a line break.
pub fn finish_rendered(rendered: String) -> (r: String)
    ensures
        r@ == rendered@.push('\n'),
{
    let mut r = rendered;
    crate::text::push_char(&mut r, '\n');
    r
}

/// Formats a semantic diagnostic for the terminal: diagnostics about
/// unsupported arguments of `allow` print nothing; any other is rendered as
/// its message over the source of its file, pointing at its span, followed by
/// a line break. With styling the text reads, without its escape sequences, as
/// the plain rendering, where message, source and origin hold no escape
/// character.
pub fn format_diagnostic(
    kind: &SemanticDiagnosticKind,
    severity: Severity,
    message: &str,
    source: &str,
    origin: &str,
    start: usize,
    end: usize,
    style: RenderStyle,
) -> (r: String)
    requires
        renderable_span(source@, start, end),
    ensures
        (kind is UnsupportedAllowAttrArguments) ==> r@ == Seq::<char>::empty(),
        !(kind is UnsupportedAllowAttrArguments) ==> r@.len() > 0 && r@.last() == '\n',
        !(kind is UnsupportedAllowAttrArguments) && style == RenderStyle::Plain ==> r@
            == rendered_plain(
            message@,
            source@,
            origin@,
            start,
            end,
            severity == Severity::Error,
        ).push('\n'),
        !(kind is UnsupportedAllowAttrArguments) && (style == RenderStyle::Plain || (escape_free(
            message@,
        ) && escape_free(source@) && escape_free(origin@))) ==> as_read(r@.drop_last(), style)
            == rendered_plain(
            message@,
            source@,
            origin@,
            start,
            end,
            severity == Severity::Error,
        ),
{
    if let SemanticDiagnosticKind::UnsupportedAllowAttrArguments = kind {
        return String::new();
    }
    let is_error = match severity {
        Severity::Error => true,
        Severity::Warning => false,
    };
    let rendered = render_snippet(message, source, origin, start, end, is_error, style);
    let r = finish_rendered(rendered);
    assert(r@.drop_last() =~= rendered@);
    r
}

} // verus!
