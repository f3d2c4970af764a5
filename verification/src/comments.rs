//! The comments of a unit, as the parser attached them to positions, and
//! the directives that they carry.

use crate::ast::Span;
use crate::pattern::{
    has_marker, is_no_track_signals_directive, is_track_signals_directive, opt_in_marker,
    opt_out_marker,
};
use vstd::prelude::*;

verus! {

/// How a comment is written.
#[derive(Clone, Copy, Debug, PartialEq, Eq, Structural)]
pub enum CommentKind {
    /// `// text`
    Line,
    /// `/* text */`
    Block,
}

/// A comment that leads the node which starts at `pos`.
#[derive(Clone, Debug, PartialEq, Eq)]
pub struct Comment {
    pub pos: u32,
    pub kind: CommentKind,
    pub text: String,
}

/// What a [`Comment`] holds.
pub ghost struct CommentView {
    pub pos: u32,
    pub kind: CommentKind,
    pub text: Seq<char>,
}

impl View for Comment {
    type V = CommentView;

    open spec fn view(&self) -> CommentView {
        CommentView { pos: self.pos, kind: self.kind, text: self.text@ }
    }
}

/// The leading comments of a unit.
#[derive(Clone, Debug, PartialEq, Eq)]
pub struct Comments {
    pub leading: Vec<Comment>,
}

impl View for Comments {
    type V = Seq<CommentView>;

    open spec fn view(&self) -> Seq<CommentView> {
        Seq::new(self.leading.len() as nat, |i: int| self.leading[i]@)
    }
}

/// What the comments at a position ask for.
#[derive(Clone, Copy, Debug, PartialEq, Eq, Structural)]
pub enum ShouldTrack {
    OptIn,
    OptOut,
    Auto,
}

/// A block comment that leads position `pos` holds `marker`.
pub open spec fn marked_at(comments: Seq<CommentView>, pos: u32, marker: Seq<char>) -> bool {
    exists|i: int|
        0 <= i < comments.len() && carries(#[trigger] comments[i], pos, marker)
}

/// The comment is a block comment that leads position `pos` and holds
/// `marker`.
pub open spec fn carries(comment: CommentView, pos: u32, marker: Seq<char>) -> bool {
    &&& comment.pos == pos
    &&& comment.kind == CommentKind::Block
    &&& has_marker(comment.text, marker)
}

/// What the comments that lead a span ask for: to opt in where only the
/// opt-in marker occurs, to opt out where the opt-out marker occurs, with or
/// without the other, and nothing where neither occurs.
pub open spec fn directive_at(comments: Seq<CommentView>, span: Span) -> ShouldTrack {
    if marked_at(comments, span.lo, opt_out_marker()) {
        ShouldTrack::OptOut
    } else if marked_at(comments, span.lo, opt_in_marker()) {
        ShouldTrack::OptIn
    } else {
        ShouldTrack::Auto
    }
}

/// What the comments at several spans ask for together: an opt-out at any
/// of them wins, then an opt-in at any of them.
pub open spec fn directive_over(comments: Seq<CommentView>, spans: Seq<Span>) -> ShouldTrack {
    if exists|i: int|
        0 <= i < spans.len() && directive_at(comments, #[trigger] spans[i]) == ShouldTrack::OptOut {
        ShouldTrack::OptOut
    } else if exists|i: int|
        0 <= i < spans.len() && directive_at(comments, #[trigger] spans[i]) == ShouldTrack::OptIn {
        ShouldTrack::OptIn
    } else {
        ShouldTrack::Auto
    }
}

/// Folds what one more span asks for into what the spans before it asked
/// for.
pub fn merge_directives(held: ShouldTrack, next: ShouldTrack) -> (merged: ShouldTrack)
    ensures
        merged == if held == ShouldTrack::OptOut || next == ShouldTrack::OptOut {
            ShouldTrack::OptOut
        } else if held == ShouldTrack::OptIn || next == ShouldTrack::OptIn {
            ShouldTrack::OptIn
        } else {
            ShouldTrack::Auto
        },
{
    match (held, next) {
        (ShouldTrack::Auto, it) => it,
        (held, ShouldTrack::Auto) => held,
        (ShouldTrack::OptIn, ShouldTrack::OptOut) => ShouldTrack::OptOut,
        (ShouldTrack::OptOut, ShouldTrack::OptIn) => ShouldTrack::OptOut,
        (_, it) => it,
    }
}

/// Reads the directive that the comments leading `span` carry.
pub fn should_track_by_comment(comments: &Comments, span: &Span) -> (directive: ShouldTrack)
    ensures
        directive == directive_at(comments@, *span),
{
    let mut is_track_signals = false;
    let mut is_no_track_signals = false;
    let mut i: usize = 0;
    while i < comments.leading.len()
        invariant
            i <= comments.leading.len(),
            is_track_signals == exists|j: int|
                0 <= j < i && carries(#[trigger] comments@[j], span.lo, opt_in_marker()),
            is_no_track_signals == exists|j: int|
                0 <= j < i && carries(#[trigger] comments@[j], span.lo, opt_out_marker()),
        decreases comments.leading.len() - i,
    {
        let comment = &comments.leading[i];
        assert(comments@[i as int] == comment@);
        if comment.pos == span.lo && comment.kind == CommentKind::Block {
            if is_track_signals_directive(comment.text.as_str()) {
                is_track_signals = true;
            }
            if is_no_track_signals_directive(comment.text.as_str()) {
                is_no_track_signals = true;
            }
        }
        i += 1;
    }
    match (is_track_signals, is_no_track_signals) {
        (true, true) => ShouldTrack::OptOut,
        (true, false) => ShouldTrack::OptIn,
        (false, true) => ShouldTrack::OptOut,
        _ => ShouldTrack::Auto,
    }
}

/// Reads the directives at several spans and folds them into one.
pub fn should_track_by_comments(comments: &Comments, spans: &[Span]) -> (directive: ShouldTrack)
    ensures
        directive == directive_over(comments@, spans@),
{
    let mut held = ShouldTrack::Auto;
    let mut i: usize = 0;
    while i < spans.len()
        invariant
            i <= spans.len(),
            held == directive_over(comments@, spans@.take(i as int)),
        decreases spans.len() - i,
    {
        let next = should_track_by_comment(comments, &spans[i]);
        proof {
            let before = spans@.take(i as int);
            let after = spans@.take(i + 1);
            assert(after[i as int] == spans@[i as int]);
            assert forall|j: int| 0 <= j < before.len() implies before[j] == after[j] by {}
            if held == ShouldTrack::OptOut {
                let j = choose|j: int|
                    0 <= j < before.len() && directive_at(comments@, #[trigger] before[j])
                        == ShouldTrack::OptOut;
                assert(directive_at(comments@, after[j]) == ShouldTrack::OptOut);
            }
            if held == ShouldTrack::OptIn {
                let j = choose|j: int|
                    0 <= j < before.len() && directive_at(comments@, #[trigger] before[j])
                        == ShouldTrack::OptIn;
                assert(directive_at(comments@, after[j]) == ShouldTrack::OptIn);
            }
            assert forall|j: int| 0 <= j < after.len() && j != i implies after[j] == before[j] by {}
        }
        held = merge_directives(held, next);
        i += 1;
    }
    assert(spans@.take(i as int) =~= spans@);
    held
}

} // verus!
