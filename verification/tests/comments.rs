use swc_plugin_preact_signals::ast::Span;
use swc_plugin_preact_signals::comments::{
    merge_directives, should_track_by_comment, should_track_by_comments, Comment, CommentKind,
    Comments, ShouldTrack,
};

fn sp(lo: u32, hi: u32) -> Span {
    Span { lo, hi }
}

fn block(pos: u32, text: &str) -> Comment {
    Comment { pos, kind: CommentKind::Block, text: text.to_string() }
}

fn line(pos: u32, text: &str) -> Comment {
    Comment { pos, kind: CommentKind::Line, text: text.to_string() }
}

fn table(leading: Vec<Comment>) -> Comments {
    Comments { leading }
}

#[test]
fn no_comment_means_auto() {
    assert_eq!(should_track_by_comment(&table(vec![]), &sp(10, 20)), ShouldTrack::Auto);
}

#[test]
fn opt_in_marker_in_a_block_comment() {
    let comments = table(vec![block(10, " @useSignals ")]);
    assert_eq!(should_track_by_comment(&comments, &sp(10, 20)), ShouldTrack::OptIn);
}

#[test]
fn opt_out_marker_in_a_block_comment() {
    let comments = table(vec![block(10, "* @noUseSignals")]);
    assert_eq!(should_track_by_comment(&comments, &sp(10, 20)), ShouldTrack::OptOut);
}

#[test]
fn both_markers_in_one_comment_opt_out() {
    let comments = table(vec![block(10, " @useSignals @noUseSignals ")]);
    assert_eq!(should_track_by_comment(&comments, &sp(10, 20)), ShouldTrack::OptOut);
}

#[test]
fn both_markers_in_two_comments_at_one_position_opt_out() {
    let comments = table(vec![block(10, "@noUseSignals"), block(10, "@useSignals")]);
    assert_eq!(should_track_by_comment(&comments, &sp(10, 20)), ShouldTrack::OptOut);
    let comments = table(vec![block(10, "@useSignals"), block(10, "@noUseSignals")]);
    assert_eq!(should_track_by_comment(&comments, &sp(10, 20)), ShouldTrack::OptOut);
}

#[test]
fn line_comments_carry_no_directive() {
    let comments = table(vec![line(10, " @useSignals"), line(10, " @noUseSignals")]);
    assert_eq!(should_track_by_comment(&comments, &sp(10, 20)), ShouldTrack::Auto);
}

#[test]
fn comments_at_other_positions_do_not_count() {
    let comments = table(vec![block(11, "@useSignals"), block(20, "@noUseSignals")]);
    assert_eq!(should_track_by_comment(&comments, &sp(10, 20)), ShouldTrack::Auto);
}

#[test]
fn a_comment_without_a_marker_means_auto() {
    let comments = table(vec![block(10, "useSignals, no marker: x@useSignals")]);
    assert_eq!(should_track_by_comment(&comments, &sp(10, 20)), ShouldTrack::Auto);
}

#[test]
fn merge_prefers_opt_out_then_opt_in() {
    let (auto, opt_in, opt_out) = (ShouldTrack::Auto, ShouldTrack::OptIn, ShouldTrack::OptOut);
    assert_eq!(merge_directives(auto, auto), auto);
    assert_eq!(merge_directives(auto, opt_in), opt_in);
    assert_eq!(merge_directives(auto, opt_out), opt_out);
    assert_eq!(merge_directives(opt_in, auto), opt_in);
    assert_eq!(merge_directives(opt_in, opt_in), opt_in);
    assert_eq!(merge_directives(opt_in, opt_out), opt_out);
    assert_eq!(merge_directives(opt_out, auto), opt_out);
    assert_eq!(merge_directives(opt_out, opt_in), opt_out);
    assert_eq!(merge_directives(opt_out, opt_out), opt_out);
}

#[test]
fn opt_out_on_any_span_wins_whatever_the_order() {
    let comments = table(vec![block(10, "@useSignals"), block(30, "@noUseSignals")]);
    assert_eq!(
        should_track_by_comments(&comments, &[sp(10, 20), sp(30, 40)]),
        ShouldTrack::OptOut
    );
    assert_eq!(
        should_track_by_comments(&comments, &[sp(30, 40), sp(10, 20)]),
        ShouldTrack::OptOut
    );
    assert_eq!(
        should_track_by_comments(&comments, &[sp(30, 40), sp(50, 60), sp(10, 20)]),
        ShouldTrack::OptOut
    );
}

#[test]
fn opt_in_on_one_span_is_enough() {
    let comments = table(vec![block(30, "@useSignals")]);
    assert_eq!(
        should_track_by_comments(&comments, &[sp(10, 20), sp(30, 40)]),
        ShouldTrack::OptIn
    );
    assert_eq!(
        should_track_by_comments(&comments, &[sp(30, 40), sp(10, 20)]),
        ShouldTrack::OptIn
    );
}

#[test]
fn no_span_means_auto() {
    let comments = table(vec![block(30, "@useSignals")]);
    assert_eq!(should_track_by_comments(&comments, &[]), ShouldTrack::Auto);
    assert_eq!(should_track_by_comments(&comments, &[sp(10, 20)]), ShouldTrack::Auto);
}
