//! The pass itself: the state that one unit is walked with, the verdict on a
//! declaration, and the walk that applies it.

use crate::ast::{Ident, Span, Str};
use crate::comments::{CommentView, Comments, ShouldTrack, directive_over, should_track_by_comments};
use crate::detect::Detectable;
use crate::extract::SignalWrappable;
use crate::options::{PreactSignalsPluginOptions, TransformMode, default_options};
use crate::rewrite::{
    clone_ident, ctxt_after, new_private_ident, next_ctxt, scope_ident, tracker_ident,
};
use crate::utils::{MaybeComponentName, Trackable};
use crate::view::IdentView;
use vstd::prelude::*;

verus! {

/// What the pass goes by while it walks a unit; none of it changes on the
/// way.
pub ghost struct Rules {
    pub comments: Seq<CommentView>,
    pub mode: TransformMode,
    pub transform_hooks: bool,
    pub add_context_to_hooks: bool,
    pub file_trackable_name: Option<Trackable>,
}

/// The verdict on a declaration, from what its comments ask for, the mode,
/// the kind that its name stands for, and what its body holds.
///
/// An opt-out settles it, then an opt-in, which needs no markup and no read
/// of `.value`. Without a directive, mode `manual` tracks nothing; the other
/// modes track a hook that reads `.value`, where hooks are instrumented, and
/// a component that holds markup and, in mode `auto`, reads `.value` too.
pub open spec fn verdict_of(
    directive: ShouldTrack,
    mode: TransformMode,
    transform_hooks: bool,
    kind: Option<Trackable>,
    has_jsx: bool,
    has_dot_value: bool,
) -> Option<Trackable> {
    match directive {
        ShouldTrack::OptOut => None,
        ShouldTrack::OptIn => match kind {
            Some(kind) => Some(kind),
            None => Some(Trackable::Unknown),
        },
        ShouldTrack::Auto => match mode {
            TransformMode::Manual => None,
            TransformMode::Auto => match kind {
                Some(Trackable::Hook) if transform_hooks && has_dot_value => Some(Trackable::Hook),
                Some(Trackable::Component) if has_jsx && has_dot_value => Some(
                    Trackable::Component,
                ),
                _ => None,
            },
            TransformMode::All => match kind {
                Some(Trackable::Hook) if transform_hooks && has_dot_value => Some(Trackable::Hook),
                Some(Trackable::Component) if has_jsx => Some(Trackable::Component),
                _ => None,
            },
        },
    }
}

/// The kind that a declaration is judged by: that of its name, or, for a
/// default export without a name, the kind that the file's name stands for.
/// `named` is absent where the declaration has no name, and holds the kind
/// that the name stands for where it has one.
pub open spec fn kind_for(rules: Rules, named: Option<Option<Trackable>>, is_default_export: bool)
    -> Option<Trackable> {
    match named {
        Some(kind) => kind,
        None => if is_default_export {
            rules.file_trackable_name
        } else {
            None
        },
    }
}

/// The verdict on a declaration whose comments are looked up at `spans`.
pub open spec fn decision(
    rules: Rules,
    spans: Seq<Span>,
    named: Option<Option<Trackable>>,
    has_jsx: bool,
    has_dot_value: bool,
    is_default_export: bool,
) -> Option<Trackable> {
    verdict_of(
        directive_over(rules.comments, spans),
        rules.mode,
        rules.transform_hooks,
        kind_for(rules, named, is_default_export),
        has_jsx,
        has_dot_value,
    )
}

/// What a binding of the tracking entry point holds, if the unit has one.
pub open spec fn ident_opt_view(ident: Option<Ident>) -> Option<IdentView> {
    match ident {
        Some(ident) => Some(ident@),
        None => None,
    }
}

/// What changes while a unit is walked: the local name of the tracking
/// entry point, once a body has asked for it, and the next syntax context to
/// hand out.
pub ghost struct Marks {
    pub tracker: Option<IdentView>,
    pub next: u32,
}

/// The local name of the tracking entry point and the state after it was
/// asked for: the name that is there already and the state as it is, or a new
/// name in the next syntax context.
pub open spec fn with_tracker(marks: Marks) -> (IdentView, Marks) {
    match marks.tracker {
        Some(tracker) => (tracker, marks),
        None => (
            tracker_ident(marks.next),
            Marks { tracker: Some(tracker_ident(marks.next)), next: next_ctxt(marks.next) },
        ),
    }
}

/// The next syntax context to hand out in a unit whose identifiers reach up
/// to the context `top`, where `next` was the next one before: the first one
/// above `top`, unless `next` is above it already.
pub open spec fn raised(next: u32, top: u32) -> u32 {
    if next <= top {
        next_ctxt(top)
    } else {
        next
    }
}

/// What a new tracking scope takes from the state: the local name of the
/// tracking entry point that it calls, the identifier that it is bound to, in
/// a syntax context that is handed out for it alone, and the state after.
pub open spec fn scope_for(marks: Marks) -> (IdentView, IdentView, Marks) {
    let (tracker, asked) = with_tracker(marks);
    let effect = scope_ident(asked.next, tracker);
    (tracker, effect, Marks { tracker: Some(tracker), next: next_ctxt(effect.ctxt) })
}

/// The state that one unit is walked with.
pub struct SignalsTransformVisitor {
    /// The comments of the unit.
    pub comments: Comments,
    pub mode: TransformMode,
    /// The local name of the tracking entry point, once a body of the unit
    /// has asked for it.
    pub import_use_signals: Option<Ident>,
    /// The module that exports the tracking entry point.
    pub use_signals_import_source: Str,
    /// The span of the exported declaration that is being walked and was
    /// judged as a whole already.
    pub ignore_span: Option<Span>,
    /// The kind that the name of the file stands for.
    pub file_trackable_name: Option<Trackable>,
    pub transform_hooks: bool,
    pub add_context_to_hooks: bool,
    /// The next syntax context to hand out. Every identifier that the pass
    /// makes takes its context from here, so that no two of them are one and
    /// the same; at the start of a unit it is set above the contexts that the
    /// unit holds, so that none of them is an identifier of the unit.
    pub next_ctxt: u32,
}

impl SignalsTransformVisitor {
    /// The rules that this state holds.
    pub open spec fn rules(&self) -> Rules {
        Rules {
            comments: self.comments@,
            mode: self.mode,
            transform_hooks: self.transform_hooks,
            add_context_to_hooks: self.add_context_to_hooks,
            file_trackable_name: self.file_trackable_name,
        }
    }

    /// What changes while a unit is walked.
    pub open spec fn marks(&self) -> Marks {
        Marks { tracker: ident_opt_view(self.import_use_signals), next: self.next_ctxt }
    }

    /// `after` holds the rules, the suppression marker and the module of the
    /// tracking entry point that this state holds.
    pub open spec fn settled(&self, after: &SignalsTransformVisitor) -> bool {
        &&& after.rules() == self.rules()
        &&& after.ignore_span == self.ignore_span
        &&& after.use_signals_import_source@ == self.use_signals_import_source@
    }

    /// The state for one unit under `options`.
    pub fn from_options(
        options: PreactSignalsPluginOptions,
        comments: Comments,
        file_trackable_name: Option<Trackable>,
    ) -> (visitor: Self)
        ensures
            visitor.rules() == (Rules {
                comments: comments@,
                mode: options.mode,
                transform_hooks: options.transform_hooks,
                add_context_to_hooks: options.experimental.add_hook_usage_flag,
                file_trackable_name,
            }),
            visitor.import_use_signals is None,
            visitor.ignore_span is None,
            visitor.use_signals_import_source@.value == options.import_source@,
            visitor.use_signals_import_source.span == Span::dummy_spec(),
            visitor.next_ctxt == 1,
    {
        SignalsTransformVisitor {
            comments,
            file_trackable_name,
            mode: options.mode,
            import_use_signals: None,
            use_signals_import_source: Str { span: Span::dummy(), value: options.import_source },
            transform_hooks: options.transform_hooks,
            ignore_span: None,
            add_context_to_hooks: options.experimental.add_hook_usage_flag,
            next_ctxt: 1,
        }
    }

    /// The state for one unit under the default options.
    pub fn from_default(comments: Comments, file_trackable_name: Option<Trackable>) -> (visitor:
        Self)
        ensures
            visitor.rules() == (Rules {
                comments: comments@,
                mode: default_options().mode,
                transform_hooks: default_options().transform_hooks,
                add_context_to_hooks: default_options().add_hook_usage_flag,
                file_trackable_name,
            }),
            visitor.import_use_signals is None,
            visitor.ignore_span is None,
            visitor.use_signals_import_source@.value == default_options().import_source,
            visitor.use_signals_import_source.span == Span::dummy_spec(),
            visitor.next_ctxt == 1,
    {
        SignalsTransformVisitor::from_options(
            PreactSignalsPluginOptions::default(),
            comments,
            file_trackable_name,
        )
    }

    /// Hands out the next syntax context: one that this state has not
    /// handed out before, until the numbers start again.
    pub fn fresh_ctxt(&mut self) -> (ctxt: u32)
        ensures
            ctxt == old(self).next_ctxt,
            final(self).next_ctxt == next_ctxt(ctxt),
            final(self).next_ctxt != ctxt,
            final(self).import_use_signals == old(self).import_use_signals,
            old(self).settled(final(self)),
    {
        let ctxt = self.next_ctxt;
        self.next_ctxt = ctxt_after(ctxt);
        ctxt
    }

    /// Sees to it that the next syntax context to hand out is above `top`,
    /// the highest one of a unit that is about to be walked: what the pass
    /// makes from here on is no identifier of that unit.
    pub fn make_room_above(&mut self, top: u32)
        ensures
            final(self).next_ctxt == raised(old(self).next_ctxt, top),
            top < u32::MAX ==> final(self).next_ctxt > top,
            final(self).import_use_signals == old(self).import_use_signals,
            old(self).settled(final(self)),
    {
        if self.next_ctxt <= top {
            self.next_ctxt = ctxt_after(top);
        }
    }

    /// The local name of the tracking entry point, made on the first call in
    /// a unit, in a syntax context that is handed out for it, and given again
    /// on every later call.
    pub fn get_import_use_signals(&mut self) -> (ident: Ident)
        ensures
            (ident@, final(self).marks()) == with_tracker(old(self).marks()),
            old(self).import_use_signals is None ==> ident@ == tracker_ident(
                old(self).next_ctxt,
            ),
            old(self).settled(final(self)),
    {
        match &self.import_use_signals {
            Some(ident) => clone_ident(ident),
            None => {
                let ctxt = self.fresh_ctxt();
                let fresh = new_private_ident("_useSignals", ctxt);
                let ident = clone_ident(&fresh);
                self.import_use_signals = Some(fresh);
                ident
            },
        }
    }

    /// The kind that a declaration is judged by: that of its name, or, for a
    /// default export without a name, the kind that the file's name stands
    /// for.
    pub fn is_trackable<I>(&self, ident: Option<&I>, is_default_export: bool) -> (kind: Option<
        Trackable,
    >) where I: MaybeComponentName
        ensures
            kind == kind_for(
                self.rules(),
                match ident {
                    Some(name) => Some(name.named_kind()),
                    None => None,
                },
                is_default_export,
            ),
    {
        match ident {
            Some(name) => name.is_trackable(),
            None => if is_default_export {
                self.file_trackable_name
            } else {
                None
            },
        }
    }

    /// The verdict on a declaration: what kind it is tracked as, or nothing
    /// where it is left alone. The comments are looked up at
    /// `comment_spans`; `ident` is the name that the declaration is known by,
    /// and `component` the function that it binds.
    pub fn should_track_option_ident<I, Comp>(
        &self,
        comment_spans: &[Span],
        ident: Option<&I>,
        component: &Comp,
        is_default_export: bool,
    ) -> (verdict: Option<Trackable>) where Comp: Detectable, I: MaybeComponentName
        ensures
            verdict == decision(
                self.rules(),
                comment_spans@,
                match ident {
                    Some(name) => Some(name.named_kind()),
                    None => None,
                },
                component.holds_jsx(),
                component.holds_dot_value(),
                is_default_export,
            ),
    {
        let should_track = should_track_by_comments(&self.comments, comment_spans);
        match should_track {
            ShouldTrack::Auto => match self.mode {
                TransformMode::Manual => None,
                TransformMode::Auto => match self.is_trackable(ident, is_default_export) {
                    Some(Trackable::Hook) => if self.transform_hooks && component.has_dot_value() {
                        Some(Trackable::Hook)
                    } else {
                        None
                    },
                    Some(Trackable::Component) => if component.has_jsx()
                        && component.has_dot_value() {
                        Some(Trackable::Component)
                    } else {
                        None
                    },
                    _ => None,
                },
                TransformMode::All => match self.is_trackable(ident, is_default_export) {
                    Some(Trackable::Hook) => if self.transform_hooks && component.has_dot_value() {
                        Some(Trackable::Hook)
                    } else {
                        None
                    },
                    Some(Trackable::Component) => if component.has_jsx() {
                        Some(Trackable::Component)
                    } else {
                        None
                    },
                    _ => None,
                },
            },
            ShouldTrack::OptIn => match self.is_trackable(ident, is_default_export) {
                Some(kind) => Some(kind),
                None => Some(Trackable::Unknown),
            },
            ShouldTrack::OptOut => None,
        }
    }

    /// Takes from the state what a new tracking scope needs: the local name
    /// of the tracking entry point, made now where the unit has none yet, and
    /// a syntax context for the identifier of the scope, which is handed out
    /// for this scope alone. The second result is the free context to pass on
    /// to the wrapping; the scope takes the one after it where the tracking
    /// entry point is bound in that very context.
    pub fn open_scope(&mut self) -> (scope: (Ident, u32))
        ensures
            (scope.0@, scope_ident(scope.1, scope.0@), final(self).marks()) == scope_for(
                old(self).marks(),
            ),
            scope_ident(scope.1, scope.0@) != scope.0@,
            old(self).settled(final(self)),
    {
        let ident = self.get_import_use_signals();
        let free = self.next_ctxt;
        let used = if free == ident.ctxt {
            ctxt_after(free)
        } else {
            free
        };
        self.next_ctxt = ctxt_after(used);
        (ident, free)
    }

    /// Wraps the body of `wrappable` as a declaration of kind `trackable`,
    /// in a tracking scope with an identifier of its own, and sees to it that
    /// the unit has a name for the tracking entry point. What has no body is
    /// left alone, and nothing is handed out for it.
    pub fn track<TWrappable>(&mut self, trackable: Trackable, wrappable: &mut TWrappable) where
        TWrappable: SignalWrappable,

        ensures
            old(wrappable).bodied() ==> TWrappable::wrapped_into(
                old(wrappable),
                final(wrappable),
                scope_for(old(self).marks()).0,
                scope_for(old(self).marks()).1,
                trackable.arg(old(self).add_context_to_hooks),
            ) && final(self).marks() == scope_for(old(self).marks()).2,
            !old(wrappable).bodied() ==> *final(wrappable) == *old(wrappable)
                && final(self).marks() == old(self).marks(),
            old(self).settled(final(self)),
    {
        if wrappable.has_body() {
            let (ident, free) = self.open_scope();
            wrappable.wrap_with_use_signals(
                ident,
                trackable.to_arg(self.add_context_to_hooks),
                free,
            );
        }
    }
}

} // verus!
