//! The cancellation guard.
//!
//! An interrupt can land at any point while the session blocks on input.
//! The guard owns one shared "session active" flag; the interrupt handler
//! deletes the in-progress artifact and exits only while that flag is set,
//! and finalization clears it as the session's last act.
//!
//! The handler itself runs outside the library, so its decision is exposed
//! here as a function of the flag, and the safety of the whole protocol is
//! stated over a small model of the world: whether the artifact exists,
//! what it holds, and whether the session is still active.

use vstd::prelude::*;

verus! {

/// What the interrupt handler must do, given the flag it read.
#[derive(PartialEq, Eq, Structural, Debug, Clone, Copy)]
pub enum SignalAction {
    /// The session was still active: delete the artifact and exit.
    CleanupAndExit,
    /// The session had finished: leave everything alone.
    LeaveAlone,
}

/// The interrupt handler's whole decision: cleanup exactly while the
/// session is still active.
pub fn on_interrupt(active: bool) -> (a: SignalAction)
    ensures
        a == (if active {
            SignalAction::CleanupAndExit
        } else {
            SignalAction::LeaveAlone
        }),
{
    if active {
        SignalAction::CleanupAndExit
    } else {
        SignalAction::LeaveAlone
    }
}

/// The state the guard protocol ranges over: the artifact (existence and
/// content) and the shared active flag.
pub struct World {
    pub exists: bool,
    pub content: Seq<char>,
    pub active: bool,
}

/// One observable event of a session run.
pub enum Event {
    /// The guard is armed before anything touches the artifact.
    Arm,
    /// The artifact is opened: created empty if absent, kept whole if a
    /// same-day artifact already exists.
    Open,
    /// One completed step appends `text` to the artifact.
    Append { text: Seq<char> },
    /// Normal completion clears the active flag.
    Disarm,
    /// The interrupt signal arrives; the handler acts on the flag.
    Interrupt,
}

/// How each event changes the world. An interrupt while active removes the
/// artifact; after disarm it changes nothing.
pub open spec fn world_step(w: World, e: Event) -> World {
    match e {
        Event::Arm => World { active: true, ..w },
        Event::Open => if w.exists {
            w
        } else {
            World { exists: true, content: Seq::empty(), ..w }
        },
        Event::Append { text } => World { content: w.content + text, ..w },
        Event::Disarm => World { active: false, ..w },
        Event::Interrupt => if w.active {
            World { exists: false, content: Seq::empty(), ..w }
        } else {
            w
        },
    }
}

/// The world after a whole sequence of events.
pub open spec fn world_run(w: World, es: Seq<Event>) -> World
    decreases es.len(),
{
    if es.len() == 0 {
        w
    } else {
        world_step(world_run(w, es.drop_last()), es.last())
    }
}

/// The events of one uninterrupted session: arm, open, every step's
/// append, and the final disarm.
pub open spec fn is_session_trace(es: Seq<Event>) -> bool {
    &&& es.len() >= 3
    &&& es[0] == Event::Arm
    &&& es[1] == Event::Open
    &&& es.last() == Event::Disarm
    &&& forall|i: int| 2 <= i < es.len() - 1 ==> es[i] is Append
}

/// Everything a trace appends, in order.
pub open spec fn appended_text(es: Seq<Event>) -> Seq<char>
    decreases es.len(),
{
    if es.len() == 0 {
        Seq::empty()
    } else {
        appended_text(es.drop_last()) + (match es.last() {
            Event::Append { text } => text,
            _ => Seq::<char>::empty(),
        })
    }
}

/// Law: while a session is in progress — armed, and neither finalized nor
/// already interrupted — the active flag is still set, so an interrupt at
/// that point removes the artifact and leaves nothing behind.
pub proof fn lemma_cancellation_cleanup(w: World, es: Seq<Event>)
    requires
        w.active,
        forall|i: int| 0 <= i < es.len() ==> !(es[i] is Disarm) && !(es[i] is Interrupt),
    ensures
        world_run(w, es).active,
        !world_run(w, es.push(Event::Interrupt)).exists,
        world_run(w, es.push(Event::Interrupt)).content == Seq::<char>::empty(),
    decreases es.len(),
{
    if es.len() > 0 {
        lemma_cancellation_cleanup(w, es.drop_last());
        assert(es.drop_last().push(Event::Interrupt).drop_last() =~= es.drop_last());
    }
    assert(es.push(Event::Interrupt).drop_last() =~= es);
}

/// Law: once the session has been finalized, an interrupt changes nothing:
/// the artifact still exists exactly as it was, with the same content.
pub proof fn lemma_post_completion_immunity(w: World)
    requires
        !w.active,
    ensures
        world_step(w, Event::Interrupt) == w,
{
}

/// Law: an interrupt that lands after a session has finalized changes
/// nothing at all: the artifact of that session still exists, with the
/// content the session left in it.
pub proof fn lemma_completed_session_survives_interrupt(w: World, es: Seq<Event>)
    requires
        is_session_trace(es),
    ensures
        world_run(w, es.push(Event::Interrupt)) == world_run(w, es),
        world_run(w, es.push(Event::Interrupt)).exists,
{
    lemma_session_appends(w, es);
    assert(es.push(Event::Interrupt).drop_last() =~= es);
    lemma_post_completion_immunity(world_run(w, es));
}

/// Law: a completed session appends its text after whatever the artifact
/// already held, and leaves the artifact in place with the flag cleared.
pub proof fn lemma_session_appends(w: World, es: Seq<Event>)
    requires
        is_session_trace(es),
    ensures
        world_run(w, es).exists,
        world_run(w, es).content == (if w.exists {
            w.content
        } else {
            Seq::<char>::empty()
        }) + appended_text(es),
        !world_run(w, es).active,
{
    let body = es.drop_last();
    lemma_armed_open_appends(w, body);
    let base = if w.exists {
        w.content
    } else {
        Seq::<char>::empty()
    };
    assert(world_run(w, es) == world_step(world_run(w, body), Event::Disarm));
    assert(appended_text(es) =~= appended_text(body));
    assert(world_run(w, es).content =~= base + appended_text(es));
}

/// Law: running one session and then another on the same date appends the
/// second session's text after the first's; nothing is overwritten.
pub proof fn lemma_same_day_sessions_append(w: World, es1: Seq<Event>, es2: Seq<Event>)
    requires
        is_session_trace(es1),
        is_session_trace(es2),
    ensures
        world_run(world_run(w, es1), es2).exists,
        world_run(world_run(w, es1), es2).content == (if w.exists {
            w.content
        } else {
            Seq::<char>::empty()
        }) + appended_text(es1) + appended_text(es2),
{
    lemma_session_appends(w, es1);
    lemma_session_appends(world_run(w, es1), es2);
}

/// After arming and opening, a run of appends leaves an existing, active
/// artifact holding what was there before plus everything appended.
proof fn lemma_armed_open_appends(w: World, es: Seq<Event>)
    requires
        es.len() >= 2,
        es[0] == Event::Arm,
        es[1] == Event::Open,
        forall|i: int| 2 <= i < es.len() ==> es[i] is Append,
    ensures
        world_run(w, es) == (World {
            exists: true,
            active: true,
            content: (if w.exists {
                w.content
            } else {
                Seq::<char>::empty()
            }) + appended_text(es),
        }),
    decreases es.len(),
{
    let base = if w.exists {
        w.content
    } else {
        Seq::<char>::empty()
    };
    if es.len() == 2 {
        assert(es.last() == es[1]);
        assert(es.drop_last() =~= seq![Event::Arm]);
        assert(seq![Event::Arm].drop_last() =~= Seq::<Event>::empty());
        assert(appended_text(Seq::<Event>::empty()) =~= Seq::<char>::empty());
        assert(appended_text(seq![Event::Arm]) =~= Seq::<char>::empty());
        assert(appended_text(es) =~= Seq::<char>::empty());
        assert(world_run(w, Seq::<Event>::empty()) == w);
        assert(world_run(w, seq![Event::Arm]) == world_step(w, Event::Arm));
        assert(world_run(w, es) == world_step(world_step(w, Event::Arm), Event::Open));
        assert(base + appended_text(es) =~= base);
        assert(world_run(w, es) == (World { exists: true, active: true, content: base }));
    } else {
        lemma_armed_open_appends(w, es.drop_last());
        let text = match es.last() {
            Event::Append { text } => text,
            _ => Seq::<char>::empty(),
        };
        assert(appended_text(es) == appended_text(es.drop_last()) + text);
        assert(base + appended_text(es.drop_last()) + text =~= base + appended_text(es));
    }
}

} // verus!
