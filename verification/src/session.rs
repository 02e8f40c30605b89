//! The session controller: a state machine over the fixed script.
//!
//! Each answered prompt is one step. A step consumes the user's answer and
//! yields the next phase together with the exact text that the step appends
//! to the artifact, so the whole artifact is pinned down as a function of
//! the date and the eleven answers.

use vstd::prelude::*;
use crate::date::{Date, date_text, date_string};
use crate::guard::{Event, appended_text, is_session_trace};
use crate::parse::{selection_spec, score_spec, parse_u64_spec, parse_i32_spec, select_prompt,
    parse_score};
use crate::script::{prompt_at, prompt_text, aspect_at, aspect_text, criterion_at, criterion_text,
    section_text, section_line, row_text, push_row, aspect_header_text, score_header_text,
    TOTAL_MAX};
use crate::text::{int_digits, dec_digits, push_i64, push_u64};

verus! {

/// Where a session stands: which answer it is waiting for, and, through the
/// scoring steps, the running total so far.
pub enum Phase {
    Selection,
    PromptAnswer { prompt: usize },
    RawIdea,
    Breakdown { next: usize },
    Scoring { next: usize, total: i64 },
    Complete { total: i64 },
}

impl Phase {
    /// The indices stay inside the fixed lists, and a running total of
    /// `next` recorded scores stays inside `next` times the score range.
    pub open spec fn wf(self) -> bool {
        match self {
            Phase::Selection => true,
            Phase::PromptAnswer { prompt } => prompt < 5,
            Phase::RawIdea => true,
            Phase::Breakdown { next } => next < 4,
            Phase::Scoring { next, total } => next < 4 && (next as int) * (i32::MIN as int)
                <= total as int <= (next as int) * (i32::MAX as int),
            Phase::Complete { total } => 4 * (i32::MIN as int) <= total as int <= 4 * (
            i32::MAX as int),
        }
    }
}

/// The text written before any prompt is answered: the date header and the
/// first section's heading. Writing it creates the artifact.
pub open spec fn opening_text(d: Date) -> Seq<char> {
    "## Date:\n"@ + date_text(d) + "\n\n"@ + section_text("Step 1: Idea Prompt"@)
}

/// What the selection step appends: the chosen prompt (the first one when
/// the answer does not pick one of the five) and a blank line.
pub open spec fn selection_chunk(input: Seq<char>) -> Seq<char> {
    prompt_at(selection_spec(input)) + "\n\n"@
}

/// What the prompt-answer step appends: the verbatim answer, then the next
/// section's heading.
pub open spec fn answer_chunk(answer: Seq<char>) -> Seq<char> {
    answer + "\n"@ + section_text("Step 2: Raw Idea"@)
}

/// What the raw-idea step appends: the verbatim answer, then the breakdown
/// section's heading and table header.
pub open spec fn raw_idea_chunk(answer: Seq<char>) -> Seq<char> {
    answer + "\n"@ + section_text("Step 3: Idea Breakdown"@) + aspect_header_text()
}

/// What breakdown step `i` appends: one table row; the last one also opens
/// the scoring section.
pub open spec fn breakdown_chunk(i: int, answer: Seq<char>) -> Seq<char> {
    if i < 3 {
        row_text(aspect_at(i), answer)
    } else {
        row_text(aspect_at(i), answer) + section_text("Step 4: Feasibility & Impact Scoring"@)
            + score_header_text()
    }
}

/// The artifact's closing line: the total over the derived denominator.
pub open spec fn total_text(total: int) -> Seq<char> {
    "\n**Total Score**: "@ + int_digits(total) + " / "@ + dec_digits(TOTAL_MAX as int) + "\n"@
}

/// What scoring step `i` appends: one table row with the recorded value;
/// the last one also writes the total line, `prior` being the running total
/// before this step.
pub open spec fn score_chunk(i: int, input: Seq<char>, prior: int) -> Seq<char> {
    if i < 3 {
        row_text(criterion_at(i), int_digits(score_spec(input)))
    } else {
        row_text(criterion_at(i), int_digits(score_spec(input))) + total_text(
            prior + score_spec(input),
        )
    }
}

/// The next phase and the appended text, for one answered prompt.
pub open spec fn step_spec(p: Phase, input: Seq<char>) -> (Phase, Seq<char>) {
    match p {
        Phase::Selection => (
            Phase::PromptAnswer { prompt: selection_spec(input) as usize },
            selection_chunk(input),
        ),
        Phase::PromptAnswer { .. } => (Phase::RawIdea, answer_chunk(input)),
        Phase::RawIdea => (Phase::Breakdown { next: 0 }, raw_idea_chunk(input)),
        Phase::Breakdown { next } => (
            if next < 3 {
                Phase::Breakdown { next: (next + 1) as usize }
            } else {
                Phase::Scoring { next: 0, total: 0 }
            },
            breakdown_chunk(next as int, input),
        ),
        Phase::Scoring { next, total } => (
            if next < 3 {
                Phase::Scoring {
                    next: (next + 1) as usize,
                    total: (total + score_spec(input)) as i64,
                }
            } else {
                Phase::Complete { total: (total + score_spec(input)) as i64 }
            },
            score_chunk(next as int, input, total as int),
        ),
        Phase::Complete { .. } => (p, Seq::empty()),
    }
}

/// The question the session asks in phase `p`.
pub open spec fn question_at(p: Phase) -> Seq<char> {
    match p {
        Phase::Selection => "Choose one option (1-5), Default (1):"@,
        Phase::PromptAnswer { prompt } => prompt_at(prompt as int),
        Phase::RawIdea => "Write freely - don't filter yourself."@,
        Phase::Breakdown { next } => aspect_at(next as int),
        Phase::Scoring { next, .. } => criterion_at(next as int) + " (1-10):"@,
        Phase::Complete { .. } => Seq::<char>::empty(),
    }
}

/// The running total a phase carries: what the scoring steps have summed
/// so far, or the final total once the session is complete.
pub open spec fn running_total(p: Phase) -> int {
    match p {
        Phase::Scoring { total, .. } => total as int,
        Phase::Complete { total } => total as int,
        _ => 0,
    }
}

/// Opens a session on `d`: the initial phase and the text whose write
/// creates the artifact.
pub fn session_start(d: &Date) -> (r: (Phase, String))
    requires
        d.wf(),
    ensures
        r.0 == Phase::Selection,
        r.1@ == opening_text(*d),
{
    let mut out = String::from_str("## Date:\n");
    let ds = date_string(d);
    out.append(ds.as_str());
    out.append("\n\n");
    let sec = section_line("Step 1: Idea Prompt");
    out.append(sec.as_str());
    proof {
        assert(out@ =~= opening_text(*d));
    }
    (Phase::Selection, out)
}

/// Whether the session still waits for an answer.
pub fn is_complete(p: &Phase) -> (b: bool)
    ensures
        b == (*p is Complete),
{
    match p {
        Phase::Complete { .. } => true,
        _ => false,
    }
}

/// Checks the phase invariant; what a caller that did not track it must
/// test before stepping on.
pub fn phase_wf(p: &Phase) -> (b: bool)
    ensures
        b == p.wf(),
{
    match *p {
        Phase::Selection => true,
        Phase::PromptAnswer { prompt } => prompt < 5,
        Phase::RawIdea => true,
        Phase::Breakdown { next } => next < 4,
        Phase::Scoring { next, total } => {
            if next < 4 {
                let lo: i64 = (next as i64) * (-2147483648i64);
                let hi: i64 = (next as i64) * 2147483647i64;
                lo <= total && total <= hi
            } else {
                false
            }
        },
        Phase::Complete { total } => -4 * 2147483648i64 <= total && total <= 4 * 2147483647i64,
    }
}

/// The final total of a completed session.
pub fn completed_total(p: &Phase) -> (t: i64)
    requires
        *p is Complete,
    ensures
        t as int == running_total(*p),
{
    match p {
        Phase::Complete { total } => *total,
        _ => 0,
    }
}

/// The question to ask next.
pub fn session_question(p: &Phase) -> (q: String)
    requires
        p.wf(),
        !(*p is Complete),
    ensures
        q@ == question_at(*p),
{
    match p {
        Phase::Selection => String::from_str("Choose one option (1-5), Default (1):"),
        Phase::PromptAnswer { prompt } => String::from_str(prompt_text(*prompt)),
        Phase::RawIdea => String::from_str("Write freely - don't filter yourself."),
        Phase::Breakdown { next } => String::from_str(aspect_text(*next)),
        Phase::Scoring { next, .. } => {
            let mut q = String::from_str(criterion_text(*next));
            q.append(" (1-10):");
            proof {
                assert(q@ =~= question_at(*p));
            }
            q
        },
        Phase::Complete { .. } => String::new(),
    }
}

/// Consumes one answer: returns the next phase and the text this step
/// appends to the artifact.
pub fn session_step(p: Phase, input: &str) -> (r: (Phase, String))
    requires
        p.wf(),
        !(p is Complete),
    ensures
        r.0 == step_spec(p, input@).0,
        r.1@ == step_spec(p, input@).1,
        r.0.wf(),
{
    match p {
        Phase::Selection => {
            let idx = select_prompt(input);
            let mut out = String::from_str(prompt_text(idx));
            out.append("\n\n");
            proof {
                assert(out@ =~= selection_chunk(input@));
            }
            (Phase::PromptAnswer { prompt: idx }, out)
        },
        Phase::PromptAnswer { .. } => {
            let mut out = String::from_str(input);
            out.append("\n");
            let sec = section_line("Step 2: Raw Idea");
            out.append(sec.as_str());
            proof {
                assert(out@ =~= answer_chunk(input@));
            }
            (Phase::RawIdea, out)
        },
        Phase::RawIdea => {
            let mut out = String::from_str(input);
            out.append("\n");
            let sec = section_line("Step 3: Idea Breakdown");
            out.append(sec.as_str());
            out.append("| Aspect | Description |\n|---------|-------------|\n");
            proof {
                assert(out@ =~= raw_idea_chunk(input@));
            }
            (Phase::Breakdown { next: 0 }, out)
        },
        Phase::Breakdown { next } => {
            let mut out = String::new();
            push_row(&mut out, aspect_text(next), input);
            if next < 3 {
                proof {
                    assert(out@ =~= breakdown_chunk(next as int, input@));
                }
                (Phase::Breakdown { next: next + 1 }, out)
            } else {
                let sec = section_line("Step 4: Feasibility & Impact Scoring");
                out.append(sec.as_str());
                out.append("| Criteria | Score |\n|-----------|--------|\n");
                proof {
                    assert(out@ =~= breakdown_chunk(next as int, input@));
                }
                (Phase::Scoring { next: 0, total: 0 }, out)
            }
        },
        Phase::Scoring { next, total } => {
            let v = parse_score(input);
            let mut value_str = String::new();
            push_i64(&mut value_str, v as i64);
            let mut out = String::new();
            push_row(&mut out, criterion_text(next), value_str.as_str());
            let new_total: i64 = total + v as i64;
            if next < 3 {
                proof {
                    assert(out@ =~= score_chunk(next as int, input@, total as int));
                }
                (Phase::Scoring { next: next + 1, total: new_total }, out)
            } else {
                out.append("\n**Total Score**: ");
                push_i64(&mut out, new_total);
                out.append(" / ");
                push_u64(&mut out, TOTAL_MAX);
                out.append("\n");
                proof {
                    assert(out@ =~= score_chunk(next as int, input@, total as int));
                }
                (Phase::Complete { total: new_total }, out)
            }
        },
        Phase::Complete { .. } => {
            proof {
                assert(false);
            }
            (p, String::new())
        },
    }
}

/// How many answers one full session consumes: the selection, the prompt's
/// answer, the raw idea, four breakdown answers and four scores.
pub const ANSWER_COUNT: usize = 11;

/// The sum of the four recorded scores.
pub open spec fn total_spec(inputs: Seq<Seq<char>>) -> int {
    score_spec(inputs[7]) + score_spec(inputs[8]) + score_spec(inputs[9]) + score_spec(inputs[10])
}

/// Everything the artifact holds before the total line, as a function of
/// the date and the eleven answers.
pub open spec fn artifact_body_text(d: Date, inputs: Seq<Seq<char>>) -> Seq<char> {
    opening_text(d) + selection_chunk(inputs[0]) + answer_chunk(inputs[1]) + raw_idea_chunk(
        inputs[2],
    ) + breakdown_chunk(0, inputs[3]) + breakdown_chunk(1, inputs[4]) + breakdown_chunk(
        2,
        inputs[5],
    ) + breakdown_chunk(3, inputs[6]) + row_text(criterion_at(0), int_digits(score_spec(inputs[7])))
        + row_text(criterion_at(1), int_digits(score_spec(inputs[8]))) + row_text(
        criterion_at(2),
        int_digits(score_spec(inputs[9])),
    ) + row_text(criterion_at(3), int_digits(score_spec(inputs[10])))
}

/// The whole artifact of one session: the body, then the total line.
pub open spec fn artifact_text(d: Date, inputs: Seq<Seq<char>>) -> Seq<char> {
    artifact_body_text(d, inputs) + total_text(total_spec(inputs))
}

/// Runs the whole script on answers given up front and returns the full
/// artifact text; what the interactive loop appends step by step adds up
/// to exactly this.
pub fn render_session(d: &Date, inputs: &Vec<String>) -> (out: String)
    requires
        d.wf(),
        inputs.len() == ANSWER_COUNT,
    ensures
        out@ == artifact_text(*d, inputs@.map_values(|s: String| s@)),
{
    let ghost views = inputs@.map_values(|s: String| s@);
    let (p0, mut out) = session_start(d);
    let (p1, c1) = session_step(p0, inputs[0].as_str());
    out.append(c1.as_str());
    let (p2, c2) = session_step(p1, inputs[1].as_str());
    out.append(c2.as_str());
    let (p3, c3) = session_step(p2, inputs[2].as_str());
    out.append(c3.as_str());
    let (p4, c4) = session_step(p3, inputs[3].as_str());
    out.append(c4.as_str());
    let (p5, c5) = session_step(p4, inputs[4].as_str());
    out.append(c5.as_str());
    let (p6, c6) = session_step(p5, inputs[5].as_str());
    out.append(c6.as_str());
    let (p7, c7) = session_step(p6, inputs[6].as_str());
    out.append(c7.as_str());
    let (p8, c8) = session_step(p7, inputs[7].as_str());
    out.append(c8.as_str());
    let (p9, c9) = session_step(p8, inputs[8].as_str());
    out.append(c9.as_str());
    let (p10, c10) = session_step(p9, inputs[9].as_str());
    out.append(c10.as_str());
    let (p11, c11) = session_step(p10, inputs[10].as_str());
    out.append(c11.as_str());
    proof {
        assert(out@ =~= artifact_text(*d, views));
    }
    out
}

/// Law: a selection answer that does not read as a number in `1..=5`
/// makes the selection step write the first built-in prompt and move on
/// with that prompt chosen.
pub proof fn lemma_selection_step_defaults(input: Seq<char>)
    requires
        parse_u64_spec(input) is None || !(1 <= parse_u64_spec(input).unwrap() <= 5),
    ensures
        step_spec(Phase::Selection, input).0 == (Phase::PromptAnswer { prompt: 0 }),
        step_spec(Phase::Selection, input).1 == prompt_at(0) + "\n\n"@,
{
}

/// Law: a scoring answer that does not read as a number is recorded as
/// zero: the step's row shows the value `0` and the running total does not
/// change.
pub proof fn lemma_score_step_default(p: Phase, input: Seq<char>)
    requires
        p.wf(),
        p is Scoring,
        parse_i32_spec(input) is None,
    ensures
        score_spec(input) == 0,
        running_total(step_spec(p, input).0) == running_total(p),
{
    crate::parse::lemma_score_default(input);
}

/// The guard-level events of one full, uninterrupted session: arm, open,
/// one append per written chunk, disarm.
pub open spec fn session_trace(d: Date, inputs: Seq<Seq<char>>) -> Seq<Event> {
    seq![
        Event::Arm,
        Event::Open,
        Event::Append { text: opening_text(d) },
        Event::Append { text: selection_chunk(inputs[0]) },
        Event::Append { text: answer_chunk(inputs[1]) },
        Event::Append { text: raw_idea_chunk(inputs[2]) },
        Event::Append { text: breakdown_chunk(0, inputs[3]) },
        Event::Append { text: breakdown_chunk(1, inputs[4]) },
        Event::Append { text: breakdown_chunk(2, inputs[5]) },
        Event::Append { text: breakdown_chunk(3, inputs[6]) },
        Event::Append { text: score_chunk(0, inputs[7], 0) },
        Event::Append { text: score_chunk(1, inputs[8], score_spec(inputs[7])) },
        Event::Append {
            text: score_chunk(2, inputs[9], score_spec(inputs[7]) + score_spec(inputs[8])),
        },
        Event::Append {
            text: score_chunk(
                3,
                inputs[10],
                score_spec(inputs[7]) + score_spec(inputs[8]) + score_spec(inputs[9]),
            ),
        },
        Event::Disarm,
    ]
}

/// Law: a full session is a session-shaped trace, and what it appends to
/// the artifact is exactly the artifact text of its date and answers. With
/// the guard's laws this ties cancellation cleanup, post-completion
/// immunity and same-day appending to the real artifact content.
pub proof fn lemma_session_trace_appends_artifact(d: Date, inputs: Seq<Seq<char>>)
    requires
        inputs.len() == ANSWER_COUNT,
    ensures
        is_session_trace(session_trace(d, inputs)),
        appended_text(session_trace(d, inputs)) == artifact_text(d, inputs),
{
    let es = session_trace(d, inputs);
    let t2 = seq![Event::Arm, Event::Open];
    assert(t2.drop_last() =~= seq![Event::Arm]);
    assert(seq![Event::Arm].drop_last() =~= Seq::<Event>::empty());
    assert(appended_text(Seq::<Event>::empty()) =~= Seq::<char>::empty());
    assert(appended_text(seq![Event::Arm]) =~= Seq::<char>::empty());
    assert(appended_text(t2) =~= Seq::<char>::empty());
    let c0 = opening_text(d);
    let c1 = selection_chunk(inputs[0]);
    let c2 = answer_chunk(inputs[1]);
    let c3 = raw_idea_chunk(inputs[2]);
    let c4 = breakdown_chunk(0, inputs[3]);
    let c5 = breakdown_chunk(1, inputs[4]);
    let c6 = breakdown_chunk(2, inputs[5]);
    let c7 = breakdown_chunk(3, inputs[6]);
    let c8 = score_chunk(0, inputs[7], 0);
    let c9 = score_chunk(1, inputs[8], score_spec(inputs[7]));
    let c10 = score_chunk(2, inputs[9], score_spec(inputs[7]) + score_spec(inputs[8]));
    let c11 = score_chunk(
        3,
        inputs[10],
        score_spec(inputs[7]) + score_spec(inputs[8]) + score_spec(inputs[9]),
    );
    let t3 = t2.push(Event::Append { text: c0 });
    let t4 = t3.push(Event::Append { text: c1 });
    let t5 = t4.push(Event::Append { text: c2 });
    let t6 = t5.push(Event::Append { text: c3 });
    let t7 = t6.push(Event::Append { text: c4 });
    let t8 = t7.push(Event::Append { text: c5 });
    let t9 = t8.push(Event::Append { text: c6 });
    let t10 = t9.push(Event::Append { text: c7 });
    let t11 = t10.push(Event::Append { text: c8 });
    let t12 = t11.push(Event::Append { text: c9 });
    let t13 = t12.push(Event::Append { text: c10 });
    let t14 = t13.push(Event::Append { text: c11 });
    let t15 = t14.push(Event::Disarm);
    lemma_appended_push(t2, c0);
    lemma_appended_push(t3, c1);
    lemma_appended_push(t4, c2);
    lemma_appended_push(t5, c3);
    lemma_appended_push(t6, c4);
    lemma_appended_push(t7, c5);
    lemma_appended_push(t8, c6);
    lemma_appended_push(t9, c7);
    lemma_appended_push(t10, c8);
    lemma_appended_push(t11, c9);
    lemma_appended_push(t12, c10);
    lemma_appended_push(t13, c11);
    assert(t15.drop_last() =~= t14);
    assert(appended_text(t15) =~= appended_text(t14));
    assert(es =~= t15);
    assert(appended_text(es) =~= artifact_text(d, inputs));
}

/// Appending one more chunk extends a trace's appended text by it.
proof fn lemma_appended_push(es: Seq<Event>, t: Seq<char>)
    ensures
        appended_text(es.push(Event::Append { text: t })) == appended_text(es) + t,
{
    assert(es.push(Event::Append { text: t }).drop_last() =~= es);
}

/// Law: the written total is exactly the sum of the four recorded scores,
/// and the artifact ends with that total over the derived denominator.
pub proof fn lemma_total_correctness(d: Date, inputs: Seq<Seq<char>>)
    requires
        inputs.len() == ANSWER_COUNT,
    ensures
        artifact_text(d, inputs) == artifact_body_text(d, inputs) + total_text(
            score_spec(inputs[7]) + score_spec(inputs[8]) + score_spec(inputs[9]) + score_spec(
                inputs[10],
            ),
        ),
{
}

} // verus!
