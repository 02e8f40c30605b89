use idea_session::guard::{on_interrupt, SignalAction};
use idea_session::session::{
    completed_total, is_complete, phase_wf, session_question, session_start, session_step, Phase,
};
use idea_session::date::Date;

#[test]
fn interrupt_while_active_cleans_up() {
    assert_eq!(on_interrupt(true), SignalAction::CleanupAndExit);
}

#[test]
fn interrupt_after_completion_leaves_the_artifact() {
    assert_eq!(on_interrupt(false), SignalAction::LeaveAlone);
}

#[test]
fn questions_follow_the_script() {
    let date = Date { year: 2025, month: 3, day: 7 };
    let answers = ["3", "pair a and b", "combine forms", "less typing", "merge", "admins", "glue", "1", "2", "3", "4"];
    let expected_questions = [
        "Choose one option (1-5), Default (1):",
        "What happens if I combine ___ and ___?",
        "Write freely - don't filter yourself.",
        "Problem it solves",
        "Core concept / solution",
        "Who benefits",
        "How it works (roughly)",
        "Innovation (uniqueness) (1-10):",
        "Feasibility (can it be done?) (1-10):",
        "Impact (value or reach) (1-10):",
        "Personal doability (can *I* pursue it?) (1-10):",
    ];
    let (mut phase, _opening) = session_start(&date);
    let mut asked: Vec<String> = Vec::new();
    let mut i = 0;
    while !is_complete(&phase) {
        assert!(phase_wf(&phase));
        asked.push(session_question(&phase));
        let (next, _chunk) = session_step(phase, answers[i]);
        phase = next;
        i += 1;
    }
    let expected: Vec<String> = expected_questions.iter().map(|s| s.to_string()).collect();
    assert_eq!(asked, expected);
    assert_eq!(completed_total(&phase), 10);
}

#[test]
fn running_total_accumulates_over_scoring_steps() {
    let mut phase = Phase::Scoring { next: 0, total: 0 };
    let mut chunks: Vec<String> = Vec::new();
    for s in ["7", "x", "-2", "9"] {
        let (next, chunk) = session_step(phase, s);
        chunks.push(chunk);
        phase = next;
    }
    assert!(is_complete(&phase));
    assert_eq!(completed_total(&phase), 14);
    assert_eq!(chunks[0], "| **Innovation (uniqueness)** | 7 |\n");
    assert_eq!(chunks[1], "| **Feasibility (can it be done?)** | 0 |\n");
    assert_eq!(chunks[2], "| **Impact (value or reach)** | -2 |\n");
    assert_eq!(
        chunks[3],
        "| **Personal doability (can *I* pursue it?)** | 9 |\n\n**Total Score**: 14 / 40\n"
    );
}

#[test]
fn breakdown_steps_emit_rows_then_open_scoring() {
    let mut phase = Phase::Breakdown { next: 0 };
    let (next, chunk) = session_step(phase, "saves time");
    assert_eq!(chunk, "| **Problem it solves** | saves time |\n");
    phase = next;
    for answer in ["auto-fill", "new hires"] {
        let (next, _chunk) = session_step(phase, answer);
        phase = next;
    }
    let (next, chunk) = session_step(phase, "parses resumes");
    let mut expected = String::new();
    expected.push_str("| **How it works (roughly)** | parses resumes |\n");
    expected.push_str("\n## Step 4: Feasibility & Impact Scoring\n\n");
    expected.push_str("| Criteria | Score |\n");
    expected.push_str("|-----------|--------|\n");
    assert_eq!(chunk, expected);
    assert!(matches!(next, Phase::Scoring { next: 0, total: 0 }));
}
