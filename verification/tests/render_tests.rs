use idea_session::date::Date;
use idea_session::session::{render_session, session_start, session_step, Phase};

fn run(date: Date, inputs: &[&str]) -> String {
    let v: Vec<String> = inputs.iter().map(|s| s.to_string()).collect();
    render_session(&date, &v)
}

#[test]
fn scenario_full_artifact() {
    let date = Date { year: 2025, month: 3, day: 7 };
    let out = run(
        date,
        &[
            "2",
            "Cut the steps in half",
            "A faster onboarding flow",
            "saves time",
            "auto-fill forms",
            "new hires",
            "parses resumes",
            "7",
            "8",
            "6",
            "9",
        ],
    );
    let mut expected = String::new();
    expected.push_str("## Date:\n2025-03-07\n\n");
    expected.push_str("\n## Step 1: Idea Prompt\n\n");
    expected.push_str("What can be done 10x faster or easier?\n\n");
    expected.push_str("Cut the steps in half\n");
    expected.push_str("\n## Step 2: Raw Idea\n\n");
    expected.push_str("A faster onboarding flow\n");
    expected.push_str("\n## Step 3: Idea Breakdown\n\n");
    expected.push_str("| Aspect | Description |\n");
    expected.push_str("|---------|-------------|\n");
    expected.push_str("| **Problem it solves** | saves time |\n");
    expected.push_str("| **Core concept / solution** | auto-fill forms |\n");
    expected.push_str("| **Who benefits** | new hires |\n");
    expected.push_str("| **How it works (roughly)** | parses resumes |\n");
    expected.push_str("\n## Step 4: Feasibility & Impact Scoring\n\n");
    expected.push_str("| Criteria | Score |\n");
    expected.push_str("|-----------|--------|\n");
    expected.push_str("| **Innovation (uniqueness)** | 7 |\n");
    expected.push_str("| **Feasibility (can it be done?)** | 8 |\n");
    expected.push_str("| **Impact (value or reach)** | 6 |\n");
    expected.push_str("| **Personal doability (can *I* pursue it?)** | 9 |\n");
    expected.push_str("\n**Total Score**: 30 / 40\n");
    assert_eq!(out, expected);
}

#[test]
fn selection_two_writes_second_prompt() {
    let (next, chunk) = session_step(Phase::Selection, "2");
    assert_eq!(chunk, "What can be done 10x faster or easier?\n\n");
    assert!(matches!(next, Phase::PromptAnswer { prompt: 1 }));
}

#[test]
fn total_line_uses_running_sum() {
    let date = Date { year: 2024, month: 12, day: 31 };
    let out = run(date, &["1", "a", "b", "c", "d", "e", "f", "10", "10", "10", "10"]);
    assert!(out.ends_with("\n**Total Score**: 40 / 40\n"));
}

#[test]
fn total_line_with_defaulted_and_negative_scores() {
    let date = Date { year: 2024, month: 12, day: 31 };
    let out = run(date, &["1", "a", "b", "c", "d", "e", "f", "oops", "-2", "5", ""]);
    assert!(out.contains("| **Innovation (uniqueness)** | 0 |\n"));
    assert!(out.contains("| **Feasibility (can it be done?)** | -2 |\n"));
    assert!(out.contains("| **Personal doability (can *I* pursue it?)** | 0 |\n"));
    assert!(out.ends_with("\n**Total Score**: 3 / 40\n"));
}

#[test]
fn empty_answers_default_everywhere() {
    let date = Date { year: 2025, month: 1, day: 1 };
    let out = run(date, &["", "", "", "", "", "", "", "", "", "", ""]);
    assert!(out.starts_with("## Date:\n2025-01-01\n\n"));
    assert!(out.contains("What problem frustrated me or someone today?\n\n"));
    assert!(out.contains("| **Problem it solves** |  |\n"));
    assert!(out.ends_with("\n**Total Score**: 0 / 40\n"));
}

#[test]
fn opening_text_creates_header_and_first_section() {
    let date = Date { year: 2025, month: 3, day: 7 };
    let (phase, opening) = session_start(&date);
    assert!(matches!(phase, Phase::Selection));
    assert_eq!(opening, "## Date:\n2025-03-07\n\n\n## Step 1: Idea Prompt\n\n");
}
