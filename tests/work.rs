use pfm::report::{gate_line, pad, work_row};
use pfm::gate::{Gate, GateStatus};
use pfm::work::{repo_name_from_url, work_id_for};

#[test]
fn work_id_from_title_keeps_three_words() {
    assert_eq!(work_id_for("Add login page"), "FEAT-add-login-page");
    assert_eq!(work_id_for("Fix: the bug, now please!"), "FEAT-fix-the-bug");
    assert_eq!(work_id_for("  Spaced\tout  "), "FEAT-spacedout");
    assert_eq!(work_id_for("!!!"), "FEAT-work");
    assert_eq!(work_id_for(""), "FEAT-work");
    assert_eq!(work_id_for("Ünïcode Straße"), "FEAT-ünïcode-straße");
}

#[test]
fn repo_name_from_origin_url() {
    assert_eq!(repo_name_from_url("  https://github.com/org/myrepo.git\n"), "myrepo");
    assert_eq!(repo_name_from_url("git@host:org/tool"), "tool");
    assert_eq!(repo_name_from_url("plain"), "plain");
    assert_eq!(repo_name_from_url("a/b.git.git"), "b");
    assert_eq!(repo_name_from_url("a/b/"), "");
}

#[test]
fn gate_lines_and_rows() {
    assert_eq!(pad("ab", 4), "ab  ");
    assert_eq!(pad("abcdef", 4), "abcdef");
    assert_eq!(gate_line(Gate::Impl, GateStatus::Pass), "  [OK] impl                 pass");
    assert_eq!(gate_line(Gate::Qa, GateStatus::Todo), "  [  ] qa                   todo");
    assert_eq!(
        gate_line(Gate::ReviewSecurity, GateStatus::ChangesRequested),
        "  [CR] review_security      changes_requested"
    );
    assert_eq!(
        work_row("FEAT-1", "in_progress", "prd", "Title"),
        format!("{:<20} {:<15} {:<15} {}", "FEAT-1", "in_progress", "prd", "Title")
    );
}
