use coding_agent_harness::guard::GuardrailAction;
use coding_agent_harness::hitl::{MockHitlConfirmer, StdioHitlConfirmer};

#[test]
fn mock_confirmer_gives_its_answer() {
    let block = GuardrailAction::Block { reason: "r".into() };
    assert!(MockHitlConfirmer::new(true).decide(&block));
    assert!(!MockHitlConfirmer::new(false).decide(&block));
    assert!(!MockHitlConfirmer::new(false).decide(&GuardrailAction::Allow));
}

#[test]
fn blocks_and_approvals_are_asked() {
    let block = GuardrailAction::Block { reason: "danger".into() };
    assert_eq!(StdioHitlConfirmer::question(&block).map(|s| s.as_str()), Some("danger"));
    assert!(StdioHitlConfirmer::question(&GuardrailAction::Allow).is_none());
    let approval = GuardrailAction::RequireApproval { reason: "x".into() };
    assert_eq!(StdioHitlConfirmer::question(&approval).map(|s| s.as_str()), Some("x"));
}

#[test]
fn answers_are_read_like_y() {
    assert!(StdioHitlConfirmer::approves("y\n"));
    assert!(StdioHitlConfirmer::approves("  Y \r\n"));
    assert!(StdioHitlConfirmer::approves("\u{3000}y\t"));
    assert!(!StdioHitlConfirmer::approves("yes"));
    assert!(!StdioHitlConfirmer::approves("n"));
    assert!(!StdioHitlConfirmer::approves(""));
    assert!(!StdioHitlConfirmer::approves("y y"));
}
