use evermemos_rs::provider::{json_body, LlmMessage, LlmRole};

#[test]
fn llm_message_constructors() {
    let s = LlmMessage::system("hi");
    assert_eq!(s.role, LlmRole::System);
    assert_eq!(s.content, "hi");
    let u = LlmMessage::user("bye");
    assert_eq!(u.role, LlmRole::User);
    let a = LlmMessage::assistant("ok");
    assert_eq!(a.role, LlmRole::Assistant);
}

#[test]
fn strips_json_fence() {
    let body = json_body("```json\n{\"ok\":true}\n```");
    let v: serde_json::Value = serde_json::from_str(&body).unwrap();
    assert_eq!(v["ok"], true);
}

#[test]
fn strips_generic_fence() {
    let body = json_body("```\n{\"x\":1}\n```");
    let v: serde_json::Value = serde_json::from_str(&body).unwrap();
    assert_eq!(v["x"], 1);
}

#[test]
fn parses_plain_json() {
    let body = json_body("{\"n\":42}");
    let v: serde_json::Value = serde_json::from_str(&body).unwrap();
    assert_eq!(v["n"], 42);
}

#[test]
fn json_body_exact_text() {
    assert_eq!(json_body("  ```json\n[1]\n```  "), "[1]");
    assert_eq!(json_body("plain"), "plain");
}
