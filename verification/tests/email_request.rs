//! The provider payload and its JSON rendering.

use newsletter::email_client::EmailRequest;

#[test]
fn email_request_renders_exact_json() {
    let request = EmailRequest::new(
        "sender@example.com",
        "rcpt@example.com",
        "A subject",
        "<b>html</b>",
        "plain text",
    );
    assert_eq!(
        request.body_json(),
        "{\"Messages\":[{\"From\":{\"Email\":\"sender@example.com\",\"Name\":\"Newsletter\"},\
         \"To\":[{\"Email\":\"rcpt@example.com\",\"Name\":\"Newsletter\"}],\
         \"Subject\":\"A subject\",\"TextPart\":\"plain text\",\"HTMLPart\":\"<b>html</b>\",\
         \"CustomID\":\"Newsletter\"}]}"
    );
}

#[test]
fn email_request_new_uses_fixed_display_name() {
    let request = EmailRequest::new("s@example.com", "r@example.com", "s", "h", "t");
    assert_eq!(request.messages.len(), 1);
    assert_eq!(request.messages[0].from.name, "Newsletter");
    assert_eq!(request.messages[0].to.len(), 1);
    assert_eq!(request.messages[0].to[0].name, "Newsletter");
    assert_eq!(request.messages[0].custom_id, "Newsletter");
}

#[test]
fn json_escaping_matches_the_spec() {
    let request = EmailRequest::new(
        "s@example.com",
        "r@example.com",
        "quote \" backslash \\ newline \n tab \t bell \u{7}",
        "h",
        "t",
    );
    let body = request.body_json();
    assert!(body.contains(
        "\"Subject\":\"quote \\\" backslash \\\\ newline \\n tab \\t bell \\u0007\""
    ));
}
