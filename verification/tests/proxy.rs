use ai_client::proxy::{
    conclude_post, is_user_agent_name, names_a_user_agent, prepare_post, PostExchange, PostRequest,
};
use ai_client::HttpResponse;

fn header(name: &str, value: &str) -> (String, String) {
    (name.to_string(), value.to_string())
}

#[test]
fn the_address_is_trimmed() {
    let request = prepare_post("  https://example.org/v1 \n", vec![], String::from("{}"));
    assert_eq!(request.url, "https://example.org/v1");
    let request = prepare_post("\thttp://a b\r\n", vec![], String::new());
    assert_eq!(request.url, "http://a b");
    let request = prepare_post(" \n ", vec![], String::new());
    assert_eq!(request.url, "");
    let request = prepare_post("\u{3000}http://x\u{a0}", vec![], String::new());
    assert_eq!(request.url, "http://x");
}

#[test]
fn a_default_user_agent_is_added_after_the_given_headers() {
    let request = prepare_post(
        "http://x",
        vec![header("Content-Type", "application/json"), header("X-Key", "k")],
        String::from("body"),
    );
    assert_eq!(
        request,
        PostRequest {
            url: String::from("http://x"),
            headers: vec![
                header("Content-Type", "application/json"),
                header("X-Key", "k"),
                header("user-agent", "ai-client/1.0"),
            ],
            body: String::from("body"),
        }
    );
}

#[test]
fn without_headers_only_the_default_user_agent_is_sent() {
    let request = prepare_post("http://x", vec![], String::new());
    assert_eq!(request.headers, vec![header("user-agent", "ai-client/1.0")]);
}

#[test]
fn a_given_user_agent_is_kept_in_whatever_case() {
    for name in ["user-agent", "User-Agent", "USER-AGENT", "uSeR-aGeNt"] {
        let given = vec![header("Accept", "*/*"), header(name, "mine/2")];
        let request = prepare_post("http://x", given.clone(), String::new());
        assert_eq!(request.headers, given, "{}", name);
    }
}

#[test]
fn names_that_only_resemble_the_user_agent_do_not_count() {
    for name in ["user agent", "user-agent ", "useragent", "x-user-agent", ""] {
        assert!(!names_a_user_agent(&vec![header(name, "v")]), "{:?}", name);
    }
    assert!(names_a_user_agent(&vec![header("a", "b"), header("User-Agent", "v")]));
    assert!(!names_a_user_agent(&vec![]));
}

#[test]
fn the_user_agent_name_is_compared_exactly() {
    assert!(is_user_agent_name(&String::from("user-agent")));
    assert!(!is_user_agent_name(&String::from("User-Agent")));
    assert!(!is_user_agent_name(&String::from("user-agen")));
    assert!(!is_user_agent_name(&String::new()));
}

#[test]
fn a_completed_exchange_is_handed_on() {
    let result = conclude_post(PostExchange::Completed {
        status: 404,
        body: String::from("not here"),
    });
    assert_eq!(result, Ok(HttpResponse { status: 404, body: String::from("not here") }));
}

#[test]
fn a_failed_send_is_reported() {
    let result = conclude_post(PostExchange::SendFailed { error: String::from("dns error") });
    assert_eq!(result, Err(String::from("Request failed: dns error")));
}

#[test]
fn an_unreadable_body_is_reported() {
    let result = conclude_post(PostExchange::BodyUnreadable {
        status: 200,
        error: String::from("connection reset"),
    });
    assert_eq!(result, Err(String::from("Failed to read response: connection reset")));
}
