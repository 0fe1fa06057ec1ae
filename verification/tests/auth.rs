use omen::auth::{
    classify_lowered, classify_request_intent, create_authenticated_context, list_has, ApiKeyInfo,
    AuthService,
};
use omen::error::OmenError;
use omen::types::{ChatCompletionRequest, ChatMessage, ContentPart, MessageContent, OmenConfig};

fn request(texts: &[&str]) -> ChatCompletionRequest {
    ChatCompletionRequest {
        model: "auto".to_string(),
        messages: texts
            .iter()
            .map(|t| ChatMessage {
                role: "user".to_string(),
                content: MessageContent::Text(t.to_string()),
                name: None,
                tool_calls: None,
                tool_call_id: None,
            })
            .collect(),
        temperature: None,
        max_tokens: None,
        stream: false,
        top_p: None,
        frequency_penalty: None,
        presence_penalty: None,
        stop: None,
        tools: None,
        tool_choice: None,
        tags: None,
        omen: None,
    }
}

fn key(permissions: &[&str], models: Option<&[&str]>) -> ApiKeyInfo {
    ApiKeyInfo {
        user_id: "u1".to_string(),
        name: "laptop".to_string(),
        permissions: permissions.iter().map(|p| p.to_string()).collect(),
        rate_limit_per_hour: None,
        budget_usd_per_day: None,
        allowed_models: models.map(|m| m.iter().map(|x| x.to_string()).collect()),
        created_at: 0,
        last_used: None,
    }
}

#[test]
fn intents_are_read_off_keywords() {
    assert_eq!(classify_lowered("please implement this"), "code");
    assert_eq!(classify_lowered("a function"), "code");
    assert_eq!(classify_lowered("write a unit test"), "tests");
    // code comes before tests
    assert_eq!(classify_lowered("test my code"), "code");
    assert_eq!(classify_lowered("a regex for dates"), "regex");
    assert_eq!(classify_lowered("which pattern fits"), "regex");
    assert_eq!(classify_lowered("analyze the log"), "analysis");
    assert_eq!(classify_lowered("review this"), "analysis");
    assert_eq!(classify_lowered("explain monads"), "explanation");
    assert_eq!(classify_lowered("summarize the text"), "explanation");
    assert_eq!(classify_lowered("2+2"), "general");
    assert_eq!(classify_lowered(""), "general");
    // the text is taken as it is: it is to be in lower case already
    assert_eq!(classify_lowered("CODE"), "general");
}

#[test]
fn the_last_message_in_lower_case_decides() {
    assert_eq!(classify_request_intent(&request(&["Write CODE"])).unwrap(), "code");
    assert_eq!(classify_request_intent(&request(&["write code", "Thanks"])).unwrap(), "general");
    assert_eq!(classify_request_intent(&request(&["hi", "EXPLAIN it"])).unwrap(), "explanation");
    assert_eq!(classify_request_intent(&request(&[])).unwrap(), "general");
    let mut r = request(&["x"]);
    r.messages[0].content = MessageContent::Parts(vec![
        ContentPart::Text { text: "Unit".to_string() },
        ContentPart::Text { text: "Test".to_string() },
    ]);
    assert_eq!(classify_request_intent(&r).unwrap(), "tests");
}

#[test]
fn keys_are_presented_in_two_headers() {
    let service = AuthService::new(true, Some("master".to_string()), 5);
    assert_eq!(AuthService::extract_bearer_token("Bearer abc").as_deref(), Some("abc"));
    assert_eq!(AuthService::extract_bearer_token("Bearer ").as_deref(), Some(""));
    assert_eq!(AuthService::extract_bearer_token("Bearer a b").as_deref(), Some("a b"));
    assert_eq!(AuthService::extract_bearer_token("bearer abc"), None);
    assert_eq!(AuthService::extract_bearer_token("Bearer"), None);
    assert_eq!(AuthService::extract_bearer_token("Basic abc"), None);
    assert_eq!(AuthService::extract_bearer_token("Bearer \u{e9}\u{1f600}").as_deref(), Some("\u{e9}\u{1f600}"));
    assert_eq!(AuthService::extract_api_key_header(Some("k")).as_deref(), Some("k"));
    assert_eq!(AuthService::extract_api_key_header(None), None);

    let info = service.extract_auth_info(Some("Bearer master"), None).unwrap();
    assert_eq!((info.user_id.as_str(), info.name.as_str(), info.created_at), ("admin", "Master Key", 5));
    assert_eq!(info.permissions, vec!["*"]);
    assert!(service.extract_auth_info(None, Some("master")).is_some());
    assert!(service.extract_auth_info(Some("Basic x"), Some("master")).is_some());
    // a bearer token that is not known is not helped by the other header
    assert!(service.extract_auth_info(Some("Bearer wrong"), Some("master")).is_none());
    assert!(service.extract_auth_info(None, None).is_none());

    assert!(matches!(service.auth_middleware(None, None), Err(OmenError::Unauthorized)));
    assert!(matches!(service.auth_middleware(None, Some("master")), Ok(Some(_))));
    assert!(matches!(service.auth_middleware(Some("Bearer wrong"), Some("master")), Err(OmenError::Unauthorized)));
    // what comes back is what is known of the key that was presented
    let theirs = service.auth_middleware(Some("Bearer master"), None).unwrap().unwrap();
    assert_eq!((theirs.user_id.as_str(), theirs.name.as_str(), theirs.created_at), ("admin", "Master Key", 5));
    assert!(std::ptr::eq(theirs, service.api_keys.get("master").unwrap()));
    let open = AuthService::new(false, None, 0);
    assert!(matches!(open.auth_middleware(None, None), Ok(None)));
    assert_eq!(open.api_keys.len(), 0);
}

#[test]
fn permissions_and_models() {
    assert!(AuthService::validate_permissions(&key(&["*"], None), "anything"));
    assert!(AuthService::validate_permissions(&key(&["chat", "embed"], None), "embed"));
    assert!(!AuthService::validate_permissions(&key(&["chat"], None), "embed"));
    assert!(!AuthService::validate_permissions(&key(&[], None), "chat"));
    assert!(AuthService::validate_model_access(&key(&[], None), "gpt-4"));
    assert!(AuthService::validate_model_access(&key(&[], Some(&["gpt-4"])), "gpt-4"));
    assert!(!AuthService::validate_model_access(&key(&[], Some(&["gpt-4"])), "gpt-4o"));
    assert!(!AuthService::validate_model_access(&key(&[], Some(&[])), "gpt-4"));
    assert!(list_has(&vec!["a".to_string(), "b".to_string()], "b"));
    assert!(!list_has(&vec![], ""));
}

#[test]
fn the_context_of_an_authenticated_request() {
    let mut r = request(&["Implement it"]);
    r.omen = Some(OmenConfig {
        strategy: Some("race".to_string()),
        k: Some(3),
        providers: None,
        budget_usd: Some(250_000),
        max_latency_ms: None,
        stickiness: None,
        priority_weights: None,
        min_useful_tokens: None,
    });
    let info = key(&[], None);
    let c = create_authenticated_context(Some(&info), &r, 42);
    assert_eq!(c.request_id, 42);
    assert_eq!(c.user_id.as_deref(), Some("u1"));
    assert!(c.api_key.is_none());
    assert_eq!(c.intent.as_deref(), Some("code"));
    let tags: Vec<(&str, &str)> = c.tags.iter().map(|(k, v)| (k.as_str(), v.as_str())).collect();
    assert_eq!(
        tags,
        vec![("user_id", "u1"), ("api_key_name", "laptop"), ("strategy", "race"), ("k", "3"), ("budget_usd", "250000")]
    );
    let c = create_authenticated_context(None, &request(&["hi"]), 1);
    assert!(c.user_id.is_none() && c.tags.is_empty());
    assert_eq!(c.intent.as_deref(), Some("general"));
}
