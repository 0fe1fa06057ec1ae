use omen::error::OmenError;
use omen::text::{
    byte_len, char_is_space, contains_chars, decimal_string, hex_fixed_string, hex_string,
    str_contains, str_eq, to_chars, trim_chars, utf8_len_reaches,
};
use omen::types::{ContentPart, ImageUrl, MessageContent, OmenConfig};

fn parts() -> MessageContent {
    MessageContent::Parts(vec![
        ContentPart::Text { text: "Look at".to_string() },
        ContentPart::ImageUrl { image_url: ImageUrl { url: "http://x/1.png".to_string(), detail: None } },
        ContentPart::Text { text: "THIS".to_string() },
        ContentPart::ImageUrl { image_url: ImageUrl { url: "http://x/2.png".to_string(), detail: Some("low".to_string()) } },
    ])
}

#[test]
fn message_content() {
    let plain = MessageContent::Text("H\u{e9}llo".to_string());
    assert_eq!(plain.text(), "H\u{e9}llo");
    assert_eq!(plain.len(), 6);
    assert!(!plain.has_images() && !plain.is_multimodal());
    assert_eq!(plain.to_lowercase(), "h\u{e9}llo");
    assert_eq!(plain.to_display_string(), "H\u{e9}llo");
    let p = parts();
    assert_eq!(p.text(), "Look at THIS");
    assert_eq!(p.len(), 12);
    assert!(p.has_images() && p.is_multimodal());
    assert_eq!(p.to_lowercase(), "look at this");
    assert_eq!(p.to_display_string(), "Look at THIS [+2 image(s)]");
    let only_text = MessageContent::Parts(vec![ContentPart::Text { text: "a".to_string() }]);
    assert_eq!(only_text.to_display_string(), "a");
    assert!(!only_text.has_images());
    let empty = MessageContent::Parts(vec![]);
    assert_eq!((empty.text().as_str(), empty.len()), ("", 0));
    let only_image = MessageContent::Parts(vec![ContentPart::ImageUrl {
        image_url: ImageUrl { url: "u".to_string(), detail: None },
    }]);
    assert_eq!(only_image.text(), "");
    assert_eq!(only_image.to_display_string(), " [+1 image(s)]");
    let empties = MessageContent::Parts(vec![
        ContentPart::Text { text: "".to_string() },
        ContentPart::Text { text: "".to_string() },
    ]);
    assert_eq!(empties.text(), " ");
    assert_eq!(MessageContent::Text("STRASSE \u{130}".to_string()).to_lowercase(), "STRASSE \u{130}".to_lowercase());
}

#[test]
fn errors_have_their_status() {
    let cases = [
        (OmenError::InvalidRequest("bad".to_string()), 400, "bad"),
        (OmenError::Unauthorized, 401, "Unauthorized"),
        (OmenError::BudgetExceeded, 403, "Budget exceeded"),
        (OmenError::ModelNotFound("none".to_string()), 404, "none"),
        (OmenError::RateLimitExceeded, 429, "Rate limit exceeded"),
        (OmenError::Internal("bug".to_string()), 500, "Internal server error"),
        (OmenError::CacheError("down".to_string()), 500, "Internal server error"),
        (OmenError::Config("c".to_string()), 500, "Internal server error"),
        (OmenError::HttpClient("h".to_string()), 500, "Internal server error"),
        (OmenError::Serialization("s".to_string()), 500, "Internal server error"),
        (OmenError::Io("i".to_string()), 500, "Internal server error"),
        (OmenError::Toml("t".to_string()), 500, "Internal server error"),
        (OmenError::Provider("upstream".to_string()), 502, "upstream"),
        (OmenError::ProviderUnavailable("all down".to_string()), 503, "all down"),
        (OmenError::Timeout, 504, "Deadline exceeded"),
    ];
    for (e, status, message) in cases {
        assert_eq!(e.status_code(), status, "{:?}", e);
        assert_eq!(e.message(), message);
        assert_eq!(e.error_type(), "api_error");
    }
}

#[test]
fn the_default_directive() {
    let d = OmenConfig::default();
    assert_eq!(d.strategy.as_deref(), Some("single"));
    assert_eq!((d.k, d.budget_usd, d.max_latency_ms, d.min_useful_tokens), (Some(2), Some(100_000), Some(5000), Some(5)));
    assert_eq!(d.stickiness.as_deref(), Some("turn"));
    assert!(d.providers.is_none() && d.priority_weights.is_none());
}

#[test]
fn whitespace_is_unicode_s() {
    for c in ['\t', '\n', '\u{b}', '\u{c}', '\r', ' ', '\u{85}', '\u{a0}', '\u{1680}', '\u{2000}', '\u{200a}', '\u{2028}', '\u{2029}', '\u{202f}', '\u{205f}', '\u{3000}'] {
        assert!(char_is_space(c), "{:?}", c);
    }
    let mut n = 0;
    for code in 0..=0x10FFFFu32 {
        if let Some(c) = char::from_u32(code) {
            assert_eq!(char_is_space(c), c.is_whitespace(), "{:#x}", code);
            n += c.is_whitespace() as u32;
        }
    }
    assert_eq!(n, 25);
}

#[test]
fn trimming_and_searching() {
    for s in ["", " ", "a", " a", "a ", "  a b  ", "\n\ta\u{3000}", "\u{200b} x", "\r\n", " \u{a0}q\u{85} "] {
        let trimmed: String = trim_chars(&to_chars(s)).into_iter().collect();
        assert_eq!(trimmed, s.trim(), "{:?}", s);
    }
    let cases = [("", ""), ("a", ""), ("", "a"), ("abc", "bc"), ("abc", "cb"), ("aab", "ab"), ("ab", "abc"), ("a```b", "```"), ("``", "```"), ("\u{e9}t\u{e9}", "t\u{e9}")];
    for (hay, needle) in cases {
        assert_eq!(str_contains(hay, needle), hay.contains(needle), "{:?} in {:?}", needle, hay);
        assert_eq!(contains_chars(&to_chars(hay), &to_chars(needle)), hay.contains(needle));
    }
    assert!(str_eq("abc", "abc") && !str_eq("abc", "abd") && !str_eq("ab", "abc") && str_eq("", ""));
    assert_eq!(byte_len("h\u{e9}\u{20ac}\u{1f600}"), 10);
    let v = to_chars("h\u{e9}\u{20ac}\u{1f600}");
    assert!(utf8_len_reaches(&v, 10) && !utf8_len_reaches(&v, 11) && utf8_len_reaches(&v, 0));
}

#[test]
fn numbers_are_written_in_decimal_and_hexadecimal() {
    for n in [0u64, 7, 10, 99, 100, 12345, u64::MAX] {
        assert_eq!(decimal_string(n), n.to_string());
        assert_eq!(hex_string(n), format!("{:x}", n));
    }
    assert_eq!(hex_fixed_string(0xab, 4), "00ab");
    assert_eq!(hex_fixed_string(0x12345, 4), "2345");
    assert_eq!(hex_fixed_string(5, 0), "");
}

#[test]
fn streams_are_framed_as_events() {
    assert_eq!(omen::sse::sse_frame("{\"a\":1}"), "data: {\"a\":1}\n\n");
    assert_eq!(omen::sse::sse_done(), "data: [DONE]\n\n");
    let stream = format!(
        "{}: comment\r\n{}event: x\ndata:no space\ndata: \n{}data: [DONE] \ndata: tail",
        omen::sse::sse_frame("one"),
        omen::sse::sse_frame("data: two"),
        omen::sse::sse_done()
    );
    let items: Vec<Option<String>> = omen::sse::parse_sse(&stream)
        .into_iter()
        .map(|i| match i {
            omen::sse::SseItem::Done => None,
            omen::sse::SseItem::Data(d) => Some(d),
        })
        .collect();
    assert_eq!(
        items,
        vec![
            Some("one".to_string()),
            Some("data: two".to_string()),
            Some("".to_string()),
            None,
            Some("[DONE] ".to_string()),
            Some("tail".to_string()),
        ]
    );
    assert!(omen::sse::parse_sse("").is_empty());
    assert!(omen::sse::parse_sse("\n\n").is_empty());
}
