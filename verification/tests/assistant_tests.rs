use every_discord_bot::ai::channel::{
    after_search, concerns_assistant, extract_query, lookup_names, next_step, price_note,
    price_report, unit_price, PricedItem, SearchResult, Step,
};
use every_discord_bot::ai::db::{oldest_first, ChatMessage};
use every_discord_bot::ai::gemini::{
    build_contents, extract_text, image_part, image_parts, require_text, strip_code_fence,
    system_text, try_image_part, ApiError, Candidate, CandidateContent, CandidatePart, Content,
    GeminiError, Part, Response,
};
use every_discord_bot::ai::{
    new_pending_queries, pending_key, remember, take_selection, PENDING_TIMEOUT_SECS,
};
use every_discord_bot::tarkov::catalog::{CatalogEntry, ItemCatalog};
use every_discord_bot::tarkov::models::Item;

fn named(name: &str) -> Item {
    Item {
        id: name.to_string(),
        name: name.to_string(),
        short_name: name.to_string(),
        base_price: 1,
        weight: "0.00".to_string(),
        width: 1,
        height: 1,
        description: None,
        grid_image_link: None,
        icon_link: None,
        avg24h_price: None,
        low24h_price: None,
        high24h_price: None,
        sell_for: vec![],
        categories: vec![],
    }
}

#[test]
fn new_pending_queries_is_empty() {
    let pending = new_pending_queries();
    assert!(pending.queries.is_empty());
}

#[test]
fn pending_keys_differ() {
    assert_eq!(pending_key(0, 0), 0);
    assert_eq!(pending_key(1, 0), 1u128 << 64);
    assert_eq!(pending_key(0, 1), 1);
    assert_ne!(pending_key(1, 2), pending_key(2, 1));
    assert_eq!(pending_key(u64::MAX, u64::MAX), u128::MAX);
}

#[test]
fn selection_picks_and_drops_the_question() {
    let mut pending = new_pending_queries();
    remember(&mut pending, 1, 2, vec![named("a"), named("b"), named("c")], 1000);
    assert!(take_selection(&mut pending, 1, 3, 1, 1000).is_none());
    assert!(take_selection(&mut pending, 1, 2, 0, 1000).is_none());
    assert!(take_selection(&mut pending, 1, 2, 4, 1000).is_none());
    assert_eq!(pending.queries.len(), 1);
    assert_eq!(take_selection(&mut pending, 1, 2, 2, 1100).unwrap().name, "b");
    assert!(pending.queries.is_empty());
    assert!(take_selection(&mut pending, 1, 2, 2, 1100).is_none());
}

#[test]
fn selection_expires() {
    assert_eq!(PENDING_TIMEOUT_SECS, 120);
    let mut pending = new_pending_queries();
    remember(&mut pending, 1, 2, vec![named("a")], 1000);
    assert_eq!(take_selection(&mut pending, 1, 2, 1, 1120).unwrap().name, "a");
    remember(&mut pending, 1, 2, vec![named("a")], 1000);
    assert!(take_selection(&mut pending, 1, 2, 1, 1121).is_none());
    assert!(pending.queries.is_empty());
    remember(&mut pending, 1, 2, vec![named("a")], 1000);
    assert_eq!(take_selection(&mut pending, 1, 2, 1, 5).unwrap().name, "a");
}

#[test]
fn remember_keeps_ten_items() {
    let mut pending = new_pending_queries();
    let items: Vec<Item> = (0..13).map(|i| named(&format!("i{i}"))).collect();
    remember(&mut pending, 9, 9, items, 0);
    assert!(take_selection(&mut pending, 9, 9, 11, 0).is_none());
    assert_eq!(take_selection(&mut pending, 9, 9, 10, 0).unwrap().name, "i9");
}

fn message(author: &str, content: &str, is_bot: bool) -> ChatMessage {
    ChatMessage { author_name: author.to_string(), content: content.to_string(), is_bot }
}

#[test]
fn oldest_first_reverses() {
    let read = vec![message("c", "3", false), message("b", "2", true), message("a", "1", false)];
    let ordered = oldest_first(read);
    let contents: Vec<&str> = ordered.iter().map(|m| m.content.as_str()).collect();
    assert_eq!(contents, vec!["1", "2", "3"]);
    assert!(oldest_first(vec![]).is_empty());
}

fn answer(text: Option<&str>) -> Response {
    Response {
        candidates: Some(vec![
            Candidate {
                content: Some(CandidateContent {
                    parts: Some(vec![
                        CandidatePart { text: text.map(|t| t.to_string()) },
                        CandidatePart { text: Some("second".to_string()) },
                    ]),
                }),
            },
            Candidate { content: None },
        ]),
        error: None,
    }
}

#[test]
fn extract_text_reads_first_part_of_first_candidate() {
    match extract_text(answer(Some("hello"))) {
        Ok(Some(text)) => assert_eq!(text, "hello"),
        _ => panic!("expected the text"),
    }
    assert!(matches!(extract_text(answer(None)), Ok(None)));
    assert!(matches!(
        extract_text(Response { candidates: None, error: None }),
        Ok(None)
    ));
    assert!(matches!(
        extract_text(Response { candidates: Some(vec![]), error: None }),
        Ok(None)
    ));
    assert!(matches!(
        extract_text(Response {
            candidates: Some(vec![Candidate { content: None }]),
            error: None
        }),
        Ok(None)
    ));
    assert!(matches!(
        extract_text(Response {
            candidates: Some(vec![Candidate {
                content: Some(CandidateContent { parts: Some(vec![]) })
            }]),
            error: None
        }),
        Ok(None)
    ));
}

#[test]
fn extract_text_reports_the_error() {
    let mut response = answer(Some("hello"));
    response.error = Some(ApiError { message: "quota".to_string() });
    match extract_text(response) {
        Err(GeminiError::Api(message)) => assert_eq!(message, "quota"),
        _ => panic!("expected the error"),
    }
}

fn turns_of(contents: &Vec<Content>) -> Vec<(String, Vec<String>)> {
    contents
        .iter()
        .map(|content| {
            (
                content.role.clone().unwrap(),
                content
                    .parts
                    .iter()
                    .map(|part| match part {
                        Part::Text { text } => text.clone(),
                        Part::InlineData { .. } => panic!("expected text"),
                    })
                    .collect(),
            )
        })
        .collect()
}

#[test]
fn contents_merge_neighbours_and_begin_with_a_user() {
    let messages = vec![
        message("bot", "hello", true),
        message("bot", "again", true),
        message("alice", "hi", false),
        message("bob", "price?", false),
        message("bot", "100", true),
        message("alice", "thanks", false),
    ];
    let contents = build_contents(&messages).ok().unwrap();
    assert_eq!(
        turns_of(&contents),
        vec![
            ("user".to_string(), vec!["[alice] hi".to_string(), "[bob] price?".to_string()]),
            ("model".to_string(), vec!["100".to_string()]),
            ("user".to_string(), vec!["[alice] thanks".to_string()]),
        ]
    );
    let only_user = build_contents(&vec![message("a", "x", false)]).ok().unwrap();
    assert_eq!(turns_of(&only_user), vec![("user".to_string(), vec!["[a] x".to_string()])]);
}

#[test]
fn contents_without_a_user_are_an_error() {
    match build_contents(&vec![]) {
        Err(GeminiError::Api(text)) => assert_eq!(text, "메시지 없음"),
        _ => panic!("expected an error"),
    }
    match build_contents(&vec![message("bot", "a", true), message("bot", "b", true)]) {
        Err(GeminiError::Api(text)) => assert_eq!(text, "user 메시지 없음"),
        _ => panic!("expected an error"),
    }
}

#[test]
fn code_fences_are_stripped() {
    assert_eq!(strip_code_fence("```json\n[{\"name\": \"A\", \"qty\": 1}]\n```"), "[{\"name\": \"A\", \"qty\": 1}]");
    assert_eq!(strip_code_fence("  ```\n[]\n```  "), "[]");
    assert_eq!(strip_code_fence("[]"), "[]");
    assert_eq!(strip_code_fence("```json```json\n[1]``````"), "[1]");
    assert_eq!(strip_code_fence("``````"), "");
    assert_eq!(strip_code_fence(""), "");
    assert_eq!(strip_code_fence("``` json\n[]\n``` "), "json\n[]");
}

#[test]
fn image_parts_carry_base64() {
    match image_part(b"hello", "image/png") {
        Part::InlineData { inline_data } => {
            assert_eq!(inline_data.mime_type, "image/png");
            assert_eq!(inline_data.data, "aGVsbG8=");
        }
        _ => panic!("expected inline data"),
    }
    match try_image_part(&[0xff, 0xfe, 0xfd], "image/jpeg") {
        Some(Part::InlineData { inline_data }) => assert_eq!(inline_data.data, "//79"),
        _ => panic!("expected inline data"),
    }
    match try_image_part(&[], "image/jpeg") {
        Some(Part::InlineData { inline_data }) => assert_eq!(inline_data.data, ""),
        _ => panic!("expected inline data"),
    }
    assert_eq!(image_parts(b"ab", "image/png", None).len(), 1);
    let parts = image_parts(b"ab", "image/png", Some("what is this?"));
    assert_eq!(parts.len(), 2);
    match &parts[1] {
        Part::Text { text } => assert_eq!(text, "what is this?"),
        _ => panic!("expected text"),
    }
}

#[test]
fn assistant_errors_in_words() {
    assert_eq!(GeminiError::Http("timeout".to_string()).to_string(), "HTTP error: timeout");
    assert_eq!(GeminiError::Api("quota".to_string()).to_string(), "API error: quota");
}

#[test]
fn system_text_and_required_text() {
    assert_eq!(system_text("rules", None), "rules");
    assert_eq!(system_text("rules", Some("\ndata")), "rules\ndata");
    assert!(matches!(require_text(Some("hi".to_string())), Ok(text) if text == "hi"));
    match require_text(None) {
        Err(GeminiError::Api(text)) => assert_eq!(text, "빈 응답"),
        _ => panic!("expected an error"),
    }
}

#[test]
fn queries_lose_mentions_and_suffixes() {
    assert_eq!(extract_query("<@42> LEDX 가격", 42), "LEDX");
    assert_eq!(extract_query("<@!42> LEDX 가격 알려줘", 42), "LEDX 가격");
    assert_eq!(extract_query("LEDX <@42> 시세는", 42), "LEDX");
    assert_eq!(extract_query("LEDX 가격 정보", 42), "LEDX 가격");
    assert_eq!(extract_query("LEDX 정보 가격", 42), "LEDX");
    assert_eq!(extract_query("<@43> LEDX", 42), "<@43> LEDX");
    assert_eq!(extract_query("  그래픽카드 얼마  ", 42), "그래픽카드");
    assert_eq!(extract_query("<@42>", 42), "");
    assert_eq!(extract_query("<@42><@!42>좀", 42), "");
    assert_eq!(extract_query("가격이", 42), "");
    assert_eq!(extract_query("item 가격은", 42), "item");
}

#[test]
fn assistant_steps() {
    assert!(concerns_assistant(true, 5, 5, false));
    assert!(!concerns_assistant(false, 5, 5, false));
    assert!(!concerns_assistant(true, 5, 6, false));
    assert!(!concerns_assistant(true, 5, 5, true));

    let mut pending = new_pending_queries();
    remember(&mut pending, 1, 2, vec![named("a"), named("b")], 100);
    assert!(matches!(next_step(&mut pending, 1, 2, "2번", true, true, 100), Step::AnalyzeImage));
    assert_eq!(pending.queries.len(), 1);
    assert!(matches!(next_step(&mut pending, 1, 2, "hello", false, false, 100), Step::Nothing));
    assert!(matches!(next_step(&mut pending, 1, 2, "hello", false, true, 100), Step::AnswerText));
    assert!(matches!(next_step(&mut pending, 1, 2, "5", false, true, 100), Step::AnswerText));
    assert!(matches!(next_step(&mut pending, 1, 9, "1", false, false, 100), Step::Nothing));
    assert_eq!(pending.queries.len(), 1);
    match next_step(&mut pending, 1, 2, "  2번이요 ", false, true, 100) {
        Step::ShowSelection(item) => assert_eq!(item.name, "b"),
        _ => panic!("expected a selection"),
    }
    assert!(pending.queries.is_empty());
    remember(&mut pending, 1, 2, vec![named("a")], 100);
    assert!(matches!(next_step(&mut pending, 1, 2, "1", false, false, 221), Step::Nothing));
    assert!(pending.queries.is_empty());

    assert_eq!(after_search(Some(1)), SearchResult::ShowPrice);
    assert_eq!(after_search(Some(2)), SearchResult::OfferChoices);
    assert_eq!(after_search(Some(0)), SearchResult::Chat);
    assert_eq!(after_search(None), SearchResult::Chat);
    assert_eq!(price_note("LEDX"), "[아이템 가격 정보: LEDX]");
}

#[test]
fn lookup_names_use_the_catalog() {
    let catalog = ItemCatalog::new(vec![CatalogEntry {
        id: "1".to_string(),
        name: "LEDX Skin Transilluminator".to_string(),
        short_name: "LEDX".to_string(),
    }]);
    assert_eq!(
        lookup_names(Some(&catalog), "ledx"),
        ("LEDX Skin Transilluminator".to_string(), Some("ledx".to_string()))
    );
    assert_eq!(
        lookup_names(Some(&catalog), "LEDX Skin Transilluminator"),
        ("LEDX Skin Transilluminator".to_string(), None)
    );
    assert_eq!(lookup_names(Some(&catalog), "gpu"), ("gpu".to_string(), None));
    assert_eq!(lookup_names(None, "ledx"), ("ledx".to_string(), None));
}

#[test]
fn price_report_lists_and_sums() {
    let mut priced = named("x");
    priced.base_price = 7;
    assert_eq!(unit_price(&priced), 7);
    priced.avg24h_price = Some(9);
    assert_eq!(unit_price(&priced), 9);
    let items = vec![
        PricedItem { name: "ledx".to_string(), qty: 1, found: Some(("LEDX".to_string(), 1_500_000)) },
        PricedItem { name: "matches".to_string(), qty: 2, found: Some(("Matches".to_string(), 4_000)) },
        PricedItem { name: "mystery".to_string(), qty: 3, found: None },
    ];
    assert_eq!(
        price_report(&items),
        "**아이템 가격 분석**\n- LEDX — 1,500,000₽\n- Matches x2 — 8,000₽ (개당 4,000₽)\n- mystery — 가격 조회 실패\n\n**합계: 1,508,000₽**"
    );
    assert_eq!(price_report(&vec![]), "**아이템 가격 분석**\n\n**합계: 0₽**");
    let huge = vec![PricedItem {
        name: "big".to_string(),
        qty: u32::MAX,
        found: Some(("Big".to_string(), i64::MAX)),
    }];
    assert!(price_report(&huge).ends_with("**합계: 39,614,081,247,908,796,755,622,232,065₽**"));
}
