use flare_orchestrator::field_map::FieldMap;
use flare_orchestrator::hook::{
    build_draft_from_request, build_hook_context, build_hook_data, build_message_record, draft_headers, content_type_label, detect_message_type, draft_metadata,
    extract_client_message_id, hook_tenant, infer_from_content_type, is_editable_structured_content,
    merge_hook_data, merge_tenant_id, merge_trace_id, message_type_from_label, non_empty,
    request_attributes, tenant_id_from_opt, ContentKind, HookData, MessageTypeCode,
};
use flare_orchestrator::model::{ConversationType, Message};

fn map(pairs: &[(&str, &str)]) -> FieldMap {
    let mut m = FieldMap::new();
    for (k, v) in pairs {
        m.insert(k.to_string(), v.to_string());
    }
    m
}

fn message(extra: FieldMap) -> Message {
    Message {
        server_id: "srv".to_string(),
        client_msg_id: "cli".to_string(),
        conversation_id: "conv".to_string(),
        sender_id: "u1".to_string(),
        channel_id: "u2".to_string(),
        conversation_type: ConversationType::Single,
        message_type: 1,
        conversation_seq: 0,
        created_at_ms: 0,
        extra,
    }
}

#[test]
fn content_types_map_to_labels() {
    assert_eq!(infer_from_content_type(" TEXT/PLAIN "), "text");
    assert_eq!(infer_from_content_type("Rich-Text"), "rich_text");
    assert_eq!(infer_from_content_type("image/JPEG"), "image");
    assert_eq!(infer_from_content_type("voice"), "audio");
    assert_eq!(infer_from_content_type("application/zip"), "file");
    assert_eq!(infer_from_content_type("GIF"), "sticker");
    assert_eq!(infer_from_content_type("geolocation"), "location");
    assert_eq!(infer_from_content_type("cmd"), "command");
    assert_eq!(infer_from_content_type("system_message"), "system");
    assert_eq!(infer_from_content_type("something-else"), "custom");
    assert_eq!(content_type_label("markdown"), "rich_text");
    assert_eq!(content_type_label("MARKDOWN"), "custom");
}

#[test]
fn message_type_labels() {
    assert_eq!(detect_message_type(Some("text/plain"), MessageTypeCode::Image, None), "text");
    assert_eq!(detect_message_type(Some("weird"), MessageTypeCode::Image, None), "custom");
    assert_eq!(detect_message_type(None, MessageTypeCode::Poll, None), "vote");
    assert_eq!(detect_message_type(None, MessageTypeCode::MergeForward, None), "forward");
    assert_eq!(detect_message_type(None, MessageTypeCode::Other, Some(ContentKind::LinkCard)), "link_card");
    assert_eq!(detect_message_type(None, MessageTypeCode::Other, None), "unknown");
    assert_eq!(message_type_from_label("card"), MessageTypeCode::Card);
    assert_eq!(message_type_from_label("sticker"), MessageTypeCode::Other);
    assert!(is_editable_structured_content(Some(ContentKind::Text)));
    assert!(is_editable_structured_content(Some(ContentKind::Vote)));
    assert!(!is_editable_structured_content(Some(ContentKind::Image)));
    assert!(!is_editable_structured_content(None));
}

#[test]
fn small_helpers() {
    assert_eq!(non_empty("  ".to_string()), None);
    assert_eq!(non_empty(" a ".to_string()), Some(" a ".to_string()));
    let default = "d".to_string();
    assert_eq!(tenant_id_from_opt(Some(" "), Some(&default)), "d");
    assert_eq!(tenant_id_from_opt(Some("t"), Some(&default)), "t");
    assert_eq!(tenant_id_from_opt(None, None), "0");
    assert_eq!(extract_client_message_id(&map(&[("client_message_id", "")])), None);
    assert_eq!(extract_client_message_id(&map(&[("client_message_id", "c9")])), Some("c9".to_string()));
    assert_eq!(hook_tenant(Some(""), None), Some("0".to_string()));
    assert_eq!(hook_tenant(Some("t"), None), None);
    assert_eq!(hook_tenant(None, Some(&default)), Some("d".to_string()));
    assert_eq!(merge_trace_id("", "orig"), "orig");
    assert_eq!(merge_trace_id("mine", "orig"), "mine");
    assert_eq!(merge_tenant_id(Some(""), Some("o")), Some("o".to_string()));
    assert_eq!(merge_tenant_id(None, Some("")), None);
    assert_eq!(merge_tenant_id(Some(""), None), Some(String::new()));
}

#[test]
fn draft_metadata_completes_missing_entries() {
    let m = message(map(&[("sync", "true"), ("tags", "{}"), ("business_type", "biz"), ("message_type", "image")]));
    let meta = draft_metadata(&m, "sync", "tags", MessageTypeCode::Text, Some(ContentKind::Video));
    assert!(meta.get("sync").is_none());
    assert!(meta.get("tags").is_none());
    assert_eq!(meta.get("business_type").map(String::as_str), Some("biz"));
    assert_eq!(meta.get("conversation_type").map(String::as_str), Some("single"));
    assert_eq!(meta.get("message_type").map(String::as_str), Some("image"));
    assert_eq!(meta.get("content_type").map(String::as_str), Some("video"));
    assert_eq!(meta.get("sender_id").map(String::as_str), Some("u1"));
    assert_eq!(meta.get("receiver_id").map(String::as_str), Some("u2"));
    assert_eq!(meta.get("conversation_id").map(String::as_str), Some("conv"));
    let mut group = message(FieldMap::new());
    group.conversation_type = ConversationType::Group;
    let meta = draft_metadata(&group, "sync", "tags", MessageTypeCode::Text, None);
    assert_eq!(meta.get("receiver_id").map(String::as_str), Some(""));
    assert_eq!(meta.get("content_type").map(String::as_str), Some("unspecified"));
    assert_eq!(meta.get("message_type").map(String::as_str), Some("text"));
}

#[test]
fn request_attributes_skip_headers_and_reserved_keys() {
    let extra = map(&[("x-trace-id", "t"), ("sync", "1"), ("tags", "{}"), ("env", "prod")]);
    let attrs = request_attributes(&extra, "sync", "tags");
    assert_eq!(attrs.entries.len(), 1);
    assert_eq!(attrs.get("env").map(String::as_str), Some("prod"));
}

#[test]
fn message_record_metadata_and_tags() {
    let m = message(map(&[("client_message_id", "c1"), ("tag::a", "old")]));
    let tags = map(&[("a", "1"), ("b", "2")]);
    let r = build_message_record(&m, Some(ContentKind::File), &tags);
    assert_eq!(r.message_id, "srv");
    assert_eq!(r.client_message_id.as_deref(), Some("cli"));
    assert_eq!(r.conversation_type.as_deref(), Some("single"));
    assert_eq!(r.message_type.as_deref(), Some("application/octet-stream"));
    assert_eq!(r.metadata.get("content_type").map(String::as_str), Some("application/octet-stream"));
    assert_eq!(r.metadata.get("business_type").map(String::as_str), Some(""));
    assert_eq!(r.metadata.get("client_message_id").map(String::as_str), Some("c1"));
    assert_eq!(r.metadata.get("tag::a").map(String::as_str), Some("1"));
    assert_eq!(r.metadata.get("tag::b").map(String::as_str), Some("2"));
}

#[test]
fn hook_data_of_a_message() {
    let m = message(map(&[("x-tenant-id", "t1"), ("sync", "true"), ("tags", "{}"), ("k", "v"), ("x-user-id", "u")]));
    let d = build_hook_data(&m, map(&[("k", "from-tags"), ("p", "q")]), true, "sync", "tags", MessageTypeCode::Text, None);
    assert_eq!(d.conversation_id.as_deref(), Some("conv"));
    assert_eq!(d.sender_id.as_deref(), Some("u1"));
    assert_eq!(d.message_type.as_deref(), Some("text"));
    assert_eq!(d.tags.get("k").map(String::as_str), Some("v"));
    assert_eq!(d.tags.get("p").map(String::as_str), Some("q"));
    assert_eq!(d.tags.get("sync").map(String::as_str), Some("true"));
    assert!(d.tags.get("x-user-id").is_none());
    assert_eq!(d.attributes.get("tenant_id").map(String::as_str), Some("t1"));
    assert_eq!(d.attributes.get("receiver_id").map(String::as_str), Some("u2"));
    assert_eq!(d.attributes.get("sync").map(String::as_str), Some("true"));
    assert_eq!(d.attributes.get("message_type_label").map(String::as_str), Some("text"));
    let empty = build_hook_data(&m, FieldMap::new(), false, "sync", "tags", MessageTypeCode::Text, None);
    assert!(empty.sender_id.is_none());
    assert_eq!(empty.attributes.entries.len(), 1);
}

#[test]
fn merged_hook_data_falls_back_on_the_given_data() {
    let given = HookData {
        conversation_id: Some("c".to_string()),
        sender_id: Some("s".to_string()),
        conversation_type: Some("group".to_string()),
        message_type: None,
        tags: map(&[("t", "1")]),
        attributes: map(&[("a", "orig"), ("b", "orig")]),
        request_metadata: map(&[("r", "1")]),
    };
    let updated = HookData {
        conversation_id: None,
        sender_id: None,
        conversation_type: Some("single".to_string()),
        message_type: Some("text".to_string()),
        tags: FieldMap::new(),
        attributes: map(&[("a", "new")]),
        request_metadata: FieldMap::new(),
    };
    let m = merge_hook_data(&given, updated);
    assert!(m.conversation_id.is_none());
    assert_eq!(m.sender_id.as_deref(), Some("s"));
    assert_eq!(m.conversation_type.as_deref(), Some("single"));
    assert_eq!(m.message_type.as_deref(), Some("text"));
    assert_eq!(m.tags.get("t").map(String::as_str), Some("1"));
    assert_eq!(m.attributes.get("a").map(String::as_str), Some("new"));
    assert_eq!(m.attributes.get("b").map(String::as_str), Some("orig"));
    assert_eq!(m.request_metadata.get("r").map(String::as_str), Some("1"));
}

#[test]
fn draft_headers_read_the_tags_object() {
    let mut extra = FieldMap::new();
    assert!(draft_headers(&extra, "tags").entries.is_empty());
    extra.insert("tags".to_string(), "{\"priority\":\"high\",\"lang\":\"zh\"}".to_string());
    let h = draft_headers(&extra, "tags");
    assert_eq!(h.entries.len(), 2);
    assert_eq!(h.get("priority").map(String::as_str), Some("high"));
    assert_eq!(h.get("lang").map(String::as_str), Some("zh"));
    extra.insert("tags".to_string(), "{\"n\":1}".to_string());
    assert!(draft_headers(&extra, "tags").entries.is_empty());
    extra.insert("tags".to_string(), "not json".to_string());
    assert!(draft_headers(&extra, "tags").entries.is_empty());
}

#[test]
fn hook_context_lays_extras_over_parsed_tags() {
    let extra = map(&[
        ("tags", "{\"priority\":\"high\",\"lang\":\"zh\"}"),
        ("lang", "en"),
        ("x-tenant-id", "t7"),
        ("sync", "true"),
    ]);
    let m = message(extra);
    let ctx = build_hook_context(&m, None, None, true, "sync", "tags", MessageTypeCode::Text, Some(ContentKind::Text));
    assert_eq!(ctx.tenant_override.as_deref(), Some("0"));
    assert_eq!(ctx.session_id.as_deref(), Some("conv"));
    assert_eq!(ctx.data.tags.get("priority").map(String::as_str), Some("high"));
    assert_eq!(ctx.data.tags.get("lang").map(String::as_str), Some("en"));
    assert_eq!(ctx.data.tags.get("sync").map(String::as_str), Some("true"));
    assert!(ctx.data.tags.get("x-tenant-id").is_none());
    assert!(ctx.data.tags.get("tags").is_none());
    assert_eq!(ctx.data.attributes.get("tenant_id").map(String::as_str), Some("t7"));
    assert_eq!(ctx.data.sender_id.as_deref(), Some("u1"));
    let ctx = build_hook_context(&m, Some("t1"), None, false, "sync", "tags", MessageTypeCode::Text, None);
    assert!(ctx.tenant_override.is_none());
    assert!(ctx.session_id.is_none());
    assert!(ctx.data.sender_id.is_none());
}

#[test]
fn draft_carries_headers_metadata_and_contexts() {
    let extra = map(&[
        ("tags", "{\"priority\":\"high\"}"),
        ("sync", "true"),
        ("x-request-id", "req-1"),
        ("x-trace-id", ""),
        ("x-tenant-id", "t7"),
        ("business_type", "im"),
        ("environment", "prod"),
    ]);
    let m = message(extra);
    let d = build_draft_from_request(&m, "sync", "tags", MessageTypeCode::Text, Some(ContentKind::Text));
    assert_eq!(d.message_id.as_deref(), Some("srv"));
    assert_eq!(d.conversation_id.as_deref(), Some("conv"));
    assert_eq!(d.headers.get("priority").map(String::as_str), Some("high"));
    assert!(d.metadata.get("sync").is_none());
    assert!(d.metadata.get("tags").is_none());
    assert_eq!(d.metadata.get("receiver_id").map(String::as_str), Some("u2"));
    assert_eq!(d.extras.conversation_id, "conv");
    assert!(d.extras.sync);
    assert_eq!(d.extras.request_context.request_id, "req-1");
    assert!(d.extras.request_context.trace_id.is_none());
    let attrs = d.extras.request_context.attributes.expect("passed-on entries");
    assert_eq!(attrs.get("business_type").map(String::as_str), Some("im"));
    assert_eq!(attrs.get("environment").map(String::as_str), Some("prod"));
    assert!(attrs.get("x-request-id").is_none());
    let tenant = d.extras.tenant_context.expect("tenant");
    assert_eq!(tenant.tenant_id, "t7");
    assert_eq!(tenant.business_type, "im");
    assert_eq!(tenant.environment, "prod");
    assert_eq!(tenant.custom_attributes.entries.len(), 7);

    let mut bare = message(map(&[("x-trace-id", "tr")]));
    bare.server_id = "  ".to_string();
    let d = build_draft_from_request(&bare, "sync", "tags", MessageTypeCode::Text, None);
    assert!(d.message_id.is_none());
    assert!(!d.extras.sync);
    assert_eq!(d.extras.request_context.request_id, "");
    assert_eq!(d.extras.request_context.trace_id.as_deref(), Some("tr"));
    assert!(d.extras.request_context.attributes.is_none());
    assert!(d.extras.tenant_context.is_none());
    assert!(d.headers.entries.is_empty());
}
