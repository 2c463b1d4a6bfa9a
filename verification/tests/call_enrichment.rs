use flare_orchestrator::call_enrichment::{
    absorb_capability_failure, apply_capability_reply, apply_transport_update, ext_bool, ext_u32,
    invite_capability_id, non_empty_ext_str, parse_media_toggle_from_ext, plan_call_signal_enrichment,
    CallSignalEnrichmentService, CapabilityKind, CapabilityPayload, CapabilityReply, EnrichError,
    JsonField, dispatch_result_json, CapabilityDispatchResult, DispatchFailure,
};
use flare_orchestrator::field_map::FieldMap;
use flare_orchestrator::model::{
    CallHangup, CallSessionKind, CallSignal, CallSignalEvent, CallTransport, Event, EventPayload,
    EventType, EventTypeCode,
};

fn ext(pairs: &[(&str, &str)]) -> FieldMap {
    let mut m = FieldMap::new();
    for (k, v) in pairs {
        m.insert(k.to_string(), v.to_string());
    }
    m
}

fn transport(room: &str, peer: &str) -> CallTransport {
    CallTransport {
        room_id: room.to_string(),
        peer_id: peer.to_string(),
        media_session_id: None,
        signaling_ws_base: None,
        instance_id: None,
    }
}

fn call(signal: CallSignal, call_id: &str, ext_map: FieldMap, t: Option<CallTransport>) -> CallSignalEvent {
    CallSignalEvent {
        call_id: call_id.to_string(),
        conversation_id: "conv-1".to_string(),
        from_user_id: "u1".to_string(),
        ext: ext_map,
        signal: Some(signal),
        media_session_kind: CallSessionKind::Direct,
        audience: None,
        transport: t,
    }
}

fn event(cs: CallSignalEvent, request_id: Option<&str>) -> Event {
    Event {
        event_id: "e1".to_string(),
        conversation_id: "conv-1".to_string(),
        event_type: EventTypeCode::Known(EventType::CallSignal),
        seq: 1,
        event_seq: None,
        conversation_seq: 0,
        created_at_ms: 0,
        request_id: request_id.map(|s| s.to_string()),
        payload: Some(EventPayload::CallSignal(cs)),
    }
}

fn reply(pairs: Vec<(&str, JsonField)>) -> CapabilityReply {
    CapabilityReply {
        is_null: false,
        fields: pairs.into_iter().map(|(k, v)| (k.to_string(), v)).collect(),
    }
}

fn text(s: &str) -> JsonField {
    JsonField::Text(s.to_string())
}

fn signal_of(e: &Event) -> CallSignalEvent {
    match &e.payload {
        Some(EventPayload::CallSignal(cs)) => cs.clone(),
        _ => panic!("call signal expected"),
    }
}

#[test]
fn ext_values_are_read_loosely() {
    let m = ext(&[("a", " YES "), ("b", "off"), ("c", "maybe"), ("n", " 42 "), ("t", "  ")]);
    assert_eq!(ext_bool(&m, "a"), Some(true));
    assert_eq!(ext_bool(&m, "b"), Some(false));
    assert_eq!(ext_bool(&m, "c"), None);
    assert_eq!(ext_bool(&m, "missing"), None);
    assert_eq!(ext_u32(&m, "n"), Some(42));
    assert_eq!(ext_u32(&m, "a"), None);
    assert_eq!(non_empty_ext_str(&m, "t"), None);
    assert_eq!(non_empty_ext_str(&m, "n"), Some("42".to_string()));
}

#[test]
fn media_toggle_mutes_disabled_tracks() {
    assert_eq!(parse_media_toggle_from_ext(&ext(&[])), None);
    assert_eq!(
        parse_media_toggle_from_ext(&ext(&[("flare_camera_enabled", "false")])),
        Some((false, true))
    );
    assert_eq!(
        parse_media_toggle_from_ext(&ext(&[("flare_microphone_enabled", "0"), ("flare_camera_enabled", "1")])),
        Some((true, false))
    );
}

#[test]
fn invite_picks_video_when_offered() {
    assert_eq!(invite_capability_id(&Some(vec![1, 2])), CapabilityKind::CallVideoStart);
    assert_eq!(invite_capability_id(&Some(vec![1])), CapabilityKind::CallAudioStart);
    assert_eq!(invite_capability_id(&None), CapabilityKind::CallAudioStart);
    assert_eq!(CapabilityKind::CallVideoStart.capability_id(), "rtc.call.video");
    assert_eq!(CapabilityKind::IceCandidate.capability_id(), "rtc.media.ice.candidate");
}

#[test]
fn invite_plan_uses_event_request_id_and_payload() {
    let cs = call(CallSignal::Invite { offered_media: Some(vec![2]) }, "call-1", ext(&[("k", "v")]), None);
    let plan = plan_call_signal_enrichment(&event(cs, Some("req-1")), "ctx-req").expect("plan");
    assert_eq!(plan.request_id, "req-1");
    assert_eq!(plan.requests.len(), 1);
    let r = &plan.requests[0];
    assert_eq!(r.kind, CapabilityKind::CallVideoStart);
    assert_eq!(r.request_id, "req-1");
    assert_eq!(r.user_id, "u1");
    assert_eq!(r.conversation_id, "conv-1");
    match &r.payload {
        CapabilityPayload::Invite { call_id, ext } => {
            assert_eq!(call_id.as_deref(), Some("call-1"));
            assert_eq!(ext.as_ref().and_then(|m| m.get("k")).map(String::as_str), Some("v"));
        }
        other => panic!("unexpected payload {other:?}"),
    }
}

#[test]
fn request_id_falls_back_to_context_then_fresh() {
    let cs = call(CallSignal::Invite { offered_media: None }, "", FieldMap::new(), None);
    let plan = plan_call_signal_enrichment(&event(cs.clone(), Some("")), "ctx-req").expect("plan");
    assert_eq!(plan.request_id, "ctx-req");
    match &plan.requests[0].payload {
        CapabilityPayload::Invite { call_id, ext } => {
            assert!(call_id.is_none());
            assert!(ext.is_none());
        }
        other => panic!("unexpected payload {other:?}"),
    }
    let plan = plan_call_signal_enrichment(&event(cs, None), "").expect("plan");
    assert_eq!(plan.request_id.len(), 36);
    let rid: Vec<char> = plan.request_id.chars().collect();
    for (i, c) in rid.iter().enumerate() {
        if i == 8 || i == 13 || i == 18 || i == 23 {
            assert_eq!(*c, '-');
        } else {
            assert!(c.is_ascii_digit() || ('a'..='f').contains(c), "digit {i} of {:?}", rid);
        }
    }
    assert_eq!(rid[14], '4');
    assert!(['8', '9', 'a', 'b'].contains(&rid[19]));
}

#[test]
fn accept_without_call_id_is_an_error() {
    let cs = call(CallSignal::Accept { accepted_media: None }, "  ", FieldMap::new(), None);
    let err = plan_call_signal_enrichment(&event(cs, Some("r")), "").unwrap_err();
    assert_eq!(err, EnrichError::MissingCallId);
    assert_eq!(err.message(), "call_id required for rtc accept/hangup");
    assert!(err.is_invalid_parameter());
}

#[test]
fn non_call_events_and_anonymous_senders_are_skipped() {
    let mut e = event(call(CallSignal::Busy, "c", FieldMap::new(), None), Some("r"));
    assert!(plan_call_signal_enrichment(&e, "").unwrap().requests.is_empty());
    e.event_type = EventTypeCode::Known(EventType::Reaction);
    assert!(plan_call_signal_enrichment(&e, "").unwrap().requests.is_empty());
    let mut cs = call(CallSignal::Accept { accepted_media: None }, "", FieldMap::new(), None);
    cs.from_user_id = " ".to_string();
    assert!(plan_call_signal_enrichment(&event(cs, Some("r")), "").unwrap().requests.is_empty());
}

#[test]
fn accept_reply_is_followed_by_join_token_and_join_failure_degrades() {
    let svc = CallSignalEnrichmentService::new();
    let e = event(call(CallSignal::Accept { accepted_media: None }, " call-1 ", FieldMap::new(), None), Some("rid"));
    let plan = svc.enrich_call_signal_event(&e, "").expect("plan");
    let accept = &plan.requests[0];
    assert_eq!(accept.kind, CapabilityKind::Accept);
    match &accept.payload {
        CapabilityPayload::Call { call_id, reason, close_room_if_vacant } => {
            assert_eq!(call_id, "call-1");
            assert!(reason.is_none());
            assert!(close_room_if_vacant.is_none());
        }
        other => panic!("unexpected payload {other:?}"),
    }
    let mut cs = signal_of(&e);
    let r = reply(vec![("call_id", text("call-2")), ("room_id", text("room-9")), ("sfu_instance_id", text(" sfu-1 "))]);
    let follow = apply_capability_reply(&mut cs, accept, &r, &plan.request_id).expect("accept applies");
    let join = follow.expect("join token follows");
    assert_eq!(join.kind, CapabilityKind::JoinToken);
    assert_eq!(join.request_id, "rid-join-token");
    assert_eq!(cs.call_id, "call-2");
    let t = cs.transport.clone().expect("transport");
    assert_eq!(t.room_id, "room-9");
    assert_eq!(t.instance_id.as_deref(), Some("sfu-1"));
    assert!(absorb_capability_failure(&mut cs, CapabilityKind::JoinToken));
    assert_eq!(cs.ext.get("flare_rtc_enrich").map(String::as_str), Some("degraded"));
    assert_eq!(cs.ext.get("flare_rtc_enrich_error").map(String::as_str), Some("join_token_unavailable"));
    assert!(!absorb_capability_failure(&mut cs, CapabilityKind::Accept));
}

#[test]
fn join_token_reply_is_written_to_ext() {
    let e = event(call(CallSignal::Accept { accepted_media: None }, "call-1", FieldMap::new(), None), Some("rid"));
    let plan = plan_call_signal_enrichment(&e, "").unwrap();
    let mut cs = signal_of(&e);
    let join_req = apply_capability_reply(&mut cs, &plan.requests[0], &reply(vec![]), "rid").unwrap().unwrap();
    let r = reply(vec![
        ("token", text(" tok ")),
        ("ttl_seconds", JsonField::Number { as_u64: Some(300), as_f64_text: "300".to_string() }),
    ]);
    assert!(apply_capability_reply(&mut cs, &join_req, &r, "rid").unwrap().is_none());
    assert_eq!(cs.ext.get("sfu_join_token").map(String::as_str), Some("tok"));
    assert_eq!(cs.ext.get("sfu_join_token_ttl_seconds").map(String::as_str), Some("300"));
    let null = CapabilityReply { is_null: true, fields: Vec::new() };
    assert_eq!(
        apply_capability_reply(&mut cs, &join_req, &null, "rid").unwrap_err(),
        EnrichError::EmptyJoinTokenResult
    );
}

#[test]
fn null_create_reply_is_an_error() {
    let e = event(call(CallSignal::Invite { offered_media: None }, "c", FieldMap::new(), None), Some("rid"));
    let plan = plan_call_signal_enrichment(&e, "").unwrap();
    let mut cs = signal_of(&e);
    let null = CapabilityReply { is_null: true, fields: Vec::new() };
    let err = apply_capability_reply(&mut cs, &plan.requests[0], &null, "rid").unwrap_err();
    assert_eq!(err, EnrichError::EmptyCreateResult);
    assert_eq!(err.message(), "capability create result empty");
    assert_eq!(cs.call_id, "c");
}

#[test]
fn reject_and_hangup_payloads() {
    let e = event(call(CallSignal::Reject { reason: "busy now".to_string(), code: 0 }, "c", FieldMap::new(), None), Some("r"));
    let plan = plan_call_signal_enrichment(&e, "").unwrap();
    assert_eq!(plan.requests[0].kind, CapabilityKind::Reject);
    match &plan.requests[0].payload {
        CapabilityPayload::Call { reason, .. } => assert_eq!(reason.as_deref(), Some("busy now")),
        other => panic!("unexpected payload {other:?}"),
    }
    let h = CallHangup {
        reason: String::new(),
        reason_code: None,
        visibility_scope: None,
        timeout_seconds: None,
        duration_seconds: None,
        close_room_if_vacant: Some(true),
    };
    let e = event(call(CallSignal::Hangup(h), "c", FieldMap::new(), None), Some("r"));
    let plan = plan_call_signal_enrichment(&e, "").unwrap();
    assert_eq!(plan.requests[0].kind, CapabilityKind::End);
    match &plan.requests[0].payload {
        CapabilityPayload::Call { close_room_if_vacant, .. } => assert_eq!(*close_room_if_vacant, Some(true)),
        other => panic!("unexpected payload {other:?}"),
    }
}

#[test]
fn renegotiate_plans_media_requests_in_order() {
    let m = ext(&[
        ("flare_camera_enabled", "off"),
        ("flare_subscription_track_id", "track-1"),
        ("flare_simulcast_track_id", "track-2"),
        ("flare_simulcast_layer", "high"),
        ("flare_network_quality_peer_id", "peer-x"),
        ("flare_sdp_type", " OFFER "),
        ("flare_sdp", " v=0 "),
    ]);
    let mut t = transport(" room-1 ", " peer-1 ");
    t.media_session_id = Some(" ms-1 ".to_string());
    let e = event(call(CallSignal::Renegotiate, "call-1", m, Some(t)), Some("rid"));
    let plan = plan_call_signal_enrichment(&e, "").unwrap();
    let kinds: Vec<CapabilityKind> = plan.requests.iter().map(|r| r.kind).collect();
    assert_eq!(
        kinds,
        vec![
            CapabilityKind::PublisherMute,
            CapabilityKind::SubscriptionSet,
            CapabilityKind::SimulcastLayerSet,
            CapabilityKind::NetworkQualityGet,
            CapabilityKind::SdpOffer,
        ]
    );
    let ids: Vec<&str> = plan.requests.iter().map(|r| r.request_id.as_str()).collect();
    assert_eq!(
        ids,
        vec![
            "rid-media-mute",
            "rid-media-subscription",
            "rid-media-simulcast",
            "rid-media-network-quality",
            "rid-media-offer"
        ]
    );
    match &plan.requests[1].payload {
        CapabilityPayload::Subscription { room_id, subscriber_peer_id, track_id, enable, priority, .. } => {
            assert_eq!(room_id, "room-1");
            assert_eq!(subscriber_peer_id, "peer-1");
            assert_eq!(track_id, "track-1");
            assert!(*enable);
            assert_eq!(*priority, 0);
        }
        other => panic!("unexpected payload {other:?}"),
    }
    match &plan.requests[4].payload {
        CapabilityPayload::SdpOffer { sdp_offer, .. } => assert_eq!(sdp_offer, "v=0"),
        other => panic!("unexpected payload {other:?}"),
    }
    let update = plan.transport.expect("transport update");
    assert_eq!(update.room_id, "room-1");
    assert_eq!(update.media_session_id.as_deref(), Some("ms-1"));

    let mut cs = signal_of(&e);
    let q = reply(vec![
        ("has_data", JsonField::Flag(true)),
        ("rtt_ms", JsonField::Number { as_u64: Some(35), as_f64_text: "35".to_string() }),
        ("packet_loss_ratio", JsonField::Number { as_u64: None, as_f64_text: "0.25".to_string() }),
    ]);
    apply_capability_reply(&mut cs, &plan.requests[3], &q, "rid").unwrap();
    assert_eq!(cs.ext.get("flare_network_quality_has_data").map(String::as_str), Some("true"));
    assert_eq!(cs.ext.get("flare_network_quality_rtt_ms").map(String::as_str), Some("35"));
    assert_eq!(cs.ext.get("flare_network_quality_packet_loss_ratio").map(String::as_str), Some("0.25"));
    let answer = reply(vec![("sdp_answer", text("v=1"))]);
    apply_capability_reply(&mut cs, &plan.requests[4], &answer, "rid").unwrap();
    assert_eq!(cs.ext.get("flare_sdp_type").map(String::as_str), Some("answer"));
    assert_eq!(cs.ext.get("flare_sdp").map(String::as_str), Some("v=1"));
    apply_transport_update(&mut cs, update);
    let t = cs.transport.expect("transport");
    assert_eq!(t.room_id, "room-1");
    assert_eq!(t.peer_id, "peer-1");
    assert_eq!(t.media_session_id.as_deref(), Some(" ms-1 "));
}

#[test]
fn renegotiate_without_media_routing_passes_through() {
    let e = event(call(CallSignal::Renegotiate, "call-1", ext(&[("flare_sdp", "x")]), None), Some("rid"));
    let plan = plan_call_signal_enrichment(&e, "").unwrap();
    assert!(plan.requests.is_empty());
    assert!(plan.transport.is_none());
    let e = event(
        call(CallSignal::Renegotiate, "call-1", ext(&[("flare_sdp", "x"), ("flare_sdp_type", "pranswer")]), Some(transport("r", "p"))),
        Some("rid"),
    );
    let plan = plan_call_signal_enrichment(&e, "").unwrap();
    assert!(plan.requests.is_empty());
    assert!(plan.transport.is_none());
}

#[test]
fn ice_is_relayed_only_with_media_routing() {
    let p2p = event(
        call(CallSignal::IceCandidate { candidate_json: Some("{}".to_string()) }, "call-1", FieldMap::new(), None),
        Some("rid"),
    );
    assert!(plan_call_signal_enrichment(&p2p, "").unwrap().requests.is_empty());
    let sfu = event(
        call(
            CallSignal::IceCandidate { candidate_json: Some(" {\"c\":1} ".to_string()) },
            "call-1",
            FieldMap::new(),
            Some(transport("room", "peer")),
        ),
        Some("rid"),
    );
    let plan = plan_call_signal_enrichment(&sfu, "").unwrap();
    assert_eq!(plan.requests.len(), 1);
    assert_eq!(plan.requests[0].request_id, "rid-media-ice");
    match &plan.requests[0].payload {
        CapabilityPayload::IceCandidate { candidate_json, .. } => assert_eq!(candidate_json, "{\"c\":1}"),
        other => panic!("unexpected payload {other:?}"),
    }
    let blank = event(
        call(CallSignal::IceCandidate { candidate_json: Some("  ".to_string()) }, "call-1", FieldMap::new(), Some(transport("room", "peer"))),
        Some("rid"),
    );
    assert!(plan_call_signal_enrichment(&blank, "").unwrap().requests.is_empty());
}

#[test]
fn dispatch_result_json_reads_the_response() {
    assert!(matches!(dispatch_result_json(None), Err(DispatchFailure::EmptyResult)));
    assert_eq!(DispatchFailure::EmptyResult.message(), "capability Dispatch: empty result");
    let refused = CapabilityDispatchResult {
        success: false,
        error_message: "room full".to_string(),
        result_json: "{}".to_string(),
    };
    match dispatch_result_json(Some(refused)) {
        Err(e @ DispatchFailure::Rejected { .. }) => {
            assert_eq!(e.message(), "capability Dispatch rejected");
            match e {
                DispatchFailure::Rejected { details } => assert_eq!(details, "room full"),
                _ => unreachable!(),
            }
        }
        other => panic!("unexpected {other:?}"),
    }
    let blank = CapabilityDispatchResult { success: true, error_message: String::new(), result_json: "  ".to_string() };
    assert!(matches!(dispatch_result_json(Some(blank)), Ok(None)));
    let body = CapabilityDispatchResult {
        success: true,
        error_message: String::new(),
        result_json: "{\"token\":\"t\"}".to_string(),
    };
    assert_eq!(dispatch_result_json(Some(body)).unwrap(), Some("{\"token\":\"t\"}".to_string()));
}
