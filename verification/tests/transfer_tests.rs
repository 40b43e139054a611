use piping_server::transfer::{
    first_part_result, plan_transfer, raw_transfer_headers, receiver_response_head,
    transfer_progress_chunks, BodyRelay, TransferError, TransferHeaders, TransferSource,
};

#[test]
fn plan_without_content_type_is_raw() {
    assert!(matches!(plan_transfer(&None), Ok(TransferSource::Raw)));
}

#[test]
fn plan_with_plain_content_type_is_raw() {
    let ct = Some("text/plain".to_string());
    assert!(matches!(plan_transfer(&ct), Ok(TransferSource::Raw)));
}

#[test]
fn plan_with_unparseable_content_type_is_raw() {
    let ct = Some("not a media type".to_string());
    assert!(matches!(plan_transfer(&ct), Ok(TransferSource::Raw)));
}

#[test]
fn plan_multipart_with_boundary() {
    let ct = Some("multipart/form-data; boundary=XYZ".to_string());
    match plan_transfer(&ct) {
        Ok(TransferSource::FirstPart { boundary }) => assert_eq!(boundary, "XYZ"),
        _ => panic!("expected a first-part plan"),
    }
}

#[test]
fn plan_multipart_without_boundary_fails() {
    let ct = Some("multipart/form-data".to_string());
    match plan_transfer(&ct) {
        Err(e) => {
            assert_eq!(e, TransferError::BoundaryMissing);
            assert_eq!(e.text(), "boundary not found");
        }
        _ => panic!("expected the boundary error"),
    }
}

#[test]
fn first_part_headers_win_over_raw() {
    let part = TransferHeaders {
        content_type: Some("image/png".to_string()),
        content_length: None,
        content_disposition: None,
    };
    match first_part_result(Some(part)) {
        Ok(eff) => {
            assert_eq!(eff.content_type.as_deref(), Some("image/png"));
            assert_eq!(eff.content_length, None);
            assert_eq!(eff.content_disposition, None);
        }
        _ => panic!("expected the part's headers"),
    }
}

#[test]
fn missing_first_part_is_an_error() {
    match first_part_result(None) {
        Err(e) => {
            assert_eq!(e, TransferError::NoMultipartPart);
            assert_eq!(e.text(), "multipart error");
        }
        _ => panic!("expected the multipart error"),
    }
}

#[test]
fn raw_headers_copy_request_values() {
    let h = raw_transfer_headers(
        &Some("text/plain".to_string()),
        &Some("5".to_string()),
        &None,
    );
    assert_eq!(h.content_type.as_deref(), Some("text/plain"));
    assert_eq!(h.content_length.as_deref(), Some("5"));
    assert_eq!(h.content_disposition, None);
}

#[test]
fn receiver_head_full_sequence() {
    let h = TransferHeaders {
        content_type: Some("text/plain".to_string()),
        content_length: Some("5".to_string()),
        content_disposition: Some("attachment".to_string()),
    };
    let xp = vec!["a".to_string(), "b".to_string()];
    let (status, headers) = receiver_response_head(&h, &xp);
    assert_eq!(status, 200);
    let expect = vec![
        ("Content-Type", "text/plain"),
        ("Content-Length", "5"),
        ("Content-Disposition", "attachment"),
        ("X-Piping", "a"),
        ("X-Piping", "b"),
        ("Access-Control-Allow-Origin", "*"),
        ("Access-Control-Expose-Headers", "X-Piping"),
        ("X-Robots-Tag", "none"),
    ];
    assert_eq!(headers.len(), expect.len());
    for (got, want) in headers.iter().zip(expect.iter()) {
        assert_eq!(got.0, want.0);
        assert_eq!(got.1, want.1);
    }
}

#[test]
fn receiver_head_omits_absent_headers_and_expose() {
    let h = TransferHeaders { content_type: None, content_length: None, content_disposition: None };
    let xp: Vec<String> = Vec::new();
    let (status, headers) = receiver_response_head(&h, &xp);
    assert_eq!(status, 200);
    let expect = vec![("Access-Control-Allow-Origin", "*"), ("X-Robots-Tag", "none")];
    assert_eq!(headers.len(), expect.len());
    for (got, want) in headers.iter().zip(expect.iter()) {
        assert_eq!(got.0, want.0);
        assert_eq!(got.1, want.1);
    }
}

#[test]
fn multipart_part_headers_reach_receiver() {
    let part = TransferHeaders {
        content_type: Some("image/png".to_string()),
        content_length: None,
        content_disposition: None,
    };
    let eff = first_part_result(Some(part)).unwrap();
    let (_, headers) = receiver_response_head(&eff, &Vec::new());
    assert!(headers.iter().any(|p| p.0 == "Content-Type" && p.1 == "image/png"));
    assert!(!headers.iter().any(|p| p.0 == "Content-Type" && p.1 == "multipart/form-data"));
}

#[test]
fn relay_forwards_bytes_unchanged() {
    let mut relay = BodyRelay::new();
    let out = relay.forward_chunk(b"PNGDATA".to_vec());
    assert_eq!(out, b"PNGDATA".to_vec());
    let out2 = relay.forward_chunk(b"hello".to_vec());
    assert_eq!(out2, b"hello".to_vec());
    assert!(relay.finish());
}

#[test]
fn finish_signal_fires_exactly_once() {
    let mut relay = BodyRelay::new();
    assert!(relay.finish());
    assert!(!relay.finish());
}

#[test]
fn empty_body_still_yields_four_progress_chunks() {
    // A receiver of an empty body gets no bytes; the sender still gets
    // the full progress sequence and the empty terminal chunk.
    let mut relay = BodyRelay::new();
    assert!(relay.finish());
    let chunks = transfer_progress_chunks();
    assert_eq!(chunks.len(), 4);
    assert_eq!(chunks[0], "[INFO] Start sending to 1 receiver(s)...\n");
    assert_eq!(chunks[1], "");
    assert_eq!(chunks[2], "[INFO] Sent successfully!\n");
    assert_eq!(chunks[3], "");
}
