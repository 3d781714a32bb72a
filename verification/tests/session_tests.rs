use stream_session::codec::{DoubleValue, DynamicValue, PropertyValue};
use stream_session::consumer::{
    resolve_resume_offset, ConsumerSession, Delivery, OffsetQuery, RecvOutcome,
};
use stream_session::environments::{insert_environment, HandleRegistry};
use stream_session::error::SessionError;
use stream_session::producer::{Confirmation, ProducerSession, ProducerVariant, ResponseCode};

#[test]
fn resume_offset_is_one_past_checkpoint() {
    assert_eq!(resolve_resume_offset(OffsetQuery::Found(0)).unwrap(), 1);
    assert_eq!(resolve_resume_offset(OffsetQuery::Found(10)).unwrap(), 11);
    assert_eq!(resolve_resume_offset(OffsetQuery::NotFound).unwrap(), 0);
}

#[test]
fn resume_offset_propagates_other_failures() {
    let r = resolve_resume_offset(OffsetQuery::Failed(String::from("connection reset")));
    match r {
        Err(SessionError::Broker(m)) => assert_eq!(m, "connection reset"),
        other => panic!("unexpected outcome: {:?}", other),
    }
}

#[test]
fn scenario_consumer_resumes_without_redelivery() {
    // A consumer named "grp1" on stream "orders", with no prior checkpoint.
    let mut reg: HandleRegistry<u32> = HandleRegistry::new();
    let h = insert_environment(&mut reg, 0);
    let mut c = ConsumerSession::new();
    c.set_name(String::from("grp1")).unwrap();
    let plan = c.begin_build(&reg, h).unwrap();
    assert_eq!(plan.name.as_deref(), Some("grp1"));
    let start = resolve_resume_offset(OffsetQuery::NotFound).unwrap();
    assert_eq!(start, 0);
    c.complete_build(); // the shell opened the consumer for "orders" at 0
    let got = c
        .record_recv_outcome(RecvOutcome::Arrived(Delivery {
            offset: 10,
            body: vec![1],
            properties: None,
        }))
        .unwrap();
    assert!(got);
    let blob = c.offset().unwrap();
    assert_eq!(blob, 10u64.to_le_bytes().to_vec());
    let checkpoint = c.prepare_store_offset(&blob).unwrap();
    assert_eq!(checkpoint, 10);
    // A fresh consumer under the same name finds the stored checkpoint.
    let resumed = resolve_resume_offset(OffsetQuery::Found(checkpoint)).unwrap();
    assert_eq!(resumed, 11);
}

#[test]
fn scenario_batch_statuses_in_submission_order() {
    let mut reg: HandleRegistry<u32> = HandleRegistry::new();
    let h = insert_environment(&mut reg, 0);
    let mut p = ProducerSession::new();
    let plan = p.begin_build(&reg, h).unwrap();
    p.complete_build(&plan);
    p.add_message(vec![0]).unwrap();
    p.add_message(vec![1]).unwrap();
    p.add_message(vec![2]).unwrap();
    let batch = p.take_batch().unwrap();
    assert_eq!(batch.len(), 3);
    // Confirmations arrive tagged [2, 0, 1].
    let confirms = vec![
        Confirmation { publishing_id: 2, status: ResponseCode::AccessRefused },
        Confirmation { publishing_id: 0, status: ResponseCode::Okay },
        Confirmation { publishing_id: 1, status: ResponseCode::InternalError },
    ];
    let r = p.record_confirmations(confirms);
    assert!(matches!(r, Err(SessionError::NotAllDelivered)));
    // The statuses stay retrievable after the failure, in submission order.
    assert_eq!(p.statuses(), "Ok\r\nInternalError\r\nAccessRefused\r\n");
}

#[test]
fn all_delivered_batch_reports_success() {
    let mut reg: HandleRegistry<u32> = HandleRegistry::new();
    let h = insert_environment(&mut reg, 0);
    let mut p = ProducerSession::new();
    let plan = p.begin_build(&reg, h).unwrap();
    p.complete_build(&plan);
    p.add_message(vec![9]).unwrap();
    p.add_message(vec![8]).unwrap();
    let batch = p.take_batch().unwrap();
    assert_eq!(batch.len(), 2);
    let confirms = vec![
        Confirmation { publishing_id: 1, status: ResponseCode::Okay },
        Confirmation { publishing_id: 0, status: ResponseCode::Okay },
    ];
    assert!(p.record_confirmations(confirms).is_ok());
    assert_eq!(p.statuses(), "Ok\r\nOk\r\n");
}

#[test]
fn queue_is_drained_by_take_even_on_failure() {
    let mut reg: HandleRegistry<u32> = HandleRegistry::new();
    let h = insert_environment(&mut reg, 0);
    let mut p = ProducerSession::new();
    assert!(matches!(p.add_message(vec![1]), Err(SessionError::NoProducer)));
    assert!(matches!(p.take_batch(), Err(SessionError::NoProducer)));
    let plan = p.begin_build(&reg, h).unwrap();
    p.complete_build(&plan);
    p.add_message(vec![1]).unwrap();
    let first = p.take_batch().unwrap();
    assert_eq!(first.len(), 1);
    let second = p.take_batch().unwrap();
    assert_eq!(second.len(), 0);
}

#[test]
fn named_producer_deduplicates() {
    let mut reg: HandleRegistry<u32> = HandleRegistry::new();
    let h = insert_environment(&mut reg, 0);
    let mut p = ProducerSession::new();
    p.set_name(String::from("orders-writer")).unwrap();
    p.set_batch_delay(100).unwrap();
    p.set_batch_size(64).unwrap();
    let plan = p.begin_build(&reg, h).unwrap();
    assert_eq!(plan.name.as_deref(), Some("orders-writer"));
    assert_eq!(plan.batch_delay_ms, Some(100));
    assert_eq!(plan.batch_size, Some(64));
    p.complete_build(&plan);
    // A named producer is the deduplicating variant; the name is fixed now.
    assert!(matches!(p.set_name(String::from("other")), Err(SessionError::SpentBuilder)));
    let _ = ProducerVariant::Deduplicating;
}

#[test]
fn unnamed_producer_does_not_deduplicate() {
    let mut reg: HandleRegistry<u32> = HandleRegistry::new();
    let h = insert_environment(&mut reg, 0);
    let mut p = ProducerSession::new();
    let plan = p.begin_build(&reg, h).unwrap();
    assert!(plan.name.is_none());
    p.complete_build(&plan);
    let second = p.begin_build(&reg, h);
    assert!(matches!(second, Err(SessionError::AlreadyBuilt)));
}

#[test]
fn build_without_connection_keeps_configuration() {
    let mut reg: HandleRegistry<u32> = HandleRegistry::new();
    let h = insert_environment(&mut reg, 0);
    let mut p = ProducerSession::new();
    p.set_name(String::from("w")).unwrap();
    assert!(matches!(p.begin_build(&reg, 99), Err(SessionError::NoProducer)));
    // The configuration survives the failed attempt.
    let plan = p.begin_build(&reg, h).unwrap();
    assert_eq!(plan.name.as_deref(), Some("w"));
    let mut c = ConsumerSession::new();
    assert!(matches!(c.begin_build(&reg, 99), Err(SessionError::NoConsumer)));
    assert!(c.begin_build(&reg, h).is_ok());
}

#[test]
fn scenario_large_unsigned_property_reads_as_float() {
    // A property "count" holding unsigned 5,000,000,000 comes back to the
    // host as a 64-bit float equal to 5000000000.0.
    let mut reg: HandleRegistry<u32> = HandleRegistry::new();
    let h = insert_environment(&mut reg, 0);
    let mut p = ProducerSession::new();
    let plan = p.begin_build(&reg, h).unwrap();
    p.complete_build(&plan);
    p.set_application_property(
        String::from("note"),
        DynamicValue::Str(String::from("hi")),
    )
    .unwrap();
    p.add_message(vec![7]).unwrap();
    let batch = p.take_batch().unwrap();
    assert_eq!(batch.len(), 1);
    assert_eq!(batch[0].body, vec![7]);
    assert_eq!(batch[0].properties.len(), 1);

    let mut reg: HandleRegistry<u32> = HandleRegistry::new();
    let h = insert_environment(&mut reg, 0);
    let mut c = ConsumerSession::new();
    c.begin_build(&reg, h).unwrap();
    c.complete_build();
    c.record_recv_outcome(RecvOutcome::Arrived(Delivery {
        offset: 0,
        body: vec![7],
        properties: Some(vec![(String::from("count"), PropertyValue::Ulong(5_000_000_000))]),
    }))
    .unwrap();
    match c.application_property("count").unwrap() {
        Some(DynamicValue::Double(DoubleValue::OfUnsigned(x))) => {
            assert_eq!(x as f64, 5000000000.0);
        }
        other => panic!("unexpected value: {:?}", other),
    }
    assert_eq!(c.application_property("absent").unwrap().is_none(), true);
}

#[test]
fn properties_apply_only_to_the_next_message() {
    let mut reg: HandleRegistry<u32> = HandleRegistry::new();
    let h = insert_environment(&mut reg, 0);
    let mut p = ProducerSession::new();
    let plan = p.begin_build(&reg, h).unwrap();
    p.complete_build(&plan);
    p.set_application_property(String::from("k"), DynamicValue::Int(1)).unwrap();
    p.set_application_property(String::from("k"), DynamicValue::Int(2)).unwrap();
    p.add_message(vec![]).unwrap();
    p.add_message(vec![]).unwrap();
    let batch = p.take_batch().unwrap();
    assert_eq!(batch[0].properties.len(), 1);
    assert_eq!(batch[0].properties[0].0, "k");
    assert!(matches!(batch[0].properties[0].1, PropertyValue::Int(2)));
    assert!(batch[1].properties.is_empty());
}

#[test]
fn unsupported_property_value_is_a_codec_error() {
    let mut p = ProducerSession::new();
    let r = p.set_application_property(
        String::from("k"),
        DynamicValue::Double(DoubleValue::OfSigned(-1)),
    );
    assert!(matches!(r, Err(SessionError::CodecError)));
}

#[test]
fn scenario_timed_out_receive_is_not_an_error() {
    let mut reg: HandleRegistry<u32> = HandleRegistry::new();
    let h = insert_environment(&mut reg, 0);
    let mut c = ConsumerSession::new();
    assert!(matches!(
        c.record_recv_outcome(RecvOutcome::TimedOut),
        Err(SessionError::NoConsumer)
    ));
    c.begin_build(&reg, h).unwrap();
    c.complete_build();
    let got = c.record_recv_outcome(RecvOutcome::TimedOut).unwrap();
    assert!(!got);
    // No delivery was set, so delivery-dependent reads still fail.
    assert!(matches!(c.message_body(), Err(SessionError::NoMessage)));
    assert!(matches!(c.offset(), Err(SessionError::NoMessage)));
    assert!(matches!(c.application_property("k"), Err(SessionError::NoMessage)));
}

#[test]
fn closed_stream_is_fatal_and_keeps_the_delivery() {
    let mut reg: HandleRegistry<u32> = HandleRegistry::new();
    let h = insert_environment(&mut reg, 0);
    let mut c = ConsumerSession::new();
    c.begin_build(&reg, h).unwrap();
    c.complete_build();
    c.record_recv_outcome(RecvOutcome::Arrived(Delivery {
        offset: 3,
        body: vec![1, 2],
        properties: None,
    }))
    .unwrap();
    assert!(matches!(
        c.record_recv_outcome(RecvOutcome::Closed),
        Err(SessionError::StreamClosed)
    ));
    assert_eq!(c.message_body().unwrap(), vec![1, 2]);
    match c.record_recv_outcome(RecvOutcome::Failed(String::from("io"))) {
        Err(SessionError::Broker(m)) => assert_eq!(m, "io"),
        other => panic!("unexpected outcome: {:?}", other),
    }
}

#[test]
fn delivery_slot_is_overwritten_by_each_receive() {
    let mut reg: HandleRegistry<u32> = HandleRegistry::new();
    let h = insert_environment(&mut reg, 0);
    let mut c = ConsumerSession::new();
    c.begin_build(&reg, h).unwrap();
    c.complete_build();
    c.record_recv_outcome(RecvOutcome::Arrived(Delivery {
        offset: 1,
        body: vec![1],
        properties: None,
    }))
    .unwrap();
    c.record_recv_outcome(RecvOutcome::Arrived(Delivery {
        offset: 2,
        body: vec![2],
        properties: None,
    }))
    .unwrap();
    assert_eq!(c.message_body().unwrap(), vec![2]);
    assert_eq!(c.offset().unwrap(), 2u64.to_le_bytes().to_vec());
}

#[test]
fn offset_encoding_matches_little_endian() {
    let mut reg: HandleRegistry<u32> = HandleRegistry::new();
    let h = insert_environment(&mut reg, 0);
    let mut c = ConsumerSession::new();
    c.begin_build(&reg, h).unwrap();
    c.complete_build();
    c.record_recv_outcome(RecvOutcome::Arrived(Delivery {
        offset: 0x0123_4567_89ab_cdef,
        body: vec![],
        properties: None,
    }))
    .unwrap();
    let blob = c.offset().unwrap();
    assert_eq!(blob, 0x0123_4567_89ab_cdefu64.to_le_bytes().to_vec());
    assert_eq!(c.prepare_store_offset(&blob).unwrap(), 0x0123_4567_89ab_cdef);
}

#[test]
fn store_offset_rejects_wrong_blob_length() {
    let mut c = ConsumerSession::new();
    assert!(matches!(
        c.prepare_store_offset(&vec![0u8; 8]),
        Err(SessionError::NoConsumer)
    ));
    let mut reg: HandleRegistry<u32> = HandleRegistry::new();
    let h = insert_environment(&mut reg, 0);
    c.begin_build(&reg, h).unwrap();
    c.complete_build();
    assert!(matches!(c.prepare_store_offset(&vec![0u8; 7]), Err(SessionError::CodecError)));
    assert_eq!(c.prepare_store_offset(&vec![0u8; 8]).unwrap(), 0);
}

#[test]
fn char_property_fails_fast_on_read() {
    let mut reg: HandleRegistry<u32> = HandleRegistry::new();
    let h = insert_environment(&mut reg, 0);
    let mut c = ConsumerSession::new();
    c.begin_build(&reg, h).unwrap();
    c.complete_build();
    c.record_recv_outcome(RecvOutcome::Arrived(Delivery {
        offset: 0,
        body: vec![],
        properties: Some(vec![(String::from("c"), PropertyValue::Char('x'))]),
    }))
    .unwrap();
    assert!(matches!(c.application_property("c"), Err(SessionError::CodecError)));
}

#[test]
fn consumer_set_name_fails_after_build() {
    let mut reg: HandleRegistry<u32> = HandleRegistry::new();
    let h = insert_environment(&mut reg, 0);
    let mut reg: HandleRegistry<u32> = HandleRegistry::new();
    let h = insert_environment(&mut reg, 0);
    let mut c = ConsumerSession::new();
    c.begin_build(&reg, h).unwrap();
    assert!(matches!(c.set_name(String::from("n")), Err(SessionError::SpentBuilder)));
}

#[test]
fn empty_statuses_render_empty() {
    let p = ProducerSession::new();
    assert_eq!(p.statuses(), "");
}
