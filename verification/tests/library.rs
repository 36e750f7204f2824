use vector::ack::{BatchChannel, BatchStatus};
use vector::event::Event;
use vector::config::Config;
use vector::databend::{gen_table, response_to_map, DatabendHttpResponse};
use vector::sqs::{default_poll_secs, default_true, default_visibility_timeout_secs, AwsSqsConfig};
use vector::topology::Topology;

const CHAIN: &str = r#"
    [sources.in]
    type = "tcp"
    address = "127.0.0.1:1235"

    [transforms.sampler]
    type = "sampler"
    inputs = ["in"]
    rate = 10
    pass_list = ["error"]

    [sinks.out]
    type = "tcp"
    inputs = ["sampler"]
    address = "127.0.0.1:9999"
"#;

#[test]
fn equivalent_shapes_build_identical_graphs() {
    let inline = r#"
        [sources]
        in = {type = "tcp", address = "127.0.0.1:1235"}

        [transforms]
        sampler = {type = "sampler", inputs = ["in"], rate = 10, pass_list = ["error"]}

        [sinks]
        out = {type = "tcp", inputs = ["sampler"], address = "127.0.0.1:9999"}
    "#;
    let a = Config::load(CHAIN).unwrap();
    let b = Config::load(inline).unwrap();
    assert_eq!(a.sources.len(), b.sources.len());
    assert_eq!(a.transforms.len(), b.transforms.len());
    assert_eq!(a.sinks.len(), b.sinks.len());
    for (x, y) in a.sources.iter().zip(b.sources.iter()) {
        assert_eq!(x.name, y.name);
        assert_eq!(x.inputs, y.inputs);
    }
    for (x, y) in a.transforms.iter().zip(b.transforms.iter()) {
        assert_eq!(x.name, y.name);
        assert_eq!(x.inputs, y.inputs);
    }
    for (x, y) in a.sinks.iter().zip(b.sinks.iter()) {
        assert_eq!(x.name, y.name);
        assert_eq!(x.inputs, y.inputs);
    }
    let (ta, wa) = Topology::build(a).unwrap();
    let (tb, wb) = Topology::build(b).unwrap();
    assert_eq!(wa, wb);
    assert_eq!(ta.order, tb.order);
}

#[test]
fn aws_sqs_descriptor_reads_identically_in_both_shapes() {
    let url = "https://sqs.us-east-2.amazonaws.com/123456789012/MyQueue";
    let header = format!(
        "[sources.q]\ntype = \"aws_sqs\"\nqueue_url = \"{}\"\npoll_secs = 10\nvisibility_timeout_secs = 120\ndelete_message = false\n[sinks.out]\ntype = \"tcp\"\ninputs = [\"q\"]\naddress = \"127.0.0.1:9999\"",
        url
    );
    let inline = format!(
        "[sources]\nq = {{type = \"aws_sqs\", queue_url = \"{}\", poll_secs = 10, visibility_timeout_secs = 120, delete_message = false}}\n[sinks]\nout = {{type = \"tcp\", inputs = [\"q\"], address = \"127.0.0.1:9999\"}}",
        url
    );
    let a = Config::load(&header).unwrap();
    let b = Config::load(&inline).unwrap();
    match (&a.sources[0].settings, &b.sources[0].settings) {
        (
            vector::config::Settings::AwsSqs {
                queue_url: qa,
                poll_secs: pa,
                visibility_timeout_secs: va,
                delete_message: da,
            },
            vector::config::Settings::AwsSqs {
                queue_url: qb,
                poll_secs: pb,
                visibility_timeout_secs: vb,
                delete_message: db,
            },
        ) => {
            assert_eq!(qa, qb);
            assert_eq!(pa, pb);
            assert_eq!(va, vb);
            assert_eq!(da, db);
            // equal descriptors parameterize the polling source identically
            let c1 = AwsSqsConfig::from_descriptor(qa.clone(), *pa, *va, *da);
            let c2 = AwsSqsConfig::from_descriptor(qb.clone(), *pb, *vb, *db);
            assert_eq!(c1.queue_url, c2.queue_url);
            assert_eq!(c1.queue_url, url);
            assert_eq!(c1.poll_secs, c2.poll_secs);
            assert_eq!(c1.poll_secs, 10);
            assert_eq!(c1.visibility_timeout_secs, c2.visibility_timeout_secs);
            assert_eq!(c1.visibility_timeout_secs, 120);
            assert_eq!(c1.delete_message, c2.delete_message);
            assert!(!c1.delete_message);
        },
        _ => panic!("expected aws_sqs settings in both shapes"),
    }
    let (ta, wa) = Topology::build(a).unwrap();
    let (tb, wb) = Topology::build(b).unwrap();
    assert_eq!(wa, wb);
    assert_eq!(ta.order, tb.order);
}

#[test]
fn aws_sqs_descriptor_defaults_apply_when_unset() {
    let c = Config::load(
        "[sources.q]\ntype = \"aws_sqs\"\nqueue_url = \"https://example.com/queue\"\n[sinks.out]\ntype = \"tcp\"\ninputs = [\"q\"]\naddress = \"127.0.0.1:9999\"",
    )
    .unwrap();
    match &c.sources[0].settings {
        vector::config::Settings::AwsSqs {
            queue_url,
            poll_secs,
            visibility_timeout_secs,
            delete_message,
        } => {
            let cfg = AwsSqsConfig::from_descriptor(
                queue_url.clone(),
                *poll_secs,
                *visibility_timeout_secs,
                *delete_message,
            );
            assert_eq!(cfg.poll_secs, 15);
            assert_eq!(cfg.visibility_timeout_secs, 300);
            assert!(cfg.delete_message);
        },
        _ => panic!("expected aws_sqs settings"),
    }
}

#[test]
fn execution_order_respects_dependencies() {
    let c = Config::load(CHAIN).unwrap();
    let (t, warnings) = Topology::build(c).unwrap();
    assert!(warnings.is_empty());
    // nodes: 0 = in, 1 = sampler, 2 = out; edges 0 -> 1 -> 2
    assert_eq!(t.order, vec![0, 1, 2]);
    assert_eq!(t.downstream(0), vec![1]);
    assert_eq!(t.downstream(1), vec![2]);
    assert_eq!(t.downstream(2), Vec::<usize>::new());
}

#[test]
fn fan_out_lists_every_consumer() {
    let c = Config::load(
        r#"
        [sources.in]
        type = "tcp"
        address = "127.0.0.1:1235"

        [sinks.one]
        type = "tcp"
        inputs = ["in"]
        address = "127.0.0.1:9998"

        [sinks.two]
        type = "tcp"
        inputs = ["in"]
        address = "127.0.0.1:9999"
    "#,
    )
    .unwrap();
    let (t, _) = Topology::build(c).unwrap();
    // nodes: 0 = in, 1 = one, 2 = two
    assert_eq!(t.downstream(0), vec![1, 2]);
}

#[test]
fn invalid_field_shape_is_reported() {
    let err = Config::load(
        r#"
        [sources.in]
        type = "tcp"
        address = 5
    "#,
    )
    .unwrap_err();
    assert_eq!(err, vec!["invalid type for key `sources.in.address`"]);
}

#[test]
fn unknown_namespace_is_reported() {
    let err = Config::load("[widgets.x]\ntype = \"tcp\"").unwrap_err();
    assert_eq!(err, vec!["unknown namespace `widgets` at line 1"]);
}

#[test]
fn missing_inputs_field_is_reported() {
    let err = Config::load(
        r#"
        [sinks.out]
        type = "tcp"
        address = "127.0.0.1:9999"
    "#,
    )
    .unwrap_err();
    assert_eq!(err, vec!["missing field `inputs` for key `sinks.out`"]);
}

#[test]
fn duplicate_binding_is_rejected() {
    let err = Config::load(
        "[sources.in]\ntype = \"tcp\"\naddress = \"127.0.0.1:1\"\naddress = \"127.0.0.1:2\"",
    )
    .unwrap_err();
    assert_eq!(err, vec!["duplicate key `address` at line 4"]);
}

#[test]
fn duplicate_component_is_rejected() {
    let err = Config::load(
        "[sources.in]\ntype = \"tcp\"\naddress = \"127.0.0.1:1\"\n[sources.in]\ntype = \"tcp\"",
    )
    .unwrap_err();
    assert_eq!(err, vec!["duplicate key `in` at line 4"]);
}

#[test]
fn single_typo_input_yields_one_error() {
    let err = Config::load(
        r#"
        [sources.in]
        type = "tcp"
        address = "127.0.0.1:1235"

        [transforms.sampler]
        type = "sampler"
        inputs = ["in"]
        rate = 10
        pass_list = []

        [sinks.out]
        type = "tcp"
        inputs = ["typo"]
        address = "127.0.0.1:9999"
    "#,
    )
    .and_then(|c| Topology::build(c).map(|_| ()))
    .unwrap_err();
    assert_eq!(err, vec!["Input \"typo\" for sink \"out\" doesn't exist."]);
}

#[test]
fn report_order_does_not_change_outcome() {
    let mut first = BatchChannel::new_with_receiver(2);
    first.report(BatchStatus::Errored);
    first.report(BatchStatus::Delivered);
    let mut second = BatchChannel::new_with_receiver(2);
    second.report(BatchStatus::Delivered);
    second.report(BatchStatus::Errored);
    assert_eq!(first.try_recv(), second.try_recv());
    assert_eq!(first.try_recv(), None);
    assert_eq!(second.try_recv(), None);
}

#[test]
fn batch_with_errored_report_resolves_errored() {
    let mut ch = BatchChannel::new_with_receiver(3);
    assert_eq!(ch.try_recv(), None);
    ch.report(BatchStatus::Delivered);
    ch.report(BatchStatus::Errored);
    assert_eq!(ch.try_recv(), None);
    ch.report(BatchStatus::Delivered);
    assert_eq!(ch.try_recv(), Some(BatchStatus::Errored));
    assert_eq!(ch.try_recv(), None);
}

#[test]
fn batch_rejected_dominates_delivered() {
    let mut ch = BatchChannel::new_with_receiver(2);
    ch.report(BatchStatus::Rejected);
    ch.report(BatchStatus::Delivered);
    assert_eq!(ch.try_recv(), Some(BatchStatus::Rejected));
}

#[test]
fn batch_all_delivered_resolves_delivered_once() {
    let mut ch = BatchChannel::new_with_receiver(2);
    ch.report(BatchStatus::Delivered);
    assert_eq!(ch.try_recv(), None);
    ch.report(BatchStatus::Delivered);
    assert_eq!(ch.try_recv(), Some(BatchStatus::Delivered));
    assert_eq!(ch.try_recv(), None);
    assert_eq!(ch.try_recv(), None);
}

#[test]
fn batch_with_no_reporters_resolves_immediately() {
    let mut ch = BatchChannel::new_with_receiver(0);
    assert_eq!(ch.try_recv(), Some(BatchStatus::Delivered));
    assert_eq!(ch.try_recv(), None);
}

#[test]
fn abandoned_batch_resolves_errored() {
    let mut ch = BatchChannel::new_with_receiver(2);
    ch.report(BatchStatus::Delivered);
    ch.abandon();
    assert_eq!(ch.try_recv(), Some(BatchStatus::Errored));
    assert_eq!(ch.try_recv(), None);
}

#[test]
fn one_event_chain_delivers_exactly_once() {
    // a source emits one batch of one event through the chain; the sink
    // reports Delivered; the source's receiver sees Delivered exactly once
    let c = Config::load(CHAIN).unwrap();
    let (t, _) = Topology::build(c).unwrap();
    let mut ch = BatchChannel::new_with_receiver(1);
    let event = Event::from_message("raw log line".to_string()).with_batch(0);
    let mut delivered_events = 0;
    for &node in t.order.iter() {
        // the single sink is the last node of the chain; it delivers the
        // event and reports on the batch the event rides with, once
        if t.downstream(node).is_empty() {
            delivered_events += 1;
            assert_eq!(event.batch(), Some(0));
            ch.report(BatchStatus::Delivered);
        }
    }
    assert_eq!(delivered_events, 1);
    assert_eq!(ch.try_recv(), Some(BatchStatus::Delivered));
    assert_eq!(ch.try_recv(), None);
}

#[test]
fn event_fields_shadow_on_insert() {
    let mut e = Event::from_message("raw log line".to_string());
    e.insert("host".to_string(), "example.com".to_string());
    assert_eq!(e.get("message").map(|s| s.as_str()), Some("raw log line"));
    assert_eq!(e.get("host").map(|s| s.as_str()), Some("example.com"));
    assert_eq!(e.get("absent"), None);
    e.insert("host".to_string(), "other.example".to_string());
    assert_eq!(e.get("host").map(|s| s.as_str()), Some("other.example"));
    assert_eq!(e.batch(), None);
    let tagged = e.with_batch(7);
    assert_eq!(tagged.batch(), Some(7));
}

#[test]
fn gen_table_lowercases_random_part() {
    let t = gen_table("AbC123xYz9");
    assert_eq!(t, "test_abc123xyz9");
}

#[test]
fn response_rows_pair_with_schema() {
    let resp = DatabendHttpResponse {
        schema: vec!["host".to_string(), "timestamp".to_string(), "message".to_string()],
        data: vec![
            vec!["example.com".to_string(), "now".to_string(), "raw log line".to_string()],
        ],
    };
    let rows = response_to_map(&resp);
    assert_eq!(rows.len(), 1);
    assert_eq!(
        rows[0],
        vec![
            ("host".to_string(), "example.com".to_string()),
            ("timestamp".to_string(), "now".to_string()),
            ("message".to_string(), "raw log line".to_string()),
        ]
    );
}

#[test]
fn sqs_defaults_match_documentation() {
    assert_eq!(default_poll_secs(), 15);
    assert_eq!(default_visibility_timeout_secs(), 300);
    assert!(default_true());
    let c = AwsSqsConfig::default();
    assert_eq!(c.poll_secs, 15);
    assert_eq!(c.visibility_timeout_secs, 300);
    assert!(c.delete_message);
    assert_eq!(c.concurrency(8), 8);
    let with_count = AwsSqsConfig { client_concurrency: Some(3), ..AwsSqsConfig::default() };
    assert_eq!(with_count.concurrency(8), 3);
    assert!(c.can_acknowledge());
}
