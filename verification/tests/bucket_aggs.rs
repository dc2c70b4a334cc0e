use graylog_to_grafana::grafana::{PanelBucketAgg, PanelTarget};

#[test]
fn panel_bucket_agg_new_date_histogram_with_fake_interval() {
    let bucket = PanelBucketAgg::new_date_histogram(Some("".to_string()), Some(true));

    assert_eq!(Some(true), bucket.fake);
    assert_eq!(Some("".to_string()), bucket.settings.interval);
}

#[test]
fn panel_bucket_agg_new_date_histogram_without_fake_interval() {
    let bucket = PanelBucketAgg::new_date_histogram(None, None);

    assert_eq!(None, bucket.fake);
    assert_eq!(None, bucket.settings.interval);
}

#[test]
fn date_histogram_has_fixed_identity() {
    let bucket = PanelBucketAgg::new_date_histogram(Some("1d".to_string()), None);

    assert_eq!("date_histogram", bucket.kind);
    assert_eq!("2", bucket.id);
    assert_eq!("timestamp", bucket.field);
    assert_eq!(Some("1d".to_string()), bucket.settings.interval);
    assert_eq!(None, bucket.settings.order);
    assert_eq!(None, bucket.settings.size);
    assert_eq!(None, bucket.settings.order_by);
    assert_eq!(0, bucket.settings.min_doc_count);
    assert_eq!(0, bucket.settings.trim_edges);
}

#[test]
fn terms_keeps_limit_in_min_doc_count() {
    let bucket = PanelBucketAgg::new_terms("source", Some("asc".to_string()), 12);

    assert_eq!("terms", bucket.kind);
    assert_eq!("1", bucket.id);
    assert_eq!("source", bucket.field);
    assert_eq!(None, bucket.fake);
    assert_eq!(None, bucket.settings.interval);
    assert_eq!(Some("asc".to_string()), bucket.settings.order);
    assert_eq!(Some("0".to_string()), bucket.settings.size);
    assert_eq!(Some("_term".to_string()), bucket.settings.order_by);
    assert_eq!(12, bucket.settings.min_doc_count);
    assert_eq!(0, bucket.settings.trim_edges);
}

#[test]
fn terms_and_date_histogram_ids_differ() {
    let terms = PanelBucketAgg::new_terms("f", None, 1);
    let histogram = PanelBucketAgg::new_date_histogram(None, None);

    assert_ne!(terms.id, histogram.id);
}

#[test]
fn metric_path_counts_only_for_count() {
    let counted = PanelTarget::new("q", "1h", "A", "f".to_string(), "count".to_string());
    assert_eq!(1, counted.metrics.len());
    assert_eq!("count", counted.metrics[0].kind);

    for valuetype in ["mean", "total", "max", "", "Count", "count ", "sum"] {
        let summed = PanelTarget::new("q", "1h", "A", "f".to_string(), valuetype.to_string());
        assert_eq!(1, summed.metrics.len());
        assert_eq!("sum", summed.metrics[0].kind);
    }
}

#[test]
fn metric_path_target_shape() {
    let target = PanelTarget::new("level:3", "1d", "B", "took_ms".to_string(), "mean".to_string());

    assert_eq!("B", target.ref_id);
    assert_eq!("level:3", target.query);
    assert_eq!(Some("level:3".to_string()), target.alias);
    assert_eq!("timestamp", target.time_field);
    assert_eq!("1", target.metrics[0].id);
    assert_eq!("took_ms", target.metrics[0].field);
    assert_eq!(1, target.bucket_aggs.len());
    assert_eq!("date_histogram", target.bucket_aggs[0].kind);
    assert_eq!(Some("1d".to_string()), target.bucket_aggs[0].settings.interval);
    assert_eq!(None, target.bucket_aggs[0].fake);
}

#[test]
fn bucket_path_has_terms_then_placeholder_histogram() {
    let cases: Vec<(&str, Option<String>, Option<i64>)> = vec![
        ("source", None, None),
        ("", Some("asc".to_string()), Some(0)),
        ("http_response_code", Some("desc".to_string()), Some(-3)),
        ("f", None, Some(i64::MAX)),
    ];
    for (field, order, limit) in cases {
        let target = PanelTarget::new_buckets("*", field, order, limit);
        assert_eq!(2, target.bucket_aggs.len());
        assert_eq!("terms", target.bucket_aggs[0].kind);
        assert_eq!(None, target.bucket_aggs[0].fake);
        assert_eq!(field, target.bucket_aggs[0].field);
        assert_eq!("date_histogram", target.bucket_aggs[1].kind);
        assert_eq!(Some(true), target.bucket_aggs[1].fake);
        assert_eq!(Some("1h".to_string()), target.bucket_aggs[1].settings.interval);
    }
}

#[test]
fn bucket_path_defaults() {
    let target = PanelTarget::new_buckets("*", "source", None, None);

    assert_eq!("A", target.ref_id);
    assert_eq!("*", target.query);
    assert_eq!(None, target.alias);
    assert_eq!("timestamp", target.time_field);
    assert_eq!(1, target.metrics.len());
    assert_eq!("count", target.metrics[0].kind);
    assert_eq!("1", target.metrics[0].id);
    assert_eq!("select field", target.metrics[0].field);
    assert_eq!(Some("desc".to_string()), target.bucket_aggs[0].settings.order);
    assert_eq!(5, target.bucket_aggs[0].settings.min_doc_count);
}

#[test]
fn bucket_path_given_order_and_limit() {
    let target = PanelTarget::new_buckets("*", "source", Some("asc".to_string()), Some(9));

    assert_eq!(Some("asc".to_string()), target.bucket_aggs[0].settings.order);
    assert_eq!(9, target.bucket_aggs[0].settings.min_doc_count);
}
