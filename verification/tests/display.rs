use promg::prometheus::Metric;

fn metric(name: &str, labels: &[(&str, &str)]) -> Metric {
    Metric {
        name: name.to_owned(),
        labels: labels.iter().map(|(k, v)| (k.to_string(), v.to_string())).collect(),
    }
}

#[test]
fn display_without_labels_is_the_name() {
    let m = metric("up", &[]);
    assert_eq!(m.display(), "up");
}

#[test]
fn display_with_only_job_label_is_the_name() {
    let m = metric("up", &[("job", "node")]);
    assert_eq!(m.display(), "up");
}

#[test]
fn display_with_two_labels_keeps_stored_order() {
    let m = metric("name", &[("a", "1"), ("b", "2"), ("job", "x")]);
    assert_eq!(m.display(), "name{a=1b=2}");
}

#[test]
fn display_with_two_labels_reversed_order() {
    let m = metric("name", &[("job", "x"), ("b", "2"), ("a", "1")]);
    assert_eq!(m.display(), "name{b=2a=1}");
}

#[test]
fn display_keeps_label_values_verbatim() {
    let m = metric("http_requests_total", &[("code", "200"), ("handler", "/api")]);
    assert_eq!(m.display(), "http_requests_total{code=200handler=/api}");
}
