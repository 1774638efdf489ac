use readiness_operator::endpoint_slice::endpointslice_is_ready;
use readiness_operator::endpoint_slice::Endpoint;
use readiness_operator::endpoint_slice::EndpointConditions;
use readiness_operator::endpoint_slice::EndpointSlice;

fn slice_with_endpoints(endpoints: Vec<Endpoint>) -> EndpointSlice {
    EndpointSlice {
        namespace: Some(String::from("payments")),
        labels: Vec::new(),
        owner_references: Vec::new(),
        endpoints,
    }
}

fn with_ready(flag: Option<bool>) -> Endpoint {
    Endpoint { conditions: Some(EndpointConditions { ready: flag }) }
}

#[test]
fn one_ready_endpoint_is_ready() {
    let slice = slice_with_endpoints(vec![with_ready(Some(true))]);
    assert!(endpointslice_is_ready(&slice));
}

#[test]
fn no_endpoints_is_not_ready() {
    let slice = slice_with_endpoints(Vec::new());
    assert!(!endpointslice_is_ready(&slice));
}

#[test]
fn absent_conditions_is_not_ready() {
    let slice = slice_with_endpoints(vec![Endpoint { conditions: None }]);
    assert!(!endpointslice_is_ready(&slice));
}

#[test]
fn absent_ready_condition_is_not_ready() {
    let slice = slice_with_endpoints(vec![with_ready(None)]);
    assert!(!endpointslice_is_ready(&slice));
}

#[test]
fn false_ready_condition_is_not_ready() {
    let slice = slice_with_endpoints(vec![with_ready(Some(false))]);
    assert!(!endpointslice_is_ready(&slice));
}

#[test]
fn mix_with_one_ready_is_ready() {
    let slice = slice_with_endpoints(vec![
        with_ready(Some(false)),
        Endpoint { conditions: None },
        with_ready(None),
        with_ready(Some(true)),
    ]);
    assert!(endpointslice_is_ready(&slice));
}

#[test]
fn all_false_conditions_are_not_ready() {
    let slice = slice_with_endpoints(vec![with_ready(Some(false)), with_ready(Some(false))]);
    assert!(!endpointslice_is_ready(&slice));
}
