//! The client's reading of the replies that a registry can give, each
//! written out as the transport would report it.

use std::time::Duration;
use yoda_taller::swapi::{
    ClientConstructionError, ClientError, Person, Reply, Response, SwapiClient,
};

fn client() -> SwapiClient {
    SwapiClient::new("http://127.0.0.1:9992".to_string(), Duration::from_secs(2))
        .expect("a transport can be built")
}

fn answered(status: u16, count: u32, results: Vec<Person>) -> Reply {
    Reply::Answered { status, envelope: Some(Response { count, results }) }
}

#[test]
fn retrieve_luke_height_from_swapi_mock() {
    let luke = Person { name: "Luke Skywalker".to_string(), height: "172".to_string() };

    let swapi_client = client();
    let reply = answered(200, 1, vec![luke.clone()]);
    let people: Vec<Person> = swapi_client.people_by_name(reply).unwrap();
    assert_eq!(people, vec![luke])
}

#[test]
fn spock_is_not_found_from_swapi_mock() {
    let swapi_client = client();
    let reply = answered(404, 0, vec![]);
    let people: Vec<Person> = swapi_client.people_by_name(reply).unwrap();
    assert!(people.is_empty());
}

#[test]
fn swapi_client_returns_timeout_error_if_timeout() {
    let swapi_client = client();
    let err: ClientError = swapi_client.people_by_name(Reply::TimedOut).unwrap_err();
    assert!(err == ClientError::Timeout);
}

#[test]
fn empty_results_are_not_an_error_whatever_the_status() {
    let swapi_client = client();
    assert_eq!(swapi_client.people_by_name(answered(200, 0, vec![])), Ok(vec![]));
    assert_eq!(swapi_client.people_by_name(answered(404, 0, vec![])), Ok(vec![]));
    assert_eq!(swapi_client.people_by_name(answered(500, 7, vec![])), Ok(vec![]));
}

#[test]
fn results_are_returned_in_order_and_unaltered() {
    let swapi_client = client();
    let people = vec![
        Person { name: " Luke ".to_string(), height: "172".to_string() },
        Person { name: "Luke".to_string(), height: "unknown".to_string() },
        Person { name: " Luke ".to_string(), height: "172".to_string() },
        Person { name: String::new(), height: String::new() },
    ];
    assert_eq!(swapi_client.people_by_name(answered(200, 1, people.clone())), Ok(people));
}

#[test]
fn the_count_is_not_relied_upon() {
    let swapi_client = client();
    let yoda = Person { name: "Yoda".to_string(), height: "66".to_string() };
    assert_eq!(swapi_client.people_by_name(answered(200, 0, vec![yoda.clone()])), Ok(vec![yoda]));
}

#[test]
fn a_failed_exchange_is_a_transport_error() {
    assert_eq!(client().people_by_name(Reply::Failed), Err(ClientError::Transport));
}

#[test]
fn an_undecodable_body_is_a_decode_error_under_a_success_status() {
    let swapi_client = client();
    for status in [200u16, 201, 204, 299] {
        let reply = Reply::Answered { status, envelope: None };
        assert_eq!(swapi_client.people_by_name(reply), Err(ClientError::Decode));
    }
}

#[test]
fn an_undecodable_body_is_a_transport_error_under_any_other_status() {
    let swapi_client = client();
    for status in [0u16, 100, 199, 300, 301, 404, 500, 503, 65535] {
        let reply = Reply::Answered { status, envelope: None };
        assert_eq!(swapi_client.people_by_name(reply), Err(ClientError::Transport));
    }
}

#[test]
fn a_zero_timeout_is_refused() {
    for timeout in [Duration::ZERO, Duration::from_secs(0), Duration::new(0, 0)] {
        let made = SwapiClient::new("http://127.0.0.1:9992".to_string(), timeout);
        assert!(matches!(made, Err(ClientConstructionError::InvalidTimeout)));
    }
}

#[test]
fn any_positive_timeout_is_accepted() {
    let timeouts: [Duration; 5] = [
        Duration::from_nanos(1),
        Duration::from_micros(500),
        Duration::from_millis(1),
        Duration::from_secs(2),
        Duration::MAX,
    ];
    for timeout in timeouts {
        let made = SwapiClient::new("http://127.0.0.1:9992".to_string(), timeout);
        let client = made.expect("a transport can be built");
        assert_eq!(client.base_url(), "http://127.0.0.1:9992");
    }
}

#[test]
fn an_error_that_is_no_timeout_is_reported_as_failed() {
    let error = reqwest::Client::builder().user_agent("two\nlines").build().unwrap_err();
    assert!(!error.is_timeout());
    assert_eq!(Reply::from_error(&error), Reply::Failed);
    assert_eq!(client().people_by_name(Reply::from_error(&error)), Err(ClientError::Transport));
}

#[test]
fn the_base_url_is_not_checked_at_construction() {
    let made = SwapiClient::new("not a url".to_string(), Duration::from_secs(2));
    assert_eq!(made.expect("a transport can be built").base_url(), "not a url");
}

#[test]
fn a_client_is_made_from_a_built_transport() {
    let built = reqwest::Client::builder().build();
    assert!(built.is_ok());
    let made = SwapiClient::with_transport("http://registry".to_string(), built);
    assert_eq!(made.expect("the transport was built").base_url(), "http://registry");
}

#[test]
fn no_client_is_made_without_a_transport() {
    let built = reqwest::Client::builder().user_agent("two\nlines").build();
    assert!(built.is_err());
    let made = SwapiClient::with_transport("http://registry".to_string(), built);
    assert!(matches!(made, Err(ClientConstructionError::TransportUnavailable)));
}

#[test]
fn a_clone_is_the_same_client() {
    let original = client();
    let cloned = original.clone();
    assert_eq!(cloned.base_url(), original.base_url());
    assert_eq!(cloned.search_url("Yoda"), original.search_url("Yoda"));
    assert_eq!(cloned.search_url("Yoda"), "http://127.0.0.1:9992/api/people/?search=Yoda");
}
