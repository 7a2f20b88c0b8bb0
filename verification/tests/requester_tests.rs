use bruss_router::requester::ParallelRequester;
use bruss_router::text::find;
use bruss_router::tt::{TTError, TTTrip};
use std::collections::VecDeque;

fn trip(id: &str) -> TTTrip {
    TTTrip {
        id: id.to_string(),
        route: 1,
        delay: 0,
        last_stop: None,
        next_stop: None,
        bus_id: None,
        last_event: None,
    }
}

/// An upstream that answers when it is told to, and records how many requests
/// it holds at once.
struct Upstream {
    in_flight: VecDeque<String>,
    most_at_once: usize,
    calls: usize,
}

impl Upstream {
    fn new() -> Self {
        Upstream { in_flight: VecDeque::new(), most_at_once: 0, calls: 0 }
    }

    fn accept(&mut self, id: String) {
        self.in_flight.push_back(id);
        self.calls += 1;
        self.most_at_once = self.most_at_once.max(self.in_flight.len());
    }

    fn answer_oldest(&mut self) -> Option<String> {
        self.in_flight.pop_front()
    }

    fn answer_newest(&mut self) -> Option<String> {
        self.in_flight.pop_back()
    }
}

/// Runs everything that is registered, starting as many requests as the
/// requester lets start, and answering one at a time.
fn drive<F>(requester: &mut ParallelRequester<TTTrip>, upstream: &mut Upstream, mut outcome: F)
where
    F: FnMut(&str) -> Result<TTTrip, TTError>,
{
    let mut turn = 0;
    while !requester.is_drained() {
        while let Some(id) = requester.start_next() {
            upstream.accept(id);
            assert_eq!(requester.in_flight(), upstream.in_flight.len());
        }
        let id = if turn % 2 == 0 { upstream.answer_oldest() } else { upstream.answer_newest() };
        let id = id.expect("a requester that is not drained has a request in flight");
        assert!(requester.finish(&id, outcome(&id)));
        turn += 1;
    }
}

#[test]
fn never_more_than_two_in_flight_of_ten() {
    let mut requester = ParallelRequester::<TTTrip>::new(2);
    for i in 0..10 {
        requester.request_one(format!("T{}", i));
    }
    assert_eq!(requester.pending(), 10);
    assert_eq!(requester.in_flight(), 0);
    let mut upstream = Upstream::new();
    drive(&mut requester, &mut upstream, |id| Ok(trip(id)));
    assert_eq!(upstream.most_at_once, 2);
    assert_eq!(upstream.calls, 10);
    let results = requester.gather().unwrap().unwrap();
    assert_eq!(results.len(), 10);
    let mut ids: Vec<String> = results.into_iter().map(|t| t.id).collect();
    ids.sort();
    let mut expected: Vec<String> = (0..10).map(|i| format!("T{}", i)).collect();
    expected.sort();
    assert_eq!(ids, expected);
}

#[test]
fn start_next_stops_at_the_ceiling() {
    let mut requester = ParallelRequester::<TTTrip>::new(3);
    for i in 0..5 {
        requester.request_one(format!("T{}", i));
    }
    assert_eq!(requester.start_next().as_deref(), Some("T0"));
    assert_eq!(requester.start_next().as_deref(), Some("T1"));
    assert_eq!(requester.start_next().as_deref(), Some("T2"));
    assert_eq!(requester.start_next(), None);
    assert_eq!(requester.in_flight(), 3);
    assert_eq!(requester.pending(), 2);
    assert!(requester.finish("T1", Ok(trip("T1"))));
    assert_eq!(requester.in_flight(), 2);
    assert_eq!(requester.start_next().as_deref(), Some("T3"));
    assert_eq!(requester.start_next(), None);
}

#[test]
fn test_parallel_trip_request() {
    let trips = "0004306762025061320250909,0004342592025061320250909,0004309252025061320250909,0004312962025061320250909,0004348722025061320250909,0004338562025061320250909,0004342802025061320250909,0004319492025061320250909,0004331832025061320250909,0004325652025061320250909,0004329802025061320250909,0004317832025061320250909,0004317472025061320250909,0004328402025061320250909,0004308782025061320250909,0004338742025061320250909,0004329952025061320250909,0004342602025061320250909,0004331972025061320250909,0004319102025061320250909,0004331342025061320250909,0004328972025061320250909,0004346802025061320250909,0004342982025061320250909,0004342812025061320250909,0004320702025061320250909,0004330292025061320250909,0004307602025061320250909,0004317602025061320250909,0004338432025061320250909,0004331212025061320250909,0004331452025061320250909,0004340642025061320250909,0004329292025061320250909,0004325662025061320250909,0004306772025061320250909,0004342612025061320250909,0004309262025061320250909,0004347642025061320250909,0004312972025061320250909,0004338572025061320250909,0004319332025061320250909,0004316472025061320250909,0004342822025061320250909,0004317842025061320250909,0004329692025061320250909,0004328412025061320250909,0004317482025061320250909,0004348282025061320250909,0004313452025061320250909,0004329962025061320250909,0004342622025061320250909,0004331982025061320250909,0004331602025061320250909,0004330882025061320250909,0004325672025061320250909,0004328982025061320250909,0004342832025061320250909,0004321072025061320250909,0004330212025061320250909,0004348742025061320250909,0004307612025061320250909,0004317612025061320250909,0004331722025061320250909";
    let trips: Vec<String> = trips.split(',').map(|s| s.to_string()).collect();

    for i in 0..10 {
        let mut preq = ParallelRequester::<TTTrip>::new(1 << i);
        for t in trips.iter() {
            preq.request_one(t.clone());
        }
        let mut upstream = Upstream::new();
        drive(&mut preq, &mut upstream, |id| Ok(trip(id)));
        assert!(upstream.most_at_once <= 1 << i);
        assert_eq!(upstream.most_at_once, (1usize << i).min(trips.len()));
        let output = preq.gather().unwrap().unwrap();
        assert!(trips.len() == output.len());
    }
}

#[test]
fn gather_waits_for_outstanding_work() {
    let mut requester = ParallelRequester::<TTTrip>::new(1);
    requester.request_one("A".to_string());
    assert!(!requester.is_drained());
    assert!(requester.gather().is_none());

    let mut requester = ParallelRequester::<TTTrip>::new(1);
    requester.request_one("A".to_string());
    assert_eq!(requester.start_next().as_deref(), Some("A"));
    assert!(requester.gather().is_none());
}

#[test]
fn gather_of_nothing_is_an_empty_result() {
    let requester = ParallelRequester::<TTTrip>::new(4);
    assert!(requester.is_drained());
    assert_eq!(requester.gather().unwrap().unwrap().len(), 0);
}

#[test]
fn first_failure_is_returned_and_siblings_still_run() {
    let mut requester = ParallelRequester::<TTTrip>::new(2);
    for id in ["A", "B", "C", "D"] {
        requester.request_one(id.to_string());
    }
    let mut upstream = Upstream::new();
    drive(&mut requester, &mut upstream, |id| match id {
        "B" => Err(TTError::HttpError("B is gone".to_string())),
        "D" => Err(TTError::JsonError("D is garbled".to_string())),
        _ => Ok(trip(id)),
    });
    assert_eq!(upstream.calls, 4);
    match requester.gather().unwrap() {
        Err(TTError::HttpError(m)) => assert_eq!(m, "B is gone"),
        _ => panic!("the first failure is the answer"),
    }
}

#[test]
fn results_come_in_the_order_of_completion() {
    let mut requester = ParallelRequester::<TTTrip>::new(3);
    for id in ["A", "B", "C"] {
        requester.request_one(id.to_string());
    }
    while requester.start_next().is_some() {}
    assert!(requester.finish("C", Ok(trip("C"))));
    assert!(requester.finish("A", Ok(trip("A"))));
    assert!(requester.finish("B", Ok(trip("B"))));
    let ids: Vec<String> = requester.gather().unwrap().unwrap().into_iter().map(|t| t.id).collect();
    assert_eq!(ids, ["C", "A", "B"]);
}

#[test]
fn finish_of_a_request_that_does_not_run_changes_nothing() {
    let mut requester = ParallelRequester::<TTTrip>::new(2);
    requester.request_one("A".to_string());
    assert!(!requester.finish("A", Ok(trip("A"))));
    assert_eq!(requester.pending(), 1);
    assert_eq!(requester.start_next().as_deref(), Some("A"));
    assert!(!requester.finish("B", Err(TTError::HttpError("x".to_string()))));
    assert_eq!(requester.in_flight(), 1);
    assert!(requester.finish("A", Ok(trip("A"))));
    assert!(!requester.finish("A", Ok(trip("A"))));
    assert_eq!(requester.gather().unwrap().unwrap().len(), 1);
}

#[test]
fn the_same_id_may_be_requested_twice() {
    let mut requester = ParallelRequester::<TTTrip>::new(2);
    requester.request_one("A".to_string());
    requester.request_one("A".to_string());
    assert_eq!(requester.start_next().as_deref(), Some("A"));
    assert_eq!(requester.start_next().as_deref(), Some("A"));
    assert!(requester.finish("A", Ok(trip("A"))));
    assert_eq!(requester.in_flight(), 1);
    assert!(requester.finish("A", Ok(trip("A"))));
    assert_eq!(requester.gather().unwrap().unwrap().len(), 2);
}

#[test]
fn find_gives_the_first_place_or_the_length() {
    let names: Vec<String> = ["a", "b", "a", "c"].iter().map(|s| s.to_string()).collect();
    assert_eq!(find(&names, "a"), 0);
    assert_eq!(find(&names, "b"), 1);
    assert_eq!(find(&names, "c"), 3);
    assert_eq!(find(&names, "d"), 4);
    assert_eq!(find(&Vec::new(), "a"), 0);
}
