use ipmi_rs::connection::{
    IpmiConnection, LogicalUnit, NetFn, ParsedResponse, Request, Response,
};
use ipmi_rs::{Ipmi, IpmiError};
use std::cell::RefCell;
use std::rc::Rc;

#[derive(Debug, PartialEq)]
struct Echo(Vec<u8>);

#[derive(Debug, PartialEq, Clone)]
struct Empty;

impl ParsedResponse for Echo {
    type Error = Empty;

    fn parse(response: Response) -> Result<Self, Self::Error> {
        if response.data().is_empty() {
            Err(Empty)
        } else {
            Ok(Echo(response.data().to_vec()))
        }
    }
}

#[derive(Debug, PartialEq, Clone)]
struct Down;

enum Behaviour {
    Answer,
    WrongSeq,
    WrongFamily,
    RequestNetFn,
    NoData,
    Fail,
}

type Seen = Rc<RefCell<Vec<(NetFn, LogicalUnit, i64, Vec<u8>)>>>;

struct Scripted {
    behaviour: Behaviour,
    seen: Seen,
}

impl Scripted {
    fn new(behaviour: Behaviour) -> Self {
        Scripted { behaviour, seen: Seen::default() }
    }
}

impl IpmiConnection for Scripted {
    type Error = Down;

    fn send_recv(&mut self, request: &Request) -> Result<Response, Self::Error> {
        self.seen.borrow_mut().push((
            *request.netfn(),
            request.lun(),
            request.seq(),
            request.data().to_vec(),
        ));
        let family = request.netfn().family;
        let data = request.data().to_vec();
        match self.behaviour {
            Behaviour::Answer => Ok(Response::new(NetFn::response(family), request.seq(), data)),
            Behaviour::WrongSeq => {
                Ok(Response::new(NetFn::response(family), request.seq() + 7, data))
            }
            Behaviour::WrongFamily => {
                Ok(Response::new(NetFn::response(family + 1), request.seq(), data))
            }
            Behaviour::RequestNetFn => {
                Ok(Response::new(NetFn::request(family), request.seq(), data))
            }
            Behaviour::NoData => Ok(Response::new(NetFn::response(family), request.seq(), vec![])),
            Behaviour::Fail => Err(Down),
        }
    }
}

type Outcome = Result<Echo, IpmiError<Down, Empty>>;

const STORAGE: u8 = 0x05;

#[test]
fn net_fns() {
    let request = NetFn::request(STORAGE);
    let response = NetFn::response(STORAGE);
    assert!(!request.is_response());
    assert!(response.is_response());
    assert!(response.is_response_for(&request));
    assert!(response.is_response_for(&response));
    assert!(!request.is_response_for(&request));
    assert!(!request.is_response_for(&response));
    assert!(!NetFn::response(STORAGE + 1).is_response_for(&request));
}

#[test]
fn requests_and_responses_keep_their_parts() {
    let request = Request::new(NetFn::request(STORAGE), LogicalUnit::Two, -3, vec![1, 2]);
    assert_eq!(*request.netfn(), NetFn::request(STORAGE));
    assert_eq!(request.lun(), LogicalUnit::Two);
    assert_eq!(request.seq(), -3);
    assert_eq!(request.data(), &[1, 2]);
    let response = Response::new(NetFn::response(STORAGE), 4, vec![3]);
    assert_eq!(*response.netfn(), NetFn::response(STORAGE));
    assert_eq!(response.seq(), 4);
    assert_eq!(response.data(), &[3]);
}

#[test]
fn send_recv_numbers_requests_from_zero() {
    let mut ipmi = Ipmi::new(Scripted::new(Behaviour::Answer));
    for round in 0..5u8 {
        let outcome: Outcome = ipmi.send_recv(NetFn::request(STORAGE), &[round, 0xAB]);
        assert_eq!(outcome, Ok(Echo(vec![round, 0xAB])));
    }
    assert_eq!(ipmi.next_seq(), 5);
    let request = ipmi.next_request(NetFn::request(STORAGE), &[]).unwrap();
    assert_eq!(request.seq(), 5);
    assert_eq!(ipmi.next_seq(), 6);
    assert_eq!(request.lun(), LogicalUnit::One);
}

#[test]
fn send_recv_hands_the_numbered_request_to_the_connection() {
    let connection = Scripted::new(Behaviour::WrongSeq);
    let seen = connection.seen.clone();
    let mut ipmi = Ipmi::new(connection);
    let netfn = NetFn::request(STORAGE);
    let _: Outcome = ipmi.send_recv(netfn, &[1, 2, 3]);
    let _: Outcome = ipmi.send_recv(NetFn::response(STORAGE), &[9]);
    let _: Outcome = ipmi.send_recv(netfn, &[]);
    assert_eq!(
        *seen.borrow(),
        vec![(netfn, LogicalUnit::One, 0, vec![1, 2, 3]), (netfn, LogicalUnit::One, 1, vec![])]
    );
}

#[test]
fn next_request_is_what_goes_out() {
    let mut ipmi = Ipmi::new(Scripted::new(Behaviour::Answer));
    let netfn = NetFn::request(STORAGE);
    for round in 0..3i64 {
        let request = ipmi.next_request(netfn, &[9, round as u8]).unwrap();
        assert_eq!(request, Request::new(netfn, LogicalUnit::One, round, vec![9, round as u8]));
    }
}

#[test]
fn send_recv_rejects_the_net_fn_of_a_response() {
    let mut ipmi = Ipmi::new(Scripted::new(Behaviour::Answer));
    let netfn = NetFn::response(STORAGE);
    let outcome: Outcome = ipmi.send_recv(netfn, &[1]);
    assert_eq!(outcome, Err(IpmiError::NetFnIsResponse(netfn)));
    assert!(ipmi.next_request(netfn, &[1]).is_none());
    // No sequence value was used.
    assert_eq!(ipmi.next_request(NetFn::request(STORAGE), &[1]).unwrap().seq(), 0);
}

#[test]
fn send_recv_reports_a_wrong_sequence_value() {
    let mut ipmi = Ipmi::new(Scripted::new(Behaviour::WrongSeq));
    let outcome: Outcome = ipmi.send_recv(NetFn::request(STORAGE), &[1]);
    assert_eq!(outcome, Err(IpmiError::IncorrectResponseSeq(0, 7)));
    let outcome: Outcome = ipmi.send_recv(NetFn::request(STORAGE), &[1]);
    assert_eq!(outcome, Err(IpmiError::IncorrectResponseSeq(1, 8)));
}

#[test]
fn send_recv_reports_an_unexpected_response() {
    let request = NetFn::request(STORAGE);
    let mut ipmi = Ipmi::new(Scripted::new(Behaviour::WrongFamily));
    let outcome: Outcome = ipmi.send_recv(request, &[1]);
    assert_eq!(
        outcome,
        Err(IpmiError::UnexpectedResponse(request, NetFn::response(STORAGE + 1)))
    );
    let mut ipmi = Ipmi::new(Scripted::new(Behaviour::RequestNetFn));
    let outcome: Outcome = ipmi.send_recv(request, &[1]);
    assert_eq!(outcome, Err(IpmiError::UnexpectedResponse(request, request)));
}

#[test]
fn send_recv_surfaces_a_parse_failure() {
    let mut ipmi = Ipmi::new(Scripted::new(Behaviour::NoData));
    let outcome: Outcome = ipmi.send_recv(NetFn::request(STORAGE), &[1]);
    assert_eq!(outcome, Err(IpmiError::ResponseParseFailed(Empty)));
}

#[test]
fn send_recv_passes_a_connection_error_on() {
    let mut ipmi = Ipmi::from(Scripted::new(Behaviour::Fail));
    let outcome: Outcome = ipmi.send_recv(NetFn::request(STORAGE), &[1]);
    assert_eq!(outcome, Err(IpmiError::Connection(Down)));
    assert_eq!(outcome, Err(IpmiError::from(Down)));
    // The sequence value is used all the same.
    assert_eq!(ipmi.next_request(NetFn::request(STORAGE), &[]).unwrap().seq(), 1);
}

#[test]
fn match_response_checks_sequence_then_net_fn() {
    let request = NetFn::request(STORAGE);
    let check = |netfn: NetFn, seq: i64| {
        Ipmi::<Scripted>::match_response::<Down, Empty>(
            request,
            3,
            Response::new(netfn, seq, vec![1]),
        )
    };
    assert_eq!(check(NetFn::response(STORAGE), 3), Ok(Response::new(NetFn::response(STORAGE), 3, vec![1])));
    assert_eq!(check(NetFn::response(STORAGE), 4), Err(IpmiError::IncorrectResponseSeq(3, 4)));
    assert_eq!(check(NetFn::request(STORAGE), 4), Err(IpmiError::IncorrectResponseSeq(3, 4)));
    assert_eq!(
        check(NetFn::request(STORAGE), 3),
        Err(IpmiError::UnexpectedResponse(request, NetFn::request(STORAGE)))
    );
}
