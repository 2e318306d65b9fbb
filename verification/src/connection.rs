//! Requests, responses, and what carries them to a management controller.
use vstd::prelude::*;

verus! {

/// A network function: a family of commands, and whether the message that
/// carries it is a request or a response.
#[derive(Debug, Clone, Copy, PartialEq, Eq, Structural)]
pub struct NetFn {
    pub family: u8,
    pub response: bool,
}

impl NetFn {
    /// The network function of a request to the given family.
    pub fn request(family: u8) -> (netfn: NetFn)
        ensures
            netfn == (NetFn { family, response: false }),
    {
        NetFn { family, response: false }
    }

    /// The network function of a response from the given family.
    pub fn response(family: u8) -> (netfn: NetFn)
        ensures
            netfn == (NetFn { family, response: true }),
    {
        NetFn { family, response: true }
    }

    /// Whether a message with this network function answers one with the
    /// network function `request`: same family, and a response.
    pub open spec fn answers(self, request: NetFn) -> bool {
        self.response && self.family == request.family
    }

    /// Whether this is the network function of a response.
    pub fn is_response(&self) -> (b: bool)
        ensures
            b == self.response,
    {
        self.response
    }

    /// Whether this is the network function of a response to `request`.
    pub fn is_response_for(&self, request: &NetFn) -> (b: bool)
        ensures
            b == self.answers(*request),
    {
        self.response && self.family == request.family
    }
}

/// The logical unit that a request addresses.
#[derive(Debug, Clone, Copy, PartialEq, Eq, Structural)]
pub enum LogicalUnit {
    Zero,
    One,
    Two,
    Three,
}

/// A request to a management controller.
#[derive(Debug, Clone, PartialEq, Eq)]
pub struct Request {
    netfn: NetFn,
    lun: LogicalUnit,
    seq: i64,
    data: Vec<u8>,
}

/// The mathematical value of a [`Request`].
pub struct RequestView {
    pub netfn: NetFn,
    pub lun: LogicalUnit,
    pub seq: i64,
    pub data: Seq<u8>,
}

impl View for Request {
    type V = RequestView;

    closed spec fn view(&self) -> RequestView {
        RequestView { netfn: self.netfn, lun: self.lun, seq: self.seq, data: self.data@ }
    }
}

impl Request {
    /// A request made of its parts.
    pub fn new(netfn: NetFn, lun: LogicalUnit, seq: i64, data: Vec<u8>) -> (request: Request)
        ensures
            request@ == (RequestView { netfn, lun, seq, data: data@ }),
    {
        Request { netfn, lun, seq, data }
    }

    /// The network function of the request.
    pub fn netfn(&self) -> (netfn: &NetFn)
        ensures
            *netfn == self@.netfn,
    {
        &self.netfn
    }

    /// The logical unit that the request addresses.
    pub fn lun(&self) -> (lun: LogicalUnit)
        ensures
            lun == self@.lun,
    {
        self.lun
    }

    /// The sequence value of the request.
    pub fn seq(&self) -> (seq: i64)
        ensures
            seq == self@.seq,
    {
        self.seq
    }

    /// The data of the request.
    pub fn data(&self) -> (data: &[u8])
        ensures
            data@ == self@.data,
    {
        self.data.as_slice()
    }
}

/// A response of a management controller.
#[derive(Debug, Clone, PartialEq, Eq)]
pub struct Response {
    netfn: NetFn,
    seq: i64,
    data: Vec<u8>,
}

/// The mathematical value of a [`Response`].
pub struct ResponseView {
    pub netfn: NetFn,
    pub seq: i64,
    pub data: Seq<u8>,
}

impl View for Response {
    type V = ResponseView;

    closed spec fn view(&self) -> ResponseView {
        ResponseView { netfn: self.netfn, seq: self.seq, data: self.data@ }
    }
}

impl Response {
    /// A response made of its parts.
    pub fn new(netfn: NetFn, seq: i64, data: Vec<u8>) -> (response: Response)
        ensures
            response@ == (ResponseView { netfn, seq, data: data@ }),
    {
        Response { netfn, seq, data }
    }

    /// The network function of the response.
    pub fn netfn(&self) -> (netfn: &NetFn)
        ensures
            *netfn == self@.netfn,
    {
        &self.netfn
    }

    /// The sequence value that the response echoes.
    pub fn seq(&self) -> (seq: i64)
        ensures
            seq == self@.seq,
    {
        self.seq
    }

    /// The data of the response.
    pub fn data(&self) -> (data: &[u8])
        ensures
            data@ == self@.data,
    {
        self.data.as_slice()
    }
}

/// A transport to a management controller: it sends one request and waits
/// for the response to it. Nothing is known of what comes back.
pub trait IpmiConnection {
    /// Why an exchange failed.
    type Error;

    /// Sends `request` and hands out what came back.
    fn send_recv(&mut self, request: &Request) -> Result<Response, Self::Error>;
}

/// A typed result that a matched response decodes to.
pub trait ParsedResponse: Sized {
    /// Why a response does not decode.
    type Error;

    /// Decodes a response.
    fn parse(response: Response) -> Result<Self, Self::Error>;
}

} // verus!
