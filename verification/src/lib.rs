//! A client of the IPMI management protocol: requests and responses in
//! sequence, and the session security of RMCP+.
pub mod connection;
pub mod rmcp;
pub mod storage;

use connection::{
    IpmiConnection, LogicalUnit, NetFn, ParsedResponse, Request, RequestView, Response,
};
use vstd::prelude::*;
use vstd::slice::slice_to_vec;

verus! {

/// A client on top of a connection. It numbers its requests: the counter
/// starts at zero, and each request that goes out takes the next value.
pub struct Ipmi<T> {
    inner: T,
    counter: i64,
}

/// Why a request did not yield a typed result. `C` is the error of the
/// connection, `P` that of decoding.
#[derive(Clone, Debug, PartialEq)]
pub enum IpmiError<C, P> {
    /// The network function handed in is that of a response.
    NetFnIsResponse(NetFn),
    /// The response echoes another sequence value (second) than the
    /// request's (first).
    IncorrectResponseSeq(i64, i64),
    /// The network function of the response (second) does not answer that
    /// of the request (first).
    UnexpectedResponse(NetFn, NetFn),
    /// The matched response does not decode.
    ResponseParseFailed(P),
    /// The connection failed.
    Connection(C),
}

impl<T> Ipmi<T> {
    /// The connection underneath.
    pub closed spec fn inner(&self) -> T {
        self.inner
    }

    /// The sequence value that the next request takes.
    pub closed spec fn counter(&self) -> i64 {
        self.counter
    }

    /// A client on `inner` that has sent nothing yet.
    pub fn new(inner: T) -> (ipmi: Self)
        ensures
            ipmi.inner() == inner,
            ipmi.counter() == 0,
    {
        Self { inner, counter: 0 }
    }

    /// The sequence value that the next request takes.
    pub fn next_seq(&self) -> (seq: i64)
        ensures
            seq == self.counter(),
    {
        self.counter
    }

    /// The request that goes out for `netfn` and `data`: to logical unit
    /// one, with the next sequence value, which is thereby used. There is
    /// none where `netfn` is the network function of a response; the counter
    /// then stays.
    pub fn next_request(&mut self, netfn: NetFn, data: &[u8]) -> (request: Option<Request>)
        requires
            !netfn.response ==> old(self).counter() < i64::MAX,
        ensures
            final(self).inner() == old(self).inner(),
            netfn.response ==> request is None && final(self).counter() == old(self).counter(),
            !netfn.response ==> request is Some && final(self).counter() == old(self).counter() + 1
                && request->0@ == (RequestView {
                netfn,
                lun: LogicalUnit::One,
                seq: old(self).counter(),
                data: data@,
            }),
    {
        if netfn.is_response() {
            return None;
        }
        let seq = self.counter;
        self.counter += 1;
        Some(Request::new(netfn, LogicalUnit::One, seq, slice_to_vec(data)))
    }

    /// Holds a response against the request that it should answer: it must
    /// echo the sequence value `seq`, and its network function must answer
    /// `netfn`.
    pub fn match_response<C, P>(netfn: NetFn, seq: i64, response: Response) -> (r: Result<
        Response,
        IpmiError<C, P>,
    >)
        ensures
            response@.seq != seq ==> r == Err::<Response, IpmiError<C, P>>(
                IpmiError::IncorrectResponseSeq(seq, response@.seq),
            ),
            response@.seq == seq && !response@.netfn.answers(netfn) ==> r == Err::<
                Response,
                IpmiError<C, P>,
            >(IpmiError::UnexpectedResponse(netfn, response@.netfn)),
            response@.seq == seq && response@.netfn.answers(netfn) ==> r == Ok::<
                Response,
                IpmiError<C, P>,
            >(response),
    {
        if response.seq() != seq {
            return Err(IpmiError::IncorrectResponseSeq(seq, response.seq()));
        }
        if !response.netfn().is_response_for(&netfn) {
            return Err(IpmiError::UnexpectedResponse(netfn, *response.netfn()));
        }
        Ok(response)
    }
}

impl<T> From<T> for Ipmi<T> {
    fn from(value: T) -> (ipmi: Self) {
        Self::new(value)
    }
}

impl<T> vstd::std_specs::convert::FromSpecImpl<T> for Ipmi<T> {
    open spec fn obeys_from_spec() -> bool {
        true
    }

    closed spec fn from_spec(value: T) -> Self {
        Ipmi { inner: value, counter: 0 }
    }
}

impl<C, P> From<C> for IpmiError<C, P> {
    fn from(value: C) -> (e: Self) {
        Self::Connection(value)
    }
}

impl<C, P> vstd::std_specs::convert::FromSpecImpl<C> for IpmiError<C, P> {
    open spec fn obeys_from_spec() -> bool {
        true
    }

    open spec fn from_spec(value: C) -> Self {
        IpmiError::Connection(value)
    }
}

/// Whether `r` is what the client makes of `outcome`, which the connection
/// gave for a request with network function `netfn` and sequence value
/// `seq`. A failure of the connection is passed on. A response is held
/// against the request, first its sequence value, then its network
/// function. A response that matches is decoded, and `r` is what decoding
/// gave: the typed result, or the failure to decode.
pub open spec fn settles<C, P: ParsedResponse>(
    netfn: NetFn,
    seq: i64,
    outcome: Result<Response, C>,
    r: Result<P, IpmiError<C, P::Error>>,
) -> bool {
    match outcome {
        Err(e) => r == Err::<P, IpmiError<C, P::Error>>(IpmiError::Connection(e)),
        Ok(response) => if response@.seq != seq {
            r == Err::<P, IpmiError<C, P::Error>>(
                IpmiError::IncorrectResponseSeq(seq, response@.seq),
            )
        } else if !response@.netfn.answers(netfn) {
            r == Err::<P, IpmiError<C, P::Error>>(
                IpmiError::UnexpectedResponse(netfn, response@.netfn),
            )
        } else {
            match r {
                Ok(parsed) => call_ensures(P::parse, (response,), Ok::<P, P::Error>(parsed)),
                Err(IpmiError::ResponseParseFailed(e)) => call_ensures(
                    P::parse,
                    (response,),
                    Err::<P, P::Error>(e),
                ),
                _ => false,
            }
        },
    }
}

impl<T> Ipmi<T> where T: IpmiConnection {
    /// Sends a request for `netfn` with `data`, and decodes the response
    /// that matches it.
    ///
    /// Where `netfn` is the network function of a response, nothing is sent
    /// and no sequence value is used. Else the next sequence value is used,
    /// the connection is handed the request that [`Ipmi::next_request`]
    /// describes, and the result is what [`settles`] says of the
    /// connection's answer.
    pub fn send_recv<P: ParsedResponse>(&mut self, netfn: NetFn, data: &[u8]) -> (r: Result<
        P,
        IpmiError<T::Error, P::Error>,
    >)
        requires
            !netfn.response ==> old(self).counter() < i64::MAX,
        ensures
            netfn.response ==> final(self).counter() == old(self).counter() && final(self).inner()
                == old(self).inner() && r == Err::<P, IpmiError<T::Error, P::Error>>(
                IpmiError::NetFnIsResponse(netfn),
            ),
            !netfn.response ==> final(self).counter() == old(self).counter() + 1 && exists|
                connection: &mut T,
                request: Request,
                outcome: Result<Response, T::Error>,
            |
                {
                    &&& *connection == old(self).inner()
                    &&& *final(connection) == final(self).inner()
                    &&& request@ == (RequestView {
                        netfn,
                        lun: LogicalUnit::One,
                        seq: old(self).counter(),
                        data: data@,
                    })
                    &&& #[trigger] call_ensures(T::send_recv, (connection, &request), outcome)
                    &&& settles::<T::Error, P>(netfn, old(self).counter(), outcome, r)
                },
    {
        let request = match self.next_request(netfn, data) {
            Some(request) => request,
            None => {
                return Err(IpmiError::NetFnIsResponse(netfn));
            },
        };
        let seq = request.seq();
        let send = T::send_recv;
        let outcome = send(&mut self.inner, &request);
        let response = match outcome {
            Ok(response) => response,
            Err(e) => {
                return Err(IpmiError::Connection(e));
            },
        };
        let response = match Self::match_response::<T::Error, P::Error>(netfn, seq, response) {
            Ok(response) => response,
            Err(e) => {
                return Err(e);
            },
        };
        let parse = P::parse;
        match parse(response) {
            Ok(parsed) => Ok(parsed),
            Err(e) => Err(IpmiError::ResponseParseFailed(e)),
        }
    }
}

} // verus!
