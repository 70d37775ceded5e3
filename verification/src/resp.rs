//! The envelope of an answer over HTTP: either a code with data, or a
//! message that says what went wrong.

use vstd::prelude::*;
use vstd::std_specs::convert::FromSpecImpl;

verus! {

/// An answer that carries data. The code `0` stands for success.
pub struct Resp<T> {
    pub code: i32,
    pub data: T,
}

impl<T> From<T> for Resp<T> {
    /// The successful answer that carries `data`.
    fn from(data: T) -> (resp: Resp<T>) {
        Resp { code: 0, data }
    }
}

impl<T> FromSpecImpl<T> for Resp<T> {
    open spec fn obeys_from_spec() -> bool {
        true
    }

    open spec fn from_spec(data: T) -> Resp<T> {
        Resp { code: 0, data }
    }
}

/// An answer that says what went wrong.
pub struct ErrResp {
    pub msg: String,
}

impl ErrResp {
    /// The answer with the message `msg`.
    pub fn new(msg: &str) -> (resp: ErrResp)
        ensures
            resp.msg@ == msg@,
    {
        ErrResp { msg: msg.to_owned() }
    }
}

impl From<&str> for ErrResp {
    /// The answer with the message `msg`.
    fn from(msg: &str) -> (resp: ErrResp) {
        ErrResp::new(msg)
    }
}

impl FromSpecImpl<&str> for ErrResp {
    /// Nothing is said of `from` through `==`: a text is known by its
    /// characters only. See [`ErrResp::new`].
    open spec fn obeys_from_spec() -> bool {
        false
    }

    open spec fn from_spec(msg: &str) -> ErrResp {
        arbitrary()
    }
}

/// Either of the two answers.
pub enum ErrOr<T> {
    Failure(ErrResp),
    Success(Resp<T>),
}

impl<T> ErrOr<T> {
    /// The successful answer that carries `data`.
    pub fn ok(data: T) -> (answer: ErrOr<T>)
        ensures
            answer == ErrOr::Success(Resp { code: 0, data }),
    {
        ErrOr::Success(Resp::from(data))
    }

    /// The answer that says `msg`.
    pub fn err(msg: &str) -> (answer: ErrOr<T>)
        ensures
            answer matches ErrOr::Failure(resp) && resp.msg@ == msg@,
    {
        ErrOr::Failure(ErrResp::new(msg))
    }
}

} // verus!
