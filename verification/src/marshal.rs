//! Marshalling types for the host boundary.
//!
//! A [`Buffer`] models a byte string handed across the boundary, or the
//! explicit absence of one (a null buffer).  A [`Response`] is the fixed-shape
//! envelope every exported operation returns: an error code, an error
//! message, and four output slots.  The embedding layer owns the raw pointer
//! representation; this module fixes the value-level behaviour.
use vstd::prelude::*;

use crate::Error;
use crate::error_code;
use crate::error_message;
use vstd::utf8::encode_utf8;

verus! {

/// A byte string crossing the host boundary, or the absence of one.
///
/// A null buffer denotes the semantic absence of a value, never an empty
/// allocation; an empty byte string is a present buffer of length zero.
/// Whoever receives a present buffer owns it and must release it exactly
/// once; releasing it twice, or not at all, is a caller fault that cannot be
/// detected here.
pub struct Buffer {
    data: Option<Vec<u8>>,
}

impl View for Buffer {
    type V = Option<Seq<u8>>;

    closed spec fn view(&self) -> Option<Seq<u8>> {
        match self.data {
            Option::None => Option::None,
            Option::Some(v) => Option::Some(v@),
        }
    }
}

impl Buffer {
    /// The absent value.
    pub fn null() -> (r: Buffer)
        ensures
            r@ is None,
    {
        Buffer { data: None }
    }

    /// Wraps a byte string for transfer; the result is always present.
    pub fn from_vec(vec: Vec<u8>) -> (r: Buffer)
        ensures
            r@ == Some(vec@),
    {
        Buffer { data: Some(vec) }
    }

    /// Reads the byte string back, `None` for a null buffer.
    pub fn as_slice_optional(&self) -> (r: Option<&[u8]>)
        ensures
            match r {
                Some(s) => self@ == Some(s@),
                None => self@ is None,
            },
    {
        match &self.data {
            Some(v) => Some(v.as_slice()),
            None => None,
        }
    }

    /// Reads the byte string back, rejecting a null buffer as invalid input.
    pub fn as_slice(&self) -> (r: Result<&[u8], Error>)
        ensures
            match r {
                Ok(s) => self@ == Some(s@),
                Err(e) => self@ is None && (e matches Error::InvalidInput(m) && m@
                    == "Buffer data is null"@),
            },
    {
        match self.as_slice_optional() {
            Some(s) => Ok(s),
            None => Err(Error::InvalidInput(String::from_str("Buffer data is null"))),
        }
    }

    /// Releases the buffer.  Releasing a null buffer is a no-op.  The caller
    /// must not touch the value afterwards and must not release it twice;
    /// with the raw representation that the embedding layer uses, doing so
    /// would be undefined.
    pub fn free(self) {
    }

    /// A copy of the buffer with the same contents and presence.
    pub fn duplicate(&self) -> (r: Buffer)
        ensures
            r@ == self@,
    {
        match &self.data {
            Some(v) => Buffer { data: Some(vstd::slice::slice_to_vec(v.as_slice())) },
            None => Buffer { data: None },
        }
    }
}

/// Law: a byte string wrapped for transfer and read back crosses the
/// boundary without loss.  Whatever [`Buffer::from_vec`] produced from some
/// bytes, [`Buffer::as_slice`] reads exactly those bytes back.
pub proof fn lemma_buffer_round_trip(v: Vec<u8>, b: Buffer, s: &[u8])
    requires
        call_ensures(Buffer::from_vec, (v,), b),
        call_ensures(Buffer::as_slice, (&b,), Ok(s)),
    ensures
        s@ == v@,
{
}

/// The fixed-shape envelope returned by every exported operation.
///
/// `error` is 0 on success, else the code of the error kind; `error_message`
/// is null on success; `data` always holds exactly four slots, the unused
/// ones null.
pub struct Response {
    pub error: usize,
    pub error_message: Buffer,
    pub data: Vec<Buffer>,
}

/// A well-formed response has exactly four output slots.
pub open spec fn response_wf(r: Response) -> bool {
    r.data@.len() == 4
}

/// The contents of output slot `i`.
pub open spec fn slot(r: Response, i: int) -> Option<Seq<u8>> {
    r.data@[i]@
}

impl Response {
    /// A success envelope carrying the given byte strings, in order, in the
    /// leading output slots; the remaining slots are null.
    pub fn ok(data: Vec<Vec<u8>>) -> (r: Response)
        requires
            data@.len() <= 4,
        ensures
            response_wf(r),
            r.error == 0,
            r.error_message@ is None,
            forall|i: int| 0 <= i < data@.len() ==> slot(r, i) == Some(data@[i]@),
            forall|i: int| data@.len() <= i < 4 ==> slot(r, i) is None,
    {
        let ghost orig: Seq<Vec<u8>> = data@;
        let mut data = data;
        let mut slots: Vec<Buffer> = Vec::new();
        while slots.len() < 4
            invariant
                slots@.len() <= 4,
                orig.len() <= 4,
                data@ =~= if slots@.len() <= orig.len() {
                    orig.skip(slots@.len() as int)
                } else {
                    Seq::<Vec<u8>>::empty()
                },
                forall|i: int| 0 <= i < slots@.len() && i < orig.len() ==> slots@[i]@ == Some(
                    orig[i]@,
                ),
                forall|i: int| orig.len() <= i < slots@.len() ==> slots@[i]@ is None,
            decreases 4 - slots.len(),
        {
            if data.len() > 0 {
                let v = data.remove(0);
                slots.push(Buffer::from_vec(v));
            } else {
                slots.push(Buffer::null());
            }
        }
        Response { error: 0, error_message: Buffer::null(), data: slots }
    }

    /// A failure envelope: the error's code, its message as a byte string,
    /// and four null output slots.
    pub fn error(error: Error) -> (r: Response)
        ensures
            response_wf(r),
            r.error == error_code(error),
            r.error_message@ == Some(encode_utf8(error_message(error))),
            forall|i: int| 0 <= i < 4 ==> slot(r, i) is None,
    {
        let (code, message): (usize, String) = match error {
            Error::InvalidInput(m) => (1, m),
            Error::InvalidConfig(m) => (2, m),
            Error::Protocol(m) => (3, m),
            Error::InternalError(m) => (4, m),
        };
        let bytes = message.as_str().as_bytes_vec();
        let mut slots: Vec<Buffer> = Vec::new();
        slots.push(Buffer::null());
        slots.push(Buffer::null());
        slots.push(Buffer::null());
        slots.push(Buffer::null());
        Response { error: code, error_message: Buffer::from_vec(bytes), data: slots }
    }
}

} // verus!
