//! Encoding values onto a stream.

use vstd::prelude::*;

use vstd::string::StrSliceExecFns;

use crate::errors::RPCError;
use crate::stream::{write_buf, MemStream};
use crate::wire::Wire;

verus! {

/// A value that can be written to a stream. Encoding appends exactly the
/// value's wire bytes at the end of the stream; writing into memory cannot
/// fail, so the result is always `Ok`.
pub trait Serialize: Wire {
    /// Appends the wire bytes of this value at the end of the stream.
    fn encode_stream(&self, s: &mut MemStream) -> (r: Result<(), RPCError>)
        requires
            old(s).wf(),
        ensures
            final(s).wf(),
            r is Ok,
            final(s).bytes() == old(s).bytes() + self.wire(),
            final(s).cursor() == old(s).cursor(),
    ;
}

impl Serialize for () {
    fn encode_stream(&self, s: &mut MemStream) -> (r: Result<(), RPCError>) {
        proof {
            assert(s.bytes() + self.wire() =~= s.bytes());
        }
        Ok(())
    }
}

impl Serialize for bool {
    fn encode_stream(&self, s: &mut MemStream) -> (r: Result<(), RPCError>) {
        let mut v: Vec<u8> = Vec::new();
        v.push(if *self { 1u8 } else { 0u8 });
        proof {
            assert(v@ =~= self.wire());
        }
        write_buf(s, v.as_slice())
    }
}

impl Serialize for u8 {
    fn encode_stream(&self, s: &mut MemStream) -> (r: Result<(), RPCError>) {
        let mut v: Vec<u8> = Vec::new();
        v.push(*self);
        proof {
            assert(v@ =~= self.wire());
        }
        write_buf(s, v.as_slice())
    }
}

impl Serialize for i8 {
    fn encode_stream(&self, s: &mut MemStream) -> (r: Result<(), RPCError>) {
        let mut v: Vec<u8> = Vec::new();
        v.push(#[verifier::truncate] (*self as u8));
        proof {
            assert(v@ =~= self.wire());
        }
        write_buf(s, v.as_slice())
    }
}

impl Serialize for u16 {
    fn encode_stream(&self, s: &mut MemStream) -> (r: Result<(), RPCError>) {
        let x = *self;
        let mut v: Vec<u8> = Vec::new();
        v.push(#[verifier::truncate] ((x >> 8) as u8));
        v.push(#[verifier::truncate] (x as u8));
        proof {
            assert(v@ =~= self.wire());
        }
        write_buf(s, v.as_slice())
    }
}

impl Serialize for i16 {
    fn encode_stream(&self, s: &mut MemStream) -> (r: Result<(), RPCError>) {
        let x = #[verifier::truncate] (*self as u16);
        let mut v: Vec<u8> = Vec::new();
        v.push(#[verifier::truncate] ((x >> 8) as u8));
        v.push(#[verifier::truncate] (x as u8));
        proof {
            assert(v@ =~= self.wire());
        }
        write_buf(s, v.as_slice())
    }
}

impl Serialize for u32 {
    fn encode_stream(&self, s: &mut MemStream) -> (r: Result<(), RPCError>) {
        let x = *self;
        let mut v: Vec<u8> = Vec::new();
        v.push(#[verifier::truncate] ((x >> 24) as u8));
        v.push(#[verifier::truncate] ((x >> 16) as u8));
        v.push(#[verifier::truncate] ((x >> 8) as u8));
        v.push(#[verifier::truncate] (x as u8));
        proof {
            assert(v@ =~= self.wire());
        }
        write_buf(s, v.as_slice())
    }
}

impl Serialize for i32 {
    fn encode_stream(&self, s: &mut MemStream) -> (r: Result<(), RPCError>) {
        let x = #[verifier::truncate] (*self as u32);
        let mut v: Vec<u8> = Vec::new();
        v.push(#[verifier::truncate] ((x >> 24) as u8));
        v.push(#[verifier::truncate] ((x >> 16) as u8));
        v.push(#[verifier::truncate] ((x >> 8) as u8));
        v.push(#[verifier::truncate] (x as u8));
        proof {
            assert(v@ =~= self.wire());
        }
        write_buf(s, v.as_slice())
    }
}

impl Serialize for u64 {
    fn encode_stream(&self, s: &mut MemStream) -> (r: Result<(), RPCError>) {
        let x = *self;
        let mut v: Vec<u8> = Vec::new();
        v.push(#[verifier::truncate] ((x >> 56) as u8));
        v.push(#[verifier::truncate] ((x >> 48) as u8));
        v.push(#[verifier::truncate] ((x >> 40) as u8));
        v.push(#[verifier::truncate] ((x >> 32) as u8));
        v.push(#[verifier::truncate] ((x >> 24) as u8));
        v.push(#[verifier::truncate] ((x >> 16) as u8));
        v.push(#[verifier::truncate] ((x >> 8) as u8));
        v.push(#[verifier::truncate] (x as u8));
        proof {
            assert(v@ =~= self.wire());
        }
        write_buf(s, v.as_slice())
    }
}

impl Serialize for i64 {
    fn encode_stream(&self, s: &mut MemStream) -> (r: Result<(), RPCError>) {
        let x = #[verifier::truncate] (*self as u64);
        let mut v: Vec<u8> = Vec::new();
        v.push(#[verifier::truncate] ((x >> 56) as u8));
        v.push(#[verifier::truncate] ((x >> 48) as u8));
        v.push(#[verifier::truncate] ((x >> 40) as u8));
        v.push(#[verifier::truncate] ((x >> 32) as u8));
        v.push(#[verifier::truncate] ((x >> 24) as u8));
        v.push(#[verifier::truncate] ((x >> 16) as u8));
        v.push(#[verifier::truncate] ((x >> 8) as u8));
        v.push(#[verifier::truncate] (x as u8));
        proof {
            assert(v@ =~= self.wire());
        }
        write_buf(s, v.as_slice())
    }
}

impl Serialize for String {
    fn encode_stream(&self, s: &mut MemStream) -> (r: Result<(), RPCError>) {
        let ghost entry = *s;
        let bv = self.as_str().as_bytes_vec();
        let n = bv.len() as u64;
        let _ = n.encode_stream(s);
        let r = write_buf(s, bv.as_slice());
        proof {
            assert(s.bytes() =~= entry.bytes() + self.wire());
        }
        r
    }
}

impl Serialize for RPCError {
    fn encode_stream(&self, s: &mut MemStream) -> (r: Result<(), RPCError>) {
        let tag: u8 = match *self {
            RPCError::NotAvailable => 0,
            RPCError::SerializationError => 1,
            RPCError::StreamClosed => 2,
            RPCError::UnknownError => 3,
        };
        let mut v: Vec<u8> = Vec::new();
        v.push(tag);
        proof {
            assert(v@ =~= self.wire());
        }
        write_buf(s, v.as_slice())
    }
}

impl<T: Serialize> Serialize for Option<T> {
    fn encode_stream(&self, s: &mut MemStream) -> (r: Result<(), RPCError>) {
        let ghost entry = *s;
        match self {
            Option::None => {
                let mut v: Vec<u8> = Vec::new();
                v.push(0u8);
                proof {
                    assert(v@ =~= self.wire());
                }
                write_buf(s, v.as_slice())
            },
            Option::Some(t) => {
                let mut v: Vec<u8> = Vec::new();
                v.push(1u8);
                let _ = write_buf(s, v.as_slice());
                let r = t.encode_stream(s);
                proof {
                    assert(s.bytes() =~= entry.bytes() + self.wire());
                }
                r
            },
        }
    }
}

impl<T: Serialize> Serialize for Result<T, RPCError> {
    fn encode_stream(&self, s: &mut MemStream) -> (r: Result<(), RPCError>) {
        let ghost entry = *s;
        match self {
            Result::Ok(t) => {
                let mut v: Vec<u8> = Vec::new();
                v.push(0u8);
                let _ = write_buf(s, v.as_slice());
                let r = t.encode_stream(s);
                proof {
                    assert(s.bytes() =~= entry.bytes() + self.wire());
                }
                r
            },
            Result::Err(e) => {
                let mut v: Vec<u8> = Vec::new();
                v.push(1u8);
                let _ = write_buf(s, v.as_slice());
                let r = e.encode_stream(s);
                proof {
                    assert(s.bytes() =~= entry.bytes() + self.wire());
                }
                r
            },
        }
    }
}

} // verus!
