//! Decoding values from a stream.

use vstd::prelude::*;

use vstd::utf8::{decode_utf8, encode_utf8, encode_utf8_decode_utf8, encode_utf8_valid_utf8,
    valid_utf8};

use crate::errors::RPCError;
use crate::stream::{fill_buf, MemStream};
use crate::wire::{be_u16_of, be_u32_of, be_u64_at, be_u64_of, lemma_be_u64_round, truncated,
    Wire};

verus! {

/// A value that can be read back from a stream.
///
/// Decoding consumes bytes from the cursor forward. The contract pins the
/// result down in both directions: whenever some value's full encoding
/// stands at the cursor, decoding succeeds and returns exactly that value
/// (so every encode round-trips); and a value is returned only for bytes
/// that stand for it — on success the cursor advances by exactly the length
/// of the returned value's encoding and the consumed bytes are a form the
/// value accepts, so no value is ever fabricated from malformed or missing
/// input. A stream that breaks off in the middle of an encoding fails with
/// `StreamClosed`, while `SerializationError` is kept for bytes that can not
/// begin any encoding (a bad discriminant, invalid UTF-8); each
/// implementation pins its own error cases exactly. Decoding never touches
/// bytes already consumed and never panics.
pub trait Deserialize: Wire + Sized {
    /// Reads one value of this type from the cursor forward.
    fn decode_stream(s: &mut MemStream) -> (r: Result<Self, RPCError>)
        requires
            old(s).wf(),
        ensures
            final(s).wf(),
            final(s).bytes() == old(s).bytes(),
            old(s).cursor() <= final(s).cursor(),
            r matches Ok(v) ==> final(s).cursor() == old(s).cursor() + v.wire().len(),
            // soundness: a value comes only out of bytes that stand for it —
            // never out of thin air on malformed or missing input
            r matches Ok(v) ==> v.accepts(old(s).rest().take(v.wire().len() as int)),
            forall|v: Self|
                (#[trigger] v.wire()).is_prefix_of(old(s).rest()) ==> (r matches Ok(w)
                    && w.model() == v.model()),
            r matches Err(e) ==> e == RPCError::StreamClosed || e
                == RPCError::SerializationError,
            (r is Err && truncated::<Self>(old(s).rest())) ==> r == Err::<Self, RPCError>(
                RPCError::StreamClosed,
            ),
    ;
}

/// Relies on std::str::from_utf8: it succeeds exactly on valid UTF-8 input,
/// and the string it returns reads back as those very bytes.
#[verifier::external_body]
fn bytes_to_string(v: &Vec<u8>) -> (r: Option<String>)
    ensures
        r is Some <==> valid_utf8(v@),
        r matches Some(t) ==> encode_utf8(t@) == v@,
{
    match std::str::from_utf8(v.as_slice()) {
        Ok(st) => Some(st.to_owned()),
        Err(_) => None,
    }
}

impl Deserialize for () {
    fn decode_stream(s: &mut MemStream) -> (r: Result<Self, RPCError>) {
        proof {
            assert(s.rest().take(0) =~= Seq::<u8>::empty());
        }
        Ok(())
    }
}

impl Deserialize for u8 {
    fn decode_stream(s: &mut MemStream) -> (r: Result<Self, RPCError>)
        ensures
            r is Err ==> r == Err::<u8, RPCError>(RPCError::StreamClosed),
            r is Err <==> old(s).rest().len() < 1,
            old(s).rest().len() >= 1 ==> r == Ok::<u8, RPCError>(old(s).rest()[0]),
    {
        let ghost entry = *s;
        let buf = match fill_buf(s, 1) {
            Ok(b) => b,
            Err(e) => {
                proof {
                    assert forall|v: u8| !(#[trigger] v.wire()).is_prefix_of(entry.rest()) by {
                        assert(v.wire().len() == 1);
                    };
                }
                return Err(e);
            },
        };
        let x = buf[0];
        proof {
            assert forall|v: u8| (#[trigger] v.wire()).is_prefix_of(entry.rest()) implies x
                == v by {
                assert(buf@[0] == v.wire()[0]);
            };
            assert(x.accepts(entry.rest().take(1))) by {
                assert(entry.rest().take(1) =~= x.wire());
            }
        }
        Ok(x)
    }
}

impl Deserialize for i8 {
    fn decode_stream(s: &mut MemStream) -> (r: Result<Self, RPCError>)
        ensures
            r is Err ==> r == Err::<i8, RPCError>(RPCError::StreamClosed),
            r is Err <==> old(s).rest().len() < 1,
            old(s).rest().len() >= 1 ==> r == Ok::<i8, RPCError>(old(s).rest()[0] as i8),
    {
        let ghost entry = *s;
        let buf = match fill_buf(s, 1) {
            Ok(b) => b,
            Err(e) => {
                proof {
                    assert forall|v: i8| !(#[trigger] v.wire()).is_prefix_of(entry.rest()) by {
                        assert(v.wire().len() == 1);
                    };
                }
                return Err(e);
            },
        };
        let x = #[verifier::truncate] (buf[0] as i8);
        proof {
            assert forall|v: i8| (#[trigger] v.wire()).is_prefix_of(entry.rest()) implies x
                == v by {
                crate::wire::lemma_i8_round(v);
                assert(buf@[0] == v.wire()[0]);
            };
            assert(x.accepts(entry.rest().take(1))) by {
                crate::wire::lemma_u8_round(buf@[0]);
                assert(entry.rest().take(1) =~= x.wire());
            }
        }
        Ok(x)
    }
}

impl Deserialize for bool {
    fn decode_stream(s: &mut MemStream) -> (r: Result<Self, RPCError>)
        ensures
            r is Err ==> r == Err::<bool, RPCError>(RPCError::StreamClosed),
            r is Err <==> old(s).rest().len() < 1,
            old(s).rest().len() >= 1 ==> r == Ok::<bool, RPCError>(old(s).rest()[0] != 0),
    {
        let ghost entry = *s;
        let buf = match fill_buf(s, 1) {
            Ok(b) => b,
            Err(e) => {
                proof {
                    assert forall|v: bool| !(#[trigger] v.wire()).is_prefix_of(entry.rest()) by {
                        assert(v.wire().len() == 1);
                    };
                }
                return Err(e);
            },
        };
        // any non-zero byte reads as true
        let x = buf[0] != 0;
        proof {
            assert forall|v: bool| (#[trigger] v.wire()).is_prefix_of(entry.rest()) implies x
                == v by {
                assert(buf@[0] == v.wire()[0]);
            };
            assert(x.accepts(entry.rest().take(1))) by {
                assert(entry.rest().take(1) =~= seq![buf@[0]]);
            }
        }
        Ok(x)
    }
}

impl Deserialize for u16 {
    fn decode_stream(s: &mut MemStream) -> (r: Result<Self, RPCError>)
        ensures
            r is Err ==> r == Err::<u16, RPCError>(RPCError::StreamClosed),
            r is Err <==> old(s).rest().len() < 2,
            old(s).rest().len() >= 2 ==> r == Ok::<u16, RPCError>(
                be_u16_of(old(s).rest()[0], old(s).rest()[1]),
            ),
    {
        let ghost entry = *s;
        let buf = match fill_buf(s, 2) {
            Ok(b) => b,
            Err(e) => {
                proof {
                    assert forall|v: u16| !(#[trigger] v.wire()).is_prefix_of(entry.rest()) by {
                        assert(v.wire().len() == 2);
                    };
                }
                return Err(e);
            },
        };
        let x: u16 = (buf[0] as u16) << 8 | (buf[1] as u16);
        proof {
            assert forall|v: u16| (#[trigger] v.wire()).is_prefix_of(entry.rest()) implies x
                == v by {
                crate::wire::lemma_be_u16_round(v);
                assert(buf@[0] == v.wire()[0]);
                assert(buf@[1] == v.wire()[1]);
            };
            assert(x.accepts(entry.rest().take(2))) by {
                crate::wire::lemma_be_u16_bytes(buf@[0], buf@[1]);
                assert(entry.rest().take(2) =~= x.wire());
            }
        }
        Ok(x)
    }
}

impl Deserialize for i16 {
    fn decode_stream(s: &mut MemStream) -> (r: Result<Self, RPCError>)
        ensures
            r is Err ==> r == Err::<i16, RPCError>(RPCError::StreamClosed),
            r is Err <==> old(s).rest().len() < 2,
            old(s).rest().len() >= 2 ==> r == Ok::<i16, RPCError>(
                be_u16_of(old(s).rest()[0], old(s).rest()[1]) as i16,
            ),
    {
        let ghost entry = *s;
        let buf = match fill_buf(s, 2) {
            Ok(b) => b,
            Err(e) => {
                proof {
                    assert forall|v: i16| !(#[trigger] v.wire()).is_prefix_of(entry.rest()) by {
                        assert(v.wire().len() == 2);
                    };
                }
                return Err(e);
            },
        };
        let u: u16 = (buf[0] as u16) << 8 | (buf[1] as u16);
        let x = #[verifier::truncate] (u as i16);
        proof {
            assert forall|v: i16| (#[trigger] v.wire()).is_prefix_of(entry.rest()) implies x
                == v by {
                crate::wire::lemma_be_i16_round(v);
                assert(buf@[0] == v.wire()[0]);
                assert(buf@[1] == v.wire()[1]);
            };
            assert(x.accepts(entry.rest().take(2))) by {
                crate::wire::lemma_u16_round(u);
                crate::wire::lemma_be_u16_bytes(buf@[0], buf@[1]);
                assert(entry.rest().take(2) =~= x.wire());
            }
        }
        Ok(x)
    }
}

impl Deserialize for u32 {
    fn decode_stream(s: &mut MemStream) -> (r: Result<Self, RPCError>)
        ensures
            r is Err ==> r == Err::<u32, RPCError>(RPCError::StreamClosed),
            r is Err <==> old(s).rest().len() < 4,
            old(s).rest().len() >= 4 ==> r == Ok::<u32, RPCError>(
                be_u32_of(old(s).rest()[0], old(s).rest()[1], old(s).rest()[2], old(s).rest()[3]),
            ),
    {
        let ghost entry = *s;
        let buf = match fill_buf(s, 4) {
            Ok(b) => b,
            Err(e) => {
                proof {
                    assert forall|v: u32| !(#[trigger] v.wire()).is_prefix_of(entry.rest()) by {
                        assert(v.wire().len() == 4);
                    };
                }
                return Err(e);
            },
        };
        let x: u32 = (buf[0] as u32) << 24 | (buf[1] as u32) << 16 | (buf[2] as u32) << 8 | (
        buf[3] as u32);
        proof {
            assert forall|v: u32| (#[trigger] v.wire()).is_prefix_of(entry.rest()) implies x
                == v by {
                crate::wire::lemma_be_u32_round(v);
                assert(buf@[0] == v.wire()[0]);
                assert(buf@[1] == v.wire()[1]);
                assert(buf@[2] == v.wire()[2]);
                assert(buf@[3] == v.wire()[3]);
            };
            assert(x.accepts(entry.rest().take(4))) by {
                crate::wire::lemma_be_u32_bytes(buf@[0], buf@[1], buf@[2], buf@[3]);
                assert(entry.rest().take(4) =~= x.wire());
            }
        }
        Ok(x)
    }
}

impl Deserialize for i32 {
    fn decode_stream(s: &mut MemStream) -> (r: Result<Self, RPCError>)
        ensures
            r is Err ==> r == Err::<i32, RPCError>(RPCError::StreamClosed),
            r is Err <==> old(s).rest().len() < 4,
            old(s).rest().len() >= 4 ==> r == Ok::<i32, RPCError>(
                be_u32_of(old(s).rest()[0], old(s).rest()[1], old(s).rest()[2], old(s).rest()[3])
                    as i32,
            ),
    {
        let ghost entry = *s;
        let buf = match fill_buf(s, 4) {
            Ok(b) => b,
            Err(e) => {
                proof {
                    assert forall|v: i32| !(#[trigger] v.wire()).is_prefix_of(entry.rest()) by {
                        assert(v.wire().len() == 4);
                    };
                }
                return Err(e);
            },
        };
        let u: u32 = (buf[0] as u32) << 24 | (buf[1] as u32) << 16 | (buf[2] as u32) << 8 | (
        buf[3] as u32);
        let x = #[verifier::truncate] (u as i32);
        proof {
            assert forall|v: i32| (#[trigger] v.wire()).is_prefix_of(entry.rest()) implies x
                == v by {
                crate::wire::lemma_be_i32_round(v);
                assert(buf@[0] == v.wire()[0]);
                assert(buf@[1] == v.wire()[1]);
                assert(buf@[2] == v.wire()[2]);
                assert(buf@[3] == v.wire()[3]);
            };
            assert(x.accepts(entry.rest().take(4))) by {
                crate::wire::lemma_u32_round(u);
                crate::wire::lemma_be_u32_bytes(buf@[0], buf@[1], buf@[2], buf@[3]);
                assert(entry.rest().take(4) =~= x.wire());
            }
        }
        Ok(x)
    }
}

impl Deserialize for i64 {
    fn decode_stream(s: &mut MemStream) -> (r: Result<Self, RPCError>)
        ensures
            r is Err ==> r == Err::<i64, RPCError>(RPCError::StreamClosed),
            r is Err <==> old(s).rest().len() < 8,
            old(s).rest().len() >= 8 ==> r == Ok::<i64, RPCError>(be_u64_at(old(s).rest()) as i64),
    {
        let ghost entry = *s;
        let buf = match fill_buf(s, 8) {
            Ok(b) => b,
            Err(e) => {
                proof {
                    assert forall|v: i64| !(#[trigger] v.wire()).is_prefix_of(entry.rest()) by {
                        assert(v.wire().len() == 8);
                    };
                }
                return Err(e);
            },
        };
        let u: u64 = (buf[0] as u64) << 56 | (buf[1] as u64) << 48 | (buf[2] as u64) << 40 | (
        buf[3] as u64) << 32 | (buf[4] as u64) << 24 | (buf[5] as u64) << 16 | (buf[6] as u64)
            << 8 | (buf[7] as u64);
        let x = #[verifier::truncate] (u as i64);
        proof {
            assert forall|v: i64| (#[trigger] v.wire()).is_prefix_of(entry.rest()) implies x
                == v by {
                crate::wire::lemma_be_i64_round(v);
                assert(buf@[0] == v.wire()[0]);
                assert(buf@[1] == v.wire()[1]);
                assert(buf@[2] == v.wire()[2]);
                assert(buf@[3] == v.wire()[3]);
                assert(buf@[4] == v.wire()[4]);
                assert(buf@[5] == v.wire()[5]);
                assert(buf@[6] == v.wire()[6]);
                assert(buf@[7] == v.wire()[7]);
            };
            assert(u == be_u64_at(entry.rest()));
            assert(x.accepts(entry.rest().take(8))) by {
                crate::wire::lemma_u64_round(u);
                crate::wire::lemma_be_u64_bytes(
                    buf@[0],
                    buf@[1],
                    buf@[2],
                    buf@[3],
                    buf@[4],
                    buf@[5],
                    buf@[6],
                    buf@[7],
                );
                assert(entry.rest().take(8) =~= x.wire());
            }
        }
        Ok(x)
    }
}

impl Deserialize for u64 {
    fn decode_stream(s: &mut MemStream) -> (r: Result<Self, RPCError>)
        ensures
            r is Err ==> r == Err::<u64, RPCError>(RPCError::StreamClosed),
            r is Err <==> old(s).rest().len() < 8,
            old(s).rest().len() >= 8 ==> r == Ok::<u64, RPCError>(be_u64_at(old(s).rest())),
    {
        let ghost entry = *s;
        let buf = match fill_buf(s, 8) {
            Ok(b) => b,
            Err(e) => {
                proof {
                    assert forall|v: u64| !(#[trigger] v.wire()).is_prefix_of(entry.rest()) by {
                        assert(v.wire().len() == 8);
                    };
                }
                return Err(e);
            },
        };
        let x: u64 = (buf[0] as u64) << 56 | (buf[1] as u64) << 48 | (buf[2] as u64) << 40 | (
        buf[3] as u64) << 32 | (buf[4] as u64) << 24 | (buf[5] as u64) << 16 | (buf[6] as u64)
            << 8 | (buf[7] as u64);
        proof {
            assert(x == be_u64_of(buf@[0], buf@[1], buf@[2], buf@[3], buf@[4], buf@[5], buf@[6], buf@[7]));
            assert forall|v: u64| (#[trigger] v.wire()).is_prefix_of(entry.rest()) implies x
                == v by {
                lemma_be_u64_round(v);
                assert(buf@[0] == v.wire()[0]);
                assert(buf@[1] == v.wire()[1]);
                assert(buf@[2] == v.wire()[2]);
                assert(buf@[3] == v.wire()[3]);
                assert(buf@[4] == v.wire()[4]);
                assert(buf@[5] == v.wire()[5]);
                assert(buf@[6] == v.wire()[6]);
                assert(buf@[7] == v.wire()[7]);
            };
            assert(x == be_u64_at(entry.rest()));
            assert(x.accepts(entry.rest().take(8))) by {
                crate::wire::lemma_be_u64_bytes(
                    buf@[0],
                    buf@[1],
                    buf@[2],
                    buf@[3],
                    buf@[4],
                    buf@[5],
                    buf@[6],
                    buf@[7],
                );
                assert(entry.rest().take(8) =~= x.wire());
            }
        }
        Ok(x)
    }
}

impl Deserialize for RPCError {
    fn decode_stream(s: &mut MemStream) -> (r: Result<Self, RPCError>)
        ensures
            old(s).rest().len() == 0 ==> r == Err::<RPCError, RPCError>(RPCError::StreamClosed),
            old(s).rest().len() >= 1 && old(s).rest()[0] == 0 ==> r == Ok::<RPCError, RPCError>(
                RPCError::NotAvailable,
            ),
            old(s).rest().len() >= 1 && old(s).rest()[0] == 1 ==> r == Ok::<RPCError, RPCError>(
                RPCError::SerializationError,
            ),
            old(s).rest().len() >= 1 && old(s).rest()[0] == 2 ==> r == Ok::<RPCError, RPCError>(
                RPCError::StreamClosed,
            ),
            old(s).rest().len() >= 1 && old(s).rest()[0] == 3 ==> r == Ok::<RPCError, RPCError>(
                RPCError::UnknownError,
            ),
            old(s).rest().len() >= 1 && old(s).rest()[0] > 3 ==> r == Err::<RPCError, RPCError>(
                RPCError::SerializationError,
            ),
    {
        let ghost entry = *s;
        let tag = match u8::decode_stream(s) {
            Ok(t) => t,
            Err(e) => {
                proof {
                    assert forall|v: RPCError| !(#[trigger] v.wire()).is_prefix_of(
                        entry.rest(),
                    ) by {
                        assert(v.wire().len() == 1);
                    };
                }
                return Err(e);
            },
        };
        proof {
            // the tag is the first pending byte
            assert(entry.rest().len() >= 1);
            let b0 = entry.rest()[0];
            assert(b0.wire().is_prefix_of(entry.rest())) by {
                assert(b0.wire() =~= entry.rest().subrange(0, 1));
            }
            assert(tag == b0);
            assert(forall|v: RPCError| (#[trigger] v.wire()).is_prefix_of(entry.rest()) ==> v.wire()[0]
                == entry.rest()[0]);
        }
        match tag {
            0 => Ok(RPCError::NotAvailable),
            1 => Ok(RPCError::SerializationError),
            2 => Ok(RPCError::StreamClosed),
            3 => Ok(RPCError::UnknownError),
            _ => {
                proof {
                    assert forall|v: RPCError| !(#[trigger] v.wire()).is_prefix_of(
                        entry.rest(),
                    ) by {
                        assert(v.wire()[0] == 0 || v.wire()[0] == 1 || v.wire()[0] == 2
                            || v.wire()[0] == 3);
                    };
                    // a one-byte encoding cannot be truncated on a non-empty stream
                    assert(!truncated::<RPCError>(entry.rest()));
                }
                Err(RPCError::SerializationError)
            },
        }
    }
}

impl Deserialize for String {
    fn decode_stream(s: &mut MemStream) -> (r: Result<Self, RPCError>)
        ensures
            // not even the whole length prefix is here
            old(s).rest().len() < 8 ==> r == Err::<String, RPCError>(RPCError::StreamClosed),
            // the length prefix is here, the payload breaks off
            old(s).rest().len() >= 8 && old(s).rest().len() - 8 < be_u64_at(old(s).rest()) ==> r
                == Err::<String, RPCError>(RPCError::StreamClosed),
            // the whole payload is here but is not valid UTF-8
            (old(s).rest().len() >= 8 && old(s).rest().len() - 8 >= be_u64_at(old(s).rest())
                && !valid_utf8(
                old(s).rest().subrange(8, 8 + be_u64_at(old(s).rest()) as int),
            )) ==> r == Err::<String, RPCError>(RPCError::SerializationError),
            // the whole payload is here and decodes
            (old(s).rest().len() >= 8 && old(s).rest().len() - 8 >= be_u64_at(old(s).rest())
                && valid_utf8(
                old(s).rest().subrange(8, 8 + be_u64_at(old(s).rest()) as int),
            )) ==> (r matches Ok(v) && v@ == decode_utf8(
                old(s).rest().subrange(8, 8 + be_u64_at(old(s).rest()) as int),
            )),
    {
        let ghost entry = *s;
        let n = match u64::decode_stream(s) {
            Ok(n) => n,
            Err(e) => {
                proof {
                    // fewer than eight bytes: not even the length prefix fits
                    assert forall|v: String| !(#[trigger] v.wire()).is_prefix_of(
                        entry.rest(),
                    ) by {
                        assert(v.wire().len() >= 8);
                    };
                }
                return Err(e);
            },
        };
        let ghost header = *s;
        proof {
            assert(header.rest() =~= entry.rest().skip(8));
            // the eight bytes consumed are the big-endian length prefix, so any
            // string encoded at the cursor has payload length n
            assert forall|v: String|
                (#[trigger] v.wire()).is_prefix_of(entry.rest()) implies encode_utf8(v@).len()
                == n && encode_utf8(v@).is_prefix_of(header.rest()) by {
                let m = encode_utf8(v@).len();
                assert(v.wire().len() == 8 + m);
                assert(m + 8 <= entry.rest().len());
                crate::stream::lemma_stream_bounded(&entry);
                assert(m < 0x10000000000000000);
                let mw = (m as u64);
                assert(mw == m);
                assert(mw.wire().is_prefix_of(v.wire())) by {
                    assert(mw.wire() =~= v.wire().subrange(0, 8));
                }
                crate::wire::lemma_prefix_trans(mw.wire(), v.wire(), entry.rest());
                assert(v.wire() =~= entry.rest().subrange(0, 8 + m as int));
                assert forall|i: int| 0 <= i < m implies encode_utf8(v@)[i] == entry.rest()[8
                    + i] by {
                    assert(v.wire()[8 + i] == encode_utf8(v@)[i]);
                    assert(v.wire()[8 + i] == entry.rest().subrange(0, 8 + m as int)[8 + i]);
                }
                assert(encode_utf8(v@) =~= header.rest().subrange(0, m as int));
            };
        }
        let rem = s.remaining();
        if n > rem as u64 {
            proof {
                assert forall|v: String| !(#[trigger] v.wire()).is_prefix_of(entry.rest()) by {
                    if v.wire().is_prefix_of(entry.rest()) {
                        assert(encode_utf8(v@).len() <= header.rest().len());
                    }
                };
            }
            return Err(RPCError::StreamClosed);
        }
        let nu = n as usize;
        let buf = match fill_buf(s, nu) {
            Ok(b) => b,
            Err(e) => {
                return Err(e);
            },
        };
        proof {
            assert(buf@ =~= entry.rest().subrange(8, 8 + n as int));
        }
        match bytes_to_string(&buf) {
            Some(st) => {
                proof {
                    encode_utf8_decode_utf8(st@);
                    assert(st.wire().len() == 8 + nu);
                    assert forall|v: String|
                        (#[trigger] v.wire()).is_prefix_of(entry.rest()) implies st@ == v@ by {
                        assert(encode_utf8(v@) =~= buf@);
                        encode_utf8_decode_utf8(v@);
                    };
                }
                Ok(st)
            },
            None => {
                proof {
                    // no string encodes to invalid UTF-8 bytes
                    assert forall|v: String| !(#[trigger] v.wire()).is_prefix_of(
                        entry.rest(),
                    ) by {
                        if v.wire().is_prefix_of(entry.rest()) {
                            assert(encode_utf8(v@) =~= buf@);
                            encode_utf8_valid_utf8(v@);
                        }
                    };
                    // nor does the stream break off inside a string encoding:
                    // its length field says the whole payload is already here
                    assert forall|v: String|
                        !(entry.rest().len() < (#[trigger] v.wire()).len() < 0x10000000000000000
                            && entry.rest() == v.wire().take(entry.rest().len() as int)) by {
                        if entry.rest().len() < v.wire().len() < 0x10000000000000000
                            && entry.rest() == v.wire().take(entry.rest().len() as int) {
                            let m = encode_utf8(v@).len();
                            assert(v.wire().len() == 8 + m);
                            assert(m < 0x10000000000000000);
                            let mw = (m as u64);
                            assert(mw == m);
                            assert(entry.rest().len() >= 8 + n);
                            assert(mw.wire().is_prefix_of(entry.rest())) by {
                                assert(mw.wire() =~= v.wire().subrange(0, 8));
                                assert(mw.wire() =~= entry.rest().subrange(0, 8));
                            }
                            assert(m == n);
                            assert(v.wire().len() <= entry.rest().len());
                        }
                    };
                    assert(!truncated::<String>(entry.rest()));
                }
                Err(RPCError::SerializationError)
            },
        }
    }
}

impl<T: Deserialize> Deserialize for Option<T> {
    fn decode_stream(s: &mut MemStream) -> (r: Result<Self, RPCError>)
        ensures
            old(s).rest().len() == 0 ==> r == Err::<Option<T>, RPCError>(RPCError::StreamClosed),
            old(s).rest().len() >= 1 && old(s).rest()[0] == 0 ==> r == Ok::<Option<T>, RPCError>(
                Option::None,
            ),
            (old(s).rest().len() >= 1 && old(s).rest()[0] != 0 && old(s).rest()[0] != 1) ==> r
                == Err::<Option<T>, RPCError>(RPCError::SerializationError),
    {
        let ghost entry = *s;
        let tag = match u8::decode_stream(s) {
            Ok(t) => t,
            Err(e) => {
                proof {
                    assert forall|v: Option<T>| !(#[trigger] v.wire()).is_prefix_of(
                        entry.rest(),
                    ) by {
                        assert(v.wire().len() >= 1);
                    };
                }
                return Err(e);
            },
        };
        let ghost after_tag = *s;
        proof {
            assert(entry.rest().len() >= 1);
            let b0 = entry.rest()[0];
            assert(b0.wire().is_prefix_of(entry.rest())) by {
                assert(b0.wire() =~= entry.rest().subrange(0, 1));
            }
            assert(tag == b0);
            assert(after_tag.rest() =~= entry.rest().skip(1));
        }
        if tag == 0 {
            proof {
                assert forall|v: Option<T>| (#[trigger] v.wire()).is_prefix_of(
                    entry.rest(),
                ) implies v.model() == Option::<T>::None.model() by {
                    assert(v.wire()[0] == entry.rest()[0]);
                };
                assert(Option::<T>::None.accepts(entry.rest().take(1))) by {
                    assert(entry.rest().take(1) =~= seq![0u8]);
                }
            }
            Ok(Option::None)
        } else if tag == 1 {
            match T::decode_stream(s) {
                Ok(t) => {
                    proof {
                        assert forall|v: Option<T>| (#[trigger] v.wire()).is_prefix_of(
                            entry.rest(),
                        ) implies Option::Some(t).model() == v.model() by {
                            assert(v.wire()[0] == entry.rest()[0]);
                            match v {
                                Option::None => {
                                    assert(false);
                                },
                                Option::Some(t0) => {
                                    assert(v.wire() == entry.rest().subrange(
                                        0,
                                        v.wire().len() as int,
                                    ));
                                    assert forall|i: int|
                                        0 <= i < t0.wire().len() implies t0.wire()[i]
                                        == after_tag.rest()[i] by {
                                        assert(t0.wire()[i] == v.wire()[1 + i]);
                                        assert(v.wire()[1 + i] == entry.rest()[1 + i]);
                                        assert(after_tag.rest()[i] == entry.rest()[1 + i]);
                                    }
                                    assert(t0.wire().is_prefix_of(after_tag.rest())) by {
                                        assert(t0.wire() =~= after_tag.rest().subrange(
                                            0,
                                            t0.wire().len() as int,
                                        ));
                                    }
                                },
                            }
                        };
                        let wl: int = 1 + t.wire().len() as int;
                        assert(Option::Some(t).accepts(entry.rest().take(wl))) by {
                            assert(entry.rest().take(wl)[0] == 1u8);
                            assert(entry.rest().take(wl).skip(1) =~= after_tag.rest().take(
                                t.wire().len() as int,
                            ));
                        }
                    }
                    Ok(Option::Some(t))
                },
                Err(e) => {
                    proof {
                        assert forall|v: Option<T>| !(#[trigger] v.wire()).is_prefix_of(
                            entry.rest(),
                        ) by {
                            if v.wire().is_prefix_of(entry.rest()) {
                                assert(v.wire()[0] == entry.rest()[0]);
                                match v {
                                    Option::None => {
                                        assert(false);
                                    },
                                    Option::Some(t0) => {
                                        assert(v.wire() == entry.rest().subrange(
                                            0,
                                            v.wire().len() as int,
                                        ));
                                        assert forall|i: int|
                                            0 <= i < t0.wire().len() implies t0.wire()[i]
                                            == after_tag.rest()[i] by {
                                            assert(t0.wire()[i] == v.wire()[1 + i]);
                                            assert(v.wire()[1 + i] == entry.rest()[1 + i]);
                                            assert(after_tag.rest()[i] == entry.rest()[1 + i]);
                                        }
                                        assert(t0.wire().is_prefix_of(after_tag.rest())) by {
                                            assert(t0.wire() =~= after_tag.rest().subrange(
                                                0,
                                                t0.wire().len() as int,
                                            ));
                                        }
                                        assert(false);
                                    },
                                }
                            }
                        };
                        if truncated::<Option<T>>(entry.rest()) {
                            let v = choose|v: Option<T>|
                                entry.rest().len() < (#[trigger] v.wire()).len()
                                    < 0x10000000000000000 && entry.rest() == v.wire().take(
                                    entry.rest().len() as int,
                                );
                            assert(v.wire()[0] == entry.rest()[0]);
                            match v {
                                Option::None => {
                                    assert(false);
                                },
                                Option::Some(t0) => {
                                    assert(after_tag.rest().len() < t0.wire().len()
                                        < 0x10000000000000000);
                                    assert(after_tag.rest() =~= t0.wire().take(
                                        after_tag.rest().len() as int,
                                    ));
                                    assert(truncated::<T>(after_tag.rest()));
                                },
                            }
                        }
                    }
                    Err(e)
                },
            }
        } else {
            proof {
                assert forall|v: Option<T>| !(#[trigger] v.wire()).is_prefix_of(
                    entry.rest(),
                ) by {
                    if v.wire().is_prefix_of(entry.rest()) {
                        assert(v.wire()[0] == entry.rest()[0]);
                        assert(v.wire()[0] == 0 || v.wire()[0] == 1);
                    }
                };
                if truncated::<Option<T>>(entry.rest()) {
                    let v = choose|v: Option<T>|
                        entry.rest().len() < (#[trigger] v.wire()).len() < 0x10000000000000000
                            && entry.rest() == v.wire().take(entry.rest().len() as int);
                    assert(v.wire()[0] == entry.rest()[0]);
                    assert(v.wire()[0] == 0 || v.wire()[0] == 1);
                    assert(false);
                }
            }
            Err(RPCError::SerializationError)
        }
    }
}

impl<T: Deserialize> Deserialize for Result<T, RPCError> {
    fn decode_stream(s: &mut MemStream) -> (r: Result<Self, RPCError>)
        ensures
            old(s).rest().len() == 0 ==> r == Err::<Result<T, RPCError>, RPCError>(
                RPCError::StreamClosed,
            ),
            (old(s).rest().len() >= 1 && old(s).rest()[0] != 0 && old(s).rest()[0] != 1) ==> r
                == Err::<Result<T, RPCError>, RPCError>(RPCError::SerializationError),
    {
        let ghost entry = *s;
        let tag = match u8::decode_stream(s) {
            Ok(t) => t,
            Err(e) => {
                proof {
                    assert forall|v: Result<T, RPCError>| !(#[trigger] v.wire()).is_prefix_of(
                        entry.rest(),
                    ) by {
                        assert(v.wire().len() >= 1);
                    };
                }
                return Err(e);
            },
        };
        let ghost after_tag = *s;
        proof {
            assert(entry.rest().len() >= 1);
            let b0 = entry.rest()[0];
            assert(b0.wire().is_prefix_of(entry.rest())) by {
                assert(b0.wire() =~= entry.rest().subrange(0, 1));
            }
            assert(tag == b0);
            assert(after_tag.rest() =~= entry.rest().skip(1));
        }
        if tag == 0 {
            match T::decode_stream(s) {
                Ok(t) => {
                    proof {
                        let wl: int = 1 + t.wire().len() as int;
                        assert(Result::<T, RPCError>::Ok(t).accepts(entry.rest().take(wl))) by {
                            assert(entry.rest().take(wl)[0] == 0u8);
                            assert(entry.rest().take(wl).skip(1) =~= after_tag.rest().take(
                                t.wire().len() as int,
                            ));
                        }
                        assert forall|v: Result<T, RPCError>| (#[trigger] v.wire()).is_prefix_of(
                            entry.rest(),
                        ) implies Result::<T, RPCError>::Ok(t).model() == v.model() by {
                            assert(v.wire()[0] == entry.rest()[0]);
                            match v {
                                Result::Err(_) => {
                                    assert(false);
                                },
                                Result::Ok(t0) => {
                                    assert(t0.wire().is_prefix_of(after_tag.rest())) by {
                                        assert(t0.wire() =~= entry.rest().subrange(
                                            1,
                                            1 + t0.wire().len() as int,
                                        ));
                                        assert(t0.wire() =~= after_tag.rest().subrange(
                                            0,
                                            t0.wire().len() as int,
                                        ));
                                    }
                                },
                            }
                        };
                    }
                    Ok(Result::Ok(t))
                },
                Err(e) => {
                    proof {
                        assert forall|v: Result<T, RPCError>| !(#[trigger] v.wire()).is_prefix_of(
                            entry.rest(),
                        ) by {
                            if v.wire().is_prefix_of(entry.rest()) {
                                assert(v.wire()[0] == entry.rest()[0]);
                                match v {
                                    Result::Err(_) => {
                                        assert(false);
                                    },
                                    Result::Ok(t0) => {
                                        assert(t0.wire().is_prefix_of(after_tag.rest())) by {
                                            assert(t0.wire() =~= entry.rest().subrange(
                                                1,
                                                1 + t0.wire().len() as int,
                                            ));
                                            assert(t0.wire() =~= after_tag.rest().subrange(
                                                0,
                                                t0.wire().len() as int,
                                            ));
                                        }
                                        assert(false);
                                    },
                                }
                            }
                        };
                        if truncated::<Result<T, RPCError>>(entry.rest()) {
                            let v = choose|v: Result<T, RPCError>|
                                entry.rest().len() < (#[trigger] v.wire()).len()
                                    < 0x10000000000000000 && entry.rest() == v.wire().take(
                                    entry.rest().len() as int,
                                );
                            assert(v.wire()[0] == entry.rest()[0]);
                            match v {
                                Result::Err(_) => {
                                    assert(false);
                                },
                                Result::Ok(t0) => {
                                    assert(after_tag.rest().len() < t0.wire().len()
                                        < 0x10000000000000000);
                                    assert(after_tag.rest() =~= t0.wire().take(
                                        after_tag.rest().len() as int,
                                    ));
                                    assert(truncated::<T>(after_tag.rest()));
                                },
                            }
                        }
                    }
                    Err(e)
                },
            }
        } else if tag == 1 {
            match RPCError::decode_stream(s) {
                Ok(err_val) => {
                    proof {
                        let wl: int = 1 + err_val.wire().len() as int;
                        assert(Result::<T, RPCError>::Err(err_val).accepts(
                            entry.rest().take(wl),
                        )) by {
                            assert(entry.rest().take(wl)[0] == 1u8);
                            assert(entry.rest().take(wl).skip(1) =~= after_tag.rest().take(
                                err_val.wire().len() as int,
                            ));
                        }
                        assert forall|v: Result<T, RPCError>| (#[trigger] v.wire()).is_prefix_of(
                            entry.rest(),
                        ) implies Result::<T, RPCError>::Err(err_val).model() == v.model() by {
                            assert(v.wire()[0] == entry.rest()[0]);
                            match v {
                                Result::Ok(_) => {
                                    assert(false);
                                },
                                Result::Err(e0) => {
                                    assert(v.wire() == seq![1u8] + e0.wire());
                                    assert(v.wire().len() == 1 + e0.wire().len());
                                    assert(v.wire() == entry.rest().subrange(
                                        0,
                                        v.wire().len() as int,
                                    ));
                                    assert forall|i: int|
                                        0 <= i < e0.wire().len() implies e0.wire()[i]
                                        == after_tag.rest()[i] by {
                                        assert(e0.wire()[i] == v.wire()[1 + i]);
                                        assert(v.wire()[1 + i] == entry.rest()[1 + i]);
                                        assert(after_tag.rest()[i] == entry.rest()[1 + i]);
                                    }
                                    assert(e0.wire().is_prefix_of(after_tag.rest())) by {
                                        assert(e0.wire() =~= after_tag.rest().subrange(
                                            0,
                                            e0.wire().len() as int,
                                        ));
                                    }
                                },
                            }
                        };
                    }
                    Ok(Result::Err(err_val))
                },
                Err(e) => {
                    proof {
                        assert forall|v: Result<T, RPCError>| !(#[trigger] v.wire()).is_prefix_of(
                            entry.rest(),
                        ) by {
                            if v.wire().is_prefix_of(entry.rest()) {
                                assert(v.wire()[0] == entry.rest()[0]);
                                match v {
                                    Result::Ok(_) => {
                                        assert(false);
                                    },
                                    Result::Err(e0) => {
                                        assert(v.wire() == seq![1u8] + e0.wire());
                                        assert(v.wire().len() == 1 + e0.wire().len());
                                        assert(v.wire() == entry.rest().subrange(
                                            0,
                                            v.wire().len() as int,
                                        ));
                                        assert forall|i: int|
                                            0 <= i < e0.wire().len() implies e0.wire()[i]
                                            == after_tag.rest()[i] by {
                                            assert(e0.wire()[i] == v.wire()[1 + i]);
                                            assert(v.wire()[1 + i] == entry.rest()[1 + i]);
                                            assert(after_tag.rest()[i] == entry.rest()[1 + i]);
                                        }
                                        assert(e0.wire().is_prefix_of(after_tag.rest())) by {
                                            assert(e0.wire() =~= after_tag.rest().subrange(
                                                0,
                                                e0.wire().len() as int,
                                            ));
                                        }
                                        assert(false);
                                    },
                                }
                            }
                        };
                        if truncated::<Result<T, RPCError>>(entry.rest()) {
                            let v = choose|v: Result<T, RPCError>|
                                entry.rest().len() < (#[trigger] v.wire()).len()
                                    < 0x10000000000000000 && entry.rest() == v.wire().take(
                                    entry.rest().len() as int,
                                );
                            assert(v.wire()[0] == entry.rest()[0]);
                            match v {
                                Result::Ok(_) => {
                                    assert(false);
                                },
                                Result::Err(e0) => {
                                    assert(after_tag.rest().len() < e0.wire().len()
                                        < 0x10000000000000000);
                                    assert(after_tag.rest() =~= e0.wire().take(
                                        after_tag.rest().len() as int,
                                    ));
                                    assert(truncated::<RPCError>(after_tag.rest()));
                                },
                            }
                        }
                    }
                    Err(e)
                },
            }
        } else {
            proof {
                assert forall|v: Result<T, RPCError>| !(#[trigger] v.wire()).is_prefix_of(
                    entry.rest(),
                ) by {
                    if v.wire().is_prefix_of(entry.rest()) {
                        assert(v.wire()[0] == entry.rest()[0]);
                        assert(v.wire()[0] == 0 || v.wire()[0] == 1);
                    }
                };
                if truncated::<Result<T, RPCError>>(entry.rest()) {
                    let v = choose|v: Result<T, RPCError>|
                        entry.rest().len() < (#[trigger] v.wire()).len() < 0x10000000000000000
                            && entry.rest() == v.wire().take(entry.rest().len() as int);
                    assert(v.wire()[0] == entry.rest()[0]);
                    assert(v.wire()[0] == 0 || v.wire()[0] == 1);
                    assert(false);
                }
            }
            Err(RPCError::SerializationError)
        }
    }
}

} // verus!
