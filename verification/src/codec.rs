//! The inbound frame adapter: buffers raw bytes off a stream and yields
//! one decoded message at a time, advancing past a message's bytes only
//! when it decodes, so a truncated read loses nothing and is simply
//! retried once more bytes arrive.

use vstd::prelude::*;

use crate::message::{msg_bytes, wf_msg, DecodeError, Message, MsgView};

verus! {

broadcast use vstd::std_specs::vec::group_vec_axioms, vstd::seq::group_seq_axioms;

/// The frame buffer. Its view is the unread bytes, oldest first.
pub struct Codec {
    buf: Vec<u8>,
}

impl View for Codec {
    type V = Seq<u8>;

    closed spec fn view(&self) -> Seq<u8> {
        self.buf@
    }
}

impl Codec {
    /// An empty frame buffer.
    pub fn new() -> (c: Codec)
        ensures
            c@ == Seq::<u8>::empty(),
    {
        let c = Codec { buf: Vec::new() };
        proof {
            assert(c@ =~= Seq::<u8>::empty());
        }
        c
    }

    /// Appends bytes read from the stream to the back of the buffer.
    pub fn feed(&mut self, chunk: &Vec<u8>)
        ensures
            final(self)@ == old(self)@ + chunk@,
    {
        let mut i: usize = 0;
        while i < chunk.len()
            invariant
                i <= chunk.len(),
                self.buf@ == old(self).buf@ + chunk@.subrange(0, i as int),
            decreases chunk.len() - i,
        {
            self.buf.push(chunk[i]);
            proof {
                assert(self.buf@ =~= old(self).buf@ + chunk@.subrange(0, i + 1 as int));
            }
            i = i + 1;
        }
        proof {
            assert(chunk@.subrange(0, chunk@.len() as int) =~= chunk@);
        }
    }

    /// Tries to decode one message off the front of the buffer.
    ///
    /// If the buffer starts with the encoding of a well-formed message,
    /// that message comes back and exactly its bytes leave the buffer. If
    /// the buffer holds only a proper prefix of such an encoding, the
    /// answer is `Ok(None)` and the buffer keeps every byte for the next
    /// try. Bytes that decode to no recognized message give the error
    /// that [`Message::decode`] gives, with the buffer unchanged.
    pub fn try_next(&mut self) -> (r: Result<Option<Message>, DecodeError>)
        ensures
            forall|m: MsgView|
                wf_msg(m) && (#[trigger] msg_bytes(m)).is_prefix_of(old(self)@) ==> (r matches Ok(
                    s,
                ) && s matches Some(x) && x@ == m && final(self)@ == old(self)@.skip(
                    msg_bytes(m).len() as int,
                )),
            forall|m: MsgView|
                wf_msg(m) && old(self)@.len() < (#[trigger] msg_bytes(m)).len()
                    && old(self)@.is_prefix_of(msg_bytes(m)) ==> (r == Ok::<
                    Option<Message>,
                    DecodeError,
                >(None) && final(self)@ == old(self)@),
            !(r matches Ok(s) && s is Some) ==> final(self)@ == old(self)@,
    {
        let rv = crate::wire::decode_value(&self.buf);
        match &rv {
            Ok(pair) => {
                let msg = match Message::from_value(&pair.0) {
                    Ok(msg) => msg,
                    Err(e) => {
                        proof {
                            assert forall|m: MsgView|
                                wf_msg(m) && (#[trigger] msg_bytes(m)).is_prefix_of(
                                    old(self)@,
                                ) implies false by {
                                crate::message::lemma_msg_round_trip(m);
                            }
                        }
                        return Err(e);
                    },
                };
                let consumed = pair.1;
                let tail = self.buf.split_off(consumed);
                self.buf = tail;
                proof {
                    assert forall|m: MsgView|
                        wf_msg(m) && (#[trigger] msg_bytes(m)).is_prefix_of(old(self)@) implies msg@
                        == m && self.buf@ == old(self)@.skip(msg_bytes(m).len() as int) by {
                        crate::message::lemma_msg_round_trip(m);
                        assert(self.buf@ =~= old(self)@.skip(msg_bytes(m).len() as int));
                    }
                }
                Ok(Some(msg))
            },
            Err(e) => {
                proof {
                    // The reader answered with an error, so no well-formed
                    // encoding starts the buffer.
                    assert(forall|m: MsgView|
                        wf_msg(m) ==> !(#[trigger] msg_bytes(m)).is_prefix_of(old(self)@));
                }
                if matches!(e, DecodeError::Truncated) {
                    Ok(None)
                } else {
                    Err(*e)
                }
            },
        }
    }

    /// How many unread bytes the buffer holds.
    pub fn buffered(&self) -> (n: usize)
        ensures
            n == self@.len(),
    {
        self.buf.len()
    }
}

} // verus!
