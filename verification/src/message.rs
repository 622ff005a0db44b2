//! The typed MessagePack-RPC message model and its wire shape.
//!
//! Every message travels as a tagged array: `[0, id, method, params]` for a
//! request, `[1, id, error, result]` for a response, `[2, method, params]`
//! for a notification. [`parse_msg`] is the exact shape validation, and
//! [`msg_value`] the exact construction; [`lemma_msg_round_trip`] proves
//! that the one inverts the other.

use vstd::prelude::*;

use crate::value::{dup_values, seq_view, wf_view, Val, ValView};

verus! {

broadcast use vstd::std_specs::vec::group_vec_axioms, vstd::seq::group_seq_axioms;

/// Why a byte buffer failed to decode into a message.
///
/// `Truncated` means the buffer ended before one whole value was read: the
/// caller should wait for more bytes. `Invalid` means a whole value was
/// read but does not have a recognized message shape, or the bytes do not
/// encode a value at all. `Io` is an underlying read failure and is fatal
/// to the connection.
#[derive(Debug, Clone, Copy, PartialEq, Eq, Structural)]
pub enum DecodeError {
    Truncated,
    Invalid,
    Io,
}

/// An RPC call that expects exactly one response, correlated by `id`.
#[derive(Debug, PartialEq)]
pub struct Request {
    pub id: u32,
    pub method: String,
    pub params: Vec<Val>,
}

/// The single reply to a request: a success payload or a failure payload,
/// never both.
#[derive(Debug, PartialEq)]
pub struct Response {
    pub id: u32,
    pub result: Result<Val, Val>,
}

/// A fire-and-forget call: no id, and never answered.
#[derive(Debug, PartialEq)]
pub struct Notification {
    pub method: String,
    pub params: Vec<Val>,
}

/// A MessagePack-RPC message.
#[derive(Debug, PartialEq)]
pub enum Message {
    Request(Request),
    Response(Response),
    Notification(Notification),
}

#[verifier::ext_equal]
pub struct ReqView {
    pub id: int,
    pub method: Seq<char>,
    pub params: Seq<ValView>,
}

#[verifier::ext_equal]
pub struct RespView {
    pub id: int,
    pub result: Result<ValView, ValView>,
}

#[verifier::ext_equal]
pub struct NoteView {
    pub method: Seq<char>,
    pub params: Seq<ValView>,
}

#[verifier::ext_equal]
pub enum MsgView {
    Request(ReqView),
    Response(RespView),
    Notification(NoteView),
}

impl View for Request {
    type V = ReqView;

    open spec fn view(&self) -> ReqView {
        ReqView { id: self.id as int, method: self.method@, params: seq_view(self.params@) }
    }
}

impl View for Response {
    type V = RespView;

    open spec fn view(&self) -> RespView {
        RespView {
            id: self.id as int,
            result: match self.result {
                Ok(v) => Ok(v@),
                Err(e) => Err(e@),
            },
        }
    }
}

impl View for Notification {
    type V = NoteView;

    open spec fn view(&self) -> NoteView {
        NoteView { method: self.method@, params: seq_view(self.params@) }
    }
}

impl View for Message {
    type V = MsgView;

    open spec fn view(&self) -> MsgView {
        match self {
            Message::Request(r) => MsgView::Request(r@),
            Message::Response(r) => MsgView::Response(r@),
            Message::Notification(n) => MsgView::Notification(n@),
        }
    }
}

/// The wire value of a request: `[0, id, method, params]`.
pub open spec fn req_value(r: ReqView) -> ValView {
    ValView::Arr(
        seq![
            ValView::Num(0),
            ValView::Num(r.id),
            ValView::Text(r.method),
            ValView::Arr(r.params),
        ],
    )
}

/// The wire value of a response: `[1, id, error, result]`, where the error
/// slot is nil exactly on success.
pub open spec fn resp_value(r: RespView) -> ValView {
    ValView::Arr(
        seq![
            ValView::Num(1),
            ValView::Num(r.id),
            match r.result {
                Ok(_) => ValView::Nil,
                Err(e) => e,
            },
            match r.result {
                Ok(v) => v,
                Err(_) => ValView::Nil,
            },
        ],
    )
}

/// The wire value of a notification: `[2, method, params]`.
pub open spec fn note_value(n: NoteView) -> ValView {
    ValView::Arr(seq![ValView::Num(2), ValView::Text(n.method), ValView::Arr(n.params)])
}

/// The wire value of any message.
pub open spec fn msg_value(m: MsgView) -> ValView {
    match m {
        MsgView::Request(r) => req_value(r),
        MsgView::Response(r) => resp_value(r),
        MsgView::Notification(n) => note_value(n),
    }
}

/// Shape validation of a request array: `[0, id, method, params]` with at
/// least four elements, an id that fits 32 bits, a string method and an
/// array of parameters. Extra elements are tolerated and ignored.
pub open spec fn parse_req(a: Seq<ValView>) -> Result<MsgView, DecodeError> {
    if a.len() < 4 {
        Err(DecodeError::Invalid)
    } else {
        match (a[1], a[2], a[3]) {
            (ValView::Num(id), ValView::Text(method), ValView::Arr(params)) => if 0 <= id
                < 0x1_0000_0000 {
                Ok(MsgView::Request(ReqView { id, method, params }))
            } else {
                Err(DecodeError::Invalid)
            },
            _ => Err(DecodeError::Invalid),
        }
    }
}

/// Shape validation of a response array: `[1, id, error, result]`. A nil
/// error slot selects success with the fourth element as payload; any
/// other error value selects failure with that value, the fourth element
/// being ignored.
pub open spec fn parse_resp(a: Seq<ValView>) -> Result<MsgView, DecodeError> {
    if a.len() < 4 {
        Err(DecodeError::Invalid)
    } else {
        match a[1] {
            ValView::Num(id) => if 0 <= id < 0x1_0000_0000 {
                if a[2] is Nil {
                    Ok(MsgView::Response(RespView { id, result: Ok(a[3]) }))
                } else {
                    Ok(MsgView::Response(RespView { id, result: Err(a[2]) }))
                }
            } else {
                Err(DecodeError::Invalid)
            },
            _ => Err(DecodeError::Invalid),
        }
    }
}

/// Shape validation of a notification array: `[2, method, params]`.
pub open spec fn parse_note(a: Seq<ValView>) -> Result<MsgView, DecodeError> {
    match (a[1], a[2]) {
        (ValView::Text(method), ValView::Arr(params)) => Ok(
            MsgView::Notification(NoteView { method, params }),
        ),
        _ => Err(DecodeError::Invalid),
    }
}

/// Shape validation of a whole message value: an array of at least three
/// elements whose first element is the integer discriminant 0, 1 or 2.
pub open spec fn parse_msg(v: ValView) -> Result<MsgView, DecodeError> {
    match v {
        ValView::Arr(a) => if a.len() < 3 {
            Err(DecodeError::Invalid)
        } else {
            match a[0] {
                ValView::Num(t) => if t == 0 {
                    parse_req(a)
                } else if t == 1 {
                    parse_resp(a)
                } else if t == 2 {
                    parse_note(a)
                } else {
                    Err(DecodeError::Invalid)
                },
                _ => Err(DecodeError::Invalid),
            }
        },
        _ => Err(DecodeError::Invalid),
    }
}

/// A message the wire layer is exact on: its wire value is within the
/// encoder's bounds, and a failure response does not carry nil — on the
/// wire, a nil error slot means success.
pub open spec fn wf_msg(m: MsgView) -> bool {
    &&& wf_view(msg_value(m))
    &&& match m {
        MsgView::Request(r) => 0 <= r.id < 0x1_0000_0000,
        MsgView::Response(r) => {
            &&& 0 <= r.id < 0x1_0000_0000
            &&& !(r.result matches Err(e) && e == ValView::Nil)
        },
        MsgView::Notification(_) => true,
    }
}

/// The byte encoding of a message: its tagged wire value, serialized as
/// one MessagePack value.
pub open spec fn msg_bytes(m: MsgView) -> Seq<u8> {
    crate::wire::encoded_bytes(msg_value(m))
}

/// The view of a decode outcome.
pub open spec fn decoded_view(r: Result<Message, DecodeError>) -> Result<MsgView, DecodeError> {
    match r {
        Ok(m) => Ok(m@),
        Err(e) => Err(e),
    }
}

/// Validating the wire value built from a message gives back that message:
/// the shape rules of [`parse_msg`] exactly invert [`msg_value`] on every
/// well-formed message.
pub proof fn lemma_msg_round_trip(m: MsgView)
    requires
        wf_msg(m),
    ensures
        parse_msg(msg_value(m)) == Ok::<MsgView, DecodeError>(m),
{
    match m {
        MsgView::Request(_) => {
            assert(parse_msg(msg_value(m)) matches Ok(m2) && m2 =~~= m);
        },
        MsgView::Response(_) => {
            assert(parse_msg(msg_value(m)) matches Ok(m2) && m2 =~~= m);
        },
        MsgView::Notification(_) => {
            assert(parse_msg(msg_value(m)) matches Ok(m2) && m2 =~~= m);
        },
    }
}

/// An unrecognized discriminant is rejected: whatever else an array
/// holds, if its first element is an integer other than 0, 1 or 2, it is
/// no message.
pub proof fn lemma_bad_discriminant(a: Seq<ValView>)
    requires
        a.len() >= 3,
        a[0] matches ValView::Num(t) && !(t == 0 || t == 1 || t == 2),
    ensures
        parse_msg(ValView::Arr(a)) == Err::<MsgView, DecodeError>(DecodeError::Invalid),
{
}

/// An array below its variant's minimum arity is rejected: three
/// elements at the least for any message, four for a request or a
/// response.
pub proof fn lemma_short_arity(a: Seq<ValView>)
    requires
        a.len() < 3 || (a.len() < 4 && (a[0] == ValView::Num(0) || a[0] == ValView::Num(1))),
    ensures
        parse_msg(ValView::Arr(a)) == Err::<MsgView, DecodeError>(DecodeError::Invalid),
{
}

/// Success and failure are mutually exclusive on the wire: a response
/// built from a success payload decodes back to that success, and one
/// built from a non-nil failure payload decodes back to that failure,
/// each carrying its payload verbatim.
pub proof fn lemma_response_exclusivity(r: RespView)
    requires
        wf_msg(MsgView::Response(r)),
    ensures
        ({
            let parsed = parse_msg(msg_value(MsgView::Response(r)));
            &&& parsed matches Ok(m2)
            &&& m2 matches MsgView::Response(r2)
            &&& (r2.result is Ok <==> r.result is Ok)
            &&& r2 == r
        }),
{
    lemma_msg_round_trip(MsgView::Response(r));
}

impl Message {
    /// Builds the tagged wire value of this message: exactly
    /// [`msg_value`] of its view.
    pub fn as_value(&self) -> (r: Val)
        ensures
            r@ == msg_value(self@),
    {
        match self {
            Message::Request(req) => {
                let mut elems: Vec<Val> = Vec::new();
                elems.push(Val::UInt(0));
                elems.push(Val::UInt(req.id as u64));
                elems.push(Val::Text(req.method.clone()));
                elems.push(Val::Arr(dup_values(&req.params)));
                let r = Val::Arr(elems);
                proof {
                    crate::value::lemma_seq_view(elems@);
                    assert(elems@[0]@ == ValView::Num(0));
                    assert(elems@[1]@ == ValView::Num(req.id as int));
                    assert(elems@[2]@ == ValView::Text(req.method@));
                    assert(elems@[3]@ == ValView::Arr(seq_view(req.params@)));
                    assert(seq_view(elems@) =~= msg_value(self@)->Arr_0);
                    assert(r@ =~~= msg_value(self@));
                }
                r
            },
            Message::Response(resp) => {
                let (error, result) = match &resp.result {
                    Ok(v) => (Val::Nil, crate::value::dup_value(v)),
                    Err(e) => (crate::value::dup_value(e), Val::Nil),
                };
                let mut elems: Vec<Val> = Vec::new();
                elems.push(Val::UInt(1));
                elems.push(Val::UInt(resp.id as u64));
                elems.push(error);
                elems.push(result);
                let r = Val::Arr(elems);
                proof {
                    crate::value::lemma_seq_view(elems@);
                    assert(elems@[0]@ == ValView::Num(1));
                    assert(elems@[1]@ == ValView::Num(resp.id as int));
                    assert(seq_view(elems@) =~= msg_value(self@)->Arr_0);
                    assert(r@ =~~= msg_value(self@));
                }
                r
            },
            Message::Notification(note) => {
                let mut elems: Vec<Val> = Vec::new();
                elems.push(Val::UInt(2));
                elems.push(Val::Text(note.method.clone()));
                elems.push(Val::Arr(dup_values(&note.params)));
                let r = Val::Arr(elems);
                proof {
                    crate::value::lemma_seq_view(elems@);
                    assert(elems@[0]@ == ValView::Num(2));
                    assert(elems@[1]@ == ValView::Text(note.method@));
                    assert(elems@[2]@ == ValView::Arr(seq_view(note.params@)));
                    assert(seq_view(elems@) =~= msg_value(self@)->Arr_0);
                    assert(r@ =~~= msg_value(self@));
                }
                r
            },
        }
    }

    /// Validates and destructures one wire value per the shape rules: the
    /// outcome is exactly what [`parse_msg`] says of the value's view.
    pub fn from_value(v: &Val) -> (r: Result<Message, DecodeError>)
        ensures
            decoded_view(r) == parse_msg(v@),
    {
        proof {
            crate::value::lemma_view_shape(*v);
        }
        let arr = match v {
            Val::Arr(a) => a,
            _ => {
                return Err(DecodeError::Invalid);
            },
        };
        proof {
            crate::value::lemma_seq_view(arr@);
        }
        if arr.len() < 3 {
            return Err(DecodeError::Invalid);
        }
        let tag = match &arr[0] {
            Val::UInt(t) => *t,
            Val::SInt(t) => if *t >= 0 && *t <= 2 {
                *t as u64
            } else {
                return Err(DecodeError::Invalid);
            },
            _ => {
                return Err(DecodeError::Invalid);
            },
        };
        if tag == 0 {
            let r = Self::request_from_array(arr);
            proof {
                assert(decoded_view(r) == parse_msg(v@));
            }
            r
        } else if tag == 1 {
            let r = Self::response_from_array(arr);
            proof {
                assert(decoded_view(r) == parse_msg(v@));
            }
            r
        } else if tag == 2 {
            let r = Self::notification_from_array(arr);
            proof {
                assert(decoded_view(r) == parse_msg(v@));
            }
            r
        } else {
            Err(DecodeError::Invalid)
        }
    }

    /// Serializes this message: the tagged array of [`msg_value`], encoded
    /// as one MessagePack value. Encoding a well-formed in-memory message
    /// always succeeds.
    pub fn pack(&self) -> (r: Vec<u8>)
        ensures
            r@ == msg_bytes(self@),
            r@.len() >= 1,
    {
        let v = self.as_value();
        crate::wire::encode_value(&v)
    }

    /// Reads one message off the front of a byte buffer. A buffer that
    /// starts with the encoding of a well-formed message decodes to
    /// exactly that message, whatever follows it; a buffer that is a
    /// proper prefix of such an encoding is reported `Truncated`, never
    /// `Invalid` and never accepted.
    pub fn decode(bytes: &Vec<u8>) -> (r: Result<Message, DecodeError>)
        ensures
            forall|m: MsgView|
                wf_msg(m) && (#[trigger] msg_bytes(m)).is_prefix_of(bytes@) ==> (r matches Ok(x)
                    && x@ == m),
            forall|m: MsgView|
                wf_msg(m) && bytes@.len() < (#[trigger] msg_bytes(m)).len()
                    && bytes@.is_prefix_of(msg_bytes(m)) ==> r == Err::<Message, DecodeError>(
                    DecodeError::Truncated,
                ),
    {
        let rv = crate::wire::decode_value(bytes);
        let r = match &rv {
            Ok(pair) => Self::from_value(&pair.0),
            Err(e) => Err(*e),
        };
        proof {
            assert forall|m: MsgView|
                wf_msg(m) && (#[trigger] msg_bytes(m)).is_prefix_of(bytes@) implies r matches Ok(x)
                && x@ == m by {
                assert(crate::wire::encoded_bytes(msg_value(m)).is_prefix_of(bytes@));
                lemma_msg_round_trip(m);
                match rv {
                    Ok(pair) => {
                        assert(pair.0@ == msg_value(m));
                        assert(decoded_view(r) == parse_msg(msg_value(m)));
                    },
                    Err(_) => {
                        assert(!crate::wire::encoded_bytes(msg_value(m)).is_prefix_of(bytes@));
                    },
                }
            }
            assert forall|m: MsgView|
                wf_msg(m) && bytes@.len() < (#[trigger] msg_bytes(m)).len() && bytes@.is_prefix_of(
                msg_bytes(m)) implies r == Err::<Message, DecodeError>(DecodeError::Truncated) by {
                assert(bytes@.is_prefix_of(crate::wire::encoded_bytes(msg_value(m))));
                match rv {
                    Ok(_) => {
                        assert(false);
                    },
                    Err(e) => {
                        assert(e == DecodeError::Truncated);
                    },
                }
            }
        }
        r
    }

    /// Destructures `[0, id, method, params]` into a request.
    fn request_from_array(arr: &Vec<Val>) -> (r: Result<Message, DecodeError>)
        requires
            arr@.len() >= 3,
        ensures
            decoded_view(r) == parse_req(seq_view(arr@)),
    {
        if arr.len() < 4 {
            return Err(DecodeError::Invalid);
        }
        let id = match &arr[1] {
            Val::UInt(n) => if *n < 0x1_0000_0000 {
                *n as u32
            } else {
                return Err(DecodeError::Invalid);
            },
            Val::SInt(n) => if *n >= 0 && *n < 0x1_0000_0000 {
                *n as u32
            } else {
                return Err(DecodeError::Invalid);
            },
            _ => {
                return Err(DecodeError::Invalid);
            },
        };
        let method = match &arr[2] {
            Val::Text(s) => s.clone(),
            _ => {
                return Err(DecodeError::Invalid);
            },
        };
        let params = match &arr[3] {
            Val::Arr(xs) => dup_values(xs),
            _ => {
                return Err(DecodeError::Invalid);
            },
        };
        let msg = Message::Request(Request { id, method, params });
        proof {
            assert(parse_req(seq_view(arr@)) matches Ok(mv) && msg@ =~~= mv);
        }
        Ok(msg)
    }

    /// Destructures `[1, id, error, result]` into a response.
    fn response_from_array(arr: &Vec<Val>) -> (r: Result<Message, DecodeError>)
        requires
            arr@.len() >= 3,
        ensures
            decoded_view(r) == parse_resp(seq_view(arr@)),
    {
        if arr.len() < 4 {
            return Err(DecodeError::Invalid);
        }
        let id = match &arr[1] {
            Val::UInt(n) => if *n < 0x1_0000_0000 {
                *n as u32
            } else {
                return Err(DecodeError::Invalid);
            },
            Val::SInt(n) => if *n >= 0 && *n < 0x1_0000_0000 {
                *n as u32
            } else {
                return Err(DecodeError::Invalid);
            },
            _ => {
                return Err(DecodeError::Invalid);
            },
        };
        let is_success = match &arr[2] {
            Val::Nil => true,
            _ => false,
        };
        let result = if is_success {
            Ok(crate::value::dup_value(&arr[3]))
        } else {
            Err(crate::value::dup_value(&arr[2]))
        };
        let msg = Message::Response(Response { id, result });
        proof {
            assert(parse_resp(seq_view(arr@)) matches Ok(mv) && msg@ =~~= mv);
        }
        Ok(msg)
    }

    /// Destructures `[2, method, params]` into a notification.
    fn notification_from_array(arr: &Vec<Val>) -> (r: Result<Message, DecodeError>)
        requires
            arr@.len() >= 3,
        ensures
            decoded_view(r) == parse_note(seq_view(arr@)),
    {
        let method = match &arr[1] {
            Val::Text(s) => s.clone(),
            _ => {
                return Err(DecodeError::Invalid);
            },
        };
        let params = match &arr[2] {
            Val::Arr(xs) => dup_values(xs),
            _ => {
                return Err(DecodeError::Invalid);
            },
        };
        let msg = Message::Notification(Notification { method, params });
        proof {
            assert(parse_note(seq_view(arr@)) matches Ok(mv) && msg@ =~~= mv);
        }
        Ok(msg)
    }
}

} // verus!
