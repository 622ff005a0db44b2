//! The MessagePack value tree: the structured "any value" type that carries
//! the parameters and results of RPC messages.
//!
//! Floating-point values have no place in this model; a message whose value
//! tree contains one is rejected as invalid by the decoder.

use vstd::prelude::*;

verus! {

broadcast use vstd::std_specs::vec::group_vec_axioms, vstd::seq::group_seq_axioms;

/// A MessagePack value. An integer is carried as `UInt` or `SInt`; two
/// trees that differ only in how a non-negative integer is carried have
/// the same view, and the wire encoder writes them the same way.
#[derive(Debug, PartialEq)]
pub enum Val {
    Nil,
    Bool(bool),
    UInt(u64),
    SInt(i64),
    Text(String),
    Bin(Vec<u8>),
    Arr(Vec<Val>),
    Dict(Vec<(Val, Val)>),
    Ext(i8, Vec<u8>),
}

/// The mathematical view of a [`Val`]: integers collapse to `int`, so two
/// trees that differ only in how an integer is carried have the same view.
#[verifier::ext_equal]
pub enum ValView {
    Nil,
    Bool(bool),
    Num(int),
    Text(Seq<char>),
    Bin(Seq<u8>),
    Arr(Seq<ValView>),
    Dict(Seq<(ValView, ValView)>),
    Ext(int, Seq<u8>),
}

impl View for Val {
    type V = ValView;

    open spec fn view(&self) -> ValView
        decreases self,
    {
        match self {
            Val::Nil => ValView::Nil,
            Val::Bool(b) => ValView::Bool(*b),
            Val::UInt(n) => ValView::Num(*n as int),
            Val::SInt(n) => ValView::Num(*n as int),
            Val::Text(s) => ValView::Text(s@),
            Val::Bin(b) => ValView::Bin(b@),
            Val::Arr(xs) => ValView::Arr(seq_view(xs@)),
            Val::Dict(ps) => ValView::Dict(entries_view(ps@)),
            Val::Ext(t, b) => ValView::Ext(*t as int, b@),
        }
    }
}

/// The view of one key-value entry of a [`Val::Dict`].
pub open spec fn entry_view(p: (Val, Val)) -> (ValView, ValView)
    decreases p,
{
    (p.0@, p.1@)
}

/// The views of the entries of a [`Val::Dict`].
pub open spec fn entries_view(s: Seq<(Val, Val)>) -> Seq<(ValView, ValView)>
    decreases s,
{
    Seq::new(
        s.len(),
        |i: int|
            if 0 <= i < s.len() {
                entry_view(s[i])
            } else {
                (ValView::Nil, ValView::Nil)
            },
    )
}

/// Bounds under which the wire encoder and decoder are exact: every integer
/// fits a MessagePack integer, every string, binary, array and map is short
/// enough for a 32-bit length field, and nesting stays within the reach of
/// the decoder. `depth` is the nesting budget still available.
pub open spec fn size_ok(v: ValView, depth: nat) -> bool
    decreases depth,
{
    match v {
        ValView::Nil => true,
        ValView::Bool(_) => true,
        ValView::Num(i) => -0x8000_0000_0000_0000 <= i < 0x1_0000_0000_0000_0000,
        ValView::Text(s) => s.len() < 0x4000_0000,
        ValView::Bin(b) => b.len() < 0x1_0000_0000,
        ValView::Arr(xs) => {
            &&& depth > 0
            &&& xs.len() < 0x1_0000_0000
            &&& forall|i: int| 0 <= i < xs.len() ==> size_ok(#[trigger] xs[i], (depth - 1) as nat)
        },
        ValView::Dict(ps) => {
            &&& depth > 0
            &&& ps.len() < 0x1_0000_0000
            &&& forall|i: int|
                0 <= i < ps.len() ==> size_ok(#[trigger] ps[i].0, (depth - 1) as nat)
                    && size_ok(ps[i].1, (depth - 1) as nat)
        },
        ValView::Ext(t, b) => -128 <= t < 128 && b.len() < 0x1_0000_0000,
    }
}

/// The nesting budget granted to a well-formed value. The wire decoder
/// recurses a bounded number of times per nesting level and gives up past
/// 1024 frames; 256 levels stay comfortably within that.
pub open spec fn depth_limit() -> nat {
    256
}

/// A value the wire layer is exact on: see [`size_ok`].
pub open spec fn wf_view(v: ValView) -> bool {
    size_ok(v, depth_limit())
}

/// The views of the elements of a sequence of values.
pub open spec fn seq_view(s: Seq<Val>) -> Seq<ValView>
    decreases s,
{
    Seq::new(s.len(), |i: int| if 0 <= i < s.len() { s[i]@ } else { ValView::Nil })
}


/// `seq_view` is the pointwise view of a sequence of values.
pub proof fn lemma_seq_view(s: Seq<Val>)
    ensures
        seq_view(s).len() == s.len(),
        forall|i: int| 0 <= i < s.len() ==> #[trigger] seq_view(s)[i] == s[i]@,
{
}

/// A deep copy of a value tree, with the same view.
#[verifier::loop_isolation(false)]
pub fn dup_value(v: &Val) -> (r: Val)
    ensures
        r@ == v@,
    decreases *v,
{
    match v {
        Val::Nil => Val::Nil,
        Val::Bool(b) => Val::Bool(*b),
        Val::UInt(n) => Val::UInt(*n),
        Val::SInt(n) => Val::SInt(*n),
        Val::Text(s) => Val::Text(s.clone()),
        Val::Bin(b) => Val::Bin(b.clone()),
        Val::Arr(xs) => {
            let mut out: Vec<Val> = Vec::new();
            let mut i: usize = 0;
            while i < xs.len()
                invariant
                    *v == Val::Arr(*xs),
                    i <= xs.len(),
                    out@.len() == i as int,
                    forall|j: int| 0 <= j < i ==> #[trigger] out@[j]@ == xs@[j]@,
                decreases xs.len() - i,
            {
                out.push(dup_value(&xs[i]));
                i = i + 1;
            }
            proof {
                let s1 = Val::Arr(out)@;
                let s2 = (*v)@;
                assert forall|j: int| 0 <= j < s1->Arr_0.len() implies s1->Arr_0[j] == s2->Arr_0[j] by {
                    assert(s1->Arr_0[j] == out@[j]@);
                    assert(s2->Arr_0[j] == xs@[j]@);
                }
                assert(s1->Arr_0 =~= s2->Arr_0);
                assert(Val::Arr(out)@ =~~= (*v)@);
            }
            Val::Arr(out)
        },
        Val::Dict(ps) => {
            let mut out: Vec<(Val, Val)> = Vec::new();
            let mut i: usize = 0;
            while i < ps.len()
                invariant
                    *v == Val::Dict(*ps),
                    i <= ps.len(),
                    out@.len() == i as int,
                    forall|j: int| 0 <= j < i ==> #[trigger] entry_view(out@[j]) == entry_view(ps@[j]),
                decreases ps.len() - i,
            {
                let p = &ps[i];
                let k = dup_value(&p.0);
                let w = dup_value(&p.1);
                out.push((k, w));
                proof {
                    assert(entry_view(out@[i as int]) == entry_view(ps@[i as int]));
                }
                i = i + 1;
            }
            proof {
                let s1 = Val::Dict(out)@;
                let s2 = (*v)@;
                assert forall|j: int| 0 <= j < s1->Dict_0.len() implies s1->Dict_0[j]
                    == s2->Dict_0[j] by {
                    assert(s1->Dict_0.len() == out@.len());
                    assert(0 <= j < out@.len());
                    assert(s1->Dict_0[j] == entry_view(out@[j]));
                    assert(s2->Dict_0[j] == entry_view(ps@[j]));
                }
                assert(s1->Dict_0 =~= s2->Dict_0);
                assert(Val::Dict(out)@ =~~= (*v)@);
            }
            Val::Dict(out)
        },
        Val::Ext(t, b) => Val::Ext(*t, b.clone()),
    }
}

/// A deep copy of a sequence of values, with the same views.
pub fn dup_values(xs: &Vec<Val>) -> (r: Vec<Val>)
    ensures
        r@.len() == xs@.len(),
        forall|j: int| 0 <= j < xs@.len() ==> #[trigger] r@[j]@ == xs@[j]@,
        seq_view(r@) == seq_view(xs@),
{
    let mut out: Vec<Val> = Vec::new();
    let mut i: usize = 0;
    while i < xs.len()
        invariant
            i <= xs.len(),
            out@.len() == i as int,
            forall|j: int| 0 <= j < i ==> #[trigger] out@[j]@ == xs@[j]@,
        decreases xs.len() - i,
    {
        out.push(dup_value(&xs[i]));
        i = i + 1;
    }
    proof {
        assert forall|j: int| 0 <= j < xs@.len() implies seq_view(out@)[j] == seq_view(xs@)[j] by {
            assert(seq_view(out@)[j] == out@[j]@);
            assert(seq_view(xs@)[j] == xs@[j]@);
        }
        assert(seq_view(out@) =~= seq_view(xs@));
    }
    out
}

/// A value's view is an array exactly when the value is one, and then it
/// is the array of the element views.
pub proof fn lemma_view_shape(v: Val)
    ensures
        v@ is Arr <==> v is Arr,
        v is Arr ==> v@ == ValView::Arr(seq_view(v->Arr_0@)),
{
    match v {
        Val::Nil => {},
        Val::Bool(_) => {},
        Val::UInt(_) => {},
        Val::SInt(_) => {},
        Val::Text(_) => {},
        Val::Bin(_) => {},
        Val::Arr(_) => {},
        Val::Dict(_) => {},
        Val::Ext(_, _) => {},
    }
}

} // verus!
