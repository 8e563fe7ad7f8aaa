use std::convert::Infallible;
use vstd::prelude::*;

verus! {

/// Why a blender turned a request away.
#[derive(Debug)]
pub struct Rejection {
    reason: Option<String>,
}

impl View for Rejection {
    type V = Option<Seq<char>>;

    closed spec fn view(&self) -> Option<Seq<char>> {
        match self.reason {
            Some(s) => Some(s@),
            None => None,
        }
    }
}

/// Makes a rejection that carries no reason.
pub fn reject() -> (r: Rejection)
    ensures
        r@ == None::<Seq<char>>,
{
    Rejection::new()
}

impl Rejection {
    /// The rejection that carries no reason.
    pub closed spec fn unreasoned() -> Rejection {
        Rejection { reason: None }
    }

    /// A rejection without a reason.
    pub fn new() -> (r: Rejection)
        ensures
            r@ == None::<Seq<char>>,
            r == Rejection::unreasoned(),
    {
        Rejection { reason: None }
    }

    /// A rejection that carries the given reason.
    pub fn with_reason(reason: String) -> (r: Rejection)
        ensures
            r@ == Some(reason@),
    {
        Rejection { reason: Some(reason) }
    }
}

/// The reason that combining two rejections gives: both reasons joined by `", "`
/// when both have one, the one that exists when only one does, and none otherwise.
pub open spec fn combined_reason(left: Option<Seq<char>>, right: Option<Seq<char>>) -> Option<
    Seq<char>,
> {
    match (left, right) {
        (Some(l), Some(r)) => Some(l + ", "@ + r),
        (Some(l), None) => Some(l),
        (None, Some(r)) => Some(r),
        (None, None) => None,
    }
}

/// When both rejections carry a reason, the combined reason is the whole left
/// reason, then `", "`, then the whole right reason: nothing of either is lost.
pub proof fn lemma_combined_reason_joins_both(left: Seq<char>, right: Seq<char>)
    ensures
        combined_reason(Some(left), Some(right)) == Some(left + ", "@ + right),
        combined_reason(Some(left), Some(right))->0.len() == left.len() + right.len() + 2,
        combined_reason(Some(left), Some(right))->0.subrange(0, left.len() as int) == left,
        combined_reason(Some(left), Some(right))->0.subrange(
            left.len() + 2 as int,
            left.len() + right.len() + 2 as int,
        ) == right,
{
    reveal_strlit(", ");
    let joined = left + ", "@ + right;
    assert(joined.subrange(0, left.len() as int) =~= left);
    assert(joined.subrange(left.len() + 2 as int, left.len() + right.len() + 2 as int) =~= right);
}

/// Combining with a rejection that carries no reason, on either side, keeps the
/// other rejection's reason.
pub proof fn lemma_combined_reason_identity(r: Option<Seq<char>>)
    ensures
        combined_reason(None, r) == r,
        combined_reason(r, None) == r,
{
}

/// Combining rejections is associative: combining `a` with `b` and then with `c`
/// gives the same reason as combining `a` with the combination of `b` and `c`.
pub proof fn lemma_combined_reason_associative(
    a: Option<Seq<char>>,
    b: Option<Seq<char>>,
    c: Option<Seq<char>>,
)
    ensures
        combined_reason(combined_reason(a, b), c) == combined_reason(a, combined_reason(b, c)),
{
    if a is Some && b is Some && c is Some {
        let (x, y, z) = (a->0, b->0, c->0);
        assert(x + ", "@ + y + ", "@ + z =~= x + ", "@ + (y + ", "@ + z));
    }
}

/// Marker for custom rejection reasons.
pub trait Reject: std::fmt::Debug + Sized + Send + Sync + 'static {}

/// Errors that can tell how they are reported.
pub trait IsReject: std::fmt::Debug + Send + Sync {
    fn status(&self) -> (s: i32)
        ensures
            s == 0,
    ;
}

/// How the error of a second stage merges with the error of a first stage.
pub trait CombineRejection<E>: Send + Sized {
    /// The single error type that both stages' errors convert into.
    type One: IsReject + From<Self> + From<E> + Into<Rejection>;

    /// The error that combining the two gives.
    type Combined: IsReject;

    fn combine(self, other: E) -> Self::Combined;
}

impl IsReject for Rejection {
    fn status(&self) -> (s: i32) {
        0
    }
}

impl IsReject for Infallible {
    fn status(&self) -> (s: i32) {
        0
    }
}

impl CombineRejection<Rejection> for Rejection {
    type One = Rejection;

    type Combined = Rejection;

    fn combine(self, other: Rejection) -> (c: Rejection)
        ensures
            c@ == combined_reason(self@, other@),
            self@ is Some && other@ is Some ==> c@ == Some(self@->0 + ", "@ + other@->0),
            self@ is Some && other@ is None ==> c@ == self@,
            self@ is None ==> c@ == other@,
    {
        let reason = match (self.reason, other.reason) {
            (Some(left), Some(right)) => Some(left.concat(", ").concat(right.as_str())),
            (Some(other), None) | (None, Some(other)) => Some(other),
            (None, None) => None,
        };
        Rejection { reason }
    }
}

impl CombineRejection<Infallible> for Rejection {
    type One = Rejection;

    type Combined = Infallible;

    fn combine(self, other: Infallible) -> (c: Infallible)
        ensures
            c == other,
    {
        other
    }
}

impl CombineRejection<Rejection> for Infallible {
    type One = Rejection;

    type Combined = Infallible;

    fn combine(self, other: Rejection) -> (c: Infallible)
        ensures
            c == self,
    {
        self
    }
}

impl CombineRejection<Infallible> for Infallible {
    type One = Infallible;

    type Combined = Infallible;

    fn combine(self, other: Infallible) -> (c: Infallible)
        ensures
            c == self,
    {
        self
    }
}

/// `Infallible` has no value, so this conversion is never run; its body only
/// has to have the right type.
impl From<Infallible> for Rejection {
    fn from(infallible: Infallible) -> (r: Rejection) {
        Rejection::new()
    }
}

impl vstd::std_specs::convert::FromSpecImpl<Infallible> for Rejection {
    open spec fn obeys_from_spec() -> bool {
        true
    }

    open spec fn from_spec(v: Infallible) -> Rejection {
        Rejection::unreasoned()
    }
}

} // verus!
