//! Claim sets: the name/value pairs carried in the payload of a JWT.
use vstd::prelude::*;

verus! {

/// The value of one claim.
#[derive(Debug, Clone)]
pub enum ClaimValue {
    Text(String),
    Number(i64),
    Flag(bool),
    /// A value of another JSON shape (an array, an object, null, a fraction).
    Other,
}

/// The mathematical value of a claim.
pub ghost enum ClaimView {
    Text(Seq<char>),
    Number(int),
    Flag(bool),
    Other,
}

impl View for ClaimValue {
    type V = ClaimView;

    open spec fn view(&self) -> ClaimView {
        match self {
            ClaimValue::Text(s) => ClaimView::Text(s@),
            ClaimValue::Number(n) => ClaimView::Number(*n as int),
            ClaimValue::Flag(b) => ClaimView::Flag(*b),
            ClaimValue::Other => ClaimView::Other,
        }
    }
}

/// One named claim.
#[derive(Debug, Clone)]
pub struct Claim {
    pub name: String,
    pub value: ClaimValue,
}

impl View for Claim {
    type V = (Seq<char>, ClaimView);

    open spec fn view(&self) -> (Seq<char>, ClaimView) {
        (self.name@, self.value@)
    }
}

/// The mathematical value of a claim set.
pub open spec fn claims_view(c: Seq<Claim>) -> Seq<(Seq<char>, ClaimView)> {
    c.map_values(|x: Claim| x@)
}

/// A claim with a text value.
pub fn text_claim(name: &str, value: &str) -> (r: Claim)
    ensures
        r@ == (name@, ClaimView::Text(value@)),
{
    Claim { name: String::from_str(name), value: ClaimValue::Text(String::from_str(value)) }
}

/// A claim with an integer value.
pub fn number_claim(name: &str, value: i64) -> (r: Claim)
    ensures
        r@ == (name@, ClaimView::Number(value as int)),
{
    Claim { name: String::from_str(name), value: ClaimValue::Number(value) }
}

/// A claim with a boolean value.
pub fn flag_claim(name: &str, value: bool) -> (r: Claim)
    ensures
        r@ == (name@, ClaimView::Flag(value)),
{
    Claim { name: String::from_str(name), value: ClaimValue::Flag(value) }
}

/// The text of the first claim called `name` in `c`, when that claim is text.
pub open spec fn text_claim_of(c: Seq<(Seq<char>, ClaimView)>, name: Seq<char>) -> Option<Seq<char>>
    decreases c.len(),
{
    if c.len() == 0 {
        None
    } else if c[0].0 == name {
        match c[0].1 {
            ClaimView::Text(s) => Some(s),
            _ => None,
        }
    } else {
        text_claim_of(c.drop_first(), name)
    }
}

/// Looks up the text of the first claim called `name`.
pub fn find_text_claim(claims: &Vec<Claim>, name: &str) -> (r: Option<String>)
    ensures
        r matches Some(s) ==> text_claim_of(claims_view(claims@), name@) == Some(s@),
        r is None ==> text_claim_of(claims_view(claims@), name@) is None,
{
    let mut i: usize = 0;
    assert(claims_view(claims@).subrange(0, claims@.len() as int) =~= claims_view(claims@));
    while i < claims.len()
        invariant
            i <= claims@.len(),
            text_claim_of(claims_view(claims@), name@) == text_claim_of(
                claims_view(claims@).subrange(i as int, claims@.len() as int),
                name@,
            ),
        decreases claims@.len() - i,
    {
        let ghost rest = claims_view(claims@).subrange(i as int, claims@.len() as int);
        assert(rest[0] == claims@[i as int]@);
        assert(rest.drop_first() =~= claims_view(claims@).subrange(i + 1, claims@.len() as int));
        if crate::ct::ct_eq(claims[i].name.as_str(), name) {
            return match &claims[i].value {
                ClaimValue::Text(s) => Some(s.clone()),
                _ => None,
            };
        }
        i = i + 1;
    }
    None
}

} // verus!
