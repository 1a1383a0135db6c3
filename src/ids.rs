//! Object identities and their persisted text form.
use vstd::prelude::*;

verus! {

/// Identity of a game object: a 96-bit value kept as three 32-bit words,
/// most significant first.
#[derive(Clone, Copy, Debug, PartialEq, Eq, Structural)]
pub struct ObjectId {
    pub hi: u32,
    pub mid: u32,
    pub lo: u32,
}

/// One more than the largest identity value.
pub open spec fn id_limit() -> nat {
    0x1_0000_0000_0000_0000_0000_0000nat
}

impl ObjectId {
    pub open spec fn value(self) -> nat {
        (self.hi as nat) * 0x1_0000_0000_0000_0000nat + (self.mid as nat) * 0x1_0000_0000nat + (self.lo as nat)
    }
}

/// The identity whose value is `v < id_limit()`.
pub open spec fn id_of_value(v: nat) -> ObjectId {
    ObjectId {
        hi: (v / 0x1_0000_0000_0000_0000nat) as u32,
        mid: ((v / 0x1_0000_0000nat) % 0x1_0000_0000nat) as u32,
        lo: (v % 0x1_0000_0000nat) as u32,
    }
}

/// Lower-case hexadecimal digit for `d < 16`.
pub open spec fn hex_digit_char(d: nat) -> char {
    if d < 10 {
        ((d + 48) as u32) as char
    } else {
        ((d + 87) as u32) as char
    }
}

/// Value of a hexadecimal digit of either case.
pub open spec fn hex_digit_value(c: char) -> nat {
    if '0' <= c <= '9' {
        (c as u32 - 48) as nat
    } else if 'a' <= c <= 'f' {
        (c as u32 - 87) as nat
    } else {
        (c as u32 - 55) as nat
    }
}

pub open spec fn is_hex_digit(c: char) -> bool {
    ('0' <= c <= '9') || ('a' <= c <= 'f') || ('A' <= c <= 'F')
}

/// `v` in lower-case hexadecimal, without leading zeros.
pub open spec fn hex_text(v: nat) -> Seq<char>
    decreases v,
{
    if v < 16 {
        seq![hex_digit_char(v)]
    } else {
        hex_text(v / 16).push(hex_digit_char(v % 16))
    }
}

/// Value of a string of hexadecimal digits.
pub open spec fn hex_value(s: Seq<char>) -> nat
    decreases s.len(),
{
    if s.len() == 0 {
        0
    } else {
        hex_value(s.drop_last()) * 16 + hex_digit_value(s.last())
    }
}

/// Digits of a radix-16 number text: what follows an optional `+`.
pub open spec fn hex_body(s: Seq<char>) -> Seq<char> {
    if s.len() > 0 && s[0] == '+' {
        s.drop_first()
    } else {
        s
    }
}

/// The identity that a text names: an optional `+`, then one or more
/// hexadecimal digits of either case, with a value below `id_limit()`.
pub open spec fn id_of_text(s: Seq<char>) -> Option<ObjectId> {
    let body = hex_body(s);
    if body.len() > 0 && (forall|i: int| 0 <= i < body.len() ==> is_hex_digit(#[trigger] body[i]))
        && hex_value(body) < id_limit() {
        Some(id_of_value(hex_value(body)))
    } else {
        None
    }
}

/// Relies on the `Display` of screeps' `RawObjectId`: the packed value in
/// lower-case hexadecimal without leading zeros.
#[verifier::external_body]
fn format_raw_id(id: ObjectId) -> (r: String)
    ensures
        r@ == hex_text(id.value()),
{
    screeps::RawObjectId::from_packed([id.hi, id.mid, id.lo]).to_string()
}

/// Relies on the `FromStr` of screeps' `RawObjectId`: `u128::from_str_radix`
/// in radix 16, then refused at or above 2^96; words most significant first.
#[verifier::external_body]
fn parse_raw_id(s: &str) -> (r: Option<ObjectId>)
    ensures
        r == id_of_text(s@),
{
    match s.parse::<screeps::RawObjectId>() {
        Ok(raw) => {
            let packed: [u32; 3] = raw.into();
            Some(ObjectId { hi: packed[0], mid: packed[1], lo: packed[2] })
        },
        Err(_) => None,
    }
}

impl ObjectId {
    /// The text under which this identity is persisted.
    pub fn to_text(&self) -> (r: String)
        ensures
            r@ == hex_text(self.value()),
    {
        format_raw_id(*self)
    }

    /// The identity a persisted text names, `None` where the text is corrupt.
    pub fn from_text(s: &str) -> (r: Option<ObjectId>)
        ensures
            r == id_of_text(s@),
    {
        parse_raw_id(s)
    }

    /// Whether this identity orders before `other` by value.
    pub fn precedes(&self, other: &ObjectId) -> (r: bool)
        ensures
            r == (self.value() < other.value()),
    {
        if self.hi != other.hi {
            self.hi < other.hi
        } else if self.mid != other.mid {
            self.mid < other.mid
        } else {
            self.lo < other.lo
        }
    }
}

proof fn lemma_hex_digit(d: nat)
    requires
        d < 16,
    ensures
        is_hex_digit(hex_digit_char(d)),
        hex_digit_value(hex_digit_char(d)) == d,
        hex_digit_char(d) != '+',
{
}

proof fn lemma_hex_text(v: nat)
    ensures
        hex_text(v).len() > 0,
        forall|i: int| 0 <= i < hex_text(v).len() ==> is_hex_digit(#[trigger] hex_text(v)[i]),
        hex_value(hex_text(v)) == v,
    decreases v,
{
    if v < 16 {
        lemma_hex_digit(v);
        assert(hex_text(v).drop_last() =~= Seq::<char>::empty());
        assert(hex_value(Seq::<char>::empty()) == 0);
        assert(hex_value(hex_text(v)) == hex_value(hex_text(v).drop_last()) * 16 + hex_digit_value(hex_text(v).last()));
    } else {
        lemma_hex_text(v / 16);
        lemma_hex_digit(v % 16);
        let t = hex_text(v);
        assert(t.drop_last() =~= hex_text(v / 16));
        assert(t.last() == hex_digit_char(v % 16));
        assert(hex_value(t) == hex_value(t.drop_last()) * 16 + hex_digit_value(t.last()));
        assert(hex_value(t) == (v / 16) * 16 + v % 16);
        assert forall|i: int| 0 <= i < t.len() implies is_hex_digit(#[trigger] t[i]) by {
            if i < t.len() - 1 {
                assert(t[i] == hex_text(v / 16)[i]);
            }
        }
    }
}

proof fn lemma_id_value(id: ObjectId)
    ensures
        id.value() < id_limit(),
        id_of_value(id.value()) == id,
{
    let v = id.value();
    let h = id.hi as nat;
    let m = id.mid as nat;
    let l = id.lo as nat;
    assert(v < id_limit()) by (nonlinear_arith)
        requires
            v == h * 0x1_0000_0000_0000_0000nat + m * 0x1_0000_0000nat + l,
            h < 0x1_0000_0000nat,
            m < 0x1_0000_0000nat,
            l < 0x1_0000_0000nat,
    ;
    assert(v / 0x1_0000_0000_0000_0000nat == h) by (nonlinear_arith)
        requires
            v == h * 0x1_0000_0000_0000_0000nat + m * 0x1_0000_0000nat + l,
            m < 0x1_0000_0000nat,
            l < 0x1_0000_0000nat,
    ;
    assert(v / 0x1_0000_0000nat == h * 0x1_0000_0000nat + m) by (nonlinear_arith)
        requires
            v == h * 0x1_0000_0000_0000_0000nat + m * 0x1_0000_0000nat + l,
            l < 0x1_0000_0000nat,
    ;
    assert((h * 0x1_0000_0000nat + m) % 0x1_0000_0000nat == m) by (nonlinear_arith)
        requires
            m < 0x1_0000_0000nat,
    ;
    assert(v % 0x1_0000_0000nat == l) by (nonlinear_arith)
        requires
            v == h * 0x1_0000_0000_0000_0000nat + m * 0x1_0000_0000nat + l,
            l < 0x1_0000_0000nat,
    ;
}

/// An identity written to its persisted text and read back is the same
/// identity.
pub proof fn lemma_id_text_round_trip(id: ObjectId)
    ensures
        id_of_text(hex_text(id.value())) == Some(id),
{
    let t = hex_text(id.value());
    lemma_hex_text(id.value());
    lemma_id_value(id);
    assert(is_hex_digit(t[0]));
    assert(hex_body(t) == t);
}

/// Distinct identities have distinct values.
pub proof fn lemma_id_value_injective(a: ObjectId, b: ObjectId)
    requires
        a.value() == b.value(),
    ensures
        a == b,
{
    lemma_id_value(a);
    lemma_id_value(b);
}

} // verus!
