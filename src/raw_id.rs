use vstd::prelude::*;
use vstd::std_specs::cmp::PartialOrdSpec;

verus! {

/// An identifier for interned keys: in effect a `u32` below `RawId::MAX`.
///
/// The value is stored shifted up by one, so the stored word is never zero.
#[derive(Clone, Copy, PartialEq, Eq, Structural, Ord, Hash)]
pub struct RawId {
    value: u32,
}

impl RawId {
    /// The exclusive upper bound of the values a `RawId` can hold. The values
    /// from here up to `u32::MAX` are reserved as sentinels.
    pub const MAX: u32 = 0xFFFF_FF00;

    #[verifier::type_invariant]
    spec fn well_formed(self) -> bool {
        1 <= self.value <= Self::MAX
    }

    /// The id whose value is `n`, for `n < MAX`.
    pub closed spec fn spec_new(n: nat) -> RawId {
        RawId { value: (n + 1) as u32 }
    }

    /// Creates the id of `value`, which must lie below `MAX`.
    pub fn from_u32(value: u32) -> (r: RawId)
        requires
            value < Self::MAX,
        ensures
            r == RawId::spec_new(value as nat),
            r@ == value,
    {
        RawId { value: value + 1 }
    }

    /// Creates the id of `value`, which must lie below `MAX`.
    pub fn from_usize(value: usize) -> (r: RawId)
        requires
            value < Self::MAX,
        ensures
            r == RawId::spec_new(value as nat),
            r@ == value,
    {
        RawId { value: value as u32 + 1 }
    }

    /// The id of `value`, or `None` where `value` is `MAX` or above.
    pub fn try_from_u32(value: u32) -> (r: Option<RawId>)
        ensures
            r is Some <==> value < Self::MAX,
            r matches Some(id) ==> id == RawId::spec_new(value as nat) && id@ == value,
    {
        if value < Self::MAX {
            Some(RawId::from_u32(value))
        } else {
            None
        }
    }

    /// The id of `value`, or `None` where `value` is `MAX` or above.
    pub fn try_from_usize(value: usize) -> (r: Option<RawId>)
        ensures
            r is Some <==> value < Self::MAX,
            r matches Some(id) ==> id == RawId::spec_new(value as nat) && id@ == value,
    {
        if value < Self::MAX as usize {
            Some(RawId::from_usize(value))
        } else {
            None
        }
    }

    /// Convert this id into a `u32`.
    pub fn as_u32(self) -> (r: u32)
        ensures
            r == self@,
            r < Self::MAX,
    {
        proof {
            use_type_invariant(&self);
        }
        self.value - 1
    }

    /// Convert this id into a `usize`.
    pub fn as_usize(self) -> (r: usize)
        ensures
            r == self@,
            r < Self::MAX,
    {
        self.as_u32() as usize
    }

    /// Renders the id as the decimal digits of its value, with no decoration.
    pub fn to_string(&self) -> (r: String)
        ensures
            r@ == decimal_text(self@),
    {
        decimal_string(self.as_u32())
    }

    /// Every id reads back as the value it was made from, for each value
    /// below `MAX`.
    pub proof fn lemma_round_trip(n: nat)
        requires
            n < Self::MAX,
        ensures
            RawId::spec_new(n)@ == n,
    {
    }

    /// Two ids made from values below `MAX` are equal exactly when the values
    /// are, and one is less than the other exactly when its value is.
    pub proof fn lemma_order_follows_value(n1: nat, n2: nat)
        requires
            n1 < Self::MAX,
            n2 < Self::MAX,
        ensures
            (RawId::spec_new(n1) == RawId::spec_new(n2)) <==> n1 == n2,
            RawId::spec_new(n1).partial_cmp_spec(&RawId::spec_new(n2))
                == Some(core::cmp::Ordering::Less) <==> n1 < n2,
    {
    }
}

/// The decimal digit character for `d`, below ten.
pub open spec fn digit_char(d: nat) -> char
    recommends
        d < 10,
{
    seq!['0', '1', '2', '3', '4', '5', '6', '7', '8', '9'][d as int]
}

/// The decimal notation of `n`: its digits, most significant first, with no
/// leading zero but for zero itself.
pub open spec fn decimal_text(n: nat) -> Seq<char>
    decreases n,
{
    if n < 10 {
        seq![digit_char(n)]
    } else {
        decimal_text(n / 10).push(digit_char(n % 10))
    }
}

fn digit_str(d: u32) -> (r: &'static str)
    requires
        d < 10,
    ensures
        r@ == seq![digit_char(d as nat)],
{
    proof {
        reveal_strlit("0");
        reveal_strlit("1");
        reveal_strlit("2");
        reveal_strlit("3");
        reveal_strlit("4");
        reveal_strlit("5");
        reveal_strlit("6");
        reveal_strlit("7");
        reveal_strlit("8");
        reveal_strlit("9");
    }
    match d {
        0 => "0",
        1 => "1",
        2 => "2",
        3 => "3",
        4 => "4",
        5 => "5",
        6 => "6",
        7 => "7",
        8 => "8",
        _ => "9",
    }
}

fn decimal_string(n: u32) -> (r: String)
    ensures
        r@ == decimal_text(n as nat),
    decreases n,
{
    if n < 10 {
        let mut s = String::new();
        s.append(digit_str(n));
        s
    } else {
        let mut s = decimal_string(n / 10);
        s.append(digit_str(n % 10));
        s
    }
}

impl View for RawId {
    type V = nat;

    closed spec fn view(&self) -> nat {
        (self.value - 1) as nat
    }
}

impl PartialOrd for RawId {
    fn partial_cmp(&self, other: &RawId) -> (r: Option<core::cmp::Ordering>) {
        proof {
            use_type_invariant(self);
            use_type_invariant(other);
        }
        if self.value < other.value {
            Some(core::cmp::Ordering::Less)
        } else if self.value == other.value {
            Some(core::cmp::Ordering::Equal)
        } else {
            Some(core::cmp::Ordering::Greater)
        }
    }
}

impl vstd::std_specs::cmp::PartialOrdSpecImpl for RawId {
    open spec fn obeys_partial_cmp_spec() -> bool {
        true
    }

    open spec fn partial_cmp_spec(&self, other: &RawId) -> Option<core::cmp::Ordering> {
        if self@ < other@ {
            Some(core::cmp::Ordering::Less)
        } else if self@ == other@ {
            Some(core::cmp::Ordering::Equal)
        } else {
            Some(core::cmp::Ordering::Greater)
        }
    }
}

impl From<RawId> for u32 {
    fn from(raw: RawId) -> (r: u32) {
        raw.as_u32()
    }
}

impl vstd::std_specs::convert::FromSpecImpl<RawId> for u32 {
    open spec fn obeys_from_spec() -> bool {
        true
    }

    open spec fn from_spec(raw: RawId) -> u32 {
        raw@ as u32
    }
}

impl From<RawId> for usize {
    fn from(raw: RawId) -> (r: usize) {
        raw.as_usize()
    }
}

impl vstd::std_specs::convert::FromSpecImpl<RawId> for usize {
    open spec fn obeys_from_spec() -> bool {
        true
    }

    open spec fn from_spec(raw: RawId) -> usize {
        raw@ as usize
    }
}

} // verus!
