use core::cmp::Ordering;
use core::ops::Add;
use vstd::prelude::*;

verus! {

/// A `u16` whose additions stop at `u16::MAX` instead of overflowing.
#[derive(Debug, Clone, Copy, PartialEq, Eq, Structural, Ord)]
pub struct SaturatingU16 {
    value: u16,
}

/// The sum of two numbers, capped at `u16::MAX`.
pub open spec fn saturated_sum(a: nat, b: nat) -> nat {
    if a + b > u16::MAX {
        u16::MAX as nat
    } else {
        a + b
    }
}

/// The order of two numbers.
pub open spec fn order_of(a: nat, b: nat) -> Ordering {
    if a < b {
        Ordering::Less
    } else if a == b {
        Ordering::Equal
    } else {
        Ordering::Greater
    }
}

impl View for SaturatingU16 {
    type V = nat;

    closed spec fn view(&self) -> nat {
        self.value as nat
    }
}

impl SaturatingU16 {
    /// The value that holds `v`.
    pub closed spec fn spec_new(v: u16) -> SaturatingU16 {
        SaturatingU16 { value: v }
    }

    pub broadcast proof fn lemma_spec_new(v: u16)
        ensures
            #[trigger] SaturatingU16::spec_new(v)@ == v,
    {
    }

    pub fn new(value: u16) -> (r: SaturatingU16)
        ensures
            r@ == value,
    {
        SaturatingU16 { value: if value < u16::MAX { value } else { u16::MAX } }
    }

    /// The number held.
    pub fn value(&self) -> (r: u16)
        ensures
            r == self@,
    {
        self.value
    }

    fn saturating_add(self, other: u16) -> (r: SaturatingU16)
        ensures
            r@ == saturated_sum(self@, other as nat),
    {
        SaturatingU16::new(self.value.saturating_add(other))
    }
}

impl From<u16> for SaturatingU16 {
    fn from(value: u16) -> (r: SaturatingU16) {
        SaturatingU16::new(value)
    }
}

impl vstd::std_specs::convert::FromSpecImpl<u16> for SaturatingU16 {
    open spec fn obeys_from_spec() -> bool {
        true
    }

    open spec fn from_spec(v: u16) -> SaturatingU16 {
        SaturatingU16::spec_new(v)
    }
}

impl From<u8> for SaturatingU16 {
    fn from(value: u8) -> (r: SaturatingU16) {
        SaturatingU16::new(value as u16)
    }
}

impl vstd::std_specs::convert::FromSpecImpl<u8> for SaturatingU16 {
    open spec fn obeys_from_spec() -> bool {
        true
    }

    open spec fn from_spec(v: u8) -> SaturatingU16 {
        SaturatingU16::spec_new(v as u16)
    }
}

impl<'a> From<&'a u16> for SaturatingU16 {
    fn from(value: &'a u16) -> (r: SaturatingU16) {
        SaturatingU16::new(*value)
    }
}

impl<'a> vstd::std_specs::convert::FromSpecImpl<&'a u16> for SaturatingU16 {
    open spec fn obeys_from_spec() -> bool {
        true
    }

    open spec fn from_spec(v: &'a u16) -> SaturatingU16 {
        SaturatingU16::spec_new(*v)
    }
}

impl<'a> From<&'a u8> for SaturatingU16 {
    fn from(value: &'a u8) -> (r: SaturatingU16) {
        SaturatingU16::new(*value as u16)
    }
}

impl<'a> vstd::std_specs::convert::FromSpecImpl<&'a u8> for SaturatingU16 {
    open spec fn obeys_from_spec() -> bool {
        true
    }

    open spec fn from_spec(v: &'a u8) -> SaturatingU16 {
        SaturatingU16::spec_new(*v as u16)
    }
}

impl Add<SaturatingU16> for SaturatingU16 {
    type Output = SaturatingU16;

    fn add(self, other: SaturatingU16) -> (r: SaturatingU16) {
        self.saturating_add(other.value)
    }
}

impl vstd::std_specs::ops::AddSpecImpl<SaturatingU16> for SaturatingU16 {
    open spec fn obeys_add_spec() -> bool {
        true
    }

    open spec fn add_req(self, other: SaturatingU16) -> bool {
        true
    }

    open spec fn add_spec(self, other: SaturatingU16) -> SaturatingU16 {
        SaturatingU16::spec_new(saturated_sum(self@, other@) as u16)
    }
}

impl Add<u16> for SaturatingU16 {
    type Output = SaturatingU16;

    fn add(self, other: u16) -> (r: SaturatingU16) {
        self.saturating_add(other)
    }
}

impl vstd::std_specs::ops::AddSpecImpl<u16> for SaturatingU16 {
    open spec fn obeys_add_spec() -> bool {
        true
    }

    open spec fn add_req(self, other: u16) -> bool {
        true
    }

    open spec fn add_spec(self, other: u16) -> SaturatingU16 {
        SaturatingU16::spec_new(saturated_sum(self@, other as nat) as u16)
    }
}

impl<'a> Add<&'a u16> for SaturatingU16 {
    type Output = SaturatingU16;

    fn add(self, other: &'a u16) -> (r: SaturatingU16) {
        self.saturating_add(*other)
    }
}

impl<'a> vstd::std_specs::ops::AddSpecImpl<&'a u16> for SaturatingU16 {
    open spec fn obeys_add_spec() -> bool {
        true
    }

    open spec fn add_req(self, other: &'a u16) -> bool {
        true
    }

    open spec fn add_spec(self, other: &'a u16) -> SaturatingU16 {
        SaturatingU16::spec_new(saturated_sum(self@, *other as nat) as u16)
    }
}

impl<'a> Add<&'a SaturatingU16> for SaturatingU16 {
    type Output = SaturatingU16;

    fn add(self, other: &'a SaturatingU16) -> (r: SaturatingU16) {
        self.saturating_add(other.value)
    }
}

impl<'a> vstd::std_specs::ops::AddSpecImpl<&'a SaturatingU16> for SaturatingU16 {
    open spec fn obeys_add_spec() -> bool {
        true
    }

    open spec fn add_req(self, other: &'a SaturatingU16) -> bool {
        true
    }

    open spec fn add_spec(self, other: &'a SaturatingU16) -> SaturatingU16 {
        SaturatingU16::spec_new(saturated_sum(self@, other@) as u16)
    }
}

impl PartialOrd for SaturatingU16 {
    fn partial_cmp(&self, other: &SaturatingU16) -> (r: Option<Ordering>) {
        if self.value < other.value {
            Some(Ordering::Less)
        } else if self.value == other.value {
            Some(Ordering::Equal)
        } else {
            Some(Ordering::Greater)
        }
    }
}

impl vstd::std_specs::cmp::PartialOrdSpecImpl for SaturatingU16 {
    open spec fn obeys_partial_cmp_spec() -> bool {
        true
    }

    open spec fn partial_cmp_spec(&self, other: &SaturatingU16) -> Option<Ordering> {
        Some(order_of(self@, other@))
    }
}

impl PartialEq<u16> for SaturatingU16 {
    fn eq(&self, other: &u16) -> (r: bool) {
        self.value == *other
    }
}

impl vstd::std_specs::cmp::PartialEqSpecImpl<u16> for SaturatingU16 {
    open spec fn obeys_eq_spec() -> bool {
        true
    }

    open spec fn eq_spec(&self, other: &u16) -> bool {
        self@ == *other as nat
    }
}

} // verus!
