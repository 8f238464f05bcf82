//! State-dependent selector flags.

use vstd::prelude::*;
use vstd::string::StringExecFns;

verus! {

/// A set of pseudo-classes, one bit for each.
#[derive(Clone, Copy, Debug, PartialEq, Eq, Hash, Structural)]
pub struct PseudoClass {
    /// The flags that are set.
    pub bits: u16,
}

/// The number of bits that are set in `bits`.
pub open spec fn count_ones(bits: u16) -> nat
    decreases bits,
{
    if bits == 0 {
        0
    } else {
        (bits % 2) as nat + count_ones(bits / 2)
    }
}

/// No more bits are set than there are powers of two below `bound`.
pub proof fn lemma_count_ones_bound(bits: u16, width: nat, bound: nat)
    requires
        bits < bound,
        bound == vstd::arithmetic::power2::pow2(width),
    ensures
        count_ones(bits) <= width,
    decreases bits,
{
    if bits != 0 {
        vstd::arithmetic::power2::lemma2_to64();
        if width == 0 {
        } else {
            vstd::arithmetic::power2::lemma_pow2_unfold(width);
            let half = vstd::arithmetic::power2::pow2((width - 1) as nat);
            lemma_count_ones_bound(bits / 2, (width - 1) as nat, half);
        }
    }
}

impl PseudoClass {
    /// Bit of the flag that says that the pointer rests on the node itself.
    pub const HOVER: u16 = 0x001;

    /// Bit of the flag that says that the pointer is within the bounds of the node.
    pub const OVER: u16 = 0x002;

    /// Bit of the flag that says that the node is being pressed.
    pub const ACTIVE: u16 = 0x004;

    /// Bit of the flag that says that the node has keyboard focus.
    pub const FOCUS: u16 = 0x008;

    /// Bit of the flag that says that the node is disabled.
    pub const DISABLED: u16 = 0x010;

    /// Bit of the flag that says that the node is checked.
    pub const CHECKED: u16 = 0x020;

    /// Bit of the flag that says that the node is selected.
    pub const SELECTED: u16 = 0x040;

    /// Bit of the flag that says that a state of the application's own.
    pub const CUSTOM: u16 = 0x080;

    /// Bit of the flag that says that the node or one of its descendants has focus.
    pub const FOCUS_WITHIN: u16 = 0x100;

    /// Bit of the flag that says that the focus of the node is to be shown.
    pub const FOCUS_VISIBLE: u16 = 0x200;

    /// Bit of the flag that says that the node is the root.
    pub const ROOT: u16 = 0x400;

    /// The flag that says that the pointer rests on the node itself.
    pub fn hover() -> (r: PseudoClass)
        ensures
            r.bits == Self::HOVER,
    {
        PseudoClass { bits: Self::HOVER }
    }

    /// The flag that says that the pointer is within the bounds of the node.
    pub fn over() -> (r: PseudoClass)
        ensures
            r.bits == Self::OVER,
    {
        PseudoClass { bits: Self::OVER }
    }

    /// The flag that says that the node is being pressed.
    pub fn active() -> (r: PseudoClass)
        ensures
            r.bits == Self::ACTIVE,
    {
        PseudoClass { bits: Self::ACTIVE }
    }

    /// The flag that says that the node has keyboard focus.
    pub fn focus() -> (r: PseudoClass)
        ensures
            r.bits == Self::FOCUS,
    {
        PseudoClass { bits: Self::FOCUS }
    }

    /// The flag that says that the node is disabled.
    pub fn disabled() -> (r: PseudoClass)
        ensures
            r.bits == Self::DISABLED,
    {
        PseudoClass { bits: Self::DISABLED }
    }

    /// The flag that says that the node is checked.
    pub fn checked() -> (r: PseudoClass)
        ensures
            r.bits == Self::CHECKED,
    {
        PseudoClass { bits: Self::CHECKED }
    }

    /// The flag that says that the node is selected.
    pub fn selected() -> (r: PseudoClass)
        ensures
            r.bits == Self::SELECTED,
    {
        PseudoClass { bits: Self::SELECTED }
    }

    /// The flag that says that a state of the application's own.
    pub fn custom() -> (r: PseudoClass)
        ensures
            r.bits == Self::CUSTOM,
    {
        PseudoClass { bits: Self::CUSTOM }
    }

    /// The flag that says that the node or one of its descendants has focus.
    pub fn focus_within() -> (r: PseudoClass)
        ensures
            r.bits == Self::FOCUS_WITHIN,
    {
        PseudoClass { bits: Self::FOCUS_WITHIN }
    }

    /// The flag that says that the focus of the node is to be shown.
    pub fn focus_visible() -> (r: PseudoClass)
        ensures
            r.bits == Self::FOCUS_VISIBLE,
    {
        PseudoClass { bits: Self::FOCUS_VISIBLE }
    }

    /// The flag that says that the node is the root.
    pub fn root() -> (r: PseudoClass)
        ensures
            r.bits == Self::ROOT,
    {
        PseudoClass { bits: Self::ROOT }
    }

    /// Whether no flag is set.
    pub open spec fn spec_is_empty(self) -> bool {
        self.bits == 0
    }

    /// Whether every flag of `other` is set in `self`.
    pub open spec fn spec_contains(self, other: PseudoClass) -> bool {
        self.bits & other.bits == other.bits
    }

    /// Whether `self` and `other` have a flag in common.
    pub open spec fn spec_intersects(self, other: PseudoClass) -> bool {
        self.bits & other.bits != 0
    }

    /// The set without any flag.
    pub fn empty() -> (r: PseudoClass)
        ensures
            r.bits == 0,
    {
        PseudoClass { bits: 0 }
    }

    /// The set of all eleven flags.
    pub fn all() -> (r: PseudoClass)
        ensures
            r.bits == 0x7ff,
    {
        PseudoClass { bits: 0x7ff }
    }

    /// The flags as a number.
    pub fn bits(&self) -> (r: u16)
        ensures
            r == self.bits,
    {
        self.bits
    }

    /// The set of the known flags among `bits`.
    pub fn from_bits_truncate(bits: u16) -> (r: PseudoClass)
        ensures
            r.bits == bits & 0x7ff,
    {
        PseudoClass { bits: bits & 0x7ff }
    }

    /// Returns true if no flag is set.
    pub fn is_empty(&self) -> (r: bool)
        ensures
            r == self.spec_is_empty(),
    {
        self.bits == 0
    }

    /// Returns true if every flag of `other` is set in `self`.
    pub fn contains(&self, other: PseudoClass) -> (r: bool)
        ensures
            r == self.spec_contains(other),
    {
        self.bits & other.bits == other.bits
    }

    /// Returns true if `self` and `other` have a flag in common.
    pub fn intersects(&self, other: PseudoClass) -> (r: bool)
        ensures
            r == self.spec_intersects(other),
    {
        self.bits & other.bits != 0
    }

    /// The flags of both sets.
    pub fn union(self, other: PseudoClass) -> (r: PseudoClass)
        ensures
            r.bits == self.bits | other.bits,
    {
        PseudoClass { bits: self.bits | other.bits }
    }

    /// Sets the flags of `other`.
    pub fn insert(&mut self, other: PseudoClass)
        ensures
            final(self).bits == old(self).bits | other.bits,
    {
        self.bits = self.bits | other.bits;
    }

    /// Clears the flags of `other`.
    pub fn remove(&mut self, other: PseudoClass)
        ensures
            final(self).bits == old(self).bits & !other.bits,
    {
        self.bits = self.bits & !other.bits;
    }

    /// Sets the flags of `other` if `value` is true, and clears them if not.
    pub fn set(&mut self, other: PseudoClass, value: bool)
        ensures
            final(self).bits == if value {
                old(self).bits | other.bits
            } else {
                old(self).bits & !other.bits
            },
    {
        if value {
            self.insert(other);
        } else {
            self.remove(other);
        }
    }

    /// Returns the number of flags that are set.
    pub fn count(&self) -> (r: u32)
        ensures
            r == count_ones(self.bits),
            r <= 16,
    {
        let mut rest: u16 = self.bits;
        let mut r: u32 = 0;
        proof {
            vstd::arithmetic::power2::lemma2_to64();
            lemma_count_ones_bound(self.bits, 16, 0x10000);
        }
        while rest != 0
            invariant
                r + count_ones(rest) == count_ones(self.bits),
                count_ones(self.bits) <= 16,
            decreases rest,
        {
            if rest % 2 == 1 {
                r += 1;
            }
            rest = rest / 2;
        }
        r
    }

    /// The selector text of one flag: its name where the flag is set.
    pub open spec fn flag_text(self, flag: u16, name: Seq<char>) -> Seq<char> {
        if self.bits & flag == flag {
            name
        } else {
            Seq::empty()
        }
    }

    /// The selector text of the set: the names of its flags, each behind a
    /// colon, in the order of their bits. The custom flag has no name.
    pub open spec fn text(self) -> Seq<char> {
        self.flag_text(Self::HOVER, ":hover"@) + self.flag_text(Self::OVER, ":over"@)
            + self.flag_text(Self::ACTIVE, ":active"@) + self.flag_text(Self::FOCUS, ":focus"@)
            + self.flag_text(Self::DISABLED, ":disabled"@) + self.flag_text(
            Self::CHECKED,
            ":checked"@,
        ) + self.flag_text(Self::SELECTED, ":selected"@) + self.flag_text(
            Self::FOCUS_WITHIN,
            ":focus-within"@,
        ) + self.flag_text(Self::FOCUS_VISIBLE, ":focus-visible"@) + self.flag_text(
            Self::ROOT,
            ":root"@,
        )
    }

    /// Appends `name` to `out` where `flag` is set.
    fn write_flag(&self, out: &mut String, flag: u16, name: &str)
        ensures
            final(out)@ == old(out)@ + self.flag_text(flag, name@),
    {
        if self.bits & flag == flag {
            out.append(name);
        }
    }

    /// Writes the set as it stands in a selector.
    pub fn to_string(&self) -> (r: String)
        ensures
            r@ == self.text(),
    {
        let mut out = String::new();
        self.write_flag(&mut out, Self::HOVER, ":hover");
        self.write_flag(&mut out, Self::OVER, ":over");
        self.write_flag(&mut out, Self::ACTIVE, ":active");
        self.write_flag(&mut out, Self::FOCUS, ":focus");
        self.write_flag(&mut out, Self::DISABLED, ":disabled");
        self.write_flag(&mut out, Self::CHECKED, ":checked");
        self.write_flag(&mut out, Self::SELECTED, ":selected");
        self.write_flag(&mut out, Self::FOCUS_WITHIN, ":focus-within");
        self.write_flag(&mut out, Self::FOCUS_VISIBLE, ":focus-visible");
        self.write_flag(&mut out, Self::ROOT, ":root");
        out
    }
}

impl Default for PseudoClass {
    fn default() -> (r: PseudoClass)
        ensures
            r.bits == 0,
    {
        PseudoClass::empty()
    }
}

} // verus!
