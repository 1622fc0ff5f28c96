use vstd::prelude::*;
use vstd::string::StrSliceExecFns;

verus! {

/// The value of a decimal digit.
pub open spec fn digit_value(c: char) -> Option<nat> {
    if '0' <= c && c <= '9' {
        Some((c as nat - '0' as nat) as nat)
    } else {
        None
    }
}

/// The number that a run of decimal digits writes; `None` for the empty run
/// and for one that holds anything but digits.
pub open spec fn decimal_value(digits: Seq<char>) -> Option<nat>
    decreases digits.len(),
{
    if digits.len() == 0 {
        None
    } else if digits.len() == 1 {
        digit_value(digits[0])
    } else {
        match (decimal_value(digits.drop_last()), digit_value(digits.last())) {
            (Some(high), Some(low)) => Some(10 * high + low),
            _ => None,
        }
    }
}

/// The offset that a token writes: decimal digits, with one `+` in front if
/// it likes, giving a number that fits in 64 bits.
pub open spec fn offset_value(token: Seq<char>) -> Option<u64> {
    let digits = if token.len() > 0 && token[0] == '+' {
        token.subrange(1, token.len() as int)
    } else {
        token
    };
    match decimal_value(digits) {
        Some(n) => if n <= u64::MAX {
            Some(n as u64)
        } else {
            None
        },
        None => None,
    }
}

/// A number only grows as digits are added to it.
proof fn lemma_decimal_grows(digits: Seq<char>, len: int)
    requires
        0 < len <= digits.len(),
        decimal_value(digits) is Some,
    ensures
        decimal_value(digits.take(len)) is Some,
        decimal_value(digits.take(len))->0 <= decimal_value(digits)->0,
    decreases digits.len(),
{
    if len == digits.len() {
        assert(digits.take(len) == digits);
    } else {
        assert(digits.drop_last().take(len) == digits.take(len));
        lemma_decimal_grows(digits.drop_last(), len);
    }
}

/// Reads a literal offset.
pub fn parse_offset(token: &str) -> (offset: Option<u64>)
    ensures
        offset == offset_value(token@),
{
    let len = token.unicode_len();
    let start: usize = if len > 0 && token.get_char(0) == '+' {
        1
    } else {
        0
    };
    if start == len {
        return None;
    }
    let ghost digits = token@.subrange(start as int, len as int);
    assert(start == 0 ==> digits == token@);
    assert(offset_value(token@) == match decimal_value(digits) {
        Some(n) => if n <= u64::MAX {
            Some(n as u64)
        } else {
            None
        },
        None => None,
    });
    let mut value: u64 = 0;
    let mut i: usize = start;
    while i < len
        invariant
            start <= i <= len,
            start < len,
            len == token@.len(),
            digits == token@.subrange(start as int, len as int),
            offset_value(token@) == match decimal_value(digits) {
                Some(n) => if n <= u64::MAX {
                    Some(n as u64)
                } else {
                    None
                },
                None => None,
            },
            i > start ==> decimal_value(digits.take(i - start)) == Some(value as nat),
            i == start ==> value == 0,
        decreases len - i,
    {
        let c = token.get_char(i);
        let ghost seen = digits.take(i + 1 - start);
        assert(seen.drop_last() == digits.take(i - start));
        if !('0' <= c && c <= '9') {
            proof {
                if decimal_value(digits) is Some {
                    lemma_decimal_grows(digits, i + 1 - start);
                }
            }
            return None;
        }
        let low: u64 = (c as u32 - '0' as u32) as u64;
        if value > (u64::MAX - low) / 10 {
            proof {
                if decimal_value(digits) is Some {
                    lemma_decimal_grows(digits, i + 1 - start);
                }
            }
            return None;
        }
        value = 10 * value + low;
        i += 1;
    }
    assert(digits.take(len - start) == digits);
    Some(value)
}

/// One step of a symbolic path after its static field.
#[derive(Clone, Copy, Debug, PartialEq, Eq)]
pub enum Hop {
    /// A fixed offset, as into an array or a struct held in place.
    Literal(u64),
    /// The offset of `field` in `class`, to be looked up in the metadata.
    Field { class: &'static str, field: &'static str },
}

impl Hop {
    /// The hop that a pair of names stands for: with an empty class name the
    /// second name is a literal offset, which must read as one.
    pub open spec fn of(names: (&'static str, &'static str)) -> Option<Hop> {
        if names.0@.len() == 0 {
            match offset_value(names.1@) {
                Some(offset) => Some(Hop::Literal(offset)),
                None => None,
            }
        } else {
            Some(Hop::Field { class: names.0, field: names.1 })
        }
    }
}

/// Where a value lives, by name: a static field of a class, then hops from
/// object to object.
#[derive(Clone, Debug, PartialEq, Eq)]
pub struct SymbolicPath {
    pub static_class: &'static str,
    pub static_field: &'static str,
    pub hops: Vec<Hop>,
}

impl SymbolicPath {
    /// Builds a path from names. It is `None` exactly if a hop with an empty
    /// class name does not read as a literal offset.
    pub fn new(
        static_class: &'static str,
        static_field: &'static str,
        dynamic_class_fields: &[(&'static str, &'static str)],
    ) -> (path: Option<SymbolicPath>)
        ensures
            match path {
                Some(path) => {
                    &&& path.static_class == static_class
                    &&& path.static_field == static_field
                    &&& path.hops@.len() == dynamic_class_fields@.len()
                    &&& forall|i: int|
                        0 <= i < dynamic_class_fields@.len() ==> Hop::of(
                            #[trigger] dynamic_class_fields@[i],
                        ) == Some(path.hops@[i])
                },
                None => exists|i: int|
                    0 <= i < dynamic_class_fields@.len() && Hop::of(
                        #[trigger] dynamic_class_fields@[i],
                    ) is None,
            },
    {
        let mut hops: Vec<Hop> = Vec::new();
        let mut i: usize = 0;
        while i < dynamic_class_fields.len()
            invariant
                i <= dynamic_class_fields@.len(),
                hops@.len() == i,
                forall|j: int|
                    0 <= j < i ==> Hop::of(#[trigger] dynamic_class_fields@[j]) == Some(hops@[j]),
            decreases dynamic_class_fields@.len() - i,
        {
            let (class, field) = dynamic_class_fields[i];
            if class.is_empty() {
                match parse_offset(field) {
                    Some(offset) => hops.push(Hop::Literal(offset)),
                    None => {
                        return None;
                    },
                }
            } else {
                hops.push(Hop::Field { class, field });
            }
            i += 1;
        }
        Some(SymbolicPath { static_class, static_field, hops })
    }
}


/// A resolved path: the address to start from and the offsets to follow.
///
/// Reading a value through it goes: add `base_offset` to `base_address`; as
/// long as hops remain, read the pointer stored there and add the next hop
/// to it; the value lives at the address reached last.
#[derive(Clone, Debug, PartialEq, Eq)]
pub struct AddressChain {
    pub base_address: u64,
    pub base_offset: u64,
    pub hops: Vec<u64>,
}

/// An `AddressChain` as plain values.
pub struct AddressChainView {
    pub base_address: u64,
    pub base_offset: u64,
    pub hops: Seq<u64>,
}

impl View for AddressChain {
    type V = AddressChainView;

    open spec fn view(&self) -> AddressChainView {
        AddressChainView {
            base_address: self.base_address,
            base_offset: self.base_offset,
            hops: self.hops@,
        }
    }
}

impl AddressChainView {
    /// Every offset of the chain in the order in which it is applied.
    pub open spec fn offsets(self) -> Seq<u64> {
        seq![self.base_offset] + self.hops
    }
}

impl AddressChain {
    /// Every offset of the chain in the order in which it is applied, the
    /// static field's first.
    pub fn offsets(&self) -> (offsets: Vec<u64>)
        ensures
            offsets@ == self@.offsets(),
    {
        let mut offsets: Vec<u64> = Vec::new();
        offsets.push(self.base_offset);
        let mut i: usize = 0;
        while i < self.hops.len()
            invariant
                i <= self.hops@.len(),
                offsets@ == seq![self.base_offset] + self.hops@.take(i as int),
            decreases self.hops@.len() - i,
        {
            offsets.push(self.hops[i]);
            i += 1;
        }
        offsets
    }
}

} // verus!
