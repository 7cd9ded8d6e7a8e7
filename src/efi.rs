//! Firmware value types that the boot sequence reads.

use vstd::prelude::*;
use vstd::string::StringExecFns;
use crate::listing::{hex_fixed, push_hex_fixed};

verus! {

/// Identity of a firmware protocol or configuration table.
#[derive(Clone, Copy, Debug)]
pub struct GUID {
    pub a: u32,
    /// The middle field of the timestamp.
    pub b: u16,
    /// The high field of the timestamp multiplexed with the version number.
    pub c: u16,
    /// The clock sequence, then the node identifier.
    pub d: [u8; 8],
}

impl PartialEq for GUID {
    fn eq(&self, other: &GUID) -> (r: bool) {
        if self.a != other.a || self.b != other.b || self.c != other.c {
            return false;
        }
        let mut i: usize = 0;
        while i < 8
            invariant
                i <= 8,
                forall|j: int| 0 <= j < i ==> self.d@[j] == other.d@[j],
            decreases 8 - i,
        {
            if self.d[i] != other.d[i] {
                return false;
            }
            i = i + 1;
        }
        assert(self.d@ =~= other.d@);
        true
    }
}

/// The registry form of a GUID: `aaaaaaaa-bbbb-cccc-dddd-dddddddddddd`, in
/// lower-case hexadecimal.
pub open spec fn guid_text(g: GUID) -> Seq<char> {
    hex_fixed(g.a as nat, 8) + "-"@ + hex_fixed(g.b as nat, 4) + "-"@ + hex_fixed(g.c as nat, 4)
        + "-"@ + digits_of(g.d@, 0, 2) + "-"@ + digits_of(g.d@, 2, 8)
}

impl GUID {
    /// The registry form of this GUID.
    pub fn to_text(&self) -> (r: String)
        ensures
            r@ == guid_text(*self),
    {
        let mut out = String::new();
        push_hex_fixed(&mut out, self.a as u64, 8);
        out.append("-");
        push_hex_fixed(&mut out, self.b as u64, 4);
        out.append("-");
        push_hex_fixed(&mut out, self.c as u64, 4);
        out.append("-");
        let ghost head = out@;
        push_hex_fixed(&mut out, self.d[0] as u64, 2);
        push_hex_fixed(&mut out, self.d[1] as u64, 2);
        assert(digits_of(self.d@, 0, 0) =~= Seq::<char>::empty());
        assert(digits_of(self.d@, 0, 1) =~= hex_fixed(self.d@[0] as nat, 2));
        assert(out@ =~= head + digits_of(self.d@, 0, 2));
        out.append("-");
        let ghost prefix = out@;
        assert(digits_of(self.d@, 2, 2) =~= Seq::<char>::empty());
        assert(out@ =~= prefix + digits_of(self.d@, 2, 2));
        let mut i: usize = 2;
        while i < 8
            invariant
                2 <= i <= 8,
                out@ == prefix + digits_of(self.d@, 2, i as int),
            decreases 8 - i,
        {
            push_hex_fixed(&mut out, self.d[i] as u64, 2);
            i = i + 1;
            assert(out@ =~= prefix + digits_of(self.d@, 2, i as int));
        }
        assert(out@ =~= guid_text(*self));
        out
    }
}

/// The bytes `d[from..to]` as two hexadecimal digits each.
pub open spec fn digits_of(d: Seq<u8>, from: int, to: int) -> Seq<char>
    decreases to - from,
{
    if to <= from {
        Seq::empty()
    } else {
        digits_of(d, from, to - 1) + hex_fixed(d[to - 1] as nat, 2)
    }
}

impl vstd::std_specs::cmp::PartialEqSpecImpl for GUID {
    open spec fn obeys_eq_spec() -> bool {
        true
    }

    open spec fn eq_spec(&self, other: &GUID) -> bool {
        self.a == other.a && self.b == other.b && self.c == other.c && self.d@ == other.d@
    }
}

/// What the boot sequence reads from the firmware's system table: the
/// addresses of the service tables and of the configuration-table array,
/// and the number of entries in that array.
#[derive(Clone, Copy, PartialEq, Eq, Structural, Debug)]
pub struct SystemTable {
    pub revision: u32,
    pub runtime_services: usize,
    pub boot_services: usize,
    pub entry_count: usize,
    pub configuration_table: usize,
}

impl SystemTable {
    /// A cursor over the configuration-table entries, at the first one.
    pub fn config_tables(&self) -> (r: ConfigurationTableIterator)
        ensures
            r.configuration_base == self.configuration_table,
            r.size == self.entry_count,
            r.index == 0,
    {
        ConfigurationTableIterator::new(self.configuration_table, self.entry_count)
    }
}

/// A cursor over the `size` entries of the configuration-table array at
/// `configuration_base`.
#[derive(Clone, Copy, PartialEq, Eq, Structural, Debug)]
pub struct ConfigurationTableIterator {
    pub configuration_base: usize,
    pub size: usize,
    pub index: usize,
}

impl ConfigurationTableIterator {
    pub fn new(configuration_base: usize, size: usize) -> (r: ConfigurationTableIterator)
        ensures
            r.configuration_base == configuration_base,
            r.size == size,
            r.index == 0,
    {
        ConfigurationTableIterator { configuration_base, size, index: 0 }
    }

    /// The index of the next entry to visit, or `None` once every entry has
    /// been visited.
    pub fn next_index(&mut self) -> (r: Option<usize>)
        ensures
            final(self).configuration_base == old(self).configuration_base,
            final(self).size == old(self).size,
            old(self).index < old(self).size ==> r == Some(old(self).index) && final(self).index
                == old(self).index + 1,
            old(self).index >= old(self).size ==> r is None && final(self).index == old(
                self).index,
    {
        if self.index < self.size {
            let i = self.index;
            self.index = i + 1;
            Some(i)
        } else {
            None
        }
    }
}

/// A firmware time stamp, as file metadata carries it.
#[derive(Clone, Copy, PartialEq, Eq, Structural, Debug, Default)]
pub struct Time {
    pub year: u16,
    pub month: u8,
    pub day: u8,
    pub hour: u8,
    pub minute: u8,
    pub second: u8,
    pub nanosecond: u32,
    pub time_zone: i16,
    pub daylight: u8,
}

} // verus!
